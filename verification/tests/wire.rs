use std::sync::Arc;

use astral_core::discovery::{
    discovery_response, is_discovery_request, parse_discovery_response, DISCOVERY_PORT,
};
use astral_core::dispatch::{decode_failure, tunnel_method_table, tunnel_outcome, tunnel_route};
use astral_core::frame::{
    check_tunnel_method, decode_grpc_payload, encode_grpc_payload, extract_bearer,
    percent_encode, status_headers, tunnel_metadata, tunnel_reply, AdminGateService,
    AuthInterceptor, FrameError, RpcStatus, CODE_INVALID_ARGUMENT, CODE_UNAUTHENTICATED,
    CODE_UNIMPLEMENTED,
};
use astral_core::tokens::TokenStore;

#[test]
fn grpc_frame_round_trip() {
    let framed = encode_grpc_payload(&[1, 2, 3]);
    assert_eq!(framed, vec![0, 0, 0, 0, 3, 1, 2, 3]);
    assert_eq!(decode_grpc_payload(&framed), Ok(vec![1, 2, 3]));
}

#[test]
fn grpc_frame_errors() {
    assert_eq!(decode_grpc_payload(&[0, 0, 0]), Err(FrameError::TooShort));
    assert_eq!(decode_grpc_payload(&[1, 0, 0, 0, 0]), Err(FrameError::Compressed));
    assert_eq!(decode_grpc_payload(&[0, 0, 0, 0, 9, 1]), Err(FrameError::LengthMismatch));
    let s = FrameError::Compressed.to_status();
    assert_eq!(s.code, CODE_UNIMPLEMENTED);
    assert_eq!(s.message, "不支持压缩 gRPC 帧");
    assert_eq!(FrameError::TooShort.to_status().message, "gRPC 帧过短");
}

#[test]
fn grpc_message_percent_encoding() {
    assert_eq!(percent_encode("a b/ü-_.~"), "a%20b%2F%C3%BC-_.~");
    assert_eq!(percent_encode("a b/c"), "a%20b%2Fc");
    assert_eq!(percent_encode("é"), "%C3%A9");
    assert_eq!(percent_encode("中"), "%E4%B8%AD");
    let (code, msg) = status_headers(&RpcStatus { code: 16, message: "no auth".into() });
    assert_eq!(code, "16");
    assert_eq!(msg, "no%20auth");
}

#[test]
fn bearer_token_extraction() {
    assert_eq!(extract_bearer(Some("Bearer abc ")), Some("abc".to_string()));
    assert_eq!(extract_bearer(Some("bearer xyz")), Some("xyz".to_string()));
    assert_eq!(extract_bearer(Some("Basic abc")), None);
    assert_eq!(extract_bearer(Some("Bearer   ")), None);
    assert_eq!(extract_bearer(None), None);
}

#[test]
fn admin_gate_lets_agent_session_through_and_checks_token() {
    let gate = AdminGateService::new((), "secret".to_string());
    assert!(gate.check("/astral.v1.NodeService/AgentSession", None).is_ok());
    assert!(gate.check("/astral.v1.NodeService/ListNodes", Some("Bearer secret")).is_ok());
    let err = gate.check("/astral.v1.NodeService/ListNodes", Some("Bearer other")).unwrap_err();
    assert_eq!(err.code, CODE_UNAUTHENTICATED);
    assert_eq!(
        err.message,
        "控制端管理 API 需要 authorization: Bearer <token>（与 --token 相同）"
    );
}

#[test]
fn auth_interceptor_accepts_only_valid_tokens() {
    let mut store = TokenStore::from_records("t.json".into(), Vec::new());
    store.insert_new("id".into(), "gui".into(), "ask_plain".into(), None, 1);
    let icpt = AuthInterceptor::new(Arc::new(store));
    assert!(icpt.check_at(Some("Bearer ask_plain"), 2).is_ok());
    assert_eq!(icpt.check_at(Some("Bearer nope"), 2).unwrap_err().code, CODE_UNAUTHENTICATED);
    assert_eq!(icpt.check_at(None, 2).unwrap_err().code, CODE_UNAUTHENTICATED);
}

#[test]
fn tunnel_metadata_drops_selector_and_pseudo_headers() {
    let headers = vec![
        ("x-astral-node-id".to_string(), Some("n1".to_string())),
        (":path".to_string(), Some("/x".to_string())),
        ("authorization".to_string(), Some("Bearer t".to_string())),
        ("bin".to_string(), None),
        ("te".to_string(), Some("trailers".to_string())),
    ];
    assert_eq!(
        tunnel_metadata(&headers),
        vec![
            ("authorization".to_string(), "Bearer t".to_string()),
            ("te".to_string(), "trailers".to_string())
        ]
    );
}

#[test]
fn agent_session_cannot_be_tunnelled() {
    let e = check_tunnel_method("/astral.v1.NodeService/AgentSession").unwrap_err();
    assert_eq!(e.code, CODE_INVALID_ARGUMENT);
    assert!(check_tunnel_method("/astral.v1.NodeService/ListNodes").is_ok());
}

#[test]
fn tunnel_reply_maps_status_or_frames_payload() {
    assert_eq!(tunnel_reply(0, String::new(), &[7]), Ok(vec![0, 0, 0, 0, 1, 7]));
    let e = tunnel_reply(5, "gone".into(), &[]).unwrap_err();
    assert_eq!((e.code, e.message.as_str()), (5, "gone"));
    assert_eq!(tunnel_reply(99, "odd".into(), &[]).unwrap_err().code, 2);
}

#[test]
fn tunnel_routes_known_methods_with_or_without_slash() {
    let table = tunnel_method_table();
    assert_eq!(table.len(), 58);
    let i = tunnel_route(" /astral.v1.SystemService/Ping ").unwrap();
    assert_eq!(table[i], "astral.v1.SystemService/Ping");
    let j = tunnel_route("astral.v1.VpnPortalService/DisableVpnPortal").unwrap();
    assert_eq!(table[j], "astral.v1.VpnPortalService/DisableVpnPortal");
    let e = tunnel_route("/astral.v1.NodeService/AgentSession").unwrap_err();
    assert_eq!(e.code, CODE_UNIMPLEMENTED);
    assert_eq!(e.message, "隧道尚未代理该方法: /astral.v1.NodeService/AgentSession");
}

#[test]
fn tunnel_outcome_and_decode_failure() {
    assert_eq!(tunnel_outcome(Ok(vec![9])), (0, String::new(), vec![9]));
    let s = decode_failure("bad wire type");
    assert_eq!(s.code, CODE_INVALID_ARGUMENT);
    assert_eq!(s.message, "解码请求失败: bad wire type");
    assert_eq!(tunnel_outcome(Err(s)), (3, "解码请求失败: bad wire type".to_string(), vec![]));
}

#[test]
fn discovery_request_and_response() {
    assert_eq!(DISCOVERY_PORT, 50050);
    assert!(is_discovery_request(b"ASTRAL_DISCOVER"));
    assert!(is_discovery_request(b"ASTRAL_DISCOVER extra"));
    assert!(!is_discovery_request(b"ASTRAL_DISCO"));
    assert_eq!(discovery_response("127.0.0.1:50051"), "ASTRAL_CORE 127.0.0.1:50051");
    assert_eq!(
        parse_discovery_response(b"ASTRAL_CORE  127.0.0.1:50051 \n"),
        Some("127.0.0.1:50051".to_string())
    );
    assert_eq!(parse_discovery_response(b"OTHER 1"), None);
    assert_eq!(parse_discovery_response(&[0xff, 0xfe]), None);
}

#[test]
fn discovery_answer_round_trip() {
    let answer = discovery_response(" 127.0.0.1:50051");
    assert_eq!(
        parse_discovery_response(answer.as_bytes()),
        Some("127.0.0.1:50051".to_string())
    );
}

#[test]
fn routing_ignores_leading_slash_and_spaces() {
    let m = "astral.v1.NetworkService/ListPeers";
    let a = tunnel_route(m).unwrap();
    assert_eq!(tunnel_route(&format!("/{m}")).unwrap(), a);
    assert_eq!(tunnel_route(&format!(" /{m} ")).unwrap(), a);
    assert_eq!(tunnel_method_table()[a], m);
    let e1 = tunnel_route("astral.v1.NodeService/AgentSession").unwrap_err();
    let e2 = tunnel_route(" /astral.v1.NodeService/AgentSession ").unwrap_err();
    assert_eq!(e1.code, 12);
    assert_eq!(e1.message, e2.message);
}
