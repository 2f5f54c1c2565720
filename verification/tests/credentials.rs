use astral_core::controller_auth::{ControllerAuth, HandshakeRequest};
use astral_core::digest::hash_hex;
use astral_core::error::CoreError;
use astral_core::tokens::{TokenRecord, TokenStore};

fn handshake(enroll: &str, credential: &str, node: &str) -> HandshakeRequest {
    HandshakeRequest {
        enroll_token: enroll.to_string(),
        device_credential: credential.to_string(),
        node_id: node.to_string(),
        core_version: "0.1.0".to_string(),
        capabilities: vec!["tunnel.unary".to_string()],
        os: "linux".to_string(),
        arch: "x86_64".to_string(),
        name: "n1".to_string(),
    }
}

#[test]
fn sha256_hex_of_known_text() {
    assert_eq!(
        hash_hex("abc"),
        "ba7816bf8f01cfea414140de5dae2223b00361a396177a9cb410ff61f20015ad"
    );
}

#[test]
fn created_token_verifies_and_is_listed() {
    let mut store = TokenStore::from_records("tokens.json".to_string(), Vec::new());
    let (rec, plain) = store.create("gui".to_string(), None);
    assert!(plain.starts_with("ask_"));
    assert_eq!(plain.len(), 4 + 64);
    assert_eq!(rec.prefix, plain[..12].to_string());
    assert_eq!(rec.hash_hex, hash_hex(&plain));
    assert!(store.verify_plaintext(&plain));
    assert!(!store.verify_plaintext("ask_wrong"));
    assert_eq!(store.list(false).len(), 1);
    assert_eq!(store.active_count(), 1);
}

#[test]
fn revoking_the_last_valid_token_is_refused() {
    let mut store = TokenStore::from_records("t.json".to_string(), Vec::new());
    let (rec, plain) = store.insert_new("id1".into(), "a".into(), "ask_one".into(), None, 100);
    match store.revoke_at(&rec.token_id, 100) {
        Err(CoreError::FailedPrecondition(m)) => {
            assert_eq!(m, "禁止吊销最后一把有效 API Token（LAST_TOKEN_REVOKE_FORBIDDEN）")
        }
        other => panic!("unexpected {:?}", other),
    }
    assert!(store.verify_plaintext_at(&plain, 100));
}

#[test]
fn revoking_one_of_two_tokens_keeps_the_other_valid() {
    let mut store = TokenStore::from_records("t.json".to_string(), Vec::new());
    let (a, pa) = store.insert_new("id1".into(), "a".into(), "ask_one".into(), None, 100);
    let (_b, pb) = store.insert_new("id2".into(), "b".into(), "ask_two".into(), None, 100);
    assert!(store.revoke_at(&a.token_id, 100).is_ok());
    assert!(!store.verify_plaintext_at(&pa, 100));
    assert!(store.verify_plaintext_at(&pb, 100));
    assert_eq!(store.active_count_at(100), 1);
    assert_eq!(store.list(false).len(), 1);
    assert_eq!(store.list(true).len(), 2);
    assert!(store.revoke_at(&a.token_id, 100).is_ok());
}

#[test]
fn revoking_unknown_token_is_not_found() {
    let mut store = TokenStore::from_records("t.json".to_string(), Vec::new());
    match store.revoke_at("nope", 5) {
        Err(CoreError::NotFound(m)) => assert_eq!(m, "token_id=nope"),
        other => panic!("unexpected {:?}", other),
    }
}

#[test]
fn expired_token_does_not_verify() {
    let rec = TokenRecord {
        token_id: "x".into(),
        name: "old".into(),
        prefix: "ask_old".into(),
        hash_hex: hash_hex("ask_old"),
        created_at_unix: 10,
        expires_at_unix: Some(50),
        revoked: false,
    };
    let store = TokenStore::from_records("t.json".to_string(), vec![rec]);
    assert!(store.verify_plaintext_at("ask_old", 49));
    assert!(!store.verify_plaintext_at("ask_old", 50));
    assert_eq!(store.active_count_at(60), 0);
}

#[test]
fn bootstrap_token_only_when_none_is_valid() {
    let mut store = TokenStore::from_records("t.json".to_string(), Vec::new());
    let first = store.ensure_bootstrap_at(7, "b1".into(), "ask_boot".into());
    let (rec, plain) = first.expect("bootstrap created");
    assert_eq!(rec.name, "bootstrap");
    assert_eq!(plain, "ask_boot");
    assert!(store.ensure_bootstrap_at(8, "b2".into(), "ask_other".into()).is_none());
    assert_eq!(store.list(true).len(), 1);
}

#[test]
fn controller_auth_refuses_empty_join_token() {
    match ControllerAuth::open(String::new(), "devices.json".into(), Vec::new()) {
        Err(CoreError::InvalidArgument(_)) => {}
        other => panic!("unexpected {:?}", other.map(|_| ())),
    }
}

#[test]
fn enrollment_then_reconnect_with_device_credential() {
    let mut auth = ControllerAuth::open("join".into(), "d.json".into(), Vec::new()).unwrap();
    assert_eq!(auth.attestation(), "join");
    let (node, cred) = auth
        .authenticate_with(&handshake("join", "", "n1"), "node-x".into(), "adev_secret".into())
        .unwrap();
    assert_eq!(node, "n1");
    assert_eq!(cred.as_deref(), Some("adev_secret"));
    let (again, none) = auth
        .authenticate_with(&handshake("", "adev_secret", "n1"), "node-y".into(), "adev_z".into())
        .unwrap();
    assert_eq!(again, "n1");
    assert!(none.is_none());
    match auth.authenticate_with(&handshake("", "adev_bad", "n1"), "a".into(), "b".into()) {
        Err(CoreError::FailedPrecondition(m)) => assert_eq!(m, "设备凭证无效"),
        other => panic!("unexpected {:?}", other),
    }
}

#[test]
fn enrollment_cannot_take_over_a_registered_node() {
    let mut auth = ControllerAuth::open("join".into(), "d.json".into(), Vec::new()).unwrap();
    auth.authenticate_with(&handshake("join", "", "n1"), "x".into(), "adev_1".into()).unwrap();
    match auth.authenticate_with(&handshake("join", "", "n1"), "x".into(), "adev_2".into()) {
        Err(CoreError::FailedPrecondition(m)) => {
            assert_eq!(m, "节点已注册，请使用 device_credential 重连: n1")
        }
        other => panic!("unexpected {:?}", other),
    }
    assert_eq!(auth.device_list().len(), 1);
}

#[test]
fn wrong_join_token_and_missing_node_id_are_refused() {
    let mut auth = ControllerAuth::open("join".into(), "d.json".into(), Vec::new()).unwrap();
    match auth.authenticate_with(&handshake("nope", "", "n1"), "x".into(), "c".into()) {
        Err(CoreError::FailedPrecondition(m)) => {
            assert_eq!(m, "enroll_token 无效（与控制端 --token 不一致）")
        }
        other => panic!("unexpected {:?}", other),
    }
    match auth.authenticate_with(&handshake("", "adev_1", ""), "x".into(), "c".into()) {
        Err(CoreError::InvalidArgument(m)) => assert_eq!(m, "重连时必须携带 node_id"),
        other => panic!("unexpected {:?}", other),
    }
    match auth.authenticate_with(&handshake("", "adev_1", "n9"), "x".into(), "c".into()) {
        Err(CoreError::FailedPrecondition(m)) => assert_eq!(m, "未知设备凭证 / 节点未注册"),
        other => panic!("unexpected {:?}", other),
    }
}

#[test]
fn enrolled_node_without_id_gets_generated_id_and_credential() {
    let mut auth = ControllerAuth::open("join".into(), "d.json".into(), Vec::new()).unwrap();
    let (node, cred) = auth.authenticate(&handshake("join", "", "")).unwrap();
    assert!(node.starts_with("node-"));
    assert_eq!(node.len(), 5 + 36);
    let cred = cred.unwrap();
    assert!(cred.starts_with("adev_"));
    assert_eq!(cred.len(), 5 + 64);
    assert_eq!(auth.device_list()[0].hash_hex, hash_hex(&cred));
}
