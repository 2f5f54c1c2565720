//! The local JSON-RPC 2.0 interface: which method a request names, the
//! checks on its parameters, and the error envelope.
use vstd::prelude::*;

use crate::digest::{parse_uuid, uuid_parse};
use crate::error::{detail_of, message_prefix, rpc_code_of, CoreError};
use crate::text::{append_str, str_chars, string_from_chars, trim, trim_chars};

verus! {

/// The methods of the interface.
#[derive(Debug, Clone, Copy, PartialEq, Eq, Structural)]
pub enum RpcMethod {
    /// `ping`.
    Ping,
    /// `info`.
    Info,
    /// `instance.start`.
    InstanceStart,
    /// `instance.stop`.
    InstanceStop,
    /// `instance.get`.
    InstanceGet,
    /// `instance.list_meta`.
    InstanceListMeta,
    /// `network.status`.
    NetworkStatus,
    /// `logs.recent`.
    LogsRecent,
}

/// The name of a method.
pub open spec fn method_name(m: RpcMethod) -> Seq<char> {
    match m {
        RpcMethod::Ping => "ping"@,
        RpcMethod::Info => "info"@,
        RpcMethod::InstanceStart => "instance.start"@,
        RpcMethod::InstanceStop => "instance.stop"@,
        RpcMethod::InstanceGet => "instance.get"@,
        RpcMethod::InstanceListMeta => "instance.list_meta"@,
        RpcMethod::NetworkStatus => "network.status"@,
        RpcMethod::LogsRecent => "logs.recent"@,
    }
}

fn method_text(m: RpcMethod) -> (t: &'static str)
    ensures
        t@ == method_name(m),
{
    match m {
        RpcMethod::Ping => "ping",
        RpcMethod::Info => "info",
        RpcMethod::InstanceStart => "instance.start",
        RpcMethod::InstanceStop => "instance.stop",
        RpcMethod::InstanceGet => "instance.get",
        RpcMethod::InstanceListMeta => "instance.list_meta",
        RpcMethod::NetworkStatus => "network.status",
        RpcMethod::LogsRecent => "logs.recent",
    }
}

/// The method a request names; `MethodNotFound` with the name for any
/// other.
pub fn rpc_method(method: &str) -> (r: Result<RpcMethod, CoreError>)
    ensures
        match r {
            Ok(m) => method_name(m) == method@,
            Err(e) => (forall|m: RpcMethod| method_name(m) != method@) && (e matches CoreError::MethodNotFound(t) && t@ == method@),
        },
{
    let all: [RpcMethod; 8] = [
        RpcMethod::Ping,
        RpcMethod::Info,
        RpcMethod::InstanceStart,
        RpcMethod::InstanceStop,
        RpcMethod::InstanceGet,
        RpcMethod::InstanceListMeta,
        RpcMethod::NetworkStatus,
        RpcMethod::LogsRecent,
    ];
    let mut i: usize = 0;
    while i < 8
        invariant
            i <= 8,
            all@ == seq![
                RpcMethod::Ping,
                RpcMethod::Info,
                RpcMethod::InstanceStart,
                RpcMethod::InstanceStop,
                RpcMethod::InstanceGet,
                RpcMethod::InstanceListMeta,
                RpcMethod::NetworkStatus,
                RpcMethod::LogsRecent,
            ],
            forall|k: int| 0 <= k < i ==> method_name(#[trigger] all@[k]) != method@,
        decreases 8 - i,
    {
        let m = all[i];
        if crate::text::str_eq(method_text(m), method) {
            return Ok(m);
        }
        i = i + 1;
    }
    assert forall|m: RpcMethod| method_name(m) != method@ by {
        let k: int = match m {
            RpcMethod::Ping => 0,
            RpcMethod::Info => 1,
            RpcMethod::InstanceStart => 2,
            RpcMethod::InstanceStop => 3,
            RpcMethod::InstanceGet => 4,
            RpcMethod::InstanceListMeta => 5,
            RpcMethod::NetworkStatus => 6,
            RpcMethod::LogsRecent => 7,
        };
        assert(all@[k] == m);
    }
    Err(CoreError::MethodNotFound(method.to_string()))
}

/// An instance id parameter: refused when blank, else parsed as a UUID
/// (as given, untrimmed).
pub fn parse_instance_id(raw: &str) -> (r: Result<u128, CoreError>)
    ensures
        trim(raw@).len() == 0 ==> (r matches Err(CoreError::InvalidArgument(m)) && m@
            == "instance_id 为空"@),
        trim(raw@).len() > 0 ==> match uuid_parse(raw@) {
            Some(u) => r == Ok::<u128, CoreError>(u),
            None => r matches Err(CoreError::InvalidArgument(m)) && m@ == "无效 instance_id: "@
                + raw@,
        },
{
    if trim_chars(&str_chars(raw)).len() == 0 {
        return Err(CoreError::InvalidArgument("instance_id 为空".to_string()));
    }
    match parse_uuid(raw) {
        Some(u) => Ok(u),
        None => {
            let mut m: Vec<char> = Vec::new();
            append_str(&mut m, "无效 instance_id: ");
            append_str(&mut m, raw);
            Err(CoreError::InvalidArgument(string_from_chars(m.as_slice())))
        },
    }
}

/// `instance.start` needs a configuration text that is not blank.
pub fn check_start_toml(toml: &str) -> (r: Result<(), CoreError>)
    ensures
        trim(toml@).len() == 0 ==> (r matches Err(CoreError::InvalidArgument(m)) && m@
            == "缺少 toml"@),
        trim(toml@).len() > 0 ==> r is Ok,
{
    if trim_chars(&str_chars(toml)).len() == 0 {
        Err(CoreError::InvalidArgument("缺少 toml".to_string()))
    } else {
        Ok(())
    }
}

/// The error for an instance that is neither run nor cached.
pub fn instance_not_found(instance_id: &str) -> (e: CoreError)
    ensures
        e matches CoreError::NotFound(m) && m@ == "实例不存在: "@ + instance_id@,
{
    let mut m: Vec<char> = Vec::new();
    append_str(&mut m, "实例不存在: ");
    append_str(&mut m, instance_id);
    CoreError::NotFound(string_from_chars(m.as_slice()))
}

/// JSON-RPC code of a request body that is not JSON.
pub const PARSE_ERROR: i64 = -32700;

/// JSON-RPC code of a request without a method.
pub const INVALID_REQUEST: i64 = -32600;

/// The error of a request body that does not parse: code and message.
pub fn parse_failure(detail: &str) -> (r: (i64, String))
    ensures
        r.0 == PARSE_ERROR,
        r.1@ == "JSON 解析失败: "@ + detail@,
{
    let mut m: Vec<char> = Vec::new();
    append_str(&mut m, "JSON 解析失败: ");
    append_str(&mut m, detail);
    (PARSE_ERROR, string_from_chars(m.as_slice()))
}

/// A request must name a method: `-32600 缺少 method` otherwise.
pub fn check_request_method(method: &str) -> (r: Result<(), (i64, String)>)
    ensures
        method@.len() == 0 ==> (r matches Err((c, m)) && c == INVALID_REQUEST && m@
            == "缺少 method"@),
        method@.len() > 0 ==> r is Ok,
{
    if method.is_empty() {
        Err((INVALID_REQUEST, "缺少 method".to_string()))
    } else {
        Ok(())
    }
}

/// The error member of a reply for a failed call: the error's code and
/// its text.
pub fn error_reply(e: &CoreError) -> (r: (i64, String))
    ensures
        r.0 == rpc_code_of(*e),
        r.1@ == message_prefix(*e) + detail_of(*e),
{
    (e.rpc_code(), e.to_message())
}

/// The answer to `info`.
#[derive(Debug, Clone)]
pub struct RpcInfo {
    /// Interface version.
    pub api_version: String,
    /// Daemon version.
    pub core_version: String,
    /// Protocol name.
    pub protocol: String,
}

/// The answer to `info`: interface version `0.1.0`, the daemon's version
/// and the protocol `astral.jsonrpc.v1`.
pub fn rpc_info(core_version: &str) -> (i: RpcInfo)
    ensures
        i.api_version@ == "0.1.0"@,
        i.core_version@ == core_version@,
        i.protocol@ == "astral.jsonrpc.v1"@,
{
    RpcInfo {
        api_version: "0.1.0".to_string(),
        core_version: core_version.to_string(),
        protocol: "astral.jsonrpc.v1".to_string(),
    }
}

/// What `logs.recent` reads: the lines after `after`, at most `limit`,
/// of one instance when an id (trimmed) is given.
#[derive(Debug, Clone)]
pub struct LogsQuery {
    /// Sequence number to read after.
    pub after: u64,
    /// Most lines to return.
    pub limit: usize,
    /// Instance to filter by.
    pub instance_id: Option<String>,
}

/// The query of a `logs.recent` call: a zero limit means 200, larger ones
/// are capped at 2000; a blank instance id means all instances.
pub fn logs_query(after: u64, limit: u32, instance_id: &str) -> (q: LogsQuery)
    ensures
        q.after == after,
        q.limit == (if limit == 0 {
            200
        } else if limit > 2000 {
            2000
        } else {
            limit as int
        }),
        match q.instance_id {
            Some(i) => trim(instance_id@).len() > 0 && i@ == trim(instance_id@),
            None => trim(instance_id@).len() == 0,
        },
{
    let t = trim_chars(&str_chars(instance_id));
    LogsQuery {
        after,
        limit: crate::logs::logs_recent_limit(limit),
        instance_id: if t.len() == 0 {
            None
        } else {
            Some(string_from_chars(t.as_slice()))
        },
    }
}

} // verus!
