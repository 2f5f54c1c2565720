//! Routing of tunnelled unary calls to the local services.
use vstd::prelude::*;

use crate::frame::{RpcStatus, CODE_INVALID_ARGUMENT, CODE_UNIMPLEMENTED};
use crate::text::{append_chars, append_str, chars_eq, drop_chars, is_white_space, str_chars,
    string_from_chars, trim, trim_chars, trim_end, trim_start};

verus! {

/// The methods a tunnel may call, in order (services System, Node,
/// Instance, Network, Config, Credential, Stats, Acl, PortForward and
/// VpnPortal; the agent session and enrollment are not among them).
pub open spec fn tunnel_methods() -> Seq<Seq<char>> {
    seq![
        "astral.v1.SystemService/Ping"@,
        "astral.v1.SystemService/GetServerInfo"@,
        "astral.v1.SystemService/GetCapabilities"@,
        "astral.v1.NodeService/GetSelfNode"@,
        "astral.v1.NodeService/ListNodes"@,
        "astral.v1.NodeService/GetNode"@,
        "astral.v1.NodeService/RenameNode"@,
        "astral.v1.NodeService/GetNodeHostInfo"@,
        "astral.v1.InstanceService/ValidateConfig"@,
        "astral.v1.InstanceService/StartInstance"@,
        "astral.v1.InstanceService/StopInstance"@,
        "astral.v1.InstanceService/RestartInstance"@,
        "astral.v1.InstanceService/ListInstances"@,
        "astral.v1.InstanceService/GetInstance"@,
        "astral.v1.InstanceService/DeleteInstance"@,
        "astral.v1.InstanceService/RetainInstances"@,
        "astral.v1.InstanceService/GetInstanceConfig"@,
        "astral.v1.InstanceService/ListInstanceMeta"@,
        "astral.v1.InstanceService/SetAutostart"@,
        "astral.v1.InstanceService/ListAutostart"@,
        "astral.v1.InstanceService/ListProfiles"@,
        "astral.v1.InstanceService/GetProfile"@,
        "astral.v1.InstanceService/UpsertProfile"@,
        "astral.v1.InstanceService/DeleteProfile"@,
        "astral.v1.InstanceService/StartProfile"@,
        "astral.v1.NetworkService/GetNetworkStatus"@,
        "astral.v1.NetworkService/ListPeers"@,
        "astral.v1.NetworkService/GetPeer"@,
        "astral.v1.NetworkService/CollectNetworkInfo"@,
        "astral.v1.NetworkService/ListRoutes"@,
        "astral.v1.NetworkService/DumpRoutes"@,
        "astral.v1.NetworkService/ShowLocalNodeInfo"@,
        "astral.v1.NetworkService/ListForeignNetworks"@,
        "astral.v1.NetworkService/GetForeignNetworkSummary"@,
        "astral.v1.NetworkService/ListConnectors"@,
        "astral.v1.NetworkService/ListMappedListeners"@,
        "astral.v1.NetworkService/ListPublicIpv6Info"@,
        "astral.v1.ConfigService/GetConfig"@,
        "astral.v1.ConfigService/PatchConfig"@,
        "astral.v1.ConfigService/ReplaceConfig"@,
        "astral.v1.CredentialService/CreateToken"@,
        "astral.v1.CredentialService/ListTokens"@,
        "astral.v1.CredentialService/RevokeToken"@,
        "astral.v1.CredentialService/RotateToken"@,
        "astral.v1.StatsService/GetStats"@,
        "astral.v1.StatsService/GetPrometheusMetrics"@,
        "astral.v1.AclService/GetWhitelist"@,
        "astral.v1.AclService/PatchWhitelist"@,
        "astral.v1.AclService/GetAclStats"@,
        "astral.v1.AclService/GetAcl"@,
        "astral.v1.AclService/SetAcl"@,
        "astral.v1.PortForwardService/ListPortForwards"@,
        "astral.v1.PortForwardService/AddPortForward"@,
        "astral.v1.PortForwardService/RemovePortForward"@,
        "astral.v1.PortForwardService/ListTcpProxyEntries"@,
        "astral.v1.VpnPortalService/GetVpnPortalInfo"@,
        "astral.v1.VpnPortalService/EnableVpnPortal"@,
        "astral.v1.VpnPortalService/DisableVpnPortal"@,
    ]
}

/// The method table.
pub fn tunnel_method_table() -> (v: Vec<&'static str>)
    ensures
        v@.map_values(|s: &'static str| s@) == tunnel_methods(),
{
    let mut v: Vec<&'static str> = Vec::new();
    v.push("astral.v1.SystemService/Ping");
    v.push("astral.v1.SystemService/GetServerInfo");
    v.push("astral.v1.SystemService/GetCapabilities");
    v.push("astral.v1.NodeService/GetSelfNode");
    v.push("astral.v1.NodeService/ListNodes");
    v.push("astral.v1.NodeService/GetNode");
    v.push("astral.v1.NodeService/RenameNode");
    v.push("astral.v1.NodeService/GetNodeHostInfo");
    v.push("astral.v1.InstanceService/ValidateConfig");
    v.push("astral.v1.InstanceService/StartInstance");
    v.push("astral.v1.InstanceService/StopInstance");
    v.push("astral.v1.InstanceService/RestartInstance");
    v.push("astral.v1.InstanceService/ListInstances");
    v.push("astral.v1.InstanceService/GetInstance");
    v.push("astral.v1.InstanceService/DeleteInstance");
    v.push("astral.v1.InstanceService/RetainInstances");
    v.push("astral.v1.InstanceService/GetInstanceConfig");
    v.push("astral.v1.InstanceService/ListInstanceMeta");
    v.push("astral.v1.InstanceService/SetAutostart");
    v.push("astral.v1.InstanceService/ListAutostart");
    v.push("astral.v1.InstanceService/ListProfiles");
    v.push("astral.v1.InstanceService/GetProfile");
    v.push("astral.v1.InstanceService/UpsertProfile");
    v.push("astral.v1.InstanceService/DeleteProfile");
    v.push("astral.v1.InstanceService/StartProfile");
    v.push("astral.v1.NetworkService/GetNetworkStatus");
    v.push("astral.v1.NetworkService/ListPeers");
    v.push("astral.v1.NetworkService/GetPeer");
    v.push("astral.v1.NetworkService/CollectNetworkInfo");
    v.push("astral.v1.NetworkService/ListRoutes");
    v.push("astral.v1.NetworkService/DumpRoutes");
    v.push("astral.v1.NetworkService/ShowLocalNodeInfo");
    v.push("astral.v1.NetworkService/ListForeignNetworks");
    v.push("astral.v1.NetworkService/GetForeignNetworkSummary");
    v.push("astral.v1.NetworkService/ListConnectors");
    v.push("astral.v1.NetworkService/ListMappedListeners");
    v.push("astral.v1.NetworkService/ListPublicIpv6Info");
    v.push("astral.v1.ConfigService/GetConfig");
    v.push("astral.v1.ConfigService/PatchConfig");
    v.push("astral.v1.ConfigService/ReplaceConfig");
    v.push("astral.v1.CredentialService/CreateToken");
    v.push("astral.v1.CredentialService/ListTokens");
    v.push("astral.v1.CredentialService/RevokeToken");
    v.push("astral.v1.CredentialService/RotateToken");
    v.push("astral.v1.StatsService/GetStats");
    v.push("astral.v1.StatsService/GetPrometheusMetrics");
    v.push("astral.v1.AclService/GetWhitelist");
    v.push("astral.v1.AclService/PatchWhitelist");
    v.push("astral.v1.AclService/GetAclStats");
    v.push("astral.v1.AclService/GetAcl");
    v.push("astral.v1.AclService/SetAcl");
    v.push("astral.v1.PortForwardService/ListPortForwards");
    v.push("astral.v1.PortForwardService/AddPortForward");
    v.push("astral.v1.PortForwardService/RemovePortForward");
    v.push("astral.v1.PortForwardService/ListTcpProxyEntries");
    v.push("astral.v1.VpnPortalService/GetVpnPortalInfo");
    v.push("astral.v1.VpnPortalService/EnableVpnPortal");
    v.push("astral.v1.VpnPortalService/DisableVpnPortal");
    assert(v@.map_values(|s: &'static str| s@) =~= tunnel_methods());
    v
}

/// The method name of a call: trimmed, without a leading `/`.
pub open spec fn method_key(full_method: Seq<char>) -> Seq<char> {
    let t = trim(full_method);
    if t.len() > 0 && t[0] == '/' {
        t.drop_first()
    } else {
        t
    }
}

/// What routing the call `full_method` gives: the first index of its
/// method key in the table, or `Unimplemented` naming the key when the
/// tunnel does not carry it.
pub open spec fn route_post(full_method: Seq<char>, r: Result<usize, RpcStatus>) -> bool {
    match r {
        Ok(i) => i < tunnel_methods().len() && tunnel_methods()[i as int] == method_key(full_method)
            && forall|k: int| 0 <= k < i ==> #[trigger] tunnel_methods()[k] != method_key(full_method),
        Err(s) => (forall|i: int|
            0 <= i < tunnel_methods().len() ==> #[trigger] tunnel_methods()[i] != method_key(
                full_method,
            )) && s.code == CODE_UNIMPLEMENTED && s.message@ == "隧道尚未代理该方法: /"@
            + method_key(full_method),
    }
}

/// Where a tunnelled call goes: the index of its method in the table, or
/// `Unimplemented` for a method the tunnel does not carry.
pub fn tunnel_route(full_method: &str) -> (r: Result<usize, RpcStatus>)
    ensures
        route_post(full_method@, r),
{
    let t = trim_chars(&str_chars(full_method));
    let key = if t.len() > 0 && t[0] == '/' {
        drop_chars(&t, 1)
    } else {
        t
    };
    assert(key@ == method_key(full_method@)) by {
        let tt = trim(full_method@);
        if tt.len() > 0 && tt[0] == '/' {
            assert(tt.subrange(1, tt.len() as int) =~= tt.drop_first());
        }
    }
    let table = tunnel_method_table();
    let ghost names = tunnel_methods();
    let mut i: usize = 0;
    while i < table.len()
        invariant
            i <= table@.len(),
            table@.map_values(|s: &'static str| s@) == names,
            names == tunnel_methods(),
            key@ == method_key(full_method@),
            forall|k: int| 0 <= k < i ==> #[trigger] names[k] != key@,
        decreases table@.len() - i,
    {
        let name = str_chars(table[i]);
        assert(names[i as int] == table@[i as int]@);
        if chars_eq(&name, &key) {
            return Ok(i);
        }
        i = i + 1;
    }
    let mut m: Vec<char> = Vec::new();
    append_str(&mut m, "隧道尚未代理该方法: /");
    append_chars(&mut m, &key);
    Err(RpcStatus { code: CODE_UNIMPLEMENTED, message: string_from_chars(m.as_slice()) })
}

/// A call is routed by its method key alone: two calls with the same key
/// go to the same method, or are both refused as `Unimplemented` with the
/// same message, whatever else (a leading `/`, white space, the payload)
/// differs.
pub proof fn route_depends_on_key(
    m1: Seq<char>,
    m2: Seq<char>,
    r1: Result<usize, RpcStatus>,
    r2: Result<usize, RpcStatus>,
)
    requires
        method_key(m1) == method_key(m2),
        route_post(m1, r1),
        route_post(m2, r2),
    ensures
        r1 is Ok <==> r2 is Ok,
        r1 is Ok ==> r1->Ok_0 == r2->Ok_0,
        r1 is Err ==> r1->Err_0.code == r2->Err_0.code && r1->Err_0.message@
            == r2->Err_0.message@,
{
    if r1 is Ok && r2 is Ok {
        let i = r1->Ok_0 as int;
        let j = r2->Ok_0 as int;
        if i < j {
            assert(tunnel_methods()[i] != method_key(m2));
        } else if j < i {
            assert(tunnel_methods()[j] != method_key(m1));
        }
    } else if r1 is Ok {
        assert(tunnel_methods()[r1->Ok_0 as int] != method_key(m2));
    } else if r2 is Ok {
        assert(tunnel_methods()[r2->Ok_0 as int] != method_key(m1));
    }
}

/// A method name `m` without surrounding white space and without a
/// leading `/` has the same key as `/m` and as ` /m `.
pub proof fn method_key_ignores_slash_and_spaces(m: Seq<char>)
    requires
        m.len() > 0 ==> !is_white_space(m[0]) && !is_white_space(m.last()) && m[0] != '/',
    ensures
        method_key(seq!['/'] + m) == method_key(m),
        method_key(seq![' ', '/'] + m + seq![' ']) == method_key(m),
{
    let x = seq!['/'] + m;
    let y = seq![' ', '/'] + m + seq![' '];
    assert(x[0] == '/');
    assert(!is_white_space('/'));
    assert(trim_start(x) == x);
    if m.len() > 0 {
        assert(x.last() == m.last());
        assert(trim_start(m) == m);
        assert(trim_end(m) == m);
    } else {
        assert(m =~= Seq::<char>::empty());
        assert(x =~= seq!['/']);
        assert(x.last() == '/');
    }
    assert(trim_end(x) == x);
    assert(x.drop_first() =~= m);
    assert(is_white_space(' '));
    assert(y[0] == ' ');
    assert(y.drop_first() =~= x + seq![' ']);
    assert((x + seq![' '])[0] == '/');
    assert(trim_start(x + seq![' ']) == x + seq![' ']);
    assert(y.len() > 0 && is_white_space(y[0]));
    assert(trim_start(y) == trim_start(y.drop_first()));
    assert(trim_start(y) == x + seq![' ']);
    assert((x + seq![' ']).last() == ' ');
    assert((x + seq![' ']).drop_last() =~= x);
    assert(trim_end(x + seq![' ']) == trim_end(x));
}

/// The status of a request payload that does not decode.
pub fn decode_failure(detail: &str) -> (s: RpcStatus)
    ensures
        s.code == CODE_INVALID_ARGUMENT,
        s.message@ == "解码请求失败: "@ + detail@,
{
    let mut m: Vec<char> = Vec::new();
    append_str(&mut m, "解码请求失败: ");
    append_str(&mut m, detail);
    RpcStatus { code: CODE_INVALID_ARGUMENT, message: string_from_chars(m.as_slice()) }
}

/// The agent's reply to a tunnelled call: status 0, no message and the
/// response bytes; or the error's code and message with no payload.
pub fn tunnel_outcome(r: Result<Vec<u8>, RpcStatus>) -> (o: (i32, String, Vec<u8>))
    ensures
        match r {
            Ok(b) => o.0 == 0 && o.1@.len() == 0 && o.2@ == b@,
            Err(s) => o.0 == s.code && o.1 == s.message && o.2@.len() == 0,
        },
{
    match r {
        Ok(b) => (0, String::new(), b),
        Err(s) => (s.code, s.message, Vec::new()),
    }
}

} // verus!
