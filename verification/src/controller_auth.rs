//! Controller-side authentication of agents: a shared join token for
//! enrollment and per-device credentials, stored as hashes, for reconnects.
use vstd::prelude::*;

use crate::digest::{hash_hex, hex_lower, random_bytes_32, random_uuid_text, secret_from_bytes,
    text_hash, uuid_text};
use crate::error::CoreError;
use crate::text::{append_str, eq_ignore_ascii_case, eq_ignore_ascii_case_chars, str_chars, str_eq,
    string_from_chars};

verus! {

/// The fields of an agent handshake that authentication reads.
#[derive(Debug, Clone)]
pub struct HandshakeRequest {
    /// Shared join token (first enrollment).
    pub enroll_token: String,
    /// Device credential issued at enrollment (reconnects).
    pub device_credential: String,
    /// Node id claimed by the agent.
    pub node_id: String,
    /// Agent version.
    pub core_version: String,
    /// Agent capabilities.
    pub capabilities: Vec<String>,
    /// Agent operating system.
    pub os: String,
    /// Agent architecture.
    pub arch: String,
    /// Agent display name.
    pub name: String,
}

/// One registered device: node id and hex SHA-256 of its credential.
#[derive(Debug, Clone)]
pub struct DeviceRecord {
    /// Node id.
    pub node_id: String,
    /// Hex SHA-256 of the device credential.
    pub hash_hex: String,
}

/// Stored credential hash of node `k`; the latest record for `k` counts.
pub open spec fn lookup(s: Seq<DeviceRecord>, k: Seq<char>) -> Option<Seq<char>>
    decreases s.len(),
{
    if s.len() == 0 {
        None
    } else if s.last().node_id@ == k {
        Some(s.last().hash_hex@)
    } else {
        lookup(s.drop_last(), k)
    }
}

/// What authenticating `req` does to the device list `before` (giving
/// `after`) and what it returns, given the node id and credential that
/// would be issued to a new node.
pub open spec fn auth_outcome(
    before: Seq<DeviceRecord>,
    after: Seq<DeviceRecord>,
    join_token: Seq<char>,
    req: HandshakeRequest,
    fresh_node_id: Seq<char>,
    fresh_credential: Seq<char>,
    res: Result<(String, Option<String>), CoreError>,
) -> bool {
    if req.device_credential@.len() > 0 {
        &&& after == before
        &&& if req.node_id@.len() == 0 {
            res matches Err(CoreError::InvalidArgument(m)) && m@ == "重连时必须携带 node_id"@
        } else {
            match lookup(before, req.node_id@) {
                None => res matches Err(CoreError::FailedPrecondition(m)) && m@
                    == "未知设备凭证 / 节点未注册"@,
                Some(h) => if eq_ignore_ascii_case(h, text_hash(req.device_credential@)) {
                    res matches Ok((n, c)) && n@ == req.node_id@ && c is None
                } else {
                    res matches Err(CoreError::FailedPrecondition(m)) && m@ == "设备凭证无效"@
                },
            }
        }
    } else if req.enroll_token@.len() == 0 || req.enroll_token@ != join_token {
        &&& after == before
        &&& res matches Err(CoreError::FailedPrecondition(m)) && m@
            == "enroll_token 无效（与控制端 --token 不一致）"@
    } else {
        let nid = if req.node_id@.len() == 0 {
            fresh_node_id
        } else {
            req.node_id@
        };
        if lookup(before, nid) is Some {
            &&& after == before
            &&& res matches Err(CoreError::FailedPrecondition(m)) && m@
                == "节点已注册，请使用 device_credential 重连: "@ + nid
        } else {
            &&& res matches Ok((n, Some(c))) && n@ == nid && c@ == fresh_credential
            &&& after.len() == before.len() + 1
            &&& after.drop_last() == before
            &&& after.last().node_id@ == nid
            &&& after.last().hash_hex@ == text_hash(fresh_credential)
        }
    }
}

/// Controller authentication state.
#[derive(Debug)]
pub struct ControllerAuth {
    join_token: String,
    path: String,
    devices: Vec<DeviceRecord>,
}

impl ControllerAuth {
    /// Opens the device store at `path` with the shared join token and the
    /// devices read from it. An empty join token is refused.
    pub fn open(join_token: String, path: String, devices: Vec<DeviceRecord>) -> (res: Result<
        ControllerAuth,
        CoreError,
    >)
        ensures
            join_token@.len() == 0 ==> (res matches Err(CoreError::InvalidArgument(m)) && m@
                == "controller token 不能为空"@),
            join_token@.len() > 0 ==> (res matches Ok(a) && a.join_token() == join_token@
                && a.path() == path@ && a.devices() == devices@),
    {
        if join_token.as_str().is_empty() {
            return Err(CoreError::InvalidArgument("controller token 不能为空".to_string()));
        }
        Ok(ControllerAuth { join_token, path, devices })
    }

    /// The shared join token.
    pub closed spec fn join_token(&self) -> Seq<char> {
        self.join_token@
    }

    /// Where the device store persists.
    pub closed spec fn path(&self) -> Seq<char> {
        self.path@
    }

    /// The registered devices.
    pub closed spec fn devices(&self) -> Seq<DeviceRecord> {
        self.devices@
    }

    /// Controller attestation: the shared join token, which agents check to
    /// know that the controller holds the same secret.
    pub fn attestation(&self) -> (t: &str)
        ensures
            t@ == self.join_token(),
    {
        self.join_token.as_str()
    }

    /// Where the device store persists.
    pub fn path_str(&self) -> (p: &str)
        ensures
            p@ == self.path(),
    {
        self.path.as_str()
    }

    /// The registered devices (for persisting).
    pub fn device_list(&self) -> (v: &Vec<DeviceRecord>)
        ensures
            v@ == self.devices(),
    {
        &self.devices
    }

    /// The stored credential hash of `node_id`.
    fn find_device(&self, node_id: &str) -> (r: Option<String>)
        ensures
            r matches Some(h) ==> lookup(self.devices@, node_id@) == Some(h@),
            r is None ==> lookup(self.devices@, node_id@) is None,
    {
        let mut j: usize = self.devices.len();
        assert(self.devices@.take(j as int) =~= self.devices@);
        while j > 0
            invariant
                j <= self.devices@.len(),
                lookup(self.devices@, node_id@) == lookup(self.devices@.take(j as int), node_id@),
            decreases j,
        {
            let d = &self.devices[j - 1];
            assert(self.devices@.take(j as int).drop_last() =~= self.devices@.take(j - 1));
            if str_eq(d.node_id.as_str(), node_id) {
                return Some(d.hash_hex.clone());
            }
            j = j - 1;
        }
        None
    }

    /// Checks a handshake; `fresh_node_id` and `fresh_credential` are what a
    /// newly enrolled node receives (the id only when it claims none). On
    /// success returns the node id and, for an enrollment, the plaintext
    /// device credential.
    pub fn authenticate_with(
        &mut self,
        req: &HandshakeRequest,
        fresh_node_id: String,
        fresh_credential: String,
    ) -> (res: Result<(String, Option<String>), CoreError>)
        ensures
            final(self).join_token() == old(self).join_token(),
            final(self).path() == old(self).path(),
            auth_outcome(
                old(self).devices(),
                final(self).devices(),
                old(self).join_token(),
                *req,
                fresh_node_id@,
                fresh_credential@,
                res,
            ),
    {
        if !req.device_credential.as_str().is_empty() {
            if req.node_id.as_str().is_empty() {
                return Err(CoreError::InvalidArgument("重连时必须携带 node_id".to_string()));
            }
            let node_id = req.node_id.clone();
            let stored = match self.find_device(node_id.as_str()) {
                Some(h) => h,
                None => {
                    return Err(
                        CoreError::FailedPrecondition("未知设备凭证 / 节点未注册".to_string()),
                    );
                },
            };
            let presented = hash_hex(req.device_credential.as_str());
            if !eq_ignore_ascii_case_chars(
                &str_chars(stored.as_str()),
                &str_chars(presented.as_str()),
            ) {
                return Err(CoreError::FailedPrecondition("设备凭证无效".to_string()));
            }
            return Ok((node_id, None));
        }
        if req.enroll_token.as_str().is_empty() || !str_eq(
            req.enroll_token.as_str(),
            self.join_token.as_str(),
        ) {
            return Err(
                CoreError::FailedPrecondition(
                    "enroll_token 无效（与控制端 --token 不一致）".to_string(),
                ),
            );
        }
        let node_id = if req.node_id.as_str().is_empty() {
            fresh_node_id
        } else {
            req.node_id.clone()
        };
        if self.find_device(node_id.as_str()).is_some() {
            let mut msg: Vec<char> = Vec::new();
            append_str(&mut msg, "节点已注册，请使用 device_credential 重连: ");
            append_str(&mut msg, node_id.as_str());
            return Err(CoreError::FailedPrecondition(string_from_chars(msg.as_slice())));
        }
        let hash = hash_hex(fresh_credential.as_str());
        self.devices.push(DeviceRecord { node_id: node_id.clone(), hash_hex: hash });
        assert(self.devices@.drop_last() =~= old(self).devices@);
        Ok((node_id, Some(fresh_credential)))
    }

    /// Checks a handshake. A new node without an id is named `node-<uuid>`;
    /// an enrolled node receives the credential `adev_<64 hex>`.
    pub fn authenticate(&mut self, req: &HandshakeRequest) -> (res: Result<
        (String, Option<String>),
        CoreError,
    >)
        ensures
            final(self).join_token() == old(self).join_token(),
            final(self).path() == old(self).path(),
            exists|u: u128, b: Seq<u8>|
                b.len() == 32 && auth_outcome(
                    old(self).devices(),
                    final(self).devices(),
                    old(self).join_token(),
                    *req,
                    "node-"@ + uuid_text(u),
                    "adev_"@ + hex_lower(b),
                    res,
                ),
    {
        let uuid = random_uuid_text();
        let mut idv: Vec<char> = Vec::new();
        append_str(&mut idv, "node-");
        append_str(&mut idv, uuid.as_str());
        let fresh_node_id = string_from_chars(idv.as_slice());
        let bytes = random_bytes_32();
        let fresh_credential = secret_from_bytes("adev_", bytes.as_slice());
        self.authenticate_with(req, fresh_node_id, fresh_credential)
    }
}

/// A node enrolled with a credential reconnects with it: authentication
/// succeeds with the same node id and changes nothing.
pub proof fn enrolled_device_reconnects(
    before: Seq<DeviceRecord>,
    after: Seq<DeviceRecord>,
    join_token: Seq<char>,
    enroll: HandshakeRequest,
    fresh_node_id: Seq<char>,
    fresh_credential: Seq<char>,
    enrolled: Result<(String, Option<String>), CoreError>,
    reconnect: HandshakeRequest,
    fresh_node_id2: Seq<char>,
    fresh_credential2: Seq<char>,
    after2: Seq<DeviceRecord>,
    res: Result<(String, Option<String>), CoreError>,
)
    requires
        auth_outcome(before, after, join_token, enroll, fresh_node_id, fresh_credential, enrolled),
        enrolled matches Ok((n, Some(c))) && reconnect.node_id@ == n@
            && reconnect.device_credential@ == c@,
        fresh_node_id.len() > 0,
        fresh_credential.len() > 0,
        auth_outcome(after, after2, join_token, reconnect, fresh_node_id2, fresh_credential2, res),
    ensures
        res matches Ok((n2, c2)) && n2@ == reconnect.node_id@ && c2 is None,
        after2 == after,
{
    let nid = after.last().node_id@;
    assert(after.drop_last() == before);
    assert(lookup(after, nid) == Some(after.last().hash_hex@));
    assert(eq_ignore_ascii_case(after.last().hash_hex@, text_hash(reconnect.device_credential@)));
}

/// Holding the join token does not take over a registered node: enrolling
/// an already registered id fails and changes nothing.
pub proof fn enrollment_cannot_take_over(
    before: Seq<DeviceRecord>,
    after: Seq<DeviceRecord>,
    join_token: Seq<char>,
    req: HandshakeRequest,
    fresh_node_id: Seq<char>,
    fresh_credential: Seq<char>,
    res: Result<(String, Option<String>), CoreError>,
)
    requires
        req.device_credential@.len() == 0,
        req.node_id@.len() > 0,
        lookup(before, req.node_id@) is Some,
        auth_outcome(before, after, join_token, req, fresh_node_id, fresh_credential, res),
    ensures
        res is Err,
        after == before,
{
}

/// A refused handshake leaves the registered devices unchanged, and only
/// an enrollment adds one.
pub proof fn refused_handshake_changes_nothing(
    before: Seq<DeviceRecord>,
    after: Seq<DeviceRecord>,
    join_token: Seq<char>,
    req: HandshakeRequest,
    fresh_node_id: Seq<char>,
    fresh_credential: Seq<char>,
    res: Result<(String, Option<String>), CoreError>,
)
    requires
        auth_outcome(before, after, join_token, req, fresh_node_id, fresh_credential, res),
    ensures
        res is Err ==> after == before,
        res matches Ok((_, c)) && c is None ==> after == before,
{
}

} // verus!
