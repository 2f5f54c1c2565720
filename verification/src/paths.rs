//! Where the daemon keeps its files under a data root.
use vstd::prelude::*;

use crate::text::{has_prefix, starts_with_chars, drop_chars, str_chars, string_from_chars, trim, trim_chars};

verus! {

/// Name for `Path::join` of a base and a relative name, as text.
pub uninterp spec fn path_join(base: Seq<char>, name: Seq<char>) -> Seq<char>;

/// `std::path::Path::join` on text paths (lossily converted back to text);
/// the result is named by `path_join`.
#[verifier::external_body]
pub(crate) fn join_path(base: &str, name: &str) -> (r: String)
    ensures
        r@ == path_join(base@, name@),
{
    std::path::Path::new(base).join(name).to_string_lossy().into_owned()
}

/// File locations under the data root.
#[derive(Debug, Clone)]
pub struct DataPaths {
    /// Root directory (tokens, node id and the rest live below it).
    pub root: String,
}

impl DataPaths {
    /// Paths under `root`.
    pub fn new(root: String) -> (p: DataPaths)
        ensures
            p.root == root,
    {
        DataPaths { root }
    }

    /// API token store file.
    pub fn tokens_file(&self) -> (p: String)
        ensures
            p@ == path_join(self.root@, "tokens.json"@),
    {
        join_path(self.root.as_str(), "tokens.json")
    }

    /// Node id file.
    pub fn node_id_file(&self) -> (p: String)
        ensures
            p@ == path_join(self.root@, "node_id"@),
    {
        join_path(self.root.as_str(), "node_id")
    }

    /// Plaintext copy of the bootstrap token (written once, at bootstrap).
    pub fn bootstrap_token_file(&self) -> (p: String)
        ensures
            p@ == path_join(self.root@, "bootstrap_token.txt"@),
    {
        join_path(self.root.as_str(), "bootstrap_token.txt")
    }

    /// Autostart directory (legacy; new writes go to profiles).
    pub fn autostart_dir(&self) -> (p: String)
        ensures
            p@ == path_join(self.root@, "autostart"@),
    {
        join_path(self.root.as_str(), "autostart")
    }

    /// Profile library directory (instance TOML and autostart flags).
    pub fn profiles_dir(&self) -> (p: String)
        ensures
            p@ == path_join(self.root@, "profiles"@),
    {
        join_path(self.root.as_str(), "profiles")
    }
}

/// The legacy data directory `instances/default` under a root.
pub open spec fn legacy_data_path(root: Seq<char>) -> Seq<char> {
    path_join(path_join(root, "instances"@), "default"@)
}

/// The legacy data directory `instances/default` under a root.
pub fn legacy_data_dir(root: &str) -> (p: String)
    ensures
        p@ == legacy_data_path(root@),
{
    let instances = join_path(root, "instances");
    join_path(instances.as_str(), "default")
}

/// The migration state file under a root.
pub fn state_path(root: &str) -> (p: String)
    ensures
        p@ == path_join(root@, "service_migration_state.json"@),
{
    join_path(root, "service_migration_state.json")
}

/// The node id kept in the node id file's text: trimmed; none when blank
/// (a new one is then made).
pub fn stored_node_id(text: &str) -> (r: Option<String>)
    ensures
        match r {
            Some(id) => trim(text@).len() > 0 && id@ == trim(text@),
            None => trim(text@).len() == 0,
        },
{
    let t = trim_chars(&str_chars(text));
    if t.len() == 0 {
        None
    } else {
        Some(string_from_chars(t.as_slice()))
    }
}

/// What the node id file holds for a new id: the id and a line break.
pub fn node_id_record(id: &str) -> (r: String)
    ensures
        r@ == id@ + seq!['\n'],
{
    let mut v = str_chars(id);
    v.push('\n');
    string_from_chars(v.as_slice())
}

/// A canonical Windows path without its verbatim prefix: `\\?\UNC\x`
/// becomes `\\x`, `\\?\x` becomes `x`; other paths stay as they are.
pub open spec fn without_verbatim(p: Seq<char>) -> Seq<char> {
    let unc = seq!['\\', '\\', '?', '\\', 'U', 'N', 'C', '\\'];
    let verbatim = seq!['\\', '\\', '?', '\\'];
    if has_prefix(p, unc) {
        seq!['\\', '\\'] + p.subrange(8, p.len() as int)
    } else if has_prefix(p, verbatim) {
        p.subrange(4, p.len() as int)
    } else {
        p
    }
}

/// Strips the verbatim prefix that canonicalizing gives on Windows, so
/// that the service manager accepts the path.
pub fn strip_verbatim_prefix(p: &str) -> (r: String)
    ensures
        r@ == without_verbatim(p@),
{
    let s = str_chars(p);
    let mut unc: Vec<char> = Vec::new();
    unc.push('\\');
    unc.push('\\');
    unc.push('?');
    unc.push('\\');
    unc.push('U');
    unc.push('N');
    unc.push('C');
    unc.push('\\');
    let mut verbatim: Vec<char> = Vec::new();
    verbatim.push('\\');
    verbatim.push('\\');
    verbatim.push('?');
    verbatim.push('\\');
    assert(unc@ =~= seq!['\\', '\\', '?', '\\', 'U', 'N', 'C', '\\']);
    assert(verbatim@ =~= seq!['\\', '\\', '?', '\\']);
    if starts_with_chars(&s, &unc) {
        let mut v: Vec<char> = Vec::new();
        v.push('\\');
        v.push('\\');
        let rest = drop_chars(&s, 8);
        crate::text::append_chars(&mut v, &rest);
        assert(v@ =~= seq!['\\', '\\'] + s@.subrange(8, s@.len() as int));
        string_from_chars(v.as_slice())
    } else if starts_with_chars(&s, &verbatim) {
        string_from_chars(drop_chars(&s, 4).as_slice())
    } else {
        p.to_string()
    }
}

} // verus!
