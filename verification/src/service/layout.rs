//! Fixed install layout: one directory holding one executable.
use vstd::prelude::*;

use crate::paths::{join_path, path_join};

verus! {

/// Executable file name on the platform (`.exe` on Windows).
pub fn binary_name(windows: bool) -> (n: &'static str)
    ensures
        windows ==> n@ == "astral-core.exe"@,
        !windows ==> n@ == "astral-core"@,
{
    if windows {
        "astral-core.exe"
    } else {
        "astral-core"
    }
}

/// `{root}/astral-core[.exe]`: the one program path the service uses.
pub fn program_path(root: &str, windows: bool) -> (p: String)
    ensures
        p@ == path_join(root@, if windows {
            "astral-core.exe"@
        } else {
            "astral-core"@
        }),
{
    join_path(root, binary_name(windows))
}

} // verus!
