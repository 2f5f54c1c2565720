//! Updating the service in place: stop it, overwrite the one executable,
//! start it again.
use vstd::prelude::*;

use super::registry::ServiceRegistry;

verus! {

/// Update options.
#[derive(Debug, Clone)]
pub struct UpdateOptions {
    /// The new executable; the running one when absent.
    pub program: Option<String>,
    /// Install root; the registered one (or the default) when absent.
    pub install_root: Option<String>,
    /// Do not start the service after overwriting.
    pub no_start: bool,
}

/// What an update works on.
#[derive(Debug, Clone)]
pub struct UpdateTarget {
    /// The service is a user-level one.
    pub user: bool,
    /// Install root to resolve (the default one when absent).
    pub install_root: Option<String>,
    /// Start the service afterwards.
    pub start_after: bool,
}

/// The target of an update: the user level of the first registered
/// instance (system level when none), the explicit install root or else
/// the registered one when that directory exists, and whether to start.
pub fn update_target(
    opts: &UpdateOptions,
    reg: Option<&ServiceRegistry>,
    registered_root_exists: bool,
) -> (t: UpdateTarget)
    ensures
        t.user == (reg matches Some(r) && r.instances@.len() > 0 && r.instances@[0].user),
        t.install_root == match opts.install_root {
            Some(p) => Some(p),
            None => match reg {
                Some(r) => if registered_root_exists {
                    r.install_root
                } else {
                    None
                },
                None => None,
            },
        },
        t.start_after == !opts.no_start,
{
    let user = match reg {
        Some(r) => r.instances.len() > 0 && r.instances[0].user,
        None => false,
    };
    let install_root = match &opts.install_root {
        Some(p) => Some(p.clone()),
        None => match reg {
            Some(r) => if registered_root_exists {
                r.install_root.clone()
            } else {
                None
            },
            None => None,
        },
    };
    UpdateTarget { user, install_root, start_after: !opts.no_start }
}

} // verus!
