//! The installed-service registry: one record of layout and parameters.
use vstd::prelude::*;

use super::{SERVICE_GENERATION, SERVICE_REGISTRY_KEY};
use crate::text::str_eq;

verus! {

/// Name for `Path` equality (component-wise) of two text paths.
pub uninterp spec fn same_path(a: Seq<char>, b: Seq<char>) -> bool;

/// `==` on `std::path::Path`: equal component by component (the result
/// is named by `same_path`); identical texts are equal paths.
#[verifier::external_body]
pub(crate) fn path_equal(a: &str, b: &str) -> (r: bool)
    ensures
        r == same_path(a@, b@),
        a@ == b@ ==> r,
{
    std::path::Path::new(a) == std::path::Path::new(b)
}

/// Two text paths name the same path: equal texts, or paths equal
/// component by component.
pub open spec fn paths_match(a: Seq<char>, b: Seq<char>) -> bool {
    a == b || same_path(a, b)
}

/// One installed instance.
#[derive(Debug, Clone)]
pub struct InstalledInstance {
    /// Instance name.
    pub name: String,
    /// Listen address text.
    pub listen: String,
    /// Data directory.
    pub data_dir: String,
    /// User-level service.
    pub user: bool,
}

/// Contents of the service registry file.
#[derive(Debug, Clone)]
pub struct ServiceRegistry {
    /// Install root.
    pub install_root: Option<String>,
    /// Program path registered with the service manager.
    pub program: Option<String>,
    /// Service generation.
    pub service_generation: Option<String>,
    /// Installed instances.
    pub instances: Vec<InstalledInstance>,
}

impl Default for ServiceRegistry {
    fn default() -> (r: ServiceRegistry)
        ensures
            r.install_root is None && r.program is None && r.service_generation is None
                && r.instances@.len() == 0,
    {
        ServiceRegistry {
            install_root: None,
            program: None,
            service_generation: None,
            instances: Vec::new(),
        }
    }
}

/// The registry written after a successful install (paths already
/// canonical).
pub fn record_install(
    install_root: String,
    program: String,
    listen: String,
    data_dir: String,
    user: bool,
) -> (r: ServiceRegistry)
    ensures
        r.install_root == Some(install_root),
        r.program == Some(program),
        r.service_generation matches Some(g) && g@ == SERVICE_GENERATION@,
        r.instances@.len() == 1,
        r.instances@[0].name@ == SERVICE_REGISTRY_KEY@,
        r.instances@[0].listen == listen,
        r.instances@[0].data_dir == data_dir,
        r.instances@[0].user == user,
{
    let mut instances: Vec<InstalledInstance> = Vec::new();
    instances.push(
        InstalledInstance { name: SERVICE_REGISTRY_KEY.to_string(), listen, data_dir, user },
    );
    ServiceRegistry {
        install_root: Some(install_root),
        program: Some(program),
        service_generation: Some(SERVICE_GENERATION.to_string()),
        instances,
    }
}

/// The registry after an update: new install root and program, current
/// generation, instances kept.
pub fn record_program(reg: ServiceRegistry, install_root: String, program: String) -> (r:
    ServiceRegistry)
    ensures
        r.install_root == Some(install_root),
        r.program == Some(program),
        r.service_generation matches Some(g) && g@ == SERVICE_GENERATION@,
        r.instances == reg.instances,
{
    ServiceRegistry {
        install_root: Some(install_root),
        program: Some(program),
        service_generation: Some(SERVICE_GENERATION.to_string()),
        instances: reg.instances,
    }
}

/// The registry after an uninstall: empty.
pub fn record_uninstall() -> (r: ServiceRegistry)
    ensures
        r.install_root is None && r.program is None && r.service_generation is None
            && r.instances@.len() == 0,
{
    ServiceRegistry::default()
}

/// The registry records the current generation.
pub open spec fn generation_current(g: Option<String>) -> bool {
    g matches Some(x) && x@ == SERVICE_GENERATION@
}

/// An instance already has the registry key and the data root.
pub open spec fn instance_normal(i: InstalledInstance, root: Seq<char>) -> bool {
    i.name@ == SERVICE_REGISTRY_KEY@ && paths_match(i.data_dir@, root)
}

/// Normalization of the registry to the current generation, the single
/// key and the data root: `after` is the result and `changed` whether
/// anything differed.
pub open spec fn normalize_post(
    before: ServiceRegistry,
    root: Seq<char>,
    after: ServiceRegistry,
    changed: bool,
) -> bool {
    if before.instances@.len() == 0 {
        !changed && after == before
    } else {
        &&& changed == (!generation_current(before.service_generation) || exists|k: int|
            0 <= k < before.instances@.len() && !instance_normal(
                #[trigger] before.instances@[k],
                root,
            ))
        &&& after.install_root == before.install_root
        &&& after.program == before.program
        &&& generation_current(after.service_generation)
        &&& generation_current(before.service_generation) ==> after.service_generation
            == before.service_generation
        &&& after.instances@.len() == before.instances@.len()
        &&& forall|k: int|
            0 <= k < after.instances@.len() ==> {
                let a = #[trigger] after.instances@[k];
                let b = before.instances@[k];
                &&& a.name@ == SERVICE_REGISTRY_KEY@
                &&& (paths_match(b.data_dir@, root) ==> a.data_dir == b.data_dir)
                &&& (!paths_match(b.data_dir@, root) ==> a.data_dir@ == root)
                &&& a.listen == b.listen
                &&& a.user == b.user
            }
    }
}

/// Brings the registry to the current generation, the single key `core`
/// and the data root `root`; reports whether anything changed (and so
/// needs saving). An empty registry is left alone.
pub fn normalize_registry_generation(reg: ServiceRegistry, root: &str) -> (r: (
    ServiceRegistry,
    bool,
))
    ensures
        normalize_post(reg, root@, r.0, r.1),
{
    if reg.instances.len() == 0 {
        return (reg, false);
    }
    let mut changed = false;
    let current = match &reg.service_generation {
        Some(g) => str_eq(g.as_str(), SERVICE_GENERATION),
        None => false,
    };
    let generation = if current {
        reg.service_generation
    } else {
        changed = true;
        Some(SERVICE_GENERATION.to_string())
    };
    let mut out: Vec<InstalledInstance> = Vec::new();
    let mut k: usize = 0;
    while k < reg.instances.len()
        invariant
            k <= reg.instances@.len(),
            out@.len() == k,
            changed == (!current || exists|m: int|
                0 <= m < k && !instance_normal(#[trigger] reg.instances@[m], root@)),
            current == generation_current(reg.service_generation),
            forall|m: int|
                0 <= m < k ==> {
                    let a = #[trigger] out@[m];
                    let b = reg.instances@[m];
                    &&& a.name@ == SERVICE_REGISTRY_KEY@
                    &&& (paths_match(b.data_dir@, root@) ==> a.data_dir == b.data_dir)
                    &&& (!paths_match(b.data_dir@, root@) ==> a.data_dir@ == root@)
                    &&& a.listen == b.listen
                    &&& a.user == b.user
                },
        decreases reg.instances@.len() - k,
    {
        let inst = &reg.instances[k];
        let name_ok = str_eq(inst.name.as_str(), SERVICE_REGISTRY_KEY);
        let dir_ok = path_equal(inst.data_dir.as_str(), root);
        if !name_ok || !dir_ok {
            changed = true;
        }
        let name = if name_ok {
            inst.name.clone()
        } else {
            SERVICE_REGISTRY_KEY.to_string()
        };
        let data_dir = if dir_ok {
            inst.data_dir.clone()
        } else {
            root.to_string()
        };
        out.push(
            InstalledInstance { name, listen: inst.listen.clone(), data_dir, user: inst.user },
        );
        k = k + 1;
    }
    (
        ServiceRegistry {
            install_root: reg.install_root,
            program: reg.program,
            service_generation: generation,
            instances: out,
        },
        changed,
    )
}

/// Normalizing twice changes nothing the second time.
pub proof fn normalize_is_idempotent(
    r0: ServiceRegistry,
    root: Seq<char>,
    r1: ServiceRegistry,
    c1: bool,
    r2: ServiceRegistry,
    c2: bool,
)
    requires
        normalize_post(r0, root, r1, c1),
        normalize_post(r1, root, r2, c2),
    ensures
        !c2,
{
    if r0.instances@.len() > 0 {
        assert forall|k: int| 0 <= k < r1.instances@.len() implies instance_normal(
            #[trigger] r1.instances@[k],
            root,
        ) by {
            let a = r1.instances@[k];
            let b = r0.instances@[k];
            if !paths_match(b.data_dir@, root) {
                assert(a.data_dir@ == root);
            }
        }
    }
}

} // verus!
