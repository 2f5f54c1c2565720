//! Decisions behind installing, checking, repairing and updating the
//! system service `dev.astral.core` (one service per host).
pub mod cleanup;
pub mod health;
pub mod install;
pub mod layout;
pub mod manage;
pub mod recovery;
pub mod registry;
pub mod repair;
pub mod update;
pub mod winhost;

use vstd::prelude::*;

verus! {

/// Qualified system service name (Windows SCM / systemd / launchd).
pub const SERVICE_QUALIFIED_NAME: &'static str = "dev.astral.core";

/// Earlier service name (uninstalled when migrating).
pub const LEGACY_SERVICE_QUALIFIED_NAME: &'static str = "dev.astral.core-default";

/// Service generation marker (process arguments and registry file).
pub const SERVICE_GENERATION: &'static str = "core-v2";

/// The single key of the service registry.
pub const SERVICE_REGISTRY_KEY: &'static str = "core";

/// Port of the default listen address.
pub const DEFAULT_PORT: u16 = 50051;

} // verus!
