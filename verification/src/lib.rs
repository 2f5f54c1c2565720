//! Verified core of the Astral single-host daemon: token and device
//! credentials, session bookkeeping, the log ring, wire framing, peer
//! summaries and the service-maintenance decisions.
pub mod text;
pub mod digest;
pub mod error;
pub mod tokens;
pub mod controller_auth;
pub mod sessions;
pub mod logs;
pub mod frame;
pub mod discovery;
pub mod paths;
pub mod model;
pub mod peers;
pub mod net;
pub mod service;
pub mod dispatch;
pub mod structured;
pub mod events;
pub mod agent;
pub mod hub;
pub mod rpc;
pub mod restore;
