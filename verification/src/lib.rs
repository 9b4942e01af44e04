//! Verified core of an aria2 download-daemon bridge: status normalization,
//! bandwidth-limit unit conversion, download-folder classification, and the
//! shared RPC endpoint slot.

pub mod category;
pub mod clock;
pub mod endpoint;
pub mod gateway;
pub mod laws;
pub mod limits;
pub mod sizes;
pub mod status;
pub mod strnum;
