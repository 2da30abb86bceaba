//! Telemetry and connection logic of a host-side companion for a low-power
//! wireless peripheral: the discovery filter, the connection orchestrator,
//! the telemetry sampler, the scaling encoder and the 16-byte wire record.

pub mod flipper_manager;
pub mod gpu;
pub mod helpers;
pub mod orchestrator;
pub mod sampler;
pub mod scaling;
pub mod system_info;
pub mod text;
pub mod worker;
