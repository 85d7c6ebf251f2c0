//! Start-up of a loopback API server: the failure taxonomy, the order of the
//! start-up stages, the sizing of the worker pool, the bind address and the
//! mounting of the route table under the API prefix.

pub mod address;
pub mod bootstrap;
pub mod error;
pub mod router;
pub mod runtime;
pub mod settings;
