//! Plugin bookkeeping, the simulation clock, the decisions of a client
//! session of the simulation server, configuration paths, error reporting and
//! the small enumerations shared by the fly_ruler flight-simulation system.
//!
//! The floating-point simulation itself and everything that touches the file
//! system, dynamic libraries or the network lives outside this library; the
//! library keeps the discrete state and decisions, and proves them.

pub mod text;
pub mod error;
pub mod plugin;
pub mod manager;
pub mod ffi;
pub mod flight;
pub mod config;
pub mod rpc;
pub mod clock;
pub mod planes;
pub mod system;
