//! PTP ordinary-clock service logic for `statime` on timestamp-capable Ethernet
//! interfaces: packet classification, timers, transmit-timestamp bookkeeping,
//! socket setup and the decisions of the service loop.

pub mod config;
pub mod error;
pub mod history;
pub mod monitor;
pub mod net;
pub mod packet;
pub mod pending;
pub mod port_io;
pub mod runner;
pub mod setup;
pub mod state;
pub mod text;
pub mod time;
pub mod timers;
