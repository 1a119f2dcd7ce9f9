//! Control plane of a host-metrics monitoring service: metric kinds and
//! their lifecycle states, the command grammar of the control channel, the
//! worker registry and the dispatch of commands onto it.

pub mod cli;
pub mod config;
pub mod ctl;
pub mod logger;
pub mod metric;
pub mod monitor;
pub mod queue;
pub mod report;
pub mod text;

pub use monitor::LinuxKernelMonitor;
