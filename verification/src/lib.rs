//! Supervision of a single backend process and the settings record of the
//! desktop shell around it.
//!
//! The shell performs the outside work (locking, file access, spawning and
//! signalling processes) and reports what it observed; every decision about
//! what is tracked, what is answered and what is launched is taken here.

pub mod config;
pub mod decimal;
pub mod launch;
pub mod message;
pub mod supervisor;

pub use config::{
    default_host, default_network, default_port, read_config, write_config, ConfigFile, GuiConfig,
    PartialConfig, WriteReport, CONFIG_FILE_NAME,
};
pub use launch::{launch_plan, LaunchPlan, Platform, StreamMode};
pub use supervisor::{
    get_backend_status, start_backend, stop_backend, BackendStatus, LaunchReport, Liveness,
    NeoNodeState,
};
