//! VeilKey on the host: its command-line client, the local vault and its
//! LaunchAgent, the tunnel to VaultCenter, and the shell profile.
pub mod names;
pub mod cli;

pub use cli::install_cli;
pub mod localvault;

pub use localvault::install_localvault;
pub mod service;

pub use service::{localvault_start, localvault_stop};
pub mod tunnel;

pub use tunnel::{connect_vaultcenter, disconnect_vaultcenter};
pub mod profile;

pub use profile::setup_profile;
pub mod report;

pub use report::status;
pub mod veil_bootstrap;

pub use veil_bootstrap::bootstrap;
