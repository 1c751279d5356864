//! Host dependencies: Homebrew, macFUSE, sshfs and sshpass.
pub mod sshpass;

pub use sshpass::install_sshpass;
pub mod sshfs;

pub use sshfs::install_sshfs;
pub mod report;

pub use report::status;
pub mod host_bootstrap;

pub use host_bootstrap::bootstrap;
