//! Install orchestration for third-party command-line tools: package
//! manager detection, install planning, host environments and the
//! decisions behind signal-locked process execution.

pub mod host;
pub mod env;
pub mod install;
pub mod pkg;
pub mod process;
pub mod prompt;
pub mod registry;
