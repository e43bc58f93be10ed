//! Compile a Go source tree into a C archive or shared library from a build
//! script, and produce the linkage directives for the host build.

pub mod builder;
pub mod envs;
pub mod error;
pub mod mode;
pub mod naming;
pub mod platform;
pub mod process;
pub mod toolchain;

pub use builder::{Build, HostEnv, Invocation};
pub use error::{Error, ErrorKind};
pub use mode::BuildMode;
pub use naming::lib_file_name;
pub use platform::{map_goarch, map_goos};
pub use process::{exit_outcome, spawn_failure, wait_failure, warning_line};
