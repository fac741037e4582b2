//! Decisions of a build helper that turns a compiled module into a script a
//! browser can load: which tools to look for, when to install the bundler,
//! which files to write and how to call the bundler.
//!
//! Nothing in this crate starts a process, asks a question or touches a file.
//! Every pipeline is a function from what has been observed so far to the next
//! thing to do, so the caller performs the effects and the rules stay here.

pub mod error;
pub mod install;
pub mod install_runs;
pub mod package;
pub mod package_runs;
pub mod path;
pub mod platform;
pub mod process;
pub mod progress;
pub mod scaffold;

pub use error::Error;
pub use install::install_if_required;
pub use package::package_bin;
