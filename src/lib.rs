//! A typed interface to `simctl`, the command-line tool that manages iOS
//! simulator devices.
//!
//! Every operation is described as an [`Invocation`]: the program to start,
//! its arguments, extra environment variables and how its standard streams
//! are connected. A runner starts that process, collects its [`Output`], and
//! hands it back to the interpreting function of the same operation, which
//! turns it into a typed result.
pub mod boot;
pub mod device;
pub mod error;
pub mod get_app_container;
pub mod getenv;
pub mod install;
pub mod io;
pub mod keychain;
pub mod launch;
pub mod list;
pub mod privacy;
pub mod process;
pub mod push;
pub mod simctl;
pub mod status_bar;
pub mod text;
pub mod ui;

pub use crate::device::{Device, DeviceQuery};
pub use crate::error::{Error, Result};
pub use crate::process::{ExitStatus, Invocation, Output, Stream};
pub use crate::simctl::Simctl;
