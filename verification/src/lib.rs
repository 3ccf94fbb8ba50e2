//! Resolution of platform-conventional filesystem directories — cache,
//! config, data, user media folders, and per-application project
//! directories — together with an informational report of which directory
//! kinds each operating-system family defines.  Resolution consults the
//! host through the `directories` crate behind a trusted boundary; the
//! enumerations, the support matrix, the report and its deterministic text
//! rendering are verified.

use vstd::prelude::*;

pub mod command;
mod host;
pub mod output;
pub mod platform;
pub mod text;

pub use command::Command;
pub use platform::path::{Base, Project, ProjectOptions, User};

verus! {

/// The failures that path resolution, label parsing, and report rendering
/// can produce.  Resolution failures are host answers, not bugs: a host may
/// lack a home directory, and a platform standard may simply not define a
/// location for the requested kind.
#[derive(Clone, Copy, Debug, PartialEq, Eq, Structural)]
pub enum Error {
    /// The host has no discoverable home directory, or the application
    /// identity cannot be turned into a project directory base.
    InvalidHomeDirectory,
    /// The platform standard defines no location for the requested kind.
    NotDefinedByPlatformStandard,
    /// The resolved native path is not valid Unicode text.
    InvalidUnicode,
    /// A label outside the closed enumerations was supplied.
    UnknownDirectoryKind,
    /// Compact or pretty structured encoding failed.
    JsonError,
    /// Human-readable structured encoding failed.
    YamlError,
}

} // verus!
