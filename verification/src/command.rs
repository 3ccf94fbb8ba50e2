//! The two commands the library computes for its callers: printing one
//! resolved path, and reporting the support matrix.

use vstd::prelude::*;

pub mod info;
pub mod print;
pub mod serve;

pub use info::InfoCommand;
pub use print::{PrintCommand, PrintTarget};

use crate::Error;
use crate::output::{Format, Unicode};
use crate::platform::info::{spec_filtered, spec_render_text};

verus! {

/// One unit of work: resolve and render a path, or build and render the
/// informational report.  Executing it yields the text for the caller to
/// print.
#[derive(Clone, Debug)]
pub enum Command {
    Print(PrintCommand),
    Info(InfoCommand),
}

impl Command {
    /// Executes the command and returns the rendered output.
    pub fn execute(self) -> (r: Result<String, Error>)
        ensures
            self matches Command::Info(c) ==> (c.format == Format::Text ==> (r matches Ok(t)
                && t@ == spec_render_text(spec_filtered(c.filter)))),
            self matches Command::Info(c) ==> r is Ok,
            self matches Command::Print(c) ==> (r is Err ==> r->Err_0
                == Error::InvalidHomeDirectory || r->Err_0 == Error::NotDefinedByPlatformStandard
                || r->Err_0 == Error::InvalidUnicode),
            self matches Command::Print(c) ==> (c.default is Some && c.unicode
                == Unicode::Enforced ==> r is Ok),
            self matches Command::Print(c) ==> (c.path matches PrintTarget::Project(_, o)
                && o.application@.len() == 0 && c.default is None ==> r == Err::<String, Error>(
                Error::InvalidHomeDirectory,
            )),
    {
        match self {
            Command::Print(command) => command.execute(),
            Command::Info(command) => command.execute(),
        }
    }
}

} // verus!
