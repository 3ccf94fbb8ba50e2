//! Building and rendering the support-matrix report.

use vstd::prelude::*;

use crate::Error;
use crate::output::Format;
use crate::platform::info::{spec_filtered, spec_render_text, Info, InfoFilter};

verus! {

/// A request to report the support matrix: the filter to apply and the
/// format to render in.
#[derive(Clone, Debug)]
pub struct InfoCommand {
    pub filter: InfoFilter,
    pub format: Format,
}

impl InfoCommand {
    /// Builds the filtered report and renders it.  Text output is the
    /// sorted record lines; every format succeeds.
    pub fn execute(self) -> (r: Result<String, Error>)
        ensures
            self.format == Format::Text ==> (r matches Ok(t) && t@ == spec_render_text(
                spec_filtered(self.filter),
            )),
            r is Ok,
    {
        let info = Info::filtered(&self.filter);
        info.render(&self.format)
    }
}

} // verus!
