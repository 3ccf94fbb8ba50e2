//! Resolving one symbolic path request and rendering the result.

use vstd::prelude::*;

use crate::Error;
use crate::output::{path_to_text, render_path, Format, Unicode};
use crate::platform::path::{Base, Project, ProjectOptions, User};

verus! {

/// The path a print request asks for: a user, base or project kind, the
/// latter with the application identity it is scoped to.
#[derive(Clone, Debug)]
pub enum PrintTarget {
    User(User),
    Base(Base),
    Project(Project, ProjectOptions),
}

/// A request to resolve one path and render it: the target, the Unicode
/// policy, the output format, and an alternate path that stands in when
/// resolution fails.
#[derive(Clone, Debug)]
pub struct PrintCommand {
    pub default: Option<std::path::PathBuf>,
    pub unicode: Unicode,
    pub format: Format,
    pub path: PrintTarget,
}

impl PrintCommand {
    /// Resolves the requested path and renders it in the requested format.
    /// Resolution failures are masked by the default path when one is
    /// given; lossy Unicode coercion and rendering never fail, so with a
    /// default present and coercion enforced the command always succeeds.
    /// A project request whose application name is empty, left unmasked,
    /// is rejected as the identity failure.
    pub fn execute(self) -> (r: Result<String, Error>)
        ensures
            r is Err ==> r->Err_0 == Error::InvalidHomeDirectory || r->Err_0
                == Error::NotDefinedByPlatformStandard || r->Err_0 == Error::InvalidUnicode,
            self.default is Some ==> !(r is Err && (r->Err_0 == Error::InvalidHomeDirectory
                || r->Err_0 == Error::NotDefinedByPlatformStandard)),
            self.unicode == Unicode::Enforced ==> !(r is Err && r->Err_0
                == Error::InvalidUnicode),
            self.default is Some && self.unicode == Unicode::Enforced ==> r is Ok,
            self.path matches PrintTarget::Project(_, o) && o.application@.len() == 0
                && self.default is None ==> r == Err::<String, Error>(
                Error::InvalidHomeDirectory,
            ),
    {
        let PrintCommand { default, unicode, format, path } = self;
        let resolved = match path {
            PrintTarget::User(u) => u.path_buf(),
            PrintTarget::Base(b) => b.path_buf(),
            PrintTarget::Project(p, options) => p.path_buf(&options),
        };
        let chosen = match resolved {
            Ok(p) => p,
            Err(e) => match default {
                Some(d) => d,
                None => {
                    return Err(e);
                },
            },
        };
        let text = match path_to_text(&chosen, &unicode) {
            Ok(t) => t,
            Err(e) => {
                return Err(e);
            },
        };
        render_path(text, &format)
    }
}

} // verus!
