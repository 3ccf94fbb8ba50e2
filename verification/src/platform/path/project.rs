//! Project-specific standard directories.

use vstd::prelude::*;

use crate::Error;
use crate::host::{project_cache_dir, project_config_dir, project_data_dir,
    project_data_local_dir, project_dirs_from, project_path_fragment, project_preference_dir,
    project_runtime_dir, project_state_dir, utf8_from_path_buf};
use crate::text::str_eq;

verus! {

/// A base-directory-style location scoped to one application's identity.
#[derive(Clone, Copy, Debug, PartialEq, Eq, Hash, Structural)]
pub enum Project {
    Cache,
    Config,
    Data,
    DataLocal,
    Preference,
    PathFragment,
    Runtime,
    State,
}

/// The identity triple a project-scoped resolution is made for.  Qualifier
/// and organization default to the empty string when absent; the application
/// name is mandatory and must be non-empty.
#[derive(Clone, Debug)]
pub struct ProjectOptions {
    pub qualifier: Option<String>,
    pub organization: Option<String>,
    pub application: String,
}

impl ProjectOptions {
    /// The strings an identity hands to the host lookup, in the order the
    /// lookup takes them: the qualifier and the organization default to
    /// the empty string when absent, and the application name is passed
    /// through as it stands.
    pub fn identity_strings(&self) -> (r: (&str, &str, &str))
        ensures
            r.0@ == (match self.qualifier {
                Some(q) => q@,
                None => Seq::<char>::empty(),
            }),
            r.1@ == (match self.organization {
                Some(o) => o@,
                None => Seq::<char>::empty(),
            }),
            r.2@ == self.application@,
    {
        proof {
            reveal_strlit("");
            assert(""@ =~= Seq::<char>::empty());
        }
        let qualifier = match &self.qualifier {
            Some(q) => q.as_str(),
            None => "",
        };
        let organization = match &self.organization {
            Some(o) => o.as_str(),
            None => "",
        };
        (qualifier, organization, self.application.as_str())
    }
}

impl Project {
    /// The stable lowercase-kebab label of a project directory kind.
    pub open spec fn spec_label(self) -> Seq<char> {
        match self {
            Project::Cache => "cache"@,
            Project::Config => "config"@,
            Project::Data => "data"@,
            Project::DataLocal => "data-local"@,
            Project::Preference => "preference"@,
            Project::PathFragment => "path-fragment"@,
            Project::Runtime => "runtime"@,
            Project::State => "state"@,
        }
    }

    /// Serializes a project directory kind to its stable label.
    pub fn label(&self) -> (r: &'static str)
        ensures
            r@ == self.spec_label(),
    {
        match self {
            Project::Cache => "cache",
            Project::Config => "config",
            Project::Data => "data",
            Project::DataLocal => "data-local",
            Project::Preference => "preference",
            Project::PathFragment => "path-fragment",
            Project::Runtime => "runtime",
            Project::State => "state",
        }
    }

    /// The project directory kind a label denotes, if any.
    pub open spec fn spec_parse(s: Seq<char>) -> Option<Project> {
        if s == "cache"@ {
            Some(Project::Cache)
        } else if s == "config"@ {
            Some(Project::Config)
        } else if s == "data"@ {
            Some(Project::Data)
        } else if s == "data-local"@ {
            Some(Project::DataLocal)
        } else if s == "preference"@ {
            Some(Project::Preference)
        } else if s == "path-fragment"@ {
            Some(Project::PathFragment)
        } else if s == "runtime"@ {
            Some(Project::Runtime)
        } else if s == "state"@ {
            Some(Project::State)
        } else {
            None
        }
    }

    /// Parses a stable label back into a project directory kind.
    pub fn parse(s: &str) -> (r: Option<Project>)
        ensures
            r == Self::spec_parse(s@),
    {
        if str_eq(s, "cache") {
            Some(Project::Cache)
        } else if str_eq(s, "config") {
            Some(Project::Config)
        } else if str_eq(s, "data") {
            Some(Project::Data)
        } else if str_eq(s, "data-local") {
            Some(Project::DataLocal)
        } else if str_eq(s, "preference") {
            Some(Project::Preference)
        } else if str_eq(s, "path-fragment") {
            Some(Project::PathFragment)
        } else if str_eq(s, "runtime") {
            Some(Project::Runtime)
        } else if str_eq(s, "state") {
            Some(Project::State)
        } else {
            None
        }
    }

    /// All project directory kinds, in declaration order.
    pub open spec fn spec_all() -> Seq<Project> {
        seq![
            Project::Cache,
            Project::Config,
            Project::Data,
            Project::DataLocal,
            Project::Preference,
            Project::PathFragment,
            Project::Runtime,
            Project::State,
        ]
    }

    /// Enumerates all project directory kinds, in declaration order.
    pub fn all() -> (r: Vec<Project>)
        ensures
            r@ == Project::spec_all(),
    {
        let mut v: Vec<Project> = Vec::new();
        v.push(Project::Cache);
        v.push(Project::Config);
        v.push(Project::Data);
        v.push(Project::DataLocal);
        v.push(Project::Preference);
        v.push(Project::PathFragment);
        v.push(Project::Runtime);
        v.push(Project::State);
        proof {
            assert(v@ =~= Project::spec_all());
        }
        v
    }

    /// Parsing the label of any project directory kind gives that kind back.
    pub proof fn lemma_label_round_trip(p: Project)
        ensures
            Project::spec_parse(p.spec_label()) == Some(p),
    {
        reveal_strlit("cache");
        reveal_strlit("config");
        reveal_strlit("data");
        reveal_strlit("data-local");
        reveal_strlit("preference");
        reveal_strlit("path-fragment");
        reveal_strlit("runtime");
        reveal_strlit("state");
        assert("cache"@.len() == 5);
        assert("config"@.len() == 6);
        assert("data"@.len() == 4);
        assert("data-local"@.len() == 10);
        assert("preference"@.len() == 10);
        assert("path-fragment"@.len() == 13);
        assert("runtime"@.len() == 7);
        assert("state"@.len() == 5);
        match p {
            Project::Cache => {},
            Project::Config => {},
            Project::Data => {},
            Project::DataLocal => {},
            Project::Preference => {
                assert("preference"@ == "data-local"@ ==> "preference"@[0] == "data-local"@[0]);
            },
            Project::PathFragment => {},
            Project::Runtime => {},
            Project::State => {
                assert("state"@ == "cache"@ ==> "state"@[0] == "cache"@[0]);
            },
        }
    }

    /// Whether the host's table defines this kind unconditionally: these
    /// kinds resolve whenever the identity yields a project base.
    pub open spec fn spec_always_defined(self) -> bool {
        self != Project::Runtime && self != Project::State
    }

    /// The host's project-directory table for an application identity.  An
    /// empty application name is rejected outright: qualifier and
    /// organization may default to the empty string, the application name
    /// may not.  What reaches the host lookup is exactly what
    /// `identity_strings` states.
    pub fn dirs(options: &ProjectOptions) -> (r: Result<directories::ProjectDirs, Error>)
        ensures
            r is Err ==> r->Err_0 == Error::InvalidHomeDirectory,
            options.application@.len() == 0 ==> r == Err::<directories::ProjectDirs, Error>(
                Error::InvalidHomeDirectory,
            ),
    {
        if options.application.as_str().is_empty() {
            return Err(Error::InvalidHomeDirectory);
        }
        let identity = options.identity_strings();
        match project_dirs_from(identity.0, identity.1, identity.2) {
            Some(d) => Ok(d),
            None => Err(Error::InvalidHomeDirectory),
        }
    }

    /// Resolves this kind for an application identity.  An empty
    /// application name is rejected; otherwise it fails only because the
    /// identity yields no project base, or because the host's platform
    /// standard defines no such location, which the kinds outside the
    /// runtime and state pair never meet.
    pub fn path_buf(&self, options: &ProjectOptions) -> (r: Result<std::path::PathBuf, Error>)
        ensures
            r is Err ==> r->Err_0 == Error::InvalidHomeDirectory || r->Err_0
                == Error::NotDefinedByPlatformStandard,
            options.application@.len() == 0 ==> r == Err::<std::path::PathBuf, Error>(
                Error::InvalidHomeDirectory,
            ),
            self.spec_always_defined() ==> r != Err::<std::path::PathBuf, Error>(
                Error::NotDefinedByPlatformStandard,
            ),
    {
        let dirs = match Self::dirs(options) {
            Ok(d) => d,
            Err(e) => {
                return Err(e);
            },
        };
        let found: Option<std::path::PathBuf> = match self {
            Project::Cache => Some(project_cache_dir(&dirs)),
            Project::Config => Some(project_config_dir(&dirs)),
            Project::Data => Some(project_data_dir(&dirs)),
            Project::DataLocal => Some(project_data_local_dir(&dirs)),
            Project::Preference => Some(project_preference_dir(&dirs)),
            Project::PathFragment => Some(project_path_fragment(&dirs)),
            Project::Runtime => project_runtime_dir(&dirs),
            Project::State => project_state_dir(&dirs),
        };
        match found {
            Some(p) => Ok(p),
            None => Err(Error::NotDefinedByPlatformStandard),
        }
    }

    /// Resolution plus strict Unicode validation of the resolved path.
    pub fn utf8_path_buf(&self, options: &ProjectOptions) -> (r: Result<
        camino::Utf8PathBuf,
        Error,
    >)
        ensures
            r is Err ==> r->Err_0 == Error::InvalidHomeDirectory || r->Err_0
                == Error::NotDefinedByPlatformStandard || r->Err_0 == Error::InvalidUnicode,
            options.application@.len() == 0 ==> r == Err::<camino::Utf8PathBuf, Error>(
                Error::InvalidHomeDirectory,
            ),
            self.spec_always_defined() ==> r != Err::<camino::Utf8PathBuf, Error>(
                Error::NotDefinedByPlatformStandard,
            ),
    {
        match self.path_buf(options) {
            Ok(p) => match utf8_from_path_buf(p) {
                Ok(u) => Ok(u),
                Err(_) => Err(Error::InvalidUnicode),
            },
            Err(e) => Err(e),
        }
    }
}

} // verus!
