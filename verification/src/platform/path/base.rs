//! User-invisible standard directories.

use vstd::prelude::*;

use crate::Error;
use crate::host::{base_cache_dir, base_config_dir, base_data_dir, base_data_local_dir,
    base_dirs_new, base_executable_dir, base_home_dir, base_preference_dir, base_runtime_dir,
    base_state_dir, utf8_from_path_buf};
use crate::text::str_eq;

verus! {

/// An application-agnostic standard directory rooted at the user's profile.
#[derive(Clone, Copy, Debug, PartialEq, Eq, Hash, Structural)]
pub enum Base {
    Cache,
    Config,
    Data,
    DataLocal,
    Executable,
    Home,
    Preference,
    Runtime,
    State,
}

impl Base {
    /// The stable lowercase-kebab label of a base directory kind.
    pub open spec fn spec_label(self) -> Seq<char> {
        match self {
            Base::Cache => "cache"@,
            Base::Config => "config"@,
            Base::Data => "data"@,
            Base::DataLocal => "data-local"@,
            Base::Executable => "executable"@,
            Base::Home => "home"@,
            Base::Preference => "preference"@,
            Base::Runtime => "runtime"@,
            Base::State => "state"@,
        }
    }

    /// Serializes a base directory kind to its stable label.
    pub fn label(&self) -> (r: &'static str)
        ensures
            r@ == self.spec_label(),
    {
        match self {
            Base::Cache => "cache",
            Base::Config => "config",
            Base::Data => "data",
            Base::DataLocal => "data-local",
            Base::Executable => "executable",
            Base::Home => "home",
            Base::Preference => "preference",
            Base::Runtime => "runtime",
            Base::State => "state",
        }
    }

    /// The base directory kind a label denotes, if any.
    pub open spec fn spec_parse(s: Seq<char>) -> Option<Base> {
        if s == "cache"@ {
            Some(Base::Cache)
        } else if s == "config"@ {
            Some(Base::Config)
        } else if s == "data"@ {
            Some(Base::Data)
        } else if s == "data-local"@ {
            Some(Base::DataLocal)
        } else if s == "executable"@ {
            Some(Base::Executable)
        } else if s == "home"@ {
            Some(Base::Home)
        } else if s == "preference"@ {
            Some(Base::Preference)
        } else if s == "runtime"@ {
            Some(Base::Runtime)
        } else if s == "state"@ {
            Some(Base::State)
        } else {
            None
        }
    }

    /// Parses a stable label back into a base directory kind.
    pub fn parse(s: &str) -> (r: Option<Base>)
        ensures
            r == Self::spec_parse(s@),
    {
        if str_eq(s, "cache") {
            Some(Base::Cache)
        } else if str_eq(s, "config") {
            Some(Base::Config)
        } else if str_eq(s, "data") {
            Some(Base::Data)
        } else if str_eq(s, "data-local") {
            Some(Base::DataLocal)
        } else if str_eq(s, "executable") {
            Some(Base::Executable)
        } else if str_eq(s, "home") {
            Some(Base::Home)
        } else if str_eq(s, "preference") {
            Some(Base::Preference)
        } else if str_eq(s, "runtime") {
            Some(Base::Runtime)
        } else if str_eq(s, "state") {
            Some(Base::State)
        } else {
            None
        }
    }

    /// All base directory kinds, in declaration order.
    pub open spec fn spec_all() -> Seq<Base> {
        seq![
            Base::Cache,
            Base::Config,
            Base::Data,
            Base::DataLocal,
            Base::Executable,
            Base::Home,
            Base::Preference,
            Base::Runtime,
            Base::State,
        ]
    }

    /// Enumerates all base directory kinds, in declaration order.
    pub fn all() -> (r: Vec<Base>)
        ensures
            r@ == Base::spec_all(),
    {
        let mut v: Vec<Base> = Vec::new();
        v.push(Base::Cache);
        v.push(Base::Config);
        v.push(Base::Data);
        v.push(Base::DataLocal);
        v.push(Base::Executable);
        v.push(Base::Home);
        v.push(Base::Preference);
        v.push(Base::Runtime);
        v.push(Base::State);
        proof {
            assert(v@ =~= Base::spec_all());
        }
        v
    }

    /// Parsing the label of any base directory kind gives that kind back.
    pub proof fn lemma_label_round_trip(b: Base)
        ensures
            Base::spec_parse(b.spec_label()) == Some(b),
    {
        reveal_strlit("cache");
        reveal_strlit("config");
        reveal_strlit("data");
        reveal_strlit("data-local");
        reveal_strlit("executable");
        reveal_strlit("home");
        reveal_strlit("preference");
        reveal_strlit("runtime");
        reveal_strlit("state");
        assert("cache"@.len() == 5);
        assert("config"@.len() == 6);
        assert("data"@.len() == 4);
        assert("data-local"@.len() == 10);
        assert("executable"@.len() == 10);
        assert("home"@.len() == 4);
        assert("preference"@.len() == 10);
        assert("runtime"@.len() == 7);
        assert("state"@.len() == 5);
        match b {
            Base::Cache => {},
            Base::Config => {},
            Base::Data => {},
            Base::DataLocal => {},
            Base::Executable => {
                assert("executable"@ == "data-local"@ ==> "executable"@[0] == "data-local"@[0]);
            },
            Base::Home => {
                assert("home"@ == "data"@ ==> "home"@[0] == "data"@[0]);
            },
            Base::Preference => {
                assert("preference"@ == "data-local"@ ==> "preference"@[0] == "data-local"@[0]);
                assert("preference"@ == "executable"@ ==> "preference"@[0] == "executable"@[0]);
            },
            Base::Runtime => {},
            Base::State => {
                assert("state"@ == "cache"@ ==> "state"@[0] == "cache"@[0]);
            },
        }
    }

    /// Whether the host's table defines this kind unconditionally: these
    /// kinds resolve whenever a home directory is discoverable.
    pub open spec fn spec_always_defined(self) -> bool {
        self != Base::Executable && self != Base::Runtime && self != Base::State
    }

    /// The host's base-directory table, or the home-directory failure.
    pub fn dirs() -> (r: Result<directories::BaseDirs, Error>)
        ensures
            r is Err ==> r->Err_0 == Error::InvalidHomeDirectory,
    {
        match base_dirs_new() {
            Some(d) => Ok(d),
            None => Err(Error::InvalidHomeDirectory),
        }
    }

    /// Resolves this kind to the host's real path.  It fails only because
    /// the host has no home directory, or because the host's platform
    /// standard defines no such location; the kinds outside the executable,
    /// runtime and state trio never meet the latter.
    pub fn path_buf(&self) -> (r: Result<std::path::PathBuf, Error>)
        ensures
            r is Err ==> r->Err_0 == Error::InvalidHomeDirectory || r->Err_0
                == Error::NotDefinedByPlatformStandard,
            self.spec_always_defined() ==> r != Err::<std::path::PathBuf, Error>(
                Error::NotDefinedByPlatformStandard,
            ),
    {
        let dirs = match Self::dirs() {
            Ok(d) => d,
            Err(e) => {
                return Err(e);
            },
        };
        let found: Option<std::path::PathBuf> = match self {
            Base::Cache => Some(base_cache_dir(&dirs)),
            Base::Config => Some(base_config_dir(&dirs)),
            Base::Data => Some(base_data_dir(&dirs)),
            Base::DataLocal => Some(base_data_local_dir(&dirs)),
            Base::Executable => base_executable_dir(&dirs),
            Base::Home => Some(base_home_dir(&dirs)),
            Base::Preference => Some(base_preference_dir(&dirs)),
            Base::Runtime => base_runtime_dir(&dirs),
            Base::State => base_state_dir(&dirs),
        };
        match found {
            Some(p) => Ok(p),
            None => Err(Error::NotDefinedByPlatformStandard),
        }
    }

    /// Resolution plus strict Unicode validation of the resolved path.
    pub fn utf8_path_buf(&self) -> (r: Result<camino::Utf8PathBuf, Error>)
        ensures
            r is Err ==> r->Err_0 == Error::InvalidHomeDirectory || r->Err_0
                == Error::NotDefinedByPlatformStandard || r->Err_0 == Error::InvalidUnicode,
            self.spec_always_defined() ==> r != Err::<camino::Utf8PathBuf, Error>(
                Error::NotDefinedByPlatformStandard,
            ),
    {
        match self.path_buf() {
            Ok(p) => match utf8_from_path_buf(p) {
                Ok(u) => Ok(u),
                Err(_) => Err(Error::InvalidUnicode),
            },
            Err(e) => Err(e),
        }
    }
}

} // verus!
