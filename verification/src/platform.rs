//! The operating-system families a support entry can apply to.

use vstd::prelude::*;

pub mod info;
pub mod path;
pub mod status;

use crate::text::str_eq;

verus! {

/// An operating-system family.  A support-matrix entry annotates a directory
/// kind with its status on one of these.
#[derive(Clone, Copy, Debug, PartialEq, Eq, Hash, Structural)]
pub enum Platform {
    Linux,
    MacOS,
    Windows,
    Wasm,
}

impl Platform {
    /// The stable lowercase label of a platform.
    pub open spec fn spec_label(self) -> Seq<char> {
        match self {
            Platform::Linux => "linux"@,
            Platform::MacOS => "macos"@,
            Platform::Windows => "windows"@,
            Platform::Wasm => "wasm"@,
        }
    }

    /// Serializes a platform to its stable label.
    pub fn label(&self) -> (r: &'static str)
        ensures
            r@ == self.spec_label(),
    {
        match self {
            Platform::Linux => "linux",
            Platform::MacOS => "macos",
            Platform::Windows => "windows",
            Platform::Wasm => "wasm",
        }
    }

    /// The platform a label denotes, if any; exact, case-sensitive matching.
    pub open spec fn spec_parse(s: Seq<char>) -> Option<Platform> {
        if s == "linux"@ {
            Some(Platform::Linux)
        } else if s == "macos"@ {
            Some(Platform::MacOS)
        } else if s == "windows"@ {
            Some(Platform::Windows)
        } else if s == "wasm"@ {
            Some(Platform::Wasm)
        } else {
            None
        }
    }

    /// Parses a stable label back into a platform.
    pub fn parse(s: &str) -> (r: Option<Platform>)
        ensures
            r == Self::spec_parse(s@),
    {
        if str_eq(s, "linux") {
            Some(Platform::Linux)
        } else if str_eq(s, "macos") {
            Some(Platform::MacOS)
        } else if str_eq(s, "windows") {
            Some(Platform::Windows)
        } else if str_eq(s, "wasm") {
            Some(Platform::Wasm)
        } else {
            None
        }
    }

    /// All platforms, in declaration order.
    pub open spec fn spec_all() -> Seq<Platform> {
        seq![Platform::Linux, Platform::MacOS, Platform::Windows, Platform::Wasm]
    }

    /// Enumerates all platforms, in declaration order.
    pub fn all() -> (r: Vec<Platform>)
        ensures
            r@ == Platform::spec_all(),
    {
        let mut v: Vec<Platform> = Vec::new();
        v.push(Platform::Linux);
        v.push(Platform::MacOS);
        v.push(Platform::Windows);
        v.push(Platform::Wasm);
        proof {
            assert(v@ =~= Platform::spec_all());
        }
        v
    }

    /// Parsing the label of any platform gives that platform back.
    pub proof fn lemma_label_round_trip(p: Platform)
        ensures
            Platform::spec_parse(p.spec_label()) == Some(p),
    {
        reveal_strlit("linux");
        reveal_strlit("macos");
        reveal_strlit("windows");
        reveal_strlit("wasm");
        match p {
            Platform::Linux => {},
            Platform::MacOS => {
                assert("macos"@ != "linux"@) by {
                    assert("macos"@ == "linux"@ ==> "macos"@[0] == "linux"@[0]);
                }
            },
            Platform::Windows => {
                assert("windows"@.len() == 7);
                assert("linux"@.len() == 5);
            },
            Platform::Wasm => {
                assert("wasm"@.len() == 4);
            },
        }
    }
}

/// The platform this build targets.
impl Default for Platform {
    fn default() -> (r: Self)
        ensures
            r == Platform::Linux,
    {
        Platform::Linux
    }
}

} // verus!
