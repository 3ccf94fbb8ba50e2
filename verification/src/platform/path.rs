//! Symbolic directory requests and the static support matrix.

use vstd::prelude::*;

pub mod base;
pub mod project;
pub mod user;

pub use base::Base;
pub use project::{Project, ProjectOptions};
pub use user::User;

use crate::platform::Platform;
use crate::platform::status::Status;
use crate::text::str_eq;

verus! {

/// A symbolic directory request, tagged with its category.
#[derive(Clone, Copy, Debug, PartialEq, Eq, Hash, Structural)]
pub enum PlatformPath {
    Base(Base),
    User(User),
    Project(Project),
}

/// The three closed categories of directory kinds.
#[derive(Clone, Copy, Debug, PartialEq, Eq, Hash, Structural)]
pub enum PlatformPathKind {
    Base,
    User,
    Project,
}

impl Base {
    /// The static support matrix entry for a base directory kind.  Linux
    /// defines every base directory; macOS and Windows define all but the
    /// executable, runtime and state directories; no entry covers wasm.
    pub open spec fn spec_status(self, platform: Platform) -> Status {
        match platform {
            Platform::Wasm => Status::Unknown,
            Platform::Linux => Status::Supported,
            _ => match self {
                Base::Executable | Base::Runtime | Base::State => Status::Unsupported,
                _ => Status::Supported,
            },
        }
    }
}

impl User {
    /// The static support matrix entry for a user directory kind.  All are
    /// defined on Linux; macOS lacks templates, Windows lacks fonts; no
    /// entry covers wasm.
    pub open spec fn spec_status(self, platform: Platform) -> Status {
        match platform {
            Platform::Wasm => Status::Unknown,
            Platform::Linux => Status::Supported,
            Platform::MacOS => if self == User::Template {
                Status::Unsupported
            } else {
                Status::Supported
            },
            Platform::Windows => if self == User::Font {
                Status::Unsupported
            } else {
                Status::Supported
            },
        }
    }
}

impl Project {
    /// The static support matrix entry for a project directory kind.  The
    /// path fragment has no entry on any platform; runtime and state
    /// directories are Linux-only; no entry covers wasm.
    pub open spec fn spec_status(self, platform: Platform) -> Status {
        if self == Project::PathFragment {
            Status::Unknown
        } else {
            match platform {
                Platform::Wasm => Status::Unknown,
                Platform::Linux => Status::Supported,
                _ => match self {
                    Project::Runtime | Project::State => Status::Unsupported,
                    _ => Status::Supported,
                },
            }
        }
    }
}

impl PlatformPath {
    /// The static support matrix, read for one request and platform.
    pub open spec fn spec_status(self, platform: Platform) -> Status {
        match self {
            PlatformPath::Base(b) => b.spec_status(platform),
            PlatformPath::User(u) => u.spec_status(platform),
            PlatformPath::Project(p) => p.spec_status(platform),
        }
    }

    /// Looks up the support status of this request on a platform.
    pub fn status(&self, platform: &Platform) -> (r: Status)
        ensures
            r == self.spec_status(*platform),
    {
        match platform {
            Platform::Wasm => Status::Unknown,
            Platform::Linux => match self {
                PlatformPath::Project(Project::PathFragment) => Status::Unknown,
                _ => Status::Supported,
            },
            Platform::MacOS => match self {
                PlatformPath::Base(Base::Executable)
                | PlatformPath::Base(Base::Runtime)
                | PlatformPath::Base(Base::State) => Status::Unsupported,
                PlatformPath::User(User::Template) => Status::Unsupported,
                PlatformPath::Project(Project::PathFragment) => Status::Unknown,
                PlatformPath::Project(Project::Runtime)
                | PlatformPath::Project(Project::State) => Status::Unsupported,
                _ => Status::Supported,
            },
            Platform::Windows => match self {
                PlatformPath::Base(Base::Executable)
                | PlatformPath::Base(Base::Runtime)
                | PlatformPath::Base(Base::State) => Status::Unsupported,
                PlatformPath::User(User::Font) => Status::Unsupported,
                PlatformPath::Project(Project::PathFragment) => Status::Unknown,
                PlatformPath::Project(Project::Runtime)
                | PlatformPath::Project(Project::State) => Status::Unsupported,
                _ => Status::Supported,
            },
        }
    }

    /// The stable label of the requested variant.
    pub open spec fn spec_label(self) -> Seq<char> {
        match self {
            PlatformPath::Base(b) => b.spec_label(),
            PlatformPath::User(u) => u.spec_label(),
            PlatformPath::Project(p) => p.spec_label(),
        }
    }

    /// Serializes the requested variant to its stable label.
    pub fn label(&self) -> (r: &'static str)
        ensures
            r@ == self.spec_label(),
    {
        match self {
            PlatformPath::Base(b) => b.label(),
            PlatformPath::User(u) => u.label(),
            PlatformPath::Project(p) => p.label(),
        }
    }
}

/// The pairs the static matrix lists explicitly: every variant on Linux,
/// macOS and Windows, except the project path fragment, which carries no
/// annotation at all.
pub open spec fn spec_in_matrix(path: PlatformPath, platform: Platform) -> bool {
    platform != Platform::Wasm && path != PlatformPath::Project(Project::PathFragment)
}

/// Looking up a support status is total and deterministic: it is a function
/// of the pair alone, and any pair absent from the static matrix yields
/// `Unknown`.
pub proof fn lemma_status_unknown_by_default(path: PlatformPath, platform: Platform)
    ensures
        !spec_in_matrix(path, platform) ==> path.spec_status(platform) == Status::Unknown,
        path.spec_status(platform) == Status::Supported || path.spec_status(platform)
            == Status::Unsupported || path.spec_status(platform) == Status::Unknown,
{
}

impl From<Base> for PlatformPath {
    fn from(path: Base) -> (r: Self) {
        PlatformPath::Base(path)
    }
}

impl vstd::std_specs::convert::FromSpecImpl<Base> for PlatformPath {
    open spec fn obeys_from_spec() -> bool {
        true
    }

    open spec fn from_spec(path: Base) -> Self {
        PlatformPath::Base(path)
    }
}

impl From<User> for PlatformPath {
    fn from(path: User) -> (r: Self) {
        PlatformPath::User(path)
    }
}

impl vstd::std_specs::convert::FromSpecImpl<User> for PlatformPath {
    open spec fn obeys_from_spec() -> bool {
        true
    }

    open spec fn from_spec(path: User) -> Self {
        PlatformPath::User(path)
    }
}

impl From<Project> for PlatformPath {
    fn from(path: Project) -> (r: Self) {
        PlatformPath::Project(path)
    }
}

impl vstd::std_specs::convert::FromSpecImpl<Project> for PlatformPath {
    open spec fn obeys_from_spec() -> bool {
        true
    }

    open spec fn from_spec(path: Project) -> Self {
        PlatformPath::Project(path)
    }
}

impl PlatformPathKind {
    /// The stable lowercase label of a category.
    pub open spec fn spec_label(self) -> Seq<char> {
        match self {
            PlatformPathKind::Base => "base"@,
            PlatformPathKind::User => "user"@,
            PlatformPathKind::Project => "project"@,
        }
    }

    /// Serializes a category to its stable label.
    pub fn label(&self) -> (r: &'static str)
        ensures
            r@ == self.spec_label(),
    {
        match self {
            PlatformPathKind::Base => "base",
            PlatformPathKind::User => "user",
            PlatformPathKind::Project => "project",
        }
    }

    /// The category a label denotes, if any.
    pub open spec fn spec_parse(s: Seq<char>) -> Option<PlatformPathKind> {
        if s == "base"@ {
            Some(PlatformPathKind::Base)
        } else if s == "user"@ {
            Some(PlatformPathKind::User)
        } else if s == "project"@ {
            Some(PlatformPathKind::Project)
        } else {
            None
        }
    }

    /// Parses a stable label back into a category.
    pub fn parse(s: &str) -> (r: Option<PlatformPathKind>)
        ensures
            r == Self::spec_parse(s@),
    {
        if str_eq(s, "base") {
            Some(PlatformPathKind::Base)
        } else if str_eq(s, "user") {
            Some(PlatformPathKind::User)
        } else if str_eq(s, "project") {
            Some(PlatformPathKind::Project)
        } else {
            None
        }
    }

    /// All categories, in declaration order.
    pub open spec fn spec_all() -> Seq<PlatformPathKind> {
        seq![PlatformPathKind::Base, PlatformPathKind::User, PlatformPathKind::Project]
    }

    /// Enumerates all categories, in declaration order.
    pub fn all() -> (r: Vec<PlatformPathKind>)
        ensures
            r@ == PlatformPathKind::spec_all(),
    {
        let mut v: Vec<PlatformPathKind> = Vec::new();
        v.push(PlatformPathKind::Base);
        v.push(PlatformPathKind::User);
        v.push(PlatformPathKind::Project);
        proof {
            assert(v@ =~= PlatformPathKind::spec_all());
        }
        v
    }

    /// Parsing the label of any category gives that category back.
    pub proof fn lemma_label_round_trip(k: PlatformPathKind)
        ensures
            PlatformPathKind::spec_parse(k.spec_label()) == Some(k),
    {
        reveal_strlit("base");
        reveal_strlit("user");
        reveal_strlit("project");
        assert("base"@.len() == 4);
        assert("user"@.len() == 4);
        assert("project"@.len() == 7);
        match k {
            PlatformPathKind::Base => {},
            PlatformPathKind::User => {
                assert("user"@ == "base"@ ==> "user"@[0] == "base"@[0]);
            },
            PlatformPathKind::Project => {},
        }
    }
}

/// A resolved path wrapped for structured rendering, mirroring the shape
/// `{"path": ...}`.
#[derive(Clone, Debug)]
pub struct StructuredPathString {
    pub path: String,
}

impl From<String> for StructuredPathString {
    fn from(path: String) -> (r: Self) {
        StructuredPathString { path }
    }
}

impl vstd::std_specs::convert::FromSpecImpl<String> for StructuredPathString {
    open spec fn obeys_from_spec() -> bool {
        true
    }

    open spec fn from_spec(path: String) -> Self {
        StructuredPathString { path }
    }
}

} // verus!
