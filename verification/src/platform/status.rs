//! Support status of a directory kind on a platform.

use vstd::prelude::*;

use crate::text::str_eq;

verus! {

/// Whether a platform standard defines a location for a directory kind.
/// `Unknown` is the default for any pair absent from the static matrix.
#[derive(Clone, Copy, Debug, PartialEq, Eq, Hash, Structural)]
pub enum Status {
    Supported,
    Unsupported,
    Unknown,
}

impl Status {
    /// The stable lowercase label of a status.
    pub open spec fn spec_label(self) -> Seq<char> {
        match self {
            Status::Supported => "supported"@,
            Status::Unsupported => "unsupported"@,
            Status::Unknown => "unknown"@,
        }
    }

    /// Serializes a status to its stable label.
    pub fn label(&self) -> (r: &'static str)
        ensures
            r@ == self.spec_label(),
    {
        match self {
            Status::Supported => "supported",
            Status::Unsupported => "unsupported",
            Status::Unknown => "unknown",
        }
    }

    /// The status a label denotes, if any; exact, case-sensitive matching.
    pub open spec fn spec_parse(s: Seq<char>) -> Option<Status> {
        if s == "supported"@ {
            Some(Status::Supported)
        } else if s == "unsupported"@ {
            Some(Status::Unsupported)
        } else if s == "unknown"@ {
            Some(Status::Unknown)
        } else {
            None
        }
    }

    /// Parses a stable label back into a status.
    pub fn parse(s: &str) -> (r: Option<Status>)
        ensures
            r == Self::spec_parse(s@),
    {
        if str_eq(s, "supported") {
            Some(Status::Supported)
        } else if str_eq(s, "unsupported") {
            Some(Status::Unsupported)
        } else if str_eq(s, "unknown") {
            Some(Status::Unknown)
        } else {
            None
        }
    }

    /// All statuses, in declaration order.
    pub open spec fn spec_all() -> Seq<Status> {
        seq![Status::Supported, Status::Unsupported, Status::Unknown]
    }

    /// Enumerates all statuses, in declaration order.
    pub fn all() -> (r: Vec<Status>)
        ensures
            r@ == Status::spec_all(),
    {
        let mut v: Vec<Status> = Vec::new();
        v.push(Status::Supported);
        v.push(Status::Unsupported);
        v.push(Status::Unknown);
        proof {
            assert(v@ =~= Status::spec_all());
        }
        v
    }

    /// Parsing the label of any status gives that status back.
    pub proof fn lemma_label_round_trip(s: Status)
        ensures
            Status::spec_parse(s.spec_label()) == Some(s),
    {
        reveal_strlit("supported");
        reveal_strlit("unsupported");
        reveal_strlit("unknown");
        assert("supported"@.len() == 9);
        assert("unsupported"@.len() == 11);
        assert("unknown"@.len() == 7);
        match s {
            Status::Supported => {},
            Status::Unsupported => {},
            Status::Unknown => {},
        }
    }
}

impl Default for Status {
    fn default() -> (r: Self)
        ensures
            r == Status::Unknown,
    {
        Status::Unknown
    }
}

/// A status wrapped for structured rendering, mirroring the shape
/// `{"status": ...}` that reports carry per variant.
#[derive(Clone, Copy, Debug, PartialEq, Eq, Structural)]
pub struct StructuredStatus {
    pub status: Status,
}

impl From<Status> for StructuredStatus {
    fn from(status: Status) -> (r: Self) {
        StructuredStatus { status }
    }
}

impl vstd::std_specs::convert::FromSpecImpl<Status> for StructuredStatus {
    open spec fn obeys_from_spec() -> bool {
        true
    }

    open spec fn from_spec(status: Status) -> Self {
        StructuredStatus { status }
    }
}

} // verus!
