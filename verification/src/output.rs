//! Output formats, the Unicode policy, and structured rendering of one
//! resolved path.

use vstd::prelude::*;

use crate::Error;
use crate::host::{path_to_str, path_to_string_lossy};
use crate::platform::path::StructuredPathString;
use crate::text::str_eq;

verus! {

/// The closed set of output formats.
#[derive(Clone, Copy, Debug, PartialEq, Eq, Structural)]
pub enum Format {
    Text,
    Json,
    JsonPretty,
    Yaml,
}

impl Format {
    /// The stable lowercase-kebab label of a format.
    pub open spec fn spec_label(self) -> Seq<char> {
        match self {
            Format::Text => "text"@,
            Format::Json => "json"@,
            Format::JsonPretty => "json-pretty"@,
            Format::Yaml => "yaml"@,
        }
    }

    /// Serializes a format to its stable label.
    pub fn label(&self) -> (r: &'static str)
        ensures
            r@ == self.spec_label(),
    {
        match self {
            Format::Text => "text",
            Format::Json => "json",
            Format::JsonPretty => "json-pretty",
            Format::Yaml => "yaml",
        }
    }

    /// The format a label denotes, if any.
    pub open spec fn spec_parse(s: Seq<char>) -> Option<Format> {
        if s == "text"@ {
            Some(Format::Text)
        } else if s == "json"@ {
            Some(Format::Json)
        } else if s == "json-pretty"@ {
            Some(Format::JsonPretty)
        } else if s == "yaml"@ {
            Some(Format::Yaml)
        } else {
            None
        }
    }

    /// Parses a stable label back into a format.
    pub fn parse(s: &str) -> (r: Option<Format>)
        ensures
            r == Self::spec_parse(s@),
    {
        if str_eq(s, "text") {
            Some(Format::Text)
        } else if str_eq(s, "json") {
            Some(Format::Json)
        } else if str_eq(s, "json-pretty") {
            Some(Format::JsonPretty)
        } else if str_eq(s, "yaml") {
            Some(Format::Yaml)
        } else {
            None
        }
    }

    /// Parsing the label of any format gives that format back.
    pub proof fn lemma_label_round_trip(f: Format)
        ensures
            Format::spec_parse(f.spec_label()) == Some(f),
    {
        reveal_strlit("text");
        reveal_strlit("json");
        reveal_strlit("json-pretty");
        reveal_strlit("yaml");
        assert("text"@.len() == 4);
        assert("json"@.len() == 4);
        assert("json-pretty"@.len() == 11);
        assert("yaml"@.len() == 4);
        match f {
            Format::Text => {},
            Format::Json => {
                assert("json"@ == "text"@ ==> "json"@[0] == "text"@[0]);
            },
            Format::JsonPretty => {},
            Format::Yaml => {
                assert("yaml"@ == "text"@ ==> "yaml"@[0] == "text"@[0]);
                assert("yaml"@ == "json"@ ==> "yaml"@[0] == "json"@[0]);
            },
        }
    }
}

impl Default for Format {
    fn default() -> (r: Self)
        ensures
            r == Format::Text,
    {
        Format::Text
    }
}

/// The caller's Unicode policy for resolved native paths: strict validation
/// or lossy coercion.
#[derive(Clone, Copy, Debug, PartialEq, Eq, Structural)]
pub enum Unicode {
    Required,
    Enforced,
}

impl Unicode {
    /// The stable lowercase label of a policy.
    pub open spec fn spec_label(self) -> Seq<char> {
        match self {
            Unicode::Required => "required"@,
            Unicode::Enforced => "enforced"@,
        }
    }

    /// Serializes a policy to its stable label.
    pub fn label(&self) -> (r: &'static str)
        ensures
            r@ == self.spec_label(),
    {
        match self {
            Unicode::Required => "required",
            Unicode::Enforced => "enforced",
        }
    }

    /// The policy a label denotes, if any.
    pub open spec fn spec_parse(s: Seq<char>) -> Option<Unicode> {
        if s == "required"@ {
            Some(Unicode::Required)
        } else if s == "enforced"@ {
            Some(Unicode::Enforced)
        } else {
            None
        }
    }

    /// Parses a stable label back into a policy.
    pub fn parse(s: &str) -> (r: Option<Unicode>)
        ensures
            r == Self::spec_parse(s@),
    {
        if str_eq(s, "required") {
            Some(Unicode::Required)
        } else if str_eq(s, "enforced") {
            Some(Unicode::Enforced)
        } else {
            None
        }
    }

    /// Parsing the label of any policy gives that policy back.
    pub proof fn lemma_label_round_trip(u: Unicode)
        ensures
            Unicode::spec_parse(u.spec_label()) == Some(u),
    {
        reveal_strlit("required");
        reveal_strlit("enforced");
        assert("required"@.len() == 8);
        assert("enforced"@.len() == 8);
        match u {
            Unicode::Required => {},
            Unicode::Enforced => {
                assert("enforced"@ == "required"@ ==> "enforced"@[0] == "required"@[0]);
            },
        }
    }
}

impl Default for Unicode {
    fn default() -> (r: Self)
        ensures
            r == Unicode::Required,
    {
        Unicode::Required
    }
}

/// The compact JSON text of the one-entry object {"path": s}.
pub uninterp spec fn json_path_text(s: Seq<char>) -> Seq<char>;

/// The pretty-printed JSON text of the one-entry object {"path": s}.
pub uninterp spec fn json_path_text_pretty(s: Seq<char>) -> Seq<char>;

/// The YAML text of the one-entry mapping {path: s}.
pub uninterp spec fn yaml_path_text(s: Seq<char>) -> Seq<char>;

/// Relies on serde_json::to_string over the one-entry map {"path": path}:
/// it fails only on a failing Serialize impl or a map with non-string keys,
/// neither of which occurs here, and its text depends on the path alone.
/// An encoding failure would surface as None.
#[verifier::external_body]
fn path_json(path: &str) -> (r: Option<String>)
    ensures
        r is Some,
        r matches Some(t) ==> t@ == json_path_text(path@),
{
    let mut map = std::collections::BTreeMap::new();
    map.insert("path", path);
    serde_json::to_string(&map).ok()
}

/// Relies on serde_json::to_string_pretty over the one-entry map
/// {"path": path}: the same failure conditions as the compact form, neither
/// occurring here, and its text depends on the path alone.  An encoding
/// failure would surface as None.
#[verifier::external_body]
fn path_json_pretty(path: &str) -> (r: Option<String>)
    ensures
        r is Some,
        r matches Some(t) ==> t@ == json_path_text_pretty(path@),
{
    let mut map = std::collections::BTreeMap::new();
    map.insert("path", path);
    serde_json::to_string_pretty(&map).ok()
}

/// Relies on serde_yaml::to_string over the one-entry map {path: path}:
/// it fails only when a Serialize impl decides to fail, and the map's impl
/// only forwards plain strings, so encoding cannot fail here; the text
/// depends on the path alone.  An encoding failure would surface as None.
#[verifier::external_body]
fn path_yaml(path: &str) -> (r: Option<String>)
    ensures
        r is Some,
        r matches Some(t) ==> t@ == yaml_path_text(path@),
{
    let mut map = std::collections::BTreeMap::new();
    map.insert("path", path);
    serde_yaml::to_string(&map).ok()
}

/// Applies the caller's Unicode policy to a resolved native path: strict
/// validation fails on non-Unicode paths, lossy coercion never fails.
pub fn path_to_text(path: &std::path::PathBuf, unicode: &Unicode) -> (r: Result<String, Error>)
    ensures
        r is Err ==> r->Err_0 == Error::InvalidUnicode,
        *unicode == Unicode::Enforced ==> r is Ok,
{
    match unicode {
        Unicode::Required => match path_to_str(path) {
            Some(s) => Ok(s),
            None => Err(Error::InvalidUnicode),
        },
        Unicode::Enforced => Ok(path_to_string_lossy(path)),
    }
}

/// Renders one resolved path in the requested format: the bare text, or a
/// structured {"path": ...} document.  Every format succeeds, and each
/// rendered text is pinned to the path.
pub fn render_path(path: String, format: &Format) -> (r: Result<String, Error>)
    ensures
        *format == Format::Text ==> r == Ok::<String, Error>(path),
        *format == Format::Json ==> (r matches Ok(t) && t@ == json_path_text(path@)),
        *format == Format::JsonPretty ==> (r matches Ok(t) && t@ == json_path_text_pretty(
            path@,
        )),
        *format == Format::Yaml ==> (r matches Ok(t) && t@ == yaml_path_text(path@)),
        r is Ok,
    {
    let wrapped = StructuredPathString::from(path);
    match format {
        Format::Text => Ok(wrapped.path),
        Format::Json => match path_json(wrapped.path.as_str()) {
            Some(s) => Ok(s),
            None => Err(Error::JsonError),
        },
        Format::JsonPretty => match path_json_pretty(wrapped.path.as_str()) {
            Some(s) => Ok(s),
            None => Err(Error::JsonError),
        },
        Format::Yaml => match path_yaml(wrapped.path.as_str()) {
            Some(s) => Ok(s),
            None => Err(Error::YamlError),
        },
    }
}

} // verus!
