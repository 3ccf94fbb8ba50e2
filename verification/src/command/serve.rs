//! The compute core of the HTTP surface: one request's category and
//! variant labels parsed, resolved, and rendered.  The routing, listener
//! and TLS plumbing around it live outside the library.

use vstd::prelude::*;

use crate::Error;
use crate::host::utf8_into_string;
use crate::output::{render_path, Format};
use crate::platform::path::{Base, PlatformPathKind, Project, ProjectOptions, User};
use vstd::string::{StrSliceExecFns, StringExecFns};

verus! {

/// Resolves the request named by a category label and a variant label,
/// scoped to the given application identity for project kinds.  A label
/// outside the closed enumerations is the unknown-directory-kind failure.
pub fn handle(kind: &str, path: &str, options: &ProjectOptions) -> (r: Result<
    camino::Utf8PathBuf,
    Error,
>)
    ensures
        PlatformPathKind::spec_parse(kind@) is None ==> r == Err::<camino::Utf8PathBuf, Error>(
            Error::UnknownDirectoryKind,
        ),
        PlatformPathKind::spec_parse(kind@) == Some(PlatformPathKind::Base) ==> (
        Base::spec_parse(path@) is None ==> r == Err::<camino::Utf8PathBuf, Error>(
            Error::UnknownDirectoryKind,
        )),
        PlatformPathKind::spec_parse(kind@) == Some(PlatformPathKind::User) ==> (
        User::spec_parse(path@) is None ==> r == Err::<camino::Utf8PathBuf, Error>(
            Error::UnknownDirectoryKind,
        )),
        PlatformPathKind::spec_parse(kind@) == Some(PlatformPathKind::Project) ==> (
        Project::spec_parse(path@) is None ==> r == Err::<camino::Utf8PathBuf, Error>(
            Error::UnknownDirectoryKind,
        )),
        PlatformPathKind::spec_parse(kind@) == Some(PlatformPathKind::Base) ==> (
        Base::spec_parse(path@) is Some ==> r != Err::<camino::Utf8PathBuf, Error>(
            Error::UnknownDirectoryKind,
        )),
        PlatformPathKind::spec_parse(kind@) == Some(PlatformPathKind::User) ==> (
        User::spec_parse(path@) is Some ==> r != Err::<camino::Utf8PathBuf, Error>(
            Error::UnknownDirectoryKind,
        )),
        PlatformPathKind::spec_parse(kind@) == Some(PlatformPathKind::Project) ==> (
        Project::spec_parse(path@) is Some ==> r != Err::<camino::Utf8PathBuf, Error>(
            Error::UnknownDirectoryKind,
        )),
        r is Err ==> r->Err_0 == Error::UnknownDirectoryKind || r->Err_0
            == Error::InvalidHomeDirectory || r->Err_0 == Error::NotDefinedByPlatformStandard
            || r->Err_0 == Error::InvalidUnicode,
{
    let parsed = match PlatformPathKind::parse(kind) {
        Some(k) => k,
        None => {
            return Err(Error::UnknownDirectoryKind);
        },
    };
    match parsed {
        PlatformPathKind::Base => match Base::parse(path) {
            Some(b) => b.utf8_path_buf(),
            None => Err(Error::UnknownDirectoryKind),
        },
        PlatformPathKind::User => match User::parse(path) {
            Some(u) => u.utf8_path_buf(),
            None => Err(Error::UnknownDirectoryKind),
        },
        PlatformPathKind::Project => match Project::parse(path) {
            Some(p) => p.utf8_path_buf(options),
            None => Err(Error::UnknownDirectoryKind),
        },
    }
}

/// Renders a resolved path for the text route: the bare path text.
pub fn text(path: camino::Utf8PathBuf) -> String {
    utf8_into_string(path)
}

/// Renders a resolved path for the compact JSON route.
pub fn json(path: camino::Utf8PathBuf) -> (r: Result<String, Error>)
    ensures
        r is Ok,
    {
    render_path(utf8_into_string(path), &Format::Json)
}

/// Renders a resolved path for the YAML route.
pub fn yaml(path: camino::Utf8PathBuf) -> (r: Result<String, Error>)
    ensures
        r is Ok,
    {
    render_path(utf8_into_string(path), &Format::Yaml)
}

/// A route prefix with a leading slash supplied where it was missing.
pub open spec fn spec_normalized_prefix(prefix: Seq<char>) -> Seq<char> {
    if prefix.len() > 0 && prefix[0] == '/' {
        prefix
    } else {
        "/"@ + prefix
    }
}

/// The route template that serves one format: the normalized prefix,
/// the version segment, the category and variant placeholders, and the
/// format's label.
pub open spec fn spec_route_template(prefix: Seq<char>, format: Format) -> Seq<char> {
    spec_normalized_prefix(prefix) + "/v0/:kind/:path/"@ + format.spec_label()
}

/// Builds the route template that serves one format under a prefix.
pub fn route_template(prefix: &str, format: &Format) -> (r: String)
    ensures
        r@ == spec_route_template(prefix@, *format),
{
    let len = prefix.unicode_len();
    let mut out = if len > 0 && prefix.get_char(0) == '/' {
        String::from_str(prefix)
    } else {
        let mut s = String::from_str("/");
        s.append(prefix);
        s
    };
    out.append("/v0/:kind/:path/");
    out.append(format.label());
    out
}

} // verus!
