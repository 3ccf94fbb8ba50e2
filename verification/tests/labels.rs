//! Label round trips for every closed enumeration.

use platform_path::output::{Format, Unicode};
use platform_path::platform::path::PlatformPathKind;
use platform_path::platform::status::Status;
use platform_path::platform::Platform;
use platform_path::{Base, Project, User};

#[test]
fn platform_labels_round_trip() {
    for p in Platform::all() {
        assert_eq!(Platform::parse(p.label()), Some(p));
    }
    assert_eq!(Platform::Linux.label(), "linux");
    assert_eq!(Platform::MacOS.label(), "macos");
    assert_eq!(Platform::Windows.label(), "windows");
    assert_eq!(Platform::Wasm.label(), "wasm");
    assert_eq!(Platform::parse("solaris"), None);
    assert_eq!(Platform::parse("Linux"), None);
}

#[test]
fn status_labels_round_trip() {
    for s in Status::all() {
        assert_eq!(Status::parse(s.label()), Some(s));
    }
    assert_eq!(Status::Supported.label(), "supported");
    assert_eq!(Status::Unsupported.label(), "unsupported");
    assert_eq!(Status::Unknown.label(), "unknown");
    assert_eq!(Status::parse(""), None);
}

#[test]
fn base_labels_round_trip() {
    for b in Base::all() {
        assert_eq!(Base::parse(b.label()), Some(b));
    }
    assert_eq!(Base::DataLocal.label(), "data-local");
    assert_eq!(Base::parse("data_local"), None);
    assert_eq!(Base::parse("cache "), None);
}

#[test]
fn user_labels_round_trip() {
    for u in User::all() {
        assert_eq!(User::parse(u.label()), Some(u));
    }
    assert_eq!(User::Download.label(), "download");
    assert_eq!(User::parse("downloads"), None);
}

#[test]
fn project_labels_round_trip() {
    for p in Project::all() {
        assert_eq!(Project::parse(p.label()), Some(p));
    }
    assert_eq!(Project::PathFragment.label(), "path-fragment");
    assert_eq!(Project::parse("fragment"), None);
}

#[test]
fn kind_labels_round_trip() {
    for k in PlatformPathKind::all() {
        assert_eq!(PlatformPathKind::parse(k.label()), Some(k));
    }
    assert_eq!(PlatformPathKind::Base.label(), "base");
    assert_eq!(PlatformPathKind::User.label(), "user");
    assert_eq!(PlatformPathKind::Project.label(), "project");
    assert_eq!(PlatformPathKind::parse("paths"), None);
}

#[test]
fn format_labels_round_trip() {
    for f in [Format::Text, Format::Json, Format::JsonPretty, Format::Yaml] {
        assert_eq!(Format::parse(f.label()), Some(f));
    }
    assert_eq!(Format::JsonPretty.label(), "json-pretty");
    assert_eq!(Format::parse("toml"), None);
    assert_eq!(Format::default(), Format::Text);
}

#[test]
fn unicode_labels_round_trip() {
    for u in [Unicode::Required, Unicode::Enforced] {
        assert_eq!(Unicode::parse(u.label()), Some(u));
    }
    assert_eq!(Unicode::parse("strict"), None);
    assert_eq!(Unicode::default(), Unicode::Required);
}

#[test]
fn platform_default_is_this_build() {
    assert_eq!(Platform::default(), Platform::Linux);
    assert_eq!(Status::default(), Status::Unknown);
}
