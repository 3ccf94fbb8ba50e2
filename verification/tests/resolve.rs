//! Host resolution: the home directory, project identities, and the
//! request handler over labels.

use platform_path::command::serve::handle;
use platform_path::platform::path::PlatformPath;
use platform_path::platform::status::Status;
use platform_path::platform::Platform;
use platform_path::{Base, Error, Project, ProjectOptions, User};

fn identity(application: &str) -> ProjectOptions {
    ProjectOptions {
        qualifier: Some("org".to_string()),
        organization: Some("acme".to_string()),
        application: application.to_string(),
    }
}

#[test]
fn base_home_resolves_on_a_host_with_a_home() {
    let resolved = Base::Home.path_buf();
    assert!(resolved.is_ok());
    assert_ne!(resolved, Err(Error::NotDefinedByPlatformStandard));
}

#[test]
fn base_cache_resolves() {
    assert!(Base::Cache.path_buf().is_ok());
    assert!(Base::Cache.utf8_path_buf().is_ok());
}

#[test]
fn user_home_resolves() {
    let resolved = User::Home.path_buf();
    assert!(resolved.is_ok());
}

#[test]
fn empty_application_name_is_rejected() {
    let options = identity("");
    assert_eq!(Project::Cache.path_buf(&options), Err(Error::InvalidHomeDirectory));
    assert_eq!(Project::dirs(&options).err(), Some(Error::InvalidHomeDirectory));
    assert!(Project::Cache.utf8_path_buf(&options).is_err());
}

#[test]
fn project_cache_resolves_for_a_real_identity() {
    let options = identity("platform-path-probe");
    let resolved = Project::Cache.path_buf(&options);
    assert!(resolved.is_ok());
    let text = Project::Cache.utf8_path_buf(&options).unwrap().into_string();
    assert!(text.contains("platform-path-probe"));
}

#[test]
fn project_path_fragment_resolves() {
    let options = identity("platform-path-probe");
    assert!(Project::PathFragment.path_buf(&options).is_ok());
}

#[test]
fn handle_resolves_known_labels() {
    let options = identity("platform-path-probe");
    assert!(handle("base", "home", &options).is_ok());
    assert!(handle("user", "home", &options).is_ok());
    assert!(handle("project", "cache", &options).is_ok());
}

#[test]
fn handle_rejects_unknown_labels() {
    let options = identity("platform-path-probe");
    assert_eq!(handle("bogus", "home", &options), Err(Error::UnknownDirectoryKind));
    assert_eq!(handle("base", "bogus", &options), Err(Error::UnknownDirectoryKind));
    assert_eq!(handle("user", "cache", &options), Err(Error::UnknownDirectoryKind));
    assert_eq!(handle("project", "desktop", &options), Err(Error::UnknownDirectoryKind));
}

#[test]
fn absent_identity_parts_default_to_empty() {
    let options = ProjectOptions {
        qualifier: None,
        organization: None,
        application: "app".to_string(),
    };
    assert_eq!(options.identity_strings(), ("", "", "app"));
    let full = identity("app");
    assert_eq!(full.identity_strings(), ("org", "acme", "app"));
}

#[test]
fn matrix_lookup_matches_linux_home_support() {
    assert_eq!(PlatformPath::Base(Base::Home).status(&Platform::Linux), Status::Supported);
}
