//! Spot checks of the static support matrix.

use platform_path::platform::path::PlatformPath;
use platform_path::platform::status::Status;
use platform_path::platform::Platform;
use platform_path::{Base, Project, User};

#[test]
fn linux_defines_every_base_directory() {
    for b in Base::all() {
        assert_eq!(PlatformPath::Base(b).status(&Platform::Linux), Status::Supported);
    }
}

#[test]
fn macos_and_windows_lack_the_executable_runtime_state_trio() {
    for platform in [Platform::MacOS, Platform::Windows] {
        for b in [Base::Executable, Base::Runtime, Base::State] {
            assert_eq!(PlatformPath::Base(b).status(&platform), Status::Unsupported);
        }
        for b in [Base::Cache, Base::Config, Base::Data, Base::Home] {
            assert_eq!(PlatformPath::Base(b).status(&platform), Status::Supported);
        }
    }
}

#[test]
fn user_directory_exceptions() {
    assert_eq!(PlatformPath::User(User::Template).status(&Platform::MacOS), Status::Unsupported);
    assert_eq!(PlatformPath::User(User::Font).status(&Platform::Windows), Status::Unsupported);
    assert_eq!(PlatformPath::User(User::Template).status(&Platform::Windows), Status::Supported);
    assert_eq!(PlatformPath::User(User::Font).status(&Platform::MacOS), Status::Supported);
    for u in User::all() {
        assert_eq!(PlatformPath::User(u).status(&Platform::Linux), Status::Supported);
    }
}

#[test]
fn wasm_pairs_default_to_unknown() {
    for b in Base::all() {
        assert_eq!(PlatformPath::Base(b).status(&Platform::Wasm), Status::Unknown);
    }
    for u in User::all() {
        assert_eq!(PlatformPath::User(u).status(&Platform::Wasm), Status::Unknown);
    }
    for p in Project::all() {
        assert_eq!(PlatformPath::Project(p).status(&Platform::Wasm), Status::Unknown);
    }
}

#[test]
fn path_fragment_has_no_entry_anywhere() {
    for platform in Platform::all() {
        assert_eq!(
            PlatformPath::Project(Project::PathFragment).status(&platform),
            Status::Unknown
        );
    }
}

#[test]
fn project_runtime_and_state_are_linux_only() {
    for platform in [Platform::MacOS, Platform::Windows] {
        assert_eq!(
            PlatformPath::Project(Project::Runtime).status(&platform),
            Status::Unsupported
        );
        assert_eq!(PlatformPath::Project(Project::State).status(&platform), Status::Unsupported);
    }
    assert_eq!(PlatformPath::Project(Project::Runtime).status(&Platform::Linux), Status::Supported);
}

#[test]
fn lookup_is_deterministic() {
    for platform in Platform::all() {
        for b in Base::all() {
            let first = PlatformPath::Base(b).status(&platform);
            let again = PlatformPath::Base(b).status(&platform);
            assert_eq!(first, again);
        }
    }
}
