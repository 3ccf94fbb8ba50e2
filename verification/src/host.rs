//! Trusted boundary to the host: the `directories` crate, which discovers
//! the host's standard directories, `camino` for UTF-8 validated paths, and
//! std's platform-native path conversions.  Every answer here depends on
//! the host environment, so the wrappers promise nothing of the values;
//! the verified resolvers state what holds whatever came back.

use vstd::prelude::*;

verus! {

#[verifier::external_type_specification]
#[verifier::external_body]
pub struct ExPathBuf(std::path::PathBuf);

#[verifier::external_type_specification]
#[verifier::external_body]
pub struct ExBaseDirs(directories::BaseDirs);

#[verifier::external_type_specification]
#[verifier::external_body]
pub struct ExUserDirs(directories::UserDirs);

#[verifier::external_type_specification]
#[verifier::external_body]
pub struct ExProjectDirs(directories::ProjectDirs);

#[verifier::external_type_specification]
#[verifier::external_body]
pub struct ExUtf8PathBuf(camino::Utf8PathBuf);

#[verifier::external_type_specification]
#[verifier::external_body]
pub struct ExFromPathBufError(camino::FromPathBufError);

/// Relies on directories::BaseDirs::new: None exactly when the host has no
/// discoverable home directory.
#[verifier::external_body]
pub(crate) fn base_dirs_new() -> Option<directories::BaseDirs> {
    directories::BaseDirs::new()
}

/// Relies on directories::UserDirs::new: None exactly when the host has no
/// discoverable home directory.
#[verifier::external_body]
pub(crate) fn user_dirs_new() -> Option<directories::UserDirs> {
    directories::UserDirs::new()
}

/// Relies on directories::ProjectDirs::from: None exactly when the host has
/// no discoverable home directory.
#[verifier::external_body]
pub(crate) fn project_dirs_from(
    qualifier: &str,
    organization: &str,
    application: &str,
) -> Option<directories::ProjectDirs> {
    directories::ProjectDirs::from(qualifier, organization, application)
}

/// Relies on directories::BaseDirs::home_dir.
#[verifier::external_body]
pub(crate) fn base_home_dir(d: &directories::BaseDirs) -> std::path::PathBuf {
    d.home_dir().to_path_buf()
}

/// Relies on directories::BaseDirs::cache_dir.
#[verifier::external_body]
pub(crate) fn base_cache_dir(d: &directories::BaseDirs) -> std::path::PathBuf {
    d.cache_dir().to_path_buf()
}

/// Relies on directories::BaseDirs::config_dir.
#[verifier::external_body]
pub(crate) fn base_config_dir(d: &directories::BaseDirs) -> std::path::PathBuf {
    d.config_dir().to_path_buf()
}

/// Relies on directories::BaseDirs::data_dir.
#[verifier::external_body]
pub(crate) fn base_data_dir(d: &directories::BaseDirs) -> std::path::PathBuf {
    d.data_dir().to_path_buf()
}

/// Relies on directories::BaseDirs::data_local_dir.
#[verifier::external_body]
pub(crate) fn base_data_local_dir(d: &directories::BaseDirs) -> std::path::PathBuf {
    d.data_local_dir().to_path_buf()
}

/// Relies on directories::BaseDirs::executable_dir: defined on Linux only.
#[verifier::external_body]
pub(crate) fn base_executable_dir(d: &directories::BaseDirs) -> Option<std::path::PathBuf> {
    match d.executable_dir() {
        Some(p) => Some(p.to_path_buf()),
        None => None,
    }
}

/// Relies on directories::BaseDirs::preference_dir.
#[verifier::external_body]
pub(crate) fn base_preference_dir(d: &directories::BaseDirs) -> std::path::PathBuf {
    d.preference_dir().to_path_buf()
}

/// Relies on directories::BaseDirs::runtime_dir: defined on Linux only, and
/// there only when the session provides a runtime directory.
#[verifier::external_body]
pub(crate) fn base_runtime_dir(d: &directories::BaseDirs) -> Option<std::path::PathBuf> {
    match d.runtime_dir() {
        Some(p) => Some(p.to_path_buf()),
        None => None,
    }
}

/// Relies on directories::BaseDirs::state_dir: defined on Linux only.
#[verifier::external_body]
pub(crate) fn base_state_dir(d: &directories::BaseDirs) -> Option<std::path::PathBuf> {
    match d.state_dir() {
        Some(p) => Some(p.to_path_buf()),
        None => None,
    }
}

/// Relies on directories::UserDirs::home_dir.
#[verifier::external_body]
pub(crate) fn user_home_dir(d: &directories::UserDirs) -> std::path::PathBuf {
    d.home_dir().to_path_buf()
}

/// Relies on directories::UserDirs::audio_dir.
#[verifier::external_body]
pub(crate) fn user_audio_dir(d: &directories::UserDirs) -> Option<std::path::PathBuf> {
    match d.audio_dir() {
        Some(p) => Some(p.to_path_buf()),
        None => None,
    }
}

/// Relies on directories::UserDirs::desktop_dir.
#[verifier::external_body]
pub(crate) fn user_desktop_dir(d: &directories::UserDirs) -> Option<std::path::PathBuf> {
    match d.desktop_dir() {
        Some(p) => Some(p.to_path_buf()),
        None => None,
    }
}

/// Relies on directories::UserDirs::document_dir.
#[verifier::external_body]
pub(crate) fn user_document_dir(d: &directories::UserDirs) -> Option<std::path::PathBuf> {
    match d.document_dir() {
        Some(p) => Some(p.to_path_buf()),
        None => None,
    }
}

/// Relies on directories::UserDirs::download_dir.
#[verifier::external_body]
pub(crate) fn user_download_dir(d: &directories::UserDirs) -> Option<std::path::PathBuf> {
    match d.download_dir() {
        Some(p) => Some(p.to_path_buf()),
        None => None,
    }
}

/// Relies on directories::UserDirs::font_dir.
#[verifier::external_body]
pub(crate) fn user_font_dir(d: &directories::UserDirs) -> Option<std::path::PathBuf> {
    match d.font_dir() {
        Some(p) => Some(p.to_path_buf()),
        None => None,
    }
}

/// Relies on directories::UserDirs::picture_dir.
#[verifier::external_body]
pub(crate) fn user_picture_dir(d: &directories::UserDirs) -> Option<std::path::PathBuf> {
    match d.picture_dir() {
        Some(p) => Some(p.to_path_buf()),
        None => None,
    }
}

/// Relies on directories::UserDirs::public_dir.
#[verifier::external_body]
pub(crate) fn user_public_dir(d: &directories::UserDirs) -> Option<std::path::PathBuf> {
    match d.public_dir() {
        Some(p) => Some(p.to_path_buf()),
        None => None,
    }
}

/// Relies on directories::UserDirs::template_dir.
#[verifier::external_body]
pub(crate) fn user_template_dir(d: &directories::UserDirs) -> Option<std::path::PathBuf> {
    match d.template_dir() {
        Some(p) => Some(p.to_path_buf()),
        None => None,
    }
}

/// Relies on directories::UserDirs::video_dir.
#[verifier::external_body]
pub(crate) fn user_video_dir(d: &directories::UserDirs) -> Option<std::path::PathBuf> {
    match d.video_dir() {
        Some(p) => Some(p.to_path_buf()),
        None => None,
    }
}

/// Relies on directories::ProjectDirs::project_path.
#[verifier::external_body]
pub(crate) fn project_path_fragment(d: &directories::ProjectDirs) -> std::path::PathBuf {
    d.project_path().to_path_buf()
}

/// Relies on directories::ProjectDirs::cache_dir.
#[verifier::external_body]
pub(crate) fn project_cache_dir(d: &directories::ProjectDirs) -> std::path::PathBuf {
    d.cache_dir().to_path_buf()
}

/// Relies on directories::ProjectDirs::config_dir.
#[verifier::external_body]
pub(crate) fn project_config_dir(d: &directories::ProjectDirs) -> std::path::PathBuf {
    d.config_dir().to_path_buf()
}

/// Relies on directories::ProjectDirs::data_dir.
#[verifier::external_body]
pub(crate) fn project_data_dir(d: &directories::ProjectDirs) -> std::path::PathBuf {
    d.data_dir().to_path_buf()
}

/// Relies on directories::ProjectDirs::data_local_dir.
#[verifier::external_body]
pub(crate) fn project_data_local_dir(d: &directories::ProjectDirs) -> std::path::PathBuf {
    d.data_local_dir().to_path_buf()
}

/// Relies on directories::ProjectDirs::preference_dir.
#[verifier::external_body]
pub(crate) fn project_preference_dir(d: &directories::ProjectDirs) -> std::path::PathBuf {
    d.preference_dir().to_path_buf()
}

/// Relies on directories::ProjectDirs::runtime_dir: defined on Linux only,
/// and there only when the session provides a runtime directory.
#[verifier::external_body]
pub(crate) fn project_runtime_dir(d: &directories::ProjectDirs) -> Option<std::path::PathBuf> {
    match d.runtime_dir() {
        Some(p) => Some(p.to_path_buf()),
        None => None,
    }
}

/// Relies on directories::ProjectDirs::state_dir: defined on Linux only.
#[verifier::external_body]
pub(crate) fn project_state_dir(d: &directories::ProjectDirs) -> Option<std::path::PathBuf> {
    match d.state_dir() {
        Some(p) => Some(p.to_path_buf()),
        None => None,
    }
}

/// Relies on camino's TryFrom<PathBuf> for Utf8PathBuf: Ok exactly when the
/// path is valid UTF-8 text.
#[verifier::external_body]
pub(crate) fn utf8_from_path_buf(p: std::path::PathBuf) -> Result<
    camino::Utf8PathBuf,
    camino::FromPathBufError,
> {
    camino::Utf8PathBuf::try_from(p)
}

/// Relies on camino::Utf8PathBuf::into_string.
#[verifier::external_body]
pub(crate) fn utf8_into_string(p: camino::Utf8PathBuf) -> String {
    p.into_string()
}

/// Relies on std's Path::to_str: Some exactly when the native path is valid
/// Unicode text.
#[verifier::external_body]
pub(crate) fn path_to_str(p: &std::path::PathBuf) -> Option<String> {
    match p.to_str() {
        Some(s) => Some(s.to_string()),
        None => None,
    }
}

/// Relies on std's Path::to_string_lossy: invalid sequences are replaced
/// with the Unicode replacement character.
#[verifier::external_body]
pub(crate) fn path_to_string_lossy(p: &std::path::PathBuf) -> String {
    p.to_string_lossy().to_string()
}

} // verus!
