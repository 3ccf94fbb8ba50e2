//! User-facing standard media directories.

use vstd::prelude::*;

use crate::Error;
use crate::host::{user_audio_dir, user_desktop_dir, user_document_dir, user_download_dir,
    user_dirs_new, user_font_dir, user_home_dir, user_picture_dir, user_public_dir,
    user_template_dir, user_video_dir, utf8_from_path_buf};
use crate::text::str_eq;

verus! {

/// An OS-standard, user-facing media folder.
#[derive(Clone, Copy, Debug, PartialEq, Eq, Hash, Structural)]
pub enum User {
    Audio,
    Desktop,
    Document,
    Download,
    Font,
    Home,
    Picture,
    Public,
    Template,
    Video,
}

impl User {
    /// The stable lowercase-kebab label of a user directory kind.
    pub open spec fn spec_label(self) -> Seq<char> {
        match self {
            User::Audio => "audio"@,
            User::Desktop => "desktop"@,
            User::Document => "document"@,
            User::Download => "download"@,
            User::Font => "font"@,
            User::Home => "home"@,
            User::Picture => "picture"@,
            User::Public => "public"@,
            User::Template => "template"@,
            User::Video => "video"@,
        }
    }

    /// Serializes a user directory kind to its stable label.
    pub fn label(&self) -> (r: &'static str)
        ensures
            r@ == self.spec_label(),
    {
        match self {
            User::Audio => "audio",
            User::Desktop => "desktop",
            User::Document => "document",
            User::Download => "download",
            User::Font => "font",
            User::Home => "home",
            User::Picture => "picture",
            User::Public => "public",
            User::Template => "template",
            User::Video => "video",
        }
    }

    /// The user directory kind a label denotes, if any.
    pub open spec fn spec_parse(s: Seq<char>) -> Option<User> {
        if s == "audio"@ {
            Some(User::Audio)
        } else if s == "desktop"@ {
            Some(User::Desktop)
        } else if s == "document"@ {
            Some(User::Document)
        } else if s == "download"@ {
            Some(User::Download)
        } else if s == "font"@ {
            Some(User::Font)
        } else if s == "home"@ {
            Some(User::Home)
        } else if s == "picture"@ {
            Some(User::Picture)
        } else if s == "public"@ {
            Some(User::Public)
        } else if s == "template"@ {
            Some(User::Template)
        } else if s == "video"@ {
            Some(User::Video)
        } else {
            None
        }
    }

    /// Parses a stable label back into a user directory kind.
    pub fn parse(s: &str) -> (r: Option<User>)
        ensures
            r == Self::spec_parse(s@),
    {
        if str_eq(s, "audio") {
            Some(User::Audio)
        } else if str_eq(s, "desktop") {
            Some(User::Desktop)
        } else if str_eq(s, "document") {
            Some(User::Document)
        } else if str_eq(s, "download") {
            Some(User::Download)
        } else if str_eq(s, "font") {
            Some(User::Font)
        } else if str_eq(s, "home") {
            Some(User::Home)
        } else if str_eq(s, "picture") {
            Some(User::Picture)
        } else if str_eq(s, "public") {
            Some(User::Public)
        } else if str_eq(s, "template") {
            Some(User::Template)
        } else if str_eq(s, "video") {
            Some(User::Video)
        } else {
            None
        }
    }

    /// All user directory kinds, in declaration order.
    pub open spec fn spec_all() -> Seq<User> {
        seq![
            User::Audio,
            User::Desktop,
            User::Document,
            User::Download,
            User::Font,
            User::Home,
            User::Picture,
            User::Public,
            User::Template,
            User::Video,
        ]
    }

    /// Enumerates all user directory kinds, in declaration order.
    pub fn all() -> (r: Vec<User>)
        ensures
            r@ == User::spec_all(),
    {
        let mut v: Vec<User> = Vec::new();
        v.push(User::Audio);
        v.push(User::Desktop);
        v.push(User::Document);
        v.push(User::Download);
        v.push(User::Font);
        v.push(User::Home);
        v.push(User::Picture);
        v.push(User::Public);
        v.push(User::Template);
        v.push(User::Video);
        proof {
            assert(v@ =~= User::spec_all());
        }
        v
    }

    /// Parsing the label of any user directory kind gives that kind back.
    pub proof fn lemma_label_round_trip(u: User)
        ensures
            User::spec_parse(u.spec_label()) == Some(u),
    {
        reveal_strlit("audio");
        reveal_strlit("desktop");
        reveal_strlit("document");
        reveal_strlit("download");
        reveal_strlit("font");
        reveal_strlit("home");
        reveal_strlit("picture");
        reveal_strlit("public");
        reveal_strlit("template");
        reveal_strlit("video");
        assert("audio"@.len() == 5);
        assert("desktop"@.len() == 7);
        assert("document"@.len() == 8);
        assert("download"@.len() == 8);
        assert("font"@.len() == 4);
        assert("home"@.len() == 4);
        assert("picture"@.len() == 7);
        assert("public"@.len() == 6);
        assert("template"@.len() == 8);
        assert("video"@.len() == 5);
        match u {
            User::Audio => {},
            User::Desktop => {},
            User::Document => {},
            User::Download => {
                assert("download"@ == "document"@ ==> "download"@[2] == "document"@[2]);
            },
            User::Font => {},
            User::Home => {
                assert("home"@ == "font"@ ==> "home"@[0] == "font"@[0]);
            },
            User::Picture => {
                assert("picture"@ == "desktop"@ ==> "picture"@[0] == "desktop"@[0]);
            },
            User::Public => {},
            User::Template => {
                assert("template"@ == "document"@ ==> "template"@[0] == "document"@[0]);
                assert("template"@ == "download"@ ==> "template"@[0] == "download"@[0]);
            },
            User::Video => {
                assert("video"@ == "audio"@ ==> "video"@[0] == "audio"@[0]);
            },
        }
    }

    /// The host's user-directory table, or the home-directory failure.
    pub fn dirs() -> (r: Result<directories::UserDirs, Error>)
        ensures
            r is Err ==> r->Err_0 == Error::InvalidHomeDirectory,
    {
        match user_dirs_new() {
            Some(d) => Ok(d),
            None => Err(Error::InvalidHomeDirectory),
        }
    }

    /// Resolves this kind to the host's real path.  It fails only because
    /// the host has no home directory, or because the host defines no such
    /// media folder; the home directory itself never meets the latter.
    pub fn path_buf(&self) -> (r: Result<std::path::PathBuf, Error>)
        ensures
            r is Err ==> r->Err_0 == Error::InvalidHomeDirectory || r->Err_0
                == Error::NotDefinedByPlatformStandard,
            *self == User::Home ==> r != Err::<std::path::PathBuf, Error>(
                Error::NotDefinedByPlatformStandard,
            ),
    {
        let dirs = match Self::dirs() {
            Ok(d) => d,
            Err(e) => {
                return Err(e);
            },
        };
        let found: Option<std::path::PathBuf> = match self {
            User::Audio => user_audio_dir(&dirs),
            User::Desktop => user_desktop_dir(&dirs),
            User::Document => user_document_dir(&dirs),
            User::Download => user_download_dir(&dirs),
            User::Font => user_font_dir(&dirs),
            User::Home => Some(user_home_dir(&dirs)),
            User::Picture => user_picture_dir(&dirs),
            User::Public => user_public_dir(&dirs),
            User::Template => user_template_dir(&dirs),
            User::Video => user_video_dir(&dirs),
        };
        match found {
            Some(p) => Ok(p),
            None => Err(Error::NotDefinedByPlatformStandard),
        }
    }

    /// Resolution plus strict Unicode validation of the resolved path.
    pub fn utf8_path_buf(&self) -> (r: Result<camino::Utf8PathBuf, Error>)
        ensures
            r is Err ==> r->Err_0 == Error::InvalidHomeDirectory || r->Err_0
                == Error::NotDefinedByPlatformStandard || r->Err_0 == Error::InvalidUnicode,
            *self == User::Home ==> r != Err::<camino::Utf8PathBuf, Error>(
                Error::NotDefinedByPlatformStandard,
            ),
    {
        match self.path_buf() {
            Ok(p) => match utf8_from_path_buf(p) {
                Ok(u) => Ok(u),
                Err(_) => Err(Error::InvalidUnicode),
            },
            Err(e) => Err(e),
        }
    }
}

} // verus!
