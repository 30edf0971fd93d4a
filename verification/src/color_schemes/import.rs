//! Importing a theme file picked by the user: from the picked address to the
//! file to read and the name the scheme gets.

use std::path::Path;
use std::str::FromStr;

use vstd::prelude::*;

use super::models::{ColorScheme, Source};

verus! {

/// The scheme of a URL as the `url` crate parses it; `None` when the text is
/// not a URL.
pub uninterp spec fn url_scheme(text: Seq<char>) -> Option<Seq<char>>;

/// The local path a URL names, as `url::Url::to_file_path` gives it: `None`
/// when it names none, `Some(None)` when the path is not valid text.
pub uninterp spec fn url_file_path(text: Seq<char>) -> Option<Option<Seq<char>>>;

/// The last component of a path, as `std::path::Path::file_name` gives it
/// (when it is valid text).
pub uninterp spec fn path_file_name(path: Seq<char>) -> Option<Seq<char>>;

/// The stem of a file name as `std::path::Path::file_stem` documents it: the
/// whole name when it holds no `.` after its first character, else the part
/// before its last `.`.
pub open spec fn stem_of_name(n: Seq<char>) -> Seq<char> {
    if exists|i: int| 1 <= i < n.len() && n[i] == '.' {
        let i = choose|i: int|
            1 <= i < n.len() && n[i] == '.' && forall|j: int| i < j < n.len() ==> n[j] != '.';
        n.take(i)
    } else {
        n
    }
}

/// The stem of a path: that of its file name, none without a file name.
pub open spec fn path_stem(path: Seq<char>) -> Option<Seq<char>> {
    match path_file_name(path) {
        Some(n) => Some(stem_of_name(n)),
        None => None,
    }
}

/// The value of a parsed local path.
pub open spec fn opt_path_text(p: Option<Option<String>>) -> Option<Option<Seq<char>>> {
    match p {
        Some(Some(s)) => Some(Some(s@)),
        Some(None) => Some(None),
        None => None,
    }
}

/// Calls `url::Url::from_str` and, on success, reads the URL's `scheme` and
/// its `to_file_path`, with the path's text when it is valid text. The
/// contract names both as functions of the text.
#[verifier::external_body]
fn file_url_parts(text: &str) -> (r: Option<(String, Option<Option<String>>)>)
    ensures
        match r {
            Some((s, p)) => url_scheme(text@) == Some(s@) && opt_path_text(p) == url_file_path(text@),
            None => url_scheme(text@) is None,
        },
{
    url::Url::from_str(text).ok().map(|u| {
        (u.scheme().to_string(), u.to_file_path().ok().map(|p| p.to_str().map(String::from)))
    })
}

/// Calls `std::path::Path::file_stem`, keeping the stem when it is valid
/// text. The contract states the stem as the documentation defines it from
/// the file name.
#[verifier::external_body]
fn file_stem_of(path: &str) -> (r: Option<String>)
    ensures
        crate::strings::opt_text(r) == path_stem(path@),
{
    Path::new(path).file_stem().and_then(|s| s.to_str()).map(String::from)
}

/// Calls `std::path::Path::file_name`, keeping the name when it is valid
/// text. The contract names the name as a function of the path.
#[verifier::external_body]
fn file_name_of(path: &str) -> (r: Option<String>)
    ensures
        crate::strings::opt_text(r) == path_file_name(path@),
{
    Path::new(path).file_name().and_then(|s| s.to_str()).map(String::from)
}

/// Why a picked file cannot be imported.
#[derive(Clone, Copy, Debug, PartialEq, Eq, Structural)]
pub enum ImportError {
    /// Nothing was picked.
    NoUri,
    /// The picked address is not a URL.
    InvalidUrl,
    /// The picked address is not a `file` URL.
    NotAFile,
    /// The URL names no local path.
    NoFilePath,
}

/// The file to import: where it is, the name the scheme gets (the file's
/// name without extension), and the file name its copy gets.
#[derive(Debug)]
pub struct ImportTarget {
    pub path: String,
    pub name: String,
    pub file_name: String,
}

/// The value of an import target.
pub open spec fn target_view(r: Result<ImportTarget, ImportError>) -> Result<(Seq<char>, Seq<char>, Seq<char>), ImportError> {
    match r {
        Ok(t) => Ok((t.path@, t.name@, t.file_name@)),
        Err(e) => Err(e),
    }
}

/// A `file` URL whose local path cannot be imported: the path is not valid
/// text, or it ends in no file name. Importing such a picked file stops the
/// program (it unwraps the missing stem or name).
pub open spec fn import_unusable(text: Seq<char>) -> bool {
    &&& url_scheme(text) == Some("file"@)
    &&& match url_file_path(text) {
        Some(Some(p)) => path_file_name(p) is None,
        Some(None) => true,
        None => false,
    }
}

/// What importing the picked address `text` gives: the target (the path, the
/// stem of its file name and the file name), or why it cannot be imported.
pub open spec fn import_target_spec(text: Seq<char>) -> Result<(Seq<char>, Seq<char>, Seq<char>), ImportError> {
    match url_scheme(text) {
        None => Err(ImportError::InvalidUrl),
        Some(scheme) => if scheme != "file"@ {
            Err(ImportError::NotAFile)
        } else {
            match url_file_path(text) {
                Some(Some(p)) => Ok((p, stem_of_name(path_file_name(p)->0), path_file_name(p)->0)),
                _ => Err(ImportError::NoFilePath),
            }
        },
    }
}

/// The file to import from the addresses the user picked: the first one must
/// be a `file` URL of a local path. A usable `file` URL is required: on one
/// whose path is not text or ends in no file name the import stops.
pub fn import_target(uris: &Vec<String>) -> (r: Result<ImportTarget, ImportError>)
    requires
        uris@.len() > 0 ==> !import_unusable(uris@[0]@),
    ensures
        target_view(r) == if uris@.len() == 0 {
            Err(ImportError::NoUri)
        } else {
            import_target_spec(uris@[0]@)
        },
{
    if uris.len() == 0 {
        return Err(ImportError::NoUri);
    }
    let (scheme, path) = match file_url_parts(uris[0].as_str()) {
        None => return Err(ImportError::InvalidUrl),
        Some(x) => x,
    };
    if !crate::strings::same_text(scheme.as_str(), "file") {
        return Err(ImportError::NotAFile);
    }
    let path = match path {
        Some(Some(p)) => p,
        _ => return Err(ImportError::NoFilePath),
    };
    let name = file_stem_of(path.as_str());
    let file_name = file_name_of(path.as_str());
    match (name, file_name) {
        (Some(name), Some(file_name)) => Ok(ImportTarget { path, name, file_name }),
        _ => Err(ImportError::NoFilePath),
    }
}

/// `import_target` where the picked address can be imported; `None` where it
/// is a `file` URL whose path is not text or ends in no file name, on which
/// the import stops.
pub fn checked_import_target(uris: &Vec<String>) -> (r: Option<Result<ImportTarget, ImportError>>)
    ensures
        r is None <==> (uris@.len() > 0 && import_unusable(uris@[0]@)),
        r matches Some(t) ==> target_view(t) == if uris@.len() == 0 {
            Err(ImportError::NoUri)
        } else {
            import_target_spec(uris@[0]@)
        },
{
    if uris.len() > 0 {
        if let Some((scheme, path)) = file_url_parts(uris[0].as_str()) {
            if crate::strings::same_text(scheme.as_str(), "file") {
                match path {
                    Some(Some(p)) => {
                        if file_name_of(p.as_str()).is_none() {
                            return None;
                        }
                    },
                    Some(None) => return None,
                    None => {},
                }
            }
        }
    }
    Some(import_target(uris))
}

/// The scheme an imported file gives: named after the file, with the file's
/// contents as its theme, its copy at `copy_path`, marked as imported.
pub fn imported_scheme(target: &ImportTarget, content: String, copy_path: String) -> (c: ColorScheme)
    ensures
        c.name@ == target.name@,
        c.theme@ == content@,
        c.source == Some(Source::ImportedFromPath),
        c.path == Some(copy_path),
        c.author is None,
        c.link is None,
        c.downloads is None,
        c.created is None,
        c.updated is None,
{
    let mut c = ColorScheme::new(target.name.clone(), content);
    c.source = Some(Source::ImportedFromPath);
    c.path = Some(copy_path);
    c
}

/// A theme file found in one of the desktop's theme directories, as an
/// installed scheme: named after the file without its extension, with the
/// file's contents as its theme and the file as its path, marked as coming
/// from the system; `None` when the path ends in no file name.
pub fn system_scheme(path: String, content: String) -> (r: Option<ColorScheme>)
    ensures
        match r {
            Some(c) => path_stem(path@) == Some(c.name@) && c.theme@ == content@
                && c.source == Some(Source::System) && c.path == Some(path) && c.author is None
                && c.link is None && c.downloads is None && c.created is None && c.updated is None,
            None => path_stem(path@) is None,
        },
{
    match file_stem_of(path.as_str()) {
        Some(name) => {
            let mut c = ColorScheme::new(name, content);
            c.source = Some(Source::System);
            c.path = Some(path);
            Some(c)
        },
        None => None,
    }
}

} // verus!
