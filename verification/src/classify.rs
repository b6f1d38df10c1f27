//! File classification.
//!
//! A file is accepted only when its name carries one of the literal
//! suffixes `.png`, `.jpg`, `.jpeg` (case-sensitive) and its sniffed
//! content type agrees with the type the extension implies. Content
//! sniffing itself is I/O and lives outside the library: the caller
//! sniffs against [`expected_mime`] and hands the verdict to
//! [`classify`].

use vstd::prelude::*;

use crate::errors::SkipReason;

verus! {

/// The kind of image a file claims to be.
#[derive(Clone, Copy, Debug, PartialEq, Eq, Structural)]
pub enum FileKind {
    Png,
    Jpeg,
}

/// True when `s` ends in the four characters `.png`.
pub open spec fn has_png_suffix(s: Seq<char>) -> bool {
    &&& s.len() >= 4
    &&& s[s.len() - 4] == '.'
    &&& s[s.len() - 3] == 'p'
    &&& s[s.len() - 2] == 'n'
    &&& s[s.len() - 1] == 'g'
}

/// True when `s` ends in the four characters `.jpg`.
pub open spec fn has_jpg_suffix(s: Seq<char>) -> bool {
    &&& s.len() >= 4
    &&& s[s.len() - 4] == '.'
    &&& s[s.len() - 3] == 'j'
    &&& s[s.len() - 2] == 'p'
    &&& s[s.len() - 1] == 'g'
}

/// True when `s` ends in the five characters `.jpeg`.
pub open spec fn has_jpeg_suffix(s: Seq<char>) -> bool {
    &&& s.len() >= 5
    &&& s[s.len() - 5] == '.'
    &&& s[s.len() - 4] == 'j'
    &&& s[s.len() - 3] == 'p'
    &&& s[s.len() - 2] == 'e'
    &&& s[s.len() - 1] == 'g'
}

/// The kind a file name's extension implies, if any.
pub open spec fn ext_kind(s: Seq<char>) -> Option<FileKind> {
    if has_png_suffix(s) {
        Some(FileKind::Png)
    } else if has_jpg_suffix(s) || has_jpeg_suffix(s) {
        Some(FileKind::Jpeg)
    } else {
        None
    }
}

/// A file path together with the kind both its extension and its content
/// agree on.
#[derive(Debug)]
pub struct ClassifiedFile {
    pub path: String,
    pub kind: FileKind,
}

impl ClassifiedFile {
    /// The recorded kind is the one the path's extension implies.
    pub open spec fn wf(&self) -> bool {
        ext_kind(self.path@) == Some(self.kind)
    }
}

/// Decides which kind, if any, the extension of `name` implies.
pub fn classify_extension(name: &str) -> (r: Result<FileKind, SkipReason>)
    ensures
        r matches Ok(k) ==> ext_kind(name@) == Some(k),
        r matches Err(e) ==> ext_kind(name@) is None && e == SkipReason::UnsupportedExtension,
        r is Ok <==> ext_kind(name@) is Some,
{
    let n = name.unicode_len();
    if n >= 4 && name.get_char(n - 4) == '.' && name.get_char(n - 3) == 'p' && name.get_char(n - 2)
        == 'n' && name.get_char(n - 1) == 'g' {
        Ok(FileKind::Png)
    } else if n >= 4 && name.get_char(n - 4) == '.' && name.get_char(n - 3) == 'j' && name.get_char(
        n - 2,
    ) == 'p' && name.get_char(n - 1) == 'g' {
        Ok(FileKind::Jpeg)
    } else if n >= 5 && name.get_char(n - 5) == '.' && name.get_char(n - 4) == 'j' && name.get_char(
        n - 3,
    ) == 'p' && name.get_char(n - 2) == 'e' && name.get_char(n - 1) == 'g' {
        Ok(FileKind::Jpeg)
    } else {
        Err(SkipReason::UnsupportedExtension)
    }
}

/// The MIME type a file of the given kind must sniff as.
pub fn expected_mime(kind: FileKind) -> (r: &'static str)
    ensures
        kind == FileKind::Png ==> r@ == "image/png"@,
        kind == FileKind::Jpeg ==> r@ == "image/jpeg"@,
{
    match kind {
        FileKind::Png => "image/png",
        FileKind::Jpeg => "image/jpeg",
    }
}

/// Classifies a file from its (canonical) name and the verdict of the
/// content sniff against the extension-implied MIME type.
///
/// A mismatch between extension and content is a skip condition, never a
/// fatal error: the caller drops this one file and continues.
pub fn classify(name: &str, content_matches: bool) -> (r: Result<ClassifiedFile, SkipReason>)
    ensures
        r is Ok <==> (ext_kind(name@) is Some && content_matches),
        r matches Ok(c) ==> c.path@ == name@ && Some(c.kind) == ext_kind(name@) && c.wf(),
        ext_kind(name@) is None ==> r == Err::<ClassifiedFile, SkipReason>(
            SkipReason::UnsupportedExtension,
        ),
        ext_kind(name@) is Some && !content_matches ==> r == Err::<ClassifiedFile, SkipReason>(
            SkipReason::TypeMismatch,
        ),
{
    match classify_extension(name) {
        Ok(kind) => {
            if content_matches {
                Ok(ClassifiedFile { path: name.to_owned(), kind })
            } else {
                Err(SkipReason::TypeMismatch)
            }
        },
        Err(e) => Err(e),
    }
}

} // verus!
