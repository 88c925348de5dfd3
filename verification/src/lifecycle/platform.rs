//! Path conventions of the platform the code runs on: which characters
//! separate path components and which paths are absolute, as the standard
//! library's `Path` judges them on Unix and on Windows.

use vstd::prelude::*;

use crate::foundation::core_types::path::is_ascii_alpha;
use crate::text::chars_of;

verus! {

/// The platform's main path separator.
///
/// Trusted: reads `std::path::MAIN_SEPARATOR`, documented as `\` on Windows
/// and `/` elsewhere. Which of the two holds depends on the build target, so
/// the contract states only that it is one of them.
#[verifier::external_body]
fn main_separator() -> (c: char)
    ensures
        c == '/' || c == '\\',
{
    std::path::MAIN_SEPARATOR
}

/// Whether paths follow Windows conventions on this platform.
pub(crate) fn windows_paths() -> (w: bool) {
    main_separator() == '\\'
}

/// Whether `c` separates path components: `/` everywhere, `\` on Windows too.
pub open spec fn is_separator_on(c: char, windows: bool) -> bool {
    c == '/' || (windows && c == '\\')
}

/// Whether a path is absolute. On Unix: it starts with `/`. On Windows: a
/// drive letter, `:` and a separator (`C:\x`, `C:/x`), or two leading
/// separators (a UNC, device or verbatim prefix, `\\server\share`); `\x`,
/// `/x` and `C:x` are relative there.
pub open spec fn spec_is_absolute_on(p: Seq<char>, windows: bool) -> bool {
    if windows {
        ||| (p.len() >= 3 && is_ascii_alpha(p[0]) && p[1] == ':' && is_separator_on(p[2], true))
        ||| (p.len() >= 2 && is_separator_on(p[0], true) && is_separator_on(p[1], true))
    } else {
        p.len() > 0 && p[0] == '/'
    }
}

/// Decides `spec_is_absolute_on`.
pub fn is_absolute_path_on(p: &str, windows: bool) -> (r: bool)
    ensures
        r == spec_is_absolute_on(p@, windows),
{
    let v = chars_of(p);
    if !windows {
        return v.len() > 0 && v[0] == '/';
    }
    if v.len() >= 3 {
        let d = v[0];
        let is_alpha = (d >= 'a' && d <= 'z') || (d >= 'A' && d <= 'Z');
        if is_alpha && v[1] == ':' && (v[2] == '/' || v[2] == '\\') {
            return true;
        }
    }
    v.len() >= 2 && (v[0] == '/' || v[0] == '\\') && (v[1] == '/' || v[1] == '\\')
}

} // verus!
