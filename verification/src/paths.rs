//! File-system locations. The user's directories depend on the machine and
//! are carried through; what is built from them with `Path::join` is named.

use vstd::prelude::*;
use std::path::PathBuf;

verus! {

/// What `Path::join` gives for a base path and one more part.
pub uninterp spec fn joined(base: PathBuf, part: Seq<char>) -> PathBuf;

/// Whether a text is one plain path component: not empty, and made of
/// lower-case ASCII letters, digits, `-` and `_` only. Such a part is never
/// absolute, never a separator and never `.` or `..`.
pub open spec fn is_plain_component(s: Seq<char>) -> bool {
    &&& s.len() > 0
    &&& forall|i: int|
        0 <= i < s.len() ==> {
            let c = #[trigger] s[i];
            ('a' <= c && c <= 'z') || ('0' <= c && c <= '9') || c == '-' || c == '_'
        }
}

/// What `PathBuf::from` gives for a text.
pub uninterp spec fn path_of_text(s: Seq<char>) -> PathBuf;

/// What `Path::to_string_lossy` gives for a path.
pub uninterp spec fn text_of_path(p: PathBuf) -> Seq<char>;

/// Trusted: `PathBuf::from` on a text. Its result is named `path_of_text`;
/// it depends on the text alone.
#[verifier::external_body]
pub(crate) fn path_from(s: &str) -> (r: PathBuf)
    ensures
        r == path_of_text(s@),
{
    PathBuf::from(s)
}

/// Trusted: `Path::to_string_lossy`, as an owned string. Its result is
/// named `text_of_path`; it depends on the path alone.
#[verifier::external_body]
pub(crate) fn path_text(p: &PathBuf) -> (r: String)
    ensures
        r@ == text_of_path(*p),
{
    p.to_string_lossy().to_string()
}

/// Trusted: `dirs::config_dir`, the user's configuration directory where
/// the platform has one. What it returns is not stated.
#[verifier::external_body]
pub(crate) fn config_dir() -> Option<PathBuf> {
    dirs::config_dir()
}

/// Trusted: `dirs::data_dir`, the user's data directory where the platform
/// has one. What it returns is not stated.
#[verifier::external_body]
pub(crate) fn data_dir() -> Option<PathBuf> {
    dirs::data_dir()
}

/// Trusted: `Path::join`. Its result is named `joined`; it depends on the
/// base and the part alone. As `PathBuf::push` documents, a relative part
/// is appended after a separator, so two different plain components give
/// two different paths under the same base.
#[verifier::external_body]
pub(crate) fn join_path(base: &PathBuf, name: &str) -> (r: PathBuf)
    ensures
        r == joined(*base, name@),
        is_plain_component(name@) ==> forall|other: Seq<char>|
            is_plain_component(other) && other != name@ ==> #[trigger] joined(*base, other) != r,
{
    base.join(name)
}

} // verus!
