//! Paths as text.
//!
//! The library holds every path as a `String`. Taking a path apart and
//! putting one together is left to `std::path`, under the rules of the
//! platform the crate is built for; each such operation is a function of
//! the text alone and has a name here, so that contracts can speak of its
//! result. The extension is told from the file name by a rule of its own.

use crate::text::{chars_of, opt_text};
use vstd::prelude::*;
use vstd::string::{StrSliceExecFns, StringExecFns};

verus! {

/// The final component of `path`, if it has one: what `Path::file_name`
/// answers.
pub uninterp spec fn file_name_of(path: Seq<char>) -> Option<Seq<char>>;

/// `path` with its final component replaced by `name`: what
/// `PathBuf::set_file_name` leaves behind.
pub uninterp spec fn file_name_set(path: Seq<char>, name: Seq<char>) -> Seq<char>;

/// `path` without its final component, if it has one: what `Path::parent`
/// answers.
pub uninterp spec fn parent_of(path: Seq<char>) -> Option<Seq<char>>;

/// `base` extended by `tail`: what `PathBuf::push` leaves behind.
pub uninterp spec fn pushed(base: Seq<char>, tail: Seq<char>) -> Seq<char>;

/// `path` without the leading `prefix`, if it starts with it: what
/// `Path::strip_prefix` answers.
pub uninterp spec fn prefix_stripped(path: Seq<char>, prefix: Seq<char>) -> Option<Seq<char>>;

/// Whether the last dot of `name` stands at `i`.
pub open spec fn is_last_dot(name: Seq<char>, i: int) -> bool {
    &&& 0 <= i < name.len()
    &&& name[i] == '.'
    &&& forall|j: int| i < j < name.len() ==> name[j] != '.'
}

/// The extension of a file called `name`: what follows its last dot.
/// There is none where the name has no dot, and none where its only dot
/// is its first character.
pub open spec fn extension_in(name: Seq<char>) -> Option<Seq<char>> {
    if exists|i: int| is_last_dot(name, i) {
        let dot = choose|i: int| is_last_dot(name, i);
        if dot == 0 {
            None
        } else {
            Some(name.skip(dot + 1))
        }
    } else {
        None
    }
}

/// The extension of the final component of `path`, if it has one.
pub open spec fn extension_of(path: Seq<char>) -> Option<Seq<char>> {
    match file_name_of(path) {
        None => None,
        Some(name) => extension_in(name),
    }
}

/// The final component of `path`.
///
/// Trusted: calls `Path::file_name` on the path that `path` spells and hands
/// the component back as text; the answer depends on the text alone.
#[verifier::external_body]
pub(crate) fn file_name(path: &str) -> (r: Option<String>)
    ensures
        opt_text(r) == file_name_of(path@),
{
    match std::path::Path::new(path).file_name() {
        Some(name) => Some(name.to_string_lossy().into_owned()),
        None => None,
    }
}

/// Replaces the final component of `path` by `name`.
///
/// Trusted: calls `PathBuf::set_file_name` on a buffer that holds `path` and
/// hands the buffer back as text; the answer depends on the two texts alone.
#[verifier::external_body]
pub(crate) fn set_file_name(path: &str, name: &str) -> (r: String)
    ensures
        r@ == file_name_set(path@, name@),
{
    let mut buf = std::path::PathBuf::from(path);
    buf.set_file_name(name);
    buf.to_string_lossy().into_owned()
}

/// The path without its final component.
///
/// Trusted: calls `Path::parent` on the path that `path` spells and hands
/// the answer back as text; it depends on the text alone.
#[verifier::external_body]
pub(crate) fn parent(path: &str) -> (r: Option<String>)
    ensures
        opt_text(r) == parent_of(path@),
{
    match std::path::Path::new(path).parent() {
        Some(dir) => Some(dir.to_string_lossy().into_owned()),
        None => None,
    }
}

/// Extends `base` by `tail`.
///
/// Trusted: calls `PathBuf::push` on a buffer that holds `base` and hands
/// the buffer back as text; the answer depends on the two texts alone.
#[verifier::external_body]
pub(crate) fn push(base: &str, tail: &str) -> (r: String)
    ensures
        r@ == pushed(base@, tail@),
{
    let mut buf = std::path::PathBuf::from(base);
    buf.push(tail);
    buf.to_string_lossy().into_owned()
}

/// Removes a leading `prefix` from `path`.
///
/// Trusted: calls `Path::strip_prefix`; `None` stands for its error, which
/// says that `path` does not start with `prefix`. The answer depends on the
/// two texts alone.
#[verifier::external_body]
pub(crate) fn strip_prefix(path: &str, prefix: &str) -> (r: Option<String>)
    ensures
        opt_text(r) == prefix_stripped(path@, prefix@),
{
    match std::path::Path::new(path).strip_prefix(prefix) {
        Ok(rest) => Some(rest.to_string_lossy().into_owned()),
        Err(_) => None,
    }
}

/// The extension of a file called `name`.
pub fn name_extension(name: &str) -> (r: Option<String>)
    ensures
        opt_text(r) == extension_in(name@),
{
    let chars = chars_of(name);
    let mut i: usize = chars.len();
    while i > 0
        invariant
            i <= chars.len(),
            chars@ == name@,
            forall|j: int| i <= j < chars.len() ==> chars@[j] != '.',
        decreases i,
    {
        i -= 1;
        if chars[i] == '.' {
            assert(is_last_dot(name@, i as int));
            assert forall|k: int| is_last_dot(name@, k) implies k == i by {}
            if i == 0 {
                return None;
            }
            let ext = name.substring_char(i + 1, chars.len());
            assert(ext@ == name@.skip(i + 1));
            return Some(String::from_str(ext));
        }
    }
    assert forall|k: int| !is_last_dot(name@, k) by {}
    None
}

/// The extension of the final component of `path`.
pub fn extension(path: &str) -> (r: Option<String>)
    ensures
        opt_text(r) == extension_of(path@),
{
    match file_name(path) {
        None => None,
        Some(name) => name_extension(name.as_str()),
    }
}

} // verus!
