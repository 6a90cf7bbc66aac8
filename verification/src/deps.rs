//! The dependency scanner: what the toolchain is asked in order to list the
//! headers of one source, and how its answer is read.

use crate::error::{Error, ErrorView};
use crate::text::{chars_of, opt_text, split_whitespace, texts, tokens};
use vstd::prelude::*;
use vstd::string::{StrSliceExecFns, StringExecFns};
use vstd::utf8::{decode_utf8, valid_utf8};

verus! {

/// The text that `bytes` spell, if they are UTF-8.
pub open spec fn utf8_text(bytes: Seq<u8>) -> Option<Seq<char>> {
    if valid_utf8(bytes) {
        Some(decode_utf8(bytes))
    } else {
        None
    }
}

/// Reads `bytes` as UTF-8.
///
/// Trusted: calls `String::from_utf8`, which accepts exactly the byte
/// sequences that are UTF-8 and then holds the text that they spell.
#[verifier::external_body]
pub(crate) fn decode(bytes: Vec<u8>) -> (r: Option<String>)
    ensures
        opt_text(r) == utf8_text(bytes@),
{
    match String::from_utf8(bytes) {
        Ok(text) => Some(text),
        Err(_) => None,
    }
}

/// The bytes that count as ASCII whitespace: space, tab, line feed, form
/// feed and carriage return.
pub open spec fn is_ascii_space(b: u8) -> bool {
    b == 0x20 || b == 0x09 || b == 0x0A || b == 0x0C || b == 0x0D
}

/// `bytes` without the ASCII whitespace at its end.
pub open spec fn trimmed_end(bytes: Seq<u8>) -> Seq<u8>
    decreases bytes.len(),
{
    if bytes.len() > 0 && is_ascii_space(bytes.last()) {
        trimmed_end(bytes.drop_last())
    } else {
        bytes
    }
}

/// Removes the ASCII whitespace at the end of `bytes`.
pub fn trim_ascii_end(bytes: &Vec<u8>) -> (r: Vec<u8>)
    ensures
        r@ == trimmed_end(bytes@),
{
    let mut end: usize = bytes.len();
    assert(bytes@.take(end as int) == bytes@);
    while end > 0 && (bytes[end - 1] == 0x20 || bytes[end - 1] == 0x09 || bytes[end - 1] == 0x0A
        || bytes[end - 1] == 0x0C || bytes[end - 1] == 0x0D)
        invariant
            end <= bytes.len(),
            trimmed_end(bytes@) == trimmed_end(bytes@.take(end as int)),
        decreases end,
    {
        assert(bytes@.take(end as int).drop_last() == bytes@.take(end - 1));
        end -= 1;
    }
    let mut out: Vec<u8> = Vec::new();
    let mut i: usize = 0;
    while i < end
        invariant
            i <= end <= bytes.len(),
            out@ == bytes@.take(i as int),
        decreases end - i,
    {
        out.push(bytes[i]);
        i += 1;
    }
    out
}

/// The arguments of a dependency listing: the flags of the header
/// directories, each as an argument of its own, the source, and the switch
/// that asks for the listing without compiling.
pub open spec fn scan_args(flags: Seq<Seq<char>>, source: Seq<char>) -> Seq<Seq<char>> {
    flags + seq![source, seq!['-', 'M', 'M']]
}

/// Puts together the arguments of a dependency listing for `source`, with
/// the header directory flags of its compile.
pub fn scan_arguments(flags: Vec<String>, source: &str) -> (r: Vec<String>)
    ensures
        texts(r@) == scan_args(texts(flags@), source@),
{
    proof {
        reveal_strlit("-MM");
    }
    assert("-MM"@ == seq!['-', 'M', 'M']);
    let mut args = flags;
    args.push(String::from_str(source));
    args.push(String::from_str("-MM"));
    assert(texts(args@) == scan_args(texts(flags@), source@));
    args
}

/// Whether the first colon of `text` stands at `i`.
pub open spec fn is_first_colon(text: Seq<char>, i: int) -> bool {
    &&& 0 <= i < text.len()
    &&& text[i] == ':'
    &&& forall|j: int| 0 <= j < i ==> text[j] != ':'
}

/// Whether `text` holds a colon.
pub open spec fn has_colon(text: Seq<char>) -> bool {
    exists|i: int| is_first_colon(text, i)
}

/// What follows the first colon of `text`.
pub open spec fn after_first_colon(text: Seq<char>) -> Seq<char> {
    text.skip((choose|i: int| is_first_colon(text, i)) + 1)
}

/// The headers that a dependency listing names. An empty listing names
/// none. Otherwise the listing is a target, a colon and words separated by
/// whitespace, of which the first repeats the source and the others are the
/// headers; a listing without a colon is refused.
pub open spec fn header_deps(text: Seq<char>) -> Result<Seq<Seq<char>>, ErrorView> {
    if text.len() == 0 {
        Ok(Seq::empty())
    } else if !has_colon(text) {
        Err(ErrorView::UnparseableDependencies(text))
    } else {
        let words = tokens(after_first_colon(text));
        if words.len() == 0 {
            Ok(words)
        } else {
            Ok(words.drop_first())
        }
    }
}

/// The mathematical form of a list of paths, or of the failure in its
/// place.
pub open spec fn paths_view(r: Result<Vec<String>, Error>) -> Result<Seq<Seq<char>>, ErrorView> {
    match r {
        Ok(paths) => Ok(texts(paths@)),
        Err(e) => Err(e@),
    }
}

/// The position of the first colon of `chars`, if there is one.
pub fn find_colon(chars: &Vec<char>) -> (r: Option<usize>)
    ensures
        r is Some <==> has_colon(chars@),
        r matches Some(i) ==> is_first_colon(chars@, i as int),
{
    let mut i: usize = 0;
    while i < chars.len()
        invariant
            i <= chars.len(),
            forall|j: int| 0 <= j < i ==> chars@[j] != ':',
        decreases chars.len() - i,
    {
        if chars[i] == ':' {
            assert(is_first_colon(chars@, i as int));
            return Some(i);
        }
        i += 1;
    }
    None
}

/// Reads a dependency listing and hands out the headers that it names.
pub fn get_header_deps(dep_str: String) -> (r: Result<Vec<String>, Error>)
    ensures
        paths_view(r) == header_deps(dep_str@),
{
    let chars = chars_of(dep_str.as_str());
    if chars.len() == 0 {
        let none: Vec<String> = Vec::new();
        assert(texts(none@) == Seq::<Seq<char>>::empty());
        return Ok(none);
    }
    match find_colon(&chars) {
        None => Err(Error::UnparseableDependencies(dep_str)),
        Some(colon) => {
            let rest = dep_str.as_str().substring_char(colon + 1, chars.len());
            assert(rest@ == after_first_colon(dep_str@));
            let mut words = split_whitespace(rest);
            if words.len() > 0 {
                let ghost all = texts(words@);
                words.remove(0);
                assert(texts(words@) == all.drop_first());
            }
            Ok(words)
        },
    }
}

/// What one run of the toolchain left behind.
#[derive(Debug)]
pub struct ProcessOutput {
    /// Whether the exit status reports success.
    pub success: bool,
    /// The bytes written to standard output.
    pub stdout: Vec<u8>,
    /// The bytes written to standard error.
    pub stderr: Vec<u8>,
}

/// The mathematical form of a [`ProcessOutput`].
pub struct ProcessOutputView {
    pub success: bool,
    pub stdout: Seq<u8>,
    pub stderr: Seq<u8>,
}

impl View for ProcessOutput {
    type V = ProcessOutputView;

    open spec fn view(&self) -> ProcessOutputView {
        ProcessOutputView { success: self.success, stdout: self.stdout@, stderr: self.stderr@ }
    }
}

/// The headers that a finished dependency listing yields. After a failure
/// status the scan fails with what was written to standard error. After
/// success, standard output without the ASCII whitespace at its end is read
/// as a listing. Bytes that are not UTF-8 are refused.
pub open spec fn scan_outcome(out: ProcessOutputView) -> Result<Seq<Seq<char>>, ErrorView> {
    if out.success {
        match utf8_text(trimmed_end(out.stdout)) {
            None => Err(ErrorView::InvalidUtf8),
            Some(listing) => header_deps(listing),
        }
    } else {
        match utf8_text(out.stderr) {
            None => Err(ErrorView::InvalidUtf8),
            Some(complaint) => Err(ErrorView::DependencyScanFailure(complaint)),
        }
    }
}

/// Reads what a dependency listing left behind and hands out the headers of
/// the source.
pub fn read_scan(out: ProcessOutput) -> (r: Result<Vec<String>, Error>)
    ensures
        paths_view(r) == scan_outcome(out@),
{
    if out.success {
        let trimmed = trim_ascii_end(&out.stdout);
        match decode(trimmed) {
            None => Err(Error::InvalidUtf8),
            Some(listing) => get_header_deps(listing),
        }
    } else {
        match decode(out.stderr) {
            None => Err(Error::InvalidUtf8),
            Some(complaint) => Err(Error::DependencyScanFailure(complaint)),
        }
    }
}

} // verus!
