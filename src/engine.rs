//! The calls into the regex crate and into std's UTF-8 decoding, each with
//! the contract that the called function's documentation gives it.
use vstd::prelude::*;
use vstd::utf8::{decode_utf8, valid_utf8};

verus! {

#[verifier::external_type_specification]
#[verifier::external_body]
pub struct ExRegex(regex::bytes::Regex);

/// The message with which `regex::bytes::Regex::new` rejects pattern `p`,
/// or `None` where it accepts `p`.
pub uninterp spec fn regex_compile_error(p: Seq<char>) -> Option<Seq<char>>;

/// The span of each capture group in the leftmost-first match of pattern
/// `p` in `s` (`None` for a group that did not take part), or `None` where
/// `p` matches nowhere in `s`.
pub uninterp spec fn leftmost_captures(p: Seq<char>, s: Seq<u8>) -> Option<
    Seq<Option<(usize, usize)>>,
>;

/// The text that `String::from_utf8_lossy` makes of `b`.
pub uninterp spec fn utf8_lossy(b: Seq<u8>) -> Seq<char>;

/// A regex together with the pattern text that it was compiled from.
pub(crate) struct CompiledPattern {
    regex: regex::bytes::Regex,
    source: Ghost<Seq<char>>,
}

impl View for CompiledPattern {
    type V = Seq<char>;

    closed spec fn view(&self) -> Seq<char> {
        self.source@
    }
}

/// Relies on `regex::bytes::Regex::new`: it accepts or rejects a pattern
/// by its text alone, and a rejection carries the error's display text.
#[verifier::external_body]
fn compile_regex(p: &str) -> (r: Result<regex::bytes::Regex, String>)
    ensures
        r is Ok <==> regex_compile_error(p@) is None,
        r matches Err(m) ==> regex_compile_error(p@) == Some(m@),
{
    match regex::bytes::Regex::new(p) {
        Ok(re) => Ok(re),
        Err(e) => Err(e.to_string()),
    }
}

impl CompiledPattern {
    /// Compiles `p`; on failure, the regex engine's message.
    pub(crate) fn compile(p: &str) -> (r: Result<CompiledPattern, String>)
        ensures
            r is Ok <==> regex_compile_error(p@) is None,
            r matches Ok(c) ==> c@ == p@,
            r matches Err(m) ==> regex_compile_error(p@) == Some(m@),
    {
        match compile_regex(p) {
            Ok(regex) => Ok(CompiledPattern { regex, source: Ghost(p@) }),
            Err(m) => Err(m),
        }
    }
}

/// Relies on `regex::bytes::Regex::captures`, with `Captures::iter` and
/// `Match::start` / `Match::end`: the leftmost-first match, whose group 0
/// always takes part, and spans with `start <= end` inside the haystack.
/// The regex of a `CompiledPattern` was built from its view.
#[verifier::external_body]
pub(crate) fn captures(pattern: &CompiledPattern, subject: &[u8]) -> (r: Option<
    Vec<Option<(usize, usize)>>,
>)
    ensures
        leftmost_captures(pattern@, subject@) == (match r {
            Some(v) => Some(v@),
            None => None::<Seq<Option<(usize, usize)>>>,
        }),
        r matches Some(v) ==> v@.len() >= 1 && v@[0] is Some,
        r matches Some(v) ==> forall|i: int|
            0 <= i < v@.len() && #[trigger] v@[i] is Some ==> v@[i]->Some_0.0 <= v@[i]->Some_0.1
                <= subject@.len(),
{
    match pattern.regex.captures(subject) {
        None => None,
        Some(caps) => {
            let mut spans = Vec::with_capacity(caps.len());
            for m in caps.iter() {
                spans.push(
                    match m {
                        Some(m) => Some((m.start(), m.end())),
                        None => None,
                    },
                );
            }
            Some(spans)
        },
    }
}

/// Relies on `std::str::from_utf8`: it succeeds exactly on valid UTF-8,
/// and the text then holds the characters that the bytes encode.
#[verifier::external_body]
pub(crate) fn utf8_text(b: &[u8]) -> (r: Option<&str>)
    ensures
        r is Some <==> valid_utf8(b@),
        r matches Some(s) ==> s@ == decode_utf8(b@),
{
    std::str::from_utf8(b).ok()
}

/// Relies on `String::from_utf8_lossy`: it depends on the bytes alone, and
/// on valid UTF-8 it replaces nothing.
#[verifier::external_body]
pub(crate) fn decode_lossy(b: &[u8]) -> (r: String)
    ensures
        r@ == utf8_lossy(b@),
        valid_utf8(b@) ==> r@ == decode_utf8(b@),
{
    String::from_utf8_lossy(b).into_owned()
}

} // verus!
