use crate::template::Groups;
use vstd::prelude::*;

verus! {

#[verifier::external_type_specification]
#[verifier::external_body]
pub struct ExBytesRegex(regex::bytes::Regex);

#[verifier::external_type_specification]
#[verifier::external_body]
pub struct ExRegexError(regex::Error);

/// The capture groups of the leftmost-first match of `pattern`, compiled with
/// Unicode mode `unicode`, in `text`; `None` where it does not match. A group
/// whose bytes are not UTF-8 reads as absent.
pub uninterp spec fn regex_captures(pattern: Seq<char>, unicode: bool, text: Seq<char>) -> Option<
    Seq<Option<Seq<char>>>,
>;

/// Whether the regex engine accepts `pattern` in Unicode mode `unicode`
/// with a compiled size of at most `size_limit` bytes.
pub uninterp spec fn regex_compiles(pattern: Seq<char>, unicode: bool, size_limit: usize) -> bool;

/// A compiled regular expression together with the source and Unicode mode
/// it was compiled from. Only `compile` builds one, so the two always agree.
#[derive(Debug)]
pub struct CompiledPattern {
    regex: regex::bytes::Regex,
    source: String,
    unicode: bool,
}

impl CompiledPattern {
    /// The pattern source that was compiled.
    pub closed spec fn source(&self) -> Seq<char> {
        self.source@
    }

    /// Whether Unicode mode was on.
    pub closed spec fn unicode(&self) -> bool {
        self.unicode
    }

    /// Relies on `regex::bytes::RegexBuilder` (`new`, `unicode`, `size_limit`,
    /// `build`): compiles `source`, or returns the engine's error for a
    /// pattern it rejects or that exceeds `size_limit`.
    #[verifier::external_body]
    pub(crate) fn compile(source: &str, unicode: bool, size_limit: usize) -> (r: Result<
        CompiledPattern,
        regex::Error,
    >)
        ensures
            r is Ok <==> regex_compiles(source@, unicode, size_limit),
            r matches Ok(p) ==> p.source() == source@ && p.unicode() == unicode,
    {
        let regex = regex::bytes::RegexBuilder::new(source)
            .unicode(unicode)
            .size_limit(size_limit)
            .build()?;
        Ok(CompiledPattern { regex, source: source.to_string(), unicode })
    }

    /// Relies on `regex::bytes::Regex::captures` and `Captures::iter`: the
    /// groups of the first match in `text`, each decoded as UTF-8.
    #[verifier::external_body]
    pub(crate) fn captures(&self, text: &str) -> (r: Option<Groups>)
        ensures
            r.deep_view() == regex_captures(self.source(), self.unicode(), text@),
    {
        self.regex.captures(text.as_bytes()).map(
            |caps|
                caps.iter().map(
                    |m| m.and_then(|m| std::str::from_utf8(m.as_bytes()).ok()).map(String::from),
                ).collect()
        )
    }

    /// The pattern source that was compiled.
    pub fn as_str(&self) -> (r: &str)
        ensures
            r@ == self.source(),
    {
        self.source.as_str()
    }
}

} // verus!
