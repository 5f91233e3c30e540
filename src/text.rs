use vstd::prelude::*;

verus! {

/// Whether `c` has the Unicode `White_Space` property, which is what
/// `char::is_whitespace` and `str::trim` go by.
pub open spec fn is_white_space(c: char) -> bool {
    ('\u{9}' <= c && c <= '\u{d}') || c == ' ' || c == '\u{85}' || c == '\u{a0}'
        || c == '\u{1680}' || ('\u{2000}' <= c && c <= '\u{200a}') || c == '\u{2028}'
        || c == '\u{2029}' || c == '\u{202f}' || c == '\u{205f}' || c == '\u{3000}'
}

/// `s` without its leading white space.
pub open spec fn trim_start(s: Seq<char>) -> Seq<char>
    decreases s.len(),
{
    if s.len() > 0 && is_white_space(s[0]) {
        trim_start(s.drop_first())
    } else {
        s
    }
}

/// `s` without its trailing white space.
pub open spec fn trim_end(s: Seq<char>) -> Seq<char>
    decreases s.len(),
{
    if s.len() > 0 && is_white_space(s.last()) {
        trim_end(s.drop_last())
    } else {
        s
    }
}

/// `s` without leading and trailing white space.
pub open spec fn trimmed(s: Seq<char>) -> Seq<char> {
    trim_end(trim_start(s))
}

/// The characters of `s`, in order.
pub fn chars_of(s: &str) -> (r: Vec<char>)
    ensures
        r@ == s@,
{
    let mut out: Vec<char> = Vec::new();
    for c in it: s.chars()
        invariant
            out@ == it.seq().take(it.index() as int),
    {
        out.push(c);
    }
    out
}


/// Whether `c` is white space.
pub fn is_white_space_char(c: char) -> (r: bool)
    ensures
        r == is_white_space(c),
{
    ('\u{9}' <= c && c <= '\u{d}') || c == ' ' || c == '\u{85}' || c == '\u{a0}'
        || c == '\u{1680}' || ('\u{2000}' <= c && c <= '\u{200a}') || c == '\u{2028}'
        || c == '\u{2029}' || c == '\u{202f}' || c == '\u{205f}' || c == '\u{3000}'
}

/// `s` without leading and trailing white space.
pub fn trim(s: &str) -> (r: String)
    ensures
        r@ == trimmed(s@),
{
    let cs = chars_of(s);
    let n = cs.len();
    let mut a: usize = 0;
    assert(cs@.skip(0) =~= cs@);
    while a < n && is_white_space_char(cs[a])
        invariant
            cs@ == s@,
            n == cs.len(),
            0 <= a <= n,
            trim_start(s@) == trim_start(cs@.skip(a as int)),
        decreases n - a,
    {
        assert(cs@.skip(a as int).drop_first() =~= cs@.skip(a + 1));
        a = a + 1;
    }
    let ghost t = cs@.skip(a as int);
    assert(trim_start(s@) == t);
    let mut b: usize = n;
    assert(t =~= cs@.subrange(a as int, n as int));
    while b > a && is_white_space_char(cs[b - 1])
        invariant
            cs@ == s@,
            n == cs.len(),
            0 <= a <= b <= n,
            t == cs@.subrange(a as int, n as int),
            trim_end(t) == trim_end(cs@.subrange(a as int, b as int)),
        decreases b,
    {
        assert(cs@.subrange(a as int, b as int).drop_last() =~= cs@.subrange(a as int, b - 1));
        b = b - 1;
    }
    let mut out = String::new();
    let mut i: usize = a;
    while i < b
        invariant
            cs@ == s@,
            n == cs.len(),
            0 <= a <= i <= b <= n,
            out@ == cs@.subrange(a as int, i as int),
        decreases b - i,
    {
        push_char(&mut out, cs[i]);
        assert(out@ =~= cs@.subrange(a as int, i + 1));
        i = i + 1;
    }
    out
}

/// Relies on `String::push`: appends `c` at the end of `s`.
#[verifier::external_body]
pub(crate) fn push_char(s: &mut String, c: char)
    ensures
        final(s)@ == old(s)@.push(c),
{
    s.push(c)
}

/// `None` for the empty string, else the string itself.
pub open spec fn nonempty(s: Seq<char>) -> Option<Seq<char>> {
    if s.len() == 0 {
        None
    } else {
        Some(s)
    }
}

/// Maps an empty derived value to "absent".
pub fn none_if_empty(s: String) -> (r: Option<String>)
    ensures
        r.deep_view() == nonempty(s@),
{
    if s.as_str().is_empty() {
        None
    } else {
        Some(s)
    }
}

/// Whether `replacement` holds a `$`, the mark that may start a placeholder.
pub fn has_group(replacement: &str) -> (r: bool)
    ensures
        r == replacement@.contains('$'),
{
    let cs = chars_of(replacement);
    let mut i: usize = 0;
    while i < cs.len()
        invariant
            cs@ == replacement@,
            0 <= i <= cs.len(),
            forall|k: int| 0 <= k < i ==> cs@[k] != '$',
        decreases cs.len() - i,
    {
        if cs[i] == '$' {
            return true;
        }
        i = i + 1;
    }
    false
}

/// Whether `c` is one of the characters that the rule file needlessly
/// escapes with a backslash.
pub open spec fn is_needless_escape(c: char) -> bool {
    c == '!' || c == ' ' || c == '/'
}

/// `s` with each of `\!`, `\ ` and `\/` replaced by the character after the
/// backslash, scanning from the left without overlaps.
pub open spec fn unescaped(s: Seq<char>) -> Seq<char>
    decreases s.len(),
{
    if s.len() == 0 {
        s
    } else if s.len() >= 2 && s[0] == '\\' && is_needless_escape(s[1]) {
        seq![s[1]] + unescaped(s.skip(2))
    } else {
        seq![s[0]] + unescaped(s.skip(1))
    }
}

/// Normalizes a rule pattern: drops the backslash of `\!`, `\ ` and `\/`,
/// escapes that the rule file carries and the regex engine refuses.
pub fn clean_escapes(pattern: &str) -> (r: String)
    ensures
        r@ == unescaped(pattern@),
{
    let cs = chars_of(pattern);
    let n = cs.len();
    let mut out = String::new();
    let mut i: usize = 0;
    assert(cs@.skip(0) =~= cs@);
    assert(out@ + cs@ =~= cs@);
    while i < n
        invariant
            cs@ == pattern@,
            n == cs.len(),
            0 <= i <= n,
            out@ + unescaped(cs@.skip(i as int)) == unescaped(pattern@),
        decreases n - i,
    {
        let ghost rest = cs@.skip(i as int);
        if i + 1 < n && cs[i] == '\\' && (cs[i + 1] == '!' || cs[i + 1] == ' ' || cs[i + 1] == '/') {
            assert(rest.skip(2) =~= cs@.skip(i + 2));
            push_char(&mut out, cs[i + 1]);
            i = i + 2;
        } else {
            assert(rest.skip(1) =~= cs@.skip(i + 1));
            push_char(&mut out, cs[i]);
            i = i + 1;
        }
        assert(out@ + unescaped(cs@.skip(i as int)) =~= unescaped(pattern@));
    }
    assert(cs@.skip(n as int) =~= Seq::<char>::empty());
    out
}

} // verus!
