use crate::text::{chars_of, has_group, push_char, trim, trimmed};
use vstd::prelude::*;

verus! {

/// The text of each capture group of one match, by index: index 0 is the
/// whole match, and a group that took no part in the match is `None`.
pub type Groups = Vec<Option<String>>;

/// Whether `c` is the digit of a placeholder: `$1` to `$9`.
pub open spec fn is_group_digit(c: char) -> bool {
    '1' <= c && c <= '9'
}

/// The group index that the digit `c` stands for.
pub open spec fn digit_value(c: char) -> int {
    c as int - '0' as int
}

/// The text of group `i`, or the empty string where the group is absent or
/// the match has no such group.
pub open spec fn group_text(groups: Seq<Option<Seq<char>>>, i: int) -> Seq<char> {
    if 0 <= i < groups.len() && groups[i] is Some {
        groups[i]->0
    } else {
        Seq::empty()
    }
}

/// `t` with each placeholder `$d` (`d` from 1 to 9) replaced by the text of
/// group `d`, in one pass from the left; inserted text is not scanned again.
pub open spec fn substituted(t: Seq<char>, groups: Seq<Option<Seq<char>>>) -> Seq<char>
    decreases t.len(),
{
    if t.len() == 0 {
        t
    } else if t.len() >= 2 && t[0] == '$' && is_group_digit(t[1]) {
        group_text(groups, digit_value(t[1])) + substituted(t.skip(2), groups)
    } else {
        seq![t[0]] + substituted(t.skip(1), groups)
    }
}

/// What a template gives for a match: the substituted text, trimmed.
pub open spec fn expanded(t: Seq<char>, groups: Seq<Option<Seq<char>>>) -> Seq<char> {
    trimmed(substituted(t, groups))
}

/// Whether `t` holds a placeholder.
pub open spec fn has_placeholder(t: Seq<char>) -> bool {
    exists|i: int| 0 <= i < t.len() - 1 && t[i] == '$' && #[trigger] is_group_digit(t[i + 1])
}

/// A template without a placeholder is left as it is by substitution.
pub proof fn lemma_substituted_literal(t: Seq<char>, groups: Seq<Option<Seq<char>>>)
    requires
        !has_placeholder(t),
    ensures
        substituted(t, groups) == t,
    decreases t.len(),
{
    if t.len() > 0 {
        if t.len() >= 2 && t[0] == '$' && is_group_digit(t[1]) {
            assert(is_group_digit(t[0int + 1]));
        } else {
            let rest = t.skip(1);
            assert forall|i: int| 0 <= i < rest.len() - 1 && rest[i] == '$' implies !#[trigger] is_group_digit(
                rest[i + 1],
            ) by {
                assert(t[i + 1] == '$');
                assert(!is_group_digit(t[(i + 1) + 1]));
            }
            lemma_substituted_literal(rest, groups);
            assert(seq![t[0]] + rest =~= t);
        }
    }
}

/// Expanding a template that holds no placeholder gives the template,
/// trimmed, whatever the groups of the match.
pub proof fn template_without_placeholder_is_literal(
    t: Seq<char>,
    groups: Seq<Option<Seq<char>>>,
)
    requires
        !has_placeholder(t),
    ensures
        expanded(t, groups) == trimmed(t),
{
    lemma_substituted_literal(t, groups);
}

/// A replacement template of a rule, with whether it holds a `$` computed
/// once, so that a literal template skips substitution.
#[derive(Debug)]
pub struct Template {
    text: String,
    has_group: bool,
}

impl View for Template {
    type V = Seq<char>;

    closed spec fn view(&self) -> Seq<char> {
        self.text@
    }
}

impl Template {
    #[verifier::type_invariant]
    closed spec fn inv(&self) -> bool {
        self.has_group == self.text@.contains('$')
    }

    /// The template whose text is `text`.
    pub fn new(text: String) -> (r: Template)
        ensures
            r@ == text@,
    {
        let has_group = has_group(text.as_str());
        Template { text, has_group }
    }

    /// The template's text, as the rule gave it.
    pub fn as_str(&self) -> (r: &str)
        ensures
            r@ == self@,
    {
        self.text.as_str()
    }

    /// Expands the template for a match whose groups are `groups`.
    pub fn expand(&self, groups: &Groups) -> (r: String)
        ensures
            r@ == expanded(self@, groups.deep_view()),
    {
        proof {
            use_type_invariant(self);
        }
        if !self.has_group {
            proof {
                lemma_substituted_literal(self@, groups.deep_view());
            }
            return trim(self.text.as_str());
        }
        let cs = chars_of(self.text.as_str());
        let n = cs.len();
        let ghost g = groups.deep_view();
        let mut out = String::new();
        let mut i: usize = 0;
        assert(cs@.skip(0) =~= cs@);
        assert(out@ + cs@ =~= cs@);
        while i < n
            invariant
                cs@ == self@,
                n == cs.len(),
                0 <= i <= n,
                g == groups.deep_view(),
                out@ + substituted(cs@.skip(i as int), g) == substituted(self@, g),
            decreases n - i,
        {
            let ghost rest = cs@.skip(i as int);
            if i + 1 < n && cs[i] == '$' && '1' <= cs[i + 1] && cs[i + 1] <= '9' {
                let k = (cs[i + 1] as u32 - '0' as u32) as usize;
                assert(k == digit_value(rest[1]));
                if k < groups.len() {
                    match &groups[k] {
                        Some(text) => {
                            assert(g[k as int] == Some(text@));
                            out.append(text.as_str());
                        },
                        None => {},
                    }
                }
                assert(rest.skip(2) =~= cs@.skip(i + 2));
                i = i + 2;
            } else {
                assert(rest.skip(1) =~= cs@.skip(i + 1));
                push_char(&mut out, cs[i]);
                i = i + 1;
            }
            assert(out@ + substituted(cs@.skip(i as int), g) =~= substituted(self@, g));
        }
        assert(cs@.skip(n as int) =~= Seq::<char>::empty());
        assert(out@ + Seq::<char>::empty() =~= out@);
        trim(out.as_str())
    }
}

} // verus!
