use crate::file::UserAgentParserEntry;
use crate::parser::{
    classify_user_agent, family_field, family_from, field_from, lemma_first_hit_skip,
    optional_field, template_of, viewed,
};
use crate::pattern::{regex_captures, regex_compiles, CompiledPattern};
use crate::template::{Groups, Template};
use crate::text::{clean_escapes, unescaped};
use crate::user_agent::{default_user_agent, UserAgent, UserAgentModel};
use vstd::prelude::*;

verus! {

/// The largest compiled size, in bytes, allowed to a user-agent pattern.
pub const SIZE_LIMIT: usize = 20971520;

/// Why an user-agent rule could not be compiled: the regex engine rejected
/// `pattern`, the rule's normalized pattern, with `error`.
#[derive(Debug)]
pub enum RuleError {
    Regex { pattern: String, error: regex::Error },
}

/// The pattern that `e` reports.
pub open spec fn rejected_pattern(e: RuleError) -> Seq<char> {
    match e {
        RuleError::Regex { pattern, .. } => pattern@,
    }
}

/// A compiled user-agent rule.
#[derive(Debug)]
pub struct Matcher {
    regex: CompiledPattern,
    family_replacement: Option<Template>,
    v1_replacement: Option<Template>,
    v2_replacement: Option<Template>,
    v3_replacement: Option<Template>,
}

/// The model of a compiled user-agent rule: the normalized pattern, the
/// Unicode mode, and the templates of family and versions.
pub struct UserAgentRule {
    pub pattern: Seq<char>,
    pub unicode: bool,
    pub family: Option<Seq<char>>,
    pub v1: Option<Seq<char>>,
    pub v2: Option<Seq<char>>,
    pub v3: Option<Seq<char>>,
}

/// The rule that `entry` compiles to.
pub open spec fn user_agent_rule_of(entry: UserAgentParserEntry, unicode: bool) -> UserAgentRule {
    UserAgentRule {
        pattern: unescaped(entry.regex@),
        unicode,
        family: entry.family_replacement.deep_view(),
        v1: entry.v1_replacement.deep_view(),
        v2: entry.v2_replacement.deep_view(),
        v3: entry.v3_replacement.deep_view(),
    }
}

/// Whether the regex engine accepts the pattern of the rule that `entry`
/// compiles to.
pub open spec fn user_agent_rule_compiles(entry: UserAgentParserEntry, unicode: bool) -> bool {
    regex_compiles(user_agent_rule_of(entry, unicode).pattern, unicode, SIZE_LIMIT)
}

/// What `rule` derives from a match with groups `groups`: `None` where the
/// family comes out absent; versions from templates or groups 2 to 4.
pub open spec fn derive_user_agent(rule: UserAgentRule, groups: Seq<Option<Seq<char>>>) -> Option<
    UserAgentModel,
> {
    match family_field(rule.family, groups) {
        Some(family) => Some(
            UserAgentModel {
                family,
                major: optional_field(rule.v1, groups, 2),
                minor: optional_field(rule.v2, groups, 3),
                patch: optional_field(rule.v3, groups, 4),
            },
        ),
        None => None,
    }
}

/// What `rule` gives for `text`: `None` where its pattern does not match or
/// the match is not usable.
pub open spec fn user_agent_attempt(rule: UserAgentRule, text: Seq<char>) -> Option<UserAgentModel> {
    match regex_captures(rule.pattern, rule.unicode, text) {
        Some(groups) => derive_user_agent(rule, groups),
        None => None,
    }
}

impl View for Matcher {
    type V = UserAgentRule;

    closed spec fn view(&self) -> UserAgentRule {
        UserAgentRule {
            pattern: self.regex.source(),
            unicode: self.regex.unicode(),
            family: viewed(self.family_replacement),
            v1: viewed(self.v1_replacement),
            v2: viewed(self.v2_replacement),
            v3: viewed(self.v3_replacement),
        }
    }
}

impl Matcher {
    /// Compiles `entry`, its pattern normalized, with Unicode mode `unicode`.
    pub fn try_from(entry: UserAgentParserEntry, unicode: bool) -> (r: Result<Matcher, RuleError>)
        ensures
            r is Ok <==> user_agent_rule_compiles(entry, unicode),
            r matches Ok(m) ==> m@ == user_agent_rule_of(entry, unicode),
            r matches Err(e) ==> rejected_pattern(e) == user_agent_rule_of(entry, unicode).pattern,
    {
        let source = clean_escapes(entry.regex.as_str());
        let regex = match CompiledPattern::compile(source.as_str(), unicode, SIZE_LIMIT) {
            Ok(regex) => regex,
            Err(error) => {
                return Err(RuleError::Regex { pattern: source, error });
            },
        };
        Ok(
            Matcher {
                regex,
                family_replacement: template_of(entry.family_replacement),
                v1_replacement: template_of(entry.v1_replacement),
                v2_replacement: template_of(entry.v2_replacement),
                v3_replacement: template_of(entry.v3_replacement),
            },
        )
    }

    /// The user agent this rule derives from a match with groups `groups`.
    pub fn derive(&self, groups: &Groups) -> (r: Option<UserAgent>)
        ensures
            viewed(r) == derive_user_agent(self@, groups.deep_view()),
    {
        let family = match family_from(&self.family_replacement, groups) {
            Some(family) => family,
            None => {
                return None;
            },
        };
        Some(
            UserAgent {
                family,
                major: field_from(&self.v1_replacement, groups, 2),
                minor: field_from(&self.v2_replacement, groups, 3),
                patch: field_from(&self.v3_replacement, groups, 4),
            },
        )
    }

    /// The user agent this rule gives for `text`, if it matches.
    pub fn try_parse(&self, text: &str) -> (r: Option<UserAgent>)
        ensures
            viewed(r) == user_agent_attempt(self@, text@),
    {
        match self.regex.captures(text) {
            Some(groups) => self.derive(&groups),
            None => None,
        }
    }
}

/// Compiles the user-agent rules `entries`, in order; stops at the first that
/// does not compile, and reports its pattern.
pub fn compile_user_agents(entries: Vec<UserAgentParserEntry>, unicode: bool) -> (r: Result<
    Vec<Matcher>,
    RuleError,
>)
    ensures
        r matches Ok(ms) ==> ms@.map_values(|m: Matcher| m@) == entries@.map_values(
            |e: UserAgentParserEntry| user_agent_rule_of(e, unicode),
        ),
        r is Ok <==> forall|k: int|
            0 <= k < entries@.len() ==> user_agent_rule_compiles(#[trigger] entries@[k], unicode),
        r matches Err(e) ==> exists|k: int|
            0 <= k < entries@.len() && !user_agent_rule_compiles(#[trigger] entries@[k], unicode)
                && rejected_pattern(e) == user_agent_rule_of(entries@[k], unicode).pattern
                && forall|j: int| 0 <= j < k ==> user_agent_rule_compiles(#[trigger] entries@[j], unicode),
{
    let ghost all = entries@;
    let mut matchers: Vec<Matcher> = Vec::with_capacity(entries.len());
    for entry in it: entries
        invariant
            it.seq() == all,
            all == entries@,
            forall|j: int| 0 <= j < it.index() ==> user_agent_rule_compiles(#[trigger] all[j], unicode),
            matchers@.map_values(|m: Matcher| m@) == all.take(it.index() as int).map_values(
                |e: UserAgentParserEntry| user_agent_rule_of(e, unicode),
            ),
    {
        let ghost before = matchers@;
        let ghost idx = it.index() as int;
        assert(entry == all[idx]);
        let m = match Matcher::try_from(entry, unicode) {
            Ok(m) => m,
            Err(e) => {
                assert(!user_agent_rule_compiles(all[idx], unicode));
                return Err(e);
            },
        };
        matchers.push(m);
        proof {
            assert(all.take(idx + 1) =~= all.take(idx).push(entry));
            assert(matchers@ =~= before.push(m));
            assert(matchers@.map_values(|m: Matcher| m@) =~= before.map_values(
                |m: Matcher| m@,
            ).push(m@));
            assert(all.take(idx + 1).map_values(|e: UserAgentParserEntry| user_agent_rule_of(e, unicode))
                =~= all.take(idx).map_values(|e: UserAgentParserEntry| user_agent_rule_of(e, unicode)).push(
                user_agent_rule_of(entry, unicode),
            ));
        }
    }
    proof {
        assert(all.take(all.len() as int) =~= all);
    }
    Ok(matchers)
}

/// The user agent that `text` is classified as by `matchers`: the
/// result of the first that gives one, or the default.
pub fn first_user_agent(matchers: &Vec<Matcher>, text: &str) -> (r: UserAgent)
    ensures
        r@ == classify_user_agent(matchers@.map_values(|m: Matcher| m@), text@),
{
    let ghost outs = matchers@.map_values(|m: Matcher| m@).map_values(
        |r: UserAgentRule| user_agent_attempt(r, text@),
    );
    let n = matchers.len();
    let mut i: usize = 0;
    while i < n
        invariant
            n == matchers.len(),
            outs == matchers@.map_values(|m: Matcher| m@).map_values(
                |r: UserAgentRule| user_agent_attempt(r, text@),
            ),
            0 <= i <= n,
            forall|k: int| 0 <= k < i ==> outs[k] is None,
        decreases n - i,
    {
        assert(outs[i as int] == user_agent_attempt(
            matchers@[i as int]@,
            text@,
        ));
        match matchers[i].try_parse(text) {
            Some(u) => {
                proof {
                    lemma_first_hit_skip(outs, default_user_agent(), i as int);
                }
                return u;
            },
            None => {},
        }
        i = i + 1;
    }
    proof {
        lemma_first_hit_skip(outs, default_user_agent(), n as int);
    }
    UserAgent::default()
}

} // verus!
