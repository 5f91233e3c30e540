use crate::client::{Client, ClientModel};
use crate::device::{default_device, Device, DeviceModel};
use crate::file::{DeviceParserEntry, OSParserEntry, RegexFile, UserAgentParserEntry};
use crate::os::{default_os, OSModel, OS};
use crate::template::{expanded, group_text, Groups, Template};
use crate::text::{nonempty, none_if_empty};
use crate::user_agent::{default_user_agent, UserAgent, UserAgentModel};
use self::device::{device_attempt, device_rule_compiles, device_rule_of, DeviceRule};
use self::os::{os_attempt, os_rule_compiles, os_rule_of, OSRule};
use self::user_agent::{user_agent_attempt, user_agent_rule_compiles, user_agent_rule_of, UserAgentRule};
use vstd::prelude::*;

pub mod builder;
pub mod device;
pub mod os;
pub mod user_agent;

verus! {

/// The model of an optional value.
pub open spec fn viewed<T: View>(o: Option<T>) -> Option<T::V> {
    match o {
        Some(x) => Some(x@),
        None => None,
    }
}

/// The first result among `outs`, in order, or `fallback` where there is none.
pub open spec fn first_hit<T>(outs: Seq<Option<T>>, fallback: T) -> T
    decreases outs.len(),
{
    if outs.len() == 0 {
        fallback
    } else if outs[0] is Some {
        outs[0]->0
    } else {
        first_hit(outs.drop_first(), fallback)
    }
}

/// Outcomes that all come to nothing may be skipped.
pub proof fn lemma_first_hit_skip<T>(outs: Seq<Option<T>>, fallback: T, i: int)
    requires
        0 <= i <= outs.len(),
        forall|k: int| 0 <= k < i ==> outs[k] is None,
    ensures
        first_hit(outs, fallback) == first_hit(outs.skip(i), fallback),
    decreases i,
{
    if i > 0 {
        let rest = outs.drop_first();
        assert forall|k: int| 0 <= k < i - 1 implies rest[k] is None by {
            assert(outs[k + 1] is None);
        }
        lemma_first_hit_skip(rest, fallback, i - 1);
        assert(rest.skip(i - 1) =~= outs.skip(i));
    } else {
        assert(outs.skip(0) =~= outs);
    }
}

/// What holds of every outcome and of the fallback holds of the first hit.
pub proof fn lemma_first_hit_within<T>(outs: Seq<Option<T>>, fallback: T, good: spec_fn(T) -> bool)
    requires
        good(fallback),
        forall|k: int| 0 <= k < outs.len() && (#[trigger] outs[k]) is Some ==> good(outs[k]->0),
    ensures
        good(first_hit(outs, fallback)),
    decreases outs.len(),
{
    if outs.len() > 0 && outs[0] is None {
        let rest = outs.drop_first();
        assert forall|k: int| 0 <= k < rest.len() && (#[trigger] rest[k]) is Some implies good(
            rest[k]->0,
        ) by {
            assert(rest[k] == outs[k + 1]);
        }
        lemma_first_hit_within(rest, fallback, good);
    }
}

/// The mandatory field of a rule: its expanded template, or else the text of
/// group 1, which must then be non-empty for the rule to give a result.
pub open spec fn family_field(template: Option<Seq<char>>, groups: Seq<Option<Seq<char>>>) -> Option<
    Seq<char>,
> {
    match template {
        Some(t) => Some(expanded(t, groups)),
        None => nonempty(group_text(groups, 1)),
    }
}

/// An optional field of a rule: its expanded template, or else the text of
/// group `index`; absent where that is empty.
pub open spec fn optional_field(
    template: Option<Seq<char>>,
    groups: Seq<Option<Seq<char>>>,
    index: int,
) -> Option<Seq<char>> {
    match template {
        Some(t) => nonempty(expanded(t, groups)),
        None => nonempty(group_text(groups, index)),
    }
}

/// An optional field with no fallback group: its expanded template, absent
/// where there is no template or it expands to the empty string.
pub open spec fn template_field(template: Option<Seq<char>>, groups: Seq<Option<Seq<char>>>) -> Option<
    Seq<char>,
> {
    match template {
        Some(t) => nonempty(expanded(t, groups)),
        None => None,
    }
}

/// The templates of a rule entry, ready to expand.
pub fn template_of(text: Option<String>) -> (r: Option<Template>)
    ensures
        viewed(r) == text.deep_view(),
{
    match text {
        Some(t) => Some(Template::new(t)),
        None => None,
    }
}

/// The text of group `index`, absent where it is empty or took no part.
pub fn group_of(groups: &Groups, index: usize) -> (r: Option<String>)
    ensures
        r.deep_view() == nonempty(group_text(groups.deep_view(), index as int)),
{
    if index < groups.len() {
        match &groups[index] {
            Some(text) => none_if_empty(text.clone()),
            None => None,
        }
    } else {
        None
    }
}

/// Derives the mandatory field of a rule from a match.
pub fn family_from(template: &Option<Template>, groups: &Groups) -> (r: Option<String>)
    ensures
        r.deep_view() == family_field(viewed(*template), groups.deep_view()),
{
    match template {
        Some(t) => Some(t.expand(groups)),
        None => group_of(groups, 1),
    }
}

/// Derives an optional field of a rule from a match, falling back on group
/// `index`.
pub fn field_from(template: &Option<Template>, groups: &Groups, index: usize) -> (r: Option<String>)
    ensures
        r.deep_view() == optional_field(viewed(*template), groups.deep_view(), index as int),
{
    match template {
        Some(t) => none_if_empty(t.expand(groups)),
        None => group_of(groups, index),
    }
}

/// Derives an optional field that only a template can give.
pub fn template_field_from(template: &Option<Template>, groups: &Groups) -> (r: Option<String>)
    ensures
        r.deep_view() == template_field(viewed(*template), groups.deep_view()),
{
    match template {
        Some(t) => none_if_empty(t.expand(groups)),
        None => None,
    }
}


#[verifier::external_type_specification]
#[verifier::external_body]
pub struct ExIoError(std::io::Error);

#[verifier::external_type_specification]
#[verifier::external_body]
pub struct ExYamlError(serde_yaml::Error);

/// Why an engine could not be built: the rule table could not be read, or
/// a rule of one of the facets did not compile.
#[derive(Debug)]
pub enum BuildError {
    IO(std::io::Error),
    Yaml(serde_yaml::Error),
    Device(device::RuleError),
    OS(os::RuleError),
    UserAgent(user_agent::RuleError),
}

/// Classifies user-agent strings by three ordered lists of compiled rules,
/// one per facet.
#[derive(Debug)]
pub struct UserAgentParser {
    device_matchers: Vec<device::Matcher>,
    os_matchers: Vec<os::Matcher>,
    user_agent_matchers: Vec<user_agent::Matcher>,
}

impl UserAgentParser {
    /// The device rules, in order.
    pub closed spec fn device_rules(&self) -> Seq<DeviceRule> {
        self.device_matchers@.map_values(|m: device::Matcher| m@)
    }

    /// The operating-system rules, in order.
    pub closed spec fn os_rules(&self) -> Seq<OSRule> {
        self.os_matchers@.map_values(|m: os::Matcher| m@)
    }

    /// The user-agent rules, in order.
    pub closed spec fn user_agent_rules(&self) -> Seq<UserAgentRule> {
        self.user_agent_matchers@.map_values(|m: user_agent::Matcher| m@)
    }
}

/// The device that `text` is classified as: the result of the first rule
/// that gives one, or the default.
pub open spec fn classify_device(rules: Seq<DeviceRule>, text: Seq<char>) -> DeviceModel {
    first_hit(rules.map_values(|r: DeviceRule| device_attempt(r, text)), default_device())
}

/// The operating system that `text` is classified as: the result of the
/// first rule that gives one, or the default.
pub open spec fn classify_os(rules: Seq<OSRule>, text: Seq<char>) -> OSModel {
    first_hit(rules.map_values(|r: OSRule| os_attempt(r, text)), default_os())
}

/// The user agent that `text` is classified as: the result of the first rule
/// that gives one, or the default.
pub open spec fn classify_user_agent(rules: Seq<UserAgentRule>, text: Seq<char>) -> UserAgentModel {
    first_hit(rules.map_values(|r: UserAgentRule| user_agent_attempt(r, text)), default_user_agent())
}

/// The three facets that `p` classifies `text` as.
pub open spec fn classify(p: UserAgentParser, text: Seq<char>) -> ClientModel {
    ClientModel {
        device: classify_device(p.device_rules(), text),
        os: classify_os(p.os_rules(), text),
        user_agent: classify_user_agent(p.user_agent_rules(), text),
    }
}

/// Whether `p` holds the rules of `file` compiled with Unicode mode
/// `unicode`, in file order, for each facet that is included, and none for
/// the others.
pub open spec fn built_from(
    p: UserAgentParser,
    file: RegexFile,
    device: bool,
    os: bool,
    user_agent: bool,
    unicode: bool,
) -> bool {
    &&& p.device_rules() == if device {
        file.device_parsers@.map_values(|e: DeviceParserEntry| device_rule_of(e, unicode))
    } else {
        Seq::empty()
    }
    &&& p.os_rules() == if os {
        file.os_parsers@.map_values(|e: OSParserEntry| os_rule_of(e, unicode))
    } else {
        Seq::empty()
    }
    &&& p.user_agent_rules() == if user_agent {
        file.user_agent_parsers@.map_values(|e: UserAgentParserEntry| user_agent_rule_of(e, unicode))
    } else {
        Seq::empty()
    }
}

/// Whether the device facet, where `device` includes it, holds a rule of
/// `file` that does not compile.
pub open spec fn device_fails(file: RegexFile, device: bool, unicode: bool) -> bool {
    device && exists|k: int|
        0 <= k < file.device_parsers@.len() && !device_rule_compiles(
            #[trigger] file.device_parsers@[k],
            unicode,
        )
}

/// Whether the operating-system facet, where `os` includes it, holds a rule
/// of `file` that does not compile.
pub open spec fn os_fails(file: RegexFile, os: bool, unicode: bool) -> bool {
    os && exists|k: int|
        0 <= k < file.os_parsers@.len() && !os_rule_compiles(#[trigger] file.os_parsers@[k], unicode)
}

/// Whether the user-agent facet, where `user_agent` includes it, holds a
/// rule of `file` that does not compile.
pub open spec fn user_agent_fails(file: RegexFile, user_agent: bool, unicode: bool) -> bool {
    user_agent && exists|k: int|
        0 <= k < file.user_agent_parsers@.len() && !user_agent_rule_compiles(
            #[trigger] file.user_agent_parsers@[k],
            unicode,
        )
}

/// The outcome of building from `file` with these choices: success exactly
/// when every rule of every included facet compiles; else the error of the
/// first facet, in the order device, operating system, user agent, that
/// holds a rule that does not.
pub open spec fn build_outcome(
    r: Result<UserAgentParser, BuildError>,
    file: RegexFile,
    device: bool,
    os: bool,
    user_agent: bool,
    unicode: bool,
) -> bool {
    let d = device_fails(file, device, unicode);
    let o = os_fails(file, os, unicode);
    let u = user_agent_fails(file, user_agent, unicode);
    &&& (r is Ok <==> !d && !o && !u)
    &&& ((r matches Err(BuildError::Device(_))) <==> d)
    &&& ((r matches Err(BuildError::OS(_))) <==> !d && o)
    &&& ((r matches Err(BuildError::UserAgent(_))) <==> !d && !o && u)
    &&& (r matches Ok(p) ==> built_from(p, file, device, os, user_agent, unicode))
}

impl UserAgentParser {
    /// A builder with every facet included and Unicode mode on.
    pub fn builder() -> (r: builder::UserAgentParserBuilder)
        ensures
            r@ == (builder::BuildOptions { device: true, os: true, user_agent: true, unicode: true }),
    {
        builder::UserAgentParserBuilder::new()
    }

    /// Builds the engine from `regex_file` with every facet included and
    /// Unicode mode on.
    pub fn try_from(regex_file: RegexFile) -> (r: Result<UserAgentParser, BuildError>)
        ensures
            build_outcome(r, regex_file, true, true, true, true),
    {
        Self::_try_from(regex_file, true, true, true, true)
    }

    /// Builds the engine from `regex_file`, compiling only the facets that
    /// are included, with Unicode mode `unicode`. The first rule that does
    /// not compile fails the whole build, with the error of its facet.
    pub fn _try_from(
        regex_file: RegexFile,
        device: bool,
        os: bool,
        user_agent: bool,
        unicode: bool,
    ) -> (r: Result<UserAgentParser, BuildError>)
        ensures
            build_outcome(r, regex_file, device, os, user_agent, unicode),
    {
        let RegexFile { user_agent_parsers, os_parsers, device_parsers } = regex_file;
        let device_matchers = if device {
            match device::compile_devices(device_parsers, unicode) {
                Ok(ms) => ms,
                Err(e) => {
                    return Err(BuildError::Device(e));
                },
            }
        } else {
            Vec::new()
        };
        let os_matchers = if os {
            match os::compile_os(os_parsers, unicode) {
                Ok(ms) => ms,
                Err(e) => {
                    return Err(BuildError::OS(e));
                },
            }
        } else {
            Vec::new()
        };
        let user_agent_matchers = if user_agent {
            match user_agent::compile_user_agents(user_agent_parsers, unicode) {
                Ok(ms) => ms,
                Err(e) => {
                    return Err(BuildError::UserAgent(e));
                },
            }
        } else {
            Vec::new()
        };
        let p = UserAgentParser { device_matchers, os_matchers, user_agent_matchers };
        proof {
            assert(p.device_rules() =~= if device {
                regex_file.device_parsers@.map_values(|e: DeviceParserEntry| device_rule_of(e, unicode))
            } else {
                Seq::empty()
            });
            assert(p.os_rules() =~= if os {
                regex_file.os_parsers@.map_values(|e: OSParserEntry| os_rule_of(e, unicode))
            } else {
                Seq::empty()
            });
            assert(p.user_agent_rules() =~= if user_agent {
                regex_file.user_agent_parsers@.map_values(
                    |e: UserAgentParserEntry| user_agent_rule_of(e, unicode),
                )
            } else {
                Seq::empty()
            });
        }
        Ok(p)
    }
}

/// Classification of a user-agent string, per facet and as a whole.
pub trait Parser {
    fn parse(&self, user_agent: &str) -> Client;

    fn parse_device(&self, user_agent: &str) -> Device;

    fn parse_os(&self, user_agent: &str) -> OS;

    fn parse_user_agent(&self, user_agent: &str) -> UserAgent;
}

impl Parser for UserAgentParser {
    /// The full classification of `user_agent`.
    fn parse(&self, user_agent: &str) -> (r: Client)
        ensures
            r@ == classify(*self, user_agent@),
    {
        Client {
            device: self.parse_device(user_agent),
            os: self.parse_os(user_agent),
            user_agent: self.parse_user_agent(user_agent),
        }
    }

    /// The device that `user_agent` is classified as.
    fn parse_device(&self, user_agent: &str) -> (r: Device)
        ensures
            r@ == classify_device(self.device_rules(), user_agent@),
    {
        device::first_device(&self.device_matchers, user_agent)
    }

    /// The operating system that `user_agent` is classified as.
    fn parse_os(&self, user_agent: &str) -> (r: OS)
        ensures
            r@ == classify_os(self.os_rules(), user_agent@),
    {
        os::first_os(&self.os_matchers, user_agent)
    }

    /// The user agent that `user_agent` is classified as.
    fn parse_user_agent(&self, user_agent: &str) -> (r: UserAgent)
        ensures
            r@ == classify_user_agent(self.user_agent_rules(), user_agent@),
    {
        user_agent::first_user_agent(&self.user_agent_matchers, user_agent)
    }
}

} // verus!
