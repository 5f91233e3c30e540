use crate::client::ClientModel;
use crate::device::{default_device, DeviceModel};
use crate::file::RegexFile;
use crate::os::{default_os, OSModel};
use crate::parser::device::{device_attempt, DeviceRule};
use crate::parser::os::{os_attempt, OSRule};
use crate::parser::user_agent::{user_agent_attempt, UserAgentRule};
use crate::parser::{
    built_from, classify, classify_device, classify_os, classify_user_agent,
    lemma_first_hit_skip, lemma_first_hit_within, UserAgentParser,
};
use crate::user_agent::{default_user_agent, UserAgentModel};
use vstd::prelude::*;

verus! {

/// Classification has no hidden state: two classifications of one text by
/// one engine are the same.
pub proof fn classification_is_deterministic(
    p: UserAgentParser,
    text: Seq<char>,
    first: ClientModel,
    second: ClientModel,
)
    requires
        first == classify(p, text),
        second == classify(p, text),
    ensures
        first == second,
{
}

/// First match wins among device rules: where rule `i` is the first rule
/// that gives a result for `text`, the device is its result, even though a
/// later rule `j` gives one too.
pub proof fn device_first_match_wins(rules: Seq<DeviceRule>, text: Seq<char>, i: int, j: int)
    requires
        0 <= i < j < rules.len(),
        device_attempt(rules[i], text) is Some,
        device_attempt(rules[j], text) is Some,
        forall|k: int| 0 <= k < i ==> device_attempt(#[trigger] rules[k], text) is None,
    ensures
        classify_device(rules, text) == device_attempt(rules[i], text)->0,
{
    let outs = rules.map_values(|r: DeviceRule| device_attempt(r, text));
    lemma_first_hit_skip(outs, default_device(), i);
}

/// First match wins among operating-system rules: where rule `i` is the
/// first rule that gives a result for `text`, the operating system is its
/// result, even though a later rule `j` gives one too.
pub proof fn os_first_match_wins(rules: Seq<OSRule>, text: Seq<char>, i: int, j: int)
    requires
        0 <= i < j < rules.len(),
        os_attempt(rules[i], text) is Some,
        os_attempt(rules[j], text) is Some,
        forall|k: int| 0 <= k < i ==> os_attempt(#[trigger] rules[k], text) is None,
    ensures
        classify_os(rules, text) == os_attempt(rules[i], text)->0,
{
    let outs = rules.map_values(|r: OSRule| os_attempt(r, text));
    lemma_first_hit_skip(outs, default_os(), i);
}

/// First match wins among user-agent rules: where rule `i` is the first rule
/// that gives a result for `text`, the user agent is its result, even though
/// a later rule `j` gives one too.
pub proof fn user_agent_first_match_wins(
    rules: Seq<UserAgentRule>,
    text: Seq<char>,
    i: int,
    j: int,
)
    requires
        0 <= i < j < rules.len(),
        user_agent_attempt(rules[i], text) is Some,
        user_agent_attempt(rules[j], text) is Some,
        forall|k: int| 0 <= k < i ==> user_agent_attempt(#[trigger] rules[k], text) is None,
    ensures
        classify_user_agent(rules, text) == user_agent_attempt(rules[i], text)->0,
{
    let outs = rules.map_values(|r: UserAgentRule| user_agent_attempt(r, text));
    lemma_first_hit_skip(outs, default_user_agent(), i);
}

/// Where no device rule gives a result for `text`, the device is the default.
pub proof fn device_default_on_no_match(rules: Seq<DeviceRule>, text: Seq<char>)
    requires
        forall|k: int| 0 <= k < rules.len() ==> device_attempt(#[trigger] rules[k], text) is None,
    ensures
        classify_device(rules, text) == default_device(),
{
    let outs = rules.map_values(|r: DeviceRule| device_attempt(r, text));
    lemma_first_hit_skip(outs, default_device(), outs.len() as int);
}

/// Where no operating-system rule gives a result for `text`, the operating
/// system is the default.
pub proof fn os_default_on_no_match(rules: Seq<OSRule>, text: Seq<char>)
    requires
        forall|k: int| 0 <= k < rules.len() ==> os_attempt(#[trigger] rules[k], text) is None,
    ensures
        classify_os(rules, text) == default_os(),
{
    let outs = rules.map_values(|r: OSRule| os_attempt(r, text));
    lemma_first_hit_skip(outs, default_os(), outs.len() as int);
}

/// Where no user-agent rule gives a result for `text`, the user agent is the
/// default.
pub proof fn user_agent_default_on_no_match(rules: Seq<UserAgentRule>, text: Seq<char>)
    requires
        forall|k: int|
            0 <= k < rules.len() ==> user_agent_attempt(#[trigger] rules[k], text) is None,
    ensures
        classify_user_agent(rules, text) == default_user_agent(),
{
    let outs = rules.map_values(|r: UserAgentRule| user_agent_attempt(r, text));
    lemma_first_hit_skip(outs, default_user_agent(), outs.len() as int);
}

/// Whether no optional field of `d` is present and empty.
pub open spec fn device_has_no_empty_field(d: DeviceModel) -> bool {
    d.brand != Some(Seq::<char>::empty()) && d.model != Some(Seq::<char>::empty())
}

/// Whether no optional field of `o` is present and empty.
pub open spec fn os_has_no_empty_field(o: OSModel) -> bool {
    &&& o.major != Some(Seq::<char>::empty())
    &&& o.minor != Some(Seq::<char>::empty())
    &&& o.patch != Some(Seq::<char>::empty())
    &&& o.patch_minor != Some(Seq::<char>::empty())
}

/// Whether no optional field of `u` is present and empty.
pub open spec fn user_agent_has_no_empty_field(u: UserAgentModel) -> bool {
    &&& u.major != Some(Seq::<char>::empty())
    &&& u.minor != Some(Seq::<char>::empty())
    &&& u.patch != Some(Seq::<char>::empty())
}

/// An optional field that would come out empty is absent instead: no
/// classification holds an optional field that is present and empty.
pub proof fn empty_fields_are_absent(p: UserAgentParser, text: Seq<char>)
    ensures
        device_has_no_empty_field(classify(p, text).device),
        os_has_no_empty_field(classify(p, text).os),
        user_agent_has_no_empty_field(classify(p, text).user_agent),
{
    let d = p.device_rules().map_values(|r: DeviceRule| device_attempt(r, text));
    let o = p.os_rules().map_values(|r: OSRule| os_attempt(r, text));
    let u = p.user_agent_rules().map_values(|r: UserAgentRule| user_agent_attempt(r, text));
    lemma_first_hit_within(d, default_device(), |m: DeviceModel| device_has_no_empty_field(m));
    lemma_first_hit_within(o, default_os(), |m: OSModel| os_has_no_empty_field(m));
    lemma_first_hit_within(
        u,
        default_user_agent(),
        |m: UserAgentModel| user_agent_has_no_empty_field(m),
    );
}

/// Leaving a facet out of the build makes it give its default for every
/// text, and leaves the other facets as they are in a build that includes
/// all three.
pub proof fn facet_exclusion_isolation(
    file: RegexFile,
    unicode: bool,
    full: UserAgentParser,
    p: UserAgentParser,
    device: bool,
    os: bool,
    user_agent: bool,
    text: Seq<char>,
)
    requires
        built_from(full, file, true, true, true, unicode),
        built_from(p, file, device, os, user_agent, unicode),
    ensures
        classify(p, text).device == if device {
            classify(full, text).device
        } else {
            default_device()
        },
        classify(p, text).os == if os {
            classify(full, text).os
        } else {
            default_os()
        },
        classify(p, text).user_agent == if user_agent {
            classify(full, text).user_agent
        } else {
            default_user_agent()
        },
{
    assert(p.device_rules().map_values(|r: DeviceRule| device_attempt(r, text)).len() == 0
        || device);
    assert(p.os_rules().map_values(|r: OSRule| os_attempt(r, text)).len() == 0 || os);
    assert(p.user_agent_rules().map_values(|r: UserAgentRule| user_agent_attempt(r, text)).len()
        == 0 || user_agent);
}

} // verus!
