use crate::device::{default_device, Device, DeviceModel};
use crate::file::DeviceParserEntry;
use crate::parser::{
    classify_device, family_field, family_from, field_from, lemma_first_hit_skip, optional_field,
    template_field, template_field_from, template_of, viewed,
};
use crate::pattern::{regex_captures, regex_compiles, CompiledPattern};
use crate::template::{Groups, Template};
use crate::text::{clean_escapes, unescaped};
use vstd::prelude::*;

verus! {

/// The largest compiled size, in bytes, allowed to a device pattern.
pub const SIZE_LIMIT: usize = 20971520;

/// Why a device rule could not be compiled: the regex engine rejected
/// `pattern`, the rule's normalized pattern, with `error`.
#[derive(Debug)]
pub enum RuleError {
    Regex { pattern: String, error: regex::Error },
}

/// The pattern that `e` reports.
pub open spec fn rejected_pattern(e: RuleError) -> Seq<char> {
    match e {
        RuleError::Regex { pattern, .. } => pattern@,
    }
}

/// A compiled device rule.
#[derive(Debug)]
pub struct Matcher {
    regex: CompiledPattern,
    device_replacement: Option<Template>,
    brand_replacement: Option<Template>,
    model_replacement: Option<Template>,
}

/// The model of a compiled device rule: the normalized pattern with its
/// flags, the Unicode mode, and the templates of family, brand and model.
pub struct DeviceRule {
    pub pattern: Seq<char>,
    pub unicode: bool,
    pub family: Option<Seq<char>>,
    pub brand: Option<Seq<char>>,
    pub model: Option<Seq<char>>,
}

/// `pattern` under the inline flags `flag` (`(?i)` to ignore case); as it is
/// where there are none.
pub open spec fn flagged(pattern: Seq<char>, flag: Option<Seq<char>>) -> Seq<char> {
    match flag {
        Some(f) => if f.len() == 0 {
            pattern
        } else {
            "(?"@ + f + ")"@ + pattern
        },
        None => pattern,
    }
}

/// The rule that `entry` compiles to.
pub open spec fn device_rule_of(entry: DeviceParserEntry, unicode: bool) -> DeviceRule {
    DeviceRule {
        pattern: unescaped(flagged(entry.regex@, entry.regex_flag.deep_view())),
        unicode,
        family: entry.device_replacement.deep_view(),
        brand: entry.brand_replacement.deep_view(),
        model: entry.model_replacement.deep_view(),
    }
}

/// Whether the regex engine accepts the pattern of the rule that `entry`
/// compiles to.
pub open spec fn device_rule_compiles(entry: DeviceParserEntry, unicode: bool) -> bool {
    regex_compiles(device_rule_of(entry, unicode).pattern, unicode, SIZE_LIMIT)
}

/// What `rule` derives from a match with groups `groups`: `None` where the
/// family comes out absent; the brand from its template alone, the model
/// from its template or else group 1.
pub open spec fn derive_device(rule: DeviceRule, groups: Seq<Option<Seq<char>>>) -> Option<
    DeviceModel,
> {
    match family_field(rule.family, groups) {
        Some(family) => Some(
            DeviceModel {
                family,
                brand: template_field(rule.brand, groups),
                model: optional_field(rule.model, groups, 1),
            },
        ),
        None => None,
    }
}

/// What `rule` gives for `text`: `None` where its pattern does not match or
/// the match is not usable.
pub open spec fn device_attempt(rule: DeviceRule, text: Seq<char>) -> Option<DeviceModel> {
    match regex_captures(rule.pattern, rule.unicode, text) {
        Some(groups) => derive_device(rule, groups),
        None => None,
    }
}

impl View for Matcher {
    type V = DeviceRule;

    closed spec fn view(&self) -> DeviceRule {
        DeviceRule {
            pattern: self.regex.source(),
            unicode: self.regex.unicode(),
            family: viewed(self.device_replacement),
            brand: viewed(self.brand_replacement),
            model: viewed(self.model_replacement),
        }
    }
}

/// `pattern` under the inline flags `flag`.
fn with_flag(pattern: String, flag: &Option<String>) -> (r: String)
    ensures
        r@ == flagged(pattern@, flag.deep_view()),
{
    match flag {
        Some(f) => {
            if f.as_str().is_empty() {
                pattern
            } else {
                let mut r = String::from_str("(?");
                r.append(f.as_str());
                r.append(")");
                r.append(pattern.as_str());
                r
            }
        },
        None => pattern,
    }
}

impl Matcher {
    /// Compiles `entry`, its pattern put under its flags and normalized, with
    /// Unicode mode `unicode`.
    pub fn try_from(entry: DeviceParserEntry, unicode: bool) -> (r: Result<Matcher, RuleError>)
        ensures
            r is Ok <==> device_rule_compiles(entry, unicode),
            r matches Ok(m) ==> m@ == device_rule_of(entry, unicode),
            r matches Err(e) ==> rejected_pattern(e) == device_rule_of(entry, unicode).pattern,
    {
        let pattern = with_flag(entry.regex, &entry.regex_flag);
        let source = clean_escapes(pattern.as_str());
        let regex = match CompiledPattern::compile(source.as_str(), unicode, SIZE_LIMIT) {
            Ok(regex) => regex,
            Err(error) => {
                return Err(RuleError::Regex { pattern: source, error });
            },
        };
        Ok(
            Matcher {
                regex,
                device_replacement: template_of(entry.device_replacement),
                brand_replacement: template_of(entry.brand_replacement),
                model_replacement: template_of(entry.model_replacement),
            },
        )
    }

    /// The device this rule derives from a match with groups `groups`.
    pub fn derive(&self, groups: &Groups) -> (r: Option<Device>)
        ensures
            viewed(r) == derive_device(self@, groups.deep_view()),
    {
        let family = match family_from(&self.device_replacement, groups) {
            Some(family) => family,
            None => {
                return None;
            },
        };
        Some(
            Device {
                family,
                brand: template_field_from(&self.brand_replacement, groups),
                model: field_from(&self.model_replacement, groups, 1),
            },
        )
    }

    /// The device this rule gives for `text`, if it matches.
    pub fn try_parse(&self, text: &str) -> (r: Option<Device>)
        ensures
            viewed(r) == device_attempt(self@, text@),
    {
        match self.regex.captures(text) {
            Some(groups) => self.derive(&groups),
            None => None,
        }
    }
}

/// Compiles the device rules `entries`, in order; stops at the first that
/// does not compile, and reports its pattern.
pub fn compile_devices(entries: Vec<DeviceParserEntry>, unicode: bool) -> (r: Result<
    Vec<Matcher>,
    RuleError,
>)
    ensures
        r matches Ok(ms) ==> ms@.map_values(|m: Matcher| m@) == entries@.map_values(
            |e: DeviceParserEntry| device_rule_of(e, unicode),
        ),
        r is Ok <==> forall|k: int|
            0 <= k < entries@.len() ==> device_rule_compiles(#[trigger] entries@[k], unicode),
        r matches Err(e) ==> exists|k: int|
            0 <= k < entries@.len() && !device_rule_compiles(#[trigger] entries@[k], unicode)
                && rejected_pattern(e) == device_rule_of(entries@[k], unicode).pattern
                && forall|j: int| 0 <= j < k ==> device_rule_compiles(#[trigger] entries@[j], unicode),
{
    let ghost all = entries@;
    let mut matchers: Vec<Matcher> = Vec::with_capacity(entries.len());
    for entry in it: entries
        invariant
            it.seq() == all,
            all == entries@,
            forall|j: int| 0 <= j < it.index() ==> device_rule_compiles(#[trigger] all[j], unicode),
            matchers@.map_values(|m: Matcher| m@) == all.take(it.index() as int).map_values(
                |e: DeviceParserEntry| device_rule_of(e, unicode),
            ),
    {
        let ghost before = matchers@;
        let ghost idx = it.index() as int;
        assert(entry == all[idx]);
        let m = match Matcher::try_from(entry, unicode) {
            Ok(m) => m,
            Err(e) => {
                assert(!device_rule_compiles(all[idx], unicode));
                return Err(e);
            },
        };
        matchers.push(m);
        proof {
            assert(all.take(idx + 1) =~= all.take(idx).push(entry));
            assert(matchers@ =~= before.push(m));
            assert(matchers@.map_values(|m: Matcher| m@) =~= before.map_values(
                |m: Matcher| m@,
            ).push(m@));
            assert(all.take(idx + 1).map_values(|e: DeviceParserEntry| device_rule_of(e, unicode))
                =~= all.take(idx).map_values(|e: DeviceParserEntry| device_rule_of(e, unicode)).push(
                device_rule_of(entry, unicode),
            ));
        }
    }
    proof {
        assert(all.take(all.len() as int) =~= all);
    }
    Ok(matchers)
}

/// The device that `text` is classified as by `matchers`: the
/// result of the first that gives one, or the default.
pub fn first_device(matchers: &Vec<Matcher>, text: &str) -> (r: Device)
    ensures
        r@ == classify_device(matchers@.map_values(|m: Matcher| m@), text@),
{
    let ghost outs = matchers@.map_values(|m: Matcher| m@).map_values(
        |r: DeviceRule| device_attempt(r, text@),
    );
    let n = matchers.len();
    let mut i: usize = 0;
    while i < n
        invariant
            n == matchers.len(),
            outs == matchers@.map_values(|m: Matcher| m@).map_values(|r: DeviceRule| device_attempt(r, text@)),
            0 <= i <= n,
            forall|k: int| 0 <= k < i ==> outs[k] is None,
        decreases n - i,
    {
        assert(outs[i as int] == device_attempt(matchers@[i as int]@, text@));
        match matchers[i].try_parse(text) {
            Some(d) => {
                proof {
                    lemma_first_hit_skip(outs, default_device(), i as int);
                }
                return d;
            },
            None => {},
        }
        i = i + 1;
    }
    proof {
        lemma_first_hit_skip(outs, default_device(), n as int);
    }
    Device::default()
}

} // verus!
