use crate::host::{HostSnapshot, HostSnapshotView};
use crate::manifest::{Os, OsView, Rule, RuleAction, RuleView};
use crate::text::{append_chars, chars_of, same_text, string_of};
use vstd::prelude::*;

verus! {

/// What the `regex` crate finds of a pattern in a text: nothing where it
/// rejects the pattern, else whether the pattern matches somewhere in the
/// text.
pub uninterp spec fn pattern_search(pattern: Seq<char>, text: Seq<char>) -> Option<bool>;

/// Compiles a pattern with `regex::Regex::new` and searches a text with
/// `regex::Regex::is_match`: `None` for a pattern that the crate rejects,
/// else whether the expression matches anywhere in the text.
#[verifier::external_body]
fn search(pattern: &str, text: &str) -> (r: Option<bool>)
    ensures
        r == pattern_search(pattern@, text@),
{
    match regex::Regex::new(pattern) {
        Ok(re) => Some(re.is_match(text)),
        Err(_) => None,
    }
}

/// The pattern that matches exactly the texts which `pattern` matches from
/// their first character to their last.
pub open spec fn anchored(pattern: Seq<char>) -> Seq<char> {
    seq!['^', '(', '?', ':'] + pattern + seq![')', '$']
}

/// Whether a version pattern matches the whole of a version string. A
/// pattern that is no regular expression by itself matches nothing, also
/// where the wrapping would make one of it.
pub open spec fn version_matches(pattern: Seq<char>, version: Seq<char>) -> bool {
    pattern_search(pattern, version) is Some && pattern_search(anchored(pattern), version)
        == Some(true)
}

/// Wraps a pattern so that it must match a whole text.
pub fn anchor(pattern: &str) -> (r: String)
    ensures
        r@ == anchored(pattern@),
{
    let mut out: Vec<char> = Vec::new();
    out.push('^');
    out.push('(');
    out.push('?');
    out.push(':');
    assert(out@ =~= seq!['^', '(', '?', ':']);
    let body = chars_of(pattern);
    append_chars(&mut out, &body);
    out.push(')');
    out.push('$');
    string_of(&out)
}

/// Decides whether a version pattern matches the whole of a version string.
pub fn matches_version(pattern: &str, version: &str) -> (r: bool)
    ensures
        r == version_matches(pattern@, version@),
{
    if search(pattern, version).is_none() {
        return false;
    }
    let whole = anchor(pattern);
    match search(whole.as_str(), version) {
        Some(hit) => hit,
        None => false,
    }
}

/// Whether a name is one of the operating systems that manifests speak of.
pub open spec fn known_os(name: Seq<char>) -> bool {
    name == "osx"@ || name == "linux"@ || name == "windows"@
}

/// The value of a feature on a host: that of the last entry with this
/// name, and `false` where there is none.
pub open spec fn feature_enabled(features: Seq<(Seq<char>, bool)>, name: Seq<char>) -> bool
    decreases features.len(),
{
    if features.len() == 0 {
        false
    } else if features.last().0 == name {
        features.last().1
    } else {
        feature_enabled(features.drop_last(), name)
    }
}

/// Whether the host has each wanted feature at the wanted value.
pub open spec fn features_match(wanted: Seq<(Seq<char>, bool)>, host: HostSnapshotView) -> bool {
    forall|i: int|
        0 <= i < wanted.len() ==> feature_enabled(host.features, (#[trigger] wanted[i]).0)
            == wanted[i].1
}

/// Whether the operating-system part of a rule matches the host. An absent
/// field matches; a name that is no known operating system matches nothing.
pub open spec fn os_matches(os: OsView, host: HostSnapshotView) -> bool {
    &&& os.name matches Some(name) ==> known_os(name) && name == host.os_name
    &&& os.arch matches Some(arch) ==> arch == host.arch
    &&& os.version matches Some(pattern) ==> version_matches(pattern, host.os_version)
}

/// Whether every part of a rule matches the host.
pub open spec fn rule_matches(rule: RuleView, host: HostSnapshotView) -> bool {
    &&& rule.os matches Some(os) ==> os_matches(os, host)
    &&& rule.features matches Some(wanted) ==> features_match(wanted, host)
}

/// The admission after the first `n` rules, starting from a refusal: each
/// matching rule sets it, to `true` for `allow` and to `false` for `disallow`.
pub open spec fn verdict(rules: Seq<RuleView>, host: HostSnapshotView, n: int) -> bool
    decreases n,
{
    if n <= 0 || n > rules.len() {
        false
    } else if rule_matches(rules[n - 1], host) {
        rules[n - 1].action == RuleAction::Allow
    } else {
        verdict(rules, host, n - 1)
    }
}

/// Whether a list of rules admits the host. An empty list admits every
/// host; otherwise the last rule that matches decides, and the host is
/// refused where none matches.
pub open spec fn admits(rules: Seq<RuleView>, host: HostSnapshotView) -> bool {
    rules.len() == 0 || verdict(rules, host, rules.len() as int)
}

/// Looks a feature up on a host.
pub fn feature_value(features: &Vec<(String, bool)>, name: &str) -> (r: bool)
    ensures
        r == feature_enabled(features.deep_view(), name@),
{
    let ghost fv = features.deep_view();
    let mut value = false;
    let mut i: usize = 0;
    while i < features.len()
        invariant
            i <= features.len(),
            fv == features.deep_view(),
            value == feature_enabled(fv.take(i as int), name@),
        decreases features.len() - i,
    {
        proof {
            assert(fv.take(i + 1).drop_last() =~= fv.take(i as int));
        }
        if same_text(features[i].0.as_str(), name) {
            value = features[i].1;
        }
        i += 1;
    }
    assert(fv.take(features.len() as int) =~= fv);
    value
}

/// Decides whether the host has each wanted feature at the wanted value.
pub fn match_features(wanted: &Vec<(String, bool)>, host: &HostSnapshot) -> (r: bool)
    ensures
        r == features_match(wanted.deep_view(), host@),
{
    let ghost wv = wanted.deep_view();
    let mut i: usize = 0;
    while i < wanted.len()
        invariant
            i <= wanted.len(),
            wv == wanted.deep_view(),
            forall|j: int|
                0 <= j < i ==> feature_enabled(host@.features, (#[trigger] wv[j]).0) == wv[j].1,
        decreases wanted.len() - i,
    {
        assert(wv[i as int] == (wanted[i as int].0@, wanted[i as int].1));
        if feature_value(&host.features, wanted[i].0.as_str()) != wanted[i].1 {
            return false;
        }
        i += 1;
    }
    true
}

/// Decides whether the operating-system part of a rule matches the host.
pub fn match_os(os: &Os, host: &HostSnapshot) -> (r: bool)
    ensures
        r == os_matches(os@, host@),
{
    match &os.name {
        Some(name) => {
            let known = same_text(name.as_str(), "osx") || same_text(name.as_str(), "linux")
                || same_text(name.as_str(), "windows");
            if !known || !same_text(name.as_str(), host.os_name.as_str()) {
                return false;
            }
        },
        None => {},
    }
    match &os.arch {
        Some(arch) => {
            if !same_text(arch.as_str(), host.arch.as_str()) {
                return false;
            }
        },
        None => {},
    }
    match &os.version {
        Some(pattern) => matches_version(pattern.as_str(), host.os_version.as_str()),
        None => true,
    }
}

/// Decides whether every part of a rule matches the host.
pub fn match_rule(rule: &Rule, host: &HostSnapshot) -> (r: bool)
    ensures
        r == rule_matches(rule@, host@),
{
    match &rule.os {
        Some(os) => {
            if !match_os(os, host) {
                return false;
            }
        },
        None => {},
    }
    match &rule.features {
        Some(wanted) => match_features(wanted, host),
        None => true,
    }
}

/// Evaluates a list of rules against a host.
pub fn evaluate(rules: &Vec<Rule>, host: &HostSnapshot) -> (admitted: bool)
    ensures
        admitted == admits(rules.deep_view(), host@),
{
    let ghost rv = rules.deep_view();
    let mut admitted = rules.len() == 0;
    let mut i: usize = 0;
    while i < rules.len()
        invariant
            i <= rules.len(),
            rv == rules.deep_view(),
            i > 0 ==> admitted == verdict(rv, host@, i as int),
            i == 0 ==> admitted == (rules.len() == 0),
        decreases rules.len() - i,
    {
        if match_rule(&rules[i], host) {
            admitted = match rules[i].action {
                RuleAction::Allow => true,
                RuleAction::Disallow => false,
            };
        }
        i += 1;
        assert(verdict(rv, host@, i as int) == if rule_matches(rv[i - 1], host@) {
            rv[i - 1].action == RuleAction::Allow
        } else {
            verdict(rv, host@, i - 1)
        });
    }
    admitted
}

/// An empty list of rules admits every host.
pub proof fn lemma_no_rules_admit(host: HostSnapshotView)
    ensures
        admits(Seq::empty(), host),
{
}

/// A single `disallow` rule that names the host's operating system, and
/// asks nothing else, refuses the host.
pub proof fn lemma_disallow_own_os_refuses(rule: RuleView, host: HostSnapshotView)
    requires
        rule.action == RuleAction::Disallow,
        rule.os == Some(OsView { name: Some(host.os_name), arch: None, version: None }),
        rule.features is None,
    ensures
        !admits(seq![rule], host),
{
    let rules = seq![rule];
    assert(!verdict(rules, host, 0));
}

/// The last rule that matches decides: the host is admitted by a list that
/// is not empty exactly if some `allow` rule matches it and no later rule does.
pub proof fn lemma_last_match_decides(rules: Seq<RuleView>, host: HostSnapshotView)
    requires
        rules.len() > 0,
    ensures
        admits(rules, host) <==> exists|i: int|
            0 <= i < rules.len() && #[trigger] rule_matches(rules[i], host) && rules[i].action
                == RuleAction::Allow && forall|j: int|
                i < j < rules.len() ==> !rule_matches(#[trigger] rules[j], host),
{
    lemma_verdict_last_match(rules, host, rules.len() as int);
}

/// The admission after the first `n` rules is that of the last of them
/// that matches.
proof fn lemma_verdict_last_match(rules: Seq<RuleView>, host: HostSnapshotView, n: int)
    requires
        0 <= n <= rules.len(),
    ensures
        verdict(rules, host, n) <==> exists|i: int|
            0 <= i < n && #[trigger] rule_matches(rules[i], host) && rules[i].action
                == RuleAction::Allow && forall|j: int|
                i < j < n ==> !rule_matches(#[trigger] rules[j], host),
    decreases n,
{
    if n > 0 {
        lemma_verdict_last_match(rules, host, n - 1);
        if !rule_matches(rules[n - 1], host) {
            if verdict(rules, host, n - 1) {
                let i = choose|i: int|
                    0 <= i < n - 1 && #[trigger] rule_matches(rules[i], host) && rules[i].action
                        == RuleAction::Allow && forall|j: int|
                        i < j < n - 1 ==> !rule_matches(#[trigger] rules[j], host);
            }
        }
    }
}

} // verus!
