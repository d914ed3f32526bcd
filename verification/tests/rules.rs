use onelauncher_core::host::{snapshot, HostSnapshot};
use onelauncher_core::manifest::{Os, Rule, RuleAction};
use onelauncher_core::rules::{evaluate, matches_version};

fn host(os: &str, arch: &str) -> HostSnapshot {
    HostSnapshot {
        os_name: os.to_string(),
        arch: arch.to_string(),
        os_version: "10.0.19045".to_string(),
        features: vec![("is_demo_user".to_string(), true)],
    }
}

fn rule(action: RuleAction, os_name: Option<&str>) -> Rule {
    Rule {
        action,
        os: os_name.map(|n| Os { name: Some(n.to_string()), arch: None, version: None }),
        features: None,
    }
}

#[test]
fn empty_rules_admit_every_host() {
    assert!(evaluate(&vec![], &host("linux", "x86_64")));
    assert!(evaluate(&vec![], &host("plan9", "mips")));
}

#[test]
fn single_disallow_on_own_os_refuses() {
    let rules = vec![rule(RuleAction::Disallow, Some("osx"))];
    assert!(!evaluate(&rules, &host("osx", "x86_64")));
}

#[test]
fn rules_without_a_match_refuse() {
    let rules = vec![rule(RuleAction::Allow, Some("osx"))];
    assert!(!evaluate(&rules, &host("linux", "x86_64")));
    assert!(evaluate(&rules, &host("osx", "x86_64")));
}

#[test]
fn later_rules_override_earlier_ones() {
    let rules = vec![rule(RuleAction::Allow, None), rule(RuleAction::Disallow, Some("osx"))];
    assert!(!evaluate(&rules, &host("osx", "x86_64")));
    assert!(evaluate(&rules, &host("linux", "x86_64")));
    let reversed = vec![rule(RuleAction::Disallow, Some("osx")), rule(RuleAction::Allow, None)];
    assert!(evaluate(&reversed, &host("osx", "x86_64")));
}

#[test]
fn unknown_os_name_matches_nothing() {
    let rules = vec![rule(RuleAction::Allow, Some("plan9"))];
    assert!(!evaluate(&rules, &host("plan9", "x86_64")));
}

#[test]
fn arch_is_matched_literally() {
    let rules = vec![Rule {
        action: RuleAction::Allow,
        os: Some(Os { name: None, arch: Some("x86".to_string()), version: None }),
        features: None,
    }];
    assert!(evaluate(&rules, &host("windows", "x86")));
    assert!(!evaluate(&rules, &host("windows", "x86_64")));
}

#[test]
fn version_pattern_must_match_the_whole_version() {
    assert!(matches_version("10\\..*", "10.0.19045"));
    assert!(!matches_version("10\\.", "10.0.19045"));
    assert!(matches_version("a|ab", "ab"));
    assert!(!matches_version("^10\\.", "11.0"));
}

#[test]
fn malformed_pattern_matches_nothing() {
    assert!(!matches_version("(", "("));
    assert!(!matches_version("a)|(?:b", "a"));
    assert!(!matches_version("a)|(?:b", "b"));
    let rules = vec![Rule {
        action: RuleAction::Allow,
        os: Some(Os { name: None, arch: None, version: Some("[".to_string()) }),
        features: None,
    }];
    assert!(!evaluate(&rules, &host("windows", "x86")));
}

#[test]
fn version_rule_is_evaluated_against_the_host() {
    let rules = vec![Rule {
        action: RuleAction::Allow,
        os: Some(Os {
            name: Some("windows".to_string()),
            arch: None,
            version: Some("^10\\..*".to_string()),
        }),
        features: None,
    }];
    assert!(evaluate(&rules, &host("windows", "x86")));
    let mut other = host("windows", "x86");
    other.os_version = "6.1".to_string();
    assert!(!evaluate(&rules, &other));
}

#[test]
fn features_must_all_hold_and_missing_counts_as_false() {
    let wants = |name: &str, value: bool| Rule {
        action: RuleAction::Allow,
        os: None,
        features: Some(vec![(name.to_string(), value)]),
    };
    let h = host("linux", "x86_64");
    assert!(evaluate(&vec![wants("is_demo_user", true)], &h));
    assert!(!evaluate(&vec![wants("is_demo_user", false)], &h));
    assert!(!evaluate(&vec![wants("has_custom_resolution", true)], &h));
    assert!(evaluate(&vec![wants("has_custom_resolution", false)], &h));
    let both = Rule {
        action: RuleAction::Allow,
        os: None,
        features: Some(vec![
            ("is_demo_user".to_string(), true),
            ("has_custom_resolution".to_string(), true),
        ]),
    };
    assert!(!evaluate(&vec![both], &h));
}

#[test]
fn later_feature_entry_of_a_host_counts() {
    let mut h = host("linux", "x86_64");
    h.features.push(("is_demo_user".to_string(), false));
    let rules = vec![Rule {
        action: RuleAction::Allow,
        os: None,
        features: Some(vec![("is_demo_user".to_string(), true)]),
    }];
    assert!(!evaluate(&rules, &h));
}

#[test]
fn snapshot_normalises_names() {
    let h = snapshot("macos", "aarch64", "14.1", vec![]);
    assert_eq!(h.os_name, "osx");
    assert_eq!(h.arch, "arm64");
    assert_eq!(h.os_version, "14.1");
    assert_eq!(snapshot("Darwin", "amd64", "", vec![]).os_name, "osx");
    assert_eq!(snapshot("Darwin", "amd64", "", vec![]).arch, "x86_64");
    assert_eq!(snapshot("freebsd", "i686", "", vec![]).os_name, "linux");
    assert_eq!(snapshot("freebsd", "i686", "", vec![]).arch, "x86");
    assert_eq!(snapshot("Windows_NT", "x86", "", vec![]).os_name, "windows");
    assert_eq!(snapshot("haiku", "riscv64", "", vec![]).os_name, "haiku");
    assert_eq!(snapshot("haiku", "riscv64", "", vec![]).arch, "riscv64");
    let with = snapshot("linux", "x86_64", "6.1", vec![("is_demo_user".to_string(), true)]);
    assert_eq!(with.features, vec![("is_demo_user".to_string(), true)]);
}
