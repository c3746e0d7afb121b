use neurontrace::common::{EventType, PolicyAction};
use neurontrace::policy::{
    validate_policy, PolicyActionType, PolicyError, PolicyEventType, PolicyRule, PolicySet,
};

fn rule(
    event_type: PolicyEventType,
    action: PolicyActionType,
    path: Option<&str>,
    argv: Option<&str>,
) -> PolicyRule {
    PolicyRule {
        event_type,
        action,
        cgroup_id: 0,
        path: path.map(|p| p.to_string()),
        argv: argv.map(|a| a.to_string()),
        description: String::new(),
    }
}

fn policy(name: &str, description: &str, rules: Vec<PolicyRule>) -> PolicySet {
    PolicySet { name: name.to_string(), description: description.to_string(), rules }
}

#[test]
fn event_types_covered_counts_unique() {
    let p = policy(
        "test",
        "coverage",
        vec![
            rule(PolicyEventType::Exec, PolicyActionType::Allow, Some("/usr/bin/git"), None),
            rule(PolicyEventType::Exec, PolicyActionType::Block, None, None),
            rule(PolicyEventType::Connect, PolicyActionType::Block, None, None),
        ],
    );
    assert_eq!(p.event_types_covered(), 2);
}

#[test]
fn compiled_policy_exact_path_match() {
    let p = policy(
        "test",
        "exact",
        vec![
            rule(PolicyEventType::Exec, PolicyActionType::Allow, Some("/usr/bin/git"), None),
            rule(PolicyEventType::Exec, PolicyActionType::Block, None, None),
        ],
    );
    let compiled = p.compile();
    let exec = EventType::Exec.to_u8();

    let result = compiled.match_event(exec, "/usr/bin/git", "");
    assert!(matches!(result, Some(PolicyActionType::Allow)));

    let result = compiled.match_event(exec, "/usr/bin/curl", "");
    assert!(matches!(result, Some(PolicyActionType::Block)));
}

#[test]
fn compiled_policy_glob_wildcard() {
    let p = policy(
        "test",
        "glob",
        vec![
            rule(PolicyEventType::Exec, PolicyActionType::Allow, Some("/usr/bin/python*"), None),
            rule(PolicyEventType::Exec, PolicyActionType::Block, None, None),
        ],
    );
    let compiled = p.compile();
    let exec = EventType::Exec.to_u8();

    assert!(matches!(compiled.match_event(exec, "/usr/bin/python3", ""), Some(PolicyActionType::Allow)));
    assert!(matches!(
        compiled.match_event(exec, "/usr/bin/python3.11", ""),
        Some(PolicyActionType::Allow)
    ));
    assert!(matches!(compiled.match_event(exec, "/usr/bin/node", ""), Some(PolicyActionType::Block)));
}

#[test]
fn compiled_policy_glob_double_star() {
    let p = policy(
        "test",
        "recursive glob",
        vec![
            rule(PolicyEventType::Unlink, PolicyActionType::Block, Some("/etc/**"), None),
            rule(PolicyEventType::Unlink, PolicyActionType::Audit, None, None),
        ],
    );
    let compiled = p.compile();
    let unlink = EventType::Unlink.to_u8();

    assert!(matches!(compiled.match_event(unlink, "/etc/shadow", ""), Some(PolicyActionType::Block)));
    assert!(matches!(
        compiled.match_event(unlink, "/etc/nginx/nginx.conf", ""),
        Some(PolicyActionType::Block)
    ));
    assert!(matches!(compiled.match_event(unlink, "/tmp/foo.txt", ""), Some(PolicyActionType::Audit)));
}

#[test]
fn compiled_policy_no_matching_event_type_returns_none() {
    let p = policy(
        "test",
        "exec only",
        vec![rule(PolicyEventType::Exec, PolicyActionType::Block, None, None)],
    );
    let compiled = p.compile();
    let connect = EventType::Connect.to_u8();

    assert!(compiled.match_event(connect, "", "").is_none());
}

#[test]
fn compiled_policy_argv_matching() {
    let p = policy(
        "test",
        "argv",
        vec![
            rule(PolicyEventType::Exec, PolicyActionType::Block, None, Some("*--dangerous*")),
            rule(PolicyEventType::Exec, PolicyActionType::Allow, None, None),
        ],
    );
    let compiled = p.compile();
    let exec = EventType::Exec.to_u8();

    assert!(matches!(
        compiled.match_event(exec, "/usr/bin/tool", "tool --dangerous-flag"),
        Some(PolicyActionType::Block)
    ));
    assert!(matches!(
        compiled.match_event(exec, "/usr/bin/tool", "tool --safe"),
        Some(PolicyActionType::Allow)
    ));
}

#[test]
fn compiled_policy_path_and_argv_both_must_match() {
    let p = policy(
        "test",
        "both",
        vec![
            rule(PolicyEventType::Exec, PolicyActionType::Allow, Some("/usr/bin/git"), Some("git push*")),
            rule(PolicyEventType::Exec, PolicyActionType::Block, None, None),
        ],
    );
    let compiled = p.compile();
    let exec = EventType::Exec.to_u8();

    assert!(matches!(
        compiled.match_event(exec, "/usr/bin/git", "git push origin main"),
        Some(PolicyActionType::Allow)
    ));
    // path matches but argv doesn't
    assert!(matches!(
        compiled.match_event(exec, "/usr/bin/git", "git status"),
        Some(PolicyActionType::Block)
    ));
    // argv matches but path doesn't
    assert!(matches!(
        compiled.match_event(exec, "/usr/bin/curl", "git push origin main"),
        Some(PolicyActionType::Block)
    ));
}

#[test]
fn policy_action_type_to_u8_roundtrip() {
    assert_eq!(PolicyActionType::Allow.to_u8(), PolicyAction::Allow.to_u8());
    assert_eq!(PolicyActionType::Block.to_u8(), PolicyAction::Block.to_u8());
    assert_eq!(PolicyActionType::Kill.to_u8(), PolicyAction::Kill.to_u8());
    assert_eq!(PolicyActionType::Audit.to_u8(), PolicyAction::Audit.to_u8());
}

#[test]
fn load_valid_policy_file() {
    let p = policy(
        "test-policy",
        "A test",
        vec![rule(PolicyEventType::Exec, PolicyActionType::Block, None, None)],
    );
    let result = validate_policy(&p);
    assert!(result.is_ok());
    assert_eq!(p.name, "test-policy");
}

#[test]
fn reject_empty_name() {
    let p = policy("", "bad", vec![rule(PolicyEventType::Exec, PolicyActionType::Block, None, None)]);
    let result = validate_policy(&p);
    assert!(result.is_err());
    assert!(result.unwrap_err().message().contains("name cannot be empty"));
}

#[test]
fn reject_empty_rules() {
    let p = policy("test", "no rules", vec![]);
    let result = validate_policy(&p);
    assert!(result.is_err());
    assert!(result.unwrap_err().message().contains("at least one rule"));
}

#[test]
fn reject_invalid_path_glob() {
    let p = policy(
        "test",
        "bad glob",
        vec![rule(PolicyEventType::Exec, PolicyActionType::Block, Some("[invalid"), None)],
    );
    let result = validate_policy(&p);
    assert!(result.is_err());
    assert!(result.unwrap_err().message().contains("invalid path glob"));
}

#[test]
fn reject_invalid_argv_glob() {
    let p = policy(
        "test",
        "bad argv glob",
        vec![rule(PolicyEventType::Exec, PolicyActionType::Block, None, Some("[unclosed"))],
    );
    let result = validate_policy(&p);
    assert!(result.is_err());
    assert!(result.unwrap_err().message().contains("invalid argv glob"));
}

#[test]
fn accept_valid_globs() {
    let p = policy(
        "test",
        "good globs",
        vec![
            rule(PolicyEventType::Exec, PolicyActionType::Allow, Some("/usr/bin/python*"), None),
            rule(PolicyEventType::Unlink, PolicyActionType::Block, Some("/etc/**"), None),
            rule(PolicyEventType::Connect, PolicyActionType::Allow, Some("127.0.0.1:*"), None),
        ],
    );
    assert!(validate_policy(&p).is_ok());
}

// ---- further cases of the library ----

#[test]
fn invalid_glob_message_names_rule_and_pattern() {
    let p = policy(
        "test",
        "second rule bad",
        vec![
            rule(PolicyEventType::Exec, PolicyActionType::Allow, Some("/usr/bin/*"), None),
            rule(PolicyEventType::Open, PolicyActionType::Block, Some("/ok/*"), Some("[bad")),
        ],
    );
    let err = validate_policy(&p).unwrap_err();
    assert!(matches!(err, PolicyError::InvalidArgvGlob { rule: 2, .. }));
    assert_eq!(err.message(), "invalid argv glob in rule 2: '[bad'");
}

#[test]
fn path_glob_checked_before_argv_glob() {
    let p = policy(
        "test",
        "both bad",
        vec![rule(PolicyEventType::Exec, PolicyActionType::Block, Some("[p"), Some("[a"))],
    );
    let err = validate_policy(&p).unwrap_err();
    assert_eq!(err.message(), "invalid path glob in rule 1: '[p'");
}

#[test]
fn empty_name_reported_before_missing_rules() {
    let err = validate_policy(&policy("", "nothing", vec![])).unwrap_err();
    assert!(matches!(err, PolicyError::EmptyName));
    assert_eq!(err.message(), "policy name cannot be empty");
    let err = validate_policy(&policy("x", "nothing", vec![])).unwrap_err();
    assert_eq!(err.message(), "policy must have at least one rule");
}

#[test]
fn invalid_pattern_is_dropped_when_compiling() {
    // an unparsable path pattern leaves the rule without a path filter
    let p = policy(
        "test",
        "dropped",
        vec![rule(PolicyEventType::Exec, PolicyActionType::Kill, Some("[bad"), None)],
    );
    let compiled = p.compile();
    let exec = EventType::Exec.to_u8();
    assert!(matches!(compiled.match_event(exec, "/anything", ""), Some(PolicyActionType::Kill)));
}

#[test]
fn latest_catch_all_rule_decides() {
    let p = policy(
        "test",
        "two defaults",
        vec![
            rule(PolicyEventType::Open, PolicyActionType::Block, None, None),
            rule(PolicyEventType::Open, PolicyActionType::Audit, None, None),
        ],
    );
    let open = EventType::Open.to_u8();
    assert!(matches!(p.compile().match_event(open, "/x", ""), Some(PolicyActionType::Audit)));
}

#[test]
fn pattern_rule_wins_over_earlier_catch_all() {
    let p = policy(
        "test",
        "order",
        vec![
            rule(PolicyEventType::Exec, PolicyActionType::Block, None, None),
            rule(PolicyEventType::Exec, PolicyActionType::Allow, Some("/bin/ls"), None),
        ],
    );
    let exec = EventType::Exec.to_u8();
    let compiled = p.compile();
    assert!(matches!(compiled.match_event(exec, "/bin/ls", ""), Some(PolicyActionType::Allow)));
    assert!(matches!(compiled.match_event(exec, "/bin/cat", ""), Some(PolicyActionType::Block)));
}

#[test]
fn coverage_of_empty_and_full_policies() {
    assert_eq!(policy("e", "", vec![]).event_types_covered(), 0);
    let all = vec![
        PolicyEventType::Exec,
        PolicyEventType::Open,
        PolicyEventType::Unlink,
        PolicyEventType::Rename,
        PolicyEventType::Connect,
        PolicyEventType::Ptrace,
        PolicyEventType::Fork,
        PolicyEventType::Exit,
        PolicyEventType::TaskKill,
        PolicyEventType::Exec,
    ];
    let rules = all.into_iter().map(|e| rule(e, PolicyActionType::Allow, None, None)).collect();
    assert_eq!(policy("f", "", rules).event_types_covered(), 9);
}

#[test]
fn rule_to_kernel_table_entry() {
    let mut r = rule(PolicyEventType::Connect, PolicyActionType::Kill, None, None);
    r.cgroup_id = 42;
    let key = r.to_policy_key();
    let value = r.to_policy_value();
    assert_eq!(key.cgroup_id, 42);
    assert_eq!(key.event_type, 4);
    assert_eq!(key._padding, [0u8; 7]);
    assert_eq!(value.action, 2);
    assert_eq!(PolicyEventType::TaskKill.to_u8(), 8);
    assert_eq!(PolicyEventType::Exec.to_u8(), 0);
}

fn simple(event_type: PolicyEventType, action: PolicyActionType) -> PolicyRule {
    rule(event_type, action, None, None)
}

#[test]
fn documented_example_policies_validate() {
    let strict = policy(
        "code-agent-strict",
        "Allows file I/O, blocks exec and network",
        vec![
            simple(PolicyEventType::Open, PolicyActionType::Allow),
            simple(PolicyEventType::Rename, PolicyActionType::Allow),
            simple(PolicyEventType::Unlink, PolicyActionType::Audit),
            simple(PolicyEventType::Exec, PolicyActionType::Block),
            simple(PolicyEventType::Connect, PolicyActionType::Block),
            simple(PolicyEventType::Ptrace, PolicyActionType::Block),
        ],
    );
    let audit = policy(
        "network-audit",
        "Full permissions except network is audited",
        vec![
            simple(PolicyEventType::Exec, PolicyActionType::Allow),
            simple(PolicyEventType::Open, PolicyActionType::Allow),
            simple(PolicyEventType::Unlink, PolicyActionType::Allow),
            simple(PolicyEventType::Rename, PolicyActionType::Allow),
            simple(PolicyEventType::Connect, PolicyActionType::Audit),
            simple(PolicyEventType::Ptrace, PolicyActionType::Block),
        ],
    );
    for p in [&strict, &audit] {
        assert!(validate_policy(p).is_ok());
        assert_eq!(p.event_types_covered(), 6);
    }
    let compiled = strict.compile();
    assert!(matches!(compiled.match_event(EventType::Open.to_u8(), "/work/a.txt", ""), Some(PolicyActionType::Allow)));
    assert!(matches!(compiled.match_event(EventType::Exec.to_u8(), "/bin/sh", "sh"), Some(PolicyActionType::Block)));
    // no rule speaks of signals: left to the kernel's default-deny
    assert!(compiled.match_event(EventType::TaskKill.to_u8(), "", "").is_none());
}

#[test]
fn deeply_nested_pattern_validates_and_is_dropped_by_compile() {
    let pattern = format!("{}a{}", "{".repeat(300), "}".repeat(300));
    let set = PolicySet {
        name: "nested".to_string(),
        description: String::new(),
        rules: vec![PolicyRule {
            event_type: PolicyEventType::Open,
            action: PolicyActionType::Block,
            cgroup_id: 0,
            path: Some(pattern),
            argv: None,
            description: String::new(),
        }],
    };
    assert!(validate_policy(&set).is_ok());
    let compiled = set.compile();
    assert_eq!(compiled.match_event(1, "a", ""), Some(PolicyActionType::Block));
    assert_eq!(compiled.match_event(1, "b", ""), Some(PolicyActionType::Block));
}
