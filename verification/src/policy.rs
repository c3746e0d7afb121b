//! Policy sets: rules, their kernel-table form, compilation and matching
//! against an observed operation, and validation.

use vstd::prelude::*;

use crate::common::{
    EventType, PolicyAction, PolicyKey, PolicyValue, action_code, event_code,
};
use crate::glob::{glob_matches, glob_new_ok, glob_parses, glob_usable, pattern_matches, pattern_usable};
use crate::text::{decimal, decimal_text};

verus! {

/// Event type as written in a policy file.
#[derive(Clone, Copy, Debug, PartialEq, Eq, Structural)]
pub enum PolicyEventType {
    Exec,
    Open,
    Unlink,
    Rename,
    Connect,
    Ptrace,
    Fork,
    Exit,
    TaskKill,
}

impl PolicyEventType {
    /// The kernel event type this policy event type stands for.
    pub open spec fn event_type(self) -> EventType {
        match self {
            PolicyEventType::Exec => EventType::Exec,
            PolicyEventType::Open => EventType::Open,
            PolicyEventType::Unlink => EventType::Unlink,
            PolicyEventType::Rename => EventType::Rename,
            PolicyEventType::Connect => EventType::Connect,
            PolicyEventType::Ptrace => EventType::Ptrace,
            PolicyEventType::Fork => EventType::Fork,
            PolicyEventType::Exit => EventType::Exit,
            PolicyEventType::TaskKill => EventType::TaskKill,
        }
    }

    /// The wire code of the event type.
    pub open spec fn code(self) -> u8 {
        event_code(self.event_type())
    }

    /// The wire code of the event type.
    pub fn to_u8(self) -> (r: u8)
        ensures
            r == self.code(),
    {
        match self {
            PolicyEventType::Exec => EventType::Exec.to_u8(),
            PolicyEventType::Open => EventType::Open.to_u8(),
            PolicyEventType::Unlink => EventType::Unlink.to_u8(),
            PolicyEventType::Rename => EventType::Rename.to_u8(),
            PolicyEventType::Connect => EventType::Connect.to_u8(),
            PolicyEventType::Ptrace => EventType::Ptrace.to_u8(),
            PolicyEventType::Fork => EventType::Fork.to_u8(),
            PolicyEventType::Exit => EventType::Exit.to_u8(),
            PolicyEventType::TaskKill => EventType::TaskKill.to_u8(),
        }
    }
}

/// Action as written in a policy file.
#[derive(Clone, Copy, Debug, PartialEq, Eq, Structural)]
pub enum PolicyActionType {
    Allow,
    Block,
    Kill,
    Audit,
}

impl PolicyActionType {
    /// The enforcement action this policy action stands for.
    pub open spec fn action(self) -> PolicyAction {
        match self {
            PolicyActionType::Allow => PolicyAction::Allow,
            PolicyActionType::Block => PolicyAction::Block,
            PolicyActionType::Kill => PolicyAction::Kill,
            PolicyActionType::Audit => PolicyAction::Audit,
        }
    }

    /// The wire code of the action.
    pub open spec fn code(self) -> u8 {
        action_code(self.action())
    }

    /// The wire code of the action.
    pub fn to_u8(self) -> (r: u8)
        ensures
            r == self.code(),
    {
        match self {
            PolicyActionType::Allow => PolicyAction::Allow.to_u8(),
            PolicyActionType::Block => PolicyAction::Block.to_u8(),
            PolicyActionType::Kill => PolicyAction::Kill.to_u8(),
            PolicyActionType::Audit => PolicyAction::Audit.to_u8(),
        }
    }
}

/// One rule of a policy.
#[derive(Clone, Debug)]
pub struct PolicyRule {
    pub event_type: PolicyEventType,
    pub action: PolicyActionType,
    pub cgroup_id: u64,
    pub path: Option<String>,
    pub argv: Option<String>,
    pub description: String,
}

impl PolicyRule {
    /// The kernel-table key of the rule.
    pub fn to_policy_key(&self) -> (r: PolicyKey)
        ensures
            r.cgroup_id == self.cgroup_id,
            r.event_type == self.event_type.code(),
            forall|i: int| 0 <= i < 7 ==> r._padding[i] == 0,
    {
        PolicyKey { cgroup_id: self.cgroup_id, event_type: self.event_type.to_u8(), _padding: [0u8; 7] }
    }

    /// The kernel-table value of the rule.
    pub fn to_policy_value(&self) -> (r: PolicyValue)
        ensures
            r.action == self.action.code(),
            forall|i: int| 0 <= i < 7 ==> r._padding[i] == 0,
    {
        PolicyValue { action: self.action.to_u8(), _padding: [0u8; 7] }
    }
}

/// A named set of rules.
#[derive(Clone, Debug)]
pub struct PolicySet {
    pub name: String,
    pub description: String,
    pub rules: Vec<PolicyRule>,
}

/// The event-type codes that some rule of `rules` covers.
pub open spec fn covered_codes(rules: Seq<PolicyRule>) -> Set<u8> {
    rules.map_values(|r: PolicyRule| r.event_type.code()).to_set()
}

/// The codes below `n` that `seen` marks.
spec fn marked_below(seen: Seq<bool>, n: int) -> Set<u8> {
    Set::new(|c: u8| (c as int) < n && seen[c as int])
}

/// How many of the first `n` flags of `seen` are set.
spec fn count_marked(seen: Seq<bool>, n: int) -> nat
    decreases n,
{
    if n <= 0 {
        0
    } else {
        count_marked(seen, n - 1) + if seen[n - 1] { 1nat } else { 0nat }
    }
}

proof fn lemma_marked_below_len(seen: Seq<bool>, n: int)
    requires
        0 <= n <= 256,
    ensures
        marked_below(seen, n).finite(),
        marked_below(seen, n).len() == count_marked(seen, n),
    decreases n,
{
    if n == 0 {
        assert(marked_below(seen, n) =~= Set::empty());
    } else {
        lemma_marked_below_len(seen, n - 1);
        let c = (n - 1) as u8;
        if seen[n - 1] {
            assert(marked_below(seen, n) =~= marked_below(seen, n - 1).insert(c));
            assert(!marked_below(seen, n - 1).contains(c));
        } else {
            assert(marked_below(seen, n) =~= marked_below(seen, n - 1));
        }
    }
}

/// Every event type a policy can name, in wire-code order.
pub open spec fn policy_event_types() -> Seq<PolicyEventType> {
    seq![
        PolicyEventType::Exec,
        PolicyEventType::Open,
        PolicyEventType::Unlink,
        PolicyEventType::Rename,
        PolicyEventType::Connect,
        PolicyEventType::Ptrace,
        PolicyEventType::Fork,
        PolicyEventType::Exit,
        PolicyEventType::TaskKill,
    ]
}

/// `a` is rule `b` with its action turned into `Audit`.
pub open spec fn audited_rule(a: PolicyRule, b: PolicyRule) -> bool {
    &&& a.event_type == b.event_type
    &&& a.action == PolicyActionType::Audit
    &&& a.cgroup_id == b.cgroup_id
    &&& a.path == b.path
    &&& a.argv == b.argv
    &&& a.description == b.description
}

/// `a` audits every operation of event type `et` in every cgroup.
pub open spec fn audit_catch_all(a: PolicyRule, et: PolicyEventType) -> bool {
    &&& a.event_type == et
    &&& a.action == PolicyActionType::Audit
    &&& a.cgroup_id == 0
    &&& a.path is None
    &&& a.argv is None
    &&& a.description@ == "audit-only: observe without blocking"@
}

/// `a` is the audit-only form of `rules`: each rule audited, in order, then
/// one audit catch-all for every cgroup per event type, in wire-code order.
pub open spec fn audit_only_rules(a: Seq<PolicyRule>, rules: Seq<PolicyRule>) -> bool {
    &&& a.len() == rules.len() + 9
    &&& forall|j: int| 0 <= j < rules.len() ==> audited_rule(#[trigger] a[j], rules[j])
    &&& forall|j: int|
        rules.len() <= j < a.len() ==> audit_catch_all(#[trigger] a[j], policy_event_types()[j - rules.len()])
}

impl PolicySet {
    /// The number of distinct event types the rules cover.
    pub fn event_types_covered(&self) -> (r: usize)
        ensures
            r == covered_codes(self.rules@).len(),
    {
        let mut seen = [false; 9];
        let mut i: usize = 0;
        while i < self.rules.len()
            invariant
                i <= self.rules.len(),
                forall|c: int|
                    0 <= c < 9 ==> (seen@[c] <==> exists|j: int|
                        0 <= j < i && #[trigger] self.rules@[j].event_type.code() == c),
            decreases self.rules.len() - i,
        {
            let idx = self.rules[i].event_type.to_u8() as usize;
            if idx < 9 {
                seen[idx] = true;
            }
            proof {
                assert forall|c: int| 0 <= c < 9 implies (seen@[c] <==> exists|j: int|
                    0 <= j < i + 1 && #[trigger] self.rules@[j].event_type.code() == c) by {
                    if seen@[c] && c != idx as int {
                        let j = choose|j: int| 0 <= j < i && #[trigger] self.rules@[j].event_type.code() == c;
                        assert(0 <= j < i + 1 && self.rules@[j].event_type.code() == c);
                    }
                    if c == idx as int {
                        assert(self.rules@[i as int].event_type.code() == c);
                    }
                }
            }
            i = i + 1;
        }
        let mut count: usize = 0;
        let mut k: usize = 0;
        while k < 9
            invariant
                k <= 9,
                count == count_marked(seen@, k as int),
                count <= k,
            decreases 9 - k,
        {
            if seen[k] {
                count = count + 1;
            }
            k = k + 1;
        }
        proof {
            lemma_marked_below_len(seen@, 9);
            let codes = covered_codes(self.rules@);
            assert forall|c: u8| codes.contains(c) <==> marked_below(seen@, 9).contains(c) by {
                let m = self.rules@.map_values(|r: PolicyRule| r.event_type.code());
                if codes.contains(c) {
                    let j = choose|j: int| 0 <= j < m.len() && m[j] == c;
                    assert(self.rules@[j].event_type.code() == c);
                    assert(c < 9);
                }
                if marked_below(seen@, 9).contains(c) {
                    let j = choose|j: int| 0 <= j < self.rules@.len() && #[trigger] self.rules@[j].event_type.code() == c;
                    assert(m[j] == c);
                }
            }
            assert(codes =~= marked_below(seen@, 9));
        }
        count
    }

    /// The policy for audit-only mode, which observes without blocking:
    /// every rule keeps its scope and patterns and its action becomes
    /// `Audit`, and for every event type a rule for every cgroup (0) with
    /// action `Audit` follows, so that no operation falls to default-deny.
    pub fn audit_only(&self) -> (r: PolicySet)
        ensures
            r.name == self.name,
            r.description == self.description,
            audit_only_rules(r.rules@, self.rules@),
    {
        let mut rules: Vec<PolicyRule> = Vec::new();
        let mut i: usize = 0;
        while i < self.rules.len()
            invariant
                i <= self.rules@.len(),
                rules@.len() == i,
                forall|j: int| 0 <= j < i ==> audited_rule(#[trigger] rules@[j], self.rules@[j]),
            decreases self.rules.len() - i,
        {
            let r = &self.rules[i];
            rules.push(
                PolicyRule {
                    event_type: r.event_type,
                    action: PolicyActionType::Audit,
                    cgroup_id: r.cgroup_id,
                    path: clone_opt(&r.path),
                    argv: clone_opt(&r.argv),
                    description: r.description.clone(),
                },
            );
            i = i + 1;
        }
        let all: [PolicyEventType; 9] = [
            PolicyEventType::Exec,
            PolicyEventType::Open,
            PolicyEventType::Unlink,
            PolicyEventType::Rename,
            PolicyEventType::Connect,
            PolicyEventType::Ptrace,
            PolicyEventType::Fork,
            PolicyEventType::Exit,
            PolicyEventType::TaskKill,
        ];
        assert(all@ =~= policy_event_types());
        let n = self.rules.len();
        let mut k: usize = 0;
        while k < 9
            invariant
                k <= 9,
                n == self.rules@.len(),
                all@ == policy_event_types(),
                rules@.len() == n + k,
                forall|j: int| 0 <= j < n ==> audited_rule(#[trigger] rules@[j], self.rules@[j]),
                forall|j: int| n <= j < n + k ==> audit_catch_all(#[trigger] rules@[j], all@[j - n]),
            decreases 9 - k,
        {
            rules.push(
                PolicyRule {
                    event_type: all[k],
                    action: PolicyActionType::Audit,
                    cgroup_id: 0,
                    path: None,
                    argv: None,
                    description: String::from_str("audit-only: observe without blocking"),
                },
            );
            k = k + 1;
        }
        PolicySet { name: self.name.clone(), description: self.description.clone(), rules }
    }

    /// Compiles the rules for matching: a path or argument pattern that is
    /// not usable (too long, or refused by globset) is dropped, so its rule
    /// acts without it.
    pub fn compile(&self) -> (r: CompiledPolicy)
        ensures
            r@ == self.rules@.map_values(|x: PolicyRule| compiled_rule(x)),
    {
        let mut entries: Vec<CompiledRule> = Vec::new();
        let mut i: usize = 0;
        while i < self.rules.len()
            invariant
                i <= self.rules.len(),
                entries@.len() == i,
                forall|j: int| 0 <= j < i ==> #[trigger] entries@[j].spec() == compiled_rule(self.rules@[j]),
            decreases self.rules.len() - i,
        {
            let rule = &self.rules[i];
            let path_pattern = usable_pattern(&rule.path);
            let argv_pattern = usable_pattern(&rule.argv);
            entries.push(
                CompiledRule {
                    event_type: rule.event_type.to_u8(),
                    action: rule.action,
                    path_pattern,
                    argv_pattern,
                },
            );
            i = i + 1;
        }
        let r = CompiledPolicy { entries };
        assert(r@ =~= self.rules@.map_values(|x: PolicyRule| compiled_rule(x)));
        r
    }
}

/// The text of an optional string.
pub open spec fn opt_text(o: Option<String>) -> Option<Seq<char>> {
    match o {
        Some(s) => Some(s@),
        None => None,
    }
}

/// The pattern that compilation keeps: the given one if it is usable,
/// else none.
pub open spec fn kept_pattern(o: Option<String>) -> Option<Seq<char>> {
    match o {
        Some(s) => if glob_usable(s@) {
            Some(s@)
        } else {
            None
        },
        None => None,
    }
}

fn clone_opt(o: &Option<String>) -> (r: Option<String>)
    ensures
        r == *o,
{
    match o {
        Some(s) => Some(s.clone()),
        None => None,
    }
}

fn usable_pattern(o: &Option<String>) -> (r: Option<String>)
    ensures
        opt_text(r) == kept_pattern(*o),
{
    match o {
        Some(p) => {
            if pattern_usable(p.as_str()) {
                Some(p.clone())
            } else {
                None
            }
        },
        None => None,
    }
}

/// A compiled rule, as the matching sees it.
pub struct RuleSpec {
    pub event_type: u8,
    pub action: PolicyActionType,
    pub path: Option<Seq<char>>,
    pub argv: Option<Seq<char>>,
}

/// The compiled form of a rule.
pub open spec fn compiled_rule(r: PolicyRule) -> RuleSpec {
    RuleSpec {
        event_type: r.event_type.code(),
        action: r.action,
        path: kept_pattern(r.path),
        argv: kept_pattern(r.argv),
    }
}

struct CompiledRule {
    event_type: u8,
    action: PolicyActionType,
    path_pattern: Option<String>,
    argv_pattern: Option<String>,
}

impl CompiledRule {
    spec fn spec(self) -> RuleSpec {
        RuleSpec {
            event_type: self.event_type,
            action: self.action,
            path: opt_text(self.path_pattern),
            argv: opt_text(self.argv_pattern),
        }
    }
}

/// A policy ready for matching observed operations.
pub struct CompiledPolicy {
    entries: Vec<CompiledRule>,
}

impl View for CompiledPolicy {
    type V = Seq<RuleSpec>;

    closed spec fn view(&self) -> Seq<RuleSpec> {
        self.entries@.map_values(|e: CompiledRule| e.spec())
    }
}

/// Whether a usable pattern matches a text.
pub open spec fn pattern_hits(p: Seq<char>, text: Seq<char>) -> bool {
    glob_usable(p) && glob_matches(p, text)
}

/// A rule with no path and no argument pattern for event type `et`.
pub open spec fn is_catch_all(r: RuleSpec, et: u8) -> bool {
    r.event_type == et && r.path is None && r.argv is None
}

/// A rule with a pattern for event type `et` whose patterns all match.
pub open spec fn rule_hits(r: RuleSpec, et: u8, path: Seq<char>, argv: Seq<char>) -> bool {
    r.event_type == et && match (r.path, r.argv) {
        (None, None) => false,
        (Some(p), None) => pattern_hits(p, path),
        (None, Some(a)) => pattern_hits(a, argv),
        (Some(p), Some(a)) => pattern_hits(p, path) && pattern_hits(a, argv),
    }
}

/// The action of the earliest rule with patterns that hits.
pub open spec fn first_hit(rules: Seq<RuleSpec>, et: u8, path: Seq<char>, argv: Seq<char>) -> Option<
    PolicyActionType,
>
    decreases rules.len(),
{
    if rules.len() == 0 {
        None
    } else {
        match first_hit(rules.drop_last(), et, path, argv) {
            Some(a) => Some(a),
            None => if rule_hits(rules.last(), et, path, argv) {
                Some(rules.last().action)
            } else {
                None
            },
        }
    }
}

/// The action of the latest catch-all rule for `et`.
pub open spec fn last_catch_all(rules: Seq<RuleSpec>, et: u8) -> Option<PolicyActionType>
    decreases rules.len(),
{
    if rules.len() == 0 {
        None
    } else if is_catch_all(rules.last(), et) {
        Some(rules.last().action)
    } else {
        last_catch_all(rules.drop_last(), et)
    }
}

/// The action a compiled policy gives an operation: that of the earliest
/// rule whose patterns match; failing that, that of the latest rule for the
/// event type with no pattern; failing that, none.
pub open spec fn match_spec(rules: Seq<RuleSpec>, et: u8, path: Seq<char>, argv: Seq<char>) -> Option<
    PolicyActionType,
> {
    match first_hit(rules, et, path, argv) {
        Some(a) => Some(a),
        None => last_catch_all(rules, et),
    }
}

proof fn lemma_first_hit_prefix(rules: Seq<RuleSpec>, k: int, et: u8, path: Seq<char>, argv: Seq<char>)
    requires
        0 <= k <= rules.len(),
        first_hit(rules.take(k), et, path, argv) is Some,
    ensures
        first_hit(rules, et, path, argv) == first_hit(rules.take(k), et, path, argv),
    decreases rules.len() - k,
{
    if k < rules.len() {
        assert(rules.drop_last().take(k) =~= rules.take(k));
        lemma_first_hit_prefix(rules.drop_last(), k, et, path, argv);
    } else {
        assert(rules.take(k) =~= rules);
    }
}

impl CompiledPolicy {
    /// The action the policy gives an operation of event type `event_type`
    /// on `path` with arguments `argv`, if any rule speaks of it.
    pub fn match_event(&self, event_type: u8, path: &str, argv: &str) -> (r: Option<PolicyActionType>)
        ensures
            r == match_spec(self@, event_type, path@, argv@),
    {
        let ghost rules = self@;
        let mut default_action: Option<PolicyActionType> = None;
        let mut i: usize = 0;
        while i < self.entries.len()
            invariant
                i <= self.entries.len(),
                rules == self@,
                rules.len() == self.entries.len(),
                default_action == last_catch_all(rules.take(i as int), event_type),
                first_hit(rules.take(i as int), event_type, path@, argv@) is None,
            decreases self.entries.len() - i,
        {
            let rule = &self.entries[i];
            proof {
                assert(rules.take(i + 1).drop_last() =~= rules.take(i as int));
                assert(rules.take(i + 1).last() == rules[i as int]);
                assert(rules[i as int] == rule.spec());
            }
            if rule.event_type == event_type {
                match &rule.path_pattern {
                    None => match &rule.argv_pattern {
                        None => {
                            default_action = Some(rule.action);
                        },
                        Some(am) => {
                            if pattern_matches(am.as_str(), argv) {
                                proof {
                                    lemma_first_hit_prefix(rules, i + 1, event_type, path@, argv@);
                                }
                                return Some(rule.action);
                            }
                        },
                    },
                    Some(pm) => match &rule.argv_pattern {
                        None => {
                            if pattern_matches(pm.as_str(), path) {
                                proof {
                                    lemma_first_hit_prefix(rules, i + 1, event_type, path@, argv@);
                                }
                                return Some(rule.action);
                            }
                        },
                        Some(am) => {
                            if pattern_matches(pm.as_str(), path) && pattern_matches(am.as_str(), argv) {
                                proof {
                                    lemma_first_hit_prefix(rules, i + 1, event_type, path@, argv@);
                                }
                                return Some(rule.action);
                            }
                        },
                    },
                }
            }
            i = i + 1;
        }
        proof {
            assert(rules.take(i as int) =~= rules);
        }
        default_action
    }
}

/// Why a policy set is refused.
#[derive(Clone, Debug)]
pub enum PolicyError {
    EmptyName,
    NoRules,
    /// The path pattern of rule `rule` (counted from 1) is refused.
    InvalidPathGlob { rule: usize, pattern: String },
    /// The argument pattern of rule `rule` (counted from 1) is refused.
    InvalidArgvGlob { rule: usize, pattern: String },
}

/// A pattern that is either absent or parsed by globset.
pub open spec fn pattern_ok(o: Option<String>) -> bool {
    match o {
        Some(p) => glob_parses(p@),
        None => true,
    }
}

/// Both patterns of the rule are absent or parsed by globset.
pub open spec fn rule_patterns_ok(r: PolicyRule) -> bool {
    pattern_ok(r.path) && pattern_ok(r.argv)
}

/// The text of a refusal.
pub open spec fn error_text(e: PolicyError) -> Seq<char> {
    match e {
        PolicyError::EmptyName => "policy name cannot be empty"@,
        PolicyError::NoRules => "policy must have at least one rule"@,
        PolicyError::InvalidPathGlob { rule, pattern } => "invalid path glob in rule "@ + decimal_text(
            rule as nat,
        ) + ": '"@ + pattern@ + "'"@,
        PolicyError::InvalidArgvGlob { rule, pattern } => "invalid argv glob in rule "@ + decimal_text(
            rule as nat,
        ) + ": '"@ + pattern@ + "'"@,
    }
}

impl PolicyError {
    /// The human-readable text of the refusal.
    pub fn message(&self) -> (r: String)
        ensures
            r@ == error_text(*self),
    {
        match self {
            PolicyError::EmptyName => String::from_str("policy name cannot be empty"),
            PolicyError::NoRules => String::from_str("policy must have at least one rule"),
            PolicyError::InvalidPathGlob { rule, pattern } => {
                let mut s = String::from_str("invalid path glob in rule ");
                s.append(decimal(*rule as u64).as_str());
                s.append(": '");
                s.append(pattern.as_str());
                s.append("'");
                s
            },
            PolicyError::InvalidArgvGlob { rule, pattern } => {
                let mut s = String::from_str("invalid argv glob in rule ");
                s.append(decimal(*rule as u64).as_str());
                s.append(": '");
                s.append(pattern.as_str());
                s.append("'");
                s
            },
        }
    }
}

/// Checks a policy set before it is used: its name must not be empty, it
/// must have a rule, and every path and argument pattern must parse as a
/// globset pattern (`Glob::new`). Rules are checked in order, the path pattern of a
/// rule before its argument pattern; the first refusal is returned.
pub fn validate_policy(policy: &PolicySet) -> (r: Result<(), PolicyError>)
    ensures
        (r matches Err(PolicyError::EmptyName)) <==> policy.name@.len() == 0,
        (r matches Err(PolicyError::NoRules)) <==> (policy.name@.len() != 0 && policy.rules@.len() == 0),
        r is Ok <==> (policy.name@.len() != 0 && policy.rules@.len() != 0 && forall|i: int|
            0 <= i < policy.rules@.len() ==> rule_patterns_ok(#[trigger] policy.rules@[i])),
        r matches Err(PolicyError::InvalidPathGlob { rule, pattern }) ==> {
            &&& 1 <= rule <= policy.rules@.len()
            &&& forall|j: int| 0 <= j < rule - 1 ==> rule_patterns_ok(#[trigger] policy.rules@[j])
            &&& opt_text(policy.rules@[rule - 1].path) == Some(pattern@)
            &&& !glob_parses(pattern@)
        },
        r matches Err(PolicyError::InvalidArgvGlob { rule, pattern }) ==> {
            &&& 1 <= rule <= policy.rules@.len()
            &&& forall|j: int| 0 <= j < rule - 1 ==> rule_patterns_ok(#[trigger] policy.rules@[j])
            &&& pattern_ok(policy.rules@[rule - 1].path)
            &&& opt_text(policy.rules@[rule - 1].argv) == Some(pattern@)
            &&& !glob_parses(pattern@)
        },
{
    if policy.name.as_str().is_empty() {
        return Err(PolicyError::EmptyName);
    }
    if policy.rules.len() == 0 {
        return Err(PolicyError::NoRules);
    }
    let mut i: usize = 0;
    while i < policy.rules.len()
        invariant
            i <= policy.rules@.len(),
            policy.name@.len() != 0,
            forall|j: int| 0 <= j < i ==> rule_patterns_ok(#[trigger] policy.rules@[j]),
        decreases policy.rules.len() - i,
    {
        let rule = &policy.rules[i];
        match &rule.path {
            Some(pattern) => {
                if !glob_new_ok(pattern.as_str()) {
                    return Err(PolicyError::InvalidPathGlob { rule: i + 1, pattern: pattern.clone() });
                }
            },
            None => {},
        }
        match &rule.argv {
            Some(pattern) => {
                if !glob_new_ok(pattern.as_str()) {
                    return Err(PolicyError::InvalidArgvGlob { rule: i + 1, pattern: pattern.clone() });
                }
            },
            None => {},
        }
        i = i + 1;
    }
    Ok(())
}

} // verus!
