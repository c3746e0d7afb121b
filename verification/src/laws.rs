//! Properties of the library as a whole: default-deny enforcement, the
//! generation stamp, rule matching, and what the pieces tell each other.

use vstd::prelude::*;

use crate::bytes::{
    lemma_u16_bytes_roundtrip, lemma_u32_bytes_roundtrip, lemma_u64_bytes_roundtrip,
    lemma_uint2_window, lemma_uint4_window, lemma_uint8_window, machine_is_little, u16_bytes,
    u32_bytes, u64_bytes, uint2, uint4, uint8,
};
use crate::events::{NT_EVENT_SIZE, laid_out, record_bytes};
use crate::common::{
    EventType, GenerationCounter, MAX_LABELS_PER_PROCESS, NtEvent, PolicyAction, PolicyValue,
    ProcessLabels, ViolationFeedback, action_code, action_of_code, event_code, event_name,
    event_of_code,
};
use crate::enforcement::{
    DENIED, generation_ok, label_fresh, labels_fresh, next_generation, policy_decision,
    record_header, signal_record, task_kill_verdict, verdict_for,
};
use crate::feedback::{effect_text, reports, sockaddr_text, target_text};
use crate::glob::{MAX_PATTERN_CHARS, glob_builds};
use crate::labels::{existing_count, label_added};
use crate::policy::{
    PolicyActionType, PolicyRule, RuleSpec, audit_only_rules, compiled_rule, covered_codes, first_hit, is_catch_all,
    last_catch_all, match_spec, pattern_hits, rule_hits, rule_patterns_ok,
};
use crate::text::decimal_text;

verus! {

/// The action of the latest rule for cgroup `cgroup` and event code `code`:
/// what the policy table holds for that key once the rules are inserted in
/// order, a later rule replacing an earlier one with the same key.
pub open spec fn last_rule_action(rules: Seq<PolicyRule>, cgroup: u64, code: u8) -> Option<
    PolicyActionType,
>
    decreases rules.len(),
{
    if rules.len() == 0 {
        None
    } else if rules.last().cgroup_id == cgroup && rules.last().event_type.code() == code {
        Some(rules.last().action)
    } else {
        last_rule_action(rules.drop_last(), cgroup, code)
    }
}

/// The action code a table lookup returned, if any.
pub open spec fn entry_code(e: Option<PolicyValue>) -> Option<u8> {
    match e {
        Some(v) => Some(v.action),
        None => None,
    }
}

/// The action code a rule action is stored as, if any.
pub open spec fn stored_code(a: Option<PolicyActionType>) -> Option<u8> {
    match a {
        Some(x) => Some(x.code()),
        None => None,
    }
}

/// The action the kernel takes for cgroup `cgroup` and event code `code`
/// under the loaded rules: the latest rule for that cgroup, else the latest
/// rule for every cgroup (0), else block.
pub open spec fn loaded_action(rules: Seq<PolicyRule>, cgroup: u64, code: u8) -> PolicyAction {
    match last_rule_action(rules, cgroup, code) {
        Some(a) => a.action(),
        None => match last_rule_action(rules, 0, code) {
            Some(a) => a.action(),
            None => PolicyAction::Block,
        },
    }
}

proof fn lemma_stored_code_decodes(a: PolicyActionType)
    ensures
        action_of_code(a.code()) == a.action(),
{
}

proof fn lemma_last_rule_action_none(rules: Seq<PolicyRule>, cgroup: u64, code: u8)
    ensures
        last_rule_action(rules, cgroup, code) is None <==> forall|i: int|
            0 <= i < rules.len() ==> !(#[trigger] rules[i].cgroup_id == cgroup
                && rules[i].event_type.code() == code),
    decreases rules.len(),
{
    if rules.len() > 0 {
        let d = rules.drop_last();
        let n = rules.len() - 1;
        lemma_last_rule_action_none(d, cgroup, code);
        assert(rules[n] == rules.last());
        if rules.last().cgroup_id == cgroup && rules.last().event_type.code() == code {
            assert(rules[n].cgroup_id == cgroup && rules[n].event_type.code() == code);
        } else {
            if last_rule_action(d, cgroup, code) is None {
                assert forall|i: int| 0 <= i < rules.len() implies !(#[trigger] rules[i].cgroup_id == cgroup
                    && rules[i].event_type.code() == code) by {
                    if i < n {
                        assert(d[i] == rules[i]);
                    }
                }
            } else {
                let i = choose|i: int| 0 <= i < d.len() && #[trigger] d[i].cgroup_id == cgroup
                    && d[i].event_type.code() == code;
                assert(d[i] == rules[i]);
                assert(rules[i].cgroup_id == cgroup && rules[i].event_type.code() == code);
            }
        }
    }
}

/// Once a policy is loaded, the kernel's action for an operation in cgroup
/// `cgroup` of event code `code` is the action of the latest rule for that
/// cgroup; failing that, of the latest rule for every cgroup; failing that,
/// the operation is blocked.
pub proof fn law_loaded_policy_decides(
    rules: Seq<PolicyRule>,
    cgroup: u64,
    code: u8,
    cgroup_entry: Option<PolicyValue>,
    global_entry: Option<PolicyValue>,
)
    requires
        entry_code(cgroup_entry) == stored_code(last_rule_action(rules, cgroup, code)),
        entry_code(global_entry) == stored_code(last_rule_action(rules, 0, code)),
    ensures
        policy_decision(false, cgroup_entry, global_entry) == loaded_action(rules, cgroup, code),
{
    match last_rule_action(rules, cgroup, code) {
        Some(a) => lemma_stored_code_decodes(a),
        None => match last_rule_action(rules, 0, code) {
            Some(a) => lemma_stored_code_decodes(a),
            None => {},
        },
    }
}

/// Default-deny: an operation that no rule speaks of, neither for its
/// cgroup nor for every cgroup, is blocked.
pub proof fn law_default_deny(rules: Seq<PolicyRule>, cgroup: u64, code: u8)
    requires
        forall|i: int|
            0 <= i < rules.len() ==> #[trigger] rules[i].event_type.code() != code || (
            rules[i].cgroup_id != cgroup && rules[i].cgroup_id != 0),
    ensures
        loaded_action(rules, cgroup, code) == PolicyAction::Block,
        policy_decision(false, None, None) == PolicyAction::Block,
{
    lemma_last_rule_action_none(rules, cgroup, code);
    lemma_last_rule_action_none(rules, 0, code);
}

/// A rule for the process's own cgroup overrides a rule for every cgroup.
pub proof fn law_cgroup_rule_overrides_global(rules: Seq<PolicyRule>, cgroup: u64, code: u8, i: int)
    requires
        0 <= i < rules.len(),
        rules[i].cgroup_id == cgroup,
        rules[i].event_type.code() == code,
        forall|j: int|
            i < j < rules.len() ==> !(#[trigger] rules[j].cgroup_id == cgroup && rules[j].event_type.code()
                == code),
    ensures
        last_rule_action(rules, cgroup, code) == Some(rules[i].action),
        loaded_action(rules, cgroup, code) == rules[i].action.action(),
    decreases rules.len(),
{
    let n = rules.len() - 1;
    assert(rules[n] == rules.last());
    if i < n {
        let d = rules.drop_last();
        assert forall|j: int| i < j < d.len() implies !(#[trigger] d[j].cgroup_id == cgroup
            && d[j].event_type.code() == code) by {
            assert(d[j] == rules[j]);
        }
        assert(d[i] == rules[i]);
        law_cgroup_rule_overrides_global(d, cgroup, code, i);
        assert(!(rules[n].cgroup_id == cgroup && rules[n].event_type.code() == code));
        assert(last_rule_action(rules, cgroup, code) == last_rule_action(d, cgroup, code));
    }
}

/// An unknown action code is treated as a block.
pub proof fn law_unknown_action_code_blocks(v: u8)
    requires
        v > 3,
    ensures
        action_of_code(v) == PolicyAction::Block,
{
}

/// Every action survives the trip through its wire code.
pub proof fn law_action_code_roundtrip(a: PolicyAction)
    ensures
        action_of_code(action_code(a)) == a,
{
}

/// Every event type survives the trip through its wire code.
pub proof fn law_event_code_roundtrip(e: EventType)
    ensures
        event_of_code(event_code(e)) == e,
{
}

/// A process on the allow-list (the controller) is never stopped by policy.
pub proof fn law_allowlisted_always_allowed(cgroup_entry: Option<PolicyValue>, global_entry: Option<PolicyValue>)
    ensures
        policy_decision(true, cgroup_entry, global_entry) == PolicyAction::Allow,
{
}

/// A stale generation refuses the operation even when the policy allows it,
/// and reports it as a block.
pub proof fn law_stale_generation_blocks(action: PolicyAction)
    ensures
        verdict_for(action, false).ret == DENIED,
        verdict_for(action, false).emit == Some(PolicyAction::Block),
{
}

/// A hook lets an operation through exactly when the generation is fresh
/// and the action is allow or audit, and it emits a violation record exactly
/// when the outcome is not a silent allow.
pub proof fn law_hook_outcomes(action: PolicyAction, fresh: bool)
    ensures
        (verdict_for(action, fresh).ret == 0) <==> (fresh && (action == PolicyAction::Allow || action
            == PolicyAction::Audit)),
        verdict_for(action, fresh).ret == 0 || verdict_for(action, fresh).ret == DENIED,
        (verdict_for(action, fresh).emit is None) <==> (fresh && action == PolicyAction::Allow),
{
}

/// Self-protection: a signal from outside the allow-list to a process on
/// it (the controller) is refused and reported, whatever the policy says.
pub proof fn law_controller_cannot_be_signalled(target: u32, action: PolicyAction, fresh: bool)
    ensures
        task_kill_verdict(false, Some(target), true, action, fresh).ret == DENIED,
        task_kill_verdict(false, Some(target), true, action, fresh).emit == Some(PolicyAction::Block),
{
}

/// The controller bypass: a sender on the allow-list may always signal,
/// and no record is emitted, whatever its labels, the target or the policy.
pub proof fn law_allowlisted_sender_may_signal(
    target_pid: Option<u32>,
    target_allowlisted: bool,
    action: PolicyAction,
    fresh: bool,
)
    ensures
        task_kill_verdict(true, target_pid, target_allowlisted, action, fresh).ret == 0,
        task_kill_verdict(true, target_pid, target_allowlisted, action, fresh).emit is None,
{
}

/// Stale labels block signals too: a sender that is not on the allow-list
/// and whose labels are stale is refused and reported as a block when it
/// signals a process that could be read, whatever the target or the policy.
pub proof fn law_stale_generation_blocks_signals(target: u32, target_allowlisted: bool, action: PolicyAction)
    ensures
        task_kill_verdict(false, Some(target), target_allowlisted, action, false).ret == DENIED,
        task_kill_verdict(false, Some(target), target_allowlisted, action, false).emit == Some(
            PolicyAction::Block,
        ),
{
}

/// A process with no labels, or a system with no generation counter,
/// passes the generation check.
pub proof fn law_no_labels_pass(current: Option<GenerationCounter>, labels: Option<ProcessLabels>)
    requires
        current is None || labels is None,
    ensures
        generation_ok(current, labels),
{
}

/// A label of generation 0 is unversioned: it never goes stale.
pub proof fn law_generation_zero_never_stale(current: u32)
    ensures
        label_fresh(0, current),
{
}

/// After a task boundary, every process holding a label of the generation
/// that just ended (other than 0) fails the generation check.
pub proof fn law_bump_makes_labels_stale(g: u32, l: ProcessLabels, i: int)
    requires
        0 <= i < l.count,
        i < MAX_LABELS_PER_PROCESS,
        l.labels[i].generation == g,
        g != 0,
    ensures
        !generation_ok(Some(GenerationCounter { current: next_generation(Some(GenerationCounter { current: g })) }), Some(l)),
{
    assert(!label_fresh(l.labels[i].generation, next_generation(Some(GenerationCounter { current: g }))));
}

/// Labels all stamped with the current generation pass the check.
pub proof fn law_current_labels_fresh(g: u32, l: ProcessLabels)
    requires
        forall|i: int|
            0 <= i < l.count && i < MAX_LABELS_PER_PROCESS ==> #[trigger] l.labels[i].generation == g,
    ensures
        generation_ok(Some(GenerationCounter { current: g }), Some(l)),
{
}

/// A label given in the current generation keeps a process's labels fresh:
/// if they were fresh before (or the process had none), they still are.
pub proof fn law_new_label_is_fresh(existing: Option<ProcessLabels>, l: ProcessLabels, bytes: Seq<u8>, g: u32)
    requires
        label_added(existing, l, bytes, g),
        existing matches Some(o) ==> labels_fresh(o, g),
    ensures
        labels_fresh(l, g),
        generation_ok(Some(GenerationCounter { current: g }), Some(l)),
{
    let n = existing_count(existing);
    assert forall|i: int| 0 <= i < l.count && i < MAX_LABELS_PER_PROCESS implies label_fresh(
        #[trigger] l.labels[i].generation,
        g,
    ) by {
        if i != n {
            match existing {
                Some(o) => {
                    assert(l.labels[i] == o.labels[i]);
                },
                None => {},
            }
        }
    }
}

/// Giving a label never drops or changes the labels a process already has,
/// and the number of labels grows by one.
pub proof fn law_labels_accumulate(o: ProcessLabels, l: ProcessLabels, bytes: Seq<u8>, g: u32, i: int)
    requires
        label_added(Some(o), l, bytes, g),
        0 <= i < o.count,
        i < MAX_LABELS_PER_PROCESS,
    ensures
        l.labels[i] == o.labels[i],
        l.count == o.count + 1,
{
}

/// Matching: when no rule is for the operation's event type, no rule
/// speaks of the operation.
pub proof fn law_no_rule_for_event_type(rules: Seq<RuleSpec>, et: u8, path: Seq<char>, argv: Seq<char>)
    requires
        forall|i: int| 0 <= i < rules.len() ==> #[trigger] rules[i].event_type != et,
    ensures
        match_spec(rules, et, path, argv) is None,
    decreases rules.len(),
{
    if rules.len() > 0 {
        let d = rules.drop_last();
        assert forall|i: int| 0 <= i < d.len() implies #[trigger] d[i].event_type != et by {
            assert(d[i] == rules[i]);
        }
        law_no_rule_for_event_type(d, et, path, argv);
        assert(rules.last() == rules[rules.len() - 1]);
    }
}

proof fn lemma_first_hit_from_rule(rules: Seq<RuleSpec>, et: u8, path: Seq<char>, argv: Seq<char>)
    ensures
        first_hit(rules, et, path, argv) matches Some(a) ==> exists|i: int|
            0 <= i < rules.len() && #[trigger] rules[i].event_type == et && rules[i].action == a,
    decreases rules.len(),
{
    if rules.len() > 0 {
        let d = rules.drop_last();
        lemma_first_hit_from_rule(d, et, path, argv);
        assert(rules.last() == rules[rules.len() - 1]);
        if let Some(a) = first_hit(d, et, path, argv) {
            let i = choose|i: int| 0 <= i < d.len() && #[trigger] d[i].event_type == et && d[i].action == a;
            assert(rules[i] == d[i]);
        }
    }
}

proof fn lemma_catch_all_from_rule(rules: Seq<RuleSpec>, et: u8)
    ensures
        last_catch_all(rules, et) matches Some(a) ==> exists|i: int|
            0 <= i < rules.len() && #[trigger] rules[i].event_type == et && rules[i].action == a,
    decreases rules.len(),
{
    if rules.len() > 0 {
        let d = rules.drop_last();
        lemma_catch_all_from_rule(d, et);
        assert(rules.last() == rules[rules.len() - 1]);
        if !is_catch_all(rules.last(), et) {
            if let Some(a) = last_catch_all(d, et) {
                let i = choose|i: int| 0 <= i < d.len() && #[trigger] d[i].event_type == et && d[i].action == a;
                assert(rules[i] == d[i]);
            }
        }
    }
}

/// Matching: the action found is always that of some rule for the
/// operation's event type.
pub proof fn law_match_comes_from_a_rule(rules: Seq<RuleSpec>, et: u8, path: Seq<char>, argv: Seq<char>)
    ensures
        match_spec(rules, et, path, argv) matches Some(a) ==> exists|i: int|
            0 <= i < rules.len() && #[trigger] rules[i].event_type == et && rules[i].action == a,
{
    lemma_first_hit_from_rule(rules, et, path, argv);
    lemma_catch_all_from_rule(rules, et);
}

/// Matching: a rule with patterns that all match wins over every rule
/// without patterns, wherever they stand; the earliest such rule decides.
pub proof fn law_pattern_rule_wins(rules: Seq<RuleSpec>, et: u8, path: Seq<char>, argv: Seq<char>, i: int)
    requires
        0 <= i < rules.len(),
        rule_hits(rules[i], et, path, argv),
        forall|j: int| 0 <= j < i ==> !rule_hits(#[trigger] rules[j], et, path, argv),
    ensures
        first_hit(rules, et, path, argv) == Some(rules[i].action),
        match_spec(rules, et, path, argv) == Some(rules[i].action),
    decreases rules.len(),
{
    let d = rules.drop_last();
    if i < rules.len() - 1 {
        assert forall|j: int| 0 <= j < i implies !rule_hits(#[trigger] d[j], et, path, argv) by {
            assert(d[j] == rules[j]);
        }
        assert(d[i] == rules[i]);
        law_pattern_rule_wins(d, et, path, argv, i);
    } else {
        lemma_first_hit_none_before(rules, et, path, argv, i);
        assert(rules.take(i) =~= d);
        assert(rules.last() == rules[i]);
    }
}

proof fn lemma_first_hit_none_before(rules: Seq<RuleSpec>, et: u8, path: Seq<char>, argv: Seq<char>, n: int)
    requires
        0 <= n <= rules.len(),
        forall|j: int| 0 <= j < n ==> !rule_hits(#[trigger] rules[j], et, path, argv),
    ensures
        first_hit(rules.take(n), et, path, argv) is None,
    decreases n,
{
    if n > 0 {
        let t = rules.take(n);
        assert(t.drop_last() =~= rules.take(n - 1));
        lemma_first_hit_none_before(rules, et, path, argv, n - 1);
        assert(t.last() == rules[n - 1]);
    }
    if n == rules.len() {
        assert(rules.take(n) =~= rules);
    }
}

/// Compilation keeps every pattern of a policy that passes validation,
/// except one too long for the matcher or whose matcher globset cannot
/// compile; such a pattern is dropped and its rule acts without it.
pub proof fn law_valid_policy_keeps_patterns(rules: Seq<PolicyRule>)
    requires
        forall|i: int| 0 <= i < rules.len() ==> rule_patterns_ok(#[trigger] rules[i]),
    ensures
        forall|i: int|
            0 <= i < rules.len() ==> match (#[trigger] rules[i]).path {
                Some(p) => compiled_rule(rules[i]).path == (if p@.len() <= MAX_PATTERN_CHARS
                    && glob_builds(p@) {
                    Some(p@)
                } else {
                    None
                }),
                None => compiled_rule(rules[i]).path is None,
            },
        forall|i: int|
            0 <= i < rules.len() ==> match (#[trigger] rules[i]).argv {
                Some(a) => compiled_rule(rules[i]).argv == (if a@.len() <= MAX_PATTERN_CHARS
                    && glob_builds(a@) {
                    Some(a@)
                } else {
                    None
                }),
                None => compiled_rule(rules[i]).argv is None,
            },
{
    assert forall|i: int| 0 <= i < rules.len() implies rule_patterns_ok(#[trigger] rules[i]) by {}
}

/// The number of event types a policy covers is at most the number of its
/// rules and at most the nine event types; it is zero only without rules.
pub proof fn law_coverage_bounds(rules: Seq<PolicyRule>)
    ensures
        covered_codes(rules).len() <= rules.len(),
        covered_codes(rules).len() <= 9,
        covered_codes(rules).len() == 0 <==> rules.len() == 0,
{
    let m = rules.map_values(|r: PolicyRule| r.event_type.code());
    m.lemma_cardinality_of_set();
    m.lemma_cardinality_of_empty_set_is_0();
    let all = Set::new(|c: u8| c < 9);
    assert(covered_codes(rules).subset_of(all)) by {
        assert forall|c: u8| covered_codes(rules).contains(c) implies all.contains(c) by {
            let j = choose|j: int| 0 <= j < m.len() && m[j] == c;
            assert(rules[j].event_type.code() == c);
        }
    }
    assert(all =~= Set::new(|c: u8| 0 <= c && c < 9));
    lemma_nine_codes();
    vstd::set_lib::lemma_len_subset(covered_codes(rules), all);
}

proof fn lemma_nine_codes()
    ensures
        Set::new(|c: u8| c < 9).finite(),
        Set::new(|c: u8| c < 9).len() == 9,
{
    let s = Set::new(|c: u8| c < 9);
    assert(s =~= set![0u8, 1u8, 2u8, 3u8, 4u8, 5u8, 6u8, 7u8, 8u8]);
}

/// The target process of a signal, written into a violation record by the
/// kernel side, is read back by the feedback as `pid:<target>`, whatever the
/// byte order (as long as both sides use the same).
pub proof fn law_signal_target_roundtrip(ev: NtEvent, target: u32, little: bool)
    requires
        ev.argv_len == 4,
        ev.argv@.subrange(0, 4) == u32_bytes(target, little),
    ensures
        target_text(ev, EventType::TaskKill, little) == "pid:"@ + decimal_text(target as nat),
{
    lemma_u32_bytes_roundtrip(target, little);
    assert(uint4(ev.argv@, 0, little) == uint4(u32_bytes(target, little), 0, little)) by {
        let s = ev.argv@.subrange(0, 4);
        assert(s[0] == ev.argv@[0] && s[1] == ev.argv@[1] && s[2] == ev.argv@[2] && s[3] == ev.argv@[3]);
    }
}

/// The feedback on a record a hook emitted names the process that was
/// stopped or observed, the hook, what was done and the kernel time of the
/// operation.
pub proof fn law_feedback_names_process(
    fb: ViolationFeedback,
    e: NtEvent,
    pid: u32,
    tgid: u32,
    event_type: EventType,
    action: PolicyAction,
    timestamp_ns: u64,
)
    requires
        record_header(e, pid, tgid, event_type, action, timestamp_ns),
        reports(fb, e, machine_is_little()),
    ensures
        fb.pid == pid,
        fb.timestamp_ns == timestamp_ns,
        fb.hook@ == event_name(event_type),
        fb.effect@ == effect_text(action),
{
}

/// The feedback on a signal record names the process the signal was aimed
/// at as `pid:<target>`.
pub proof fn law_feedback_names_signal_target(
    fb: ViolationFeedback,
    e: NtEvent,
    pid: u32,
    tgid: u32,
    action: PolicyAction,
    timestamp_ns: u64,
    target: u32,
)
    requires
        signal_record(e, pid, tgid, action, timestamp_ns, Some(target)),
        reports(fb, e, machine_is_little()),
    ensures
        fb.target@ == "pid:"@ + decimal_text(target as nat),
{
    let little = machine_is_little();
    assert(e.argv@.subrange(0, 4) =~= u32_bytes(target, little)) by {
        assert forall|i: int| 0 <= i < 4 implies e.argv@.subrange(0, 4)[i] == u32_bytes(target, little)[i] by {
            assert(e.argv[i] == u32_bytes(target, little)[i]);
        }
    }
    law_signal_target_roundtrip(e, target, little);
}

proof fn lemma_all_audit(rules: Seq<PolicyRule>, cgroup: u64, code: u8)
    requires
        forall|i: int| 0 <= i < rules.len() ==> #[trigger] rules[i].action == PolicyActionType::Audit,
    ensures
        last_rule_action(rules, cgroup, code) is None || last_rule_action(rules, cgroup, code) == Some(
            PolicyActionType::Audit,
        ),
    decreases rules.len(),
{
    if rules.len() > 0 {
        let d = rules.drop_last();
        assert(rules[rules.len() - 1] == rules.last());
        assert forall|i: int| 0 <= i < d.len() implies #[trigger] d[i].action == PolicyActionType::Audit by {
            assert(d[i] == rules[i]);
        }
        lemma_all_audit(d, cgroup, code);
    }
}

/// Audit-only mode observes without blocking: under the audit-only form of
/// any rule list, the kernel's action for every operation, in every cgroup,
/// is `Audit`, which lets the operation through (while the labels are
/// fresh) and reports it.
pub proof fn law_audit_only_observes(a: Seq<PolicyRule>, rules: Seq<PolicyRule>, cgroup: u64, code: u8)
    requires
        audit_only_rules(a, rules),
        code < 9,
    ensures
        loaded_action(a, cgroup, code) == PolicyAction::Audit,
        verdict_for(loaded_action(a, cgroup, code), true).ret == 0,
        verdict_for(loaded_action(a, cgroup, code), true).emit == Some(PolicyAction::Audit),
{
    let n = rules.len();
    assert forall|i: int| 0 <= i < a.len() implies #[trigger] a[i].action == PolicyActionType::Audit by {
        if i < n {
            assert(a[i].action == PolicyActionType::Audit);
        } else {
            assert(a[i].action == PolicyActionType::Audit);
        }
    }
    lemma_all_audit(a, cgroup, code);
    lemma_all_audit(a, 0, code);
    let j = n + code;
    assert(a[j].cgroup_id == 0);
    assert(a[j].event_type.code() == code);
    lemma_last_rule_action_none(a, 0, code);
}

proof fn lemma_append_windows(a: Seq<u8>, p: Seq<u8>)
    ensures
        forall|x: int, y: int|
            0 <= x <= y <= a.len() ==> #[trigger] (a + p).subrange(x, y) == a.subrange(x, y),
        (a + p).subrange(a.len() as int, (a.len() + p.len()) as int) == p,
{
    assert forall|x: int, y: int| 0 <= x <= y <= a.len() implies #[trigger] (a + p).subrange(x, y)
        == a.subrange(x, y) by {
        assert((a + p).subrange(x, y) =~= a.subrange(x, y));
    }
    assert((a + p).subrange(a.len() as int, (a.len() + p.len()) as int) =~= p);
}

/// Where each field of a record lies in the bytes the kernel writes for it.
proof fn lemma_record_windows(ev: NtEvent, little: bool)
    ensures
        record_bytes(ev, little).len() == 424,
        record_bytes(ev, little).subrange(0, 4) == u32_bytes(ev.pid, little),
        record_bytes(ev, little).subrange(4, 8) == u32_bytes(ev.tgid, little),
        record_bytes(ev, little).subrange(8, 12) == u32_bytes(ev.uid, little),
        record_bytes(ev, little).subrange(12, 14) == seq![ev.event_type, ev.action_taken],
        record_bytes(ev, little).subrange(14, 16) == ev._padding@,
        record_bytes(ev, little).subrange(16, 24) == u64_bytes(ev.cgroup_id, little),
        record_bytes(ev, little).subrange(24, 32) == u64_bytes(ev.timestamp_ns, little),
        record_bytes(ev, little).subrange(32, 288) == ev.path@,
        record_bytes(ev, little).subrange(288, 290) == u16_bytes(ev.path_len, little),
        record_bytes(ev, little).subrange(290, 418) == ev.argv@,
        record_bytes(ev, little).subrange(418, 420) == u16_bytes(ev.argv_len, little),
        record_bytes(ev, little).subrange(420, 424) == ev._tail_padding@,
{
    let p0 = u32_bytes(ev.pid, little);
    let p1 = u32_bytes(ev.tgid, little);
    let p2 = u32_bytes(ev.uid, little);
    let p3 = seq![ev.event_type, ev.action_taken];
    let p4 = ev._padding@;
    let p5 = u64_bytes(ev.cgroup_id, little);
    let p6 = u64_bytes(ev.timestamp_ns, little);
    let p7 = ev.path@;
    let p8 = u16_bytes(ev.path_len, little);
    let p9 = ev.argv@;
    let p10 = u16_bytes(ev.argv_len, little);
    let p11 = ev._tail_padding@;
    lemma_u64_bytes_roundtrip(ev.cgroup_id, little);
    lemma_u64_bytes_roundtrip(ev.timestamp_ns, little);
    lemma_u16_bytes_roundtrip(ev.path_len, little);
    lemma_u16_bytes_roundtrip(ev.argv_len, little);
    let q1 = p0 + p1;
    let q2 = q1 + p2;
    let q3 = q2 + p3;
    let q4 = q3 + p4;
    let q5 = q4 + p5;
    let q6 = q5 + p6;
    let q7 = q6 + p7;
    let q8 = q7 + p8;
    let q9 = q8 + p9;
    let q10 = q9 + p10;
    let b = q10 + p11;
    assert(b == record_bytes(ev, little));
    lemma_append_windows(p0, p1);
    lemma_append_windows(q1, p2);
    lemma_append_windows(q2, p3);
    lemma_append_windows(q3, p4);
    lemma_append_windows(q4, p5);
    lemma_append_windows(q5, p6);
    lemma_append_windows(q6, p7);
    lemma_append_windows(q7, p8);
    lemma_append_windows(q8, p9);
    lemma_append_windows(q9, p10);
    lemma_append_windows(q10, p11);
    assert(p0.subrange(0, 4) =~= p0);
    assert(b.subrange(0, 4) == p0);
    assert(b.subrange(4, 8) == p1);
    assert(b.subrange(8, 12) == p2);
    assert(b.subrange(12, 14) == p3);
    assert(b.subrange(14, 16) == p4);
    assert(b.subrange(16, 24) == p5);
    assert(b.subrange(24, 32) == p6);
    assert(b.subrange(32, 288) == p7);
    assert(b.subrange(288, 290) == p8);
    assert(b.subrange(290, 418) == p9);
    assert(b.subrange(418, 420) == p10);
    assert(b.subrange(420, 424) == p11);
}

/// Decoding is the inverse of the kernel's layout: the bytes the kernel
/// writes for a record, read back in the same byte order, give exactly that
/// record, and a ring-buffer item holds one record.
pub proof fn law_record_roundtrip(ev: NtEvent, little: bool, read: NtEvent)
    requires
        laid_out(read, record_bytes(ev, little), little),
    ensures
        record_bytes(ev, little).len() == NT_EVENT_SIZE,
        laid_out(ev, record_bytes(ev, little), little),
        read == ev,
{
    let b = record_bytes(ev, little);
    let pid = u32_bytes(ev.pid, little);
    let tgid = u32_bytes(ev.tgid, little);
    let uid = u32_bytes(ev.uid, little);
    let cg = u64_bytes(ev.cgroup_id, little);
    let ts = u64_bytes(ev.timestamp_ns, little);
    let pl = u16_bytes(ev.path_len, little);
    let al = u16_bytes(ev.argv_len, little);
    lemma_record_windows(ev, little);
    lemma_u32_bytes_roundtrip(ev.pid, little);
    lemma_u32_bytes_roundtrip(ev.tgid, little);
    lemma_u32_bytes_roundtrip(ev.uid, little);
    lemma_u64_bytes_roundtrip(ev.cgroup_id, little);
    lemma_u64_bytes_roundtrip(ev.timestamp_ns, little);
    lemma_u16_bytes_roundtrip(ev.path_len, little);
    lemma_u16_bytes_roundtrip(ev.argv_len, little);
    assert(pid.subrange(0, 4) =~= pid);
    assert(tgid.subrange(0, 4) =~= tgid);
    assert(uid.subrange(0, 4) =~= uid);
    assert(cg.subrange(0, 8) =~= cg);
    assert(ts.subrange(0, 8) =~= ts);
    assert(pl.subrange(0, 2) =~= pl);
    assert(al.subrange(0, 2) =~= al);
    lemma_uint4_window(b, 0, pid, 0, little);
    lemma_uint4_window(b, 4, tgid, 0, little);
    lemma_uint4_window(b, 8, uid, 0, little);
    lemma_uint8_window(b, 16, cg, 0, little);
    lemma_uint8_window(b, 24, ts, 0, little);
    lemma_uint2_window(b, 288, pl, 0, little);
    lemma_uint2_window(b, 418, al, 0, little);
    assert(b[12] == b.subrange(12, 14)[0]);
    assert(b[13] == b.subrange(12, 14)[1]);
    assert(read.path =~= ev.path) by {
        assert forall|i: int| 0 <= i < 256 implies read.path[i] == ev.path[i] by {
            assert(read.path@[i] == ev.path@[i]);
        }
    }
    assert(read.argv =~= ev.argv) by {
        assert forall|i: int| 0 <= i < 128 implies read.argv[i] == ev.argv[i] by {
            assert(read.argv@[i] == ev.argv@[i]);
        }
    }
    assert(read._padding =~= ev._padding) by {
        assert forall|i: int| 0 <= i < 2 implies read._padding[i] == ev._padding[i] by {
            assert(read._padding@[i] == ev._padding@[i]);
        }
    }
    assert(read._tail_padding =~= ev._tail_padding) by {
        assert forall|i: int| 0 <= i < 4 implies read._tail_padding[i] == ev._tail_padding[i] by {
            assert(read._tail_padding@[i] == ev._tail_padding@[i]);
        }
    }
}

proof fn lemma_first_hit_argv(rules: Seq<RuleSpec>, et: u8, path: Seq<char>, a1: Seq<char>, a2: Seq<char>)
    requires
        forall|i: int| 0 <= i < rules.len() ==> (#[trigger] rules[i]).argv is None,
    ensures
        first_hit(rules, et, path, a1) == first_hit(rules, et, path, a2),
    decreases rules.len(),
{
    if rules.len() > 0 {
        let d = rules.drop_last();
        assert(rules[rules.len() - 1] == rules.last());
        assert forall|i: int| 0 <= i < d.len() implies (#[trigger] d[i]).argv is None by {
            assert(d[i] == rules[i]);
        }
        lemma_first_hit_argv(d, et, path, a1, a2);
    }
}

proof fn lemma_first_hit_path(rules: Seq<RuleSpec>, et: u8, p1: Seq<char>, p2: Seq<char>, argv: Seq<char>)
    requires
        forall|i: int| 0 <= i < rules.len() ==> (#[trigger] rules[i]).path is None,
    ensures
        first_hit(rules, et, p1, argv) == first_hit(rules, et, p2, argv),
    decreases rules.len(),
{
    if rules.len() > 0 {
        let d = rules.drop_last();
        assert(rules[rules.len() - 1] == rules.last());
        assert forall|i: int| 0 <= i < d.len() implies (#[trigger] d[i]).path is None by {
            assert(d[i] == rules[i]);
        }
        lemma_first_hit_path(d, et, p1, p2, argv);
    }
}

/// Matching: a rule's path pattern is tried against the path only and its
/// argument pattern against the arguments only. When no rule has an
/// argument pattern, the arguments make no difference to the outcome; when
/// no rule has a path pattern, the path makes no difference.
pub proof fn law_patterns_see_only_their_field(
    rules: Seq<RuleSpec>,
    et: u8,
    p1: Seq<char>,
    p2: Seq<char>,
    a1: Seq<char>,
    a2: Seq<char>,
)
    ensures
        (forall|i: int| 0 <= i < rules.len() ==> (#[trigger] rules[i]).argv is None) ==> match_spec(
            rules,
            et,
            p1,
            a1,
        ) == match_spec(rules, et, p1, a2),
        (forall|i: int| 0 <= i < rules.len() ==> (#[trigger] rules[i]).path is None) ==> match_spec(
            rules,
            et,
            p1,
            a1,
        ) == match_spec(rules, et, p2, a1),
{
    if forall|i: int| 0 <= i < rules.len() ==> (#[trigger] rules[i]).argv is None {
        lemma_first_hit_argv(rules, et, p1, a1, a2);
    }
    if forall|i: int| 0 <= i < rules.len() ==> (#[trigger] rules[i]).path is None {
        lemma_first_hit_path(rules, et, p1, p2, a1);
    }
}

proof fn lemma_first_hit_remove(rules: Seq<RuleSpec>, i: int, et: u8, path: Seq<char>, argv: Seq<char>)
    requires
        0 <= i < rules.len(),
        !rule_hits(rules[i], et, path, argv),
    ensures
        first_hit(rules.remove(i), et, path, argv) == first_hit(rules, et, path, argv),
    decreases rules.len(),
{
    let n = rules.len() - 1;
    assert(rules[n] == rules.last());
    if i == n {
        assert(rules.remove(i) =~= rules.drop_last());
    } else {
        let r = rules.remove(i);
        assert(r.drop_last() =~= rules.drop_last().remove(i));
        assert(r.last() == rules.last());
        assert(rules.drop_last()[i] == rules[i]);
        lemma_first_hit_remove(rules.drop_last(), i, et, path, argv);
    }
}

proof fn lemma_last_catch_all_remove(rules: Seq<RuleSpec>, i: int, et: u8)
    requires
        0 <= i < rules.len(),
        !is_catch_all(rules[i], et),
    ensures
        last_catch_all(rules.remove(i), et) == last_catch_all(rules, et),
    decreases rules.len(),
{
    let n = rules.len() - 1;
    assert(rules[n] == rules.last());
    if i == n {
        assert(rules.remove(i) =~= rules.drop_last());
    } else {
        let r = rules.remove(i);
        assert(r.drop_last() =~= rules.drop_last().remove(i));
        assert(r.last() == rules.last());
        assert(rules.drop_last()[i] == rules[i]);
        lemma_last_catch_all_remove(rules.drop_last(), i, et);
    }
}

/// Matching: a rule that cannot decide an operation can be taken out of the
/// policy without changing the outcome. That is a rule for another event
/// type, a rule whose path pattern does not match the operation's path, or
/// a rule whose argument pattern does not match its arguments.
pub proof fn law_missed_rule_is_irrelevant(
    rules: Seq<RuleSpec>,
    i: int,
    et: u8,
    path: Seq<char>,
    argv: Seq<char>,
)
    requires
        0 <= i < rules.len(),
        rules[i].event_type != et || (rules[i].path matches Some(p) && !pattern_hits(p, path)) || (
        rules[i].argv matches Some(a) && !pattern_hits(a, argv)),
    ensures
        match_spec(rules.remove(i), et, path, argv) == match_spec(rules, et, path, argv),
{
    lemma_first_hit_remove(rules, i, et, path, argv);
    lemma_last_catch_all_remove(rules, i, et);
}

/// Any label from a generation other than the current one and other than
/// 0 makes the generation check fail, however old that generation is.
pub proof fn law_stale_label_blocks(current: u32, l: ProcessLabels, i: int)
    requires
        0 <= i < l.count,
        i < MAX_LABELS_PER_PROCESS,
        l.labels[i].generation != current,
        l.labels[i].generation != 0,
    ensures
        !generation_ok(Some(GenerationCounter { current }), Some(l)),
{
    assert(!label_fresh(l.labels[i].generation, current));
}

/// Labels that are each of the current generation or of generation 0 pass
/// the generation check.
pub proof fn law_current_or_unversioned_labels_pass(current: u32, l: ProcessLabels)
    requires
        forall|i: int|
            0 <= i < l.count && i < MAX_LABELS_PER_PROCESS ==> #[trigger] l.labels[i].generation
                == current || l.labels[i].generation == 0,
    ensures
        generation_ok(Some(GenerationCounter { current }), Some(l)),
{
}

/// A signal from a sender off the allow-list, with fresh labels, to a
/// readable target off the allow-list gets the same answer as any other
/// operation under the policy: refused with `-EPERM` exactly for `Block`
/// and `Kill`, and reported with the policy's action unless it is `Allow`.
pub proof fn law_signal_follows_policy(target: u32, action: PolicyAction)
    ensures
        task_kill_verdict(false, Some(target), false, action, true) == verdict_for(action, true),
        (task_kill_verdict(false, Some(target), false, action, true).ret == DENIED) <==> (action
            == PolicyAction::Block || action == PolicyAction::Kill),
        (task_kill_verdict(false, Some(target), false, action, true).ret == 0) <==> (action
            == PolicyAction::Allow || action == PolicyAction::Audit),
        task_kill_verdict(false, Some(target), false, action, true).emit == (if action
            == PolicyAction::Allow {
            None
        } else {
            Some(action)
        }),
{
}

/// The port of an IPv6 socket address is read in network order, as for
/// IPv4: the feedback names it as `[ipv6]:` and the decimal of
/// `256 * b[2] + b[3]`.
pub proof fn law_sockaddr_ports(bytes: Seq<u8>, little: bool)
    requires
        bytes.len() >= 8,
    ensures
        uint2(bytes, 0, little) == 10 && bytes.len() >= 24 ==> sockaddr_text(bytes, little) == "[ipv6]:"@
            + decimal_text((256 * bytes[2] + bytes[3]) as nat),
        uint2(bytes, 0, little) == 2 ==> sockaddr_text(bytes, little) == decimal_text(bytes[4] as nat)
            + "."@ + decimal_text(bytes[5] as nat) + "."@ + decimal_text(bytes[6] as nat) + "."@
            + decimal_text(bytes[7] as nat) + ":"@ + decimal_text((256 * bytes[2] + bytes[3]) as nat),
{
}

/// A socket address too short to hold its family reads as `unknown`; one
/// of another family than IPv4 and IPv6 is named by its family number.
pub proof fn law_sockaddr_other_families(bytes: Seq<u8>, little: bool)
    ensures
        bytes.len() < 4 ==> sockaddr_text(bytes, little) == "unknown"@,
        bytes.len() >= 4 && uint2(bytes, 0, little) != 2 && uint2(bytes, 0, little) != 10
            ==> sockaddr_text(bytes, little) == "af:"@ + decimal_text(uint2(bytes, 0, little) as nat),
{
}

} // verus!
