use neurontrace::common::{
    EventType, GenerationCounter, LabelEntry, PolicyAction, PolicyValue, ProcessLabels,
    MAX_LABEL_LEN, MAX_PATH_LEN,
};
use neurontrace::enforcement::{
    check_generation, check_policy, connect_read_len, handle_connect, handle_exec,
    handle_file_open, handle_ptrace, handle_rename, handle_task_kill, handle_unlink, lookup_key,
    HookResult, DENIED, MAX_SOCKADDR_LEN,
};
use neurontrace::labels::{assign_label, LabelError};
use neurontrace::policy::{PolicyActionType, PolicyEventType, PolicyRule};
use std::collections::HashMap;

fn value(action: u8) -> Option<PolicyValue> {
    Some(PolicyValue { action, _padding: [0u8; 7] })
}

#[test]
fn default_deny_without_entries() {
    assert_eq!(check_policy(false, None, None), PolicyAction::Block);
}

#[test]
fn allowlisted_process_always_allowed() {
    assert_eq!(check_policy(true, value(1), value(2)), PolicyAction::Allow);
    assert_eq!(check_policy(true, None, None), PolicyAction::Allow);
}

#[test]
fn cgroup_entry_overrides_global_entry() {
    assert_eq!(check_policy(false, value(0), value(1)), PolicyAction::Allow);
    assert_eq!(check_policy(false, None, value(3)), PolicyAction::Audit);
    assert_eq!(check_policy(false, value(2), None), PolicyAction::Kill);
}

#[test]
fn unknown_action_code_blocks() {
    assert_eq!(check_policy(false, value(7), None), PolicyAction::Block);
    assert_eq!(PolicyAction::from(200u8), PolicyAction::Block);
}

#[test]
fn action_codes_roundtrip() {
    for a in [PolicyAction::Allow, PolicyAction::Block, PolicyAction::Kill, PolicyAction::Audit] {
        assert_eq!(PolicyAction::from(a.to_u8()), a);
    }
    for code in 0u8..9 {
        assert_eq!(EventType::from(code).to_u8(), code);
    }
    assert_eq!(EventType::from(99u8), EventType::Exec);
}

#[test]
fn lookup_key_fields() {
    let k = lookup_key(7, EventType::Ptrace);
    assert_eq!(k.cgroup_id, 7);
    assert_eq!(k.event_type, 5);
    assert_eq!(k._padding, [0u8; 7]);
}

fn labels_with(gens: &[u32]) -> ProcessLabels {
    let mut l = ProcessLabels::empty();
    for (i, g) in gens.iter().enumerate() {
        l.labels[i].generation = *g;
    }
    l.count = gens.len() as u8;
    l
}

#[test]
fn generation_check_cases() {
    let cur = Some(GenerationCounter { current: 3 });
    assert!(check_generation(None, Some(labels_with(&[1]))));
    assert!(check_generation(cur, None));
    assert!(check_generation(cur, Some(labels_with(&[3, 0, 3]))));
    assert!(!check_generation(cur, Some(labels_with(&[3, 2]))));
}

#[test]
fn generation_zero_never_stale() {
    let l = labels_with(&[0, 0]);
    for g in [0u32, 1, 77, u32::MAX] {
        assert!(check_generation(Some(GenerationCounter { current: g }), Some(l)));
    }
}

#[test]
fn bump_makes_old_labels_stale() {
    let g = GenerationCounter { current: 5 };
    let l = labels_with(&[5]);
    assert!(check_generation(Some(g), Some(l)));
    let next = GenerationCounter::bump(Some(g));
    assert_eq!(next.current, 6);
    assert!(!check_generation(Some(next), Some(l)));
}

#[test]
fn bump_starts_at_one_and_wraps() {
    assert_eq!(GenerationCounter::bump(None).current, 1);
    assert_eq!(GenerationCounter::bump(Some(GenerationCounter { current: u32::MAX })).current, 0);
}

#[test]
fn labels_beyond_count_are_ignored() {
    let mut l = labels_with(&[4]);
    l.labels[1].generation = 9;
    assert!(check_generation(Some(GenerationCounter { current: 4 }), Some(l)));
}

fn outcome(r: &HookResult) -> (i32, Option<u8>) {
    (r.ret, r.event.map(|e| e.action_taken))
}

#[test]
fn hook_verdicts() {
    let p = [0u8; MAX_PATH_LEN];
    let v = handle_exec(7, 8, 100, PolicyAction::Allow, true, p, 0);
    assert_eq!(outcome(&v), (0, None));
    let v = handle_exec(7, 8, 100, PolicyAction::Block, true, p, 0);
    assert_eq!(outcome(&v), (DENIED, Some(1)));
    let v = handle_file_open(7, 8, 100, PolicyAction::Kill, true, p, 0);
    assert_eq!(outcome(&v), (-1, Some(2)));
    let v = handle_connect(7, 8, 100, PolicyAction::Audit, true, None, 16);
    assert_eq!(outcome(&v), (0, Some(3)));
    let v = handle_ptrace(7, 8, 100, PolicyAction::Allow, false);
    assert_eq!(outcome(&v), (DENIED, Some(1)));
    let v = handle_unlink(7, 8, 100, PolicyAction::Audit, true, p, 0);
    assert_eq!(outcome(&v), (0, Some(3)));
    let v = handle_rename(7, 8, 100, PolicyAction::Block, true, p, 0);
    assert_eq!(outcome(&v), (DENIED, Some(1)));
}

#[test]
fn stale_labels_block_every_hook() {
    let p = [0u8; MAX_PATH_LEN];
    let a = PolicyAction::Allow;
    for v in [
        handle_exec(7, 8, 100, a, false, p, 0),
        handle_file_open(7, 8, 100, a, false, p, 0),
        handle_unlink(7, 8, 100, a, false, p, 0),
        handle_rename(7, 8, 100, a, false, p, 0),
        handle_connect(7, 8, 100, a, false, None, 0),
        handle_ptrace(7, 8, 100, a, false),
        handle_task_kill(7, 8, 100, false, Some(10), false, a, false),
    ] {
        assert_eq!(outcome(&v), (DENIED, Some(1)));
        assert_eq!(v.event.unwrap().pid, 7);
    }
}

#[test]
fn denied_open_record_names_process_and_event() {
    let mut p = [0u8; MAX_PATH_LEN];
    p[..10].copy_from_slice(b"/etc/hosts");
    let v = handle_file_open(42, 43, 555, PolicyAction::Block, true, p, 10);
    let e = v.event.unwrap();
    assert_eq!((e.pid, e.tgid, e.event_type, e.action_taken, e.timestamp_ns), (42, 43, 1, 1, 555));
    assert_eq!((e.path_len, &e.path[..10]), (10, &b"/etc/hosts"[..]));
    let fb = neurontrace::common::ViolationFeedback::from_event(&e);
    assert_eq!((fb.pid, fb.timestamp_ns), (42, 555));
    assert_eq!((fb.hook, fb.target), ("open".to_string(), "/etc/hosts".to_string()));
    assert_eq!(e.argv_len, 0);
}

#[test]
fn connect_record_carries_address() {
    let mut addr = [0u8; MAX_SOCKADDR_LEN];
    addr[0] = 2;
    addr[7] = 9;
    let v = handle_connect(1, 1, 5, PolicyAction::Block, true, Some(addr), 8);
    let e = v.event.unwrap();
    assert_eq!((e.event_type, e.path_len, e.path[0], e.path[7], e.path[8]), (4, 8, 2, 9, 0));
}

#[test]
fn task_kill_protects_controller() {
    let v = handle_task_kill(5, 5, 1, true, Some(1), true, PolicyAction::Block, true);
    assert_eq!(outcome(&v), (0, None));
    let v = handle_task_kill(5, 5, 1, true, Some(1), false, PolicyAction::Block, false);
    assert_eq!(outcome(&v), (0, None));
    let v = handle_task_kill(5, 5, 1, false, None, false, PolicyAction::Block, false);
    assert_eq!(outcome(&v), (0, None));
    let v = handle_task_kill(5, 5, 1, false, None, true, PolicyAction::Block, true);
    assert_eq!(outcome(&v), (0, None));
    let v = handle_task_kill(5, 5, 1, false, Some(10), true, PolicyAction::Allow, true);
    assert_eq!(outcome(&v), (DENIED, Some(1)));
    let e = v.event.unwrap();
    assert_eq!((e.pid, e.event_type, e.argv_len), (5, 8, 4));
    assert_eq!(&e.argv[..4], &10u32.to_ne_bytes());
    assert_eq!(neurontrace::common::ViolationFeedback::from_event(&e).target, "pid:10");
    let v = handle_task_kill(5, 5, 1, false, Some(10), false, PolicyAction::Allow, true);
    assert_eq!(outcome(&v), (0, None));
    let v = handle_task_kill(5, 5, 1, false, Some(10), false, PolicyAction::Kill, true);
    assert_eq!(outcome(&v), (DENIED, Some(2)));
}

#[test]
fn connect_read_len_clamps() {
    assert_eq!(connect_read_len(-5), 0);
    assert_eq!(connect_read_len(0), 0);
    assert_eq!(connect_read_len(16), 16);
    assert_eq!(connect_read_len(1000), MAX_SOCKADDR_LEN);
}

#[test]
fn violation_records() {
    let ev = neurontrace::common::NtEvent::for_violation(10, 11, EventType::Connect, PolicyAction::Audit, 77);
    assert_eq!((ev.pid, ev.tgid, ev.event_type, ev.action_taken), (10, 11, 4, 3));
    assert_eq!(ev.timestamp_ns, 77);
    assert_eq!(ev.path_len, 0);
    let mut addr = [0u8; MAX_SOCKADDR_LEN];
    for (i, b) in addr.iter_mut().enumerate() {
        *b = i as u8 + 1;
    }
    let ev2 = ev.with_sockaddr(addr, 8);
    assert_eq!(ev2.path_len, 8);
    assert_eq!(&ev2.path[..9], &[1, 2, 3, 4, 5, 6, 7, 8, 0]);
    let ev3 = ev.with_sockaddr(addr, -1);
    assert_eq!(ev3.path_len, 0);
    assert_eq!(ev3.path[0], 0);
    let mut path = [0u8; MAX_PATH_LEN];
    path[0] = b'/';
    let ev4 = ev.with_path(path, 1);
    assert_eq!((ev4.path_len, ev4.path[0]), (1, b'/'));
    let ev5 = ev.with_target_pid(0x01020304, true);
    assert_eq!((ev5.argv_len, &ev5.argv[..4]), (4, &[4u8, 3, 2, 1][..]));
    let ev6 = ev.with_target_pid(0x01020304, false);
    assert_eq!(&ev6.argv[..4], &[1u8, 2, 3, 4]);
}

#[test]
fn assign_label_fills_next_slot() {
    let l = assign_label(None, 42, "secret-data", 3).unwrap();
    assert_eq!(l.count, 1);
    assert_eq!(l.labels[0].label_len, 11);
    assert_eq!(&l.labels[0].label[..11], b"secret-data");
    assert_eq!(l.labels[0].label[11], 0);
    assert_eq!(l.labels[0].generation, 3);
    let l2 = assign_label(Some(l), 42, "other", 4).unwrap();
    assert_eq!(l2.count, 2);
    assert_eq!(l2.labels[0].generation, 3);
    assert_eq!(l2.labels[1].generation, 4);
}

#[test]
fn assign_label_truncates_long_labels() {
    let long = "x".repeat(100);
    let l = assign_label(None, 1, &long, 1).unwrap();
    assert_eq!(l.labels[0].label_len as usize, MAX_LABEL_LEN);
    assert!(l.labels[0].label.iter().all(|b| *b == b'x'));
}

#[test]
fn assign_label_refuses_ninth_label() {
    let mut l = None;
    for i in 0..8u32 {
        l = Some(assign_label(l, 7, "l", i).unwrap());
    }
    let err = assign_label(l, 7, "l", 9).unwrap_err();
    assert!(matches!(err, LabelError::TooManyLabels { pid: 7 }));
    assert_eq!(err.message(), "process 7 already has maximum labels (8)");
}

#[test]
fn new_label_keeps_process_fresh() {
    let l = assign_label(None, 1, "a", 6).unwrap();
    assert!(check_generation(Some(GenerationCounter { current: 6 }), Some(l)));
    let e = LabelEntry::empty();
    assert_eq!((e.label_len, e.generation), (0, 0));
}

#[test]
fn loaded_policy_decides_by_latest_rule() {
    let rule = |cgroup_id: u64, event_type, action| PolicyRule {
        event_type,
        action,
        cgroup_id,
        path: None,
        argv: None,
        description: String::new(),
    };
    let rules = vec![
        rule(0, PolicyEventType::Exec, PolicyActionType::Allow),
        rule(9, PolicyEventType::Exec, PolicyActionType::Kill),
        rule(0, PolicyEventType::Open, PolicyActionType::Audit),
        rule(0, PolicyEventType::Exec, PolicyActionType::Block),
    ];
    // the kernel table after inserting every rule in order
    let mut table: HashMap<(u64, u8), u8> = HashMap::new();
    for r in &rules {
        let k = r.to_policy_key();
        table.insert((k.cgroup_id, k.event_type), r.to_policy_value().action);
    }
    let decide = |cgroup: u64, event: EventType| {
        let key = lookup_key(cgroup, event);
        let global = lookup_key(0, event);
        check_policy(
            false,
            table.get(&(key.cgroup_id, key.event_type)).copied().and_then(|a| value(a)),
            table.get(&(global.cgroup_id, global.event_type)).copied().and_then(|a| value(a)),
        )
    };
    // cgroup 9 has its own exec rule
    assert_eq!(decide(9, EventType::Exec), PolicyAction::Kill);
    // other cgroups fall back to the latest global exec rule
    assert_eq!(decide(1, EventType::Exec), PolicyAction::Block);
    assert_eq!(decide(1, EventType::Open), PolicyAction::Audit);
    // nothing speaks of connect: default-deny
    assert_eq!(decide(1, EventType::Connect), PolicyAction::Block);
}
