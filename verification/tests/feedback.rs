use neurontrace::common::{EventType, NtEvent, PolicyAction, Severity, ViolationFeedback, MAX_PATH_LEN};
use neurontrace::events::{
    extract_argv_str, extract_path_str, handle_event, EventResponse, NT_EVENT_SIZE,
};
use neurontrace::feedback::{
    extract_target, format_effect, format_message, format_sockaddr, severity_for,
};
use neurontrace::policy::{PolicyActionType, PolicyEventType, PolicyRule, PolicySet};

fn event_with_path(event_type: EventType, action: PolicyAction, path: &[u8]) -> NtEvent {
    let mut buf = [0u8; MAX_PATH_LEN];
    buf[..path.len()].copy_from_slice(path);
    NtEvent::for_violation(1234, 1234, event_type, action, 0).with_path(buf, path.len() as u16)
}

#[test]
fn feedback_for_blocked_exec() {
    let mut ev = event_with_path(EventType::Exec, PolicyAction::Block, b"/usr/bin/curl");
    ev.timestamp_ns = 1719043200000000000;
    ev.pid = 12345;
    let fb = ViolationFeedback::from_event(&ev);
    assert_eq!(fb.version, 1);
    assert_eq!(fb.kind, "violation");
    assert_eq!(fb.timestamp_ns, 1719043200000000000);
    assert_eq!(fb.pid, 12345);
    assert_eq!(fb.hook, "exec");
    assert_eq!(fb.target, "/usr/bin/curl");
    assert_eq!(fb.effect, "blocked");
    assert_eq!(fb.rule, "default-deny:exec");
    assert_eq!(fb.severity, Severity::High);
    assert!(fb.suggested_retry);
    assert_eq!(
        fb.message,
        "Operation 'exec' was blocked by NeuronTrace policy. Check your allowed operations."
    );
}

#[test]
fn feedback_for_killed_ptrace() {
    let ev = event_with_path(EventType::Ptrace, PolicyAction::Kill, b"");
    let fb = ViolationFeedback::for_event(&ev, true);
    assert_eq!(fb.target, "pid:1234");
    assert_eq!(fb.effect, "process_killed");
    assert_eq!(fb.severity, Severity::Critical);
    assert!(!fb.suggested_retry);
    assert_eq!(fb.message, "Process terminated: 'ptrace' violated a critical policy rule.");
}

#[test]
fn effect_severity_message_table() {
    assert_eq!(format_effect(PolicyAction::Audit), "audited");
    assert_eq!(format_effect(PolicyAction::Allow), "allowed");
    assert_eq!(severity_for(PolicyAction::Audit), Severity::Medium);
    assert_eq!(severity_for(PolicyAction::Allow), Severity::Low);
    assert_eq!(
        format_message(EventType::Unlink, PolicyAction::Audit),
        "Operation 'unlink' was logged for audit. No action taken."
    );
    assert_eq!(format_message(EventType::Open, PolicyAction::Allow), "");
    assert_eq!(EventType::TaskKill.name(), "task_kill");
    assert_eq!(PolicyAction::Kill.name(), "kill");
}

#[test]
fn sockaddr_rendering() {
    // AF_INET, port 443, 93.184.216.34
    let mut v4 = vec![0u8; 16];
    v4[..2].copy_from_slice(&2u16.to_ne_bytes());
    v4[2] = 1;
    v4[3] = 187;
    v4[4..8].copy_from_slice(&[93, 184, 216, 34]);
    let little = cfg_little();
    assert_eq!(format_sockaddr(&v4, little), "93.184.216.34:443");
    let mut v6 = vec![0u8; 28];
    v6[..2].copy_from_slice(&10u16.to_ne_bytes());
    v6[2] = 0;
    v6[3] = 80;
    assert_eq!(format_sockaddr(&v6, little), "[ipv6]:80");
    let mut unix = vec![0u8; 8];
    unix[..2].copy_from_slice(&1u16.to_ne_bytes());
    assert_eq!(format_sockaddr(&unix, little), "af:1");
    assert_eq!(format_sockaddr(&[2, 0, 0], little), "unknown");
    // AF_INET with too few address bytes falls back to the family
    let mut short = vec![0u8; 6];
    short[..2].copy_from_slice(&2u16.to_ne_bytes());
    assert_eq!(format_sockaddr(&short, little), "af:2");
}

fn cfg_little() -> bool {
    u16::from_ne_bytes([1, 0]) == 1
}

#[test]
fn network_target_in_documented_form() {
    let mut addr = [0u8; 28];
    addr[..2].copy_from_slice(&2u16.to_ne_bytes());
    addr[2..4].copy_from_slice(&443u16.to_be_bytes());
    addr[4..8].copy_from_slice(&[1, 2, 3, 4]);
    let ev = NtEvent::for_violation(9, 9, EventType::Connect, PolicyAction::Audit, 0).with_sockaddr(addr, 16);
    let fb = ViolationFeedback::from_event(&ev);
    assert_eq!(fb.target, "1.2.3.4:443");
    assert_eq!(fb.hook, "connect");
    assert_eq!(fb.effect, "audited");
    assert!(!fb.suggested_retry);
}

#[test]
fn targets_of_connect_and_signal() {
    let little = cfg_little();
    let mut addr = [0u8; 28];
    addr[..2].copy_from_slice(&2u16.to_ne_bytes());
    addr[2] = 0x1f;
    addr[3] = 0x90;
    addr[4..8].copy_from_slice(&[127, 0, 0, 1]);
    let ev = NtEvent::for_violation(5, 5, EventType::Connect, PolicyAction::Block, 0).with_sockaddr(addr, 16);
    assert_eq!(extract_target(&ev, EventType::Connect, little), "127.0.0.1:8080");

    let ev = NtEvent::for_violation(5, 5, EventType::TaskKill, PolicyAction::Block, 0).with_target_pid(4321, little);
    assert_eq!(extract_target(&ev, EventType::TaskKill, little), "pid:4321");
    assert_eq!(ViolationFeedback::from_event(&ev).target, "pid:4321");
}

#[test]
fn invalid_utf8_path_falls_back_to_pid() {
    let ev = event_with_path(EventType::Open, PolicyAction::Block, &[0xff, 0xfe]);
    assert_eq!(extract_target(&ev, EventType::Open, true), "pid:1234");
    assert_eq!(extract_path_str(&ev), "");
}

#[test]
fn path_and_argv_text() {
    let mut ev = event_with_path(EventType::Exec, PolicyAction::Audit, "/usr/bin/\u{e9}".as_bytes());
    ev.argv[..4].copy_from_slice(b"ls -");
    ev.argv_len = 3;
    assert_eq!(extract_path_str(&ev), "/usr/bin/\u{e9}");
    assert_eq!(extract_argv_str(&ev), "ls ");
    ev.path_len = 1000;
    // an oversized length is cut to the buffer; the zero bytes are valid UTF-8
    assert_eq!(extract_path_str(&ev).len(), MAX_PATH_LEN);
}

fn block_all_but_git() -> PolicySet {
    PolicySet {
        name: "p".to_string(),
        description: String::new(),
        rules: vec![PolicyRule {
            event_type: PolicyEventType::Exec,
            action: PolicyActionType::Allow,
            cgroup_id: 0,
            path: Some("/usr/bin/git".to_string()),
            argv: None,
            description: String::new(),
        }],
    }
}

#[test]
fn event_responses() {
    let compiled = block_all_but_git().compile();
    let git = event_with_path(EventType::Exec, PolicyAction::Block, b"/usr/bin/git");
    let curl = event_with_path(EventType::Exec, PolicyAction::Block, b"/usr/bin/curl");
    assert_eq!(handle_event(&git, None), EventResponse::Report);
    assert_eq!(handle_event(&git, Some(&compiled)), EventResponse::Report);
    assert_eq!(handle_event(&curl, Some(&compiled)), EventResponse::Ignore);
    let kill = event_with_path(EventType::Exec, PolicyAction::Kill, b"/x");
    assert_eq!(handle_event(&kill, None), EventResponse::KillAndReport);
    let allow = event_with_path(EventType::Exec, PolicyAction::Allow, b"/x");
    assert_eq!(handle_event(&allow, None), EventResponse::Ignore);
    let audit = event_with_path(EventType::Exec, PolicyAction::Audit, b"/x");
    assert_eq!(handle_event(&audit, None), EventResponse::Report);
}

#[test]
fn record_decoding() {
    let mut bytes = vec![0u8; NT_EVENT_SIZE];
    bytes[0..4].copy_from_slice(&77u32.to_le_bytes());
    bytes[4..8].copy_from_slice(&78u32.to_le_bytes());
    bytes[12] = 4;
    bytes[13] = 1;
    bytes[24..32].copy_from_slice(&123456789u64.to_le_bytes());
    bytes[32..36].copy_from_slice(b"/tmp");
    bytes[288..290].copy_from_slice(&4u16.to_le_bytes());
    bytes[418..420].copy_from_slice(&0u16.to_le_bytes());
    let ev = NtEvent::from_bytes(&bytes, true).unwrap();
    assert_eq!((ev.pid, ev.tgid, ev.event_type, ev.action_taken), (77, 78, 4, 1));
    assert_eq!(ev.timestamp_ns, 123456789);
    assert_eq!(ev.path_len, 4);
    assert_eq!(&ev.path[..4], b"/tmp");
    let be = NtEvent::from_bytes(&bytes, false).unwrap();
    assert_eq!(be.pid, 77u32.swap_bytes());
    assert!(NtEvent::from_bytes(&bytes[..NT_EVENT_SIZE - 1], true).is_none());
    let native = NtEvent::from_native_bytes(&bytes).unwrap();
    if cfg_little() {
        assert_eq!(native.pid, 77);
    }
}
