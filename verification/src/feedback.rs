//! The structured feedback an agent receives about a violation.

use vstd::prelude::*;

use crate::bytes::{machine_is_little, native_is_little_endian, uint2, uint4, read_u16, read_u32, utf8_or_empty, utf8_string_or_empty};
use crate::common::{
    EventType, MAX_PATH_LEN, NtEvent, PolicyAction, Severity, ViolationFeedback, action_of_code,
    event_name, event_of_code,
};
use crate::text::{decimal, decimal_text};

verus! {

/// What the enforcement did, as reported.
pub open spec fn effect_text(a: PolicyAction) -> Seq<char> {
    match a {
        PolicyAction::Block => "blocked"@,
        PolicyAction::Kill => "process_killed"@,
        PolicyAction::Audit => "audited"@,
        PolicyAction::Allow => "allowed"@,
    }
}

/// The severity that goes with an action.
pub open spec fn severity_of(a: PolicyAction) -> Severity {
    match a {
        PolicyAction::Kill => Severity::Critical,
        PolicyAction::Block => Severity::High,
        PolicyAction::Audit => Severity::Medium,
        PolicyAction::Allow => Severity::Low,
    }
}

/// The explanation shown to the agent.
pub open spec fn message_text(e: EventType, a: PolicyAction) -> Seq<char> {
    match a {
        PolicyAction::Block => "Operation '"@ + event_name(e)
            + "' was blocked by NeuronTrace policy. Check your allowed operations."@,
        PolicyAction::Kill => "Process terminated: '"@ + event_name(e)
            + "' violated a critical policy rule."@,
        PolicyAction::Audit => "Operation '"@ + event_name(e) + "' was logged for audit. No action taken."@,
        PolicyAction::Allow => Seq::empty(),
    }
}

/// Reports what the enforcement did.
pub fn format_effect(action: PolicyAction) -> (r: String)
    ensures
        r@ == effect_text(action),
{
    match action {
        PolicyAction::Block => String::from_str("blocked"),
        PolicyAction::Kill => String::from_str("process_killed"),
        PolicyAction::Audit => String::from_str("audited"),
        PolicyAction::Allow => String::from_str("allowed"),
    }
}

/// The severity of a violation that met `action`.
pub fn severity_for(action: PolicyAction) -> (r: Severity)
    ensures
        r == severity_of(action),
{
    match action {
        PolicyAction::Kill => Severity::Critical,
        PolicyAction::Block => Severity::High,
        PolicyAction::Audit => Severity::Medium,
        PolicyAction::Allow => Severity::Low,
    }
}

/// The explanation of a violation of `event_type` that met `action`.
pub fn format_message(event_type: EventType, action: PolicyAction) -> (r: String)
    ensures
        r@ == message_text(event_type, action),
{
    match action {
        PolicyAction::Block => {
            let mut s = String::from_str("Operation '");
            s.append(event_type.name());
            s.append("' was blocked by NeuronTrace policy. Check your allowed operations.");
            s
        },
        PolicyAction::Kill => {
            let mut s = String::from_str("Process terminated: '");
            s.append(event_type.name());
            s.append("' violated a critical policy rule.");
            s
        },
        PolicyAction::Audit => {
            let mut s = String::from_str("Operation '");
            s.append(event_type.name());
            s.append("' was logged for audit. No action taken.");
            s
        },
        PolicyAction::Allow => String::new(),
    }
}

/// How many bytes of the path buffer are in use.
pub open spec fn path_len_of(ev: NtEvent) -> int {
    if ev.path_len < MAX_PATH_LEN {
        ev.path_len as int
    } else {
        MAX_PATH_LEN as int
    }
}

/// The bytes of the path buffer in use.
pub open spec fn path_bytes(ev: NtEvent) -> Seq<u8> {
    ev.path@.take(path_len_of(ev))
}

/// The text of a socket address (in `bytes`, with its family field in the
/// given byte order): `a.b.c.d:port` for IPv4, `[ipv6]:port` for IPv6,
/// `af:N` for another family, `unknown` when too short.
pub open spec fn sockaddr_text(bytes: Seq<u8>, little: bool) -> Seq<char> {
    if bytes.len() < 4 {
        "unknown"@
    } else {
        let family = uint2(bytes, 0, little);
        let port = uint2(bytes, 2, false);
        if family == 2 && bytes.len() >= 8 {
            decimal_text(bytes[4] as nat) + "."@ + decimal_text(bytes[5] as nat) + "."@ + decimal_text(
                bytes[6] as nat,
            ) + "."@ + decimal_text(bytes[7] as nat) + ":"@ + decimal_text(port as nat)
        } else if family == 10 && bytes.len() >= 24 {
            "[ipv6]:"@ + decimal_text(port as nat)
        } else {
            "af:"@ + decimal_text(family as nat)
        }
    }
}

/// Renders a socket address whose family field is in the given byte order;
/// the port is in network (high-first) order.
pub fn format_sockaddr(bytes: &[u8], little: bool) -> (r: String)
    ensures
        r@ == sockaddr_text(bytes@, little),
{
    if bytes.len() < 4 {
        return String::from_str("unknown");
    }
    let family = read_u16(bytes, 0, little);
    let port = read_u16(bytes, 2, false);
    if family == 2 && bytes.len() >= 8 {
        let mut s = decimal(bytes[4] as u64);
        s.append(".");
        s.append(decimal(bytes[5] as u64).as_str());
        s.append(".");
        s.append(decimal(bytes[6] as u64).as_str());
        s.append(".");
        s.append(decimal(bytes[7] as u64).as_str());
        s.append(":");
        s.append(decimal(port as u64).as_str());
        s
    } else if family == 10 && bytes.len() >= 24 {
        let mut s = String::from_str("[ipv6]:");
        s.append(decimal(port as u64).as_str());
        s
    } else {
        let mut s = String::from_str("af:");
        s.append(decimal(family as u64).as_str());
        s
    }
}

/// What the violation was aimed at: the socket address of a connect; the
/// target process of a signal (`pid:N`, its id in the first four argument
/// bytes, in the given byte order); otherwise the path, or `pid:N` of the
/// offending process when the path is empty or not UTF-8.
pub open spec fn target_text(ev: NtEvent, e: EventType, little: bool) -> Seq<char> {
    if e == EventType::Connect {
        sockaddr_text(path_bytes(ev), little)
    } else if e == EventType::TaskKill && ev.argv_len >= 4 {
        "pid:"@ + decimal_text(uint4(ev.argv@, 0, little) as nat)
    } else if utf8_or_empty(path_bytes(ev)).len() == 0 {
        "pid:"@ + decimal_text(ev.pid as nat)
    } else {
        utf8_or_empty(path_bytes(ev))
    }
}

/// The path buffer of the event in use, as a slice.
fn path_in_use(event: &NtEvent) -> (r: &[u8])
    ensures
        r@ == path_bytes(*event),
{
    let len = if (event.path_len as usize) < MAX_PATH_LEN {
        event.path_len as usize
    } else {
        MAX_PATH_LEN
    };
    let all = event.path.as_slice();
    let (head, _) = all.split_at(len);
    head
}

/// What the violation was aimed at; multi-byte fields of the record are in
/// the given byte order.
pub fn extract_target(event: &NtEvent, event_type: EventType, little: bool) -> (r: String)
    ensures
        r@ == target_text(*event, event_type, little),
{
    let path = path_in_use(event);
    match event_type {
        EventType::Connect => format_sockaddr(path, little),
        EventType::TaskKill if event.argv_len >= 4 => {
            let target_pid = read_u32(event.argv.as_slice(), 0, little);
            let mut s = String::from_str("pid:");
            s.append(decimal(target_pid as u64).as_str());
            s
        },
        _ => {
            let text = utf8_string_or_empty(path);
            if text.as_str().is_empty() {
                let mut s = String::from_str("pid:");
                s.append(decimal(event.pid as u64).as_str());
                s
            } else {
                text
            }
        },
    }
}

/// `fb` reports the violation `ev`, read in the given byte order.
pub open spec fn reports(fb: ViolationFeedback, ev: NtEvent, little: bool) -> bool {
    let e = event_of_code(ev.event_type);
    let a = action_of_code(ev.action_taken);
    &&& fb.version == 1
    &&& fb.kind@ == "violation"@
    &&& fb.timestamp_ns == ev.timestamp_ns
    &&& fb.pid == ev.pid
    &&& fb.hook@ == event_name(e)
    &&& fb.target@ == target_text(ev, e, little)
    &&& fb.effect@ == effect_text(a)
    &&& fb.rule@ == "default-deny:"@ + event_name(e)
    &&& fb.severity == severity_of(a)
    &&& fb.suggested_retry == (a == PolicyAction::Block)
    &&& fb.message@ == message_text(e, a)
}

impl ViolationFeedback {
    /// The report of a violation record whose multi-byte fields are in the
    /// given byte order.
    pub fn for_event(event: &NtEvent, little: bool) -> (r: ViolationFeedback)
        ensures
            reports(r, *event, little),
    {
        let event_type = EventType::from(event.event_type);
        let action = PolicyAction::from(event.action_taken);
        let mut rule = String::from_str("default-deny:");
        rule.append(event_type.name());
        ViolationFeedback {
            version: 1,
            kind: "violation",
            timestamp_ns: event.timestamp_ns,
            pid: event.pid,
            hook: String::from_str(event_type.name()),
            target: extract_target(event, event_type, little),
            effect: format_effect(action),
            rule,
            severity: severity_for(action),
            suggested_retry: action == PolicyAction::Block,
            message: format_message(event_type, action),
        }
    }

    /// The report of a violation record written by this machine's kernel.
    pub fn from_event(event: &NtEvent) -> (r: ViolationFeedback)
        ensures
            reports(r, *event, machine_is_little()),
    {
        let little = native_is_little_endian();
        ViolationFeedback::for_event(event, little)
    }
}

} // verus!
