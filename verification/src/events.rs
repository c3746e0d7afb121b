//! Reading violation records from the ring buffer and deciding how the
//! controller responds to each.

use vstd::prelude::*;

use crate::bytes::{machine_is_little, u16_bytes, u32_bytes, u64_bytes, native_is_little_endian, read_u16, read_u32, read_u64, uint2, uint4, uint8, utf8_or_empty, utf8_string_or_empty};
use crate::common::{
    MAX_ARGV_LEN, MAX_PATH_LEN, NtEvent, PolicyAction, action_of_code,
};
use crate::feedback::path_bytes;
use crate::policy::{CompiledPolicy, RuleSpec, match_spec};

verus! {

/// Size of a violation record in the ring buffer, in bytes.
pub const NT_EVENT_SIZE: usize = 424;

/// `ev` is the record laid out in `bytes` (multi-byte fields in the given
/// byte order): pid at 0, tgid at 4, uid at 8, event type at 12, action at
/// 13, padding at 14, cgroup at 16, timestamp at 24, path at 32 (256 bytes),
/// path length at 288, arguments at 290 (128 bytes), argument length at 418,
/// tail padding at 420.
pub open spec fn laid_out(ev: NtEvent, bytes: Seq<u8>, little: bool) -> bool {
    &&& ev.pid == uint4(bytes, 0, little)
    &&& ev.tgid == uint4(bytes, 4, little)
    &&& ev.uid == uint4(bytes, 8, little)
    &&& ev.event_type == bytes[12]
    &&& ev.action_taken == bytes[13]
    &&& ev._padding@ == bytes.subrange(14, 16)
    &&& ev.cgroup_id == uint8(bytes, 16, little)
    &&& ev.timestamp_ns == uint8(bytes, 24, little)
    &&& ev.path@ == bytes.subrange(32, 288)
    &&& ev.path_len == uint2(bytes, 288, little)
    &&& ev.argv@ == bytes.subrange(290, 418)
    &&& ev.argv_len == uint2(bytes, 418, little)
    &&& ev._tail_padding@ == bytes.subrange(420, 424)
}

/// The bytes of the record `ev` as the kernel writes it (`repr(C)`, with
/// multi-byte fields in the given byte order), field after field: pid,
/// tgid, uid, event type, action, two padding bytes, cgroup, timestamp,
/// the path buffer, its length, the argument buffer, its length, and four
/// tail padding bytes.
pub open spec fn record_bytes(ev: NtEvent, little: bool) -> Seq<u8> {
    u32_bytes(ev.pid, little) + u32_bytes(ev.tgid, little) + u32_bytes(ev.uid, little) + seq![
        ev.event_type,
        ev.action_taken,
    ] + ev._padding@ + u64_bytes(ev.cgroup_id, little) + u64_bytes(ev.timestamp_ns, little)
        + ev.path@ + u16_bytes(ev.path_len, little) + ev.argv@ + u16_bytes(ev.argv_len, little)
        + ev._tail_padding@
}

fn copy_path(b: &[u8], at: usize) -> (r: [u8; MAX_PATH_LEN])
    requires
        at + MAX_PATH_LEN <= b@.len(),
    ensures
        r@ == b@.subrange(at as int, at + MAX_PATH_LEN),
{
    let mut r = [0u8; MAX_PATH_LEN];
    let n = b.len();
    let mut i: usize = 0;
    while i < MAX_PATH_LEN
        invariant
            n == b@.len(),
            at + MAX_PATH_LEN <= b@.len(),
            forall|k: int| 0 <= k < i ==> r[k] == b@[at + k],
        decreases MAX_PATH_LEN - i,
    {
        r[i] = b[at + i];
        i = i + 1;
    }
    assert(r@ =~= b@.subrange(at as int, at + MAX_PATH_LEN));
    r
}

fn copy_argv(b: &[u8], at: usize) -> (r: [u8; MAX_ARGV_LEN])
    requires
        at + MAX_ARGV_LEN <= b@.len(),
    ensures
        r@ == b@.subrange(at as int, at + MAX_ARGV_LEN),
{
    let mut r = [0u8; MAX_ARGV_LEN];
    let n = b.len();
    let mut i: usize = 0;
    while i < MAX_ARGV_LEN
        invariant
            n == b@.len(),
            at + MAX_ARGV_LEN <= b@.len(),
            forall|k: int| 0 <= k < i ==> r[k] == b@[at + k],
        decreases MAX_ARGV_LEN - i,
    {
        r[i] = b[at + i];
        i = i + 1;
    }
    assert(r@ =~= b@.subrange(at as int, at + MAX_ARGV_LEN));
    r
}

impl NtEvent {
    /// Reads a record from a ring-buffer item whose multi-byte fields are in
    /// the given byte order; an item shorter than a record gives `None`.
    pub fn from_bytes(bytes: &[u8], little: bool) -> (r: Option<NtEvent>)
        ensures
            r is Some <==> bytes@.len() >= NT_EVENT_SIZE,
            r matches Some(ev) ==> laid_out(ev, bytes@, little),
    {
        if bytes.len() < NT_EVENT_SIZE {
            return None;
        }
        let padding = [bytes[14], bytes[15]];
        let tail = [bytes[420], bytes[421], bytes[422], bytes[423]];
        let ev = NtEvent {
            pid: read_u32(bytes, 0, little),
            tgid: read_u32(bytes, 4, little),
            uid: read_u32(bytes, 8, little),
            event_type: bytes[12],
            action_taken: bytes[13],
            _padding: padding,
            cgroup_id: read_u64(bytes, 16, little),
            timestamp_ns: read_u64(bytes, 24, little),
            path: copy_path(bytes, 32),
            path_len: read_u16(bytes, 288, little),
            argv: copy_argv(bytes, 290),
            argv_len: read_u16(bytes, 418, little),
            _tail_padding: tail,
        };
        assert(ev._padding@ =~= bytes@.subrange(14, 16));
        assert(ev._tail_padding@ =~= bytes@.subrange(420, 424));
        Some(ev)
    }

    /// Reads a record written by this machine's kernel.
    pub fn from_native_bytes(bytes: &[u8]) -> (r: Option<NtEvent>)
        ensures
            r is Some <==> bytes@.len() >= NT_EVENT_SIZE,
            r matches Some(ev) ==> laid_out(ev, bytes@, machine_is_little()),
    {
        let little = native_is_little_endian();
        NtEvent::from_bytes(bytes, little)
    }
}

/// The bytes of the argument buffer in use.
pub open spec fn argv_bytes(ev: NtEvent) -> Seq<u8> {
    ev.argv@.take(
        if ev.argv_len < MAX_ARGV_LEN {
            ev.argv_len as int
        } else {
            MAX_ARGV_LEN as int
        },
    )
}

/// The path of the record as text (empty when it is not UTF-8).
pub open spec fn path_text(ev: NtEvent) -> Seq<char> {
    utf8_or_empty(path_bytes(ev))
}

/// The arguments of the record as text (empty when they are not UTF-8).
pub open spec fn argv_text(ev: NtEvent) -> Seq<char> {
    utf8_or_empty(argv_bytes(ev))
}

/// The path of the record as text.
pub fn extract_path_str(event: &NtEvent) -> (r: String)
    ensures
        r@ == path_text(*event),
{
    let len = if (event.path_len as usize) < MAX_PATH_LEN {
        event.path_len as usize
    } else {
        MAX_PATH_LEN
    };
    let (head, _) = event.path.as_slice().split_at(len);
    utf8_string_or_empty(head)
}

/// The arguments of the record as text.
pub fn extract_argv_str(event: &NtEvent) -> (r: String)
    ensures
        r@ == argv_text(*event),
{
    let len = if (event.argv_len as usize) < MAX_ARGV_LEN {
        event.argv_len as usize
    } else {
        MAX_ARGV_LEN
    };
    let (head, _) = event.argv.as_slice().split_at(len);
    utf8_string_or_empty(head)
}

/// How the controller responds to a violation record.
#[derive(Clone, Copy, Debug, PartialEq, Eq, Structural)]
pub enum EventResponse {
    /// Nothing to do.
    Ignore,
    /// Log it and send feedback.
    Report,
    /// Send `SIGKILL` to the process, log it and send feedback.
    KillAndReport,
}

/// The response to `ev`: when a compiled policy is given and no rule of it
/// speaks of the record, nothing; otherwise by the action taken: a block or
/// an audit is reported, a kill is carried out and reported, an allow is
/// ignored.
pub open spec fn response_to(ev: NtEvent, policy: Option<Seq<RuleSpec>>) -> EventResponse {
    if policy matches Some(rules) && match_spec(rules, ev.event_type, path_text(ev), argv_text(ev))
        is None {
        EventResponse::Ignore
    } else {
        match action_of_code(ev.action_taken) {
            PolicyAction::Block => EventResponse::Report,
            PolicyAction::Kill => EventResponse::KillAndReport,
            PolicyAction::Audit => EventResponse::Report,
            PolicyAction::Allow => EventResponse::Ignore,
        }
    }
}

/// Decides the response to a violation record.
pub fn handle_event(event: &NtEvent, compiled_policy: Option<&CompiledPolicy>) -> (r: EventResponse)
    ensures
        r == response_to(
            *event,
            match compiled_policy {
                Some(p) => Some(p@),
                None => None,
            },
        ),
{
    match compiled_policy {
        Some(policy) => {
            let path = extract_path_str(event);
            let argv = extract_argv_str(event);
            if policy.match_event(event.event_type, path.as_str(), argv.as_str()).is_none() {
                return EventResponse::Ignore;
            }
        },
        None => {},
    }
    match PolicyAction::from(event.action_taken) {
        PolicyAction::Block => EventResponse::Report,
        PolicyAction::Kill => EventResponse::KillAndReport,
        PolicyAction::Audit => EventResponse::Report,
        PolicyAction::Allow => EventResponse::Ignore,
    }
}

} // verus!
