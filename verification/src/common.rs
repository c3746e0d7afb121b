//! Records shared between the kernel programs and the user-space controller.

use vstd::prelude::*;

verus! {

/// Longest label kept for a process, in bytes.
pub const MAX_LABEL_LEN: usize = 64;

/// Size of the path buffer of an event, in bytes.
pub const MAX_PATH_LEN: usize = 256;

/// Size of the argument buffer of an event, in bytes.
pub const MAX_ARGV_LEN: usize = 128;

/// Most labels a single process can carry.
pub const MAX_LABELS_PER_PROCESS: usize = 8;

/// Size of the event ring buffer, in bytes.
pub const RING_BUF_SIZE: u32 = 1024 * 1024;

/// What enforcement does with an operation.
#[derive(Clone, Copy, Debug, PartialEq, Eq, Structural)]
pub enum PolicyAction {
    Allow,
    Block,
    Kill,
    Audit,
}

/// Wire code of an action.
pub open spec fn action_code(a: PolicyAction) -> u8 {
    match a {
        PolicyAction::Allow => 0,
        PolicyAction::Block => 1,
        PolicyAction::Kill => 2,
        PolicyAction::Audit => 3,
    }
}

/// Action carried by a wire code; an unknown code means `Block` (default-deny).
pub open spec fn action_of_code(v: u8) -> PolicyAction {
    if v == 0 {
        PolicyAction::Allow
    } else if v == 2 {
        PolicyAction::Kill
    } else if v == 3 {
        PolicyAction::Audit
    } else {
        PolicyAction::Block
    }
}

impl PolicyAction {
    /// The action's wire code.
    pub fn to_u8(self) -> (r: u8)
        ensures
            r == action_code(self),
    {
        match self {
            PolicyAction::Allow => 0,
            PolicyAction::Block => 1,
            PolicyAction::Kill => 2,
            PolicyAction::Audit => 3,
        }
    }
}

impl From<u8> for PolicyAction {
    fn from(v: u8) -> (r: PolicyAction) {
        match v {
            0 => PolicyAction::Allow,
            1 => PolicyAction::Block,
            2 => PolicyAction::Kill,
            3 => PolicyAction::Audit,
            _ => PolicyAction::Block,
        }
    }
}

impl vstd::std_specs::convert::FromSpecImpl<u8> for PolicyAction {
    open spec fn obeys_from_spec() -> bool {
        true
    }

    open spec fn from_spec(v: u8) -> PolicyAction {
        action_of_code(v)
    }
}

/// Class of operation observed by a hook.
#[derive(Clone, Copy, Debug, PartialEq, Eq, Structural)]
pub enum EventType {
    Exec,
    Open,
    Unlink,
    Rename,
    Connect,
    Ptrace,
    Fork,
    Exit,
    TaskKill,
}

/// Wire code of an event type.
pub open spec fn event_code(e: EventType) -> u8 {
    match e {
        EventType::Exec => 0,
        EventType::Open => 1,
        EventType::Unlink => 2,
        EventType::Rename => 3,
        EventType::Connect => 4,
        EventType::Ptrace => 5,
        EventType::Fork => 6,
        EventType::Exit => 7,
        EventType::TaskKill => 8,
    }
}

/// Event type carried by a wire code; an unknown code reads as `Exec`.
pub open spec fn event_of_code(v: u8) -> EventType {
    if v == 1 {
        EventType::Open
    } else if v == 2 {
        EventType::Unlink
    } else if v == 3 {
        EventType::Rename
    } else if v == 4 {
        EventType::Connect
    } else if v == 5 {
        EventType::Ptrace
    } else if v == 6 {
        EventType::Fork
    } else if v == 7 {
        EventType::Exit
    } else if v == 8 {
        EventType::TaskKill
    } else {
        EventType::Exec
    }
}

impl EventType {
    /// The event type's wire code.
    pub fn to_u8(self) -> (r: u8)
        ensures
            r == event_code(self),
    {
        match self {
            EventType::Exec => 0,
            EventType::Open => 1,
            EventType::Unlink => 2,
            EventType::Rename => 3,
            EventType::Connect => 4,
            EventType::Ptrace => 5,
            EventType::Fork => 6,
            EventType::Exit => 7,
            EventType::TaskKill => 8,
        }
    }
}

impl From<u8> for EventType {
    fn from(v: u8) -> (r: EventType) {
        match v {
            0 => EventType::Exec,
            1 => EventType::Open,
            2 => EventType::Unlink,
            3 => EventType::Rename,
            4 => EventType::Connect,
            5 => EventType::Ptrace,
            6 => EventType::Fork,
            7 => EventType::Exit,
            8 => EventType::TaskKill,
            _ => EventType::Exec,
        }
    }
}

impl vstd::std_specs::convert::FromSpecImpl<u8> for EventType {
    open spec fn obeys_from_spec() -> bool {
        true
    }

    open spec fn from_spec(v: u8) -> EventType {
        event_of_code(v)
    }
}

/// One label of a process, stamped with the generation it was given in.
#[derive(Clone, Copy, Debug)]
pub struct LabelEntry {
    pub label: [u8; MAX_LABEL_LEN],
    pub label_len: u16,
    pub generation: u32,
    pub _padding: u16,
}

/// Key of the kernel policy table: a cgroup (0 for every cgroup) and an
/// event-type code.
#[derive(Clone, Copy, Debug)]
pub struct PolicyKey {
    pub cgroup_id: u64,
    pub event_type: u8,
    pub _padding: [u8; 7],
}

/// Value of the kernel policy table: an action code.
#[derive(Clone, Copy, Debug)]
pub struct PolicyValue {
    pub action: u8,
    pub _padding: [u8; 7],
}

/// A violation record as the kernel programs write it to the ring buffer.
#[derive(Clone, Copy, Debug)]
pub struct NtEvent {
    pub pid: u32,
    pub tgid: u32,
    pub uid: u32,
    pub event_type: u8,
    pub action_taken: u8,
    pub _padding: [u8; 2],
    pub cgroup_id: u64,
    pub timestamp_ns: u64,
    pub path: [u8; MAX_PATH_LEN],
    pub path_len: u16,
    pub argv: [u8; MAX_ARGV_LEN],
    pub argv_len: u16,
    pub _tail_padding: [u8; 4],
}

/// The task-boundary counter.
#[derive(Clone, Copy, Debug)]
pub struct GenerationCounter {
    pub current: u32,
}

/// The labels of one process: the first `count` entries are in use.
#[derive(Clone, Copy, Debug)]
pub struct ProcessLabels {
    pub labels: [LabelEntry; MAX_LABELS_PER_PROCESS],
    pub count: u8,
    pub _padding: [u8; 7],
}

/// How serious a violation is.
#[derive(Clone, Copy, Debug, PartialEq, Eq, Structural)]
pub enum Severity {
    Low,
    Medium,
    High,
    Critical,
}

/// One violation as reported to the agent (schema version 1).
#[derive(Clone, Debug)]
pub struct ViolationFeedback {
    pub version: u8,
    pub kind: &'static str,
    pub timestamp_ns: u64,
    pub pid: u32,
    pub hook: String,
    pub target: String,
    pub effect: String,
    pub rule: String,
    pub severity: Severity,
    pub suggested_retry: bool,
    pub message: String,
}

/// The lowercase name of an event type.
pub open spec fn event_name(e: EventType) -> Seq<char> {
    match e {
        EventType::Exec => "exec"@,
        EventType::Open => "open"@,
        EventType::Unlink => "unlink"@,
        EventType::Rename => "rename"@,
        EventType::Connect => "connect"@,
        EventType::Ptrace => "ptrace"@,
        EventType::Fork => "fork"@,
        EventType::Exit => "exit"@,
        EventType::TaskKill => "task_kill"@,
    }
}

/// The lowercase name of an action.
pub open spec fn action_name(a: PolicyAction) -> Seq<char> {
    match a {
        PolicyAction::Allow => "allow"@,
        PolicyAction::Block => "block"@,
        PolicyAction::Kill => "kill"@,
        PolicyAction::Audit => "audit"@,
    }
}

impl EventType {
    /// The lowercase name of the event type, as shown to people.
    pub fn name(self) -> (r: &'static str)
        ensures
            r@ == event_name(self),
    {
        match self {
            EventType::Exec => "exec",
            EventType::Open => "open",
            EventType::Unlink => "unlink",
            EventType::Rename => "rename",
            EventType::Connect => "connect",
            EventType::Ptrace => "ptrace",
            EventType::Fork => "fork",
            EventType::Exit => "exit",
            EventType::TaskKill => "task_kill",
        }
    }
}

impl PolicyAction {
    /// The lowercase name of the action, as shown to people.
    pub fn name(self) -> (r: &'static str)
        ensures
            r@ == action_name(self),
    {
        match self {
            PolicyAction::Allow => "allow",
            PolicyAction::Block => "block",
            PolicyAction::Kill => "kill",
            PolicyAction::Audit => "audit",
        }
    }
}

} // verus!
