//! The decisions the kernel programs take on every intercepted operation:
//! which action the policy table gives, whether the process's labels are
//! still of the current generation, what the hook returns to the kernel,
//! and which violation record it emits.

use vstd::prelude::*;

use crate::bytes::{machine_is_little, native_is_little_endian, u32_bytes, u32_to_bytes};
use crate::common::{
    EventType, GenerationCounter, MAX_ARGV_LEN, MAX_LABELS_PER_PROCESS, MAX_PATH_LEN, NtEvent,
    PolicyAction, PolicyKey, PolicyValue, ProcessLabels, action_code, action_of_code, event_code,
};

verus! {

/// Largest socket address a connect hook copies, in bytes.
pub const MAX_SOCKADDR_LEN: usize = 28;

/// What a hook returns to refuse an operation: `-EPERM`.
pub const DENIED: i32 = -1;

/// The policy-table key for an operation of `event_type` in cgroup `cgroup_id`.
pub fn lookup_key(cgroup_id: u64, event_type: EventType) -> (r: PolicyKey)
    ensures
        r.cgroup_id == cgroup_id,
        r.event_type == event_code(event_type),
        forall|i: int| 0 <= i < 7 ==> r._padding[i] == 0,
{
    PolicyKey { cgroup_id, event_type: event_type.to_u8(), _padding: [0u8; 7] }
}

/// The action for an operation: a process on the allow-list is always
/// allowed; otherwise the entry for its cgroup decides, then the entry for
/// every cgroup (cgroup 0); with neither, the operation is blocked
/// (default-deny). An unknown action code also blocks.
pub open spec fn policy_decision(
    allowlisted: bool,
    cgroup_entry: Option<PolicyValue>,
    global_entry: Option<PolicyValue>,
) -> PolicyAction {
    if allowlisted {
        PolicyAction::Allow
    } else {
        match cgroup_entry {
            Some(v) => action_of_code(v.action),
            None => match global_entry {
                Some(v) => action_of_code(v.action),
                None => PolicyAction::Block,
            },
        }
    }
}

/// Decides the action for an operation from the allow-list answer and the
/// two policy-table lookups (the process's cgroup, then cgroup 0).
pub fn check_policy(
    allowlisted: bool,
    cgroup_entry: Option<PolicyValue>,
    global_entry: Option<PolicyValue>,
) -> (r: PolicyAction)
    ensures
        r == policy_decision(allowlisted, cgroup_entry, global_entry),
{
    if allowlisted {
        return PolicyAction::Allow;
    }
    match cgroup_entry {
        Some(v) => PolicyAction::from(v.action),
        None => match global_entry {
            Some(v) => PolicyAction::from(v.action),
            None => PolicyAction::Block,
        },
    }
}

/// A label is fresh when it carries the current generation or generation 0
/// (unversioned, never stale).
pub open spec fn label_fresh(generation: u32, current: u32) -> bool {
    generation == current || generation == 0
}

/// Every label in use (at most the first eight) is fresh.
pub open spec fn labels_fresh(l: ProcessLabels, current: u32) -> bool {
    forall|i: int|
        0 <= i < l.count && i < MAX_LABELS_PER_PROCESS ==> label_fresh(
            #[trigger] l.labels[i].generation,
            current,
        )
}

/// The generation check passes when no generation is tracked, when the
/// process has no labels, or when all its labels are fresh.
pub open spec fn generation_ok(current: Option<GenerationCounter>, labels: Option<ProcessLabels>) -> bool {
    match current {
        None => true,
        Some(g) => match labels {
            None => true,
            Some(l) => labels_fresh(l, g.current),
        },
    }
}

/// Checks the process's labels (if any) against the current generation (if
/// tracked).
pub fn check_generation(current: Option<GenerationCounter>, labels: Option<ProcessLabels>) -> (r: bool)
    ensures
        r == generation_ok(current, labels),
{
    let current_gen = match current {
        Some(g) => g.current,
        None => return true,
    };
    let l = match labels {
        Some(l) => l,
        None => return true,
    };
    let count = l.count as usize;
    let mut i: usize = 0;
    while i < count && i < MAX_LABELS_PER_PROCESS
        invariant
            count == l.count,
            current matches Some(g) && g.current == current_gen,
            labels == Some(l),
            forall|j: int|
                0 <= j < i ==> label_fresh(#[trigger] l.labels[j].generation, current_gen),
        decreases count - i,
    {
        let g = l.labels[i].generation;
        if g != current_gen && g != 0 {
            assert(!label_fresh(l.labels[i as int].generation, current_gen));
            return false;
        }
        i = i + 1;
    }
    true
}

/// The generation that follows the one read from the counter (a missing
/// counter reads as 0); it wraps around after `u32::MAX`.
pub open spec fn next_generation(read: Option<GenerationCounter>) -> u32 {
    let c = match read {
        Some(g) => g.current,
        None => 0,
    };
    if c == u32::MAX {
        0
    } else {
        (c + 1) as u32
    }
}

impl GenerationCounter {
    /// The counter after a task boundary.
    pub fn bump(read: Option<GenerationCounter>) -> (r: GenerationCounter)
        ensures
            r.current == next_generation(read),
    {
        let current = match read {
            Some(g) => g,
            None => GenerationCounter { current: 0 },
        };
        GenerationCounter { current: current.current.wrapping_add(1) }
    }
}

/// What a hook answers the kernel, and the action of the violation record
/// it emits, if any.
#[derive(Clone, Copy, Debug)]
pub struct HookVerdict {
    pub ret: i32,
    pub emit: Option<PolicyAction>,
}

/// The hook's answer: a stale generation refuses and reports a block;
/// otherwise `Allow` permits silently, `Block` and `Kill` refuse with
/// `-EPERM` and report (the controller sends `SIGKILL` on `Kill`), and
/// `Audit` permits and reports.
pub open spec fn verdict_for(action: PolicyAction, generation_fresh: bool) -> HookVerdict {
    if !generation_fresh {
        HookVerdict { ret: DENIED, emit: Some(PolicyAction::Block) }
    } else {
        match action {
            PolicyAction::Allow => HookVerdict { ret: 0, emit: None },
            PolicyAction::Block => HookVerdict { ret: DENIED, emit: Some(PolicyAction::Block) },
            PolicyAction::Kill => HookVerdict { ret: DENIED, emit: Some(PolicyAction::Kill) },
            PolicyAction::Audit => HookVerdict { ret: 0, emit: Some(PolicyAction::Audit) },
        }
    }
}

fn verdict(action: PolicyAction, generation_fresh: bool) -> (r: HookVerdict)
    ensures
        r == verdict_for(action, generation_fresh),
{
    if !generation_fresh {
        return HookVerdict { ret: DENIED, emit: Some(PolicyAction::Block) };
    }
    match action {
        PolicyAction::Allow => HookVerdict { ret: 0, emit: None },
        PolicyAction::Block => HookVerdict { ret: DENIED, emit: Some(PolicyAction::Block) },
        PolicyAction::Kill => HookVerdict { ret: DENIED, emit: Some(PolicyAction::Kill) },
        PolicyAction::Audit => HookVerdict { ret: 0, emit: Some(PolicyAction::Audit) },
    }
}

/// What a hook answers the kernel, and the violation record it emits, if
/// any.
#[derive(Clone, Copy, Debug)]
pub struct HookResult {
    pub ret: i32,
    pub event: Option<NtEvent>,
}

/// The fields every violation record of a hook carries: the calling
/// process, the operation, the action taken and the kernel time.
pub open spec fn record_header(
    e: NtEvent,
    pid: u32,
    tgid: u32,
    event_type: EventType,
    action: PolicyAction,
    timestamp_ns: u64,
) -> bool {
    &&& e.pid == pid
    &&& e.tgid == tgid
    &&& e.uid == 0
    &&& e.event_type == event_code(event_type)
    &&& e.action_taken == action_code(action)
    &&& e.cgroup_id == 0
    &&& e.timestamp_ns == timestamp_ns
    &&& forall|i: int| 0 <= i < 2 ==> e._padding[i] == 0
    &&& forall|i: int| 0 <= i < 4 ==> e._tail_padding[i] == 0
}

/// The path buffer is empty.
pub open spec fn path_empty(e: NtEvent) -> bool {
    e.path_len == 0 && forall|i: int| 0 <= i < MAX_PATH_LEN ==> e.path[i] == 0
}

/// The argument buffer is empty.
pub open spec fn argv_empty(e: NtEvent) -> bool {
    e.argv_len == 0 && forall|i: int| 0 <= i < MAX_ARGV_LEN ==> e.argv[i] == 0
}

/// A record with empty path and argument buffers.
pub open spec fn blank_record(
    e: NtEvent,
    pid: u32,
    tgid: u32,
    event_type: EventType,
    action: PolicyAction,
    timestamp_ns: u64,
) -> bool {
    record_header(e, pid, tgid, event_type, action, timestamp_ns) && path_empty(e) && argv_empty(e)
}

/// A record carrying the given path buffer and length, and no arguments.
pub open spec fn path_record(
    e: NtEvent,
    pid: u32,
    tgid: u32,
    event_type: EventType,
    action: PolicyAction,
    timestamp_ns: u64,
    path: [u8; MAX_PATH_LEN],
    path_len: u16,
) -> bool {
    &&& record_header(e, pid, tgid, event_type, action, timestamp_ns)
    &&& e.path == path
    &&& e.path_len == path_len
    &&& argv_empty(e)
}

/// The record of a connect: the kept bytes of the socket address (when it
/// could be read) in the path buffer, the rest zero.
pub open spec fn sockaddr_record(
    e: NtEvent,
    pid: u32,
    tgid: u32,
    action: PolicyAction,
    timestamp_ns: u64,
    addr: Option<[u8; MAX_SOCKADDR_LEN]>,
    addrlen: i32,
) -> bool {
    &&& record_header(e, pid, tgid, EventType::Connect, action, timestamp_ns)
    &&& argv_empty(e)
    &&& match addr {
        None => path_empty(e),
        Some(b) => {
            &&& forall|i: int|
                0 <= i < MAX_PATH_LEN ==> e.path[i] == if i < sockaddr_keep_len(addrlen) {
                    b[i]
                } else {
                    0u8
                }
            &&& e.path_len == sockaddr_keep_len(addrlen) as u16
        },
    }
}

/// The record of a signal: the target's process id (when it could be read)
/// in the first four argument bytes, in this machine's byte order, with
/// argument length 4.
pub open spec fn signal_record(
    e: NtEvent,
    pid: u32,
    tgid: u32,
    action: PolicyAction,
    timestamp_ns: u64,
    target_pid: Option<u32>,
) -> bool {
    &&& record_header(e, pid, tgid, EventType::TaskKill, action, timestamp_ns)
    &&& path_empty(e)
    &&& match target_pid {
        None => argv_empty(e),
        Some(t) => {
            &&& forall|i: int|
                0 <= i < MAX_ARGV_LEN ==> e.argv[i] == if i < 4 {
                    u32_bytes(t, machine_is_little())[i]
                } else {
                    0u8
                }
            &&& e.argv_len == 4
        },
    }
}

/// The answer of `v` with a record carrying `path`, built when `v` reports.
fn emit_with_path(
    v: HookVerdict,
    pid: u32,
    tgid: u32,
    event_type: EventType,
    timestamp_ns: u64,
    path: [u8; MAX_PATH_LEN],
    path_len: u16,
) -> (r: HookResult)
    ensures
        r.ret == v.ret,
        v.emit is None ==> r.event is None,
        v.emit matches Some(a) ==> r.event matches Some(e) && path_record(
            e,
            pid,
            tgid,
            event_type,
            a,
            timestamp_ns,
            path,
            path_len,
        ),
{
    match v.emit {
        None => HookResult { ret: v.ret, event: None },
        Some(a) => HookResult {
            ret: v.ret,
            event: Some(NtEvent::for_violation(pid, tgid, event_type, a, timestamp_ns).with_path(path, path_len)),
        },
    }
}

/// Program execution (`bprm_check_security`) by process `pid` (thread
/// group `tgid`) at kernel time `timestamp_ns`: policy, then generation; the
/// record carries the program path read from the kernel.
pub fn handle_exec(
    pid: u32,
    tgid: u32,
    timestamp_ns: u64,
    action: PolicyAction,
    generation_fresh: bool,
    path: [u8; MAX_PATH_LEN],
    path_len: u16,
) -> (r: HookResult)
    ensures
        r.ret == verdict_for(action, generation_fresh).ret,
        verdict_for(action, generation_fresh).emit is None ==> r.event is None,
        verdict_for(action, generation_fresh).emit matches Some(a) ==> r.event matches Some(e)
            && path_record(e, pid, tgid, EventType::Exec, a, timestamp_ns, path, path_len),
{
    emit_with_path(verdict(action, generation_fresh), pid, tgid, EventType::Exec, timestamp_ns, path, path_len)
}

/// File open (`file_open`): policy, then generation; the record carries
/// the file name read from the kernel.
pub fn handle_file_open(
    pid: u32,
    tgid: u32,
    timestamp_ns: u64,
    action: PolicyAction,
    generation_fresh: bool,
    path: [u8; MAX_PATH_LEN],
    path_len: u16,
) -> (r: HookResult)
    ensures
        r.ret == verdict_for(action, generation_fresh).ret,
        verdict_for(action, generation_fresh).emit is None ==> r.event is None,
        verdict_for(action, generation_fresh).emit matches Some(a) ==> r.event matches Some(e)
            && path_record(e, pid, tgid, EventType::Open, a, timestamp_ns, path, path_len),
{
    emit_with_path(verdict(action, generation_fresh), pid, tgid, EventType::Open, timestamp_ns, path, path_len)
}

/// File removal (`inode_unlink`): policy, then generation; the record
/// carries the file name read from the kernel.
pub fn handle_unlink(
    pid: u32,
    tgid: u32,
    timestamp_ns: u64,
    action: PolicyAction,
    generation_fresh: bool,
    path: [u8; MAX_PATH_LEN],
    path_len: u16,
) -> (r: HookResult)
    ensures
        r.ret == verdict_for(action, generation_fresh).ret,
        verdict_for(action, generation_fresh).emit is None ==> r.event is None,
        verdict_for(action, generation_fresh).emit matches Some(a) ==> r.event matches Some(e)
            && path_record(e, pid, tgid, EventType::Unlink, a, timestamp_ns, path, path_len),
{
    emit_with_path(verdict(action, generation_fresh), pid, tgid, EventType::Unlink, timestamp_ns, path, path_len)
}

/// File rename (`inode_rename`): policy, then generation; the record
/// carries the file name read from the kernel.
pub fn handle_rename(
    pid: u32,
    tgid: u32,
    timestamp_ns: u64,
    action: PolicyAction,
    generation_fresh: bool,
    path: [u8; MAX_PATH_LEN],
    path_len: u16,
) -> (r: HookResult)
    ensures
        r.ret == verdict_for(action, generation_fresh).ret,
        verdict_for(action, generation_fresh).emit is None ==> r.event is None,
        verdict_for(action, generation_fresh).emit matches Some(a) ==> r.event matches Some(e)
            && path_record(e, pid, tgid, EventType::Rename, a, timestamp_ns, path, path_len),
{
    emit_with_path(verdict(action, generation_fresh), pid, tgid, EventType::Rename, timestamp_ns, path, path_len)
}

/// Outbound connection (`socket_connect`): policy, then generation. `addr`
/// is the socket address read from the kernel (`None` when it could not be
/// read) and `addrlen` its length as the caller gave it.
pub fn handle_connect(
    pid: u32,
    tgid: u32,
    timestamp_ns: u64,
    action: PolicyAction,
    generation_fresh: bool,
    addr: Option<[u8; MAX_SOCKADDR_LEN]>,
    addrlen: i32,
) -> (r: HookResult)
    ensures
        r.ret == verdict_for(action, generation_fresh).ret,
        verdict_for(action, generation_fresh).emit is None ==> r.event is None,
        verdict_for(action, generation_fresh).emit matches Some(a) ==> r.event matches Some(e)
            && sockaddr_record(e, pid, tgid, a, timestamp_ns, addr, addrlen),
{
    let v = verdict(action, generation_fresh);
    match v.emit {
        None => HookResult { ret: v.ret, event: None },
        Some(a) => {
            let ev = NtEvent::for_violation(pid, tgid, EventType::Connect, a, timestamp_ns);
            let ev = match addr {
                Some(b) => ev.with_sockaddr(b, addrlen),
                None => ev,
            };
            HookResult { ret: v.ret, event: Some(ev) }
        },
    }
}

/// Process tracing (`ptrace_access_check`): policy, then generation; the
/// record has empty buffers.
pub fn handle_ptrace(
    pid: u32,
    tgid: u32,
    timestamp_ns: u64,
    action: PolicyAction,
    generation_fresh: bool,
) -> (r: HookResult)
    ensures
        r.ret == verdict_for(action, generation_fresh).ret,
        verdict_for(action, generation_fresh).emit is None ==> r.event is None,
        verdict_for(action, generation_fresh).emit matches Some(a) ==> r.event matches Some(e)
            && blank_record(e, pid, tgid, EventType::Ptrace, a, timestamp_ns),
{
    let v = verdict(action, generation_fresh);
    match v.emit {
        None => HookResult { ret: v.ret, event: None },
        Some(a) => HookResult {
            ret: v.ret,
            event: Some(NtEvent::for_violation(pid, tgid, EventType::Ptrace, a, timestamp_ns)),
        },
    }
}

/// The answer to a signal: a sender on the allow-list (the controller) may
/// always signal, with no record; a target that cannot be read is let
/// through (fail-open); a sender with stale labels is refused and reported
/// as a block; a signal to a process on the allow-list is refused and
/// reported as a block; otherwise the policy decides.
pub open spec fn task_kill_verdict(
    sender_allowlisted: bool,
    target_pid: Option<u32>,
    target_allowlisted: bool,
    action: PolicyAction,
    generation_fresh: bool,
) -> HookVerdict {
    if sender_allowlisted {
        HookVerdict { ret: 0, emit: None }
    } else if target_pid is None {
        HookVerdict { ret: 0, emit: None }
    } else if !generation_fresh {
        HookVerdict { ret: DENIED, emit: Some(PolicyAction::Block) }
    } else if target_allowlisted {
        HookVerdict { ret: DENIED, emit: Some(PolicyAction::Block) }
    } else {
        verdict_for(action, true)
    }
}

/// Signal delivery (`task_kill`) from process `sender_pid` (thread group
/// `sender_tgid`), protecting the controller. `target_pid` is the target's
/// process id, `None` when it could not be read; `target_allowlisted`
/// whether that id is on the allow-list; `action` the policy's action for
/// the sender. The record carries the target's id in this machine's byte
/// order.
pub fn handle_task_kill(
    sender_pid: u32,
    sender_tgid: u32,
    timestamp_ns: u64,
    sender_allowlisted: bool,
    target_pid: Option<u32>,
    target_allowlisted: bool,
    action: PolicyAction,
    generation_fresh: bool,
) -> (r: HookResult)
    ensures
        r.ret == task_kill_verdict(
            sender_allowlisted,
            target_pid,
            target_allowlisted,
            action,
            generation_fresh,
        ).ret,
        task_kill_verdict(sender_allowlisted, target_pid, target_allowlisted, action, generation_fresh).emit
            is None ==> r.event is None,
        task_kill_verdict(sender_allowlisted, target_pid, target_allowlisted, action, generation_fresh).emit
            matches Some(a) ==> r.event matches Some(e) && signal_record(
            e,
            sender_pid,
            sender_tgid,
            a,
            timestamp_ns,
            target_pid,
        ),
{
    let v = if sender_allowlisted {
        HookVerdict { ret: 0, emit: None }
    } else if target_pid.is_none() {
        HookVerdict { ret: 0, emit: None }
    } else if !generation_fresh {
        HookVerdict { ret: DENIED, emit: Some(PolicyAction::Block) }
    } else if target_allowlisted {
        HookVerdict { ret: DENIED, emit: Some(PolicyAction::Block) }
    } else {
        verdict(action, true)
    };
    match v.emit {
        None => HookResult { ret: v.ret, event: None },
        Some(a) => {
            let ev = NtEvent::for_violation(sender_pid, sender_tgid, EventType::TaskKill, a, timestamp_ns);
            let ev = match target_pid {
                Some(t) => ev.with_target_pid(t, native_is_little_endian()),
                None => ev,
            };
            HookResult { ret: v.ret, event: Some(ev) }
        },
    }
}

/// How many bytes of a socket address of length `addrlen` the connect hook
/// keeps: none for a non-positive length, at most `MAX_SOCKADDR_LEN`.
pub open spec fn sockaddr_keep_len(addrlen: i32) -> int {
    if addrlen <= 0 {
        0
    } else if addrlen > MAX_SOCKADDR_LEN {
        MAX_SOCKADDR_LEN as int
    } else {
        addrlen as int
    }
}

/// How many bytes of a socket address of length `addrlen` the connect hook
/// keeps.
pub fn connect_read_len(addrlen: i32) -> (r: usize)
    ensures
        r == sockaddr_keep_len(addrlen),
{
    if addrlen <= 0 {
        0
    } else if addrlen > MAX_SOCKADDR_LEN as i32 {
        MAX_SOCKADDR_LEN
    } else {
        addrlen as usize
    }
}

impl NtEvent {
    /// A violation record of `event_type` with `action` for the process, at
    /// kernel time `timestamp_ns`, with empty path and argument buffers.
    pub fn for_violation(
        pid: u32,
        tgid: u32,
        event_type: EventType,
        action: PolicyAction,
        timestamp_ns: u64,
    ) -> (r: NtEvent)
        ensures
            r.pid == pid,
            r.tgid == tgid,
            r.uid == 0,
            r.event_type == event_code(event_type),
            r.action_taken == action_code(action),
            r.cgroup_id == 0,
            r.timestamp_ns == timestamp_ns,
            r.path_len == 0,
            r.argv_len == 0,
            forall|i: int| 0 <= i < MAX_PATH_LEN ==> r.path[i] == 0,
            forall|i: int| 0 <= i < MAX_ARGV_LEN ==> r.argv[i] == 0,
            forall|i: int| 0 <= i < 2 ==> r._padding[i] == 0,
            forall|i: int| 0 <= i < 4 ==> r._tail_padding[i] == 0,
    {
        NtEvent {
            pid,
            tgid,
            uid: 0,
            event_type: event_type.to_u8(),
            action_taken: action.to_u8(),
            _padding: [0u8; 2],
            cgroup_id: 0,
            timestamp_ns,
            path: [0u8; MAX_PATH_LEN],
            path_len: 0,
            argv: [0u8; MAX_ARGV_LEN],
            argv_len: 0,
            _tail_padding: [0u8; 4],
        }
    }

    /// The record with the given path buffer and length (the program path
    /// of an exec, the file name of a file operation).
    pub fn with_path(self, path: [u8; MAX_PATH_LEN], path_len: u16) -> (r: NtEvent)
        ensures
            r == (NtEvent { path, path_len, ..self }),
    {
        NtEvent { path, path_len, ..self }
    }

    /// The record of a connect with the socket address read from the
    /// kernel: the first `connect_read_len(addrlen)` bytes go to the path
    /// buffer, and the path length becomes that count when it is positive.
    pub fn with_sockaddr(self, addr: [u8; MAX_SOCKADDR_LEN], addrlen: i32) -> (r: NtEvent)
        ensures
            forall|i: int|
                0 <= i < MAX_PATH_LEN ==> r.path[i] == if i < sockaddr_keep_len(addrlen) {
                    addr[i]
                } else {
                    self.path[i]
                },
            r.path_len == if sockaddr_keep_len(addrlen) > 0 {
                sockaddr_keep_len(addrlen) as u16
            } else {
                self.path_len
            },
            r == (NtEvent { path: r.path, path_len: r.path_len, ..self }),
    {
        let mut ev = self;
        let read_len = connect_read_len(addrlen);
        if read_len > 0 {
            let mut i: usize = 0;
            while i < read_len && i < MAX_PATH_LEN
                invariant
                    read_len == sockaddr_keep_len(addrlen),
                    read_len <= MAX_SOCKADDR_LEN,
                    i <= read_len,
                    ev == (NtEvent { path: ev.path, ..self }),
                    forall|j: int|
                        0 <= j < MAX_PATH_LEN ==> ev.path[j] == if j < i {
                            addr[j]
                        } else {
                            self.path[j]
                        },
                decreases read_len - i,
            {
                ev.path[i] = addr[i];
                i = i + 1;
            }
            ev.path_len = read_len as u16;
        }
        ev
    }

    /// The record of a signal: the target's process id goes to the first
    /// four argument bytes, in the given byte order, and the argument
    /// length becomes 4.
    pub fn with_target_pid(self, target_pid: u32, little: bool) -> (r: NtEvent)
        ensures
            forall|i: int|
                0 <= i < MAX_ARGV_LEN ==> r.argv[i] == if i < 4 {
                    u32_bytes(target_pid, little)[i]
                } else {
                    self.argv[i]
                },
            r.argv_len == 4,
            r == (NtEvent { argv: r.argv, argv_len: 4, ..self }),
    {
        let b = u32_to_bytes(target_pid, little);
        let mut ev = self;
        ev.argv[0] = b[0];
        ev.argv[1] = b[1];
        ev.argv[2] = b[2];
        ev.argv[3] = b[3];
        ev.argv_len = 4;
        ev
    }
}

} // verus!
