//! Labels attached to processes, each stamped with the generation it was
//! given in.

use vstd::prelude::*;
use vstd::string::StringSliceAdditionalSpecFns;

use crate::common::{LabelEntry, MAX_LABEL_LEN, MAX_LABELS_PER_PROCESS, ProcessLabels};
use crate::text::{decimal, decimal_text};

verus! {

impl LabelEntry {
    /// An unused label slot: all zero.
    pub fn empty() -> (r: LabelEntry)
        ensures
            r.label_len == 0,
            r.generation == 0,
            r._padding == 0,
            forall|i: int| 0 <= i < MAX_LABEL_LEN ==> r.label[i] == 0,
    {
        LabelEntry { label: [0u8; MAX_LABEL_LEN], label_len: 0, generation: 0, _padding: 0 }
    }
}

impl ProcessLabels {
    /// The labels of a process that has none.
    pub fn empty() -> (r: ProcessLabels)
        ensures
            r.count == 0,
            forall|i: int| 0 <= i < MAX_LABELS_PER_PROCESS ==> is_empty_entry(#[trigger] r.labels[i]),
            forall|i: int| 0 <= i < 7 ==> r._padding[i] == 0,
    {
        let e = LabelEntry::empty();
        ProcessLabels { labels: [e; MAX_LABELS_PER_PROCESS], count: 0, _padding: [0u8; 7] }
    }
}

/// An all-zero label slot.
pub open spec fn is_empty_entry(e: LabelEntry) -> bool {
    &&& e.label_len == 0
    &&& e.generation == 0
    &&& e._padding == 0
    &&& forall|i: int| 0 <= i < MAX_LABEL_LEN ==> e.label[i] == 0
}

/// How many bytes of a label of `n` bytes are kept.
pub open spec fn kept_len(n: nat) -> nat {
    if n < MAX_LABEL_LEN {
        n
    } else {
        MAX_LABEL_LEN as nat
    }
}

/// The slot a label with UTF-8 bytes `bytes` takes in `generation`: its first
/// `MAX_LABEL_LEN` bytes, zero-padded.
pub open spec fn label_slot(slot: LabelEntry, bytes: Seq<u8>, generation: u32) -> bool {
    &&& slot.label_len == kept_len(bytes.len())
    &&& slot.generation == generation
    &&& slot._padding == 0
    &&& forall|j: int|
        0 <= j < MAX_LABEL_LEN ==> #[trigger] slot.label[j] == if j < kept_len(bytes.len()) {
            bytes[j]
        } else {
            0
        }
}

/// How many labels the table holds for a process (none: no entry).
pub open spec fn existing_count(existing: Option<ProcessLabels>) -> int {
    match existing {
        Some(o) => o.count as int,
        None => 0,
    }
}

/// `l` is `existing` (no entry: no labels) with one more label, of UTF-8
/// bytes `bytes` in `generation`, in the next free slot; the other slots
/// and the padding are as before.
pub open spec fn label_added(existing: Option<ProcessLabels>, l: ProcessLabels, bytes: Seq<u8>, generation: u32) -> bool {
    let old_count = existing_count(existing);
    &&& l.count == old_count + 1
    &&& label_slot(l.labels[old_count], bytes, generation)
    &&& forall|i: int|
        0 <= i < MAX_LABELS_PER_PROCESS && i != old_count ==> match existing {
            Some(o) => #[trigger] l.labels[i] == o.labels[i],
            None => is_empty_entry(l.labels[i]),
        }
    &&& forall|i: int|
        0 <= i < 7 ==> #[trigger] l._padding[i] == match existing {
            Some(o) => o._padding[i],
            None => 0u8,
        }
}

/// Why a label cannot be given.
#[derive(Clone, Copy, Debug)]
pub enum LabelError {
    /// The process already carries the most labels it can.
    TooManyLabels { pid: u32 },
}

/// The text of the refusal.
pub open spec fn label_error_text(e: LabelError) -> Seq<char> {
    match e {
        LabelError::TooManyLabels { pid } => "process "@ + decimal_text(pid as nat)
            + " already has maximum labels ("@ + decimal_text(MAX_LABELS_PER_PROCESS as nat) + ")"@,
    }
}

impl LabelError {
    /// The human-readable text of the refusal.
    pub fn message(&self) -> (r: String)
        ensures
            r@ == label_error_text(*self),
    {
        match self {
            LabelError::TooManyLabels { pid } => {
                let mut s = String::from_str("process ");
                s.append(decimal(*pid as u64).as_str());
                s.append(" already has maximum labels (");
                s.append(decimal(MAX_LABELS_PER_PROCESS as u64).as_str());
                s.append(")");
                s
            },
        }
    }
}

/// Gives process `pid` the label `label` in `generation`. `existing` is what
/// the label table holds for the process (none: no labels yet). The label
/// takes the next free slot, cut to `MAX_LABEL_LEN` bytes; a process that
/// already has `MAX_LABELS_PER_PROCESS` labels is refused.
pub fn assign_label(
    existing: Option<ProcessLabels>,
    pid: u32,
    label: &str,
    generation: u32,
) -> (r: Result<ProcessLabels, LabelError>)
    ensures
        (existing_count(existing) >= MAX_LABELS_PER_PROCESS) <==> r is Err,
        r matches Err(e) ==> e == (LabelError::TooManyLabels { pid }),
        r matches Ok(l) ==> label_added(existing, l, label.spec_bytes(), generation),
{
    let mut process_labels = match existing {
        Some(l) => l,
        None => ProcessLabels::empty(),
    };
    let idx = process_labels.count as usize;
    if idx >= MAX_LABELS_PER_PROCESS {
        return Err(LabelError::TooManyLabels { pid });
    }
    let bytes = label.as_bytes();
    let copy_len = if bytes.len() < MAX_LABEL_LEN {
        bytes.len()
    } else {
        MAX_LABEL_LEN
    };
    let mut label_buf = [0u8; MAX_LABEL_LEN];
    let mut j: usize = 0;
    while j < copy_len
        invariant
            copy_len <= MAX_LABEL_LEN,
            copy_len <= bytes@.len(),
            j <= copy_len,
            forall|k: int| 0 <= k < MAX_LABEL_LEN ==> label_buf[k] == if k < j { bytes@[k] } else { 0 },
        decreases copy_len - j,
    {
        label_buf[j] = bytes[j];
        j = j + 1;
    }
    process_labels.labels[idx] = LabelEntry {
        label: label_buf,
        label_len: copy_len as u16,
        generation,
        _padding: 0,
    };
    process_labels.count = process_labels.count + 1;
    Ok(process_labels)
}

} // verus!
