//! Checks that the host can run the enforcement.

use vstd::prelude::*;
use vstd::string::StringSliceAdditionalSpecFns;

verus! {

/// The bytes hold `bpf` somewhere.
pub open spec fn mentions_bpf(b: Seq<u8>) -> bool {
    exists|i: int| 0 <= i && i + 3 <= b.len() && #[trigger] b[i] == 98 && b[i + 1] == 112 && b[i + 2] == 102
}

/// Whether the kernel's list of active security modules (the contents of
/// `/sys/kernel/security/lsm`) names the BPF module, that is, holds `bpf`.
pub fn bpf_lsm_listed(lsm_list: &str) -> (r: bool)
    ensures
        r == mentions_bpf(lsm_list.spec_bytes()),
{
    let b = lsm_list.as_bytes();
    let n = b.len();
    if n < 3 {
        return false;
    }
    let mut i: usize = 0;
    while i < n - 2
        invariant
            n == b@.len(),
            b@ == lsm_list.spec_bytes(),
            n >= 3,
            i <= n - 2,
            forall|j: int| 0 <= j < i ==> !(#[trigger] b@[j] == 98 && b@[j + 1] == 112 && b@[j + 2] == 102),
        decreases n - i,
    {
        if b[i] == 98 && b[i + 1] == 112 && b[i + 2] == 102 {
            return true;
        }
        i = i + 1;
    }
    false
}

} // verus!
