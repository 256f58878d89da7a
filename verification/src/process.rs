//! Processes as the library sees them: an id and an executable name.

use vstd::prelude::*;
use vstd::slice::slice_subrange;
use crate::text::{decode_utf16_lossy, string_from_utf16_lossy};

verus! {

/// The access for which a process handle is opened: reading its image path,
/// or changing its priorities.
#[derive(Debug, Clone, Copy, PartialEq, Eq, Structural)]
pub enum HandleOpenType {
    QueryInfo,
    SetInfo,
}

/// A running process.
pub struct Process {
    pub id: u32,
    pub name: String,
}

/// The number of UTF-16 units before the first NUL, or all of them.
pub open spec fn nul_free_prefix_len(units: Seq<u16>) -> nat
    decreases units.len(),
{
    if units.len() == 0 || units[0] == 0 {
        0
    } else {
        1 + nul_free_prefix_len(units.drop_first())
    }
}

/// `units` cut at its first NUL.
pub open spec fn strip_nulls(units: Seq<u16>) -> Seq<u16> {
    units.take(nul_free_prefix_len(units) as int)
}

proof fn lemma_nul_free_prefix_len(units: Seq<u16>)
    ensures
        nul_free_prefix_len(units) <= units.len(),
        forall|j: int| 0 <= j < nul_free_prefix_len(units) ==> units[j] != 0,
        nul_free_prefix_len(units) < units.len() ==> units[nul_free_prefix_len(units) as int] == 0,
    decreases units.len(),
{
    if units.len() > 0 && units[0] != 0 {
        let rest = units.drop_first();
        lemma_nul_free_prefix_len(rest);
        assert forall|j: int| 0 <= j < nul_free_prefix_len(units) implies units[j] != 0 by {
            if j > 0 {
                assert(units[j] == rest[j - 1]);
            }
        }
    }
}

/// The prefix that `strip_nulls` keeps holds no NUL, and what it drops, if
/// anything, starts with one.
pub proof fn lemma_strip_nulls(units: Seq<u16>)
    ensures
        strip_nulls(units).len() <= units.len(),
        strip_nulls(units) =~= units.take(strip_nulls(units).len() as int),
        forall|j: int| 0 <= j < strip_nulls(units).len() ==> #[trigger] strip_nulls(units)[j] != 0,
        strip_nulls(units).len() < units.len() ==> units[strip_nulls(units).len() as int] == 0,
{
    lemma_nul_free_prefix_len(units);
}

/// Removing the NUL padding twice is removing it once.
pub proof fn lemma_strip_nulls_idempotent(units: Seq<u16>)
    ensures
        strip_nulls(strip_nulls(units)) == strip_nulls(units),
{
    lemma_strip_nulls(units);
    let s = strip_nulls(units);
    lemma_strip_nulls(s);
    if nul_free_prefix_len(s) < s.len() {
        assert(s[nul_free_prefix_len(s) as int] == 0);
    }
    assert(strip_nulls(s) =~= s);
}

/// The part of a NUL-padded UTF-16 buffer before its first NUL.
pub fn strip_trailing_nulls(slice: &[u16]) -> (r: &[u16])
    ensures
        r@ == strip_nulls(slice@),
{
    let mut i: usize = 0;
    while i < slice.len() && slice[i] != 0
        invariant
            i <= slice@.len(),
            forall|j: int| 0 <= j < i ==> slice@[j] != 0,
        decreases slice@.len() - i,
    {
        i = i + 1;
    }
    proof {
        lemma_nul_free_prefix_len(slice@);
        let n = nul_free_prefix_len(slice@);
        if n < i {
            assert(slice@[n as int] == 0);
        }
        if i < n {
            assert(slice@[i as int] != 0);
        }
    }
    slice_subrange(slice, 0, i)
}

/// The executable name held in a NUL-padded UTF-16 buffer, with unpaired
/// surrogates replaced by U+FFFD.
pub fn get_process_name(exe_file: &[u16]) -> (name: String)
    ensures
        name@ == decode_utf16_lossy(strip_nulls(exe_file@)),
{
    string_from_utf16_lossy(strip_trailing_nulls(exe_file))
}

impl Process {
    /// The process described by a process-list snapshot entry: its id and
    /// its NUL-padded UTF-16 executable name.
    pub fn from_snapshot_entry(id: u32, exe_file: &[u16]) -> (p: Process)
        ensures
            p.id == id,
            p.name@ == decode_utf16_lossy(strip_nulls(exe_file@)),
    {
        Process { id, name: get_process_name(exe_file) }
    }
}

} // verus!
