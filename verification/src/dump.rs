//! Diagnostic dump: every general-purpose and floating-point slot paired
//! with its canonical MIPS register name, in ascending canonical order.

use vstd::prelude::*;
use crate::context::Context;

verus! {

/// The canonical MIPS name of the register with canonical number `n`, as
/// `gimli`'s MIPS register-name table spells it (`"$5"`, `"$f12"`).
pub uninterp spec fn mips_name(n: u16) -> Seq<char>;

/// Relies on `gimli::MIPS::register_name`: the canonical MIPS table names
/// every number up to 65 — `0..=31` general purpose, `32..=63` floating
/// point, `64` and `65` the accumulators — and no other, and the name
/// depends on the number alone.
#[verifier::external_body]
fn register_name_of(n: u16) -> (r: Option<&'static str>)
    ensures
        n <= 65 ==> r is Some && r->0@ == mips_name(n),
        n > 65 ==> r is None,
{
    gimli::MIPS::register_name(gimli::Register(n))
}

/// `entries` pairs each general-purpose slot of `c`, then each
/// floating-point slot, with its canonical register name, in ascending
/// canonical order.  The names, their order and the entry count do not
/// depend on the register contents.
pub open spec fn is_dump_of(entries: Seq<(&'static str, u64)>, c: Context) -> bool {
    &&& entries.len() == 64
    &&& forall|i: int|
        0 <= i < 32 ==> (#[trigger] entries[i]).0@ == mips_name(i as u16) && entries[i].1
            == c.gp@[i] as u64
    &&& forall|i: int|
        32 <= i < 64 ==> (#[trigger] entries[i]).0@ == mips_name(i as u16) && entries[i].1
            == c.fp@[i - 32]
}

impl Context {
    /// The diagnostic dump: one named entry per general-purpose register
    /// followed by one per floating-point register, ascending by canonical
    /// number, each carrying the slot's current value widened to 64 bits.
    pub fn debug_view(&self) -> (entries: Vec<(&'static str, u64)>)
        ensures
            is_dump_of(entries@, *self),
    {
        let mut entries: Vec<(&'static str, u64)> = Vec::new();
        for n in 0..32usize
            invariant
                entries@.len() == n,
                forall|i: int|
                    0 <= i < n ==> (#[trigger] entries@[i]).0@ == mips_name(i as u16)
                        && entries@[i].1 == self.gp@[i] as u64,
        {
            let name = register_name_of(n as u16).unwrap();
            entries.push((name, self.gp[n] as u64));
        }
        for n in 32..64usize
            invariant
                entries@.len() == n,
                forall|i: int|
                    0 <= i < 32 ==> (#[trigger] entries@[i]).0@ == mips_name(i as u16)
                        && entries@[i].1 == self.gp@[i] as u64,
                forall|i: int|
                    32 <= i < n ==> (#[trigger] entries@[i]).0@ == mips_name(i as u16)
                        && entries@[i].1 == self.fp@[i - 32],
        {
            let name = register_name_of(n as u16).unwrap();
            entries.push((name, self.fp[n - 32]));
        }
        entries
    }
}

/// The dump is deterministic in shape: whatever two snapshots hold, their
/// dumps have the same length and carry the same names in the same order.
pub proof fn lemma_dump_shape_deterministic(
    e1: Seq<(&'static str, u64)>,
    e2: Seq<(&'static str, u64)>,
    c1: Context,
    c2: Context,
)
    requires
        is_dump_of(e1, c1),
        is_dump_of(e2, c2),
    ensures
        e1.len() == e2.len(),
        forall|i: int| 0 <= i < e1.len() ==> (#[trigger] e1[i]).0@ == e2[i].0@,
{
}

} // verus!
