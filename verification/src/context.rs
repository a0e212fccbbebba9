//! The register snapshot and its read/write index layer.
//!
//! Slots are addressed by the canonical DWARF register numbers for MIPS,
//! the numbering a Call Frame Information evaluator uses: `0..=31` are the
//! general-purpose registers, `32..=63` the floating-point registers, `64`
//! and `65` the `hi`/`lo` accumulators.  The index layer deliberately
//! exposes only the general-purpose class; a request outside it is a
//! contract violation, not a recoverable error, so [`Context::read`] and
//! [`Context::write`] require a supported number and [`Context::try_read`]
//! and [`Context::try_write`] report the violation as `None`/`false`.

use vstd::prelude::*;

verus! {

/// Number of distinct register slots a frame-recovery rule may address:
/// 32 general-purpose + 32 floating-point + 8 condition-code
/// + 2 accumulator slots.
pub const MAX_REG_RULES: usize = 74;

/// `gimli::Register` carries a canonical DWARF register number as its one
/// public `u16` field; declaring it lets contracts speak of that number.
#[verifier::external_type_specification]
pub struct ExRegister(gimli::Register);

/// One complete register snapshot.
///
/// Field order is a fixed layout contract shared with the capture and
/// restore primitives: general words first, then floating-point doubles,
/// then condition-code words, then the accumulators.
#[derive(Clone, Copy)]
pub struct Context {
    /// General-purpose registers `$0`..`$31`.
    pub gp: [usize; 32],
    /// Floating-point registers `$f0`..`$f31`, stored as raw 64-bit words.
    pub fp: [u64; 32],
    /// Condition-code registers.
    pub ccr: [usize; 8],
    /// Accumulator registers `hi` and `lo`.
    pub ar: [usize; 2],
}

impl Context {
    /// The canonical numbers the index layer exposes: the general-purpose
    /// class only.  Floating-point, condition-code and accumulator slots
    /// are reached by capture and restore alone.
    pub open spec fn index_supported(n: u16) -> bool {
        n <= 31
    }

    /// Every slot of every class holds zero.
    pub open spec fn is_zeroed(self) -> bool {
        &&& forall|i: int| 0 <= i < 32 ==> self.gp@[i] == 0usize
        &&& forall|i: int| 0 <= i < 32 ==> self.fp@[i] == 0u64
        &&& forall|i: int| 0 <= i < 8 ==> self.ccr@[i] == 0usize
        &&& forall|i: int| 0 <= i < 2 ==> self.ar@[i] == 0usize
    }

    /// The value the index layer associates with a supported number.
    pub open spec fn spec_read(self, n: u16) -> usize
        recommends
            Self::index_supported(n),
    {
        self.gp@[n as int]
    }

    /// `post` is `pre` with the slot of number `n` overwritten by `v` and
    /// every other slot, of every class, unchanged.
    pub open spec fn wrote(pre: Context, post: Context, n: u16, v: usize) -> bool {
        &&& post.gp@ == pre.gp@.update(n as int, v)
        &&& post.fp@ == pre.fp@
        &&& post.ccr@ == pre.ccr@
        &&& post.ar@ == pre.ar@
    }

    /// Read the slot of canonical number `reg`.
    ///
    /// Only the general-purpose class is supported: asking for any other
    /// number is a disagreement between the unwinder and this index layer,
    /// ruled out by contract rather than reported.
    pub fn read(&self, reg: gimli::Register) -> (value: usize)
        requires
            Self::index_supported(reg.0),
        ensures
            value == self.spec_read(reg.0),
    {
        self.gp[reg.0 as usize]
    }

    /// Overwrite the slot of canonical number `reg` with `value`.
    ///
    /// Supports the general-purpose class only, like [`Context::read`].
    pub fn write(&mut self, reg: gimli::Register, value: usize)
        requires
            Self::index_supported(reg.0),
        ensures
            Self::wrote(*old(self), *final(self), reg.0, value),
    {
        self.gp[reg.0 as usize] = value;
    }

    /// Read the slot of canonical number `reg`, or `None` if the number is
    /// outside the class the index layer supports.
    pub fn try_read(&self, reg: gimli::Register) -> (value: Option<usize>)
        ensures
            Self::index_supported(reg.0) ==> value == Some(self.spec_read(reg.0)),
            !Self::index_supported(reg.0) ==> value is None,
    {
        if reg.0 <= 31 {
            Some(self.gp[reg.0 as usize])
        } else {
            None
        }
    }

    /// Overwrite the slot of canonical number `reg` with `value`, or leave
    /// the snapshot untouched and report `false` if the number is outside
    /// the class the index layer supports.
    pub fn try_write(&mut self, reg: gimli::Register, value: usize) -> (written: bool)
        ensures
            written == Self::index_supported(reg.0),
            written ==> Self::wrote(*old(self), *final(self), reg.0, value),
            !written ==> *final(self) == *old(self),
    {
        if reg.0 <= 31 {
            self.gp[reg.0 as usize] = value;
            true
        } else {
            false
        }
    }
}

impl Default for Context {
    /// A fresh snapshot with no captured state: all slots zero.
    fn default() -> (result: Context)
        ensures
            result.is_zeroed(),
    {
        Context { gp: [0; 32], fp: [0; 32], ccr: [0; 8], ar: [0; 2] }
    }
}

/// A snapshot with no captured state reads as zero at every supported
/// number.
pub proof fn lemma_zeroed_reads_zero(c: Context, n: u16)
    requires
        c.is_zeroed(),
        Context::index_supported(n),
    ensures
        c.spec_read(n) == 0,
{
}

/// Writing a supported slot and reading it back yields the written value.
pub proof fn lemma_write_then_read(pre: Context, post: Context, n: u16, v: usize)
    requires
        Context::index_supported(n),
        Context::wrote(pre, post, n, v),
    ensures
        post.spec_read(n) == v,
{
}

/// Writing one supported slot leaves every other slot, of every class,
/// exactly as it was.
pub proof fn lemma_write_frames_others(pre: Context, post: Context, n: u16, v: usize)
    requires
        Context::index_supported(n),
        Context::wrote(pre, post, n, v),
    ensures
        forall|m: u16|
            Context::index_supported(m) && m != n ==> post.spec_read(m) == pre.spec_read(m),
        post.fp@ == pre.fp@,
        post.ccr@ == pre.ccr@,
        post.ar@ == pre.ar@,
{
}

/// Redirecting a snapshot to another frame: overwriting two distinct
/// supported slots in turn — say the slot restore takes its jump target
/// from and a stack-pointer slot — leaves both new values in place, so the
/// snapshot handed to restore carries exactly the redirected state.
pub proof fn lemma_redirect(
    pre: Context,
    mid: Context,
    post: Context,
    n1: u16,
    v1: usize,
    n2: u16,
    v2: usize,
)
    requires
        Context::index_supported(n1),
        Context::index_supported(n2),
        n1 != n2,
        Context::wrote(pre, mid, n1, v1),
        Context::wrote(mid, post, n2, v2),
    ensures
        post.spec_read(n1) == v1,
        post.spec_read(n2) == v2,
{
}

} // verus!
