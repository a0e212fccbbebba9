//! Machine register context for a MIPS stack-unwinding runtime.
//!
//! A [`Context`] is a fixed-layout snapshot of one thread's registers:
//! general-purpose words, floating-point doubles, condition-code words and
//! the two multiply/divide accumulators.  An external unwind cursor reads
//! and writes slots by their canonical DWARF register number, then hands
//! the snapshot to the architecture-specific restore primitive, which
//! loads it into the live registers and jumps to the address it encodes.

mod context;
mod dump;

pub use context::Context;
pub use context::MAX_REG_RULES;
pub use context::lemma_redirect;
pub use context::lemma_write_frames_others;
pub use context::lemma_write_then_read;
pub use context::lemma_zeroed_reads_zero;
pub use dump::is_dump_of;
pub use dump::lemma_dump_shape_deterministic;
pub use dump::mips_name;
