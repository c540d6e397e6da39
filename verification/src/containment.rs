//! Fault containment: the terminal failure path.
//!
//! It is entered for a cause the dispatcher cannot classify, or when any
//! collaborator raises an explicit unrecoverable condition. There is no
//! unwinding anywhere in this core: containment distils the triggering trap
//! record into a minimal [`HaltRecord`] for external inspection tooling and
//! the machine then halts; the only transition out is an external reset.

use crate::record::TrapRecord;
use vstd::prelude::*;

verus! {

/// Number of 32-bit words in the serialised diagnostic readout.
pub const HALT_RECORD_WORDS: usize = 3;

/// The minimal diagnostic state recorded before the halt: the cause, the
/// faulting program counter, and the trap value of the trap that could not
/// be serviced. External debug tooling reads these three words after a halt
/// or reset; nothing else survives.
#[derive(Clone, Copy, Debug, PartialEq, Eq, Structural)]
pub struct HaltRecord {
    /// `mcause` of the trap that entered containment.
    pub mcause: u32,
    /// `mepc` of the trap that entered containment: where the machine was.
    pub mepc: u32,
    /// `mtval` of the trap that entered containment.
    pub mtval: u32,
}

/// The diagnostic state distilled from a trap record: exactly its `mcause`,
/// `mepc`, and `mtval` fields.
pub open spec fn diagnostic_spec(rec: TrapRecord) -> HaltRecord {
    HaltRecord { mcause: rec.mcause, mepc: rec.mepc, mtval: rec.mtval }
}

impl HaltRecord {
    /// The fixed serialised layout of the readout: word `i` sits at byte
    /// offset `4 * i`, in the order `mcause`, `mepc`, `mtval`.
    pub open spec fn words(self) -> Seq<u32> {
        seq![self.mcause, self.mepc, self.mtval]
    }

    /// Serialise the readout into its fixed word layout, ready to be placed
    /// at the documented diagnostic location.
    pub fn to_words(&self) -> (w: Vec<u32>)
        ensures
            w@ == self.words(),
            w@.len() == HALT_RECORD_WORDS,
    {
        let mut w: Vec<u32> = Vec::new();
        w.push(self.mcause);
        w.push(self.mepc);
        w.push(self.mtval);
        proof {
            assert(w@ =~= self.words());
        }
        w
    }
}

/// Enter fault containment: record the minimal diagnostic state of the
/// triggering trap. This path allocates nothing, recurses nowhere, and
/// cannot itself fault; what it returns is the complete observable state of
/// the halted machine.
pub fn contain(rec: &TrapRecord) -> (halt: HaltRecord)
    ensures
        halt == diagnostic_spec(*rec),
{
    HaltRecord { mcause: rec.mcause, mepc: rec.mepc, mtval: rec.mtval }
}

} // verus!
