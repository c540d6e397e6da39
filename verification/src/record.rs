//! The trap record: the canonical snapshot of processor state at the moment a
//! trap is taken.
//!
//! A record is pure data: seventeen general-purpose registers and five
//! control/status registers, each a 32-bit word, in a fixed, platform-defined
//! order. The order is an ABI contract: hardware-adjacent code and external
//! diagnostic tooling both read the record as a flat array of words, so
//! [`TrapRecord::words`] pins the exact word (and hence byte) offsets, and
//! [`TrapRecord::to_words`] / [`from_words`] realise that layout in both
//! directions.

use vstd::prelude::*;

verus! {

/// Number of 32-bit words in the serialised trap record layout.
pub const TRAP_RECORD_WORDS: usize = 22;

/// Complete interrupted-context state needed to resume execution or diagnose
/// a fault.
///
/// A record only ever lives between trap entry and the matching resume: each
/// trap builds a fresh one on its own stack frame, hands it to exactly one
/// handler, and consumes it in the exit sequence. A handler may mutate only
/// `mepc`, the general-purpose register fields, and the writable `mstatus`
/// bits; the restore step ignores any mutation of `mcause`, `mscause`, or
/// `mtval`.
#[derive(Clone, Copy, Debug, PartialEq, Eq, Structural)]
pub struct TrapRecord {
    /// Return address (link register) at trap time.
    pub ra: u32,
    /// Stack pointer at trap time.
    pub sp: u32,
    /// Argument-convention registers `a0..a7`.
    pub a0: u32,
    pub a1: u32,
    pub a2: u32,
    pub a3: u32,
    pub a4: u32,
    pub a5: u32,
    pub a6: u32,
    pub a7: u32,
    /// Temporary-convention registers `t0..t6`.
    pub t0: u32,
    pub t1: u32,
    pub t2: u32,
    pub t3: u32,
    pub t4: u32,
    pub t5: u32,
    pub t6: u32,
    /// Machine exception program counter: the address execution resumes at.
    /// A handler may rewrite it to skip or redirect execution.
    pub mepc: u32,
    /// Machine exception cause: the interrupt/exception discriminator bit
    /// plus a cause-specific code.
    pub mcause: u32,
    /// Vendor-specific supplementary cause detail; advisory only, never used
    /// for routing.
    pub mscause: u32,
    /// Machine status register snapshot at trap time.
    pub mstatus: u32,
    /// Faulting address or instruction bits; meaning depends on the cause.
    pub mtval: u32,
}

impl TrapRecord {
    /// The fixed serialised layout of the record: word `i` sits at byte
    /// offset `4 * i`. This order is the ABI contract shared with external
    /// diagnostic tooling.
    pub open spec fn words(self) -> Seq<u32> {
        seq![
            self.ra, self.sp,
            self.a0, self.a1, self.a2, self.a3, self.a4, self.a5, self.a6, self.a7,
            self.t0, self.t1, self.t2, self.t3, self.t4, self.t5, self.t6,
            self.mepc, self.mcause, self.mscause, self.mstatus, self.mtval,
        ]
    }

    /// Serialise the record into its fixed word layout.
    pub fn to_words(&self) -> (w: Vec<u32>)
        ensures
            w@ == self.words(),
    {
        let mut w: Vec<u32> = Vec::new();
        w.push(self.ra);
        w.push(self.sp);
        w.push(self.a0);
        w.push(self.a1);
        w.push(self.a2);
        w.push(self.a3);
        w.push(self.a4);
        w.push(self.a5);
        w.push(self.a6);
        w.push(self.a7);
        w.push(self.t0);
        w.push(self.t1);
        w.push(self.t2);
        w.push(self.t3);
        w.push(self.t4);
        w.push(self.t5);
        w.push(self.t6);
        w.push(self.mepc);
        w.push(self.mcause);
        w.push(self.mscause);
        w.push(self.mstatus);
        w.push(self.mtval);
        proof {
            assert(w@ =~= self.words());
        }
        w
    }
}

/// Parse a trap record back out of its fixed word layout, as reset-dump or
/// debugger tooling would. Succeeds exactly on inputs of the documented
/// length, and the parsed record serialises back to the same words.
pub fn from_words(w: &Vec<u32>) -> (r: Option<TrapRecord>)
    ensures
        r is Some <==> w@.len() == TRAP_RECORD_WORDS,
        r matches Some(rec) ==> rec.words() == w@,
{
    if w.len() != TRAP_RECORD_WORDS {
        return None;
    }
    let rec = TrapRecord {
        ra: w[0],
        sp: w[1],
        a0: w[2],
        a1: w[3],
        a2: w[4],
        a3: w[5],
        a4: w[6],
        a5: w[7],
        a6: w[8],
        a7: w[9],
        t0: w[10],
        t1: w[11],
        t2: w[12],
        t3: w[13],
        t4: w[14],
        t5: w[15],
        t6: w[16],
        mepc: w[17],
        mcause: w[18],
        mscause: w[19],
        mstatus: w[20],
        mtval: w[21],
    };
    proof {
        assert(rec.words() =~= w@);
    }
    Some(rec)
}

/// The serialised layout is faithful: it always has the documented length,
/// and no two distinct records share an encoding, so a dump determines the
/// record that produced it.
pub proof fn lemma_words_faithful(a: TrapRecord, b: TrapRecord)
    ensures
        a.words().len() == TRAP_RECORD_WORDS,
        a.words() == b.words() ==> a == b,
{
    if a.words() == b.words() {
        assert(a.ra == b.ra) by { assert(a.words()[0] == b.words()[0]); };
        assert(a.sp == b.sp) by { assert(a.words()[1] == b.words()[1]); };
        assert(a.a0 == b.a0) by { assert(a.words()[2] == b.words()[2]); };
        assert(a.a1 == b.a1) by { assert(a.words()[3] == b.words()[3]); };
        assert(a.a2 == b.a2) by { assert(a.words()[4] == b.words()[4]); };
        assert(a.a3 == b.a3) by { assert(a.words()[5] == b.words()[5]); };
        assert(a.a4 == b.a4) by { assert(a.words()[6] == b.words()[6]); };
        assert(a.a5 == b.a5) by { assert(a.words()[7] == b.words()[7]); };
        assert(a.a6 == b.a6) by { assert(a.words()[8] == b.words()[8]); };
        assert(a.a7 == b.a7) by { assert(a.words()[9] == b.words()[9]); };
        assert(a.t0 == b.t0) by { assert(a.words()[10] == b.words()[10]); };
        assert(a.t1 == b.t1) by { assert(a.words()[11] == b.words()[11]); };
        assert(a.t2 == b.t2) by { assert(a.words()[12] == b.words()[12]); };
        assert(a.t3 == b.t3) by { assert(a.words()[13] == b.words()[13]); };
        assert(a.t4 == b.t4) by { assert(a.words()[14] == b.words()[14]); };
        assert(a.t5 == b.t5) by { assert(a.words()[15] == b.words()[15]); };
        assert(a.t6 == b.t6) by { assert(a.words()[16] == b.words()[16]); };
        assert(a.mepc == b.mepc) by { assert(a.words()[17] == b.words()[17]); };
        assert(a.mcause == b.mcause) by { assert(a.words()[18] == b.words()[18]); };
        assert(a.mscause == b.mscause) by { assert(a.words()[19] == b.words()[19]); };
        assert(a.mstatus == b.mstatus) by { assert(a.words()[20] == b.words()[20]); };
        assert(a.mtval == b.mtval) by { assert(a.words()[21] == b.words()[21]); };
    }
}

} // verus!
