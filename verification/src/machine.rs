//! The entry/exit sequence: the bridge between the hardware register file and
//! handler-level code.
//!
//! [`RegisterFile`] models the machine state this core reads and writes: the
//! program counter, the seventeen general-purpose registers the trap ABI
//! saves, and the five machine-mode control/status registers. On trap entry,
//! [`capture`] snapshots that state into a fresh [`TrapRecord`] with no
//! register clobbered before it is recorded; on exit, [`restore`] writes the
//! (possibly handler-modified) record back and redirects execution to the
//! record's `mepc`, ignoring any mutation of the fields a handler is
//! forbidden to change.

use crate::record::TrapRecord;
use vstd::prelude::*;

verus! {

/// The `mstatus` bits a handler may legally alter before resume: the
/// machine interrupt-enable bit MIE (bit 3), its pre-trap shadow MPIE
/// (bit 7), and the previous-privilege field MPP (bits 11 and 12). The
/// restore step takes exactly these bits from the record and keeps every
/// other bit as the hardware holds it.
pub const MSTATUS_WRITABLE_MASK: u32 = 0x1888;

/// The live hardware state the trap core touches: the program counter, the
/// general-purpose registers the trap ABI saves, and the machine-mode
/// control/status registers.
#[derive(Clone, Copy, Debug, PartialEq, Eq, Structural)]
pub struct RegisterFile {
    /// Program counter: the address of the next instruction to execute.
    pub pc: u32,
    /// Return address (link register).
    pub ra: u32,
    /// Stack pointer.
    pub sp: u32,
    /// Argument-convention registers `a0..a7`.
    pub a0: u32,
    pub a1: u32,
    pub a2: u32,
    pub a3: u32,
    pub a4: u32,
    pub a5: u32,
    pub a6: u32,
    pub a7: u32,
    /// Temporary-convention registers `t0..t6`.
    pub t0: u32,
    pub t1: u32,
    pub t2: u32,
    pub t3: u32,
    pub t4: u32,
    pub t5: u32,
    pub t6: u32,
    /// Machine exception program counter CSR: set by hardware to the
    /// interrupted instruction's address when a trap is taken.
    pub mepc: u32,
    /// Machine cause CSR: set by hardware when a trap is taken.
    pub mcause: u32,
    /// Vendor-specific supplementary cause CSR.
    pub mscause: u32,
    /// Machine status CSR.
    pub mstatus: u32,
    /// Machine trap value CSR: set by hardware when a trap is taken.
    pub mtval: u32,
}

/// What the entry sequence records: every saved register and CSR, taken from
/// the live state before anything is clobbered.
pub open spec fn capture_spec(hw: RegisterFile) -> TrapRecord {
    TrapRecord {
        ra: hw.ra,
        sp: hw.sp,
        a0: hw.a0,
        a1: hw.a1,
        a2: hw.a2,
        a3: hw.a3,
        a4: hw.a4,
        a5: hw.a5,
        a6: hw.a6,
        a7: hw.a7,
        t0: hw.t0,
        t1: hw.t1,
        t2: hw.t2,
        t3: hw.t3,
        t4: hw.t4,
        t5: hw.t5,
        t6: hw.t6,
        mepc: hw.mepc,
        mcause: hw.mcause,
        mscause: hw.mscause,
        mstatus: hw.mstatus,
        mtval: hw.mtval,
    }
}

/// The `mstatus` value the exit sequence writes back: the writable bits come
/// from the record, every other bit keeps the value the hardware holds now.
pub open spec fn mstatus_merge_spec(current: u32, requested: u32) -> u32 {
    (current & !MSTATUS_WRITABLE_MASK) | (requested & MSTATUS_WRITABLE_MASK)
}

/// What the exit sequence leaves in the hardware: every saved register comes
/// back from the record, execution is redirected to the record's `mepc`, only
/// the writable `mstatus` bits are taken from the record, and the
/// hardware-owned cause CSRs (`mcause`, `mscause`, `mtval`) are left alone —
/// a handler mutation of those record fields is ignored.
pub open spec fn restore_spec(pre: RegisterFile, rec: TrapRecord) -> RegisterFile {
    RegisterFile {
        pc: rec.mepc,
        ra: rec.ra,
        sp: rec.sp,
        a0: rec.a0,
        a1: rec.a1,
        a2: rec.a2,
        a3: rec.a3,
        a4: rec.a4,
        a5: rec.a5,
        a6: rec.a6,
        a7: rec.a7,
        t0: rec.t0,
        t1: rec.t1,
        t2: rec.t2,
        t3: rec.t3,
        t4: rec.t4,
        t5: rec.t5,
        t6: rec.t6,
        mepc: rec.mepc,
        mcause: pre.mcause,
        mscause: pre.mscause,
        mstatus: mstatus_merge_spec(pre.mstatus, rec.mstatus),
        mtval: pre.mtval,
    }
}

/// Entry sequence, capture step: build a fresh trap record from the live
/// register state. Each trap constructs its own record on its own stack
/// frame; nothing is shared between traps.
pub fn capture(hw: &RegisterFile) -> (rec: TrapRecord)
    ensures
        rec == capture_spec(*hw),
{
    TrapRecord {
        ra: hw.ra,
        sp: hw.sp,
        a0: hw.a0,
        a1: hw.a1,
        a2: hw.a2,
        a3: hw.a3,
        a4: hw.a4,
        a5: hw.a5,
        a6: hw.a6,
        a7: hw.a7,
        t0: hw.t0,
        t1: hw.t1,
        t2: hw.t2,
        t3: hw.t3,
        t4: hw.t4,
        t5: hw.t5,
        t6: hw.t6,
        mepc: hw.mepc,
        mcause: hw.mcause,
        mscause: hw.mscause,
        mstatus: hw.mstatus,
        mtval: hw.mtval,
    }
}

/// Merge a handler-requested `mstatus` value into the current one, honouring
/// only the writable bits.
pub fn mstatus_merge(current: u32, requested: u32) -> (merged: u32)
    ensures
        merged == mstatus_merge_spec(current, requested),
{
    (current & !MSTATUS_WRITABLE_MASK) | (requested & MSTATUS_WRITABLE_MASK)
}

/// Exit sequence: write the (possibly handler-modified) record back to the
/// hardware registers and redirect execution to the record's `mepc`. This is
/// the last effect before control returns to interrupted code: no operation
/// after it alters the restored registers.
pub fn restore(rec: &TrapRecord, hw: &mut RegisterFile)
    ensures
        *final(hw) == restore_spec(*old(hw), *rec),
{
    hw.mstatus = mstatus_merge(hw.mstatus, rec.mstatus);
    hw.t6 = rec.t6;
    hw.t5 = rec.t5;
    hw.t4 = rec.t4;
    hw.t3 = rec.t3;
    hw.t2 = rec.t2;
    hw.t1 = rec.t1;
    hw.t0 = rec.t0;
    hw.a7 = rec.a7;
    hw.a6 = rec.a6;
    hw.a5 = rec.a5;
    hw.a4 = rec.a4;
    hw.a3 = rec.a3;
    hw.a2 = rec.a2;
    hw.a1 = rec.a1;
    hw.a0 = rec.a0;
    hw.sp = rec.sp;
    hw.ra = rec.ra;
    hw.mepc = rec.mepc;
    hw.pc = rec.mepc;
}

/// Merging an `mstatus` value with itself changes nothing: a record whose
/// `mstatus` field was not touched restores the hardware value exactly.
pub proof fn lemma_mstatus_merge_identity(m: u32)
    ensures
        mstatus_merge_spec(m, m) == m,
{
    assert(mstatus_merge_spec(m, m) == m) by (bit_vector);
}

/// If two values agree outside the writable bits, merging the second into
/// the first yields the second exactly.
pub proof fn lemma_mstatus_merge_agrees(current: u32, requested: u32)
    requires
        current & !MSTATUS_WRITABLE_MASK == requested & !MSTATUS_WRITABLE_MASK,
    ensures
        mstatus_merge_spec(current, requested) == requested,
{
    assert(mstatus_merge_spec(current, requested) == requested) by (bit_vector)
        requires
            current & !MSTATUS_WRITABLE_MASK == requested & !MSTATUS_WRITABLE_MASK,
    ;
}

/// Round trip: capturing any reachable register state and restoring the
/// record without modification leaves every captured field byte-identical,
/// and resumes execution at the recorded `mepc`.
pub proof fn lemma_capture_restore_round_trip(s: RegisterFile)
    ensures
        restore_spec(s, capture_spec(s)) == (RegisterFile { pc: s.mepc, ..s }),
{
    lemma_mstatus_merge_identity(s.mstatus);
}

/// Field isolation: mutating only `mepc` in a captured record and resuming
/// redirects execution to the new address while every other register keeps
/// its pre-trap value.
pub proof fn lemma_field_isolation(s: RegisterFile, new_mepc: u32)
    ensures
        restore_spec(s, TrapRecord { mepc: new_mepc, ..capture_spec(s) }) == (RegisterFile {
            pc: new_mepc,
            mepc: new_mepc,
            ..s
        }),
{
    lemma_mstatus_merge_identity(s.mstatus);
}

/// Nesting safety: a trap taken while another trap's handler runs gets its
/// own independent record. The inner round trip restores the inner state by
/// itself, and afterwards the outer trap's still-pending record restores
/// every captured general-purpose register of the outer state and resumes at
/// the outer `mepc` — the inner trap corrupts nothing the outer record holds.
/// The restored `mstatus` also matches the outer state's whenever the inner
/// state agrees with it outside the writable bits, which holds in a real nest
/// because no handler can change the non-writable bits.
pub proof fn lemma_nesting_safety(outer: RegisterFile, inner: RegisterFile)
    ensures
        ({
            let after_inner = restore_spec(inner, capture_spec(inner));
            let outer_resumed = restore_spec(after_inner, capture_spec(outer));
            &&& after_inner == (RegisterFile { pc: inner.mepc, ..inner })
            &&& outer_resumed.pc == outer.mepc
            &&& outer_resumed.mepc == outer.mepc
            &&& outer_resumed.ra == outer.ra
            &&& outer_resumed.sp == outer.sp
            &&& outer_resumed.a0 == outer.a0
            &&& outer_resumed.a1 == outer.a1
            &&& outer_resumed.a2 == outer.a2
            &&& outer_resumed.a3 == outer.a3
            &&& outer_resumed.a4 == outer.a4
            &&& outer_resumed.a5 == outer.a5
            &&& outer_resumed.a6 == outer.a6
            &&& outer_resumed.a7 == outer.a7
            &&& outer_resumed.t0 == outer.t0
            &&& outer_resumed.t1 == outer.t1
            &&& outer_resumed.t2 == outer.t2
            &&& outer_resumed.t3 == outer.t3
            &&& outer_resumed.t4 == outer.t4
            &&& outer_resumed.t5 == outer.t5
            &&& outer_resumed.t6 == outer.t6
            &&& inner.mstatus & !MSTATUS_WRITABLE_MASK == outer.mstatus
                & !MSTATUS_WRITABLE_MASK ==> outer_resumed.mstatus == outer.mstatus
        }),
{
    lemma_mstatus_merge_identity(inner.mstatus);
    if inner.mstatus & !MSTATUS_WRITABLE_MASK == outer.mstatus & !MSTATUS_WRITABLE_MASK {
        lemma_mstatus_merge_agrees(inner.mstatus, outer.mstatus);
    }
}

} // verus!
