//! The complete trap-servicing pipeline: capture, dispatch, handle, and
//! either resume or halt.
//!
//! The three handler roles are bound at build time, as direct symbols rather
//! than a runtime registry — there is no heap to hold one. The defaults here
//! leave the record untouched; surrounding firmware supplies real bodies and
//! may sequence [`crate::machine::capture`], [`crate::dispatch::select_route`]
//! and [`crate::machine::restore`] itself with its own handlers in between.
//! Whatever the handlers do, a trap has exactly two outcomes: resume the
//! interrupted program, or halt with a diagnostic readout.

use crate::containment::HaltRecord;
use crate::containment::contain;
use crate::containment::diagnostic_spec;
use crate::dispatch::EntryVector;
use crate::dispatch::Route;
use crate::dispatch::route_spec;
use crate::dispatch::select_route;
use crate::machine::RegisterFile;
use crate::machine::capture;
use crate::machine::capture_spec;
use crate::machine::restore;
use crate::machine::restore_spec;
use crate::record::TrapRecord;
use vstd::prelude::*;

verus! {

/// Byte width of one instruction on this platform.
pub const INSTRUCTION_BYTES: u32 = 4;

/// The two possible results of servicing a trap. Nothing else can happen:
/// there is no unwinding path.
#[derive(Clone, Copy, Debug, PartialEq, Eq, Structural)]
pub enum TrapOutcome {
    /// The interrupted program continues with this register state.
    Resume(RegisterFile),
    /// The machine halts; only this diagnostic readout remains observable.
    Halt(HaltRecord),
}

/// Default synchronous exception handler role: leaves the record untouched,
/// so resume continues exactly where the trap was taken.
pub fn exception_handler(trap_record: &mut TrapRecord)
    ensures
        *final(trap_record) == *old(trap_record),
{
}

/// Default asynchronous interrupt handler role: a serviced interrupt resumes
/// the interrupted program unchanged.
pub fn interrupt_handler(trap_record: &mut TrapRecord)
    ensures
        *final(trap_record) == *old(trap_record),
{
}

/// Default non-maskable interrupt handler role: trusts the least possible
/// machine state and touches nothing.
pub fn nmi_handler(trap_record: &mut TrapRecord)
    ensures
        *final(trap_record) == *old(trap_record),
{
}

/// The address of the instruction after `pc`, with the wrap-around the
/// 32-bit program counter itself has.
pub open spec fn next_instruction_spec(pc: u32) -> u32 {
    if pc + INSTRUCTION_BYTES > u32::MAX {
        (pc + INSTRUCTION_BYTES - 0x1_0000_0000) as u32
    } else {
        (pc + INSTRUCTION_BYTES) as u32
    }
}

/// Handler helper: advance `mepc` past the faulting instruction, leaving
/// every other field untouched — the canonical recovery for a fault the
/// handler decides to skip.
pub fn skip_faulting_instruction(trap_record: &mut TrapRecord)
    ensures
        *final(trap_record) == (TrapRecord {
            mepc: next_instruction_spec(old(trap_record).mepc),
            ..*old(trap_record)
        }),
{
    trap_record.mepc = trap_record.mepc.wrapping_add(INSTRUCTION_BYTES);
}

/// What servicing a trap with the default handlers yields: a cause the
/// dispatcher can classify resumes the captured state unchanged; any other
/// cause halts with the diagnostic readout of the captured record.
pub open spec fn service_spec(hw: RegisterFile, vector: EntryVector) -> TrapOutcome {
    let rec = capture_spec(hw);
    if route_spec(vector, hw.mcause) == Route::Containment {
        TrapOutcome::Halt(diagnostic_spec(rec))
    } else {
        TrapOutcome::Resume(restore_spec(hw, rec))
    }
}

/// Service one trap end to end with the build-time default handlers:
/// capture the live state into a fresh record, route on the entry vector and
/// the record's `mcause`, invoke the selected handler role, then either
/// restore and resume or enter fault containment and halt.
pub fn service_trap(hw: &RegisterFile, vector: EntryVector) -> (outcome: TrapOutcome)
    ensures
        outcome == service_spec(*hw, vector),
{
    let mut rec = capture(hw);
    let route = select_route(vector, rec.mcause);
    match route {
        Route::Interrupt => {
            interrupt_handler(&mut rec);
            let mut next = *hw;
            restore(&rec, &mut next);
            TrapOutcome::Resume(next)
        },
        Route::Exception => {
            exception_handler(&mut rec);
            let mut next = *hw;
            restore(&rec, &mut next);
            TrapOutcome::Resume(next)
        },
        Route::Nmi => {
            nmi_handler(&mut rec);
            let mut next = *hw;
            restore(&rec, &mut next);
            TrapOutcome::Resume(next)
        },
        Route::Containment => TrapOutcome::Halt(contain(&rec)),
    }
}

/// Unrecoverable-error signal: any collaborator that detects a condition it
/// cannot locally recover from forces fault containment directly, bypassing
/// dispatch. There is no unwinding alternative; the outcome is always a
/// halt carrying the triggering record's diagnostic fields.
pub fn panic(trap_record: &TrapRecord) -> (outcome: TrapOutcome)
    ensures
        outcome == TrapOutcome::Halt(diagnostic_spec(*trap_record)),
{
    TrapOutcome::Halt(contain(trap_record))
}

/// Unhandled-cause containment: for a cause code outside the platform's
/// defined set, servicing halts rather than resuming or reaching an
/// arbitrary handler, and the diagnostic readout carries the faulting
/// trap's `mcause`, `mepc`, and `mtval`.
pub proof fn lemma_unhandled_cause_halts(hw: RegisterFile)
    requires
        route_spec(EntryVector::Trap, hw.mcause) == Route::Containment,
    ensures
        service_spec(hw, EntryVector::Trap) == TrapOutcome::Halt(
            HaltRecord { mcause: hw.mcause, mepc: hw.mepc, mtval: hw.mtval },
        ),
{
}

/// NMI servicing never consults `mcause`-based routing: on the NMI vector
/// the outcome is the NMI handler's resume whatever stale value `mcause`
/// holds, and it is never a containment halt.
pub proof fn lemma_nmi_service_isolation(hw: RegisterFile)
    ensures
        service_spec(hw, EntryVector::Nmi) == TrapOutcome::Resume(
            restore_spec(hw, capture_spec(hw)),
        ),
{
}

} // verus!
