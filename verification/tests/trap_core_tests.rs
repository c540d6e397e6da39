use trap_core::containment::HaltRecord;
use trap_core::containment::contain;
use trap_core::dispatch::EntryVector;
use trap_core::dispatch::Route;
use trap_core::dispatch::TrapClass;
use trap_core::dispatch::cause_code;
use trap_core::dispatch::classify;
use trap_core::dispatch::is_exception_code_defined;
use trap_core::dispatch::is_interrupt_code_defined;
use trap_core::dispatch::select_route;
use trap_core::machine::RegisterFile;
use trap_core::machine::capture;
use trap_core::machine::mstatus_merge;
use trap_core::machine::restore;
use trap_core::record::TRAP_RECORD_WORDS;
use trap_core::record::from_words;
use trap_core::service::TrapOutcome;
use trap_core::service::service_trap;
use trap_core::service::skip_faulting_instruction;

fn sample_state() -> RegisterFile {
    RegisterFile {
        pc: 0x8000_0100,
        ra: 0x8000_0044,
        sp: 0x8001_fff0,
        a0: 0x11,
        a1: 0x12,
        a2: 0x13,
        a3: 0x14,
        a4: 0x15,
        a5: 0x16,
        a6: 0x17,
        a7: 0x18,
        t0: 0x21,
        t1: 0x22,
        t2: 0x23,
        t3: 0x24,
        t4: 0x25,
        t5: 0x26,
        t6: 0x27,
        mepc: 0x8000_0100,
        mcause: 0x0000_0002,
        mscause: 0x0000_0001,
        mstatus: 0x0000_1888,
        mtval: 0xdead_0000,
    }
}

#[test]
fn round_trip_restores_captured_state() {
    let s = sample_state();
    let rec = capture(&s);
    let mut hw = s;
    restore(&rec, &mut hw);
    // every captured field is byte-identical; execution resumes at mepc
    assert_eq!(hw, RegisterFile { pc: s.mepc, ..s });
    assert_eq!(hw.pc, 0x8000_0100);
}

#[test]
fn mepc_rewrite_moves_only_the_resume_point() {
    let s = sample_state();
    let mut rec = capture(&s);
    rec.mepc = 0x8000_0abc;
    let mut hw = s;
    restore(&rec, &mut hw);
    assert_eq!(hw.pc, 0x8000_0abc);
    assert_eq!(hw.mepc, 0x8000_0abc);
    assert_eq!(
        hw,
        RegisterFile { pc: 0x8000_0abc, mepc: 0x8000_0abc, ..s }
    );
}

#[test]
fn restore_ignores_forbidden_field_mutations() {
    let s = sample_state();
    let mut rec = capture(&s);
    rec.mcause = 0x7777_7777;
    rec.mscause = 0x6666_6666;
    rec.mtval = 0x5555_5555;
    let mut hw = s;
    restore(&rec, &mut hw);
    // the hardware-owned cause registers keep their values
    assert_eq!(hw.mcause, s.mcause);
    assert_eq!(hw.mscause, s.mscause);
    assert_eq!(hw.mtval, s.mtval);
}

#[test]
fn restore_merges_only_writable_mstatus_bits() {
    let s = sample_state();
    let mut rec = capture(&s);
    rec.mstatus = 0xffff_ffff;
    let mut hw = s;
    restore(&rec, &mut hw);
    // pre-trap mstatus is 0x1888: the writable bits were already set, so
    // requesting all ones changes nothing outside the mask
    assert_eq!(hw.mstatus, 0x0000_1888);
}

#[test]
fn mstatus_merge_exact_values() {
    assert_eq!(mstatus_merge(0xffff_ffff, 0x0000_0000), 0xffff_e777);
    assert_eq!(mstatus_merge(0x0000_0000, 0xffff_ffff), 0x0000_1888);
    assert_eq!(mstatus_merge(0x0000_1888, 0x0000_1888), 0x0000_1888);
}

#[test]
fn classify_reads_only_the_discriminator_bit() {
    assert_eq!(classify(0x8000_0007), TrapClass::Interrupt);
    assert_eq!(classify(0x0000_0007), TrapClass::Exception);
    assert_eq!(classify(0x8000_0000), TrapClass::Interrupt);
    assert_eq!(classify(0x0000_0000), TrapClass::Exception);
    // same low bits, opposite discriminator
    assert_eq!(classify(0x8000_0003), TrapClass::Interrupt);
    assert_eq!(classify(0x0000_0003), TrapClass::Exception);
}

#[test]
fn cause_code_strips_the_discriminator_bit() {
    assert_eq!(cause_code(0x8000_0007), 7);
    assert_eq!(cause_code(0x0000_0007), 7);
    assert_eq!(cause_code(0xffff_ffff), 0x7fff_ffff);
}

#[test]
fn defined_cause_sets() {
    assert!(is_interrupt_code_defined(3));
    assert!(is_interrupt_code_defined(7));
    assert!(is_interrupt_code_defined(11));
    assert!(!is_interrupt_code_defined(1));
    assert!(!is_interrupt_code_defined(12));
    assert!(is_exception_code_defined(0));
    assert!(is_exception_code_defined(2));
    assert!(is_exception_code_defined(15));
    assert!(!is_exception_code_defined(10));
    assert!(!is_exception_code_defined(14));
    assert!(!is_exception_code_defined(16));
}

#[test]
fn dispatch_routes_by_discriminator_bit() {
    assert_eq!(select_route(EntryVector::Trap, 0x8000_0007), Route::Interrupt);
    assert_eq!(select_route(EntryVector::Trap, 0x0000_0002), Route::Exception);
    // identical code, opposite bit: the route follows the bit alone
    assert_eq!(select_route(EntryVector::Trap, 0x8000_0003), Route::Interrupt);
    assert_eq!(select_route(EntryVector::Trap, 0x0000_0003), Route::Exception);
}

#[test]
fn nmi_vector_bypasses_cause_routing() {
    // whatever stale value mcause holds, the NMI vector reaches the NMI route
    assert_eq!(select_route(EntryVector::Nmi, 0x0000_0000), Route::Nmi);
    assert_eq!(select_route(EntryVector::Nmi, 0x8000_0007), Route::Nmi);
    assert_eq!(select_route(EntryVector::Nmi, 0x0000_0018), Route::Nmi);
    assert_eq!(select_route(EntryVector::Nmi, 0xffff_ffff), Route::Nmi);
    let mut s = sample_state();
    s.mcause = 0x0000_0018; // stale, unclassifiable value
    match service_trap(&s, EntryVector::Nmi) {
        TrapOutcome::Resume(hw) => assert_eq!(hw, RegisterFile { pc: s.mepc, ..s }),
        TrapOutcome::Halt(_) => unreachable!(),
    }
}

#[test]
fn unhandled_cause_reaches_containment() {
    // undefined exception code
    assert_eq!(select_route(EntryVector::Trap, 0x0000_0018), Route::Containment);
    // reserved codes inside the defined range
    assert_eq!(select_route(EntryVector::Trap, 0x0000_000a), Route::Containment);
    assert_eq!(select_route(EntryVector::Trap, 0x0000_000e), Route::Containment);
    // undefined interrupt code
    assert_eq!(select_route(EntryVector::Trap, 0x8000_0001), Route::Containment);
}

#[test]
fn nested_trap_leaves_outer_record_intact() {
    let outer = sample_state();
    let outer_rec = capture(&outer);

    // an inner trap is taken while the outer handler runs, on its own frame
    let mut inner = sample_state();
    inner.a0 = 0x9999;
    inner.mepc = 0x8000_0200;
    inner.mcause = 0x8000_0007;
    let inner_rec = capture(&inner);
    let mut hw = inner;
    restore(&inner_rec, &mut hw);
    assert_eq!(hw, RegisterFile { pc: inner.mepc, ..inner });

    // the outer record still restores the outer context afterwards
    restore(&outer_rec, &mut hw);
    assert_eq!(hw.pc, outer.mepc);
    assert_eq!(hw.ra, outer.ra);
    assert_eq!(hw.sp, outer.sp);
    assert_eq!(hw.a0, outer.a0);
    assert_eq!(hw.t6, outer.t6);
    assert_eq!(hw.mstatus, outer.mstatus);
}

#[test]
fn illegal_instruction_skip_scenario() {
    let mut s = sample_state();
    s.mcause = 0x0000_0002; // illegal instruction
    s.mepc = 0x8000_0100;
    let mut rec = capture(&s);
    assert_eq!(select_route(EntryVector::Trap, rec.mcause), Route::Exception);
    skip_faulting_instruction(&mut rec);
    let mut hw = s;
    restore(&rec, &mut hw);
    assert_eq!(hw.pc, 0x8000_0104);
    assert_eq!(hw.mepc, 0x8000_0104);
    assert_eq!(
        hw,
        RegisterFile { pc: 0x8000_0104, mepc: 0x8000_0104, ..s }
    );
}

#[test]
fn skip_wraps_at_the_top_of_the_address_space() {
    let s = sample_state();
    let mut rec = capture(&s);
    rec.mepc = 0xffff_fffe;
    skip_faulting_instruction(&mut rec);
    assert_eq!(rec.mepc, 0x0000_0002);
}

#[test]
fn unclassified_cause_halts_with_diagnostics() {
    let mut s = sample_state();
    s.mcause = 0x0000_0018; // reserved, undefined code
    s.mepc = 0x8000_0777;
    s.mtval = 0x0bad_beef;
    match service_trap(&s, EntryVector::Trap) {
        TrapOutcome::Halt(halt) => {
            assert_eq!(halt.mcause, 0x0000_0018);
            assert_eq!(halt.mepc, 0x8000_0777);
            assert_eq!(halt.mtval, 0x0bad_beef);
        }
        TrapOutcome::Resume(_) => unreachable!(),
    }
}

#[test]
fn serviced_interrupt_resumes_unchanged() {
    let mut s = sample_state();
    s.mcause = 0x8000_0007; // machine timer interrupt
    match service_trap(&s, EntryVector::Trap) {
        TrapOutcome::Resume(hw) => assert_eq!(hw, RegisterFile { pc: s.mepc, ..s }),
        TrapOutcome::Halt(_) => unreachable!(),
    }
}

#[test]
fn serviced_exception_resumes_unchanged() {
    let s = sample_state(); // mcause 2: defined exception
    match service_trap(&s, EntryVector::Trap) {
        TrapOutcome::Resume(hw) => assert_eq!(hw, RegisterFile { pc: s.mepc, ..s }),
        TrapOutcome::Halt(_) => unreachable!(),
    }
}

#[test]
fn unrecoverable_signal_always_halts() {
    let s = sample_state();
    let rec = capture(&s);
    let outcome = trap_core::service::panic(&rec);
    assert_eq!(
        outcome,
        TrapOutcome::Halt(HaltRecord {
            mcause: s.mcause,
            mepc: s.mepc,
            mtval: s.mtval,
        })
    );
}

#[test]
fn record_serialises_in_the_documented_order() {
    let s = sample_state();
    let rec = capture(&s);
    let words = rec.to_words();
    assert_eq!(words.len(), TRAP_RECORD_WORDS);
    assert_eq!(words[0], s.ra);
    assert_eq!(words[1], s.sp);
    assert_eq!(words[2], s.a0);
    assert_eq!(words[9], s.a7);
    assert_eq!(words[10], s.t0);
    assert_eq!(words[16], s.t6);
    assert_eq!(words[17], s.mepc);
    assert_eq!(words[18], s.mcause);
    assert_eq!(words[19], s.mscause);
    assert_eq!(words[20], s.mstatus);
    assert_eq!(words[21], s.mtval);
}

#[test]
fn record_words_round_trip() {
    let rec = capture(&sample_state());
    let words = rec.to_words();
    let parsed = from_words(&words).expect("documented length must parse");
    assert_eq!(parsed, rec);
}

#[test]
fn from_words_rejects_wrong_lengths() {
    assert_eq!(from_words(&Vec::new()), None);
    assert_eq!(from_words(&vec![0u32; 21]), None);
    assert_eq!(from_words(&vec![0u32; 23]), None);
    assert!(from_words(&vec![0u32; 22]).is_some());
}

#[test]
fn halt_record_serialises_in_the_documented_order() {
    let s = sample_state();
    let halt = contain(&capture(&s));
    let words = halt.to_words();
    assert_eq!(words, vec![s.mcause, s.mepc, s.mtval]);
}
