//! The cause dispatcher: pure routing from a trap's cause and entry vector to
//! exactly one handler role.
//!
//! Exception and interrupt traps arrive through the ordinary trap vector and
//! are discriminated by the top bit of `mcause`; non-maskable interrupts
//! arrive through a dedicated hardware vector and never pass through the
//! `mcause`-based routing at all, so a stale `mcause` value cannot misroute
//! them. A cause code outside the platform's defined set falls through to
//! fault containment: a route is always determined, and it is never an
//! arbitrary handler.

use vstd::prelude::*;

verus! {

/// The interrupt/exception discriminator bit of `mcause` on this 32-bit
/// platform: set for asynchronous interrupts, clear for synchronous
/// exceptions.
pub const MCAUSE_INTERRUPT_BIT: u32 = 0x8000_0000;

/// The cause-code portion of `mcause`: everything below the discriminator
/// bit.
pub const MCAUSE_CODE_MASK: u32 = 0x7fff_ffff;

/// Machine software interrupt cause code.
pub const INTERRUPT_CODE_SOFTWARE: u32 = 3;

/// Machine timer interrupt cause code.
pub const INTERRUPT_CODE_TIMER: u32 = 7;

/// Machine external (peripheral) interrupt cause code.
pub const INTERRUPT_CODE_EXTERNAL: u32 = 11;

/// Illegal-instruction exception cause code.
pub const EXCEPTION_CODE_ILLEGAL_INSTRUCTION: u32 = 2;

/// Largest exception cause code the platform defines.
pub const EXCEPTION_CODE_MAX: u32 = 15;

/// First reserved exception cause code inside the defined range.
pub const EXCEPTION_CODE_RESERVED_A: u32 = 10;

/// Second reserved exception cause code inside the defined range.
pub const EXCEPTION_CODE_RESERVED_B: u32 = 14;

/// Which hardware vector delivered the trap. Exceptions and maskable
/// interrupts share the ordinary trap vector; non-maskable interrupts have a
/// dedicated one.
#[derive(Clone, Copy, Debug, PartialEq, Eq, Structural)]
pub enum EntryVector {
    /// The ordinary trap vector: synchronous exceptions and maskable
    /// interrupts.
    Trap,
    /// The dedicated non-maskable interrupt vector.
    Nmi,
}

/// What the discriminator bit of `mcause` says a trap is.
#[derive(Clone, Copy, Debug, PartialEq, Eq, Structural)]
pub enum TrapClass {
    /// Asynchronous, maskable interrupt: discriminator bit set.
    Interrupt,
    /// Synchronous exception: discriminator bit clear.
    Exception,
}

/// The handler role a trap is routed to. Exactly one route is chosen for
/// every trap.
#[derive(Clone, Copy, Debug, PartialEq, Eq, Structural)]
pub enum Route {
    /// The asynchronous interrupt handler role.
    Interrupt,
    /// The synchronous exception handler role.
    Exception,
    /// The non-maskable interrupt handler role.
    Nmi,
    /// No recoverable route exists: fault containment.
    Containment,
}

/// Whether `mcause` marks an asynchronous interrupt: exactly the
/// discriminator bit, independent of every other bit.
pub open spec fn is_interrupt_spec(mcause: u32) -> bool {
    mcause & MCAUSE_INTERRUPT_BIT != 0
}

/// The cause-specific code carried by `mcause`.
pub open spec fn cause_code_spec(mcause: u32) -> u32 {
    mcause & MCAUSE_CODE_MASK
}

/// The discriminator: interrupt if and only if the top bit of `mcause` is
/// set, exception if and only if it is clear.
pub open spec fn classify_spec(mcause: u32) -> TrapClass {
    if is_interrupt_spec(mcause) {
        TrapClass::Interrupt
    } else {
        TrapClass::Exception
    }
}

/// The platform's defined set of interrupt cause codes: machine software,
/// timer, and external interrupts.
pub open spec fn interrupt_code_defined(code: u32) -> bool {
    ||| code == INTERRUPT_CODE_SOFTWARE
    ||| code == INTERRUPT_CODE_TIMER
    ||| code == INTERRUPT_CODE_EXTERNAL
}

/// The platform's defined set of exception cause codes: the standard
/// machine-mode codes up to [`EXCEPTION_CODE_MAX`], minus the two reserved
/// slots.
pub open spec fn exception_code_defined(code: u32) -> bool {
    &&& code <= EXCEPTION_CODE_MAX
    &&& code != EXCEPTION_CODE_RESERVED_A
    &&& code != EXCEPTION_CODE_RESERVED_B
}

/// The complete routing policy: a pure function of the entry vector and
/// `mcause` alone. The NMI vector routes to the NMI handler without reading
/// `mcause`; on the ordinary vector the discriminator bit picks the handler
/// class, and a cause code outside the platform's defined set falls through
/// to containment.
pub open spec fn route_spec(vector: EntryVector, mcause: u32) -> Route {
    match vector {
        EntryVector::Nmi => Route::Nmi,
        EntryVector::Trap => match classify_spec(mcause) {
            TrapClass::Interrupt => if interrupt_code_defined(cause_code_spec(mcause)) {
                Route::Interrupt
            } else {
                Route::Containment
            },
            TrapClass::Exception => if exception_code_defined(cause_code_spec(mcause)) {
                Route::Exception
            } else {
                Route::Containment
            },
        },
    }
}

/// Read the discriminator bit of `mcause`.
pub fn classify(mcause: u32) -> (class: TrapClass)
    ensures
        class == classify_spec(mcause),
{
    if mcause & MCAUSE_INTERRUPT_BIT != 0 {
        TrapClass::Interrupt
    } else {
        TrapClass::Exception
    }
}

/// Extract the cause-specific code from `mcause`.
pub fn cause_code(mcause: u32) -> (code: u32)
    ensures
        code == cause_code_spec(mcause),
{
    mcause & MCAUSE_CODE_MASK
}

/// Whether a cause code is in the platform's defined interrupt set.
pub fn is_interrupt_code_defined(code: u32) -> (defined: bool)
    ensures
        defined == interrupt_code_defined(code),
{
    code == INTERRUPT_CODE_SOFTWARE || code == INTERRUPT_CODE_TIMER
        || code == INTERRUPT_CODE_EXTERNAL
}

/// Whether a cause code is in the platform's defined exception set.
pub fn is_exception_code_defined(code: u32) -> (defined: bool)
    ensures
        defined == exception_code_defined(code),
{
    code <= EXCEPTION_CODE_MAX && code != EXCEPTION_CODE_RESERVED_A
        && code != EXCEPTION_CODE_RESERVED_B
}

/// Choose the handler role for a trap: a pure, constant-time function of the
/// entry vector and `mcause`, with no other input and no side effect.
pub fn select_route(vector: EntryVector, mcause: u32) -> (route: Route)
    ensures
        route == route_spec(vector, mcause),
{
    match vector {
        EntryVector::Nmi => Route::Nmi,
        EntryVector::Trap => {
            let code = cause_code(mcause);
            match classify(mcause) {
                TrapClass::Interrupt => {
                    if is_interrupt_code_defined(code) {
                        Route::Interrupt
                    } else {
                        Route::Containment
                    }
                },
                TrapClass::Exception => {
                    if is_exception_code_defined(code) {
                        Route::Exception
                    } else {
                        Route::Containment
                    }
                },
            }
        },
    }
}

/// Dispatch correctness: the discriminator routes to the interrupt class if
/// and only if the top bit of `mcause` is set, and to the exception class if
/// and only if it is clear, independent of every other `mcause` bit. On the
/// ordinary vector the chosen route never crosses classes: an interrupt
/// cause is never routed to the exception handler, nor the reverse.
pub proof fn lemma_dispatch_correctness(mcause: u32)
    ensures
        classify_spec(mcause) == TrapClass::Interrupt <==> is_interrupt_spec(mcause),
        classify_spec(mcause) == TrapClass::Exception <==> !is_interrupt_spec(mcause),
        forall|other: u32|
            other & MCAUSE_INTERRUPT_BIT == mcause & MCAUSE_INTERRUPT_BIT
                ==> #[trigger] classify_spec(other) == classify_spec(mcause),
        route_spec(EntryVector::Trap, mcause) == Route::Interrupt <==> is_interrupt_spec(mcause)
            && interrupt_code_defined(cause_code_spec(mcause)),
        route_spec(EntryVector::Trap, mcause) == Route::Exception <==> !is_interrupt_spec(mcause)
            && exception_code_defined(cause_code_spec(mcause)),
{
}

/// NMI isolation: a trap delivered on the dedicated NMI vector reaches the
/// NMI handler whatever `mcause` holds — even an unrelated stale value — and
/// never passes through the `mcause`-based routing.
pub proof fn lemma_nmi_isolation(mcause: u32)
    ensures
        route_spec(EntryVector::Nmi, mcause) == Route::Nmi,
        forall|stale: u32| #[trigger] route_spec(EntryVector::Nmi, stale) == route_spec(
            EntryVector::Nmi,
            mcause,
        ),
{
}

/// Unhandled-cause containment, routing half: a cause code outside the
/// platform's defined set is routed to fault containment, never to a
/// handler.
pub proof fn lemma_unhandled_cause_routes_to_containment(mcause: u32)
    requires
        is_interrupt_spec(mcause) ==> !interrupt_code_defined(cause_code_spec(mcause)),
        !is_interrupt_spec(mcause) ==> !exception_code_defined(cause_code_spec(mcause)),
    ensures
        route_spec(EntryVector::Trap, mcause) == Route::Containment,
{
}

} // verus!
