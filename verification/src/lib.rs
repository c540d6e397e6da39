//! Trap and exception dispatch core for a 32-bit RISC-V-class machine-mode
//! runtime.
//!
//! When the processor takes a synchronous exception, an asynchronous
//! interrupt, or a non-maskable interrupt, this core captures the interrupted
//! context into a fixed-layout [`record::TrapRecord`], routes control to
//! exactly one handler role based on the cause code and entry vector, and
//! guarantees that servicing ends in one of exactly two outcomes: resume the
//! interrupted program, or halt in a well-defined, inspectable state.
//!
//! The hardware register file is modelled by [`machine::RegisterFile`]; the
//! entry and exit sequences are [`machine::capture`] and [`machine::restore`];
//! routing is [`dispatch::select_route`]; the terminal failure path is
//! [`containment::contain`]; the whole servicing pipeline is
//! [`service::service_trap`].

pub mod containment;
pub mod dispatch;
pub mod machine;
pub mod record;
pub mod service;
