//! Classification of traps by their cause.

use crate::context::TrapFrame;
use vstd::prelude::*;

verus! {

/// The vector through which a trap entered.
#[derive(Clone, Copy, Debug, PartialEq, Eq)]
pub enum TrapSource {
    Synchronous,
    Irq,
    Fiq,
    SError,
}

/// What the hardware reports on entry: the vector, the syndrome of a
/// synchronous exception and the number of a pending interrupt.
#[derive(Clone, Copy, Debug, PartialEq, Eq)]
pub struct TrapCause {
    pub source: TrapSource,
    pub esr: u64,
    pub irq: usize,
}

/// The category of a trap.
#[derive(Clone, Copy, Debug, PartialEq, Eq)]
pub enum TrapKind {
    /// A device interrupt, with its number.
    Irq(usize),
    /// The timer interrupt.
    Timer,
    /// A system call.
    Syscall,
    /// An instruction that the core does not know.
    UndefinedInstruction,
    /// An instruction or data abort.
    PageFault,
    /// Any other cause.
    Unhandled,
}

/// What the dispatch routine decides.
#[derive(Clone, Copy, Debug, PartialEq, Eq)]
pub enum TrapAction {
    /// Hand the trap to the kernel's handler of its kind; the core resumes at
    /// the program counter that the frame holds when the handler is done.
    Forward(TrapKind, u64),
    /// No handler: the fault is fatal.
    Fatal,
}

/// Exception class `0b000000`: unknown reason, an undefined instruction.
pub const EC_UNKNOWN: u64 = 0x00;

/// Exception class of a supervisor call from 64-bit code.
pub const EC_SVC64: u64 = 0x15;

/// Exception class of an instruction abort from a lower level.
pub const EC_INSTR_ABORT_LOWER: u64 = 0x20;

/// Exception class of an instruction abort from the current level.
pub const EC_INSTR_ABORT_CURRENT: u64 = 0x21;

/// Exception class of a data abort from a lower level.
pub const EC_DATA_ABORT_LOWER: u64 = 0x24;

/// Exception class of a data abort from the current level.
pub const EC_DATA_ABORT_CURRENT: u64 = 0x25;

/// The exception class of a syndrome value: its bits 31 to 26.
pub open spec fn exception_class(esr: u64) -> u64 {
    (esr >> 26) & 0x3f
}

/// The category of a synchronous exception with class `ec`.
pub open spec fn sync_kind(ec: u64) -> TrapKind {
    if ec == EC_SVC64 {
        TrapKind::Syscall
    } else if ec == EC_UNKNOWN {
        TrapKind::UndefinedInstruction
    } else if ec == EC_INSTR_ABORT_LOWER || ec == EC_INSTR_ABORT_CURRENT || ec
        == EC_DATA_ABORT_LOWER || ec == EC_DATA_ABORT_CURRENT {
        TrapKind::PageFault
    } else {
        TrapKind::Unhandled
    }
}

/// The category of a trap, on a platform whose timer interrupt is `timer_irq`.
pub open spec fn kind_of(cause: TrapCause, timer_irq: usize) -> TrapKind {
    match cause.source {
        TrapSource::Synchronous => sync_kind(exception_class(cause.esr)),
        TrapSource::Irq => if cause.irq == timer_irq {
            TrapKind::Timer
        } else {
            TrapKind::Irq(cause.irq)
        },
        TrapSource::Fiq => TrapKind::Unhandled,
        TrapSource::SError => TrapKind::Unhandled,
    }
}

/// Classifies a trap by its cause.
pub fn classify(cause: &TrapCause, timer_irq: usize) -> (kind: TrapKind)
    ensures
        kind == kind_of(*cause, timer_irq),
{
    match cause.source {
        TrapSource::Synchronous => {
            let ec: u64 = (cause.esr >> 26) & 0x3f;
            if ec == EC_SVC64 {
                TrapKind::Syscall
            } else if ec == EC_UNKNOWN {
                TrapKind::UndefinedInstruction
            } else if ec == EC_INSTR_ABORT_LOWER || ec == EC_INSTR_ABORT_CURRENT || ec
                == EC_DATA_ABORT_LOWER || ec == EC_DATA_ABORT_CURRENT {
                TrapKind::PageFault
            } else {
                TrapKind::Unhandled
            }
        },
        TrapSource::Irq => {
            if cause.irq == timer_irq {
                TrapKind::Timer
            } else {
                TrapKind::Irq(cause.irq)
            }
        },
        TrapSource::Fiq => TrapKind::Unhandled,
        TrapSource::SError => TrapKind::Unhandled,
    }
}

/// The dispatch routine: a trap of a known kind is forwarded, together with
/// the program counter saved in its frame; any other is fatal.
pub fn dispatch(frame: &TrapFrame, cause: &TrapCause, timer_irq: usize) -> (action: TrapAction)
    ensures
        action == match kind_of(*cause, timer_irq) {
            TrapKind::Unhandled => TrapAction::Fatal,
            kind => TrapAction::Forward(kind, frame.elr),
        },
{
    match classify(cause, timer_irq) {
        TrapKind::Unhandled => TrapAction::Fatal,
        kind => TrapAction::Forward(kind, frame.elr),
    }
}

} // verus!
