//! Decoding of the raw `scause` register value into a trap cause.
use riscv::register::scause::Exception as RvException;
use vstd::prelude::*;

verus! {

/// Exception codes of the supervisor trap-cause register.
#[derive(Clone, Copy, Debug, PartialEq, Eq, Structural)]
pub enum Exception {
    InstructionMisaligned,
    InstructionFault,
    IllegalInstruction,
    Breakpoint,
    LoadFault,
    StoreMisaligned,
    StoreFault,
    UserEnvCall,
    InstructionPageFault,
    LoadPageFault,
    StorePageFault,
    Unknown,
}

/// What caused a trap: an interrupt (with its code) or an exception.
#[derive(Clone, Copy, Debug, PartialEq, Eq, Structural)]
pub enum TrapCause {
    Interrupt(usize),
    Exception(Exception),
}

/// The exception that an exception code denotes.
pub open spec fn exception_of(code: usize) -> Exception {
    if code == 0 {
        Exception::InstructionMisaligned
    } else if code == 1 {
        Exception::InstructionFault
    } else if code == 2 {
        Exception::IllegalInstruction
    } else if code == 3 {
        Exception::Breakpoint
    } else if code == 5 {
        Exception::LoadFault
    } else if code == 6 {
        Exception::StoreMisaligned
    } else if code == 7 {
        Exception::StoreFault
    } else if code == 8 {
        Exception::UserEnvCall
    } else if code == 12 {
        Exception::InstructionPageFault
    } else if code == 13 {
        Exception::LoadPageFault
    } else if code == 15 {
        Exception::StorePageFault
    } else {
        Exception::Unknown
    }
}

/// Value of the most significant bit of a register word: the interrupt flag.
pub open spec fn interrupt_flag() -> int {
    usize::MAX / 2 + 1
}

/// Whether a raw `scause` value has the interrupt flag set.
pub open spec fn is_interrupt_bits(bits: usize) -> bool {
    bits >= interrupt_flag()
}

/// The code field of a raw `scause` value: every bit but the interrupt flag.
pub open spec fn code_bits(bits: usize) -> usize {
    if is_interrupt_bits(bits) {
        (bits - interrupt_flag()) as usize
    } else {
        bits
    }
}

/// The trap cause that a raw `scause` value denotes.
pub open spec fn cause_of(bits: usize) -> TrapCause {
    if is_interrupt_bits(bits) {
        TrapCause::Interrupt(code_bits(bits))
    } else {
        TrapCause::Exception(exception_of(code_bits(bits)))
    }
}

/// Relies on riscv's `scause::Exception::from`, which maps an exception code
/// to its variant by the table of the privileged specification.
#[verifier::external_body]
fn exception_from(code: usize) -> (r: Exception)
    ensures
        r == exception_of(code),
{
    match RvException::from(code) {
        RvException::InstructionMisaligned => Exception::InstructionMisaligned,
        RvException::InstructionFault => Exception::InstructionFault,
        RvException::IllegalInstruction => Exception::IllegalInstruction,
        RvException::Breakpoint => Exception::Breakpoint,
        RvException::LoadFault => Exception::LoadFault,
        RvException::StoreMisaligned => Exception::StoreMisaligned,
        RvException::StoreFault => Exception::StoreFault,
        RvException::UserEnvCall => Exception::UserEnvCall,
        RvException::InstructionPageFault => Exception::InstructionPageFault,
        RvException::LoadPageFault => Exception::LoadPageFault,
        RvException::StorePageFault => Exception::StorePageFault,
        RvException::Unknown => Exception::Unknown,
    }
}

impl TrapCause {
    /// Decodes a raw `scause` register value.
    pub fn from_bits(bits: usize) -> (r: TrapCause)
        ensures
            r == cause_of(bits),
    {
        let flag: usize = usize::MAX / 2 + 1;
        if bits >= flag {
            TrapCause::Interrupt(bits - flag)
        } else {
            TrapCause::Exception(exception_from(bits))
        }
    }
}

} // verus!
