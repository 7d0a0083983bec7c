//! Declarations for the processor emulation that the controller signals.
//! The processor value itself is opaque here: the controller only ever asks
//! it to take a pending interrupt.

use vstd::prelude::*;

verus! {

#[verifier::external_type_specification]
#[verifier::external_body]
pub struct ExMos6502(emulator_6502::MOS6502);

/// Relies on emulator_6502's `MOS6502::interrupt_request`: it records a
/// pending maskable interrupt on the processor and returns; nothing about
/// the processor is claimed here.
pub assume_specification[ emulator_6502::MOS6502::interrupt_request ](
    cpu: &mut emulator_6502::MOS6502,
);

} // verus!
