//! Making a GPIO pin an output that software drives.
use crate::control_registers::{
    clear_bits, clear_bits_access, reg, set_bits, set_bits_access, write_access, write_reg,
    IO_BANK0_BASE, PADS_BANK0_BASE, RESETS_BASE, SIO_BASE, SIO_GPIO_OE_SET,
};
use crate::sequencer::Step;
use vstd::prelude::*;

verus! {

/// Reset line of the GPIO bank.
pub const RESET_IO_BANK0: u32 = 5;

/// Reset line of the pads of the GPIO bank.
pub const RESET_PADS_BANK0: u32 = 8;

/// Pad control word: input disabled, output enabled.
pub const PAD_OUTPUT_ONLY: u32 = 0;

/// Function select: the pin is driven through the single-cycle I/O block.
pub const GPIO_FUNC_SIO: u32 = 5;

/// Offset of the pad control word of `pin` within the pads bank.
pub open spec fn pad_offset(pin: u32) -> int {
    (pin + 1) * 4
}

/// Offset of the control word of `pin` within the GPIO bank.
pub open spec fn gpio_ctrl_offset(pin: u32) -> int {
    pin * 8 + 4
}

/// Setting `pin` up as an output: pulse the reset lines of the GPIO bank
/// and of its pads, enable the pad's output, hand the pin to the
/// single-cycle I/O block, and enable its output driver.
pub open spec fn output_pin_program(pin: u32) -> Seq<Step> {
    seq![
        Step::Once { access: set_bits_access(RESETS_BASE, 1u32 << RESET_IO_BANK0) },
        Step::Once { access: clear_bits_access(RESETS_BASE, 1u32 << RESET_IO_BANK0) },
        Step::Once { access: set_bits_access(RESETS_BASE, 1u32 << RESET_PADS_BANK0) },
        Step::Once { access: clear_bits_access(RESETS_BASE, 1u32 << RESET_PADS_BANK0) },
        Step::Once {
            access: write_access((PADS_BANK0_BASE + pad_offset(pin)) as u32, PAD_OUTPUT_ONLY),
        },
        Step::Once {
            access: write_access((IO_BANK0_BASE + gpio_ctrl_offset(pin)) as u32, GPIO_FUNC_SIO),
        },
        Step::Once { access: write_access(reg(SIO_BASE, SIO_GPIO_OE_SET), 1u32 << pin) },
    ]
}

/// The program that makes `pin` an output.
pub fn init_output_pin(pin: u32) -> (program: Vec<Step>)
    requires
        pin < 32,
    ensures
        program@ == output_pin_program(pin),
{
    let mut program: Vec<Step> = Vec::new();

    // Reset the GPIO bank, then release it.
    program.push(Step::Once { access: set_bits(RESETS_BASE, 1u32 << RESET_IO_BANK0) });
    program.push(Step::Once { access: clear_bits(RESETS_BASE, 1u32 << RESET_IO_BANK0) });

    // Reset the pads, then release them.
    program.push(Step::Once { access: set_bits(RESETS_BASE, 1u32 << RESET_PADS_BANK0) });
    program.push(Step::Once { access: clear_bits(RESETS_BASE, 1u32 << RESET_PADS_BANK0) });

    // The pad control words start one word into the bank.
    program.push(
        Step::Once { access: write_reg(PADS_BANK0_BASE + (pin + 1) * 4, PAD_OUTPUT_ONLY) },
    );

    // Each pin has a status word and a control word, in that order.
    program.push(Step::Once { access: write_reg(IO_BANK0_BASE + (pin * 8 + 4), GPIO_FUNC_SIO) });

    program.push(Step::Once { access: write_reg(SIO_BASE + SIO_GPIO_OE_SET, 1u32 << pin) });

    program
}

} // verus!
