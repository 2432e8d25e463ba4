//! The clock tree: from the ring oscillator that the part wakes up on to a
//! 125 MHz system clock and a 48 MHz USB clock, both derived from the 12 MHz
//! crystal.
//!
//! Each routine returns the program that does its part; a
//! [`Sequencer`](crate::sequencer::Sequencer) walks through it. The order of
//! the steps is the substance: a clock is switched onto a source only once
//! the source is known to run.
use crate::control_registers::{
    clear_bits, clear_bits_access, read_access, read_reg, reg, set_bits, set_bits_access,
    write_access, write_reg, ALIAS_CLEAR, ALIAS_SET, CLK_ADC_CTRL, CLK_GPOUT0_CTRL, CLK_PERI_CTRL,
    CLK_REF_CTRL, CLK_REF_DIV, CLK_REF_SELECTED, CLK_SYS_CTRL, CLK_SYS_DIV, CLK_SYS_SELECTED,
    CLK_USB_CTRL, CLOCKS_BASE, PLL_CS, PLL_FBDIV_INT, PLL_PRIM, PLL_PWR, PLL_SYS_BASE, PLL_USB_BASE,
    RESETS_BASE, TIMER_BASE, TIMER_DBGPAUSE, WATCHDOG_BASE, WATCHDOG_TICK, XOSC_BASE, XOSC_CTRL,
    XOSC_STATUS,
};
use crate::sequencer::Step;
use vstd::prelude::*;

verus! {

/// Reset line of the system PLL.
pub const RESET_PLL_SYS: u32 = 12;

/// Reset line of the USB PLL.
pub const RESET_PLL_USB: u32 = 13;

/// Frequency of the crystal, in MHz.
pub const XOSC_MHZ: u32 = 12;

/// `XOSC_CTRL`: enable, for a crystal of 1 to 15 MHz.
pub const XOSC_CTRL_ENABLE_1_15MHZ: u32 = 0x00fa_baa0;

/// `XOSC_CTRL`: the field that enables or disables the oscillator.
pub const XOSC_CTRL_ENABLE_FIELD: u32 = 0x00ff_f000;

/// `XOSC_CTRL`: the oscillator is enabled.
pub const XOSC_CTRL_ENABLE: u32 = 0x00fa_b000;

/// `XOSC_STATUS`: the oscillator runs and is stable.
pub const XOSC_STATUS_STABLE: u32 = 0x8000_0000;

/// `PLL_CS`: the PLL is locked.
pub const PLL_CS_LOCK: u32 = 0x8000_0000;

/// `PLL_PWR`: the PLL as a whole is powered down.
pub const PLL_PWR_PD: u32 = 0x01;

/// `PLL_PWR`: the post dividers are powered down.
pub const PLL_PWR_POSTDIVPD: u32 = 0x08;

/// `PLL_PWR`: the oscillator of the PLL is powered down.
pub const PLL_PWR_VCOPD: u32 = 0x20;

/// `CLK_REF_CTRL`: the source of the glitchless mux is the crystal oscillator.
pub const CLK_REF_SRC_XOSC: u32 = 0x2;

/// `CLK_REF_SELECTED` while the reference clock runs from the crystal
/// oscillator: one bit for each source, that of source 2.
pub const CLK_REF_SELECTED_XOSC: u32 = 0x4;

/// `CLK_SYS_CTRL`: the source of the glitchless mux, 0 for the reference
/// clock and 1 for the auxiliary source.
pub const CLK_SYS_SRC_AUX: u32 = 0x01;

/// `CLK_SYS_CTRL`: the field that picks the auxiliary source; 0 is the
/// system PLL.
pub const CLK_SYS_AUXSRC: u32 = 0xe0;

/// `CLK_SYS_SELECTED` while the system clock runs from the reference clock.
pub const CLK_SYS_SELECTED_REF: u32 = 0x1;

/// `CLK_SYS_SELECTED` while the system clock runs from the auxiliary source.
pub const CLK_SYS_SELECTED_AUX: u32 = 0x2;

/// A clock divider of exactly 1: integer part 1, no fraction.
pub const CLK_DIV_ONE: u32 = 0x100;

/// Control word of a derived clock: the clock is enabled.
pub const CLK_CTRL_ENABLE: u32 = 0x800;

/// Control word of a derived clock: disabled, auxiliary source 0. That
/// source is the system clock for the peripheral clock and the USB PLL for
/// the USB and ADC clocks.
pub const CLK_CTRL_OFF_AUXSRC0: u32 = 0;

/// `WATCHDOG_TICK`: the tick generator runs.
pub const WATCHDOG_TICK_ENABLE: u32 = 0x200;

/// Mask of a poll that waits for a whole word.
pub const WHOLE_WORD: u32 = 0xffff_ffff;

/// The `PLL_PRIM` word for the two post dividers.
pub open spec fn post_dividers(pd1: u32, pd2: u32) -> u32 {
    pd1 << 16 | pd2 << 12
}

/// Number of steps in the program of one PLL.
pub const PLL_STEPS: usize = 8;

/// Index, within the program of one PLL, of the wait for lock.
pub const PLL_LOCK_WAIT: usize = 5;

/// Index, within the bring-up, of the wait for a stable crystal.
pub const OSCILLATOR_WAIT: usize = 1;

/// Index, within the bring-up, of the wait that ends the parking of the
/// system clock.
pub const PARK_WAIT: usize = 3;

/// Index, within the bring-up, of the wait for the reference clock to run
/// from the crystal oscillator.
pub const REFERENCE_WAIT: usize = 5;

/// Index, within the bring-up, of the first step of the system PLL.
pub const PLL_SYS_FIRST: usize = 6;

/// Index, within the bring-up, of the first step of the USB PLL.
pub const PLL_USB_FIRST: usize = 14;

/// Index, within the bring-up, of the wait for the system clock to run
/// from the system PLL.
pub const SYSTEM_WAIT: usize = 26;

/// Number of steps in the bring-up.
pub const BRING_UP_STEPS: usize = 38;

/// Starting the crystal oscillator: enable it, then wait until it is stable.
pub open spec fn oscillator_program() -> Seq<Step> {
    seq![
        Step::Once { access: write_access(reg(XOSC_BASE, XOSC_CTRL), XOSC_CTRL_ENABLE_1_15MHZ) },
        Step::Poll {
            addr: reg(XOSC_BASE, XOSC_STATUS),
            mask: XOSC_STATUS_STABLE,
            expect: XOSC_STATUS_STABLE,
        },
    ]
}

/// Configuring one PLL: pulse its reset line, load the reference and
/// feedback dividers, power up the PLL and its oscillator, wait for lock,
/// and only then load the post dividers and power them up.
pub open spec fn pll_program(
    pll_base: u32,
    peri_num: u32,
    refdiv: u32,
    fbdiv: u32,
    pd1: u32,
    pd2: u32,
) -> Seq<Step> {
    seq![
        Step::Once { access: set_bits_access(RESETS_BASE, 1u32 << peri_num) },
        Step::Once { access: clear_bits_access(RESETS_BASE, 1u32 << peri_num) },
        Step::Once { access: write_access(reg(pll_base, PLL_CS), refdiv) },
        Step::Once { access: write_access(reg(pll_base, PLL_FBDIV_INT), fbdiv) },
        Step::Once {
            access: clear_bits_access(reg(pll_base, PLL_PWR), PLL_PWR_PD | PLL_PWR_VCOPD),
        },
        Step::Poll { addr: reg(pll_base, PLL_CS), mask: PLL_CS_LOCK, expect: PLL_CS_LOCK },
        Step::Once { access: write_access(reg(pll_base, PLL_PRIM), post_dividers(pd1, pd2)) },
        Step::Once { access: clear_bits_access(reg(pll_base, PLL_PWR), PLL_PWR_POSTDIVPD) },
    ]
}

/// Parking the system clock on the reference clock, where resetting the
/// PLLs cannot disturb it.
pub open spec fn park_program() -> Seq<Step> {
    seq![
        Step::Once { access: clear_bits_access(reg(CLOCKS_BASE, CLK_SYS_CTRL), CLK_SYS_SRC_AUX) },
        Step::Poll {
            addr: reg(CLOCKS_BASE, CLK_SYS_SELECTED),
            mask: WHOLE_WORD,
            expect: CLK_SYS_SELECTED_REF,
        },
    ]
}

/// Moving the reference clock to the crystal oscillator.
pub open spec fn reference_program() -> Seq<Step> {
    seq![
        Step::Once { access: write_access(reg(CLOCKS_BASE, CLK_REF_CTRL), CLK_REF_SRC_XOSC) },
        Step::Poll {
            addr: reg(CLOCKS_BASE, CLK_REF_SELECTED),
            mask: WHOLE_WORD,
            expect: CLK_REF_SELECTED_XOSC,
        },
    ]
}

/// Moving the system clock to the system PLL: both dividers to 1, the
/// auxiliary source to the system PLL while the mux still rests on the
/// reference clock, then the mux to the auxiliary source.
pub open spec fn system_program() -> Seq<Step> {
    seq![
        Step::Once { access: write_access(reg(CLOCKS_BASE, CLK_REF_DIV), CLK_DIV_ONE) },
        Step::Once { access: write_access(reg(CLOCKS_BASE, CLK_SYS_DIV), CLK_DIV_ONE) },
        Step::Once { access: clear_bits_access(reg(CLOCKS_BASE, CLK_SYS_CTRL), CLK_SYS_AUXSRC) },
        Step::Once { access: set_bits_access(reg(CLOCKS_BASE, CLK_SYS_CTRL), CLK_SYS_SRC_AUX) },
        Step::Poll {
            addr: reg(CLOCKS_BASE, CLK_SYS_SELECTED),
            mask: WHOLE_WORD,
            expect: CLK_SYS_SELECTED_AUX,
        },
    ]
}

/// Restarting a derived clock whose control word is at offset `ctrl` of the
/// clock generator: switch it off, which also picks auxiliary source 0;
/// read one register, so that the clock has stopped; switch it on.
pub open spec fn derived_clock_program(ctrl: u32) -> Seq<Step> {
    seq![
        Step::Once { access: write_access(reg(CLOCKS_BASE, ctrl), CLK_CTRL_OFF_AUXSRC0) },
        Step::Once { access: read_access(reg(CLOCKS_BASE, CLK_GPOUT0_CTRL)) },
        Step::Once { access: set_bits_access(reg(CLOCKS_BASE, ctrl), CLK_CTRL_ENABLE) },
    ]
}

/// One tick each microsecond from the 12 MHz crystal, and a timer that runs
/// on while a debugger has the cores halted.
pub open spec fn timing_program() -> Seq<Step> {
    seq![
        Step::Once {
            access: write_access(
                reg(WATCHDOG_BASE, WATCHDOG_TICK),
                XOSC_MHZ | WATCHDOG_TICK_ENABLE,
            ),
        },
        Step::Once { access: write_access(reg(TIMER_BASE, TIMER_DBGPAUSE), 0) },
    ]
}

/// The whole bring-up.
pub open spec fn bring_up_program() -> Seq<Step> {
    oscillator_program() + park_program() + reference_program() + pll_program(
        PLL_SYS_BASE,
        RESET_PLL_SYS,
        1,
        125,
        6,
        2,
    ) + pll_program(PLL_USB_BASE, RESET_PLL_USB, 1, 100, 5, 5) + system_program()
        + derived_clock_program(CLK_PERI_CTRL) + derived_clock_program(CLK_USB_CTRL)
        + derived_clock_program(CLK_ADC_CTRL) + timing_program()
}

/// The program that brings the clock tree up. It is meant to run once,
/// from reset, before anything that depends on a clock.
pub fn init_clocks() -> (program: Vec<Step>)
    ensures
        program@ == bring_up_program(),
        program@.len() == BRING_UP_STEPS,
{
    // A stable crystal first: the waits that follow rely on it.
    let mut program = start_oscillator();

    // Park the system clock on the reference clock.
    program.push(Step::Once { access: clear_bits(CLOCKS_BASE + CLK_SYS_CTRL, CLK_SYS_SRC_AUX) });
    program.push(
        Step::Poll {
            addr: CLOCKS_BASE + CLK_SYS_SELECTED,
            mask: WHOLE_WORD,
            expect: CLK_SYS_SELECTED_REF,
        },
    );

    // Move the reference clock to the crystal oscillator.
    program.push(Step::Once { access: write_reg(CLOCKS_BASE + CLK_REF_CTRL, CLK_REF_SRC_XOSC) });
    program.push(
        Step::Poll {
            addr: CLOCKS_BASE + CLK_REF_SELECTED,
            mask: WHOLE_WORD,
            expect: CLK_REF_SELECTED_XOSC,
        },
    );
    assert(program@ == oscillator_program() + park_program() + reference_program());

    // 12 MHz * 125 / (6 * 2) = 125 MHz
    let mut pll_sys = init_pll(PLL_SYS_BASE, RESET_PLL_SYS, 1, 125, 6, 2);
    program.append(&mut pll_sys);

    // 12 MHz * 100 / (5 * 5) = 48 MHz
    let mut pll_usb = init_pll(PLL_USB_BASE, RESET_PLL_USB, 1, 100, 5, 5);
    program.append(&mut pll_usb);

    // Move the system clock to the system PLL.
    let ghost before_system = program@;
    program.push(Step::Once { access: write_reg(CLOCKS_BASE + CLK_REF_DIV, CLK_DIV_ONE) });
    program.push(Step::Once { access: write_reg(CLOCKS_BASE + CLK_SYS_DIV, CLK_DIV_ONE) });
    program.push(Step::Once { access: clear_bits(CLOCKS_BASE + CLK_SYS_CTRL, CLK_SYS_AUXSRC) });
    program.push(Step::Once { access: set_bits(CLOCKS_BASE + CLK_SYS_CTRL, CLK_SYS_SRC_AUX) });
    program.push(
        Step::Poll {
            addr: CLOCKS_BASE + CLK_SYS_SELECTED,
            mask: WHOLE_WORD,
            expect: CLK_SYS_SELECTED_AUX,
        },
    );
    assert(program@ == before_system + system_program());

    // Restart the derived clocks on their sources.
    let mut clk_peri = restart_derived_clock(CLK_PERI_CTRL);
    program.append(&mut clk_peri);
    let mut clk_usb = restart_derived_clock(CLK_USB_CTRL);
    program.append(&mut clk_usb);
    let mut clk_adc = restart_derived_clock(CLK_ADC_CTRL);
    program.append(&mut clk_adc);

    // One watchdog tick each microsecond; the timer counts those ticks.
    let ghost before_timing = program@;
    program.push(
        Step::Once {
            access: write_reg(WATCHDOG_BASE + WATCHDOG_TICK, XOSC_MHZ | WATCHDOG_TICK_ENABLE),
        },
    );
    // Let the timer run on while a debugger has the cores halted.
    program.push(Step::Once { access: write_reg(TIMER_BASE + TIMER_DBGPAUSE, 0) });
    assert(program@ == before_timing + timing_program());

    program
}

/// The program that starts the crystal oscillator and waits until it is
/// stable. Without a crystal it is never stable, and the program never
/// gets past the wait.
pub fn start_oscillator() -> (program: Vec<Step>)
    ensures
        program@ == oscillator_program(),
{
    let mut program: Vec<Step> = Vec::new();
    program.push(Step::Once { access: write_reg(XOSC_BASE + XOSC_CTRL, XOSC_CTRL_ENABLE_1_15MHZ) });
    program.push(
        Step::Poll {
            addr: XOSC_BASE + XOSC_STATUS,
            mask: XOSC_STATUS_STABLE,
            expect: XOSC_STATUS_STABLE,
        },
    );
    program
}

/// The program that configures the PLL at `pll_base`, whose reset line is
/// `peri_num`.
///
/// Nothing checks that the dividers suit the PLL: with a feedback divider
/// that puts its oscillator out of range the PLL never locks, and the
/// program never gets past the poll for lock.
pub fn init_pll(
    pll_base: u32,
    peri_num: u32,
    refdiv: u32,
    fbdiv: u32,
    pd1: u32,
    pd2: u32,
) -> (program: Vec<Step>)
    requires
        pll_base + PLL_PWR + ALIAS_CLEAR <= u32::MAX,
        peri_num < 32,
    ensures
        program@ == pll_program(pll_base, peri_num, refdiv, fbdiv, pd1, pd2),
        program@.len() == PLL_STEPS,
{
    let mut program: Vec<Step> = Vec::new();

    // Reset the PLL, then release it.
    program.push(Step::Once { access: set_bits(RESETS_BASE, 1u32 << peri_num) });
    program.push(Step::Once { access: clear_bits(RESETS_BASE, 1u32 << peri_num) });

    // Load the reference and feedback dividers.
    program.push(Step::Once { access: write_reg(pll_base + PLL_CS, refdiv) });
    program.push(Step::Once { access: write_reg(pll_base + PLL_FBDIV_INT, fbdiv) });

    // Power up the PLL and its oscillator, and wait for lock.
    program.push(
        Step::Once { access: clear_bits(pll_base + PLL_PWR, PLL_PWR_PD | PLL_PWR_VCOPD) },
    );
    program.push(Step::Poll { addr: pll_base + PLL_CS, mask: PLL_CS_LOCK, expect: PLL_CS_LOCK });

    // Locked: load the post dividers and power them up.
    program.push(Step::Once { access: write_reg(pll_base + PLL_PRIM, pd1 << 16 | pd2 << 12) });
    program.push(Step::Once { access: clear_bits(pll_base + PLL_PWR, PLL_PWR_POSTDIVPD) });

    program
}

fn restart_derived_clock(ctrl: u32) -> (program: Vec<Step>)
    requires
        CLOCKS_BASE + ctrl + ALIAS_SET <= u32::MAX,
    ensures
        program@ == derived_clock_program(ctrl),
{
    let mut program: Vec<Step> = Vec::new();
    program.push(Step::Once { access: write_reg(CLOCKS_BASE + ctrl, CLK_CTRL_OFF_AUXSRC0) });
    program.push(Step::Once { access: read_reg(CLOCKS_BASE + CLK_GPOUT0_CTRL) });
    program.push(Step::Once { access: set_bits(CLOCKS_BASE + ctrl, CLK_CTRL_ENABLE) });
    program
}

} // verus!
