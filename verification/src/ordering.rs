//! What holds of every run of the bring-up, whatever the hardware answers.
use crate::control_registers::{
    clear_bits_access, reg, set_bits_access, write_access, Access, CLK_ADC_CTRL, CLK_PERI_CTRL,
    CLK_REF_SELECTED, CLK_SYS_CTRL, CLK_SYS_SELECTED, CLK_USB_CTRL, CLOCKS_BASE, PLL_CS,
    PLL_SYS_BASE, PLL_USB_BASE, RESETS_BASE, XOSC_BASE, XOSC_STATUS,
};
use crate::register_space::{lemma_register_kept, registers_at, value_at};
use crate::sequencer::{Event, State, Step};
use crate::sys_clock::{
    bring_up_program, pll_program, CLK_CTRL_ENABLE, CLK_CTRL_OFF_AUXSRC0, CLK_REF_SELECTED_XOSC,
    CLK_SYS_AUXSRC, CLK_SYS_SELECTED_AUX, CLK_SYS_SELECTED_REF, CLK_SYS_SRC_AUX, OSCILLATOR_WAIT,
    PARK_WAIT, PLL_CS_LOCK, PLL_LOCK_WAIT, PLL_STEPS, PLL_SYS_FIRST, PLL_USB_FIRST, REFERENCE_WAIT,
    RESET_PLL_SYS, RESET_PLL_USB, SYSTEM_WAIT, WHOLE_WORD, XOSC_STATUS_STABLE,
};
use vstd::prelude::*;

verus! {

/// The post dividers of a PLL are touched only after the PLL was seen
/// locked.
///
/// Take any program that configures a PLL from step `at` on, and any
/// events. If they have brought the sequencer past the wait for lock, so
/// that the store that loads the post dividers or the one that powers them
/// up is handed out or done, then one of those events was a load of the
/// PLL's status register that returned the lock bit set.
pub proof fn lemma_lock_seen_before_post_dividers(
    program: Seq<Step>,
    at: int,
    pll_base: u32,
    peri_num: u32,
    refdiv: u32,
    fbdiv: u32,
    pd1: u32,
    pd2: u32,
    events: Seq<Event>,
)
    requires
        0 <= at,
        at + PLL_STEPS <= program.len(),
        program.subrange(at, at + PLL_STEPS) == pll_program(
            pll_base,
            peri_num,
            refdiv,
            fbdiv,
            pd1,
            pd2,
        ),
        State::start(program).after(events).pc > at + PLL_LOCK_WAIT,
    ensures
        State::start(program).observed(events, reg(pll_base, PLL_CS), PLL_CS_LOCK, PLL_CS_LOCK),
{
    let wait = at + PLL_LOCK_WAIT;
    assert(program[wait] == program.subrange(at, at + PLL_STEPS)[PLL_LOCK_WAIT as int]);
    State::start(program).lemma_poll_was_satisfied(events, wait);
}

/// Every wait of the bring-up is honoured: the sequencer gets past a wait
/// only after a load of the status word returned what the wait is for.
///
/// So the crystal was seen stable before any clock is switched; the system
/// clock was seen on the reference clock before a PLL is reset and before
/// its auxiliary source is changed; each PLL was seen locked before its
/// post dividers are touched, and both before the system clock is moved;
/// and the system clock was seen on the system PLL before the derived
/// clocks are restarted.
pub proof fn lemma_bring_up_waits(events: Seq<Event>)
    ensures
        ({
            let start = State::start(bring_up_program());
            let pc = start.after(events).pc;
            &&& pc > OSCILLATOR_WAIT ==> start.observed(
                events,
                reg(XOSC_BASE, XOSC_STATUS),
                XOSC_STATUS_STABLE,
                XOSC_STATUS_STABLE,
            )
            &&& pc > PARK_WAIT ==> start.observed(
                events,
                reg(CLOCKS_BASE, CLK_SYS_SELECTED),
                WHOLE_WORD,
                CLK_SYS_SELECTED_REF,
            )
            &&& pc > REFERENCE_WAIT ==> start.observed(
                events,
                reg(CLOCKS_BASE, CLK_REF_SELECTED),
                WHOLE_WORD,
                CLK_REF_SELECTED_XOSC,
            )
            &&& pc > PLL_SYS_FIRST + PLL_LOCK_WAIT ==> start.observed(
                events,
                reg(PLL_SYS_BASE, PLL_CS),
                PLL_CS_LOCK,
                PLL_CS_LOCK,
            )
            &&& pc > PLL_USB_FIRST + PLL_LOCK_WAIT ==> start.observed(
                events,
                reg(PLL_USB_BASE, PLL_CS),
                PLL_CS_LOCK,
                PLL_CS_LOCK,
            )
            &&& pc > SYSTEM_WAIT ==> start.observed(
                events,
                reg(CLOCKS_BASE, CLK_SYS_SELECTED),
                WHOLE_WORD,
                CLK_SYS_SELECTED_AUX,
            )
        }),
{
    let start = State::start(bring_up_program());
    let pc = start.after(events).pc;
    if pc > OSCILLATOR_WAIT {
        start.lemma_poll_was_satisfied(events, OSCILLATOR_WAIT as int);
    }
    if pc > PARK_WAIT {
        start.lemma_poll_was_satisfied(events, PARK_WAIT as int);
    }
    if pc > REFERENCE_WAIT {
        start.lemma_poll_was_satisfied(events, REFERENCE_WAIT as int);
    }
    if pc > PLL_SYS_FIRST + PLL_LOCK_WAIT {
        start.lemma_poll_was_satisfied(events, PLL_SYS_FIRST + PLL_LOCK_WAIT);
    }
    if pc > PLL_USB_FIRST + PLL_LOCK_WAIT {
        start.lemma_poll_was_satisfied(events, PLL_USB_FIRST + PLL_LOCK_WAIT);
    }
    if pc > SYSTEM_WAIT {
        start.lemma_poll_was_satisfied(events, SYSTEM_WAIT as int);
    }
}

/// Reset line `line` is asserted: the PLL behind it is held in reset.
pub open spec fn reset_asserted(regs: Map<u32, u32>, line: u32) -> bool {
    value_at(regs, RESETS_BASE) & (1u32 << line) != 0
}

/// The system clock rests on the reference clock, as far as its control
/// word tells.
pub open spec fn system_clock_parked(regs: Map<u32, u32>) -> bool {
    value_at(regs, reg(CLOCKS_BASE, CLK_SYS_CTRL)) & CLK_SYS_SRC_AUX == 0
}

/// The reset line of the PLL that a clock runs from once `access` is done:
/// for the stores that pick the system PLL as auxiliary source of the
/// system clock, that move the system clock to its auxiliary source and
/// that switch on the peripheral clock, which runs from the system clock,
/// the line of the system PLL; for the stores that pick the source of the
/// USB or ADC clock and switch that clock on, the line of the USB PLL.
/// `None` for every other access.
pub open spec fn routes_onto(access: Access) -> Option<u32> {
    if access == clear_bits_access(reg(CLOCKS_BASE, CLK_SYS_CTRL), CLK_SYS_AUXSRC) || access
        == set_bits_access(reg(CLOCKS_BASE, CLK_SYS_CTRL), CLK_SYS_SRC_AUX) || access
        == set_bits_access(reg(CLOCKS_BASE, CLK_PERI_CTRL), CLK_CTRL_ENABLE) {
        Some(RESET_PLL_SYS)
    } else if access == write_access(reg(CLOCKS_BASE, CLK_USB_CTRL), CLK_CTRL_OFF_AUXSRC0) || access
        == set_bits_access(reg(CLOCKS_BASE, CLK_USB_CTRL), CLK_CTRL_ENABLE) || access
        == write_access(reg(CLOCKS_BASE, CLK_ADC_CTRL), CLK_CTRL_OFF_AUXSRC0) || access
        == set_bits_access(reg(CLOCKS_BASE, CLK_ADC_CTRL), CLK_CTRL_ENABLE) {
        Some(RESET_PLL_USB)
    } else {
        None
    }
}

proof fn lemma_pulsed_lines_are_released(word: u32)
    by (bit_vector)
    ensures
        (((word | (1u32 << 12)) & !(1u32 << 12) | (1u32 << 13)) & !(1u32 << 13)) & (1u32 << 12)
            == 0,
        (((word | (1u32 << 12)) & !(1u32 << 12) | (1u32 << 13)) & !(1u32 << 13)) & (1u32 << 13)
            == 0,
{
}

proof fn lemma_cleared_bit_is_clear(word: u32, mask: u32)
    by (bit_vector)
    ensures
        (word & !mask) & mask == 0,
{
}

proof fn lemma_resets_after_plls(regs: Map<u32, u32>)
    ensures
        !reset_asserted(registers_at(regs, bring_up_program(), 16), RESET_PLL_SYS),
        !reset_asserted(registers_at(regs, bring_up_program(), 16), RESET_PLL_USB),
{
    reveal_with_fuel(registers_at, 17);
    lemma_pulsed_lines_are_released(value_at(regs, RESETS_BASE));
}

proof fn lemma_routing_steps(pc: int)
    requires
        0 <= pc < bring_up_program().len(),
    ensures
        routes_onto(bring_up_program()[pc].access()) == if pc == 24 || pc == 25 || pc == 29 {
            Some(RESET_PLL_SYS)
        } else if pc == 30 || pc == 32 || pc == 33 || pc == 35 {
            Some(RESET_PLL_USB)
        } else {
            None
        },
{
}

/// No clock is switched onto a PLL that is held in reset.
///
/// Whatever the registers hold when the bring-up starts: if step `pc`
/// routes a clock onto a PLL, then the steps before it have left the reset
/// line of that PLL released.
pub proof fn lemma_no_switch_onto_pll_in_reset(regs: Map<u32, u32>, pc: int, line: u32)
    requires
        0 <= pc < bring_up_program().len(),
        routes_onto(bring_up_program()[pc].access()) == Some(line),
    ensures
        !reset_asserted(registers_at(regs, bring_up_program(), pc), line),
{
    lemma_routing_steps(pc);
    lemma_resets_after_plls(regs);
    lemma_register_kept(regs, bring_up_program(), 16, pc, RESETS_BASE);
}

/// In every run of the bring-up, whatever the hardware answers and
/// whatever the registers held at the start: at the moment the sequencer
/// hands out a store that routes a clock onto a PLL, the stores done so far
/// have left the reset line of that PLL released.
pub proof fn lemma_switch_finds_pll_released(regs: Map<u32, u32>, events: Seq<Event>, line: u32)
    requires
        State::start(bring_up_program()).after(events).pending() matches Some(access)
            && routes_onto(access) == Some(line),
    ensures
        !reset_asserted(
            registers_at(
                regs,
                bring_up_program(),
                State::start(bring_up_program()).after(events).pc,
            ),
            line,
        ),
{
    let now = State::start(bring_up_program()).after(events);
    State::start(bring_up_program()).lemma_after_moves_forward(events);
    lemma_no_switch_onto_pll_in_reset(regs, now.pc, line);
}

/// From the moment the system clock is parked until it is moved to its
/// auxiliary source, its mux rests on the reference clock. That covers the
/// reset of either PLL and the store that changes the auxiliary source.
///
/// Whatever the registers hold when the bring-up starts: from the wait
/// that ends the parking up to the store that moves the system clock, the
/// steps done so far have left the control word of the system clock
/// selecting the reference clock.
pub proof fn lemma_parked_while_plls_change(regs: Map<u32, u32>, pc: int)
    requires
        PARK_WAIT <= pc < SYSTEM_WAIT,
    ensures
        system_clock_parked(registers_at(regs, bring_up_program(), pc)),
{
    let sys_ctrl = reg(CLOCKS_BASE, CLK_SYS_CTRL);
    assert(system_clock_parked(registers_at(regs, bring_up_program(), 3))) by {
        reveal_with_fuel(registers_at, 4);
        lemma_cleared_bit_is_clear(value_at(regs, sys_ctrl), CLK_SYS_SRC_AUX);
    }
    if pc <= 24 {
        lemma_register_kept(regs, bring_up_program(), 3, pc, sys_ctrl);
    } else {
        lemma_register_kept(regs, bring_up_program(), 3, 24, sys_ctrl);
        let word = value_at(registers_at(regs, bring_up_program(), 24), sys_ctrl);
        assert((word & !CLK_SYS_AUXSRC) & CLK_SYS_SRC_AUX == 0) by (bit_vector)
            requires
                word & CLK_SYS_SRC_AUX == 0,
        ;
        assert(registers_at(regs, bring_up_program(), 25) == registers_at(
            regs,
            bring_up_program(),
            24,
        ).insert(sys_ctrl, word & !CLK_SYS_AUXSRC)) by {
            reveal_with_fuel(registers_at, 2);
        }
    }
}

} // verus!
