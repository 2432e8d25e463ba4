//! What the registers say of the clock tree, and what they say once the
//! bring-up is through.
use crate::control_registers::{
    reg, CLK_ADC_CTRL, CLK_PERI_CTRL, CLK_REF_CTRL, CLK_REF_DIV, CLK_SYS_CTRL, CLK_SYS_DIV,
    CLK_SYS_SELECTED, CLK_USB_CTRL, CLOCKS_BASE, PLL_CS, PLL_FBDIV_INT, PLL_PRIM, PLL_PWR,
    PLL_SYS_BASE, PLL_USB_BASE, RESETS_BASE, TIMER_BASE, TIMER_DBGPAUSE, WATCHDOG_BASE,
    WATCHDOG_TICK, XOSC_BASE, XOSC_CTRL, XOSC_STATUS,
};
use crate::ordering::{
    lemma_bring_up_waits, lemma_no_switch_onto_pll_in_reset, reset_asserted, system_clock_parked,
};
use crate::register_space::{lemma_register_kept, registers_at, value_at, BLOCK_SIZE};
use crate::sequencer::{Event, State};
use crate::sys_clock::{
    bring_up_program, pll_program, post_dividers, BRING_UP_STEPS, CLK_CTRL_ENABLE, CLK_DIV_ONE,
    CLK_REF_SRC_XOSC, CLK_SYS_AUXSRC, CLK_SYS_SELECTED_AUX, CLK_SYS_SRC_AUX, PLL_CS_LOCK,
    PLL_PWR_PD, PLL_PWR_POSTDIVPD, PLL_PWR_VCOPD, PLL_STEPS, RESET_PLL_SYS, RESET_PLL_USB,
    WATCHDOG_TICK_ENABLE, WHOLE_WORD, XOSC_CTRL_ENABLE, XOSC_CTRL_ENABLE_1_15MHZ,
    XOSC_CTRL_ENABLE_FIELD, XOSC_MHZ, XOSC_STATUS_STABLE,
};
use vstd::prelude::*;

verus! {

/// The state of the crystal oscillator.
pub enum OscillatorState {
    /// Not enabled.
    Disabled,
    /// Enabled, and not yet reported stable.
    Starting,
    /// Enabled and reported stable.
    Stable,
}

/// The state of the crystal oscillator, as its control and status words
/// give it.
pub open spec fn oscillator_state(regs: Map<u32, u32>) -> OscillatorState {
    if value_at(regs, reg(XOSC_BASE, XOSC_CTRL)) & XOSC_CTRL_ENABLE_FIELD != XOSC_CTRL_ENABLE {
        OscillatorState::Disabled
    } else if value_at(regs, reg(XOSC_BASE, XOSC_STATUS)) & XOSC_STATUS_STABLE == 0 {
        OscillatorState::Starting
    } else {
        OscillatorState::Stable
    }
}

/// The state of one PLL, as its registers and its reset line give it.
pub struct PllState {
    pub reset_asserted: bool,
    pub reference_divider: u32,
    pub feedback_divider: u32,
    pub post_divider_1: u32,
    pub post_divider_2: u32,
    pub power_down: bool,
    pub vco_power_down: bool,
    pub post_divider_power_down: bool,
    pub locked: bool,
}

/// The state of the PLL at `pll_base` whose reset line is `line`.
pub open spec fn pll_state(regs: Map<u32, u32>, pll_base: u32, line: u32) -> PllState {
    let cs = value_at(regs, reg(pll_base, PLL_CS));
    let pwr = value_at(regs, reg(pll_base, PLL_PWR));
    let prim = value_at(regs, reg(pll_base, PLL_PRIM));
    PllState {
        reset_asserted: reset_asserted(regs, line),
        reference_divider: cs & 0x3f,
        feedback_divider: value_at(regs, reg(pll_base, PLL_FBDIV_INT)) & 0xfff,
        post_divider_1: (prim >> 16) & 0x7,
        post_divider_2: (prim >> 12) & 0x7,
        power_down: pwr & PLL_PWR_PD != 0,
        vco_power_down: pwr & PLL_PWR_VCOPD != 0,
        post_divider_power_down: pwr & PLL_PWR_POSTDIVPD != 0,
        locked: cs & PLL_CS_LOCK != 0,
    }
}

impl PllState {
    /// The PLL is out of reset and all of it is powered.
    pub open spec fn running(self) -> bool {
        !self.reset_asserted && !self.power_down && !self.vco_power_down
            && !self.post_divider_power_down
    }

    /// Both post dividers are in the range that the PLL takes, 1 to 7.
    pub open spec fn post_dividers_in_range(self) -> bool {
        1 <= self.post_divider_1 <= 7 && 1 <= self.post_divider_2 <= 7
    }

    /// The larger post divider comes first. The datasheet advises it; the
    /// PLL takes them either way.
    pub open spec fn post_dividers_as_advised(self) -> bool {
        self.post_divider_1 >= self.post_divider_2
    }

    /// The frequency that the PLL puts out from the crystal, in MHz:
    /// the crystal's, times the feedback divider, over the reference
    /// divider and both post dividers.
    pub open spec fn output_mhz(self) -> int {
        (XOSC_MHZ * self.feedback_divider) / (self.reference_divider * self.post_divider_1
            * self.post_divider_2)
    }
}

/// The watchdog ticks once in `cycles` cycles of the reference clock.
pub open spec fn watchdog_tick_cycles(regs: Map<u32, u32>) -> u32 {
    value_at(regs, reg(WATCHDOG_BASE, WATCHDOG_TICK)) & 0x1ff
}

/// The tick generator of the watchdog runs.
pub open spec fn watchdog_tick_enabled(regs: Map<u32, u32>) -> bool {
    value_at(regs, reg(WATCHDOG_BASE, WATCHDOG_TICK)) & WATCHDOG_TICK_ENABLE != 0
}

/// `register` is one of the registers that the bring-up stores to.
pub open spec fn touched_by_bring_up(register: u32) -> bool {
    ||| register == RESETS_BASE
    ||| register == reg(XOSC_BASE, XOSC_CTRL)
    ||| register == reg(PLL_SYS_BASE, PLL_CS)
    ||| register == reg(PLL_SYS_BASE, PLL_PWR)
    ||| register == reg(PLL_SYS_BASE, PLL_FBDIV_INT)
    ||| register == reg(PLL_SYS_BASE, PLL_PRIM)
    ||| register == reg(PLL_USB_BASE, PLL_CS)
    ||| register == reg(PLL_USB_BASE, PLL_PWR)
    ||| register == reg(PLL_USB_BASE, PLL_FBDIV_INT)
    ||| register == reg(PLL_USB_BASE, PLL_PRIM)
    ||| register == reg(CLOCKS_BASE, CLK_REF_CTRL)
    ||| register == reg(CLOCKS_BASE, CLK_REF_DIV)
    ||| register == reg(CLOCKS_BASE, CLK_SYS_CTRL)
    ||| register == reg(CLOCKS_BASE, CLK_SYS_DIV)
    ||| register == reg(CLOCKS_BASE, CLK_PERI_CTRL)
    ||| register == reg(CLOCKS_BASE, CLK_USB_CTRL)
    ||| register == reg(CLOCKS_BASE, CLK_ADC_CTRL)
    ||| register == reg(WATCHDOG_BASE, WATCHDOG_TICK)
    ||| register == reg(TIMER_BASE, TIMER_DBGPAUSE)
}

/// The crystal oscillator is enabled, for a crystal of 1 to 15 MHz.
pub open spec fn oscillator_as_planned(regs: Map<u32, u32>) -> bool {
    &&& value_at(regs, reg(XOSC_BASE, XOSC_CTRL)) == XOSC_CTRL_ENABLE_1_15MHZ
    &&& oscillator_state(regs) != OscillatorState::Disabled
}

/// Both PLLs are out of reset and powered, the system PLL with the
/// dividers that give 125 MHz from the crystal and the USB PLL with those
/// that give 48 MHz.
pub open spec fn plls_as_planned(regs: Map<u32, u32>) -> bool {
    let pll_sys = pll_state(regs, PLL_SYS_BASE, RESET_PLL_SYS);
    let pll_usb = pll_state(regs, PLL_USB_BASE, RESET_PLL_USB);
    &&& pll_sys.running()
    &&& pll_sys.reference_divider == 1
    &&& pll_sys.feedback_divider == 125
    &&& pll_sys.post_divider_1 == 6
    &&& pll_sys.post_divider_2 == 2
    &&& pll_sys.post_dividers_in_range()
    &&& pll_sys.post_dividers_as_advised()
    &&& pll_sys.output_mhz() == 125
    &&& pll_usb.running()
    &&& pll_usb.reference_divider == 1
    &&& pll_usb.feedback_divider == 100
    &&& pll_usb.post_divider_1 == 5
    &&& pll_usb.post_divider_2 == 5
    &&& pll_usb.post_dividers_in_range()
    &&& pll_usb.post_dividers_as_advised()
    &&& pll_usb.output_mhz() == 48
}

/// The reference clock runs from the crystal oscillator and the system
/// clock from its auxiliary source, which is the system PLL, both
/// undivided; the peripheral, USB and ADC clocks are enabled on auxiliary
/// source 0.
pub open spec fn clocks_as_planned(regs: Map<u32, u32>) -> bool {
    &&& value_at(regs, reg(CLOCKS_BASE, CLK_REF_CTRL)) == CLK_REF_SRC_XOSC
    &&& value_at(regs, reg(CLOCKS_BASE, CLK_REF_DIV)) == CLK_DIV_ONE
    &&& !system_clock_parked(regs)
    &&& value_at(regs, reg(CLOCKS_BASE, CLK_SYS_CTRL)) & CLK_SYS_AUXSRC == 0
    &&& value_at(regs, reg(CLOCKS_BASE, CLK_SYS_DIV)) == CLK_DIV_ONE
    &&& value_at(regs, reg(CLOCKS_BASE, CLK_PERI_CTRL)) == CLK_CTRL_ENABLE
    &&& value_at(regs, reg(CLOCKS_BASE, CLK_USB_CTRL)) == CLK_CTRL_ENABLE
    &&& value_at(regs, reg(CLOCKS_BASE, CLK_ADC_CTRL)) == CLK_CTRL_ENABLE
}

/// The watchdog ticks once in 12 cycles of the 12 MHz reference clock,
/// which is once each microsecond, and the timer does not pause while a
/// debugger has the cores halted.
pub open spec fn timing_as_planned(regs: Map<u32, u32>) -> bool {
    &&& watchdog_tick_cycles(regs) == XOSC_MHZ
    &&& watchdog_tick_enabled(regs)
    &&& value_at(regs, reg(TIMER_BASE, TIMER_DBGPAUSE)) == 0
}

/// The registers once the whole bring-up is complete, from `regs`.
pub open spec fn brought_up(regs: Map<u32, u32>) -> Map<u32, u32> {
    registers_at(regs, bring_up_program(), BRING_UP_STEPS as int)
}

/// The two post dividers come back out of the word that holds them.
pub proof fn lemma_post_dividers_decode(pd1: u32, pd2: u32)
    by (bit_vector)
    requires
        pd1 <= 7,
        pd2 <= 7,
    ensures
        (post_dividers(pd1, pd2) >> 16) & 0x7 == pd1,
        (post_dividers(pd1, pd2) >> 12) & 0x7 == pd2,
{
}

proof fn lemma_line_pulsed(word: u32, line: u32)
    by (bit_vector)
    requires
        line < 32,
    ensures
        (word | (1u32 << line)) & !(1u32 << line) == word & !(1u32 << line),
        (word & !(1u32 << line)) & (1u32 << line) == 0,
{
}

proof fn lemma_fields_hold(refdiv: u32, fbdiv: u32)
    by (bit_vector)
    requires
        refdiv <= 0x3f,
        fbdiv <= 0xfff,
    ensures
        refdiv & 0x3f == refdiv,
        fbdiv & 0xfff == fbdiv,
{
}

/// What configuring a PLL establishes, whatever the registers held before.
///
/// Once the eight steps are complete, the reset line of the PLL is
/// released and no other line has changed; the PLL, its oscillator and its
/// post dividers are powered; the dividers are those asked for; and every
/// other register holds what it held before.
///
/// The lock bit is the hardware's to set: nothing is claimed of it here.
pub proof fn lemma_pll_program_configures(
    regs: Map<u32, u32>,
    pll_base: u32,
    peri_num: u32,
    refdiv: u32,
    fbdiv: u32,
    pd1: u32,
    pd2: u32,
)
    requires
        pll_base % BLOCK_SIZE == 0,
        pll_base != RESETS_BASE,
        peri_num < 32,
        refdiv <= 0x3f,
        fbdiv <= 0xfff,
        pd1 <= 7,
        pd2 <= 7,
    ensures
        ({
            let done = registers_at(
                regs,
                pll_program(pll_base, peri_num, refdiv, fbdiv, pd1, pd2),
                PLL_STEPS as int,
            );
            let pll = pll_state(done, pll_base, peri_num);
            &&& pll.running()
            &&& pll.reference_divider == refdiv
            &&& pll.feedback_divider == fbdiv
            &&& pll.post_divider_1 == pd1
            &&& pll.post_divider_2 == pd2
            &&& value_at(done, RESETS_BASE) == value_at(regs, RESETS_BASE) & !(1u32 << peri_num)
            &&& forall|register: u32|
                register != RESETS_BASE && register != reg(pll_base, PLL_CS) && register != reg(
                    pll_base,
                    PLL_PWR,
                ) && register != reg(pll_base, PLL_FBDIV_INT) && register != reg(
                    pll_base,
                    PLL_PRIM,
                ) ==> value_at(done, register) == value_at(regs, register)
        }),
{
    let program = pll_program(pll_base, peri_num, refdiv, fbdiv, pd1, pd2);
    let line = 1u32 << peri_num;
    let pwr = reg(pll_base, PLL_PWR);
    let reset = regs.insert(RESETS_BASE, value_at(regs, RESETS_BASE) | line);
    let released = reset.insert(RESETS_BASE, value_at(reset, RESETS_BASE) & !line);
    let divided = released.insert(reg(pll_base, PLL_CS), refdiv).insert(
        reg(pll_base, PLL_FBDIV_INT),
        fbdiv,
    );
    let powered = divided.insert(pwr, value_at(divided, pwr) & !(PLL_PWR_PD | PLL_PWR_VCOPD));
    let loaded = powered.insert(reg(pll_base, PLL_PRIM), post_dividers(pd1, pd2));
    let done = loaded.insert(pwr, value_at(loaded, pwr) & !PLL_PWR_POSTDIVPD);
    assert(registers_at(regs, program, 2) == released) by {
        reveal_with_fuel(registers_at, 3);
    }
    assert(registers_at(regs, program, 4) == divided) by {
        reveal_with_fuel(registers_at, 3);
    }
    assert(registers_at(regs, program, 6) == powered) by {
        reveal_with_fuel(registers_at, 3);
    }
    assert(registers_at(regs, program, 8) == done) by {
        reveal_with_fuel(registers_at, 3);
    }
    lemma_line_pulsed(value_at(regs, RESETS_BASE), peri_num);
    lemma_fields_hold(refdiv, fbdiv);
    lemma_post_dividers_decode(pd1, pd2);
    lemma_pll_powered(value_at(regs, pwr));
}

/// The frequency that the dividers give from the 12 MHz crystal.
proof fn lemma_output_mhz(state: PllState, fbdiv: u32, pd1: u32, pd2: u32, mhz: int)
    requires
        state.reference_divider == 1,
        state.feedback_divider == fbdiv,
        state.post_divider_1 == pd1,
        state.post_divider_2 == pd2,
        fbdiv == 125 && pd1 == 6 && pd2 == 2 && mhz == 125 || fbdiv == 100 && pd1 == 5 && pd2 == 5
            && mhz == 48,
    ensures
        state.output_mhz() == mhz,
{
    let r = state.reference_divider;
    let f = state.feedback_divider;
    let post1 = state.post_divider_1;
    let post2 = state.post_divider_2;
    assert((12 * f) / (r * post1 * post2) == mhz) by (nonlinear_arith)
        requires
            r == 1,
            f == 125 && post1 == 6 && post2 == 2 && mhz == 125 || f == 100 && post1 == 5
                && post2 == 5 && mhz == 48,
    ;
}

proof fn lemma_pll_powered(word: u32)
    by (bit_vector)
    ensures
        ((word & !(0x01u32 | 0x20u32)) & !0x08u32) & 0x01 == 0,
        ((word & !(0x01u32 | 0x20u32)) & !0x08u32) & 0x20 == 0,
        ((word & !(0x01u32 | 0x20u32)) & !0x08u32) & 0x08 == 0,
{
}

proof fn lemma_plan_words()
    by (bit_vector)
    ensures
        0x00fa_baa0u32 & 0x00ff_f000 == 0x00fa_b000,
        1u32 & 0x3f == 1,
        125u32 & 0xfff == 125,
        100u32 & 0xfff == 100,
        (12u32 | 0x200u32) & 0x1ff == 12,
        (12u32 | 0x200u32) & 0x200 != 0,
        0u32 | 0x800u32 == 0x800,
{
}

proof fn lemma_system_clock_word(word: u32)
    by (bit_vector)
    ensures
        (((word & !0x01u32) & !0xe0u32) | 0x01u32) & 0x01 == 0x01,
        (((word & !0x01u32) & !0xe0u32) | 0x01u32) & 0xe0 == 0,
{
}

proof fn lemma_pll_registers(
    regs: Map<u32, u32>,
    first: int,
    pll_base: u32,
    fbdiv: u32,
    pd1: u32,
    pd2: u32,
)
    requires
        first == 6 && pll_base == PLL_SYS_BASE && fbdiv == 125 && pd1 == 6 && pd2 == 2 || first
            == 14 && pll_base == PLL_USB_BASE && fbdiv == 100 && pd1 == 5 && pd2 == 5,
    ensures
        value_at(brought_up(regs), reg(pll_base, PLL_CS)) == 1,
        value_at(brought_up(regs), reg(pll_base, PLL_FBDIV_INT)) == fbdiv,
        value_at(brought_up(regs), reg(pll_base, PLL_PRIM)) == post_dividers(pd1, pd2),
        value_at(brought_up(regs), reg(pll_base, PLL_PWR)) == (value_at(
            regs,
            reg(pll_base, PLL_PWR),
        ) & !(PLL_PWR_PD | PLL_PWR_VCOPD)) & !PLL_PWR_POSTDIVPD,
{
    let program = bring_up_program();
    let pwr = reg(pll_base, PLL_PWR);
    lemma_register_kept(regs, program, first + 3, 38, reg(pll_base, PLL_CS));
    lemma_register_kept(regs, program, first + 4, 38, reg(pll_base, PLL_FBDIV_INT));
    lemma_register_kept(regs, program, first + 7, 38, reg(pll_base, PLL_PRIM));
    lemma_register_kept(regs, program, 0, first + 4, pwr);
    lemma_register_kept(regs, program, first + 5, first + 7, pwr);
    assert(registers_at(regs, program, first + 3) == registers_at(regs, program, first + 2).insert(
        reg(pll_base, PLL_CS),
        1,
    ));
    assert(registers_at(regs, program, first + 4) == registers_at(regs, program, first + 3).insert(
        reg(pll_base, PLL_FBDIV_INT),
        fbdiv,
    ));
    assert(registers_at(regs, program, first + 7) == registers_at(regs, program, first + 6).insert(
        reg(pll_base, PLL_PRIM),
        post_dividers(pd1, pd2),
    ));
    assert(registers_at(regs, program, first + 5) == registers_at(regs, program, first + 4).insert(
        pwr,
        value_at(registers_at(regs, program, first + 4), pwr) & !(PLL_PWR_PD | PLL_PWR_VCOPD),
    ));
    assert(registers_at(regs, program, first + 8) == registers_at(regs, program, first + 7).insert(
        pwr,
        value_at(registers_at(regs, program, first + 7), pwr) & !PLL_PWR_POSTDIVPD,
    ));
    lemma_register_kept(regs, program, first + 8, 38, pwr);
}

proof fn lemma_plls_as_planned(regs: Map<u32, u32>)
    ensures
        plls_as_planned(brought_up(regs)),
{
    let program = bring_up_program();
    lemma_no_switch_onto_pll_in_reset(regs, 25, RESET_PLL_SYS);
    lemma_no_switch_onto_pll_in_reset(regs, 35, RESET_PLL_USB);
    lemma_register_kept(regs, program, 25, 38, RESETS_BASE);
    lemma_register_kept(regs, program, 35, 38, RESETS_BASE);
    lemma_pll_registers(regs, 6, PLL_SYS_BASE, 125, 6, 2);
    lemma_pll_registers(regs, 14, PLL_USB_BASE, 100, 5, 5);
    lemma_post_dividers_decode(6, 2);
    lemma_post_dividers_decode(5, 5);
    lemma_pll_powered(value_at(regs, reg(PLL_SYS_BASE, PLL_PWR)));
    lemma_pll_powered(value_at(regs, reg(PLL_USB_BASE, PLL_PWR)));
    lemma_plan_words();
    lemma_output_mhz(pll_state(brought_up(regs), PLL_SYS_BASE, RESET_PLL_SYS), 125, 6, 2, 125);
    lemma_output_mhz(pll_state(brought_up(regs), PLL_USB_BASE, RESET_PLL_USB), 100, 5, 5, 48);
}

proof fn lemma_oscillator_as_planned(regs: Map<u32, u32>)
    ensures
        oscillator_as_planned(brought_up(regs)),
{
    let program = bring_up_program();
    lemma_register_kept(regs, program, 1, 38, reg(XOSC_BASE, XOSC_CTRL));
    assert(registers_at(regs, program, 1) == registers_at(regs, program, 0).insert(
        reg(XOSC_BASE, XOSC_CTRL),
        XOSC_CTRL_ENABLE_1_15MHZ,
    ));
    lemma_plan_words();
}

proof fn lemma_system_clock_routed(regs: Map<u32, u32>)
    ensures
        !system_clock_parked(brought_up(regs)),
        value_at(brought_up(regs), reg(CLOCKS_BASE, CLK_SYS_CTRL)) & CLK_SYS_AUXSRC == 0,
{
    let program = bring_up_program();
    let sys_ctrl = reg(CLOCKS_BASE, CLK_SYS_CTRL);
    lemma_register_kept(regs, program, 0, 2, sys_ctrl);
    assert(registers_at(regs, program, 3) == registers_at(regs, program, 2).insert(
        sys_ctrl,
        value_at(registers_at(regs, program, 2), sys_ctrl) & !CLK_SYS_SRC_AUX,
    ));
    lemma_register_kept(regs, program, 3, 24, sys_ctrl);
    assert(registers_at(regs, program, 25) == registers_at(regs, program, 24).insert(
        sys_ctrl,
        value_at(registers_at(regs, program, 24), sys_ctrl) & !CLK_SYS_AUXSRC,
    ));
    assert(registers_at(regs, program, 26) == registers_at(regs, program, 25).insert(
        sys_ctrl,
        value_at(registers_at(regs, program, 25), sys_ctrl) | CLK_SYS_SRC_AUX,
    ));
    lemma_register_kept(regs, program, 26, 38, sys_ctrl);
    lemma_system_clock_word(value_at(regs, sys_ctrl));
}

proof fn lemma_reference_clock_routed(regs: Map<u32, u32>)
    ensures
        value_at(brought_up(regs), reg(CLOCKS_BASE, CLK_REF_CTRL)) == CLK_REF_SRC_XOSC,
        value_at(brought_up(regs), reg(CLOCKS_BASE, CLK_REF_DIV)) == CLK_DIV_ONE,
        value_at(brought_up(regs), reg(CLOCKS_BASE, CLK_SYS_DIV)) == CLK_DIV_ONE,
{
    let program = bring_up_program();
    lemma_register_kept(regs, program, 5, 38, reg(CLOCKS_BASE, CLK_REF_CTRL));
    lemma_register_kept(regs, program, 23, 38, reg(CLOCKS_BASE, CLK_REF_DIV));
    lemma_register_kept(regs, program, 24, 38, reg(CLOCKS_BASE, CLK_SYS_DIV));
    assert(registers_at(regs, program, 5) == registers_at(regs, program, 4).insert(
        reg(CLOCKS_BASE, CLK_REF_CTRL),
        CLK_REF_SRC_XOSC,
    ));
    assert(registers_at(regs, program, 23) == registers_at(regs, program, 22).insert(
        reg(CLOCKS_BASE, CLK_REF_DIV),
        CLK_DIV_ONE,
    ));
    assert(registers_at(regs, program, 24) == registers_at(regs, program, 23).insert(
        reg(CLOCKS_BASE, CLK_SYS_DIV),
        CLK_DIV_ONE,
    ));
}

proof fn lemma_derived_clock_restarted(regs: Map<u32, u32>, first: int, ctrl: u32)
    requires
        first == 27 && ctrl == CLK_PERI_CTRL || first == 30 && ctrl == CLK_USB_CTRL || first == 33
            && ctrl == CLK_ADC_CTRL,
    ensures
        value_at(brought_up(regs), reg(CLOCKS_BASE, ctrl)) == CLK_CTRL_ENABLE,
{
    let program = bring_up_program();
    let word = reg(CLOCKS_BASE, ctrl);
    assert(registers_at(regs, program, first + 1) == registers_at(regs, program, first).insert(
        word,
        0,
    ));
    assert(registers_at(regs, program, first + 2) == registers_at(regs, program, first + 1));
    assert(registers_at(regs, program, first + 3) == registers_at(regs, program, first + 2).insert(
        word,
        value_at(registers_at(regs, program, first + 2), word) | CLK_CTRL_ENABLE,
    ));
    lemma_register_kept(regs, program, first + 3, 38, word);
    lemma_plan_words();
}

proof fn lemma_clocks_as_planned(regs: Map<u32, u32>)
    ensures
        clocks_as_planned(brought_up(regs)),
{
    lemma_reference_clock_routed(regs);
    lemma_system_clock_routed(regs);
    lemma_derived_clock_restarted(regs, 27, CLK_PERI_CTRL);
    lemma_derived_clock_restarted(regs, 30, CLK_USB_CTRL);
    lemma_derived_clock_restarted(regs, 33, CLK_ADC_CTRL);
}

proof fn lemma_timing_as_planned(regs: Map<u32, u32>)
    ensures
        timing_as_planned(brought_up(regs)),
{
    let program = bring_up_program();
    assert(registers_at(regs, program, 37) == registers_at(regs, program, 36).insert(
        reg(WATCHDOG_BASE, WATCHDOG_TICK),
        XOSC_MHZ | WATCHDOG_TICK_ENABLE,
    ));
    assert(registers_at(regs, program, 38) == registers_at(regs, program, 37).insert(
        reg(TIMER_BASE, TIMER_DBGPAUSE),
        0,
    ));
    lemma_plan_words();
}

/// What the bring-up establishes, whatever the registers held before:
/// once every step is complete, the oscillator, the PLLs, the clocks and
/// the tick are as planned.
///
/// The lock bit is the hardware's to set: nothing is claimed of it here.
pub proof fn lemma_bring_up_establishes_clock_tree(regs: Map<u32, u32>)
    ensures
        oscillator_as_planned(brought_up(regs)),
        plls_as_planned(brought_up(regs)),
        clocks_as_planned(brought_up(regs)),
        timing_as_planned(brought_up(regs)),
{
    lemma_oscillator_as_planned(regs);
    lemma_plls_as_planned(regs);
    lemma_clocks_as_planned(regs);
    lemma_timing_as_planned(regs);
}

/// The bring-up changes no register but those it is about: every register
/// that it does not store to holds, once every step is complete, what it
/// held before.
pub proof fn lemma_bring_up_touches_only_its_registers(regs: Map<u32, u32>, register: u32)
    requires
        !touched_by_bring_up(register),
    ensures
        value_at(brought_up(regs), register) == value_at(regs, register),
{
    lemma_register_kept(regs, bring_up_program(), 0, 38, register);
}

/// A bring-up that has come to its end has seen the crystal stable, both
/// PLLs locked and the system clock on the system PLL, and the stores it
/// has done leave the oscillator, the PLLs, the clocks and the tick as
/// planned, whatever the registers held before.
pub proof fn lemma_finished_bring_up(regs: Map<u32, u32>, events: Seq<Event>)
    requires
        State::start(bring_up_program()).after(events).finished(),
    ensures
        ({
            let start = State::start(bring_up_program());
            let done = registers_at(regs, bring_up_program(), start.after(events).pc);
            &&& start.observed(
                events,
                reg(XOSC_BASE, XOSC_STATUS),
                XOSC_STATUS_STABLE,
                XOSC_STATUS_STABLE,
            )
            &&& start.observed(events, reg(PLL_SYS_BASE, PLL_CS), PLL_CS_LOCK, PLL_CS_LOCK)
            &&& start.observed(events, reg(PLL_USB_BASE, PLL_CS), PLL_CS_LOCK, PLL_CS_LOCK)
            &&& start.observed(
                events,
                reg(CLOCKS_BASE, CLK_SYS_SELECTED),
                WHOLE_WORD,
                CLK_SYS_SELECTED_AUX,
            )
            &&& done == brought_up(regs)
            &&& oscillator_as_planned(done)
            &&& plls_as_planned(done)
            &&& clocks_as_planned(done)
            &&& timing_as_planned(done)
        }),
{
    State::start(bring_up_program()).lemma_after_moves_forward(events);
    lemma_bring_up_waits(events);
    lemma_bring_up_establishes_clock_tree(regs);
}

} // verus!
