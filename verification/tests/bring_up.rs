use rp2040_clocks::control_registers::Access;
use rp2040_clocks::register_space::{register_at, RegisterSpace};
use rp2040_clocks::sequencer::{Sequencer, Step};
use rp2040_clocks::simulation::simulate;
use rp2040_clocks::sys_clock::{
    init_clocks, init_pll, start_oscillator, BRING_UP_STEPS, OSCILLATOR_WAIT, PARK_WAIT,
    PLL_LOCK_WAIT, PLL_STEPS, PLL_SYS_FIRST, PLL_USB_FIRST, REFERENCE_WAIT, SYSTEM_WAIT,
};

const XOSC_CTRL: u32 = 0x4002_4000;
const XOSC_STATUS: u32 = 0x4002_4004;
const CLK_GPOUT0_CTRL: u32 = 0x4000_8000;
const CLK_REF_CTRL: u32 = 0x4000_8030;
const CLK_REF_DIV: u32 = 0x4000_8034;
const CLK_REF_SELECTED: u32 = 0x4000_8038;
const CLK_SYS_CTRL: u32 = 0x4000_803c;
const CLK_SYS_DIV: u32 = 0x4000_8040;
const CLK_SYS_SELECTED: u32 = 0x4000_8044;
const CLK_PERI_CTRL: u32 = 0x4000_8048;
const CLK_USB_CTRL: u32 = 0x4000_8054;
const CLK_ADC_CTRL: u32 = 0x4000_8060;
const RESETS: u32 = 0x4000_c000;
const PLL_SYS: u32 = 0x4002_8000;
const PLL_USB: u32 = 0x4002_c000;
const WATCHDOG_TICK: u32 = 0x4005_802c;
const TIMER_DBGPAUSE: u32 = 0x4005_402c;
const SET: u32 = 0x2000;
const CLEAR: u32 = 0x3000;
const LOCK: u32 = 0x8000_0000;

/// One access of a run, with the reset lines as they stood when it went out.
#[derive(Clone, Copy, Debug, PartialEq)]
struct Entry {
    access: Access,
    resets: u32,
}

/// The registers as they are after a reset of the part.
fn after_reset() -> RegisterSpace {
    let mut space = RegisterSpace::new();
    space.poke(RESETS, 0x01ff_ffff);
    space.poke(PLL_SYS + 0x04, 0x2d);
    space.poke(PLL_USB + 0x04, 0x2d);
    space.poke(CLK_SYS_SELECTED, 1);
    space.poke(CLK_REF_SELECTED, 1);
    space
}

/// What the hardware does of its own between two accesses: the
/// oscillator becomes stable once enabled, a glitchless mux reports the
/// source it was told to take, a PLL locks once it is out of reset and
/// powered, and loses lock otherwise.
fn hardware(space: &mut RegisterSpace, locks: bool) {
    if space.peek(XOSC_CTRL) == 0x00fa_baa0 {
        space.poke(XOSC_STATUS, 0x8000_0000);
    }
    space.poke(CLK_SYS_SELECTED, 1 << (space.peek(CLK_SYS_CTRL) & 1));
    space.poke(CLK_REF_SELECTED, 1 << (space.peek(CLK_REF_CTRL) & 3));
    for (base, line) in [(PLL_SYS, 12), (PLL_USB, 13)] {
        let cs = space.peek(base);
        let running = space.peek(RESETS) & (1 << line) == 0 && space.peek(base + 4) & 0x21 == 0;
        if locks && running {
            space.poke(base, cs | LOCK);
        } else {
            space.poke(base, cs & !LOCK);
        }
    }
}

/// Runs `program` for at most `budget` accesses on `space`.
fn run(
    program: Vec<Step>,
    space: &mut RegisterSpace,
    budget: usize,
    locks: bool,
) -> (Sequencer, Vec<Entry>) {
    let mut sequencer = Sequencer::new(program);
    let mut log = Vec::new();
    for _ in 0..budget {
        hardware(space, locks);
        let resets = space.peek(RESETS);
        for access in simulate(&mut sequencer, space, 1) {
            log.push(Entry { access, resets });
        }
    }
    (sequencer, log)
}

fn store(addr: u32, value: u32) -> Step {
    Step::Once { access: Access::Store { addr, value } }
}

fn load(addr: u32) -> Step {
    Step::Once { access: Access::Load { addr } }
}

fn poll(addr: u32, mask: u32, expect: u32) -> Step {
    Step::Poll { addr, mask, expect }
}

fn pll_listing(base: u32, line: u32, fbdiv: u32, prim: u32) -> Vec<Step> {
    vec![
        store(RESETS + SET, 1 << line),
        store(RESETS + CLEAR, 1 << line),
        store(base, 1),
        store(base + 0x08, fbdiv),
        store(base + 0x04 + CLEAR, 0x21),
        poll(base, LOCK, LOCK),
        store(base + 0x0c, prim),
        store(base + 0x04 + CLEAR, 0x08),
    ]
}

fn position_of(log: &[Entry], access: Access) -> usize {
    let found: Vec<usize> = (0..log.len()).filter(|&i| log[i].access == access).collect();
    assert_eq!(found.len(), 1, "{:?} occurs {} times", access, found.len());
    found[0]
}

fn reaches(entry: &Entry, register: u32) -> bool {
    match entry.access {
        Access::Load { addr } => addr == register,
        Access::Store { addr, .. } => register_at(addr) == register,
    }
}

#[test]
fn oscillator_program_is_enable_then_wait() {
    assert_eq!(
        start_oscillator(),
        vec![store(XOSC_CTRL, 0x00fa_baa0), poll(XOSC_STATUS, 0x8000_0000, 0x8000_0000)]
    );
}

#[test]
fn pll_program_is_the_listing() {
    assert_eq!(init_pll(PLL_SYS, 12, 1, 125, 6, 2), pll_listing(PLL_SYS, 12, 125, 0x0006_2000));
    assert_eq!(init_pll(PLL_USB, 13, 1, 100, 5, 5), pll_listing(PLL_USB, 13, 100, 0x0005_5000));
}

#[test]
fn pll_program_takes_any_dividers_and_any_line() {
    let program = init_pll(0x5000_0000, 31, 63, 320, 7, 1);
    assert_eq!(program[0], store(RESETS + SET, 0x8000_0000));
    assert_eq!(program[1], store(RESETS + CLEAR, 0x8000_0000));
    assert_eq!(program[2], store(0x5000_0000, 63));
    assert_eq!(program[3], store(0x5000_0008, 320));
    assert_eq!(program[4], store(0x5000_3004, 0x21));
    assert_eq!(program[5], poll(0x5000_0000, LOCK, LOCK));
    assert_eq!(program[6], store(0x5000_000c, 0x0007_1000));
    assert_eq!(program[7], store(0x5000_3004, 0x08));
    assert_eq!(init_pll(PLL_SYS, 0, 1, 125, 6, 2)[0], store(RESETS + SET, 1));
}

#[test]
fn bring_up_program_is_the_listing() {
    let mut listing = vec![
        store(XOSC_CTRL, 0x00fa_baa0),
        poll(XOSC_STATUS, 0x8000_0000, 0x8000_0000),
        store(CLK_SYS_CTRL + CLEAR, 0x1),
        poll(CLK_SYS_SELECTED, 0xffff_ffff, 0x1),
        store(CLK_REF_CTRL, 0x2),
        poll(CLK_REF_SELECTED, 0xffff_ffff, 0x4),
    ];
    listing.extend(pll_listing(PLL_SYS, 12, 125, 0x0006_2000));
    listing.extend(pll_listing(PLL_USB, 13, 100, 0x0005_5000));
    listing.extend(vec![
        store(CLK_REF_DIV, 0x100),
        store(CLK_SYS_DIV, 0x100),
        store(CLK_SYS_CTRL + CLEAR, 0xe0),
        store(CLK_SYS_CTRL + SET, 0x1),
        poll(CLK_SYS_SELECTED, 0xffff_ffff, 0x2),
        store(CLK_PERI_CTRL, 0),
        load(CLK_GPOUT0_CTRL),
        store(CLK_PERI_CTRL + SET, 0x800),
        store(CLK_USB_CTRL, 0),
        load(CLK_GPOUT0_CTRL),
        store(CLK_USB_CTRL + SET, 0x800),
        store(CLK_ADC_CTRL, 0),
        load(CLK_GPOUT0_CTRL),
        store(CLK_ADC_CTRL + SET, 0x800),
        store(WATCHDOG_TICK, 0x20c),
        store(TIMER_DBGPAUSE, 0),
    ]);
    assert_eq!(listing.len(), 38);
    assert_eq!(init_clocks(), listing);
    assert_eq!(BRING_UP_STEPS, 38);
}

#[test]
fn named_steps_are_the_waits() {
    let program = init_clocks();
    assert_eq!(program[OSCILLATOR_WAIT], poll(XOSC_STATUS, 0x8000_0000, 0x8000_0000));
    assert_eq!(program[PARK_WAIT], poll(CLK_SYS_SELECTED, 0xffff_ffff, 0x1));
    assert_eq!(program[REFERENCE_WAIT], poll(CLK_REF_SELECTED, 0xffff_ffff, 0x4));
    assert_eq!(program[PLL_SYS_FIRST + PLL_LOCK_WAIT], poll(PLL_SYS, LOCK, LOCK));
    assert_eq!(program[PLL_USB_FIRST + PLL_LOCK_WAIT], poll(PLL_USB, LOCK, LOCK));
    assert_eq!(program[SYSTEM_WAIT], poll(CLK_SYS_SELECTED, 0xffff_ffff, 0x2));
    assert_eq!(
        program[PLL_SYS_FIRST..PLL_SYS_FIRST + PLL_STEPS],
        init_pll(PLL_SYS, 12, 1, 125, 6, 2)[..]
    );
    assert_eq!(
        program[PLL_USB_FIRST..PLL_USB_FIRST + PLL_STEPS],
        init_pll(PLL_USB, 13, 1, 100, 5, 5)[..]
    );
    let waits = (0..program.len()).filter(|&i| matches!(program[i], Step::Poll { .. })).count();
    assert_eq!(waits, 6);
}

#[test]
fn bring_up_runs_to_its_end_on_willing_hardware() {
    let mut space = after_reset();
    let (sequencer, log) = run(init_clocks(), &mut space, 1000, true);
    assert!(sequencer.is_finished());
    assert_eq!(sequencer.position(), BRING_UP_STEPS);
    assert_eq!(sequencer.pending(), None);
    // Every wait is met at its first load here, so each step goes out once.
    assert_eq!(log.len(), 38);
    let accesses: Vec<Access> = log.iter().map(|entry| entry.access).collect();
    let expected: Vec<Access> = init_clocks()
        .iter()
        .map(|step| match *step {
            Step::Once { access } => access,
            Step::Poll { addr, .. } => Access::Load { addr },
        })
        .collect();
    assert_eq!(accesses, expected);
}

#[test]
fn system_pll_gives_125_mhz() {
    let (crystal_mhz, refdiv, fbdiv, pd1, pd2) = (12, 1, 125, 6, 2);
    assert_eq!(crystal_mhz / refdiv * fbdiv / (pd1 * pd2), 125);

    let mut space = after_reset();
    let (sequencer, _) = run(init_clocks(), &mut space, 1000, true);
    assert!(sequencer.is_finished());
    assert_eq!(space.peek(PLL_SYS) & 0x3f, refdiv);
    assert_eq!(space.peek(PLL_SYS + 0x08), fbdiv);
    assert_eq!(space.peek(PLL_SYS + 0x0c), pd1 << 16 | pd2 << 12);
    assert_eq!(space.peek(PLL_SYS + 0x0c), 0x0006_2000);
    assert_eq!(space.peek(PLL_SYS + 0x04) & 0x29, 0);
    assert_eq!(space.peek(RESETS) & (1 << 12), 0);
}

#[test]
fn usb_pll_gives_48_mhz() {
    let (crystal_mhz, refdiv, fbdiv, pd1, pd2) = (12, 1, 100, 5, 5);
    assert_eq!(crystal_mhz / refdiv * fbdiv / (pd1 * pd2), 48);

    let mut space = after_reset();
    let (sequencer, _) = run(init_clocks(), &mut space, 1000, true);
    assert!(sequencer.is_finished());
    assert_eq!(space.peek(PLL_USB) & 0x3f, refdiv);
    assert_eq!(space.peek(PLL_USB + 0x08), fbdiv);
    assert_eq!(space.peek(PLL_USB + 0x0c), pd1 << 16 | pd2 << 12);
    assert_eq!(space.peek(PLL_USB + 0x0c), 0x0005_5000);
    assert_eq!(space.peek(PLL_USB + 0x04) & 0x29, 0);
    assert_eq!(space.peek(RESETS) & (1 << 13), 0);
}

#[test]
fn init_pll_alone_programs_its_dividers() {
    let mut space = after_reset();
    let (sequencer, log) = run(init_pll(PLL_SYS, 12, 1, 125, 6, 2), &mut space, 100, true);
    assert!(sequencer.is_finished());
    assert_eq!(log.len(), 8);
    assert_eq!(space.peek(PLL_SYS + 0x08), 125);
    assert_eq!(space.peek(PLL_SYS + 0x0c), 0x0006_2000);
    assert_eq!(space.peek(PLL_SYS + 0x04), 0x04);
    assert_eq!(space.peek(RESETS), 0x01ff_efff);
    // The other PLL was not touched.
    assert_eq!(space.peek(PLL_USB + 0x04), 0x2d);
    assert_eq!(space.peek(PLL_USB + 0x08), 0);
}

#[test]
fn lock_is_seen_before_the_post_dividers_are_touched() {
    for (base, line) in [(PLL_SYS, 12u32), (PLL_USB, 13u32)] {
        let mut space = after_reset();
        let (sequencer, log) = run(init_clocks(), &mut space, 1000, true);
        assert!(sequencer.is_finished());
        let power_up = position_of(&log, Access::Store { addr: base + 0x04 + CLEAR, value: 0x21 });
        let lock_seen = position_of(&log, Access::Load { addr: base });
        let dividers = (0..log.len())
            .find(|&i| matches!(log[i].access, Access::Store { addr, .. } if addr == base + 0x0c))
            .unwrap();
        let enable = position_of(&log, Access::Store { addr: base + 0x04 + CLEAR, value: 0x08 });
        let released = position_of(&log, Access::Store { addr: RESETS + CLEAR, value: 1 << line });
        assert!(released < power_up);
        assert!(power_up < lock_seen);
        assert!(lock_seen < dividers);
        assert!(dividers < enable);
    }
}

#[test]
fn a_pll_that_locks_late_is_polled_until_it_locks() {
    let mut space = after_reset();
    let mut sequencer = Sequencer::new(init_pll(PLL_SYS, 12, 1, 125, 6, 2));
    let mut log = Vec::new();
    for round in 0..60 {
        hardware(&mut space, round >= 40);
        log.extend(simulate(&mut sequencer, &mut space, 1));
    }
    assert!(sequencer.is_finished());
    // Five stores, then loads of the status word up to the round in which
    // the PLL locks, then the two stores behind the wait.
    assert_eq!(log.len(), 5 + 36 + 2);
    for access in &log[5..41] {
        assert_eq!(*access, Access::Load { addr: PLL_SYS });
    }
    assert_eq!(log[41], Access::Store { addr: PLL_SYS + 0x0c, value: 0x0006_2000 });
    assert_eq!(log[42], Access::Store { addr: PLL_SYS + 0x04 + CLEAR, value: 0x08 });
}

#[test]
fn a_pll_that_never_locks_blocks_the_program_at_the_poll() {
    let mut space = after_reset();
    let (sequencer, log) = run(init_pll(PLL_SYS, 12, 1, 125, 6, 2), &mut space, 5000, false);
    assert!(!sequencer.is_finished());
    assert_eq!(sequencer.position(), PLL_LOCK_WAIT);
    assert_eq!(sequencer.pending(), Some(Access::Load { addr: PLL_SYS }));
    assert_eq!(log.len(), 5000);
    for entry in &log[5..] {
        assert_eq!(entry.access, Access::Load { addr: PLL_SYS });
    }
    // Nothing behind the wait has happened.
    assert_eq!(space.peek(PLL_SYS + 0x0c), 0);
    assert_eq!(space.peek(PLL_SYS + 0x04) & 0x08, 0x08);
}

#[test]
fn bring_up_blocks_at_the_first_pll_that_never_locks() {
    let mut space = after_reset();
    let (sequencer, log) = run(init_clocks(), &mut space, 3000, false);
    assert!(!sequencer.is_finished());
    assert_eq!(sequencer.position(), PLL_SYS_FIRST + PLL_LOCK_WAIT);
    assert_eq!(sequencer.position(), 11);
    assert_eq!(log.len(), 3000);
    for entry in &log[11..] {
        assert_eq!(entry.access, Access::Load { addr: PLL_SYS });
    }
    // The system clock still rests on the reference clock, and no derived
    // clock was switched.
    assert_eq!(space.peek(CLK_SYS_CTRL) & 1, 0);
    assert_eq!(space.peek(CLK_PERI_CTRL), 0);
    assert_eq!(space.peek(WATCHDOG_TICK), 0);
}

#[test]
fn a_missing_crystal_blocks_the_program_at_its_first_wait() {
    let mut space = after_reset();
    let mut sequencer = Sequencer::new(init_clocks());
    let log = simulate(&mut sequencer, &mut space, 2000);
    assert_eq!(sequencer.position(), OSCILLATOR_WAIT);
    assert_eq!(log.len(), 2000);
    assert_eq!(log[0], Access::Store { addr: XOSC_CTRL, value: 0x00fa_baa0 });
    for access in &log[1..] {
        assert_eq!(*access, Access::Load { addr: XOSC_STATUS });
    }
}

#[test]
fn a_mux_that_never_switches_blocks_the_program() {
    let mut space = after_reset();
    space.poke(XOSC_STATUS, 0x8000_0000);
    // The system clock reports the auxiliary source and keeps doing so.
    space.poke(CLK_SYS_SELECTED, 2);
    let mut sequencer = Sequencer::new(init_clocks());
    let log = simulate(&mut sequencer, &mut space, 500);
    assert_eq!(sequencer.position(), PARK_WAIT);
    assert_eq!(log.len(), 500);
    for access in &log[3..] {
        assert_eq!(*access, Access::Load { addr: CLK_SYS_SELECTED });
    }
}

#[test]
fn no_clock_is_switched_onto_a_pll_in_reset() {
    let mut space = after_reset();
    let (sequencer, log) = run(init_clocks(), &mut space, 1000, true);
    assert!(sequencer.is_finished());
    let onto_pll_sys = [
        Access::Store { addr: CLK_SYS_CTRL + CLEAR, value: 0xe0 },
        Access::Store { addr: CLK_SYS_CTRL + SET, value: 0x1 },
        Access::Store { addr: CLK_PERI_CTRL + SET, value: 0x800 },
    ];
    let onto_pll_usb = [
        Access::Store { addr: CLK_USB_CTRL, value: 0 },
        Access::Store { addr: CLK_USB_CTRL + SET, value: 0x800 },
        Access::Store { addr: CLK_ADC_CTRL, value: 0 },
        Access::Store { addr: CLK_ADC_CTRL + SET, value: 0x800 },
    ];
    for access in onto_pll_sys {
        let at = position_of(&log, access);
        assert_eq!(log[at].resets & (1 << 12), 0, "{:?}", access);
    }
    for access in onto_pll_usb {
        let at = position_of(&log, access);
        assert_eq!(log[at].resets & (1 << 13), 0, "{:?}", access);
    }
    // The lines were asserted at the start, and each was pulsed once.
    assert_eq!(log[0].resets & (3 << 12), 3 << 12);
    position_of(&log, Access::Store { addr: RESETS + SET, value: 1 << 12 });
    position_of(&log, Access::Store { addr: RESETS + SET, value: 1 << 13 });
}

#[test]
fn plls_are_reset_while_the_system_clock_is_parked() {
    let mut space = after_reset();
    // Start from a system clock that runs from its auxiliary source.
    space.poke(CLK_SYS_CTRL, 0x1);
    let (sequencer, log) = run(init_clocks(), &mut space, 1000, true);
    assert!(sequencer.is_finished());
    let parked = position_of(&log, Access::Store { addr: CLK_SYS_CTRL + CLEAR, value: 0x1 });
    let confirmed = (0..log.len())
        .find(|&i| log[i].access == Access::Load { addr: CLK_SYS_SELECTED })
        .unwrap();
    let aux_source = position_of(&log, Access::Store { addr: CLK_SYS_CTRL + CLEAR, value: 0xe0 });
    let unparked = position_of(&log, Access::Store { addr: CLK_SYS_CTRL + SET, value: 0x1 });
    assert!(parked < confirmed);
    for line in [12, 13] {
        let reset = position_of(&log, Access::Store { addr: RESETS + SET, value: 1 << line });
        assert!(confirmed < reset);
        assert!(reset < unparked);
    }
    assert!(confirmed < aux_source);
    assert!(aux_source < unparked);
}

#[test]
fn peripheral_clock_is_disabled_read_enabled() {
    let mut space = after_reset();
    let (sequencer, log) = run(init_clocks(), &mut space, 1000, true);
    assert!(sequencer.is_finished());
    let disable = position_of(&log, Access::Store { addr: CLK_PERI_CTRL, value: 0 });
    let trace: Vec<Access> = log[disable..disable + 3].iter().map(|entry| entry.access).collect();
    assert_eq!(
        trace,
        vec![
            Access::Store { addr: CLK_PERI_CTRL, value: 0 },
            Access::Load { addr: CLK_GPOUT0_CTRL },
            Access::Store { addr: CLK_PERI_CTRL + SET, value: 0x800 },
        ]
    );
    // Nothing else in the whole run reaches the control word.
    let reaching: Vec<usize> =
        (0..log.len()).filter(|&i| reaches(&log[i], CLK_PERI_CTRL)).collect();
    assert_eq!(reaching, vec![disable, disable + 2]);
    // Enabled, on auxiliary source 0.
    assert_eq!(space.peek(CLK_PERI_CTRL), 0x800);
}

#[test]
fn usb_and_adc_clocks_are_disabled_read_enabled() {
    let mut space = after_reset();
    space.poke(CLK_USB_CTRL, 0x8e0);
    space.poke(CLK_ADC_CTRL, 0x8e0);
    let (sequencer, log) = run(init_clocks(), &mut space, 1000, true);
    assert!(sequencer.is_finished());
    for ctrl in [CLK_USB_CTRL, CLK_ADC_CTRL] {
        let disable = position_of(&log, Access::Store { addr: ctrl, value: 0 });
        assert_eq!(log[disable + 1].access, Access::Load { addr: CLK_GPOUT0_CTRL });
        assert_eq!(log[disable + 2].access, Access::Store { addr: ctrl + SET, value: 0x800 });
        let reaching: Vec<usize> = (0..log.len()).filter(|&i| reaches(&log[i], ctrl)).collect();
        assert_eq!(reaching, vec![disable, disable + 2]);
        assert_eq!(space.peek(ctrl), 0x800);
    }
}

#[test]
fn watchdog_ticks_once_in_twelve_cycles() {
    let mut space = after_reset();
    let (sequencer, log) = run(init_clocks(), &mut space, 1000, true);
    assert!(sequencer.is_finished());
    position_of(&log, Access::Store { addr: WATCHDOG_TICK, value: 12 | 1 << 9 });
    assert_eq!(space.peek(WATCHDOG_TICK) & 0x1ff, 12);
    assert_eq!(space.peek(WATCHDOG_TICK) & 0x200, 0x200);
    assert_eq!(space.peek(WATCHDOG_TICK), 0x20c);
}

#[test]
fn timer_does_not_pause_for_the_debugger() {
    let mut space = after_reset();
    space.poke(TIMER_DBGPAUSE, 0x7);
    let (sequencer, log) = run(init_clocks(), &mut space, 1000, true);
    assert!(sequencer.is_finished());
    assert_eq!(log[37].access, Access::Store { addr: TIMER_DBGPAUSE, value: 0 });
    assert_eq!(space.peek(TIMER_DBGPAUSE), 0);
}

#[test]
fn clocks_end_up_on_their_sources() {
    let mut space = after_reset();
    space.poke(CLK_SYS_CTRL, 0x61);
    let (sequencer, _) = run(init_clocks(), &mut space, 1000, true);
    assert!(sequencer.is_finished());
    assert_eq!(space.peek(XOSC_CTRL), 0x00fa_baa0);
    assert_eq!(space.peek(CLK_REF_CTRL), 0x2);
    assert_eq!(space.peek(CLK_REF_SELECTED), 0x4);
    assert_eq!(space.peek(CLK_REF_DIV), 0x100);
    assert_eq!(space.peek(CLK_SYS_CTRL), 0x01);
    assert_eq!(space.peek(CLK_SYS_SELECTED), 0x2);
    assert_eq!(space.peek(CLK_SYS_DIV), 0x100);
    assert_eq!(space.peek(RESETS), 0x01ff_cfff);
}

#[test]
fn bring_up_goes_through_each_step_once() {
    let mut space = after_reset();
    let (mut sequencer, log) = run(init_clocks(), &mut space, 1000, true);
    assert!(sequencer.is_finished());
    position_of(&log, Access::Store { addr: XOSC_CTRL, value: 0x00fa_baa0 });
    for (i, earlier) in log.iter().enumerate() {
        if let Access::Store { .. } = earlier.access {
            for later in &log[i + 1..] {
                assert_ne!(earlier.access, later.access);
            }
        }
    }
    // A finished program performs nothing more, whatever time it is given.
    let before = space.peek(RESETS);
    assert_eq!(simulate(&mut sequencer, &mut space, 1000), Vec::new());
    assert!(sequencer.is_finished());
    assert_eq!(space.peek(RESETS), before);
}

#[test]
fn simulate_with_no_rounds_does_nothing() {
    let mut space = after_reset();
    let mut sequencer = Sequencer::new(init_clocks());
    assert_eq!(simulate(&mut sequencer, &mut space, 0), Vec::new());
    assert_eq!(sequencer.position(), 0);
    assert_eq!(space.peek(XOSC_CTRL), 0);
}
