use rp2040_clocks::control_registers::{
    clear_bits, read_reg, set_bits, write_reg, ALIAS_CLEAR, ALIAS_SET, Access, CLOCKS_BASE,
    IO_BANK0_BASE, PADS_BANK0_BASE, PLL_SYS_BASE, PLL_USB_BASE, RESETS_BASE, SIO_BASE, TIMER_BASE,
    WATCHDOG_BASE, XOSC_BASE,
};

#[test]
fn base_addresses_are_those_of_the_datasheet() {
    assert_eq!(XOSC_BASE, 0x4002_4000);
    assert_eq!(PLL_SYS_BASE, 0x4002_8000);
    assert_eq!(PLL_USB_BASE, 0x4002_c000);
    assert_eq!(CLOCKS_BASE, 0x4000_8000);
    assert_eq!(RESETS_BASE, 0x4000_c000);
    assert_eq!(WATCHDOG_BASE, 0x4005_8000);
    assert_eq!(TIMER_BASE, 0x4005_4000);
    assert_eq!(IO_BANK0_BASE, 0x4001_4000);
    assert_eq!(PADS_BANK0_BASE, 0x4001_c000);
    assert_eq!(SIO_BASE, 0xd000_0000);
}

#[test]
fn alias_windows_are_8k_and_12k_above_the_register() {
    assert_eq!(ALIAS_SET, 0x2000);
    assert_eq!(ALIAS_CLEAR, 0x3000);
}

#[test]
fn read_reg_loads_the_register_itself() {
    assert_eq!(read_reg(0x4000_8044), Access::Load { addr: 0x4000_8044 });
}

#[test]
fn write_reg_stores_at_the_register_itself() {
    assert_eq!(
        write_reg(0x4002_4000, 0x00fa_baa0),
        Access::Store { addr: 0x4002_4000, value: 0x00fa_baa0 }
    );
}

#[test]
fn set_bits_stores_the_mask_in_the_set_window() {
    assert_eq!(
        set_bits(0x4000_c000, 1 << 12),
        Access::Store { addr: 0x4000_e000, value: 0x1000 }
    );
}

#[test]
fn clear_bits_stores_the_mask_in_the_clear_window() {
    assert_eq!(
        clear_bits(0x4000_c000, 1 << 12),
        Access::Store { addr: 0x4000_f000, value: 0x1000 }
    );
}

#[test]
fn set_and_clear_reach_the_last_register_that_has_windows() {
    assert_eq!(
        set_bits(0xffff_dffc, 1),
        Access::Store { addr: 0xffff_fffc, value: 1 }
    );
    assert_eq!(
        clear_bits(0xffff_cffc, 1),
        Access::Store { addr: 0xffff_fffc, value: 1 }
    );
}
