//! The register access layer: the address map of the part, and the four
//! primitive operations on a memory-mapped register, each given as the bus
//! access that carries it out.
//!
//! Nothing here touches memory. A primitive yields an [`Access`]; whoever owns
//! the bus performs it, in the order in which the accesses are handed out.
use vstd::prelude::*;

verus! {

// Base addresses, as the RP2040 datasheet gives them.
pub const ROM_BASE: u32 = 0x0000_0000;
pub const XIP_BASE: u32 = 0x1000_0000;
pub const XIP_MAIN_BASE: u32 = 0x1000_0000;
pub const XIP_NOALLOC_BASE: u32 = 0x1100_0000;
pub const XIP_NOCACHE_BASE: u32 = 0x1200_0000;
pub const XIP_NOCACHE_NOALLOC_BASE: u32 = 0x1300_0000;
pub const XIP_CTRL_BASE: u32 = 0x1400_0000;
pub const XIP_SRAM_BASE: u32 = 0x1500_0000;
pub const XIP_SRAM_END: u32 = 0x1500_4000;
pub const XIP_SSI_BASE: u32 = 0x1800_0000;
pub const SRAM_BASE: u32 = 0x2000_0000;
pub const SRAM_STRIPED_BASE: u32 = 0x2000_0000;
pub const SRAM_STRIPED_END: u32 = 0x2004_0000;
pub const SRAM4_BASE: u32 = 0x2004_0000;
pub const SRAM5_BASE: u32 = 0x2004_1000;
pub const SRAM_END: u32 = 0x2004_2000;
pub const SRAM0_BASE: u32 = 0x2100_0000;
pub const SRAM1_BASE: u32 = 0x2101_0000;
pub const SRAM2_BASE: u32 = 0x2102_0000;
pub const SRAM3_BASE: u32 = 0x2103_0000;
pub const SYSINFO_BASE: u32 = 0x4000_0000;
pub const SYSCFG_BASE: u32 = 0x4000_4000;
pub const CLOCKS_BASE: u32 = 0x4000_8000;
pub const RESETS_BASE: u32 = 0x4000_c000;
pub const PSM_BASE: u32 = 0x4001_0000;
pub const IO_BANK0_BASE: u32 = 0x4001_4000;
pub const IO_QSPI_BASE: u32 = 0x4001_8000;
pub const PADS_BANK0_BASE: u32 = 0x4001_c000;
pub const PADS_QSPI_BASE: u32 = 0x4002_0000;
pub const XOSC_BASE: u32 = 0x4002_4000;
pub const PLL_SYS_BASE: u32 = 0x4002_8000;
pub const PLL_USB_BASE: u32 = 0x4002_c000;
pub const BUSCTRL_BASE: u32 = 0x4003_0000;
pub const UART0_BASE: u32 = 0x4003_4000;
pub const UART1_BASE: u32 = 0x4003_8000;
pub const SPI0_BASE: u32 = 0x4003_c000;
pub const SPI1_BASE: u32 = 0x4004_0000;
pub const I2C0_BASE: u32 = 0x4004_4000;
pub const I2C1_BASE: u32 = 0x4004_8000;
pub const ADC_BASE: u32 = 0x4004_c000;
pub const PWM_BASE: u32 = 0x4005_0000;
pub const TIMER_BASE: u32 = 0x4005_4000;
pub const WATCHDOG_BASE: u32 = 0x4005_8000;
pub const RTC_BASE: u32 = 0x4005_c000;
pub const ROSC_BASE: u32 = 0x4006_0000;
pub const VREG_AND_CHIP_RESET_BASE: u32 = 0x4006_4000;
pub const TBMAN_BASE: u32 = 0x4006_c000;
pub const DMA_BASE: u32 = 0x5000_0000;
pub const USBCTRL_DPRAM_BASE: u32 = 0x5010_0000;
pub const USBCTRL_BASE: u32 = 0x5010_0000;
pub const USBCTRL_REGS_BASE: u32 = 0x5011_0000;
pub const PIO0_BASE: u32 = 0x5020_0000;
pub const PIO1_BASE: u32 = 0x5030_0000;
pub const XIP_AUX_BASE: u32 = 0x5040_0000;
pub const SIO_BASE: u32 = 0xd000_0000;
pub const PPB_BASE: u32 = 0xe000_0000;

// Register offsets within a peripheral.
pub const IC_ENABLE: u32 = 0x6c;
pub const IC_CON: u32 = 0x00;
pub const IC_TAR: u32 = 0x04;
pub const IC_DATA_CMD: u32 = 0x10;
pub const IC_STATUS: u32 = 0x70;
pub const IC_TXFLR: u32 = 0x74;
pub const TIMEHR: u32 = 0x08;
pub const TIMELR: u32 = 0x0c;
pub const RESET_DONE: u32 = 0x08;
pub const SIO_GPIO_OE_SET: u32 = 0x24;
pub const SIO_GPIO_OE_CLR: u32 = 0x28;
pub const SIO_GPIO_OUT: u32 = 0x10;
pub const SIO_GPIO_OUT_SET: u32 = 0x14;
pub const SIO_GPIO_OUT_CLR: u32 = 0x18;
pub const SIO_GPIO_OUT_XOR: u32 = 0x1c;
pub const SIO_GPIO_IN: u32 = 0x04;

// Crystal oscillator.
pub const XOSC_CTRL: u32 = 0x00;
pub const XOSC_STATUS: u32 = 0x04;

// Clock generator.
pub const CLK_GPOUT0_CTRL: u32 = 0x00;
pub const CLK_REF_CTRL: u32 = 0x30;
pub const CLK_REF_DIV: u32 = 0x34;
pub const CLK_REF_SELECTED: u32 = 0x38;
pub const CLK_SYS_CTRL: u32 = 0x3c;
pub const CLK_SYS_DIV: u32 = 0x40;
pub const CLK_SYS_SELECTED: u32 = 0x44;
pub const CLK_PERI_CTRL: u32 = 0x48;
pub const CLK_USB_CTRL: u32 = 0x54;
pub const CLK_ADC_CTRL: u32 = 0x60;

// Either PLL.
pub const PLL_CS: u32 = 0x00;
pub const PLL_PWR: u32 = 0x04;
pub const PLL_FBDIV_INT: u32 = 0x08;
pub const PLL_PRIM: u32 = 0x0c;

// Watchdog and timer.
pub const WATCHDOG_TICK: u32 = 0x2c;
pub const TIMER_DBGPAUSE: u32 = 0x2c;

/// Distance from a register to the window in which a store sets bits of it.
pub const ALIAS_SET: u32 = 0x2000;

/// Distance from a register to the window in which a store clears bits of it.
pub const ALIAS_CLEAR: u32 = 0x3000;

/// The address `offset` bytes into the peripheral at `base`.
pub open spec fn reg(base: u32, offset: u32) -> u32 {
    (base + offset) as u32
}

/// One access on the register bus.
#[derive(Clone, Copy, Debug, PartialEq, Eq, Structural)]
pub enum Access {
    /// Read the 32-bit word at `addr`.
    Load { addr: u32 },
    /// Write the 32-bit word `value` at `addr`.
    Store { addr: u32, value: u32 },
}

/// The access that reads the register at `addr`.
pub open spec fn read_access(addr: u32) -> Access {
    Access::Load { addr }
}

/// The access that replaces the register at `addr` by `value`.
pub open spec fn write_access(addr: u32, value: u32) -> Access {
    Access::Store { addr, value }
}

/// The access that sets, in the register at `addr`, the bits of `mask`:
/// a store of `mask` in the register's set window.
pub open spec fn set_bits_access(addr: u32, mask: u32) -> Access {
    Access::Store { addr: (addr + ALIAS_SET) as u32, value: mask }
}

/// The access that clears, in the register at `addr`, the bits of `mask`:
/// a store of `mask` in the register's clear window.
pub open spec fn clear_bits_access(addr: u32, mask: u32) -> Access {
    Access::Store { addr: (addr + ALIAS_CLEAR) as u32, value: mask }
}

/// Reading the register at `addr`: the load that does it.
pub fn read_reg(addr: u32) -> (access: Access)
    ensures
        access == read_access(addr),
{
    Access::Load { addr }
}

/// Writing `value` to the register at `addr`: the store that does it.
pub fn write_reg(addr: u32, value: u32) -> (access: Access)
    ensures
        access == write_access(addr, value),
{
    Access::Store { addr, value }
}

/// Setting the bits of `mask` in the register at `addr`, in one access
/// and without reading the register: the store that does it, which goes to
/// the register's set window.
pub fn set_bits(addr: u32, mask: u32) -> (access: Access)
    requires
        addr + ALIAS_SET <= u32::MAX,
    ensures
        access == set_bits_access(addr, mask),
{
    Access::Store { addr: addr + ALIAS_SET, value: mask }
}

/// Clearing the bits of `mask` in the register at `addr`, in one access
/// and without reading the register: the store that does it, which goes to
/// the register's clear window.
pub fn clear_bits(addr: u32, mask: u32) -> (access: Access)
    requires
        addr + ALIAS_CLEAR <= u32::MAX,
    ensures
        access == clear_bits_access(addr, mask),
{
    Access::Store { addr: addr + ALIAS_CLEAR, value: mask }
}

} // verus!
