//! The device's register map: a closed set of named 8-bit register addresses,
//! fixed by the datasheet, together with the control constants written to
//! them.

use vstd::prelude::*;

verus! {

/// Chip identification register.
pub const CHIP_ID: u8 = 0x00;
/// Chip revision register.
pub const CHIP_REVISION: u8 = 0x01;
/// One-time-programmable memory revision register.
pub const OTP_REVISION: u8 = 0x02;
/// Top-level interrupt register.
pub const TOP_INTERRUPT: u8 = 0x03;
/// Top-level interrupt mask register.
pub const TOP_INTERRUPT_MASK: u8 = 0x04;
/// Top-level control register.
pub const TOP_CONTROL: u8 = 0x05;
/// Software reset register.
pub const SOFTWARE_RESET: u8 = 0x50;
/// Ship mode control register.
pub const SHIP_MODE_CONTROL: u8 = 0x51;
/// Two-wire bus configuration register.
pub const I2C_CONFIG: u8 = 0x40;

/// Charger interrupt register; reading it clears the latched flags.
pub const CHARGER_INTERRUPT: u8 = 0x10;
/// Charger interrupt mask register; a zero bit enables the interrupt.
pub const CHARGER_INTERRUPT_MASK: u8 = 0x11;
/// Charger status register.
pub const CHARGER_INTERRUPT_STATUS: u8 = 0x12;
/// First detailed-status register.
pub const CHARGER_DETAILS_0: u8 = 0x13;
/// Second detailed-status register.
pub const CHARGER_DETAILS_1: u8 = 0x14;
/// Third detailed-status register.
pub const CHARGER_DETAILS_2: u8 = 0x15;
/// Charger configuration register 0: operating mode.
pub const CHARGER_CONFIG_0: u8 = 0x16;
/// Charger configuration register 1.
pub const CHARGER_CONFIG_1: u8 = 0x17;
/// Charger configuration register 2: fast-charge current.
pub const CHARGER_CONFIG_2: u8 = 0x18;
/// Charger configuration register 3.
pub const CHARGER_CONFIG_3: u8 = 0x19;
/// Charger configuration register 4.
pub const CHARGER_CONFIG_4: u8 = 0x1a;
/// Charger configuration register 5: Vsys current limit.
pub const CHARGER_CONFIG_5: u8 = 0x1b;
/// Charger configuration register 6: write-protect control.
pub const CHARGER_CONFIG_6: u8 = 0x1c;
/// Charger configuration register 7.
pub const CHARGER_CONFIG_7: u8 = 0x1d;
/// Charger configuration register 8.
pub const CHARGER_CONFIG_8: u8 = 0x1e;
/// Charger configuration register 9: CHGIN current limit.
pub const CHARGER_CONFIG_9: u8 = 0x1f;
/// Charger configuration register 10.
pub const CHARGER_CONFIG_10: u8 = 0x20;
/// Charger configuration register 11.
pub const CHARGER_CONFIG_11: u8 = 0x21;
/// Charger configuration register 12.
pub const CHARGER_CONFIG_12: u8 = 0x22;
/// Charger configuration register 13.
pub const CHARGER_CONFIG_13: u8 = 0x23;
/// Status LED configuration register.
pub const STATUS_LED_CONFIG: u8 = 0x24;

/// Byte written to `CHARGER_CONFIG_6` to unlock the protected charger
/// configuration registers.
pub const WRITE_PROTECT_UNLOCK: u8 = 0x0c;
/// Byte written to `CHARGER_CONFIG_6` to lock the protected charger
/// configuration registers again.
pub const WRITE_PROTECT_LOCK: u8 = 0x00;
/// Byte written to `SHIP_MODE_CONTROL` to enter ship mode.
pub const SHIP_MODE_ENTER: u8 = 0x01;

/// The fixed 7-bit bus address of the device.
pub const DEVICE_ADDR: u8 = 0x6b;

/// A raw 8-bit register address.
#[derive(Debug, Copy, Clone, PartialEq, Eq, Structural, PartialOrd, Ord, Hash)]
pub struct Reg(pub u8);

impl Reg {
    /// Wrap a raw 8-bit value as a register address.
    pub fn new(val: u8) -> (r: Self)
        ensures
            r.0 == val,
    {
        Reg(val)
    }

    /// The raw 8-bit value of this register address.
    pub fn to_u8(self) -> (r: u8)
        ensures
            r == self.0,
    {
        self.0
    }
}

} // verus!
