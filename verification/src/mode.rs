//! The charger's operating mode and its 4-bit register code.
//!
//! The five valid codes are not contiguous (0x0, 0x4, 0x5, 0x9, 0xa), so
//! decoding rejects every other 4-bit pattern instead of guessing.

use vstd::prelude::*;

verus! {

/// Charging mode of the power path.
#[derive(Debug, Copy, Clone, PartialEq, Eq, Structural, PartialOrd, Ord, Hash)]
pub enum Mode {
    /// Charger, OTG, buck and boost all off. The QBATT switch is on so the
    /// battery supports the system.
    Off,
    /// Buck converter on; the system voltage is regulated from a valid input.
    Buck,
    /// Charger and buck on; the battery is charging from a valid input.
    Charge,
    /// Boost converter on; the bypass node is regulated from the battery.
    Boost,
    /// Boost converter on with OTG sourcing current out of the input pin.
    Otg,
}

/// The fixed 4-bit register code of each mode.
pub open spec fn spec_mode_code(m: Mode) -> u8 {
    match m {
        Mode::Off => 0x0,
        Mode::Buck => 0x4,
        Mode::Charge => 0x5,
        Mode::Boost => 0x9,
        Mode::Otg => 0xa,
    }
}

/// The mode a 4-bit code denotes, or `None` for the patterns the datasheet
/// leaves unassigned.
pub open spec fn spec_mode_from_code(c: u8) -> Option<Mode> {
    if c == 0x0 {
        Some(Mode::Off)
    } else if c == 0x4 {
        Some(Mode::Buck)
    } else if c == 0x5 {
        Some(Mode::Charge)
    } else if c == 0x9 {
        Some(Mode::Boost)
    } else if c == 0xa {
        Some(Mode::Otg)
    } else {
        None
    }
}

impl Mode {
    /// Encode this mode as its 4-bit register code, zero-extended to a byte.
    pub fn code(self) -> (r: u8)
        ensures
            r == spec_mode_code(self),
    {
        match self {
            Mode::Off => 0x0,
            Mode::Buck => 0x4,
            Mode::Charge => 0x5,
            Mode::Boost => 0x9,
            Mode::Otg => 0xa,
        }
    }

    /// Decode a 4-bit register code; every pattern outside the five assigned
    /// codes yields `None`.
    pub fn from_code(c: u8) -> (r: Option<Mode>)
        ensures
            r == spec_mode_from_code(c),
    {
        if c == 0x0 {
            Some(Mode::Off)
        } else if c == 0x4 {
            Some(Mode::Buck)
        } else if c == 0x5 {
            Some(Mode::Charge)
        } else if c == 0x9 {
            Some(Mode::Boost)
        } else if c == 0xa {
            Some(Mode::Otg)
        } else {
            None
        }
    }
}

impl Default for Mode {
    /// The mode the device resets to.
    fn default() -> (r: Self)
        ensures
            r == Mode::Off,
    {
        Mode::Off
    }
}

/// Law: decoding an encoded mode gives the mode back, for each of the five
/// valid codes.
pub proof fn lemma_mode_round_trip(m: Mode)
    ensures
        spec_mode_from_code(spec_mode_code(m)) == Some(m),
{
}

/// Law: a code that decodes to a mode is that mode's own code, so encoding
/// is the exact inverse of decoding on the assigned codes.
pub proof fn lemma_mode_code_round_trip(c: u8)
    ensures
        spec_mode_from_code(c) matches Some(m) ==> spec_mode_code(m) == c,
{
}

} // verus!
