//! The charger interrupt flag set: an 8-bit packed field with seven used
//! bits and one reserved bit (bit 2), carried through decode and re-encode
//! unchanged so that a decoded register byte re-encodes to itself exactly.
//!
//! The same layout serves three registers: the latched interrupt flags, the
//! status bits, and the interrupt mask. In the mask register the hardware
//! polarity is active-low-enable, which the controller accounts for by
//! writing the complement of the encoded byte.

use vstd::prelude::*;

verus! {

/// The charger interrupt flags. In the interrupt and status registers a set
/// field means the condition is pending or active; in the mask register a set
/// field means the interrupt is enabled.
#[derive(Debug, Copy, Clone, PartialEq, Eq, Structural, PartialOrd, Ord, Hash)]
pub struct ChargerInterrupts {
    /// Bypass node condition (bit 0).
    pub bypass_node: bool,
    /// QBATT-disable condition (bit 1).
    pub disqbat: bool,
    /// The reserved bit 2, carried unchanged so that re-encoding a decoded
    /// byte reproduces it exactly.
    pub reserved: bool,
    /// Battery condition (bit 3).
    pub battery: bool,
    /// Charger condition (bit 4).
    pub charger: bool,
    /// Input current limit condition (bit 5).
    pub input_current_limit: bool,
    /// CHGIN condition (bit 6).
    pub chgin: bool,
    /// Adaptive input current loop condition (bit 7).
    pub adaptive_input_current_loop: bool,
}

/// The flags a raw register byte denotes, the reserved bit included.
pub open spec fn spec_interrupts_from_byte(b: u8) -> ChargerInterrupts {
    ChargerInterrupts {
        bypass_node: b & 0x01 != 0,
        disqbat: b & 0x02 != 0,
        reserved: b & 0x04 != 0,
        battery: b & 0x08 != 0,
        charger: b & 0x10 != 0,
        input_current_limit: b & 0x20 != 0,
        chgin: b & 0x40 != 0,
        adaptive_input_current_loop: b & 0x80 != 0,
    }
}

/// The register byte that encodes a flag set, the reserved bit included.
pub open spec fn spec_interrupts_to_byte(f: ChargerInterrupts) -> u8 {
    (if f.bypass_node { 0x01u8 } else { 0u8 })
    | (if f.disqbat { 0x02u8 } else { 0u8 })
    | (if f.reserved { 0x04u8 } else { 0u8 })
    | (if f.battery { 0x08u8 } else { 0u8 })
    | (if f.charger { 0x10u8 } else { 0u8 })
    | (if f.input_current_limit { 0x20u8 } else { 0u8 })
    | (if f.chgin { 0x40u8 } else { 0u8 })
    | (if f.adaptive_input_current_loop { 0x80u8 } else { 0u8 })
}

impl ChargerInterrupts {
    /// Decode a one-byte register image into the flag set.
    pub fn from_bytes(bytes: [u8; 1]) -> (r: Self)
        ensures
            r == spec_interrupts_from_byte(bytes[0]),
    {
        let b = bytes[0];
        ChargerInterrupts {
            bypass_node: b & 0x01 != 0,
            disqbat: b & 0x02 != 0,
            reserved: b & 0x04 != 0,
            battery: b & 0x08 != 0,
            charger: b & 0x10 != 0,
            input_current_limit: b & 0x20 != 0,
            chgin: b & 0x40 != 0,
            adaptive_input_current_loop: b & 0x80 != 0,
        }
    }

    /// Encode the flag set as a one-byte register image.
    pub fn into_bytes(self) -> (r: [u8; 1])
        ensures
            r[0] == spec_interrupts_to_byte(self),
    {
        let b: u8 = (if self.bypass_node { 0x01u8 } else { 0u8 })
            | (if self.disqbat { 0x02u8 } else { 0u8 })
            | (if self.reserved { 0x04u8 } else { 0u8 })
            | (if self.battery { 0x08u8 } else { 0u8 })
            | (if self.charger { 0x10u8 } else { 0u8 })
            | (if self.input_current_limit { 0x20u8 } else { 0u8 })
            | (if self.chgin { 0x40u8 } else { 0u8 })
            | (if self.adaptive_input_current_loop { 0x80u8 } else { 0u8 });
        [b]
    }
}

impl Default for ChargerInterrupts {
    /// The flag set with every flag clear.
    fn default() -> (r: Self)
        ensures
            r == spec_interrupts_from_byte(0),
    {
        proof {
            assert(0u8 & 0x01 == 0 && 0u8 & 0x02 == 0 && 0u8 & 0x04 == 0 && 0u8 & 0x08 == 0
                && 0u8 & 0x10 == 0 && 0u8 & 0x20 == 0 && 0u8 & 0x40 == 0 && 0u8 & 0x80 == 0)
                by (bit_vector);
        }
        ChargerInterrupts {
            bypass_node: false,
            disqbat: false,
            reserved: false,
            battery: false,
            charger: false,
            input_current_limit: false,
            chgin: false,
            adaptive_input_current_loop: false,
        }
    }
}

/// Law: decoding a re-encoded flag set gives the flag set back, for every
/// combination of flags.
pub proof fn lemma_interrupts_round_trip(f: ChargerInterrupts)
    ensures
        spec_interrupts_from_byte(spec_interrupts_to_byte(f)) == f,
{
    let b0: u8 = if f.bypass_node { 0x01 } else { 0 };
    let b1: u8 = if f.disqbat { 0x02 } else { 0 };
    let b2: u8 = if f.reserved { 0x04 } else { 0 };
    let b3: u8 = if f.battery { 0x08 } else { 0 };
    let b4: u8 = if f.charger { 0x10 } else { 0 };
    let b5: u8 = if f.input_current_limit { 0x20 } else { 0 };
    let b6: u8 = if f.chgin { 0x40 } else { 0 };
    let b7: u8 = if f.adaptive_input_current_loop { 0x80 } else { 0 };
    let b: u8 = b0 | b1 | b2 | b3 | b4 | b5 | b6 | b7;
    assert({
        &&& (b & 0x01 != 0) == (b0 != 0)
        &&& (b & 0x02 != 0) == (b1 != 0)
        &&& (b & 0x04 != 0) == (b2 != 0)
        &&& (b & 0x08 != 0) == (b3 != 0)
        &&& (b & 0x10 != 0) == (b4 != 0)
        &&& (b & 0x20 != 0) == (b5 != 0)
        &&& (b & 0x40 != 0) == (b6 != 0)
        &&& (b & 0x80 != 0) == (b7 != 0)
    }) by (bit_vector)
        requires
            b == b0 | b1 | b2 | b3 | b4 | b5 | b6 | b7,
            b0 == 0 || b0 == 0x01,
            b1 == 0 || b1 == 0x02,
            b2 == 0 || b2 == 0x04,
            b3 == 0 || b3 == 0x08,
            b4 == 0 || b4 == 0x10,
            b5 == 0 || b5 == 0x20,
            b6 == 0 || b6 == 0x40,
            b7 == 0 || b7 == 0x80,
    ;
}

/// Law: encoding the flags a byte decodes to gives the byte back exactly,
/// for every byte, the reserved bit included.
pub proof fn lemma_interrupts_byte_round_trip(b: u8)
    ensures
        spec_interrupts_to_byte(spec_interrupts_from_byte(b)) == b,
{
    assert({
        &&& b & 0x01 == 0 || b & 0x01 == 0x01
        &&& b & 0x02 == 0 || b & 0x02 == 0x02
        &&& b & 0x04 == 0 || b & 0x04 == 0x04
        &&& b & 0x08 == 0 || b & 0x08 == 0x08
        &&& b & 0x10 == 0 || b & 0x10 == 0x10
        &&& b & 0x20 == 0 || b & 0x20 == 0x20
        &&& b & 0x40 == 0 || b & 0x40 == 0x40
        &&& b & 0x80 == 0 || b & 0x80 == 0x80
    }) by (bit_vector);
    let b0: u8 = if b & 0x01 != 0 { 0x01 } else { 0 };
    let b1: u8 = if b & 0x02 != 0 { 0x02 } else { 0 };
    let b2: u8 = if b & 0x04 != 0 { 0x04 } else { 0 };
    let b3: u8 = if b & 0x08 != 0 { 0x08 } else { 0 };
    let b4: u8 = if b & 0x10 != 0 { 0x10 } else { 0 };
    let b5: u8 = if b & 0x20 != 0 { 0x20 } else { 0 };
    let b6: u8 = if b & 0x40 != 0 { 0x40 } else { 0 };
    let b7: u8 = if b & 0x80 != 0 { 0x80 } else { 0 };
    assert(b0 | b1 | b2 | b3 | b4 | b5 | b6 | b7 == b) by (bit_vector)
        requires
            b0 == b & 0x01,
            b1 == b & 0x02,
            b2 == b & 0x04,
            b3 == b & 0x08,
            b4 == b & 0x10,
            b5 == b & 0x20,
            b6 == b & 0x40,
            b7 == b & 0x80,
    ;
}

} // verus!
