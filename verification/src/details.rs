//! The detailed-status snapshot: a 24-bit word read from three sequential
//! registers, packed into seven sub-fields with reserved padding bits at
//! offsets 0, 3, 4, 7 and 23.
//!
//! Every sub-field decoder is total: codes the datasheet leaves unassigned
//! decode to an explicit reserved variant, never to an error, because the
//! hardware may legally report them transiently.

use vstd::prelude::*;

verus! {

/// Remote-sense line status (2 bits at offset 1).
#[derive(Debug, Copy, Clone, PartialEq, Eq, Structural, PartialOrd, Ord, Hash)]
pub enum BatterySense {
    /// Both remote sense lines are connected.
    Connected,
    /// The positive remote sense line is detected as opened.
    PositiveOpen,
    /// The negative remote sense line is detected as opened.
    NegativeOpen,
    /// Both remote sense lines are detected as opened.
    BothOpen,
}

/// CHGIN input status (2 bits at offset 5).
#[derive(Debug, Copy, Clone, PartialEq, Eq, Structural, PartialOrd, Ord, Hash)]
pub enum ChgIn {
    /// The input is invalid: below the undervoltage lockout threshold.
    Undervoltage,
    /// The input is invalid: above lockout but below the battery.
    BelowBatt,
    /// The input is invalid: above the overvoltage lockout threshold.
    Overvoltage,
    /// The input is valid.
    Valid,
}

/// Junction-temperature regulation status (1 bit at offset 15).
#[derive(Debug, Copy, Clone, PartialEq, Eq, Structural, PartialOrd, Ord, Hash)]
pub enum TemperatureRegulation {
    /// The junction temperature is below the regulation threshold; the full
    /// charge current limit is available.
    BelowThreshold,
    /// The junction temperature is above the regulation threshold; the
    /// charge current limit may be folding back.
    AboveThreshold,
}

/// Battery status (3 bits at offset 12).
#[derive(Debug, Copy, Clone, PartialEq, Eq, Structural, PartialOrd, Ord, Hash)]
pub enum BatteryDetails {
    /// A valid adapter is present and the battery is detached.
    BatteryRemoved,
    /// The battery voltage is below the trickle-charge threshold.
    PrequalificationVoltage,
    /// The battery took longer than expected to charge; charging suspended.
    TimerFault,
    /// The battery voltage is in its regular operating range.
    RegularVoltage,
    /// The battery voltage is below the minimum system regulation level.
    LowVoltage,
    /// The battery voltage is above the overvoltage threshold.
    Overvoltage,
    /// A code the datasheet leaves unassigned.
    Reserved,
    /// No valid adapter is present; only the battery powers the system.
    BatteryOnly,
}

/// Charger status (4 bits at offset 8).
#[derive(Debug, Copy, Clone, PartialEq, Eq, Structural, PartialOrd, Ord, Hash)]
pub enum ChargerDetails {
    /// Dead-battery or low-battery prequalification mode.
    Prequalification,
    /// Fast-charge constant current mode.
    ConstantCurrent,
    /// Fast-charge constant voltage mode.
    ConstantVoltage,
    /// Top-off mode.
    TopOff,
    /// Done mode.
    Done,
    /// The unassigned code 0x05.
    Reserved05,
    /// Timer-fault mode.
    TimerFault,
    /// Suspended because QBATT is disabled.
    QBattDisabled,
    /// Off: the input is invalid or the charger is disabled.
    Off,
    /// The unassigned code 0x09.
    Reserved09,
    /// Off because the junction temperature exceeds the shutdown threshold.
    HighTemperature,
    /// Off because the watchdog timer expired.
    WatchdogTimer,
    /// Suspended or reduced by JEITA control.
    Jeita,
    /// Suspended because battery removal is detected on the thermistor pin.
    ThermistorRemoval,
    /// Suspended because the suspend pin is high.
    SuspendPin,
    /// The unassigned code 0x0f.
    Reserved0F,
}

/// Thermistor status (3 bits at offset 20).
#[derive(Debug, Copy, Clone, PartialEq, Eq, Structural, PartialOrd, Ord, Hash)]
pub enum ThermistorDetails {
    /// Low temperature; charging suspended.
    Cold,
    /// Low temperature; charging at reduced parameters.
    Cool,
    /// Normal temperature charging.
    Normal,
    /// High temperature; charging at reduced parameters.
    Warm,
    /// High temperature; charging suspended.
    Hot,
    /// Battery removal detected on the thermistor pin.
    Removed,
    /// Thermistor monitoring is disabled.
    Disabled,
    /// A code the datasheet leaves unassigned.
    Reserved,
}

/// Bypass node status flags (4 bits at offset 16).
#[derive(Debug, Copy, Clone, PartialEq, Eq, Structural, PartialOrd, Ord, Hash)]
pub struct BypassNodeDetails {
    /// The OTG current limit is active (bit 0).
    pub otg_current_limit: bool,
    /// The boost current limit is active (bit 1).
    pub boost_current_limit: bool,
    /// The buck current limit is active (bit 2).
    pub buck_current_limit: bool,
    /// The boost converter is on (bit 3).
    pub boost_on: bool,
}

/// The full detailed-status snapshot of the charger.
#[derive(Debug, Copy, Clone, PartialEq, Eq, Structural, PartialOrd, Ord, Hash)]
pub struct Details {
    /// Remote-sense line status.
    pub sense: BatterySense,
    /// CHGIN input status.
    pub chgin: ChgIn,
    /// Charger status.
    pub charger: ChargerDetails,
    /// Battery status.
    pub battery: BatteryDetails,
    /// Junction-temperature regulation status.
    pub temp: TemperatureRegulation,
    /// Bypass node status flags.
    pub bypass: BypassNodeDetails,
    /// Thermistor status.
    pub thermistor: ThermistorDetails,
}

/// The sense status a 2-bit code denotes.
pub open spec fn spec_battery_sense_from_code(c: u8) -> BatterySense {
    if c == 0 {
        BatterySense::Connected
    } else if c == 1 {
        BatterySense::PositiveOpen
    } else if c == 2 {
        BatterySense::NegativeOpen
    } else {
        BatterySense::BothOpen
    }
}

/// The CHGIN status a 2-bit code denotes.
pub open spec fn spec_chg_in_from_code(c: u8) -> ChgIn {
    if c == 0 {
        ChgIn::Undervoltage
    } else if c == 1 {
        ChgIn::BelowBatt
    } else if c == 2 {
        ChgIn::Overvoltage
    } else {
        ChgIn::Valid
    }
}

/// The temperature-regulation status a 1-bit code denotes.
pub open spec fn spec_temperature_regulation_from_code(c: u8) -> TemperatureRegulation {
    if c == 0 {
        TemperatureRegulation::BelowThreshold
    } else {
        TemperatureRegulation::AboveThreshold
    }
}

/// The battery status a 3-bit code denotes.
pub open spec fn spec_battery_details_from_code(c: u8) -> BatteryDetails {
    if c == 0 {
        BatteryDetails::BatteryRemoved
    } else if c == 1 {
        BatteryDetails::PrequalificationVoltage
    } else if c == 2 {
        BatteryDetails::TimerFault
    } else if c == 3 {
        BatteryDetails::RegularVoltage
    } else if c == 4 {
        BatteryDetails::LowVoltage
    } else if c == 5 {
        BatteryDetails::Overvoltage
    } else if c == 6 {
        BatteryDetails::Reserved
    } else {
        BatteryDetails::BatteryOnly
    }
}

/// The charger status a 4-bit code denotes.
pub open spec fn spec_charger_details_from_code(c: u8) -> ChargerDetails {
    if c == 0 {
        ChargerDetails::Prequalification
    } else if c == 1 {
        ChargerDetails::ConstantCurrent
    } else if c == 2 {
        ChargerDetails::ConstantVoltage
    } else if c == 3 {
        ChargerDetails::TopOff
    } else if c == 4 {
        ChargerDetails::Done
    } else if c == 5 {
        ChargerDetails::Reserved05
    } else if c == 6 {
        ChargerDetails::TimerFault
    } else if c == 7 {
        ChargerDetails::QBattDisabled
    } else if c == 8 {
        ChargerDetails::Off
    } else if c == 9 {
        ChargerDetails::Reserved09
    } else if c == 10 {
        ChargerDetails::HighTemperature
    } else if c == 11 {
        ChargerDetails::WatchdogTimer
    } else if c == 12 {
        ChargerDetails::Jeita
    } else if c == 13 {
        ChargerDetails::ThermistorRemoval
    } else if c == 14 {
        ChargerDetails::SuspendPin
    } else {
        ChargerDetails::Reserved0F
    }
}

/// The thermistor status a 3-bit code denotes.
pub open spec fn spec_thermistor_details_from_code(c: u8) -> ThermistorDetails {
    if c == 0 {
        ThermistorDetails::Cold
    } else if c == 1 {
        ThermistorDetails::Cool
    } else if c == 2 {
        ThermistorDetails::Normal
    } else if c == 3 {
        ThermistorDetails::Warm
    } else if c == 4 {
        ThermistorDetails::Hot
    } else if c == 5 {
        ThermistorDetails::Removed
    } else if c == 6 {
        ThermistorDetails::Disabled
    } else {
        ThermistorDetails::Reserved
    }
}

/// The bypass node flags a 4-bit code denotes.
pub open spec fn spec_bypass_from_code(c: u8) -> BypassNodeDetails {
    BypassNodeDetails {
        otg_current_limit: c & 0x01 != 0,
        boost_current_limit: c & 0x02 != 0,
        buck_current_limit: c & 0x04 != 0,
        boost_on: c & 0x08 != 0,
    }
}

/// The 4-bit code that encodes a bypass node flag set.
pub open spec fn spec_bypass_to_code(b: BypassNodeDetails) -> u8 {
    (if b.otg_current_limit { 0x01u8 } else { 0u8 })
    | (if b.boost_current_limit { 0x02u8 } else { 0u8 })
    | (if b.buck_current_limit { 0x04u8 } else { 0u8 })
    | (if b.boost_on { 0x08u8 } else { 0u8 })
}

/// The snapshot three raw register bytes denote, with `b0` the byte at the
/// lowest address. Reserved bits are ignored.
pub open spec fn spec_details_from_bytes(b0: u8, b1: u8, b2: u8) -> Details {
    Details {
        sense: spec_battery_sense_from_code((b0 >> 1) & 0x03),
        chgin: spec_chg_in_from_code((b0 >> 5) & 0x03),
        charger: spec_charger_details_from_code(b1 & 0x0f),
        battery: spec_battery_details_from_code((b1 >> 4) & 0x07),
        temp: spec_temperature_regulation_from_code((b1 >> 7) & 0x01),
        bypass: spec_bypass_from_code(b2 & 0x0f),
        thermistor: spec_thermistor_details_from_code((b2 >> 4) & 0x07),
    }
}

impl BatterySense {
    /// Decode a 2-bit code into a sense status; total.
    pub fn from_code(c: u8) -> (r: Self)
        ensures
            r == spec_battery_sense_from_code(c),
    {
        if c == 0 {
            BatterySense::Connected
        } else if c == 1 {
            BatterySense::PositiveOpen
        } else if c == 2 {
            BatterySense::NegativeOpen
        } else {
            BatterySense::BothOpen
        }
    }
}

impl ChgIn {
    /// Decode a 2-bit code into a CHGIN status; total.
    pub fn from_code(c: u8) -> (r: Self)
        ensures
            r == spec_chg_in_from_code(c),
    {
        if c == 0 {
            ChgIn::Undervoltage
        } else if c == 1 {
            ChgIn::BelowBatt
        } else if c == 2 {
            ChgIn::Overvoltage
        } else {
            ChgIn::Valid
        }
    }
}

impl TemperatureRegulation {
    /// Decode a 1-bit code into a temperature-regulation status; total.
    pub fn from_code(c: u8) -> (r: Self)
        ensures
            r == spec_temperature_regulation_from_code(c),
    {
        if c == 0 {
            TemperatureRegulation::BelowThreshold
        } else {
            TemperatureRegulation::AboveThreshold
        }
    }
}

impl BatteryDetails {
    /// Decode a 3-bit code into a battery status; total, with unassigned
    /// codes decoding to [`BatteryDetails::Reserved`].
    pub fn from_code(c: u8) -> (r: Self)
        ensures
            r == spec_battery_details_from_code(c),
    {
        if c == 0 {
            BatteryDetails::BatteryRemoved
        } else if c == 1 {
            BatteryDetails::PrequalificationVoltage
        } else if c == 2 {
            BatteryDetails::TimerFault
        } else if c == 3 {
            BatteryDetails::RegularVoltage
        } else if c == 4 {
            BatteryDetails::LowVoltage
        } else if c == 5 {
            BatteryDetails::Overvoltage
        } else if c == 6 {
            BatteryDetails::Reserved
        } else {
            BatteryDetails::BatteryOnly
        }
    }
}

impl ChargerDetails {
    /// Decode a 4-bit code into a charger status; total, with unassigned
    /// codes decoding to their reserved variants.
    pub fn from_code(c: u8) -> (r: Self)
        ensures
            r == spec_charger_details_from_code(c),
    {
        if c == 0 {
            ChargerDetails::Prequalification
        } else if c == 1 {
            ChargerDetails::ConstantCurrent
        } else if c == 2 {
            ChargerDetails::ConstantVoltage
        } else if c == 3 {
            ChargerDetails::TopOff
        } else if c == 4 {
            ChargerDetails::Done
        } else if c == 5 {
            ChargerDetails::Reserved05
        } else if c == 6 {
            ChargerDetails::TimerFault
        } else if c == 7 {
            ChargerDetails::QBattDisabled
        } else if c == 8 {
            ChargerDetails::Off
        } else if c == 9 {
            ChargerDetails::Reserved09
        } else if c == 10 {
            ChargerDetails::HighTemperature
        } else if c == 11 {
            ChargerDetails::WatchdogTimer
        } else if c == 12 {
            ChargerDetails::Jeita
        } else if c == 13 {
            ChargerDetails::ThermistorRemoval
        } else if c == 14 {
            ChargerDetails::SuspendPin
        } else {
            ChargerDetails::Reserved0F
        }
    }
}

impl ThermistorDetails {
    /// Decode a 3-bit code into a thermistor status; total, with unassigned
    /// codes decoding to [`ThermistorDetails::Reserved`].
    pub fn from_code(c: u8) -> (r: Self)
        ensures
            r == spec_thermistor_details_from_code(c),
    {
        if c == 0 {
            ThermistorDetails::Cold
        } else if c == 1 {
            ThermistorDetails::Cool
        } else if c == 2 {
            ThermistorDetails::Normal
        } else if c == 3 {
            ThermistorDetails::Warm
        } else if c == 4 {
            ThermistorDetails::Hot
        } else if c == 5 {
            ThermistorDetails::Removed
        } else if c == 6 {
            ThermistorDetails::Disabled
        } else {
            ThermistorDetails::Reserved
        }
    }
}

impl BypassNodeDetails {
    /// Decode a 4-bit code into the bypass node flags.
    pub fn from_code(c: u8) -> (r: Self)
        ensures
            r == spec_bypass_from_code(c),
    {
        BypassNodeDetails {
            otg_current_limit: c & 0x01 != 0,
            boost_current_limit: c & 0x02 != 0,
            buck_current_limit: c & 0x04 != 0,
            boost_on: c & 0x08 != 0,
        }
    }

    /// Encode the bypass node flags as their 4-bit code.
    pub fn to_code(self) -> (r: u8)
        ensures
            r == spec_bypass_to_code(self),
    {
        (if self.otg_current_limit { 0x01u8 } else { 0u8 })
        | (if self.boost_current_limit { 0x02u8 } else { 0u8 })
        | (if self.buck_current_limit { 0x04u8 } else { 0u8 })
        | (if self.boost_on { 0x08u8 } else { 0u8 })
    }
}

impl Details {
    /// Decode a three-byte register image, lowest address first; total.
    pub fn from_bytes(bytes: [u8; 3]) -> (r: Self)
        ensures
            r == spec_details_from_bytes(bytes[0], bytes[1], bytes[2]),
    {
        let b0 = bytes[0];
        let b1 = bytes[1];
        let b2 = bytes[2];
        Details {
            sense: BatterySense::from_code((b0 >> 1) & 0x03),
            chgin: ChgIn::from_code((b0 >> 5) & 0x03),
            charger: ChargerDetails::from_code(b1 & 0x0f),
            battery: BatteryDetails::from_code((b1 >> 4) & 0x07),
            temp: TemperatureRegulation::from_code((b1 >> 7) & 0x01),
            bypass: BypassNodeDetails::from_code(b2 & 0x0f),
            thermistor: ThermistorDetails::from_code((b2 >> 4) & 0x07),
        }
    }
}

/// Law: decoding a re-encoded bypass node flag set gives the flag set back,
/// for every combination of flags.
pub proof fn lemma_bypass_round_trip(b: BypassNodeDetails)
    ensures
        spec_bypass_from_code(spec_bypass_to_code(b)) == b,
{
    let c0: u8 = if b.otg_current_limit { 0x01 } else { 0 };
    let c1: u8 = if b.boost_current_limit { 0x02 } else { 0 };
    let c2: u8 = if b.buck_current_limit { 0x04 } else { 0 };
    let c3: u8 = if b.boost_on { 0x08 } else { 0 };
    let c: u8 = c0 | c1 | c2 | c3;
    assert({
        &&& (c & 0x01 != 0) == (c0 != 0)
        &&& (c & 0x02 != 0) == (c1 != 0)
        &&& (c & 0x04 != 0) == (c2 != 0)
        &&& (c & 0x08 != 0) == (c3 != 0)
    }) by (bit_vector)
        requires
            c == c0 | c1 | c2 | c3,
            c0 == 0 || c0 == 0x01,
            c1 == 0 || c1 == 0x02,
            c2 == 0 || c2 == 0x04,
            c3 == 0 || c3 == 0x08,
    ;
}

/// Law: encoding the flags a 4-bit code decodes to gives the code back, for
/// every code within the field's width.
pub proof fn lemma_bypass_code_round_trip(c: u8)
    requires
        c < 0x10,
    ensures
        spec_bypass_to_code(spec_bypass_from_code(c)) == c,
{
    assert({
        &&& c & 0x01 == 0 || c & 0x01 == 0x01
        &&& c & 0x02 == 0 || c & 0x02 == 0x02
        &&& c & 0x04 == 0 || c & 0x04 == 0x04
        &&& c & 0x08 == 0 || c & 0x08 == 0x08
    }) by (bit_vector);
    let c0: u8 = if c & 0x01 != 0 { 0x01 } else { 0 };
    let c1: u8 = if c & 0x02 != 0 { 0x02 } else { 0 };
    let c2: u8 = if c & 0x04 != 0 { 0x04 } else { 0 };
    let c3: u8 = if c & 0x08 != 0 { 0x08 } else { 0 };
    assert(c0 | c1 | c2 | c3 == c) by (bit_vector)
        requires
            c < 0x10,
            c0 == c & 0x01,
            c1 == c & 0x02,
            c2 == c & 0x04,
            c3 == c & 0x08,
    ;
}

} // verus!
