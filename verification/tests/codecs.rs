//! Tests for the pure bitfield codecs: modes, interrupt flags, and the
//! detailed-status fields.

use max77976::details::BatteryDetails;
use max77976::details::BatterySense;
use max77976::details::BypassNodeDetails;
use max77976::details::ChargerDetails;
use max77976::details::ChgIn;
use max77976::details::Details;
use max77976::details::TemperatureRegulation;
use max77976::details::ThermistorDetails;
use max77976::interrupts::ChargerInterrupts;
use max77976::mode::Mode;
use max77976::regs::Reg;

fn flags(byte: u8) -> ChargerInterrupts {
    ChargerInterrupts::from_bytes([byte])
}

#[test]
fn mode_codes_are_the_datasheet_constants() {
    assert_eq!(Mode::Off.code(), 0x0);
    assert_eq!(Mode::Buck.code(), 0x4);
    assert_eq!(Mode::Charge.code(), 0x5);
    assert_eq!(Mode::Boost.code(), 0x9);
    assert_eq!(Mode::Otg.code(), 0xa);
}

#[test]
fn mode_round_trips_through_its_code() {
    for m in [Mode::Off, Mode::Buck, Mode::Charge, Mode::Boost, Mode::Otg] {
        assert_eq!(Mode::from_code(m.code()), Some(m));
    }
}

#[test]
fn mode_rejects_unassigned_patterns_without_panicking() {
    for c in 0u8..16 {
        let decoded = Mode::from_code(c);
        match c {
            0x0 | 0x4 | 0x5 | 0x9 | 0xa => assert!(decoded.is_some()),
            _ => assert_eq!(decoded, None),
        }
    }
}

#[test]
fn mode_default_is_off() {
    assert_eq!(Mode::default(), Mode::Off);
}

#[test]
fn interrupt_flags_decode_each_bit() {
    assert!(flags(0x01).bypass_node);
    assert!(flags(0x02).disqbat);
    assert!(flags(0x04).reserved);
    assert!(flags(0x08).battery);
    assert!(flags(0x10).charger);
    assert!(flags(0x20).input_current_limit);
    assert!(flags(0x40).chgin);
    assert!(flags(0x80).adaptive_input_current_loop);
    assert_eq!(flags(0x00), ChargerInterrupts::default());
}

#[test]
fn interrupt_flags_carry_the_reserved_bit() {
    // Bit 2 is reserved but not dropped: two bytes differing only in it
    // decode to different values, and each re-encodes to itself.
    assert_ne!(flags(0x04), flags(0x00));
    assert_ne!(flags(0xff), flags(0xfb));
    assert_eq!(flags(0x04).into_bytes()[0], 0x04);
}

#[test]
fn interrupt_flags_round_trip_through_their_byte() {
    for b in 0u16..=255 {
        let b = b as u8;
        let decoded = flags(b);
        // Every byte re-encodes to itself exactly, the reserved bit included.
        assert_eq!(decoded.into_bytes()[0], b);
        assert_eq!(flags(decoded.into_bytes()[0]), decoded);
    }
}

#[test]
fn interrupt_flags_encode_each_field() {
    let f = ChargerInterrupts {
        bypass_node: false,
        disqbat: true,
        reserved: false,
        battery: false,
        charger: true,
        input_current_limit: false,
        chgin: true,
        adaptive_input_current_loop: false,
    };
    assert_eq!(f.into_bytes()[0], 0x52);
    assert_eq!(flags(0x52), f);
}

#[test]
fn bypass_node_round_trips_through_its_code() {
    for c in 0u8..16 {
        let decoded = BypassNodeDetails::from_code(c);
        assert_eq!(decoded.to_code(), c);
        assert_eq!(BypassNodeDetails::from_code(decoded.to_code()), decoded);
    }
    let b = BypassNodeDetails::from_code(0x09);
    assert!(b.otg_current_limit);
    assert!(!b.boost_current_limit);
    assert!(!b.buck_current_limit);
    assert!(b.boost_on);
}

#[test]
fn detail_enums_decode_reserved_codes_without_failing() {
    assert_eq!(ChargerDetails::from_code(0x5), ChargerDetails::Reserved05);
    assert_eq!(ChargerDetails::from_code(0x9), ChargerDetails::Reserved09);
    assert_eq!(ChargerDetails::from_code(0xf), ChargerDetails::Reserved0F);
    assert_eq!(BatteryDetails::from_code(6), BatteryDetails::Reserved);
    assert_eq!(BatteryDetails::from_code(7), BatteryDetails::BatteryOnly);
    assert_eq!(ThermistorDetails::from_code(7), ThermistorDetails::Reserved);
    for c in 0u16..=255 {
        let c = c as u8;
        // Every decoder is total: no code may fail or panic.
        let _ = BatterySense::from_code(c);
        let _ = ChgIn::from_code(c);
        let _ = TemperatureRegulation::from_code(c);
        let _ = BatteryDetails::from_code(c);
        let _ = ChargerDetails::from_code(c);
        let _ = ThermistorDetails::from_code(c);
        let _ = BypassNodeDetails::from_code(c);
    }
}

#[test]
fn details_of_zero_bytes_is_every_zero_variant() {
    let d = Details::from_bytes([0x00, 0x00, 0x00]);
    assert_eq!(d.sense, BatterySense::Connected);
    assert_eq!(d.chgin, ChgIn::Undervoltage);
    assert_eq!(d.charger, ChargerDetails::Prequalification);
    assert_eq!(d.battery, BatteryDetails::BatteryRemoved);
    assert_eq!(d.temp, TemperatureRegulation::BelowThreshold);
    assert!(!d.bypass.otg_current_limit);
    assert!(!d.bypass.boost_current_limit);
    assert!(!d.bypass.buck_current_limit);
    assert!(!d.bypass.boost_on);
    assert_eq!(d.thermistor, ThermistorDetails::Cold);
}

#[test]
fn details_unpacks_each_field_from_its_offset() {
    // Byte 0: sense = 2 at offset 1, chgin = 3 at offset 5.
    // Byte 1: charger = 4 at offset 0, battery = 4 at offset 4, temp = 1 at
    // offset 7.
    // Byte 2: bypass = 8 at offset 0, thermistor = 6 at offset 4.
    let d = Details::from_bytes([0x64, 0xc4, 0x68]);
    assert_eq!(d.sense, BatterySense::NegativeOpen);
    assert_eq!(d.chgin, ChgIn::Valid);
    assert_eq!(d.charger, ChargerDetails::Done);
    assert_eq!(d.battery, BatteryDetails::LowVoltage);
    assert_eq!(d.temp, TemperatureRegulation::AboveThreshold);
    assert!(!d.bypass.otg_current_limit);
    assert!(!d.bypass.boost_current_limit);
    assert!(!d.bypass.buck_current_limit);
    assert!(d.bypass.boost_on);
    assert_eq!(d.thermistor, ThermistorDetails::Disabled);
}

#[test]
fn details_ignores_the_reserved_padding_bits() {
    // Bits 0, 3, 4 and 7 of byte 0 and bit 7 of byte 2 are padding.
    let with_padding = Details::from_bytes([0x99, 0x12, 0xf3]);
    let without_padding = Details::from_bytes([0x00, 0x12, 0x73]);
    assert_eq!(with_padding, without_padding);
}

#[test]
fn reg_wraps_a_raw_address() {
    let r = Reg::new(0x1b);
    assert_eq!(r.to_u8(), 0x1b);
}
