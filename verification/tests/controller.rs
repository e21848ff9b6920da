//! Tests for the charger controller's bus protocols, driven against the
//! scripted bus: quantization of physical values, the write-protect
//! bracketing, the read-modify-write, and the atomic status reads.

use max77976::charger::Charger;
use max77976::details::BatteryDetails;
use max77976::details::BatterySense;
use max77976::details::ChargerDetails;
use max77976::details::ChgIn;
use max77976::details::TemperatureRegulation;
use max77976::details::ThermistorDetails;
use max77976::interrupts::ChargerInterrupts;
use max77976::mode::Mode;
use max77976::scripted::ScriptError;
use max77976::scripted::ScriptStep;
use max77976::scripted::ScriptedBus;

/// A charger over a bus that answers every transaction successfully, with
/// reads answering all zeroes.
fn charger() -> Charger<ScriptedBus> {
    Charger::new(ScriptedBus::new(Vec::new()))
}

/// A charger over a bus that plays the given script.
fn charger_with(script: Vec<ScriptStep>) -> Charger<ScriptedBus> {
    Charger::new(ScriptedBus::new(script))
}

#[test]
fn set_mode_writes_the_mode_code_unprotected() {
    for m in [Mode::Off, Mode::Buck, Mode::Charge, Mode::Boost, Mode::Otg] {
        let mut ch = charger();
        assert!(ch.set_mode(m).is_ok());
        assert_eq!(ch.bus.record.len(), 1);
        assert_eq!(ch.bus.record[0].addr, 0x6b);
        assert_eq!(ch.bus.record[0].written, vec![0x16, m.code()]);
        assert!(ch.bus.record[0].read.is_empty());
        assert!(ch.bus.record[0].fault.is_none());
    }
}

#[test]
fn enter_ship_mode_writes_the_enter_byte() {
    let mut ch = charger();
    assert!(ch.enter_ship_mode().is_ok());
    assert_eq!(ch.bus.record.len(), 1);
    assert_eq!(ch.bus.record[0].written, vec![0x51, 0x01]);
}

#[test]
fn set_sys_ilim_brackets_the_write_with_unlock_and_lock() {
    let mut ch = charger();
    assert!(ch.set_sys_ilim(10000, false).is_ok());
    assert_eq!(ch.bus.record.len(), 3);
    assert_eq!(ch.bus.record[0].written, vec![0x1c, 0x0c]);
    assert_eq!(ch.bus.record[1].written, vec![0x1b, 0x0f]);
    assert_eq!(ch.bus.record[2].written, vec![0x1c, 0x00]);
}

#[test]
fn set_sys_ilim_quantizes_and_sets_the_recycle_bit() {
    // 3000 mA: 3000 / 500 - 5 = 1; the recycle bit 0x10 is or-ed in.
    let mut ch = charger();
    assert!(ch.set_sys_ilim(3000, true).is_ok());
    assert_eq!(ch.bus.record[1].written, vec![0x1b, 0x11]);

    // Below the offset the code clamps to zero.
    let mut ch = charger();
    assert!(ch.set_sys_ilim(2499, false).is_ok());
    assert_eq!(ch.bus.record[1].written, vec![0x1b, 0x00]);

    // The recycle bit is set even when the code is zero.
    let mut ch = charger();
    assert!(ch.set_sys_ilim(0, true).is_ok());
    assert_eq!(ch.bus.record[1].written, vec![0x1b, 0x10]);

    // Far past the top of the range the code saturates at 15.
    let mut ch = charger();
    assert!(ch.set_sys_ilim(65535, false).is_ok());
    assert_eq!(ch.bus.record[1].written, vec![0x1b, 0x0f]);
}

#[test]
fn set_fast_charge_current_quantizes_and_saturates() {
    // 1000 mA: 1000 / 50 = 20.
    let mut ch = charger();
    assert!(ch.set_fast_charge_current(1000).is_ok());
    assert_eq!(ch.bus.record.len(), 3);
    assert_eq!(ch.bus.record[0].written, vec![0x1c, 0x0c]);
    assert_eq!(ch.bus.record[1].written, vec![0x18, 0x14]);
    assert_eq!(ch.bus.record[2].written, vec![0x1c, 0x00]);

    // At 6400 mA and above the code saturates at 127.
    let mut ch = charger();
    assert!(ch.set_fast_charge_current(6400).is_ok());
    assert_eq!(ch.bus.record[1].written, vec![0x18, 0x7f]);

    let mut ch = charger();
    assert!(ch.set_fast_charge_current(65535).is_ok());
    assert_eq!(ch.bus.record[1].written, vec![0x18, 0x7f]);
}

#[test]
fn set_chgin_ilim_preserves_the_top_two_register_bits() {
    // The register reads back 0xab; its top two bits 0x80 must survive the
    // read-modify-write. 500 mA: 500 / 50 - 1 = 9.
    let mut ch = charger_with(vec![ScriptStep::succeed(vec![0xab])]);
    assert!(ch.set_chgin_ilim(500).is_ok());
    assert_eq!(ch.bus.record.len(), 2);
    assert_eq!(ch.bus.record[0].written, vec![0x1f]);
    assert_eq!(ch.bus.record[0].read, vec![0xab]);
    assert_eq!(ch.bus.record[1].written, vec![0x1f, 0x89]);
    assert_eq!(ch.bus.record[1].written[1] & 0xc0, 0xab & 0xc0);

    // The same request over a register reading 0x00 keeps the top bits
    // clear.
    let mut ch = charger_with(vec![ScriptStep::succeed(vec![0x00])]);
    assert!(ch.set_chgin_ilim(500).is_ok());
    assert_eq!(ch.bus.record[1].written, vec![0x1f, 0x09]);

    // Far past the top of the range the code saturates at 63.
    let mut ch = charger_with(vec![ScriptStep::succeed(vec![0xc0])]);
    assert!(ch.set_chgin_ilim(65535).is_ok());
    assert_eq!(ch.bus.record[1].written, vec![0x1f, 0xff]);
}

#[test]
fn set_charger_irq_mask_writes_the_complement() {
    // chgin (0x40) and battery (0x08) enabled: the encoded byte is 0x48 and
    // the mask register takes its complement, 0xb7.
    let irqs = ChargerInterrupts {
        bypass_node: false,
        disqbat: false,
        reserved: false,
        battery: true,
        charger: false,
        input_current_limit: false,
        chgin: true,
        adaptive_input_current_loop: false,
    };
    let mut ch = charger();
    assert!(ch.set_charger_irq_mask(irqs).is_ok());
    assert_eq!(ch.bus.record.len(), 1);
    assert_eq!(ch.bus.record[0].written, vec![0x11, 0xb7]);

    // Nothing enabled: every mask bit is written high.
    let mut ch = charger();
    assert!(ch.set_charger_irq_mask(ChargerInterrupts::default()).is_ok());
    assert_eq!(ch.bus.record[0].written, vec![0x11, 0xff]);
}

#[test]
fn charger_irq_flags_reads_one_byte_from_the_interrupt_register() {
    let mut ch = charger_with(vec![ScriptStep::succeed(vec![0x41])]);
    let flags = ch.charger_irq_flags().unwrap();
    assert!(flags.bypass_node);
    assert!(flags.chgin);
    assert!(!flags.battery);
    assert_eq!(ch.bus.record.len(), 1);
    assert_eq!(ch.bus.record[0].written, vec![0x10]);
    assert_eq!(ch.bus.record[0].read, vec![0x41]);
}

#[test]
fn charger_status_decodes_only_the_third_byte() {
    // One three-byte transaction starting at the interrupt register; the
    // status byte 0b1001_0000 sets bits 4 and 7: charger and adaptive input
    // current loop.
    let mut ch = charger_with(vec![ScriptStep::succeed(vec![0x00, 0x00, 0b1001_0000])]);
    let flags = ch.charger_status().unwrap();
    assert!(flags.charger);
    assert!(flags.adaptive_input_current_loop);
    assert!(!flags.bypass_node);
    assert!(!flags.disqbat);
    assert!(!flags.battery);
    assert!(!flags.input_current_limit);
    assert!(!flags.chgin);
    assert_eq!(ch.bus.record.len(), 1);
    assert_eq!(ch.bus.record[0].written, vec![0x10]);
    assert_eq!(ch.bus.record[0].read.len(), 3);

    // The same flags in the first byte instead of the third decode to
    // nothing.
    let mut ch = charger_with(vec![ScriptStep::succeed(vec![0b1001_0000, 0x00, 0x00])]);
    let flags = ch.charger_status().unwrap();
    assert_eq!(flags, ChargerInterrupts::default());
}

#[test]
fn charger_details_reads_three_bytes_and_decodes_them() {
    let mut ch = charger_with(vec![ScriptStep::succeed(vec![0x00, 0x00, 0x00])]);
    let d = ch.charger_details().unwrap();
    assert_eq!(d.sense, BatterySense::Connected);
    assert_eq!(d.chgin, ChgIn::Undervoltage);
    assert_eq!(d.charger, ChargerDetails::Prequalification);
    assert_eq!(d.battery, BatteryDetails::BatteryRemoved);
    assert_eq!(d.temp, TemperatureRegulation::BelowThreshold);
    assert!(!d.bypass.otg_current_limit);
    assert!(!d.bypass.boost_current_limit);
    assert!(!d.bypass.buck_current_limit);
    assert!(!d.bypass.boost_on);
    assert_eq!(d.thermistor, ThermistorDetails::Cold);
    assert_eq!(ch.bus.record.len(), 1);
    assert_eq!(ch.bus.record[0].written, vec![0x13]);

    let mut ch = charger_with(vec![ScriptStep::succeed(vec![0x64, 0xc4, 0x68])]);
    let d = ch.charger_details().unwrap();
    assert_eq!(d.sense, BatterySense::NegativeOpen);
    assert_eq!(d.chgin, ChgIn::Valid);
    assert_eq!(d.charger, ChargerDetails::Done);
    assert_eq!(d.battery, BatteryDetails::LowVoltage);
    assert_eq!(d.temp, TemperatureRegulation::AboveThreshold);
    assert!(d.bypass.boost_on);
    assert_eq!(d.thermistor, ThermistorDetails::Disabled);
}

#[test]
fn protected_write_failure_of_the_target_still_locks() {
    // The unlock write succeeds, the target write fails, and the lock write
    // succeeds: the lock write must still be issued, and the error surfaced
    // must be the target write's, not a combined or lock-write error.
    let script = vec![
        ScriptStep::succeed(Vec::new()),
        ScriptStep::fail_step(),
        ScriptStep::succeed(Vec::new()),
    ];
    let mut ch = charger_with(script);
    let r = ch.set_fast_charge_current(1000);
    assert_eq!(r, Err(ScriptError { step: 1 }));
    assert_eq!(ch.bus.record.len(), 3);
    assert_eq!(ch.bus.record[0].written, vec![0x1c, 0x0c]);
    assert!(ch.bus.record[0].fault.is_none());
    assert_eq!(ch.bus.record[1].written, vec![0x18, 0x14]);
    assert_eq!(ch.bus.record[1].fault, Some(ScriptError { step: 1 }));
    assert_eq!(ch.bus.record[2].written, vec![0x1c, 0x00]);
    assert!(ch.bus.record[2].fault.is_none());
}

#[test]
fn protected_write_failure_of_the_unlock_stops_the_sequence() {
    let mut ch = charger_with(vec![ScriptStep::fail_step()]);
    let r = ch.set_sys_ilim(3000, false);
    assert_eq!(r, Err(ScriptError { step: 0 }));
    assert_eq!(ch.bus.record.len(), 1);
    assert_eq!(ch.bus.record[0].written, vec![0x1c, 0x0c]);
    assert_eq!(ch.bus.record[0].fault, Some(ScriptError { step: 0 }));
}

#[test]
fn protected_write_failure_of_the_lock_is_surfaced() {
    // The target write succeeded, so the failure of the closing lock write
    // is the first error encountered and is the one returned.
    let script = vec![
        ScriptStep::succeed(Vec::new()),
        ScriptStep::succeed(Vec::new()),
        ScriptStep::fail_step(),
    ];
    let mut ch = charger_with(script);
    let r = ch.set_fast_charge_current(1000);
    assert_eq!(r, Err(ScriptError { step: 2 }));
    assert_eq!(ch.bus.record.len(), 3);
    assert!(ch.bus.record[1].fault.is_none());
    assert_eq!(ch.bus.record[2].fault, Some(ScriptError { step: 2 }));
}

#[test]
fn read_modify_write_failure_of_the_read_skips_the_write() {
    let mut ch = charger_with(vec![ScriptStep::fail_step()]);
    let r = ch.set_chgin_ilim(500);
    assert_eq!(r, Err(ScriptError { step: 0 }));
    assert_eq!(ch.bus.record.len(), 1);
    assert_eq!(ch.bus.record[0].written, vec![0x1f]);
    assert_eq!(ch.bus.record[0].fault, Some(ScriptError { step: 0 }));
}

#[test]
fn status_reads_surface_transport_errors() {
    let mut ch = charger_with(vec![ScriptStep::fail_step()]);
    assert_eq!(ch.charger_status(), Err(ScriptError { step: 0 }));

    let mut ch = charger_with(vec![ScriptStep::fail_step()]);
    assert_eq!(ch.charger_irq_flags(), Err(ScriptError { step: 0 }));

    let mut ch = charger_with(vec![ScriptStep::fail_step()]);
    assert!(ch.charger_details().is_err());
}
