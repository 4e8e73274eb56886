//! Checks of ADC code reconstruction and the derived physical units.

use axp_pmic::adc::{
    battery_millivolts_from_raw, charge_milliamps_from_raw, combine_adc12, combine_adc12_arith,
    combine_adc13, read_adc12_single, read_adc12_split, read_adc13,
};
use axp_pmic::error::TransportError;
use axp_pmic::regmap::{high_temp_threshold_code, ldo_voltage_code, Register};
use axp_pmic::sim::SimBus;

#[test]
fn test_adc12_strategies_agree_exhaustive() {
    for high in 0u16..=255 {
        for low in 0u16..=255 {
            let (high, low) = (high as u8, low as u8);
            let a = combine_adc12(high, low);
            let b = combine_adc12_arith(high, low);
            assert_eq!(a, b, "high={high:#x} low={low:#x}");
            assert!(a < 4096);
            assert_eq!(
                battery_millivolts_from_raw(a),
                battery_millivolts_from_raw(b)
            );
        }
    }
}

#[test]
fn test_combine_masks_low_bits() {
    // The low byte contributes only its low nibble (12-bit) or five bits (13-bit).
    assert_eq!(combine_adc12(0x0A, 0xF5), (0x0A << 4) | 0x05);
    assert_eq!(combine_adc13(0x01, 0xE2), (0x01 << 5) | 0x02);
    assert_eq!(combine_adc13(0xFF, 0xFF), 8191);
}

#[test]
fn test_reference_adc_reading() {
    // Raw pair (0x0A, 0x05): composite 0x0A5 = 165, voltage 165*11/10 = 181 mV.
    assert_eq!(combine_adc12(0x0A, 0x05), 165);
    assert_eq!(battery_millivolts_from_raw(165), 181);

    let mut bus = SimBus::new();
    bus.poke(0x78, 0x0A);
    bus.poke(0x79, 0x05);
    // Both reconstruction strategies must report the same composite.
    assert_eq!(
        read_adc12_single(&mut bus, Register::BatteryVoltageAdc),
        Ok(165)
    );
    assert_eq!(
        read_adc12_split(&mut bus, Register::BatteryVoltageAdc),
        Ok(165)
    );
}

#[test]
fn test_charge_current_reading() {
    // Raw pair (0x01, 0x02): composite (1 << 5) | 2 = 34, current 17 mA.
    assert_eq!(combine_adc13(0x01, 0x02), 34);
    assert_eq!(charge_milliamps_from_raw(34), 17);

    let mut bus = SimBus::new();
    bus.poke(0x7A, 0x01);
    bus.poke(0x7B, 0x02);
    assert_eq!(
        read_adc13(&mut bus, Register::BatteryChargeCurrentAdc),
        Ok(34)
    );
}

#[test]
fn test_split_read_uses_two_transactions() {
    // A failure injected on the second transaction hits only the split strategy.
    let mut bus = SimBus::new_failing(1, TransportError::Nack);
    assert_eq!(
        read_adc12_single(&mut bus, Register::BatteryVoltageAdc),
        Ok(0)
    );
    let mut bus = SimBus::new_failing(1, TransportError::Nack);
    assert_eq!(
        read_adc12_split(&mut bus, Register::BatteryVoltageAdc),
        Err(TransportError::Nack)
    );
}

#[test]
fn test_setting_codes() {
    assert_eq!(ldo_voltage_code(1800), 0);
    assert_eq!(ldo_voltage_code(2550), 7);
    assert_eq!(ldo_voltage_code(3300), 15);
    assert_eq!(high_temp_threshold_code(0), 0);
    assert_eq!(high_temp_threshold_code(3226), 252);
    assert_eq!(high_temp_threshold_code(3264), 255);
}
