//! Exhaustive checks of the typed field accessors over every declared field.

use axp_pmic::error::Error;
use axp_pmic::fields::{get_field, set_field};
use axp_pmic::regmap::{ChargeCurrentMa, ChargeTargetMv, Field, FieldKind, Gpio0Function, Register};

fn all_fields() -> Vec<Field> {
    vec![
        Field::Dcdc1OutputEnable,
        Field::Dcdc3OutputEnable,
        Field::Ldo2OutputEnable,
        Field::Ldo3OutputEnable,
        Field::Dcdc2OutputEnable,
        Field::ExtenOutputEnable,
        Field::Ldo3VoltageSetting,
        Field::Ldo2VoltageSetting,
        Field::ChargeTargetVoltage,
        Field::ChargeCurrent,
        Field::BackupChargeEnable,
        Field::PekPowerOnTime,
        Field::PekLongPressTime,
        Field::PekAutoShutdownEnable,
        Field::PekPwrokDelay,
        Field::PekShutdownTime,
        Field::HighTempThresholdRaw,
        Field::BatteryVoltageAdcEnable,
        Field::BatteryCurrentAdcEnable,
        Field::AcinVoltageAdcEnable,
        Field::AcinCurrentAdcEnable,
        Field::VbusVoltageAdcEnable,
        Field::VbusCurrentAdcEnable,
        Field::ApsVoltageAdcEnable,
        Field::TsPinAdcEnable,
        Field::VbusPathSelectionOverride,
        Field::VholdLimitEnable,
        Field::VholdVoltage,
        Field::VbusCurrentLimitEnable,
        Field::VbusCurrentLimit,
        Field::Gpio0FunctionSelect,
        Field::Gpio0LdoVoltageRaw,
    ]
}

fn mask_of(f: Field) -> u8 {
    let low = ((1u16 << f.width()) - 1) as u8;
    low << f.offset()
}

fn accepted(f: Field, x: u8) -> bool {
    match f.kind() {
        FieldKind::Raw => (x as u16) < (1u16 << f.width()),
        FieldKind::Enumerated => f.in_table(x),
    }
}

#[test]
fn test_set_get_roundtrip_exhaustive() {
    for &f in all_fields().iter() {
        let mask = mask_of(f);
        for v in 0u16..=255 {
            let v = v as u8;
            for x in 0u16..=255 {
                let x = x as u8;
                match set_field(v, f, x) {
                    Ok(w) => {
                        assert!(accepted(f, x), "{f:?} accepted {x:#x}");
                        // Round trip: the field reads back exactly x.
                        assert_eq!(get_field(w, f), x, "{f:?} v={v:#x} x={x:#x}");
                        // Non-interference: no bit outside the span moved.
                        assert_eq!(w & !mask, v & !mask, "{f:?} v={v:#x} x={x:#x}");
                    }
                    Err(e) => {
                        assert!(!accepted(f, x), "{f:?} rejected {x:#x}");
                        let expected = match f.kind() {
                            FieldKind::Raw => Error::FieldOverflow,
                            FieldKind::Enumerated => Error::InvalidFieldValue,
                        };
                        assert_eq!(e, expected, "{f:?} x={x:#x}");
                    }
                }
            }
        }
    }
}

#[test]
fn test_set_preserves_sibling_fields() {
    let fields = all_fields();
    let samples = [0x00u8, 0xFF, 0xA5, 0x5A, 0x0F, 0xF0, 0x83];
    for &f in fields.iter() {
        for &g in fields.iter() {
            if f == g || f.register() != g.register() {
                continue;
            }
            for &v in samples.iter() {
                for x in 0u16..=255 {
                    let x = x as u8;
                    if let Ok(w) = set_field(v, f, x) {
                        assert_eq!(
                            get_field(w, g),
                            get_field(v, g),
                            "{f:?} changed {g:?} at v={v:#x} x={x:#x}"
                        );
                    }
                }
            }
        }
    }
}

#[test]
fn test_invalid_enum_symbol_fails() {
    // Patterns outside the GPIO0 function table: 0b011 (reserved) and 0b111.
    for bad in [3u8, 7] {
        let v = 0xA5u8;
        assert_eq!(
            set_field(v, Field::Gpio0FunctionSelect, bad),
            Err(Error::InvalidFieldValue)
        );
        // The register value the caller holds is untouched.
        assert_eq!(get_field(v, Field::Gpio0FunctionSelect), 0x05);
    }
    // Patterns wider than the charge current field are no symbols either.
    for bad in [16u8, 0x20, 0xFF] {
        assert_eq!(
            set_field(0x00, Field::ChargeCurrent, bad),
            Err(Error::InvalidFieldValue)
        );
    }
    // The charge target voltage table holds the four patterns 0..4 only.
    assert!(set_field(0x00, Field::ChargeTargetVoltage, 3).is_ok());
    assert_eq!(
        set_field(0x00, Field::ChargeTargetVoltage, 4),
        Err(Error::InvalidFieldValue)
    );
}

#[test]
fn test_raw_overflow_fails() {
    // A 4-bit code: 15 fits, 16 does not.
    assert!(set_field(0x00, Field::Ldo2VoltageSetting, 15).is_ok());
    assert_eq!(
        set_field(0x00, Field::Ldo2VoltageSetting, 16),
        Err(Error::FieldOverflow)
    );
    // A flag: only 0 and 1 fit.
    assert!(set_field(0x00, Field::Dcdc1OutputEnable, 1).is_ok());
    assert_eq!(
        set_field(0x00, Field::Dcdc1OutputEnable, 2),
        Err(Error::FieldOverflow)
    );
    // The full-byte threshold accepts every byte.
    assert!(set_field(0x00, Field::HighTempThresholdRaw, 0xFF).is_ok());
}

#[test]
fn test_symbol_tables_bidirectional() {
    let charge = [
        ChargeCurrentMa::Ma100,
        ChargeCurrentMa::Ma190,
        ChargeCurrentMa::Ma280,
        ChargeCurrentMa::Ma360,
        ChargeCurrentMa::Ma450,
        ChargeCurrentMa::Ma550,
        ChargeCurrentMa::Ma630,
        ChargeCurrentMa::Ma700,
        ChargeCurrentMa::Ma780,
        ChargeCurrentMa::Ma880,
        ChargeCurrentMa::Ma960,
        ChargeCurrentMa::Ma1000,
        ChargeCurrentMa::Ma1080,
        ChargeCurrentMa::Ma1160,
        ChargeCurrentMa::Ma1240,
        ChargeCurrentMa::Ma1320,
    ];
    for &s in charge.iter() {
        assert_eq!(ChargeCurrentMa::from_pattern(s.pattern()), Some(s));
    }
    let gpio = [
        Gpio0Function::NmosOpenDrainOutput,
        Gpio0Function::UniversalInput,
        Gpio0Function::LowNoiseLdoOutput,
        Gpio0Function::AdcInput,
        Gpio0Function::OutputLow,
        Gpio0Function::Floating,
    ];
    for &s in gpio.iter() {
        assert_eq!(Gpio0Function::from_pattern(s.pattern()), Some(s));
    }
    let targets = [
        ChargeTargetMv::Mv4100,
        ChargeTargetMv::Mv4150,
        ChargeTargetMv::Mv4200,
        ChargeTargetMv::Mv4360,
    ];
    for &s in targets.iter() {
        assert_eq!(ChargeTargetMv::from_pattern(s.pattern()), Some(s));
    }
    for p in 0u16..=255 {
        let p = p as u8;
        assert_eq!(
            ChargeCurrentMa::from_pattern(p).is_some(),
            Field::ChargeCurrent.in_table(p)
        );
        assert_eq!(
            Gpio0Function::from_pattern(p).is_some(),
            Field::Gpio0FunctionSelect.in_table(p)
        );
        assert_eq!(
            ChargeTargetMv::from_pattern(p).is_some(),
            Field::ChargeTargetVoltage.in_table(p)
        );
    }
}

#[test]
fn test_register_catalog() {
    assert_eq!(Register::PowerOutputControl.address(), 0x12);
    assert_eq!(Register::VbusIpsoutPathManagement.address(), 0x30);
    assert_eq!(Register::Ldo23VoltageSetting.address(), 0x28);
    assert_eq!(Register::ChargeControl1.address(), 0x33);
    assert_eq!(Register::BackupBatteryChargeControl.address(), 0x35);
    assert_eq!(Register::PekParameters.address(), 0x36);
    assert_eq!(Register::ChargeHighTempThreshold.address(), 0x39);
    assert_eq!(Register::BatteryVoltageAdc.address(), 0x78);
    assert_eq!(Register::BatteryChargeCurrentAdc.address(), 0x7A);
    assert_eq!(Register::AdcEnable1.address(), 0x82);
    assert_eq!(Register::Gpio0Control.address(), 0x90);
    assert_eq!(Register::Gpio0LdoVoltageSetting.address(), 0x91);
    assert_eq!(Register::BatteryVoltageAdc.width(), 2);
    assert_eq!(Register::BatteryChargeCurrentAdc.width(), 2);
    assert_eq!(Register::AdcEnable1.width(), 1);
    // Spans of distinct fields of one register never overlap.
    let fields = all_fields();
    for &f in fields.iter() {
        for &g in fields.iter() {
            if f != g && f.register() == g.register() {
                assert_eq!(mask_of(f) & mask_of(g), 0, "{f:?} overlaps {g:?}");
            }
        }
    }
}
