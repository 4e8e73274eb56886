//! Static register map of the AXP192: the registers this driver touches, the
//! bit fields inside them, and the symbol tables of the enumerated fields.
//!
//! The addresses, bit positions and symbol patterns come from the AXP192
//! datasheet; they are the external contract with the physical chip.

use vstd::prelude::*;

verus! {

/// An addressable register on the device, with a fixed address and byte width.
/// Two-byte registers are read with one auto-increment transaction starting at
/// the low address.
#[derive(Clone, Copy, Debug, PartialEq, Eq, Structural)]
pub enum Register {
    /// REG12H: output enables for the DC-DC converters, LDO2/3 and EXTEN.
    PowerOutputControl,
    /// REG30H: VBUS-IPSOUT path selection, VHOLD limiting and VBUS current
    /// limiting.
    VbusIpsoutPathManagement,
    /// REG28H: 4-bit output voltage codes for LDO2 (high nibble) and LDO3.
    Ldo23VoltageSetting,
    /// REG33H: primary charge parameters, among them the charge current code.
    ChargeControl1,
    /// REG35H: backup (RTC) battery charge control.
    BackupBatteryChargeControl,
    /// REG36H: PEK (power button) timing parameters.
    PekParameters,
    /// REG39H: high-temperature charge threshold, one raw byte.
    ChargeHighTempThreshold,
    /// REG78H/79H: battery voltage ADC code, 12 bits split over two bytes.
    BatteryVoltageAdc,
    /// REG7AH/7BH: battery charge current ADC code, 13 bits over two bytes.
    BatteryChargeCurrentAdc,
    /// REG82H: per-channel ADC enable bits, set 1.
    AdcEnable1,
    /// REG90H: GPIO0 pin function selection.
    Gpio0Control,
    /// REG91H: output voltage code for GPIO0 in low-noise LDO mode.
    Gpio0LdoVoltageSetting,
}

impl Register {
    /// Bus address of the register (of its first byte, for two-byte registers).
    pub open spec fn spec_address(self) -> u8 {
        match self {
            Register::PowerOutputControl => 0x12,
            Register::VbusIpsoutPathManagement => 0x30,
            Register::Ldo23VoltageSetting => 0x28,
            Register::ChargeControl1 => 0x33,
            Register::BackupBatteryChargeControl => 0x35,
            Register::PekParameters => 0x36,
            Register::ChargeHighTempThreshold => 0x39,
            Register::BatteryVoltageAdc => 0x78,
            Register::BatteryChargeCurrentAdc => 0x7A,
            Register::AdcEnable1 => 0x82,
            Register::Gpio0Control => 0x90,
            Register::Gpio0LdoVoltageSetting => 0x91,
        }
    }

    /// Bus address of the register (of its first byte, for two-byte registers).
    #[verifier::when_used_as_spec(spec_address)]
    pub fn address(self) -> (a: u8)
        ensures
            a == self.spec_address(),
    {
        match self {
            Register::PowerOutputControl => 0x12,
            Register::VbusIpsoutPathManagement => 0x30,
            Register::Ldo23VoltageSetting => 0x28,
            Register::ChargeControl1 => 0x33,
            Register::BackupBatteryChargeControl => 0x35,
            Register::PekParameters => 0x36,
            Register::ChargeHighTempThreshold => 0x39,
            Register::BatteryVoltageAdc => 0x78,
            Register::BatteryChargeCurrentAdc => 0x7A,
            Register::AdcEnable1 => 0x82,
            Register::Gpio0Control => 0x90,
            Register::Gpio0LdoVoltageSetting => 0x91,
        }
    }

    /// Number of bytes the register holds.
    pub open spec fn spec_width(self) -> u8 {
        match self {
            Register::BatteryVoltageAdc => 2,
            Register::BatteryChargeCurrentAdc => 2,
            _ => 1,
        }
    }

    /// Number of bytes the register holds.
    #[verifier::when_used_as_spec(spec_width)]
    pub fn width(self) -> (w: u8)
        ensures
            w == self.spec_width(),
    {
        match self {
            Register::BatteryVoltageAdc => 2,
            Register::BatteryChargeCurrentAdc => 2,
            _ => 1,
        }
    }
}

/// How a field interprets the bit patterns of its span.
#[derive(Clone, Copy, Debug, PartialEq, Eq, Structural)]
pub enum FieldKind {
    /// A raw unsigned integer of the field's bit width; single-bit flags are
    /// raw fields of width one.
    Raw,
    /// A closed set of symbolic states, each a fixed bit pattern; patterns
    /// outside the symbol table are rejected.
    Enumerated,
}

/// A named bit field: a positioned, width-bounded slice of the bits of a
/// one-byte register. No two fields of the same register overlap (proved by
/// `fields::lemma_register_map_well_formed`).
#[derive(Clone, Copy, Debug, PartialEq, Eq, Structural)]
pub enum Field {
    /// REG12H bit 0: DC-DC1 converter output switch.
    Dcdc1OutputEnable,
    /// REG12H bit 1: DC-DC3 converter output switch.
    Dcdc3OutputEnable,
    /// REG12H bit 2: LDO2 output switch.
    Ldo2OutputEnable,
    /// REG12H bit 3: LDO3 output switch.
    Ldo3OutputEnable,
    /// REG12H bit 4: DC-DC2 converter output switch.
    Dcdc2OutputEnable,
    /// REG12H bit 6: EXTEN pin output switch.
    ExtenOutputEnable,
    /// REG28H bits 0..4: LDO3 voltage code, 1.8 V + 100 mV per step.
    Ldo3VoltageSetting,
    /// REG28H bits 4..8: LDO2 voltage code, 1.8 V + 100 mV per step.
    Ldo2VoltageSetting,
    /// REG33H bits 5..7: charge target voltage, enumerated (4.10 V .. 4.36 V).
    ChargeTargetVoltage,
    /// REG33H bits 0..4: charge current, enumerated (100 mA .. 1320 mA).
    ChargeCurrent,
    /// REG35H bit 7: backup battery charge enable.
    BackupChargeEnable,
    /// REG36H bits 6..8: PEK press duration required for power-on.
    PekPowerOnTime,
    /// REG36H bits 4..6: PEK long-press detection time.
    PekLongPressTime,
    /// REG36H bit 3: automatic shutdown when PEK is held past the shutdown time.
    PekAutoShutdownEnable,
    /// REG36H bit 2: PWROK signal delay after power-up completion.
    PekPwrokDelay,
    /// REG36H bits 0..2: PEK press duration required for shutdown.
    PekShutdownTime,
    /// REG39H bits 0..8: high-temperature charge threshold code, 12.8 mV per step.
    HighTempThresholdRaw,
    /// REG82H bit 7: battery voltage ADC enable.
    BatteryVoltageAdcEnable,
    /// REG82H bit 6: battery charge/discharge current ADC enable.
    BatteryCurrentAdcEnable,
    /// REG82H bit 5: ACIN voltage ADC enable.
    AcinVoltageAdcEnable,
    /// REG82H bit 4: ACIN current ADC enable.
    AcinCurrentAdcEnable,
    /// REG82H bit 3: VBUS voltage ADC enable.
    VbusVoltageAdcEnable,
    /// REG82H bit 2: VBUS current ADC enable.
    VbusCurrentAdcEnable,
    /// REG82H bit 1: APS voltage ADC enable.
    ApsVoltageAdcEnable,
    /// REG82H bit 0: TS pin ADC enable.
    TsPinAdcEnable,
    /// REG30H bit 7: VBUS-IPSOUT path selection override (ignore N_VBUSEN).
    VbusPathSelectionOverride,
    /// REG30H bit 6: VHOLD voltage limiting enable.
    VholdLimitEnable,
    /// REG30H bits 3..6: VHOLD voltage code, 4.0 V + 100 mV per step.
    VholdVoltage,
    /// REG30H bit 1: VBUS current limit enable.
    VbusCurrentLimitEnable,
    /// REG30H bit 0: VBUS current limit selection (500 mA or 100 mA).
    VbusCurrentLimit,
    /// REG90H bits 0..3: GPIO0 pin function, enumerated.
    Gpio0FunctionSelect,
    /// REG91H bits 4..8: GPIO0 low-noise-LDO voltage code, 1.8 V + 100 mV per step.
    Gpio0LdoVoltageRaw,
}

impl Field {
    /// The register the field belongs to.
    pub open spec fn spec_register(self) -> Register {
        match self {
            Field::Dcdc1OutputEnable => Register::PowerOutputControl,
            Field::Dcdc3OutputEnable => Register::PowerOutputControl,
            Field::Ldo2OutputEnable => Register::PowerOutputControl,
            Field::Ldo3OutputEnable => Register::PowerOutputControl,
            Field::Dcdc2OutputEnable => Register::PowerOutputControl,
            Field::ExtenOutputEnable => Register::PowerOutputControl,
            Field::Ldo3VoltageSetting => Register::Ldo23VoltageSetting,
            Field::Ldo2VoltageSetting => Register::Ldo23VoltageSetting,
            Field::ChargeTargetVoltage => Register::ChargeControl1,
            Field::ChargeCurrent => Register::ChargeControl1,
            Field::BackupChargeEnable => Register::BackupBatteryChargeControl,
            Field::PekPowerOnTime => Register::PekParameters,
            Field::PekLongPressTime => Register::PekParameters,
            Field::PekAutoShutdownEnable => Register::PekParameters,
            Field::PekPwrokDelay => Register::PekParameters,
            Field::PekShutdownTime => Register::PekParameters,
            Field::HighTempThresholdRaw => Register::ChargeHighTempThreshold,
            Field::BatteryVoltageAdcEnable => Register::AdcEnable1,
            Field::BatteryCurrentAdcEnable => Register::AdcEnable1,
            Field::AcinVoltageAdcEnable => Register::AdcEnable1,
            Field::AcinCurrentAdcEnable => Register::AdcEnable1,
            Field::VbusVoltageAdcEnable => Register::AdcEnable1,
            Field::VbusCurrentAdcEnable => Register::AdcEnable1,
            Field::ApsVoltageAdcEnable => Register::AdcEnable1,
            Field::TsPinAdcEnable => Register::AdcEnable1,
            Field::VbusPathSelectionOverride => Register::VbusIpsoutPathManagement,
            Field::VholdLimitEnable => Register::VbusIpsoutPathManagement,
            Field::VholdVoltage => Register::VbusIpsoutPathManagement,
            Field::VbusCurrentLimitEnable => Register::VbusIpsoutPathManagement,
            Field::VbusCurrentLimit => Register::VbusIpsoutPathManagement,
            Field::Gpio0FunctionSelect => Register::Gpio0Control,
            Field::Gpio0LdoVoltageRaw => Register::Gpio0LdoVoltageSetting,
        }
    }

    /// The register the field belongs to.
    #[verifier::when_used_as_spec(spec_register)]
    pub fn register(self) -> (r: Register)
        ensures
            r == self.spec_register(),
    {
        match self {
            Field::Dcdc1OutputEnable => Register::PowerOutputControl,
            Field::Dcdc3OutputEnable => Register::PowerOutputControl,
            Field::Ldo2OutputEnable => Register::PowerOutputControl,
            Field::Ldo3OutputEnable => Register::PowerOutputControl,
            Field::Dcdc2OutputEnable => Register::PowerOutputControl,
            Field::ExtenOutputEnable => Register::PowerOutputControl,
            Field::Ldo3VoltageSetting => Register::Ldo23VoltageSetting,
            Field::Ldo2VoltageSetting => Register::Ldo23VoltageSetting,
            Field::ChargeTargetVoltage => Register::ChargeControl1,
            Field::ChargeCurrent => Register::ChargeControl1,
            Field::BackupChargeEnable => Register::BackupBatteryChargeControl,
            Field::PekPowerOnTime => Register::PekParameters,
            Field::PekLongPressTime => Register::PekParameters,
            Field::PekAutoShutdownEnable => Register::PekParameters,
            Field::PekPwrokDelay => Register::PekParameters,
            Field::PekShutdownTime => Register::PekParameters,
            Field::HighTempThresholdRaw => Register::ChargeHighTempThreshold,
            Field::BatteryVoltageAdcEnable => Register::AdcEnable1,
            Field::BatteryCurrentAdcEnable => Register::AdcEnable1,
            Field::AcinVoltageAdcEnable => Register::AdcEnable1,
            Field::AcinCurrentAdcEnable => Register::AdcEnable1,
            Field::VbusVoltageAdcEnable => Register::AdcEnable1,
            Field::VbusCurrentAdcEnable => Register::AdcEnable1,
            Field::ApsVoltageAdcEnable => Register::AdcEnable1,
            Field::TsPinAdcEnable => Register::AdcEnable1,
            Field::VbusPathSelectionOverride => Register::VbusIpsoutPathManagement,
            Field::VholdLimitEnable => Register::VbusIpsoutPathManagement,
            Field::VholdVoltage => Register::VbusIpsoutPathManagement,
            Field::VbusCurrentLimitEnable => Register::VbusIpsoutPathManagement,
            Field::VbusCurrentLimit => Register::VbusIpsoutPathManagement,
            Field::Gpio0FunctionSelect => Register::Gpio0Control,
            Field::Gpio0LdoVoltageRaw => Register::Gpio0LdoVoltageSetting,
        }
    }

    /// Bit offset of the field's span within its register byte.
    pub open spec fn spec_offset(self) -> u8 {
        match self {
            Field::Dcdc1OutputEnable => 0,
            Field::Dcdc3OutputEnable => 1,
            Field::Ldo2OutputEnable => 2,
            Field::Ldo3OutputEnable => 3,
            Field::Dcdc2OutputEnable => 4,
            Field::ExtenOutputEnable => 6,
            Field::Ldo3VoltageSetting => 0,
            Field::Ldo2VoltageSetting => 4,
            Field::ChargeTargetVoltage => 5,
            Field::ChargeCurrent => 0,
            Field::BackupChargeEnable => 7,
            Field::PekPowerOnTime => 6,
            Field::PekLongPressTime => 4,
            Field::PekAutoShutdownEnable => 3,
            Field::PekPwrokDelay => 2,
            Field::PekShutdownTime => 0,
            Field::HighTempThresholdRaw => 0,
            Field::BatteryVoltageAdcEnable => 7,
            Field::BatteryCurrentAdcEnable => 6,
            Field::AcinVoltageAdcEnable => 5,
            Field::AcinCurrentAdcEnable => 4,
            Field::VbusVoltageAdcEnable => 3,
            Field::VbusCurrentAdcEnable => 2,
            Field::ApsVoltageAdcEnable => 1,
            Field::TsPinAdcEnable => 0,
            Field::VbusPathSelectionOverride => 7,
            Field::VholdLimitEnable => 6,
            Field::VholdVoltage => 3,
            Field::VbusCurrentLimitEnable => 1,
            Field::VbusCurrentLimit => 0,
            Field::Gpio0FunctionSelect => 0,
            Field::Gpio0LdoVoltageRaw => 4,
        }
    }

    /// Bit offset of the field's span within its register byte.
    #[verifier::when_used_as_spec(spec_offset)]
    pub fn offset(self) -> (o: u8)
        ensures
            o == self.spec_offset(),
    {
        match self {
            Field::Dcdc1OutputEnable => 0,
            Field::Dcdc3OutputEnable => 1,
            Field::Ldo2OutputEnable => 2,
            Field::Ldo3OutputEnable => 3,
            Field::Dcdc2OutputEnable => 4,
            Field::ExtenOutputEnable => 6,
            Field::Ldo3VoltageSetting => 0,
            Field::Ldo2VoltageSetting => 4,
            Field::ChargeTargetVoltage => 5,
            Field::ChargeCurrent => 0,
            Field::BackupChargeEnable => 7,
            Field::PekPowerOnTime => 6,
            Field::PekLongPressTime => 4,
            Field::PekAutoShutdownEnable => 3,
            Field::PekPwrokDelay => 2,
            Field::PekShutdownTime => 0,
            Field::HighTempThresholdRaw => 0,
            Field::BatteryVoltageAdcEnable => 7,
            Field::BatteryCurrentAdcEnable => 6,
            Field::AcinVoltageAdcEnable => 5,
            Field::AcinCurrentAdcEnable => 4,
            Field::VbusVoltageAdcEnable => 3,
            Field::VbusCurrentAdcEnable => 2,
            Field::ApsVoltageAdcEnable => 1,
            Field::TsPinAdcEnable => 0,
            Field::VbusPathSelectionOverride => 7,
            Field::VholdLimitEnable => 6,
            Field::VholdVoltage => 3,
            Field::VbusCurrentLimitEnable => 1,
            Field::VbusCurrentLimit => 0,
            Field::Gpio0FunctionSelect => 0,
            Field::Gpio0LdoVoltageRaw => 4,
        }
    }

    /// Bit width of the field's span.
    pub open spec fn spec_width(self) -> u8 {
        match self {
            Field::Ldo3VoltageSetting => 4,
            Field::Ldo2VoltageSetting => 4,
            Field::ChargeTargetVoltage => 2,
            Field::ChargeCurrent => 4,
            Field::PekPowerOnTime => 2,
            Field::PekLongPressTime => 2,
            Field::PekShutdownTime => 2,
            Field::VholdVoltage => 3,
            Field::HighTempThresholdRaw => 8,
            Field::Gpio0FunctionSelect => 3,
            Field::Gpio0LdoVoltageRaw => 4,
            _ => 1,
        }
    }

    /// Bit width of the field's span.
    #[verifier::when_used_as_spec(spec_width)]
    pub fn width(self) -> (w: u8)
        ensures
            w == self.spec_width(),
    {
        match self {
            Field::Ldo3VoltageSetting => 4,
            Field::Ldo2VoltageSetting => 4,
            Field::ChargeTargetVoltage => 2,
            Field::ChargeCurrent => 4,
            Field::PekPowerOnTime => 2,
            Field::PekLongPressTime => 2,
            Field::PekShutdownTime => 2,
            Field::VholdVoltage => 3,
            Field::HighTempThresholdRaw => 8,
            Field::Gpio0FunctionSelect => 3,
            Field::Gpio0LdoVoltageRaw => 4,
            _ => 1,
        }
    }

    /// Whether the field is a raw integer or an enumerated setting.
    pub open spec fn spec_kind(self) -> FieldKind {
        match self {
            Field::ChargeTargetVoltage => FieldKind::Enumerated,
            Field::ChargeCurrent => FieldKind::Enumerated,
            Field::Gpio0FunctionSelect => FieldKind::Enumerated,
            _ => FieldKind::Raw,
        }
    }

    /// Whether the field is a raw integer or an enumerated setting.
    #[verifier::when_used_as_spec(spec_kind)]
    pub fn kind(self) -> (k: FieldKind)
        ensures
            k == self.spec_kind(),
    {
        match self {
            Field::ChargeTargetVoltage => FieldKind::Enumerated,
            Field::ChargeCurrent => FieldKind::Enumerated,
            Field::Gpio0FunctionSelect => FieldKind::Enumerated,
            _ => FieldKind::Raw,
        }
    }

    /// Whether `p` is a pattern in the field's symbol table. Only enumerated
    /// fields have a table; for raw fields this is false for every pattern.
    pub open spec fn spec_in_table(self, p: u8) -> bool {
        match self {
            // All four patterns name a charge target voltage.
            Field::ChargeTargetVoltage => p < 4,
            // All sixteen patterns name a charge current (100 mA .. 1320 mA).
            Field::ChargeCurrent => p < 16,
            // Patterns 0b011 and 0b111 are reserved or an alias; the table
            // names 0b000..0b010 and 0b100..0b110.
            Field::Gpio0FunctionSelect => p == 0 || p == 1 || p == 2 || p == 4 || p == 5 || p == 6,
            _ => false,
        }
    }

    /// Whether `p` is a pattern in the field's symbol table.
    #[verifier::when_used_as_spec(spec_in_table)]
    pub fn in_table(self, p: u8) -> (b: bool)
        ensures
            b == self.spec_in_table(p),
    {
        match self {
            Field::ChargeTargetVoltage => p < 4,
            Field::ChargeCurrent => p < 16,
            Field::Gpio0FunctionSelect => p == 0 || p == 1 || p == 2 || p == 4 || p == 5 || p == 6,
            _ => false,
        }
    }
}

/// Symbolic charge current settings for `Field::ChargeCurrent` (REG33H bits
/// 0..4), each naming its target current in milliamps.
#[derive(Clone, Copy, Debug, PartialEq, Eq, Structural)]
pub enum ChargeCurrentMa {
    Ma100,
    Ma190,
    Ma280,
    Ma360,
    Ma450,
    Ma550,
    Ma630,
    Ma700,
    Ma780,
    Ma880,
    Ma960,
    Ma1000,
    Ma1080,
    Ma1160,
    Ma1240,
    Ma1320,
}

impl ChargeCurrentMa {
    /// The bit pattern of the symbol in the charge current field.
    pub open spec fn spec_pattern(self) -> u8 {
        match self {
            ChargeCurrentMa::Ma100 => 0,
            ChargeCurrentMa::Ma190 => 1,
            ChargeCurrentMa::Ma280 => 2,
            ChargeCurrentMa::Ma360 => 3,
            ChargeCurrentMa::Ma450 => 4,
            ChargeCurrentMa::Ma550 => 5,
            ChargeCurrentMa::Ma630 => 6,
            ChargeCurrentMa::Ma700 => 7,
            ChargeCurrentMa::Ma780 => 8,
            ChargeCurrentMa::Ma880 => 9,
            ChargeCurrentMa::Ma960 => 10,
            ChargeCurrentMa::Ma1000 => 11,
            ChargeCurrentMa::Ma1080 => 12,
            ChargeCurrentMa::Ma1160 => 13,
            ChargeCurrentMa::Ma1240 => 14,
            ChargeCurrentMa::Ma1320 => 15,
        }
    }

    /// The bit pattern of the symbol; always in the field's table.
    #[verifier::when_used_as_spec(spec_pattern)]
    pub fn pattern(self) -> (p: u8)
        ensures
            p == self.spec_pattern(),
            Field::ChargeCurrent.spec_in_table(p),
    {
        match self {
            ChargeCurrentMa::Ma100 => 0,
            ChargeCurrentMa::Ma190 => 1,
            ChargeCurrentMa::Ma280 => 2,
            ChargeCurrentMa::Ma360 => 3,
            ChargeCurrentMa::Ma450 => 4,
            ChargeCurrentMa::Ma550 => 5,
            ChargeCurrentMa::Ma630 => 6,
            ChargeCurrentMa::Ma700 => 7,
            ChargeCurrentMa::Ma780 => 8,
            ChargeCurrentMa::Ma880 => 9,
            ChargeCurrentMa::Ma960 => 10,
            ChargeCurrentMa::Ma1000 => 11,
            ChargeCurrentMa::Ma1080 => 12,
            ChargeCurrentMa::Ma1160 => 13,
            ChargeCurrentMa::Ma1240 => 14,
            ChargeCurrentMa::Ma1320 => 15,
        }
    }

    /// The symbol a pattern decodes to: the mapping is bidirectional, so this
    /// returns a symbol exactly for the patterns in the field's table, and
    /// encoding that symbol gives the pattern back.
    pub fn from_pattern(p: u8) -> (r: Option<ChargeCurrentMa>)
        ensures
            r is Some <==> Field::ChargeCurrent.spec_in_table(p),
            r matches Some(s) ==> s.spec_pattern() == p,
    {
        match p {
            0 => Some(ChargeCurrentMa::Ma100),
            1 => Some(ChargeCurrentMa::Ma190),
            2 => Some(ChargeCurrentMa::Ma280),
            3 => Some(ChargeCurrentMa::Ma360),
            4 => Some(ChargeCurrentMa::Ma450),
            5 => Some(ChargeCurrentMa::Ma550),
            6 => Some(ChargeCurrentMa::Ma630),
            7 => Some(ChargeCurrentMa::Ma700),
            8 => Some(ChargeCurrentMa::Ma780),
            9 => Some(ChargeCurrentMa::Ma880),
            10 => Some(ChargeCurrentMa::Ma960),
            11 => Some(ChargeCurrentMa::Ma1000),
            12 => Some(ChargeCurrentMa::Ma1080),
            13 => Some(ChargeCurrentMa::Ma1160),
            14 => Some(ChargeCurrentMa::Ma1240),
            15 => Some(ChargeCurrentMa::Ma1320),
            _ => None,
        }
    }
}

/// Symbolic pin functions for `Field::Gpio0FunctionSelect` (REG90H bits 0..3).
#[derive(Clone, Copy, Debug, PartialEq, Eq, Structural)]
pub enum Gpio0Function {
    /// NMOS open-drain output.
    NmosOpenDrainOutput,
    /// Universal input.
    UniversalInput,
    /// Low-noise LDO (LDOIO0) output.
    LowNoiseLdoOutput,
    /// ADC input.
    AdcInput,
    /// Output driven low.
    OutputLow,
    /// Floating (high impedance). The datasheet gives floating two patterns
    /// (`0b110` and `0b111`, the power-on state); this table encodes the
    /// symbol as `0b110`, so the alias `0b111` decodes to no symbol.
    Floating,
}

impl Gpio0Function {
    /// The bit pattern of the symbol in the function-select field.
    pub open spec fn spec_pattern(self) -> u8 {
        match self {
            Gpio0Function::NmosOpenDrainOutput => 0,
            Gpio0Function::UniversalInput => 1,
            Gpio0Function::LowNoiseLdoOutput => 2,
            Gpio0Function::AdcInput => 4,
            Gpio0Function::OutputLow => 5,
            Gpio0Function::Floating => 6,
        }
    }

    /// The bit pattern of the symbol; always in the field's table.
    #[verifier::when_used_as_spec(spec_pattern)]
    pub fn pattern(self) -> (p: u8)
        ensures
            p == self.spec_pattern(),
            Field::Gpio0FunctionSelect.spec_in_table(p),
    {
        match self {
            Gpio0Function::NmosOpenDrainOutput => 0,
            Gpio0Function::UniversalInput => 1,
            Gpio0Function::LowNoiseLdoOutput => 2,
            Gpio0Function::AdcInput => 4,
            Gpio0Function::OutputLow => 5,
            Gpio0Function::Floating => 6,
        }
    }

    /// The symbol a pattern decodes to: a symbol exactly for the patterns in
    /// the field's table, and encoding that symbol gives the pattern back.
    pub fn from_pattern(p: u8) -> (r: Option<Gpio0Function>)
        ensures
            r is Some <==> Field::Gpio0FunctionSelect.spec_in_table(p),
            r matches Some(s) ==> s.spec_pattern() == p,
    {
        match p {
            0 => Some(Gpio0Function::NmosOpenDrainOutput),
            1 => Some(Gpio0Function::UniversalInput),
            2 => Some(Gpio0Function::LowNoiseLdoOutput),
            4 => Some(Gpio0Function::AdcInput),
            5 => Some(Gpio0Function::OutputLow),
            6 => Some(Gpio0Function::Floating),
            _ => None,
        }
    }
}

/// Symbolic charge target voltages for `Field::ChargeTargetVoltage` (REG33H
/// bits 5..7), each naming its target in millivolts.
#[derive(Clone, Copy, Debug, PartialEq, Eq, Structural)]
pub enum ChargeTargetMv {
    Mv4100,
    Mv4150,
    Mv4200,
    Mv4360,
}

impl ChargeTargetMv {
    /// The bit pattern of the symbol in the charge target voltage field.
    pub open spec fn spec_pattern(self) -> u8 {
        match self {
            ChargeTargetMv::Mv4100 => 0,
            ChargeTargetMv::Mv4150 => 1,
            ChargeTargetMv::Mv4200 => 2,
            ChargeTargetMv::Mv4360 => 3,
        }
    }

    /// The bit pattern of the symbol; always in the field's table.
    #[verifier::when_used_as_spec(spec_pattern)]
    pub fn pattern(self) -> (p: u8)
        ensures
            p == self.spec_pattern(),
            Field::ChargeTargetVoltage.spec_in_table(p),
    {
        match self {
            ChargeTargetMv::Mv4100 => 0,
            ChargeTargetMv::Mv4150 => 1,
            ChargeTargetMv::Mv4200 => 2,
            ChargeTargetMv::Mv4360 => 3,
        }
    }

    /// The symbol a pattern decodes to: a symbol exactly for the patterns in
    /// the field's table, and encoding that symbol gives the pattern back.
    pub fn from_pattern(p: u8) -> (r: Option<ChargeTargetMv>)
        ensures
            r is Some <==> Field::ChargeTargetVoltage.spec_in_table(p),
            r matches Some(s) ==> s.spec_pattern() == p,
    {
        match p {
            0 => Some(ChargeTargetMv::Mv4100),
            1 => Some(ChargeTargetMv::Mv4150),
            2 => Some(ChargeTargetMv::Mv4200),
            3 => Some(ChargeTargetMv::Mv4360),
            _ => None,
        }
    }
}

/// The 4-bit voltage code for the LDO2, LDO3 and GPIO0-LDO rails:
/// 1.8 V at code 0, 100 mV per step, up to 3.3 V at code 15.
pub open spec fn spec_ldo_voltage_code(mv: u16) -> u8
    recommends
        1800 <= mv <= 3300,
{
    (((mv - 1800) / 100) as u8)
}

/// The 4-bit voltage code for the LDO rails (1.8 V to 3.3 V, 100 mV per step).
pub fn ldo_voltage_code(mv: u16) -> (code: u8)
    requires
        1800 <= mv <= 3300,
    ensures
        code == spec_ldo_voltage_code(mv),
        code <= 15,
{
    ((mv - 1800) / 100) as u8
}

/// The REG39H code of a high-temperature charge threshold: 12.8 mV per step,
/// rounded to the nearest step.
pub open spec fn spec_high_temp_threshold_code(mv: u16) -> u8
    recommends
        mv <= 3264,
{
    (((mv * 10 + 64) / 128) as u8)
}

/// The REG39H code of a high-temperature charge threshold in millivolts.
pub fn high_temp_threshold_code(mv: u16) -> (code: u8)
    requires
        mv <= 3264,
    ensures
        code == spec_high_temp_threshold_code(mv),
{
    ((mv * 10 + 64) / 128) as u8
}

} // verus!
