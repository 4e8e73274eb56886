//! The PMIC controller: a fixed, data-driven configuration sequence applied
//! in order over the transport, and measurement queries derived from the ADC
//! register pairs. The controller holds no register state itself, only the
//! bus handle it was constructed around.
//!
//! The contracts are stated over the bus handle's transaction history: the
//! configure phase provably puts exactly the sequence's read-modify-write
//! traffic on the bus, in order, stopping at the first failure, which it
//! names and never swallows; the query phase provably issues only reads and
//! returns the transforms of the bytes the device handed back.

use vstd::prelude::*;

use crate::adc::{
    battery_millivolts_from_raw, charge_milliamps_from_raw, read_adc12_single, read_adc13,
    spec_battery_millivolts, spec_charge_milliamps, spec_is_adc12_pair_read,
    spec_is_adc13_pair_read, Measurement,
};
use crate::error::Error;
use crate::fields::spec_accepts;
use crate::regmap::{
    spec_high_temp_threshold_code, spec_ldo_voltage_code, high_temp_threshold_code,
    ldo_voltage_code, ChargeCurrentMa, ChargeTargetMv, Field, Gpio0Function, Register,
};
use crate::transport::{
    lemma_extends_trans, spec_extends, spec_is_rmw, spec_txn_addr, spec_txn_failed,
    spec_txn_is_read, write_field, Bus, Txn,
};

verus! {

/// One step of the configuration sequence: set `field` to `value`.
#[derive(Clone, Copy, Debug, PartialEq, Eq, Structural)]
pub struct ConfigStep {
    pub field: Field,
    pub value: u8,
}

/// Step `i` of the fixed configuration sequence, in its documented order:
/// the LDO2 rail voltage; the ADC channel enables; the battery charge target
/// voltage and current; the power-rail output enables; the power-button
/// timing parameters; the GPIO0 low-noise-LDO voltage and pin function; the
/// VBUS current-limit and path-selection settings; the high-temperature
/// charge threshold; and the backup battery charge enable. The power-button
/// and VBUS settings pin the device's documented power-on defaults, so the
/// whole configuration is re-applied from constants at every boot.
pub open spec fn spec_step(i: int) -> ConfigStep {
    if i == 0 {
        // LDO2 rail at 3.3 V.
        ConfigStep { field: Field::Ldo2VoltageSetting, value: spec_ldo_voltage_code(3300) }
    } else if i == 1 {
        ConfigStep { field: Field::BatteryCurrentAdcEnable, value: 1 }
    } else if i == 2 {
        ConfigStep { field: Field::AcinVoltageAdcEnable, value: 1 }
    } else if i == 3 {
        ConfigStep { field: Field::AcinCurrentAdcEnable, value: 1 }
    } else if i == 4 {
        ConfigStep { field: Field::VbusVoltageAdcEnable, value: 1 }
    } else if i == 5 {
        ConfigStep { field: Field::VbusCurrentAdcEnable, value: 1 }
    } else if i == 6 {
        ConfigStep { field: Field::ApsVoltageAdcEnable, value: 1 }
    } else if i == 7 {
        // Battery charge target voltage 4.20 V.
        ConfigStep {
            field: Field::ChargeTargetVoltage,
            value: ChargeTargetMv::Mv4200.spec_pattern(),
        }
    } else if i == 8 {
        // Battery charge target current 100 mA.
        ConfigStep { field: Field::ChargeCurrent, value: ChargeCurrentMa::Ma100.spec_pattern() }
    } else if i == 9 {
        ConfigStep { field: Field::Dcdc1OutputEnable, value: 1 }
    } else if i == 10 {
        ConfigStep { field: Field::Dcdc3OutputEnable, value: 0 }
    } else if i == 11 {
        ConfigStep { field: Field::Ldo2OutputEnable, value: 1 }
    } else if i == 12 {
        ConfigStep { field: Field::Ldo3OutputEnable, value: 1 }
    } else if i == 13 {
        ConfigStep { field: Field::Dcdc2OutputEnable, value: 0 }
    } else if i == 14 {
        ConfigStep { field: Field::ExtenOutputEnable, value: 1 }
    } else if i == 15 {
        // PEK power-on press 512 ms.
        ConfigStep { field: Field::PekPowerOnTime, value: 1 }
    } else if i == 16 {
        // PEK long press 1.5 s.
        ConfigStep { field: Field::PekLongPressTime, value: 1 }
    } else if i == 17 {
        ConfigStep { field: Field::PekAutoShutdownEnable, value: 1 }
    } else if i == 18 {
        // PWROK delay 64 ms.
        ConfigStep { field: Field::PekPwrokDelay, value: 1 }
    } else if i == 19 {
        // PEK shutdown press 6 s.
        ConfigStep { field: Field::PekShutdownTime, value: 1 }
    } else if i == 20 {
        // GPIO0 low-noise LDO at 3.3 V.
        ConfigStep { field: Field::Gpio0LdoVoltageRaw, value: spec_ldo_voltage_code(3300) }
    } else if i == 21 {
        ConfigStep {
            field: Field::Gpio0FunctionSelect,
            value: Gpio0Function::LowNoiseLdoOutput.spec_pattern(),
        }
    } else if i == 22 {
        // VBUS-IPSOUT path forced open.
        ConfigStep { field: Field::VbusPathSelectionOverride, value: 1 }
    } else if i == 23 {
        ConfigStep { field: Field::VholdLimitEnable, value: 0 }
    } else if i == 24 {
        // VHOLD base 4.0 V.
        ConfigStep { field: Field::VholdVoltage, value: 0 }
    } else if i == 25 {
        ConfigStep { field: Field::VbusCurrentLimitEnable, value: 0 }
    } else if i == 26 {
        // 500 mA limit selection, while the limit stays disabled.
        ConfigStep { field: Field::VbusCurrentLimit, value: 0 }
    } else if i == 27 {
        // Suspend charging when the NTC reports 3226 mV or less.
        ConfigStep {
            field: Field::HighTempThresholdRaw,
            value: spec_high_temp_threshold_code(3226),
        }
    } else {
        ConfigStep { field: Field::BackupChargeEnable, value: 1 }
    }
}

/// The fixed configuration sequence the controller applies, in order.
pub open spec fn spec_config_sequence() -> Seq<ConfigStep> {
    Seq::new(29, |i: int| spec_step(i))
}

/// The configuration sequence as a vector, step for step the specified one.
pub fn config_sequence() -> (steps: Vec<ConfigStep>)
    ensures
        steps@ == spec_config_sequence(),
{
    let mut steps: Vec<ConfigStep> = Vec::new();
    steps.push(ConfigStep { field: Field::Ldo2VoltageSetting, value: ldo_voltage_code(3300) });
    steps.push(ConfigStep { field: Field::BatteryCurrentAdcEnable, value: 1 });
    steps.push(ConfigStep { field: Field::AcinVoltageAdcEnable, value: 1 });
    steps.push(ConfigStep { field: Field::AcinCurrentAdcEnable, value: 1 });
    steps.push(ConfigStep { field: Field::VbusVoltageAdcEnable, value: 1 });
    steps.push(ConfigStep { field: Field::VbusCurrentAdcEnable, value: 1 });
    steps.push(ConfigStep { field: Field::ApsVoltageAdcEnable, value: 1 });
    steps.push(
        ConfigStep { field: Field::ChargeTargetVoltage, value: ChargeTargetMv::Mv4200.pattern() },
    );
    steps.push(ConfigStep { field: Field::ChargeCurrent, value: ChargeCurrentMa::Ma100.pattern() });
    steps.push(ConfigStep { field: Field::Dcdc1OutputEnable, value: 1 });
    steps.push(ConfigStep { field: Field::Dcdc3OutputEnable, value: 0 });
    steps.push(ConfigStep { field: Field::Ldo2OutputEnable, value: 1 });
    steps.push(ConfigStep { field: Field::Ldo3OutputEnable, value: 1 });
    steps.push(ConfigStep { field: Field::Dcdc2OutputEnable, value: 0 });
    steps.push(ConfigStep { field: Field::ExtenOutputEnable, value: 1 });
    steps.push(ConfigStep { field: Field::PekPowerOnTime, value: 1 });
    steps.push(ConfigStep { field: Field::PekLongPressTime, value: 1 });
    steps.push(ConfigStep { field: Field::PekAutoShutdownEnable, value: 1 });
    steps.push(ConfigStep { field: Field::PekPwrokDelay, value: 1 });
    steps.push(ConfigStep { field: Field::PekShutdownTime, value: 1 });
    steps.push(ConfigStep { field: Field::Gpio0LdoVoltageRaw, value: ldo_voltage_code(3300) });
    steps.push(
        ConfigStep {
            field: Field::Gpio0FunctionSelect,
            value: Gpio0Function::LowNoiseLdoOutput.pattern(),
        },
    );
    steps.push(ConfigStep { field: Field::VbusPathSelectionOverride, value: 1 });
    steps.push(ConfigStep { field: Field::VholdLimitEnable, value: 0 });
    steps.push(ConfigStep { field: Field::VholdVoltage, value: 0 });
    steps.push(ConfigStep { field: Field::VbusCurrentLimitEnable, value: 0 });
    steps.push(ConfigStep { field: Field::VbusCurrentLimit, value: 0 });
    steps.push(
        ConfigStep { field: Field::HighTempThresholdRaw, value: high_temp_threshold_code(3226) },
    );
    steps.push(ConfigStep { field: Field::BackupChargeEnable, value: 1 });
    proof {
        assert(steps@ =~= spec_config_sequence());
    }
    steps
}

/// Every step of the configuration sequence carries a value its field
/// accepts, so applying the sequence can never report a field error.
pub proof fn lemma_config_sequence_valid()
    ensures
        forall|i: int|
            0 <= i < spec_config_sequence().len() ==> #[trigger] spec_accepts(
                spec_config_sequence()[i].field,
                spec_config_sequence()[i].value,
            ),
{
    assert(crate::fields::spec_low_mask(1) == 1) by (bit_vector);
    assert(crate::fields::spec_low_mask(2) == 3) by (bit_vector);
    assert(crate::fields::spec_low_mask(3) == 7) by (bit_vector);
    assert(crate::fields::spec_low_mask(4) == 15) by (bit_vector);
    assert(crate::fields::spec_low_mask(8) == 255) by (bit_vector);
    assert forall|i: int| 0 <= i < spec_config_sequence().len() implies #[trigger] spec_accepts(
        spec_config_sequence()[i].field,
        spec_config_sequence()[i].value,
    ) by {
        assert(spec_config_sequence()[i] == spec_step(i));
    }
}

/// Whether the log entries `suffix` are exactly the read-modify-write
/// traffic of `steps`, in order: two entries per step, each pair a
/// successful read of the step's register followed by the successful write
/// of the read byte with only the step's field changed.
pub open spec fn spec_applies_sequence(suffix: Seq<Txn>, steps: Seq<ConfigStep>) -> bool {
    &&& suffix.len() == 2 * steps.len()
    &&& forall|j: int|
        0 <= j < steps.len() ==> #[trigger] spec_is_rmw(
            suffix[2 * j],
            suffix[2 * j + 1],
            steps[j].field,
            steps[j].value,
        )
}

/// Apply the configuration sequence to the device on `bus`, in order. The
/// sequence is not transactional: the first transport failure stops it, the
/// error names the failed step, and earlier steps stay applied.
///
/// The history pins the behaviour exactly: on success the bus carried the
/// whole sequence's read-modify-write traffic in sequence order and nothing
/// else; on a failure at step `k` it carried the first `k` steps' traffic,
/// then at most one step's partial traffic ending in the failed transaction
/// on step `k`'s register, whose error is the one named — no failure is
/// swallowed, and no later step touches the bus.
pub fn apply_config_sequence<B: Bus>(bus: &mut B) -> (r: Result<(), Error>)
    ensures
        spec_extends(final(bus).spec_log(), old(bus).spec_log()),
        r is Ok ==> spec_applies_sequence(
            final(bus).spec_log().skip(old(bus).spec_log().len() as int),
            spec_config_sequence(),
        ),
        r matches Err(e) ==> e matches Error::Configuration { step, cause } && step
            < spec_config_sequence().len() && spec_applies_sequence(
            final(bus).spec_log().subrange(
                old(bus).spec_log().len() as int,
                old(bus).spec_log().len() + 2 * (step as int),
            ),
            spec_config_sequence().take(step as int),
        ) && old(bus).spec_log().len() + 2 * (step as int) + 1 <= final(bus).spec_log().len()
            && final(bus).spec_log().len() <= old(bus).spec_log().len() + 2 * (step as int) + 2
            && spec_txn_failed(final(bus).spec_log().last(), cause) && spec_txn_addr(
            final(bus).spec_log().last(),
        ) == spec_config_sequence()[step as int].field.spec_register().spec_address(),
{
    let steps = config_sequence();
    let ghost log0 = bus.spec_log();
    proof {
        assert(log0.skip(log0.len() as int) =~= Seq::<Txn>::empty());
        assert(steps@.take(0) =~= Seq::<ConfigStep>::empty());
        assert(log0.take(log0.len() as int) =~= log0);
    }
    let mut i: usize = 0;
    while i < steps.len()
        invariant
            steps@ == spec_config_sequence(),
            i <= steps@.len(),
            log0 == old(bus).spec_log(),
            spec_extends(bus.spec_log(), log0),
            bus.spec_log().len() == log0.len() + 2 * i,
            spec_applies_sequence(bus.spec_log().skip(log0.len() as int), steps@.take(i as int)),
        decreases steps@.len() - i,
    {
        let step = steps[i];
        let ghost log_pre = bus.spec_log();
        match write_field(bus, step.field, step.value) {
            Ok(()) => {
                proof {
                    lemma_extends_trans(log0, log_pre, bus.spec_log());
                    let log_new = bus.spec_log();
                    let suf = log_new.skip(log0.len() as int);
                    let pre_suf = log_pre.skip(log0.len() as int);
                    assert forall|j: int| 0 <= j < i as int + 1 implies #[trigger] spec_is_rmw(
                        suf[2 * j],
                        suf[2 * j + 1],
                        steps@.take(i as int + 1)[j].field,
                        steps@.take(i as int + 1)[j].value,
                    ) by {
                        if j < i as int {
                            assert(log_new[log0.len() as int + 2 * j] == log_new.take(
                                log_pre.len() as int,
                            )[log0.len() as int + 2 * j]);
                            assert(log_new[log0.len() as int + 2 * j + 1] == log_new.take(
                                log_pre.len() as int,
                            )[log0.len() as int + 2 * j + 1]);
                            assert(spec_is_rmw(
                                pre_suf[2 * j],
                                pre_suf[2 * j + 1],
                                steps@.take(i as int)[j].field,
                                steps@.take(i as int)[j].value,
                            ));
                        } else {
                            assert(suf[2 * j] == log_new[log_pre.len() as int]);
                            assert(suf[2 * j + 1] == log_new[log_pre.len() as int + 1]);
                        }
                    }
                }
            },
            Err(e) => {
                proof {
                    lemma_config_sequence_valid();
                    assert(spec_accepts(
                        spec_config_sequence()[i as int].field,
                        spec_config_sequence()[i as int].value,
                    ));
                    assert(spec_accepts(step.field, step.value));
                }
                match e {
                    Error::Transport(t) => {
                        proof {
                            lemma_extends_trans(log0, log_pre, bus.spec_log());
                            let log_new = bus.spec_log();
                            assert(log_new.subrange(
                                log0.len() as int,
                                log0.len() + 2 * (i as int),
                            ) =~= log_pre.skip(log0.len() as int)) by {
                                assert forall|k: int| 0 <= k < 2 * (i as int) implies #[trigger] log_new[
                                    log0.len() as int + k
                                ] == log_pre[log0.len() as int + k] by {
                                    assert(log_new[log0.len() as int + k] == log_new.take(
                                        log_pre.len() as int,
                                    )[log0.len() as int + k]);
                                }
                            }
                        }
                        return Err(Error::Configuration { step: i, cause: t });
                    },
                    _ => {
                        return unreached();
                    },
                }
            },
        }
        i += 1;
    }
    proof {
        assert(steps@.take(steps@.len() as int) =~= steps@);
    }
    Ok(())
}

/// Whether transaction `t` is a successful read of the battery-voltage ADC
/// pair from which the millivolt value `mv` is derived.
pub open spec fn spec_is_voltage_query(t: Txn, mv: u16) -> bool {
    exists|raw: u16|
        #[trigger] spec_is_adc12_pair_read(t, Register::BatteryVoltageAdc, raw) && raw < 4096
            && mv == spec_battery_millivolts(raw)
}

/// Whether transaction `t` is a successful read of the battery charge
/// current ADC pair from which the milliamp value `ma` is derived.
pub open spec fn spec_is_current_query(t: Txn, ma: u16) -> bool {
    exists|raw: u16|
        #[trigger] spec_is_adc13_pair_read(t, Register::BatteryChargeCurrentAdc, raw)
            && ma == spec_charge_milliamps(raw)
}

/// The PMIC controller: wraps exactly one bus handle; stateless beyond it.
pub struct Controller<B: Bus> {
    bus: B,
}

impl<B: Bus> Controller<B> {
    /// The wrapped bus handle.
    pub closed spec fn spec_bus(self) -> B {
        self.bus
    }

    /// Wrap a bus handle without touching the device.
    pub fn new(bus: B) -> (c: Controller<B>)
        ensures
            c.spec_bus() == bus,
    {
        Controller { bus }
    }

    /// The configure phase: apply the fixed configuration sequence to the
    /// device on `bus` and return the controller around it. On success the
    /// bus provably carried exactly the sequence's read-modify-write traffic
    /// in order; on a transport failure the error names the failed step, no
    /// later step is attempted, and the device is left partially configured
    /// by design — device-level atomicity is not achievable over this bus.
    pub fn configure(bus: B) -> (r: Result<Controller<B>, Error>)
        ensures
            r matches Ok(c) ==> spec_extends(c.spec_bus().spec_log(), bus.spec_log())
                && spec_applies_sequence(
                c.spec_bus().spec_log().skip(bus.spec_log().len() as int),
                spec_config_sequence(),
            ),
            r matches Err(e) ==> e matches Error::Configuration { step, cause: _ } && step
                < spec_config_sequence().len(),
    {
        let mut b = bus;
        match apply_config_sequence(&mut b) {
            Ok(()) => Ok(Controller { bus: b }),
            Err(e) => Err(e),
        }
    }

    /// Battery voltage in millivolts, derived from the 12-bit ADC pair at
    /// 1.1 mV per count. Issues exactly one read transaction — it never
    /// mutates device state — and a bus failure is the one reported.
    pub fn battery_voltage_mv(&mut self) -> (r: Result<u16, Error>)
        ensures
            spec_extends(final(self).spec_bus().spec_log(), old(self).spec_bus().spec_log()),
            final(self).spec_bus().spec_log().len() == old(self).spec_bus().spec_log().len() + 1,
            spec_txn_is_read(final(self).spec_bus().spec_log().last()),
            r matches Ok(mv) ==> mv <= 4504 && spec_is_voltage_query(
                final(self).spec_bus().spec_log().last(),
                mv,
            ),
            r matches Err(e) ==> e matches Error::Transport(t) && spec_txn_failed(
                final(self).spec_bus().spec_log().last(),
                t,
            ),
    {
        match read_adc12_single(&mut self.bus, Register::BatteryVoltageAdc) {
            Ok(raw) => {
                let mv = battery_millivolts_from_raw(raw);
                proof {
                    assert(spec_is_voltage_query(self.bus.spec_log().last(), mv));
                }
                Ok(mv)
            },
            Err(t) => Err(Error::Transport(t)),
        }
    }

    /// Battery charge current in milliamps, derived from the 13-bit ADC pair
    /// at 0.5 mA per count. Issues exactly one read transaction — it never
    /// mutates device state — and a bus failure is the one reported.
    pub fn charge_current_ma(&mut self) -> (r: Result<u16, Error>)
        ensures
            spec_extends(final(self).spec_bus().spec_log(), old(self).spec_bus().spec_log()),
            final(self).spec_bus().spec_log().len() == old(self).spec_bus().spec_log().len() + 1,
            spec_txn_is_read(final(self).spec_bus().spec_log().last()),
            r matches Ok(ma) ==> ma <= 4095 && spec_is_current_query(
                final(self).spec_bus().spec_log().last(),
                ma,
            ),
            r matches Err(e) ==> e matches Error::Transport(t) && spec_txn_failed(
                final(self).spec_bus().spec_log().last(),
                t,
            ),
    {
        match read_adc13(&mut self.bus, Register::BatteryChargeCurrentAdc) {
            Ok(raw) => {
                let ma = charge_milliamps_from_raw(raw);
                proof {
                    assert(spec_is_current_query(self.bus.spec_log().last(), ma));
                }
                Ok(ma)
            },
            Err(t) => Err(Error::Transport(t)),
        }
    }

    /// The query phase: read both ADC pairs and derive the measurement. The
    /// history shows only read transactions — query never mutates device
    /// state and may be called repeatedly; a failure is returned to the
    /// caller and affects nothing else.
    pub fn query(&mut self) -> (r: Result<Measurement, Error>)
        ensures
            spec_extends(final(self).spec_bus().spec_log(), old(self).spec_bus().spec_log()),
            old(self).spec_bus().spec_log().len() + 1 <= final(self).spec_bus().spec_log().len(),
            final(self).spec_bus().spec_log().len() <= old(self).spec_bus().spec_log().len() + 2,
            forall|j: int|
                old(self).spec_bus().spec_log().len() <= j
                    < final(self).spec_bus().spec_log().len() ==> spec_txn_is_read(
                    #[trigger] final(self).spec_bus().spec_log()[j],
                ),
            r matches Ok(m) ==> m.battery_millivolts <= 4504 && m.charge_milliamps <= 4095
                && final(self).spec_bus().spec_log().len()
                == old(self).spec_bus().spec_log().len() + 2 && spec_is_voltage_query(
                final(self).spec_bus().spec_log()[old(self).spec_bus().spec_log().len() as int],
                m.battery_millivolts,
            ) && spec_is_current_query(
                final(self).spec_bus().spec_log().last(),
                m.charge_milliamps,
            ),
            r matches Err(e) ==> e matches Error::Transport(t) && spec_txn_failed(
                final(self).spec_bus().spec_log().last(),
                t,
            ),
    {
        let ghost log0 = self.bus.spec_log();
        let battery_millivolts = match self.battery_voltage_mv() {
            Ok(v) => v,
            Err(e) => {
                return Err(e);
            },
        };
        let ghost log1 = self.bus.spec_log();
        let charge_milliamps = match self.charge_current_ma() {
            Ok(v) => v,
            Err(e) => {
                proof {
                    assert(self.bus.spec_log()[log0.len() as int] == self.bus.spec_log().take(
                        log1.len() as int,
                    )[log0.len() as int]);
                    lemma_extends_trans(log0, log1, self.bus.spec_log());
                }
                return Err(e);
            },
        };
        proof {
            assert(self.bus.spec_log()[log0.len() as int] == self.bus.spec_log().take(
                log1.len() as int,
            )[log0.len() as int]);
            lemma_extends_trans(log0, log1, self.bus.spec_log());
        }
        Ok(Measurement { battery_millivolts, charge_milliamps })
    }

    /// Consume the controller and hand the bus handle back.
    pub fn into_bus(self) -> (bus: B)
        ensures
            bus == self.spec_bus(),
    {
        self.bus
    }
}

} // verus!
