//! Checks of the controller: the fixed configuration sequence, its effect on
//! a simulated device, failure reporting, and the measurement queries.

use axp_pmic::controller::{config_sequence, Controller};
use axp_pmic::error::{Error, TransportError};
use axp_pmic::fields::set_field;
use axp_pmic::regmap::Field;
use axp_pmic::sim::SimBus;

/// The register file a zeroed device holds after the first `n` steps of the
/// configuration sequence.
fn expected_memory_after(n: usize) -> [u8; 256] {
    let mut mem = [0u8; 256];
    for step in config_sequence().iter().take(n) {
        let addr = step.field.register().address() as usize;
        mem[addr] = set_field(mem[addr], step.field, step.value).unwrap();
    }
    mem
}

fn assert_memory(bus: &SimBus, expected: &[u8; 256]) {
    for addr in 0u16..=255 {
        let addr = addr as u8;
        assert_eq!(
            bus.peek(addr),
            expected[addr as usize],
            "register {addr:#04x}"
        );
    }
}

#[test]
fn test_config_sequence_contents() {
    let steps = config_sequence();
    assert_eq!(steps.len(), 29);
    assert_eq!(steps[0].field, Field::Ldo2VoltageSetting);
    assert_eq!(steps[0].value, 15); // 3300 mV
    assert_eq!(steps[7].field, Field::ChargeTargetVoltage);
    assert_eq!(steps[7].value, 2); // 4.20 V
    assert_eq!(steps[8].field, Field::ChargeCurrent);
    assert_eq!(steps[8].value, 0); // 100 mA
    assert_eq!(steps[15].field, Field::PekPowerOnTime);
    assert_eq!(steps[15].value, 1); // 512 ms
    assert_eq!(steps[21].field, Field::Gpio0FunctionSelect);
    assert_eq!(steps[21].value, 2); // low-noise LDO output
    assert_eq!(steps[22].field, Field::VbusPathSelectionOverride);
    assert_eq!(steps[22].value, 1); // path forced open
    assert_eq!(steps[27].field, Field::HighTempThresholdRaw);
    assert_eq!(steps[27].value, 252); // 3226 mV
    assert_eq!(steps[28].field, Field::BackupChargeEnable);
    assert_eq!(steps[28].value, 1);
}

#[test]
fn test_configure_writes_expected_registers() {
    let controller = Controller::configure(SimBus::new()).unwrap();
    let bus = controller.into_bus();
    // Every register the sequence touches holds its configured value.
    assert_eq!(bus.peek(0x28), 0xF0); // LDO2 code 15 in the high nibble
    assert_eq!(bus.peek(0x82), 0x7E); // six ADC channel enables
    assert_eq!(bus.peek(0x33), 0x40); // target 4.20 V, charge current code 0
    assert_eq!(bus.peek(0x12), 0x4D); // DC-DC1, LDO2, LDO3, EXTEN on
    assert_eq!(bus.peek(0x36), 0x5D); // PEK timing, the documented default
    assert_eq!(bus.peek(0x91), 0xF0); // GPIO0 LDO code 15 in the high nibble
    assert_eq!(bus.peek(0x90), 0x02); // GPIO0 as low-noise LDO output
    assert_eq!(bus.peek(0x30), 0x80); // VBUS path forced open, no limits
    assert_eq!(bus.peek(0x39), 0xFC); // high-temperature threshold code 252
    assert_eq!(bus.peek(0x35), 0x80); // backup battery charging on
    // And the full register file matches the sequence applied step by step.
    assert_memory(&bus, &expected_memory_after(config_sequence().len()));
}

#[test]
fn test_configure_nack_identifies_each_step() {
    // Each step is one read and one write transaction. Whichever of the two
    // fails, the error names that step, and no later step runs.
    let n = config_sequence().len();
    for step_k in 0usize..n {
        for failing_txn in [2 * step_k, 2 * step_k + 1] {
            match Controller::configure(SimBus::new_failing(failing_txn, TransportError::Nack)) {
                Ok(_) => panic!("configure succeeded with a failing transaction"),
                Err(Error::Configuration { step, cause }) => {
                    assert_eq!(step, step_k, "failing transaction {failing_txn}");
                    assert_eq!(cause, TransportError::Nack);
                }
                Err(e) => panic!("unexpected error {e:?}"),
            }
        }
        // The device holds exactly the state the earlier steps left behind:
        // a failure on step k's read leaves k applied steps.
        let mut bus = SimBus::new_failing(2 * step_k, TransportError::Nack);
        assert!(axp_pmic::controller::apply_config_sequence(&mut bus).is_err());
        assert_memory(&bus, &expected_memory_after(step_k));
        // A failure on step k's write also leaves only the earlier steps.
        let mut bus = SimBus::new_failing(2 * step_k + 1, TransportError::Nack);
        assert!(axp_pmic::controller::apply_config_sequence(&mut bus).is_err());
        assert_memory(&bus, &expected_memory_after(step_k));
    }
}

#[test]
fn test_configure_succeeds_after_last_step() {
    // Each step makes two transactions; a failure injected after them all is
    // never hit.
    let n = config_sequence().len();
    let controller = Controller::configure(SimBus::new_failing(2 * n, TransportError::Nack));
    assert!(controller.is_ok());
}

#[test]
fn test_configure_reports_each_transport_error() {
    for cause_in in [
        TransportError::Nack,
        TransportError::ArbitrationLoss,
        TransportError::Timeout,
    ] {
        match Controller::configure(SimBus::new_failing(4, cause_in)) {
            Err(Error::Configuration { step, cause }) => {
                assert_eq!(step, 2);
                assert_eq!(cause, cause_in);
            }
            Err(e) => panic!("unexpected error {e:?}"),
            Ok(_) => panic!("configure succeeded with a failing transaction"),
        }
    }
}

#[test]
fn test_query_measurement() {
    let mut bus = SimBus::new();
    bus.poke(0x78, 0x0A);
    bus.poke(0x79, 0x05);
    bus.poke(0x7A, 0x01);
    bus.poke(0x7B, 0x02);
    let mut controller = Controller::new(bus);
    let m = controller.query().unwrap();
    assert_eq!(m.battery_millivolts, 181);
    assert_eq!(m.charge_milliamps, 17);
    // Query never mutates device state and may be called repeatedly.
    let again = controller.query().unwrap();
    assert_eq!(again, m);
    assert_eq!(controller.battery_voltage_mv(), Ok(181));
    assert_eq!(controller.charge_current_ma(), Ok(17));
}

#[test]
fn test_query_transport_error() {
    let mut controller = Controller::new(SimBus::new_failing(0, TransportError::Timeout));
    assert_eq!(
        controller.battery_voltage_mv(),
        Err(Error::Transport(TransportError::Timeout))
    );
    // The failure was consumed; the next query works again.
    assert_eq!(controller.battery_voltage_mv(), Ok(0));
}
