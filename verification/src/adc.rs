//! ADC code reconstruction and derived physical units.
//!
//! The device splits each ADC code over two registers, a high byte and a low
//! byte holding the remaining bits. Both access strategies — one two-byte
//! auto-increment read, or two single-byte reads — must reconstruct the same
//! composite value; the agreement is proved here for every byte pair.

use vstd::prelude::*;

use crate::error::TransportError;
use crate::regmap::Register;
use crate::transport::{
    read_register, spec_extends, spec_txn_failed, spec_txn_is_read, Bus, Txn,
};

verus! {

/// A derived measurement: battery voltage in millivolts and battery charge
/// current in milliamps, recomputed from raw ADC codes on each query.
#[derive(Clone, Copy, Debug, PartialEq, Eq, Structural)]
pub struct Measurement {
    pub battery_millivolts: u16,
    pub charge_milliamps: u16,
}

/// Composite 12-bit ADC code from its high byte (code bits 11..4) and low
/// byte (low four bits): `(high << 4) | (low & 0x0F)`.
pub open spec fn spec_adc12(high: u8, low: u8) -> u16 {
    ((high as u16) << 4) | ((low & 0x0F) as u16)
}

/// The same composite value derived arithmetically: the high byte scaled by
/// sixteen plus the low byte's low four bits.
pub open spec fn spec_adc12_arith(high: u8, low: u8) -> u16 {
    (((high as u16) * 16 + (low as u16) % 16) as u16)
}

/// Composite 13-bit ADC code from its high byte (code bits 12..5) and low
/// byte (low five bits): `(high << 5) | (low & 0x1F)`.
pub open spec fn spec_adc13(high: u8, low: u8) -> u16 {
    ((high as u16) << 5) | ((low & 0x1F) as u16)
}

/// Battery voltage in millivolts from a 12-bit ADC code: 1.1 mV per count,
/// in integer arithmetic.
pub open spec fn spec_battery_millivolts(raw: u16) -> u16
    recommends
        raw < 4096,
{
    (((raw * 11) / 10) as u16)
}

/// Battery charge current in milliamps from a 13-bit ADC code: 0.5 mA per
/// count, in integer arithmetic.
pub open spec fn spec_charge_milliamps(raw: u16) -> u16 {
    raw / 2
}

/// The two reconstruction strategies agree: for every raw byte pair the
/// bitwise composite equals the arithmetic composite, the value is a 12-bit
/// code, and the derived millivolt results are identical.
pub proof fn lemma_adc12_strategies_agree(high: u8, low: u8)
    ensures
        spec_adc12(high, low) == spec_adc12_arith(high, low),
        spec_adc12(high, low) < 4096,
        spec_battery_millivolts(spec_adc12(high, low)) == spec_battery_millivolts(
            spec_adc12_arith(high, low),
        ),
{
    assert((((high as u16) << 4) | ((low & 0x0F) as u16)) == (((high as u16) * 16 + (low
        as u16) % 16) as u16)) by (bit_vector);
    assert((((high as u16) << 4) | ((low & 0x0F) as u16)) < 4096) by (bit_vector);
}

/// Combine a 12-bit code from its two register bytes, bitwise.
pub fn combine_adc12(high: u8, low: u8) -> (raw: u16)
    ensures
        raw == spec_adc12(high, low),
        raw < 4096,
{
    proof {
        lemma_adc12_strategies_agree(high, low);
    }
    ((high as u16) << 4) | ((low & 0x0F) as u16)
}

/// Combine a 12-bit code from its two register bytes, arithmetically; agrees
/// with `combine_adc12` on every byte pair.
pub fn combine_adc12_arith(high: u8, low: u8) -> (raw: u16)
    ensures
        raw == spec_adc12(high, low),
        raw < 4096,
{
    proof {
        lemma_adc12_strategies_agree(high, low);
    }
    (high as u16) * 16 + ((low % 16) as u16)
}

/// Combine a 13-bit code from its two register bytes.
pub fn combine_adc13(high: u8, low: u8) -> (raw: u16)
    ensures
        raw == spec_adc13(high, low),
        raw < 8192,
{
    proof {
        assert((((high as u16) << 5) | ((low & 0x1F) as u16)) < 8192) by (bit_vector);
    }
    ((high as u16) << 5) | ((low & 0x1F) as u16)
}

/// Battery voltage in millivolts from a 12-bit ADC code.
pub fn battery_millivolts_from_raw(raw: u16) -> (mv: u16)
    requires
        raw < 4096,
    ensures
        mv == spec_battery_millivolts(raw),
        mv <= 4504,
{
    (raw * 11) / 10
}

/// Battery charge current in milliamps from a 13-bit ADC code.
pub fn charge_milliamps_from_raw(raw: u16) -> (ma: u16)
    requires
        raw < 8192,
    ensures
        ma == spec_charge_milliamps(raw),
        ma <= 4095,
{
    raw / 2
}

/// Whether transaction `t` is a successful two-byte auto-increment read of
/// register `reg` whose bytes reconstruct to the 12-bit code `raw`.
pub open spec fn spec_is_adc12_pair_read(t: Txn, reg: Register, raw: u16) -> bool {
    &&& t matches Txn::Read { addr, len, reply: rr }
    &&& addr == reg.spec_address()
    &&& len == 2
    &&& rr matches Ok(bytes)
    &&& bytes.len() == 2
    &&& raw == spec_adc12(bytes[0], bytes[1])
}

/// Whether transaction `t` is a successful two-byte auto-increment read of
/// register `reg` whose bytes reconstruct to the 13-bit code `raw`.
pub open spec fn spec_is_adc13_pair_read(t: Txn, reg: Register, raw: u16) -> bool {
    &&& t matches Txn::Read { addr, len, reply: rr }
    &&& addr == reg.spec_address()
    &&& len == 2
    &&& rr matches Ok(bytes)
    &&& bytes.len() == 2
    &&& raw == spec_adc13(bytes[0], bytes[1])
}

/// Whether `t_high` and `t_low` are successful one-byte reads of register
/// `reg`'s two bytes whose contents reconstruct to the 12-bit code `raw`.
pub open spec fn spec_is_adc12_split_read(t_high: Txn, t_low: Txn, reg: Register, raw: u16) -> bool {
    &&& t_high matches Txn::Read { addr, len, reply: rh }
    &&& addr == reg.spec_address()
    &&& len == 1
    &&& rh matches Ok(hb)
    &&& hb.len() == 1
    &&& t_low matches Txn::Read { addr: addr_low, len: len_low, reply: rl }
    &&& addr_low == reg.spec_address() + 1
    &&& len_low == 1
    &&& rl matches Ok(lb)
    &&& lb.len() == 1
    &&& raw == spec_adc12(hb[0], lb[0])
}

/// One-transaction strategy: read both bytes of a 12-bit ADC pair in a single
/// auto-increment transaction, then combine them. Issues exactly one read,
/// whose failure is the one reported.
pub fn read_adc12_single<B: Bus>(bus: &mut B, reg: Register) -> (r: Result<u16, TransportError>)
    requires
        reg.spec_width() == 2,
    ensures
        spec_extends(final(bus).spec_log(), old(bus).spec_log()),
        final(bus).spec_log().len() == old(bus).spec_log().len() + 1,
        spec_txn_is_read(final(bus).spec_log().last()),
        r matches Ok(raw) ==> raw < 4096 && spec_is_adc12_pair_read(
            final(bus).spec_log().last(),
            reg,
            raw,
        ),
        r matches Err(e) ==> spec_txn_failed(final(bus).spec_log().last(), e),
{
    let ghost log0 = bus.spec_log();
    let out = match read_register(bus, reg) {
        Ok(bytes) => Ok(combine_adc12(bytes[0], bytes[1])),
        Err(e) => Err(e),
    };
    proof {
        assert(bus.spec_log().take(log0.len() as int) =~= log0);
    }
    out
}

/// Two-transaction strategy: read the high and low bytes of a 12-bit ADC pair
/// in separate single-byte transactions, then combine them. Issues only
/// reads, at most two, and a failure is the one reported.
pub fn read_adc12_split<B: Bus>(bus: &mut B, reg: Register) -> (r: Result<u16, TransportError>)
    requires
        reg.spec_width() == 2,
    ensures
        spec_extends(final(bus).spec_log(), old(bus).spec_log()),
        old(bus).spec_log().len() + 1 <= final(bus).spec_log().len(),
        final(bus).spec_log().len() <= old(bus).spec_log().len() + 2,
        forall|j: int|
            old(bus).spec_log().len() <= j < final(bus).spec_log().len() ==> spec_txn_is_read(
                #[trigger] final(bus).spec_log()[j],
            ),
        r matches Ok(raw) ==> raw < 4096 && final(bus).spec_log().len() == old(
            bus,
        ).spec_log().len() + 2 && spec_is_adc12_split_read(
            final(bus).spec_log()[old(bus).spec_log().len() as int],
            final(bus).spec_log()[old(bus).spec_log().len() as int + 1],
            reg,
            raw,
        ),
        r matches Err(e) ==> spec_txn_failed(final(bus).spec_log().last(), e),
{
    let ghost log0 = bus.spec_log();
    let high = match bus.bus_write_read(reg.address(), 1) {
        Ok(bytes) => bytes[0],
        Err(e) => {
            proof {
                assert(bus.spec_log().take(log0.len() as int) =~= log0);
            }
            return Err(e);
        },
    };
    let low = match bus.bus_write_read(reg.address() + 1, 1) {
        Ok(bytes) => bytes[0],
        Err(e) => {
            proof {
                assert(bus.spec_log().take(log0.len() as int) =~= log0);
            }
            return Err(e);
        },
    };
    proof {
        assert(bus.spec_log().take(log0.len() as int) =~= log0);
    }
    Ok(combine_adc12_arith(high, low))
}

/// One-transaction read of a 13-bit ADC pair. Issues exactly one read, whose
/// failure is the one reported.
pub fn read_adc13<B: Bus>(bus: &mut B, reg: Register) -> (r: Result<u16, TransportError>)
    requires
        reg.spec_width() == 2,
    ensures
        spec_extends(final(bus).spec_log(), old(bus).spec_log()),
        final(bus).spec_log().len() == old(bus).spec_log().len() + 1,
        spec_txn_is_read(final(bus).spec_log().last()),
        r matches Ok(raw) ==> raw < 8192 && spec_is_adc13_pair_read(
            final(bus).spec_log().last(),
            reg,
            raw,
        ),
        r matches Err(e) ==> spec_txn_failed(final(bus).spec_log().last(), e),
{
    let ghost log0 = bus.spec_log();
    let out = match read_register(bus, reg) {
        Ok(bytes) => Ok(combine_adc13(bytes[0], bytes[1])),
        Err(e) => Err(e),
    };
    proof {
        assert(bus.spec_log().take(log0.len() as int) =~= log0);
    }
    out
}

} // verus!
