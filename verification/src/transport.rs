//! Register transport: the two-wire bus capability the driver consumes, and
//! the read / write / read-modify-write operations addressed by register.
//!
//! The `Bus` trait carries a specification-level history of every transaction
//! a handle has attempted (`spec_log`). The contracts of the layers above are
//! stated over that history: what traffic a call put on the bus, in what
//! order, and with which outcomes — so that a failure is provably propagated,
//! never swallowed, and a read-only operation provably writes nothing.

use vstd::prelude::*;

use crate::error::{Error, TransportError};
use crate::fields::{
    lemma_field_well_formed, set_field, spec_accepts, spec_field_error, spec_set_field,
};
use crate::regmap::{Field, Register};

verus! {

/// One bus transaction, as specification-level history: the register address
/// it named, what it carried, and its outcome.
pub enum Txn {
    /// A write transaction: the device stores `data` at ascending register
    /// addresses from `addr`, or reports the failure.
    Write { addr: u8, data: Seq<u8>, result: Result<(), TransportError> },
    /// A combined write-then-read transaction of `len` bytes from ascending
    /// register addresses: the bytes returned, or the failure. A read stores
    /// nothing on the device.
    Read { addr: u8, len: nat, reply: Result<Seq<u8>, TransportError> },
}

/// The history image of a read's outcome: the bytes it returned, or its error.
pub open spec fn spec_read_outcome(r: Result<Vec<u8>, TransportError>) -> Result<
    Seq<u8>,
    TransportError,
> {
    match r {
        Ok(bytes) => Ok(bytes@),
        Err(e) => Err(e),
    }
}

/// The history image of a one-byte read's outcome.
pub open spec fn spec_byte_outcome(r: Result<u8, TransportError>) -> Result<
    Seq<u8>,
    TransportError,
> {
    match r {
        Ok(b) => Ok(seq![b]),
        Err(e) => Err(e),
    }
}

/// Whether `new_log` is `prior` with zero or more transactions appended: bus
/// history only ever grows.
pub open spec fn spec_extends(new_log: Seq<Txn>, prior: Seq<Txn>) -> bool {
    &&& prior.len() <= new_log.len()
    &&& new_log.take(prior.len() as int) == prior
}

/// Whether transaction `t` failed, reporting `e`.
pub open spec fn spec_txn_failed(t: Txn, e: TransportError) -> bool {
    match t {
        Txn::Write { result, .. } => result == Err::<(), TransportError>(e),
        Txn::Read { reply, .. } => reply == Err::<Seq<u8>, TransportError>(e),
    }
}

/// Whether transaction `t` succeeded.
pub open spec fn spec_txn_ok(t: Txn) -> bool {
    match t {
        Txn::Write { result, .. } => result is Ok,
        Txn::Read { reply, .. } => reply is Ok,
    }
}

/// Whether `t` is a read transaction (a read stores nothing on the device).
pub open spec fn spec_txn_is_read(t: Txn) -> bool {
    t is Read
}

/// The register address transaction `t` named.
pub open spec fn spec_txn_addr(t: Txn) -> u8 {
    match t {
        Txn::Write { addr, .. } => addr,
        Txn::Read { addr, .. } => addr,
    }
}

/// Whether `t_read` followed by `t_write` is the successful read-modify-write
/// of field `f` to value `x`: a one-byte read of `f`'s register returning
/// some byte, then a write of exactly that byte with `f` set to `x` — every
/// bit outside `f`'s span written back as it was read.
pub open spec fn spec_is_rmw(t_read: Txn, t_write: Txn, f: Field, x: u8) -> bool {
    &&& t_read matches Txn::Read { addr, len, reply: rr }
    &&& addr == f.spec_register().spec_address()
    &&& len == 1
    &&& rr matches Ok(bytes)
    &&& bytes.len() == 1
    &&& t_write matches Txn::Write { addr: write_addr, data, result }
    &&& write_addr == f.spec_register().spec_address()
    &&& data == seq![spec_set_field(bytes[0], f, x)]
    &&& result is Ok
}

/// Extension of bus history is transitive.
pub proof fn lemma_extends_trans(a: Seq<Txn>, b: Seq<Txn>, c: Seq<Txn>)
    requires
        spec_extends(b, a),
        spec_extends(c, b),
    ensures
        spec_extends(c, a),
{
    assert forall|j: int| 0 <= j < a.len() implies c.take(a.len() as int)[j] == a[j] by {
        assert(b[j] == b.take(a.len() as int)[j]);
        assert(c[j] == c.take(b.len() as int)[j]);
    }
    assert(c.take(a.len() as int) =~= a);
}

/// The blocking two-wire bus capability this driver consumes, supplied by the
/// platform layer. Each call issues exactly one transaction against the
/// device at its fixed bus address, appends that transaction to the history,
/// and reports success or the bus failure. Any failure is propagated to the
/// caller, never retried here.
pub trait Bus {
    /// The history of transactions this handle has attempted, oldest first.
    spec fn spec_log(&self) -> Seq<Txn>;

    /// One write transaction: the register address, then `data`, which the
    /// device stores at ascending register addresses (auto-increment).
    fn bus_write(&mut self, reg_addr: u8, data: &[u8]) -> (r: Result<(), TransportError>)
        ensures
            final(self).spec_log() == old(self).spec_log().push(
                (Txn::Write { addr: reg_addr, data: data@, result: r }),
            ),
    ;

    /// One combined write-then-read transaction: the register address, then a
    /// read of `len` bytes from ascending register addresses (auto-increment).
    fn bus_write_read(&mut self, reg_addr: u8, len: usize) -> (r: Result<
        Vec<u8>,
        TransportError,
    >)
        ensures
            r matches Ok(bytes) ==> bytes@.len() == len,
            final(self).spec_log() == old(self).spec_log().push(
                (Txn::Read { addr: reg_addr, len: len as nat, reply: spec_read_outcome(r) }),
            ),
    ;
}

/// Read a register: one transaction returning its declared byte width, in
/// ascending address order.
pub fn read_register<B: Bus>(bus: &mut B, reg: Register) -> (r: Result<Vec<u8>, TransportError>)
    ensures
        r matches Ok(bytes) ==> bytes@.len() == reg.spec_width(),
        final(bus).spec_log() == old(bus).spec_log().push(
            (Txn::Read {
                addr: reg.spec_address(),
                len: reg.spec_width() as nat,
                reply: spec_read_outcome(r),
            }),
        ),
{
    bus.bus_write_read(reg.address(), reg.width() as usize)
}

/// Read a one-byte register.
pub fn read_register_byte<B: Bus>(bus: &mut B, reg: Register) -> (r: Result<u8, TransportError>)
    requires
        reg.spec_width() == 1,
    ensures
        final(bus).spec_log() == old(bus).spec_log().push(
            (Txn::Read { addr: reg.spec_address(), len: 1, reply: spec_byte_outcome(r) }),
        ),
{
    match read_register(bus, reg) {
        Ok(bytes) => {
            let b = bytes[0];
            proof {
                assert(bytes@ =~= seq![b]);
            }
            Ok(b)
        },
        Err(e) => Err(e),
    }
}

/// Write a one-byte register in a single transaction.
pub fn write_register_byte<B: Bus>(bus: &mut B, reg: Register, value: u8) -> (r: Result<
    (),
    TransportError,
>)
    requires
        reg.spec_width() == 1,
    ensures
        final(bus).spec_log() == old(bus).spec_log().push(
            (Txn::Write { addr: reg.spec_address(), data: seq![value], result: r }),
        ),
{
    let mut data: Vec<u8> = Vec::new();
    data.push(value);
    proof {
        assert(data@ =~= seq![value]);
    }
    bus.bus_write(reg.address(), data.as_slice())
}

/// Read-modify-write of one field: read the field's register, set the field
/// to `x`, write the byte back. Not atomic with respect to any other accessor
/// of the same register; no locking is assumed at this layer.
///
/// The history states exactly what happened on the bus: on success, one
/// successful read of the field's register followed by one successful write
/// of the read byte with only the field's span changed; on a transport
/// failure, the failed transaction is the last entry, its error is the one
/// reported, and nothing further was attempted; a value the field rejects is
/// reported as the field's error after the read, and nothing is written.
pub fn write_field<B: Bus>(bus: &mut B, f: Field, x: u8) -> (r: Result<(), Error>)
    ensures
        !spec_accepts(f, x) ==> r is Err,
        r matches Err(e) ==> (e matches Error::Transport(_) || (!spec_accepts(f, x) && e
            == spec_field_error(f))),
        spec_extends(final(bus).spec_log(), old(bus).spec_log()),
        r is Ok ==> final(bus).spec_log().len() == old(bus).spec_log().len() + 2
            && spec_is_rmw(
            final(bus).spec_log()[old(bus).spec_log().len() as int],
            final(bus).spec_log()[old(bus).spec_log().len() as int + 1],
            f,
            x,
        ),
        r matches Err(e) ==> (e matches Error::Transport(t) ==> old(bus).spec_log().len() + 1
            <= final(bus).spec_log().len() <= old(bus).spec_log().len() + 2 && spec_txn_failed(
            final(bus).spec_log().last(),
            t,
        ) && spec_txn_addr(final(bus).spec_log().last()) == f.spec_register().spec_address() && (
        final(bus).spec_log().len() == old(bus).spec_log().len() + 2 ==> spec_txn_ok(
            final(bus).spec_log()[old(bus).spec_log().len() as int],
        ) && spec_txn_is_read(final(bus).spec_log()[old(bus).spec_log().len() as int]))),
        r matches Err(e) ==> (e == spec_field_error(f) ==> final(bus).spec_log().len() == old(
            bus,
        ).spec_log().len() + 1 && spec_txn_ok(final(bus).spec_log().last()) && spec_txn_is_read(
            final(bus).spec_log().last(),
        )),
{
    proof {
        lemma_field_well_formed(f);
    }
    let ghost log0 = bus.spec_log();
    let reg = f.register();
    let current = match read_register_byte(bus, reg) {
        Ok(b) => b,
        Err(t) => {
            proof {
                assert(bus.spec_log().take(log0.len() as int) =~= log0);
            }
            return Err(Error::Transport(t));
        },
    };
    let updated = match set_field(current, f, x) {
        Ok(w) => w,
        Err(e) => {
            proof {
                assert(bus.spec_log().take(log0.len() as int) =~= log0);
            }
            return Err(e);
        },
    };
    let wres = write_register_byte(bus, reg, updated);
    proof {
        assert(bus.spec_log().take(log0.len() as int) =~= log0);
        assert(bus.spec_log()[log0.len() as int] == (Txn::Read {
            addr: reg.spec_address(),
            len: 1 as nat,
            reply: Ok::<Seq<u8>, TransportError>(seq![current]),
        }));
        assert(bus.spec_log()[log0.len() as int + 1] == (Txn::Write {
            addr: reg.spec_address(),
            data: seq![updated],
            result: wres,
        }));
        assert(seq![current][0] == current);
    }
    match wres {
        Ok(()) => {
            proof {
                assert(spec_is_rmw(
                    bus.spec_log()[log0.len() as int],
                    bus.spec_log()[log0.len() as int + 1],
                    f,
                    x,
                ));
            }
            Ok(())
        },
        Err(t) => Err(Error::Transport(t)),
    }
}

} // verus!
