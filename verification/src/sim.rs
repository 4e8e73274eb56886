//! An in-memory register file standing in for the physical device: writes
//! store bytes, reads return them, auto-increment wraps at the end of the
//! address space, and a chosen transaction can be made to fail. This is the
//! mock device the controller's error paths are exercised against.

use vstd::prelude::*;

use crate::error::TransportError;
use crate::transport::{Bus, Txn};

verus! {

/// The register address after `addr`, wrapping at the end of the space.
pub open spec fn spec_next_addr(addr: u8) -> u8 {
    if addr == 255 {
        0
    } else {
        (addr + 1) as u8
    }
}

/// `mem` after the bytes of `data` are stored at ascending addresses
/// starting at `addr`.
pub open spec fn spec_write_bytes(mem: Seq<u8>, addr: u8, data: Seq<u8>) -> Seq<u8>
    decreases data.len(),
{
    if data.len() == 0 {
        mem
    } else {
        spec_write_bytes(mem.update(addr as int, data[0]), spec_next_addr(addr), data.skip(1))
    }
}

/// The `len` bytes stored at ascending addresses starting at `addr`.
pub open spec fn spec_read_bytes(mem: Seq<u8>, addr: u8, len: nat) -> Seq<u8>
    decreases len,
{
    if len == 0 {
        Seq::empty()
    } else {
        seq![mem[addr as int]] + spec_read_bytes(mem, spec_next_addr(addr), (len - 1) as nat)
    }
}

/// The pending-failure countdown after one transaction: a count of zero fires
/// and clears, a positive count comes one transaction closer.
pub open spec fn spec_tick(fail_in: Option<usize>) -> Option<usize> {
    match fail_in {
        Some(k) => if k == 0 {
            None
        } else {
            Some((k - 1) as usize)
        },
        None => None,
    }
}

/// The simulated device: one byte per register address, plus an optional
/// injected failure that makes exactly one transaction report an error.
pub struct SimBus {
    mem: Vec<u8>,
    fail_in: Option<usize>,
    fail_with: TransportError,
    log: Ghost<Seq<Txn>>,
}

impl SimBus {
    /// The register file holds one byte per address.
    #[verifier::type_invariant]
    pub closed spec fn wf(self) -> bool {
        self.mem@.len() == 256
    }

    /// The stored register bytes, one per address.
    pub closed spec fn spec_mem(self) -> Seq<u8> {
        self.mem@
    }

    /// How many successful transactions precede the injected failure, if one
    /// is pending.
    pub closed spec fn spec_fail_in(self) -> Option<usize> {
        self.fail_in
    }

    /// The error the injected failure reports.
    pub closed spec fn spec_fail_with(self) -> TransportError {
        self.fail_with
    }

    /// Whether the next transaction is the one made to fail.
    pub open spec fn spec_fails_next(self) -> bool {
        self.spec_fail_in() == Some(0usize)
    }

    /// A device with every register byte zero and no failure injected.
    pub fn new() -> (s: SimBus)
        ensures
            s.spec_mem() == Seq::new(256, |i: int| 0u8),
            s.spec_fail_in() is None,
            s.spec_log() == Seq::<Txn>::empty(),
    {
        let s = SimBus {
            mem: zero_mem(),
            fail_in: None,
            fail_with: TransportError::Nack,
            log: Ghost(Seq::empty()),
        };
        proof {
            assert(s.spec_mem() =~= Seq::new(256, |i: int| 0u8));
        }
        s
    }

    /// A device whose transaction number `txn` (counting from zero) fails
    /// with `err`; every other transaction succeeds.
    pub fn new_failing(txn: usize, err: TransportError) -> (s: SimBus)
        ensures
            s.spec_mem() == Seq::new(256, |i: int| 0u8),
            s.spec_fail_in() == Some(txn),
            s.spec_fail_with() == err,
            s.spec_log() == Seq::<Txn>::empty(),
    {
        let s = SimBus {
            mem: zero_mem(),
            fail_in: Some(txn),
            fail_with: err,
            log: Ghost(Seq::empty()),
        };
        proof {
            assert(s.spec_mem() =~= Seq::new(256, |i: int| 0u8));
        }
        s
    }

    /// The byte stored at a register address.
    pub fn peek(&self, addr: u8) -> (b: u8)
        ensures
            b == self.spec_mem()[addr as int],
    {
        proof {
            use_type_invariant(self);
        }
        self.mem[addr as usize]
    }

    /// Store a byte at a register address, outside any bus transaction (for
    /// arranging a device state, e.g. an ADC reading).
    pub fn poke(&mut self, addr: u8, value: u8)
        ensures
            final(self).spec_mem() == old(self).spec_mem().update(addr as int, value),
            final(self).spec_fail_in() == old(self).spec_fail_in(),
            final(self).spec_fail_with() == old(self).spec_fail_with(),
            final(self).spec_log() == old(self).spec_log(),
    {
        proof {
            use_type_invariant(&*self);
        }
        self.mem[addr as usize] = value;
    }

    /// One write transaction: fails if and only if the injected failure is
    /// due, and otherwise stores `data` at ascending addresses from
    /// `reg_addr`. Nothing is stored on failure.
    pub fn sim_write(&mut self, reg_addr: u8, data: &[u8]) -> (r: Result<(), TransportError>)
        ensures
            r is Err <==> old(self).spec_fails_next(),
            r matches Err(e) ==> e == old(self).spec_fail_with(),
            r is Err ==> final(self).spec_mem() == old(self).spec_mem(),
            r is Ok ==> final(self).spec_mem() == spec_write_bytes(
                old(self).spec_mem(),
                reg_addr,
                data@,
            ),
            final(self).spec_fail_in() == spec_tick(old(self).spec_fail_in()),
            final(self).spec_fail_with() == old(self).spec_fail_with(),
            final(self).spec_log() == old(self).spec_log().push(
                (Txn::Write { addr: reg_addr, data: data@, result: r }),
            ),
    {
        proof {
            use_type_invariant(&*self);
        }
        let fails = match self.fail_in {
            Some(k) => k == 0,
            None => false,
        };
        self.fail_in = match self.fail_in {
            Some(k) => if k == 0 {
                None
            } else {
                Some(k - 1)
            },
            None => None,
        };
        if fails {
            let e = self.fail_with;
            self.log = Ghost(self.log@.push(
                Txn::Write { addr: reg_addr, data: data@, result: Err(e) },
            ));
            return Err(e);
        }
        let ghost mem0 = self.mem@;
        let ghost fi0 = self.fail_in;
        let ghost fw0 = self.fail_with;
        let ghost lg0 = self.log@;
        proof {
            assert(data@.skip(0) =~= data@);
        }
        let mut i: usize = 0;
        let mut cur: u8 = reg_addr;
        while i < data.len()
            invariant
                self.mem@.len() == 256,
                self.fail_in == fi0,
                self.fail_with == fw0,
                self.log@ == lg0,
                i <= data@.len(),
                spec_write_bytes(mem0, reg_addr, data@) == spec_write_bytes(
                    self.mem@,
                    cur,
                    data@.skip(i as int),
                ),
            decreases data@.len() - i,
        {
            let ghost before = self.mem@;
            let b = data[i];
            self.mem[cur as usize] = b;
            proof {
                assert(data@.skip(i as int)[0] == data@[i as int]);
                assert(data@.skip(i as int).skip(1) =~= data@.skip(i as int + 1));
                assert(spec_write_bytes(before, cur, data@.skip(i as int)) == spec_write_bytes(
                    self.mem@,
                    spec_next_addr(cur),
                    data@.skip(i as int + 1),
                ));
            }
            cur = if cur == 255 {
                0
            } else {
                cur + 1
            };
            i += 1;
        }
        proof {
            assert(data@.skip(i as int) =~= Seq::<u8>::empty());
        }
        self.log = Ghost(self.log@.push(
            Txn::Write { addr: reg_addr, data: data@, result: Ok(()) },
        ));
        Ok(())
    }

    /// One combined write-then-read transaction: fails if and only if the
    /// injected failure is due, and otherwise returns the `len` bytes stored
    /// at ascending addresses from `reg_addr`. The register file is never
    /// changed by a read.
    pub fn sim_read(&mut self, reg_addr: u8, len: usize) -> (r: Result<Vec<u8>, TransportError>)
        ensures
            r is Err <==> old(self).spec_fails_next(),
            r matches Err(e) ==> e == old(self).spec_fail_with(),
            r matches Ok(bytes) ==> bytes@ == spec_read_bytes(
                old(self).spec_mem(),
                reg_addr,
                len as nat,
            ),
            r matches Ok(bytes) ==> bytes@.len() == len,
            final(self).spec_mem() == old(self).spec_mem(),
            final(self).spec_fail_in() == spec_tick(old(self).spec_fail_in()),
            final(self).spec_fail_with() == old(self).spec_fail_with(),
            r matches Ok(bytes) ==> final(self).spec_log() == old(self).spec_log().push(
                (Txn::Read { addr: reg_addr, len: len as nat, reply: Ok(bytes@) }),
            ),
            r matches Err(e) ==> final(self).spec_log() == old(self).spec_log().push(
                (Txn::Read {
                    addr: reg_addr,
                    len: len as nat,
                    reply: Err::<Seq<u8>, TransportError>(e),
                }),
            ),
    {
        proof {
            use_type_invariant(&*self);
        }
        let fails = match self.fail_in {
            Some(k) => k == 0,
            None => false,
        };
        self.fail_in = match self.fail_in {
            Some(k) => if k == 0 {
                None
            } else {
                Some(k - 1)
            },
            None => None,
        };
        if fails {
            let e = self.fail_with;
            self.log = Ghost(self.log@.push(
                Txn::Read { addr: reg_addr, len: len as nat, reply: Err(e) },
            ));
            return Err(e);
        }
        let ghost snap = *self;
        let mut out: Vec<u8> = Vec::new();
        let mut i: usize = 0;
        let mut cur: u8 = reg_addr;
        while i < len
            invariant
                *self == snap,
                self.mem@.len() == 256,
                i <= len,
                out@.len() == i,
                spec_read_bytes(self.mem@, reg_addr, len as nat) == out@ + spec_read_bytes(
                    self.mem@,
                    cur,
                    (len - i) as nat,
                ),
            decreases len - i,
        {
            let b = self.mem[cur as usize];
            proof {
                assert(spec_read_bytes(self.mem@, cur, (len - i) as nat) == seq![b]
                    + spec_read_bytes(self.mem@, spec_next_addr(cur), (len - i - 1) as nat));
                assert(out@ + (seq![b] + spec_read_bytes(
                    self.mem@,
                    spec_next_addr(cur),
                    (len - i - 1) as nat,
                )) =~= out@.push(b) + spec_read_bytes(
                    self.mem@,
                    spec_next_addr(cur),
                    (len - i - 1) as nat,
                ));
            }
            out.push(b);
            cur = if cur == 255 {
                0
            } else {
                cur + 1
            };
            i += 1;
        }
        proof {
            assert(spec_read_bytes(self.mem@, cur, 0) =~= Seq::<u8>::empty());
            assert(out@ + Seq::<u8>::empty() =~= out@);
        }
        self.log = Ghost(self.log@.push(
            Txn::Read { addr: reg_addr, len: len as nat, reply: Ok(out@) },
        ));
        Ok(out)
    }
}

impl Bus for SimBus {
    closed spec fn spec_log(&self) -> Seq<Txn> {
        self.log@
    }

    fn bus_write(&mut self, reg_addr: u8, data: &[u8]) -> (r: Result<(), TransportError>) {
        self.sim_write(reg_addr, data)
    }

    fn bus_write_read(&mut self, reg_addr: u8, len: usize) -> (r: Result<Vec<u8>, TransportError>) {
        self.sim_read(reg_addr, len)
    }
}

/// One zero byte per register address.
fn zero_mem() -> (mem: Vec<u8>)
    ensures
        mem@.len() == 256,
        forall|j: int| 0 <= j < 256 ==> mem@[j] == 0u8,
{
    let mut mem: Vec<u8> = Vec::new();
    let mut i: usize = 0;
    while i < 256
        invariant
            mem@.len() == i,
            i <= 256,
            forall|j: int| 0 <= j < i ==> mem@[j] == 0u8,
        decreases 256 - i,
    {
        mem.push(0);
        i += 1;
    }
    mem
}

} // verus!
