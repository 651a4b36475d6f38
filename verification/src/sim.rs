//! In-memory bus transport with one simulated device behind it.
//!
//! The simulated device is a plain register file: writes of `[register,
//! value]` update it and block reads return its current contents, with the
//! register address incrementing across the read. The implementation is
//! verified against the transport trait's full contract, including the
//! ghost transaction log, so the contract the driver's proofs rest on is
//! known to be implementable.

use vstd::prelude::*;

use crate::transport::BusOp;
use crate::transport::I2cTransport;

verus! {

/// Number of register addresses a one-byte register pointer can reach.
pub const REGISTER_SPACE: usize = 256;

/// In-memory bus whose single simulated device acknowledges every
/// transaction.
pub struct SimulatedBus {
    regs: Vec<u8>,
    log: Ghost<Seq<BusOp>>,
}

impl SimulatedBus {
    /// Contents of the simulated device's register file, by address.
    pub closed spec fn regs_view(self) -> Seq<u8> {
        self.regs@
    }

    /// The register file covers the whole one-byte address space.
    #[verifier::type_invariant]
    pub closed spec fn wf(self) -> bool {
        self.regs@.len() == REGISTER_SPACE
    }

    /// Builds a bus whose device's registers all read zero and whose log is
    /// empty.
    pub fn new() -> (r: Self)
        ensures
            r.ops() == Seq::<BusOp>::empty(),
            r.regs_view() == Seq::new(REGISTER_SPACE as nat, |i: int| 0u8),
    {
        let mut regs: Vec<u8> = Vec::new();
        let mut i: usize = 0;
        while i < REGISTER_SPACE
            invariant
                i <= REGISTER_SPACE,
                regs@.len() == i,
                forall|j: int| 0 <= j < i ==> regs@[j] == 0u8,
            decreases REGISTER_SPACE - i,
        {
            regs.push(0);
            i = i + 1;
        }
        let r = SimulatedBus { regs, log: Ghost(Seq::empty()) };
        proof {
            assert(r.regs_view() =~= Seq::new(REGISTER_SPACE as nat, |i: int| 0u8));
        }
        r
    }

    /// Sets one register of the simulated device directly, outside any bus
    /// transaction.
    pub fn set_register(&mut self, register: u8, value: u8)
        ensures
            final(self).regs_view() == old(self).regs_view().update(register as int, value),
            final(self).ops() == old(self).ops(),
    {
        proof {
            use_type_invariant(&*self);
        }
        let idx: usize = register as usize;
        self.regs[idx] = value;
    }

    /// Reads one register of the simulated device directly, outside any bus
    /// transaction.
    pub fn register(&self, register: u8) -> (r: u8)
        ensures
            r == self.regs_view()[register as int],
    {
        proof {
            use_type_invariant(self);
        }
        self.regs[register as usize]
    }
}

impl I2cTransport for SimulatedBus {
    /// The simulated bus never fails, so no error value is ever produced.
    type CommError = u8;

    closed spec fn ops(&self) -> Seq<BusOp> {
        self.log@
    }

    /// A register write `[register, value]` updates the register file; any
    /// other payload only reaches the log.
    fn write(&mut self, addr: u8, data: &[u8]) -> (r: Result<(), u8>)
        ensures
            data@.len() == 2 ==> final(self).regs_view() == old(self).regs_view().update(
                data@[0] as int,
                data@[1],
            ),
            data@.len() != 2 ==> final(self).regs_view() == old(self).regs_view(),
    {
        proof {
            use_type_invariant(&*self);
        }
        if data.len() == 2 {
            let idx: usize = data[0] as usize;
            self.regs[idx] = data[1];
        }
        self.log = Ghost(self.log@.push(BusOp::Write { addr, data: data@ }));
        Ok(())
    }

    /// Fills `recv` with the register file's contents starting at the
    /// register named by the first sent byte, the address wrapping at the
    /// end of the register space.
    fn write_read(&mut self, addr: u8, send: &[u8], recv: &mut [u8]) -> (r: Result<(), u8>)
        ensures
            send@.len() >= 1 ==> forall|i: int|
                0 <= i < final(recv)@.len() ==> final(recv)@[i] == old(self).regs_view()[(
                send@[0] + i) % (REGISTER_SPACE as int)],
    {
        proof {
            use_type_invariant(&*self);
        }
        let start: usize = if send.len() >= 1 {
            send[0] as usize
        } else {
            0
        };
        let n = recv.len();
        let mut ptr: usize = start;
        let mut i: usize = 0;
        while i < n
            invariant
                i <= n,
                recv@.len() == n,
                start < REGISTER_SPACE,
                ptr == (start + i) % (REGISTER_SPACE as int),
                self.regs@.len() == REGISTER_SPACE,
                self.regs@ == old(self).regs_view(),
                self.log@ == old(self).ops(),
                forall|j: int|
                    0 <= j < i ==> recv@[j] == self.regs@[(start + j) % (REGISTER_SPACE as int)],
            decreases n - i,
        {
            recv[i] = self.regs[ptr];
            ptr = if ptr + 1 == REGISTER_SPACE {
                0
            } else {
                ptr + 1
            };
            i = i + 1;
        }
        self.log = Ghost(
            self.log@.push(BusOp::WriteRead { addr, sent: send@, received: recv@ }),
        );
        Ok(())
    }
}

} // verus!
