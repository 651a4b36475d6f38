//! Bus transport capability consumed by the driver.
//!
//! The transport is an external collaborator: the driver assumes it already
//! exists and is correct, and asks of it only two operations — write a byte
//! sequence to a device address, and write then read as one transaction.
//!
//! Every implementation carries a ghost log of the transactions it has
//! completed, so that the driver's contracts can pin down exactly which bus
//! operations each driver call performs, and in which order. Nothing is
//! assumed about the bytes a read hands back: the device is free-running
//! hardware.

use vstd::prelude::*;

verus! {

/// One completed bus transaction, as recorded in a transport's ghost log.
pub enum BusOp {
    /// `data` was sent to the device at `addr`.
    Write { addr: u8, data: Seq<u8> },
    /// `sent` was sent to the device at `addr`, then `received` was read
    /// back, as one transaction.
    WriteRead { addr: u8, sent: Seq<u8>, received: Seq<u8> },
}

/// Two-wire bus transport: the capability the driver is built over.
///
/// An implementation must maintain `ops`, the ghost log of its completed
/// transactions: a successful call appends exactly one operation recording
/// the bytes moved, and a failed call appends nothing. No promise is made
/// about the bytes a read returns.
pub trait I2cTransport: Sized {
    /// Error the transport reports when a transaction fails.
    type CommError;

    /// Ghost log of the transactions completed so far, oldest first.
    ///
    /// The default leaves the log unspecified, so implementations outside
    /// the verified world need not provide it; one that is to be verified
    /// against this trait's contracts defines it instead.
    open spec fn ops(&self) -> Seq<BusOp> {
        arbitrary()
    }

    /// Sends `data` to the device at address `addr` as one transaction.
    fn write(&mut self, addr: u8, data: &[u8]) -> (r: Result<(), Self::CommError>)
        ensures
            r is Ok ==> final(self).ops() == old(self).ops().push(
                BusOp::Write { addr, data: data@ },
            ),
            r is Err ==> final(self).ops() == old(self).ops(),
    ;

    /// Sends `send` to the device at address `addr`, then reads exactly
    /// `recv.len()` bytes into `recv`, as one transaction.
    fn write_read(&mut self, addr: u8, send: &[u8], recv: &mut [u8]) -> (r: Result<
        (),
        Self::CommError,
    >)
        ensures
            final(recv)@.len() == old(recv)@.len(),
            r is Ok ==> final(self).ops() == old(self).ops().push(
                BusOp::WriteRead { addr, sent: send@, received: final(recv)@ },
            ),
            r is Err ==> final(self).ops() == old(self).ops(),
    ;
}

/// The log entry of one register write: the two-byte payload
/// `[register, value]` sent to the device at `addr`.
pub open spec fn write_op(addr: u8, register: u8, value: u8) -> BusOp {
    BusOp::Write { addr, data: seq![register, value] }
}

/// The log entry of one register read of `data.len()` bytes starting at
/// `register`: the one-byte payload `[register]` sent, then `data` read back.
pub open spec fn read_op(addr: u8, register: u8, data: Seq<u8>) -> BusOp {
    BusOp::WriteRead { addr, sent: seq![register], received: data }
}

} // verus!
