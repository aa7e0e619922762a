use vstd::prelude::*;

verus! {

/// One transaction on the register bus, as the contracts see it.
///
/// The sequences are ghost values: an operation records the device
/// address, the bytes sent, and (for a write-read) the bytes the device
/// answered with.
pub enum BusOp {
    Write { addr: u8, data: Seq<u8> },
    WriteRead { addr: u8, data: Seq<u8>, response: Seq<u8> },
}

/// Byte-oriented bus transport capability.
///
/// The driver owns one value of an implementing type for its lifetime.
/// `history()` is the ghost log of completed transactions; each method
/// promises only what holds of every transport: a successful call
/// appends exactly its own transaction, with a response of the
/// requested length, and a failed call appends nothing. What the
/// device answers is left open.
pub trait I2cBus: Sized {
    /// The transport's own error type, surfaced unchanged.
    type BusError;

    /// Ghost log of the transactions completed so far. Verified
    /// implementations override this; the default leaves unverified
    /// adapters (which no proof reads) with an empty log.
    open spec fn history(&self) -> Seq<BusOp> {
        Seq::empty()
    }

    /// Write `data` to the device at `address`.
    fn bus_write(&mut self, address: u8, data: &[u8]) -> (r: Result<(), Self::BusError>)
        ensures
            r is Ok ==> final(self).history() == old(self).history().push(
                BusOp::Write { addr: address, data: data@ },
            ),
            r is Err ==> final(self).history() == old(self).history(),
    ;

    /// Write `data` to the device at `address`, then read `read_len` bytes.
    fn bus_write_read(&mut self, address: u8, data: &[u8], read_len: usize) -> (r: Result<
        Vec<u8>,
        Self::BusError,
    >)
        ensures
            r matches Ok(v) ==> v@.len() == read_len && final(self).history() == old(
                self,
            ).history().push(BusOp::WriteRead { addr: address, data: data@, response: v@ }),
            r is Err ==> final(self).history() == old(self).history(),
    ;
}

/// Time-delay capability: suspend the caller for a given number of
/// milliseconds.
///
/// `waited()` is the ghost log of requested delays, so that a caller's
/// contract can show it waited long enough before reading.
pub trait Delay: Sized {
    /// Ghost log of the delays performed so far, in milliseconds.
    /// Verified implementations override this; the default leaves
    /// unverified adapters (which no proof reads) with an empty log.
    open spec fn waited(&self) -> Seq<u32> {
        Seq::empty()
    }

    /// Block or suspend for `ms` milliseconds.
    fn delay_ms(&mut self, ms: u32)
        ensures
            final(self).waited() == old(self).waited().push(ms),
    ;
}

} // verus!
