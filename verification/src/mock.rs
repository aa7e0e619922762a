use crate::bus::{BusOp, Delay, I2cBus};
use vstd::prelude::*;

verus! {

/// One recorded transaction of the scripted bus, as runtime data.
#[derive(Debug)]
pub enum BusRecord {
    Write { addr: u8, data: Vec<u8> },
    WriteRead { addr: u8, data: Vec<u8>, response: Vec<u8> },
}

impl View for BusRecord {
    type V = BusOp;

    open spec fn view(&self) -> BusOp {
        match self {
            BusRecord::Write { addr, data } => BusOp::Write { addr: *addr, data: data@ },
            BusRecord::WriteRead { addr, data, response } => BusOp::WriteRead {
                addr: *addr,
                data: data@,
                response: response@,
            },
        }
    }
}

/// Ghost history of a sequence of recorded transactions.
pub open spec fn records_history(log: Seq<BusRecord>) -> Seq<BusOp> {
    log.map_values(|r: BusRecord| r@)
}

proof fn lemma_records_history_push(log: Seq<BusRecord>, rec: BusRecord)
    ensures
        records_history(log.push(rec)) == records_history(log).push(rec@),
{
    assert(records_history(log.push(rec)) =~= records_history(log).push(rec@));
}

/// Copy a byte slice into a fresh vector.
fn copy_bytes(data: &[u8]) -> (r: Vec<u8>)
    ensures
        r@ == data@,
{
    let mut out: Vec<u8> = Vec::new();
    let mut i: usize = 0;
    while i < data.len()
        invariant
            i <= data@.len(),
            out@ == data@.subrange(0, i as int),
        decreases data@.len() - i,
    {
        out.push(data[i]);
        i = i + 1;
        proof {
            assert(out@ =~= data@.subrange(0, i as int));
        }
    }
    proof {
        assert(data@.subrange(0, data@.len() as int) =~= data@);
    }
    out
}

/// Deterministic bus double: replays scripted responses to write-reads
/// in order, records every completed transaction, and can be told to
/// fail every operation with a fixed error code. Write-reads also fail
/// once the script is exhausted or when a scripted reply does not have
/// the requested length.
#[derive(Debug)]
pub struct ScriptedBus {
    /// Responses handed out to write-reads, oldest first.
    pub replies: Vec<Vec<u8>>,
    /// Index of the next unconsumed reply.
    pub cursor: usize,
    /// When true, every operation fails with `error_code`.
    pub fail: bool,
    /// Error value returned on failure.
    pub error_code: u8,
    /// Every completed transaction, oldest first.
    pub log: Vec<BusRecord>,
}

impl ScriptedBus {
    /// A bus that answers write-reads with `replies`, in order.
    pub fn new(replies: Vec<Vec<u8>>) -> (r: ScriptedBus)
        ensures
            r.replies == replies,
            r.cursor == 0,
            !r.fail,
            r.log@ == Seq::<BusRecord>::empty(),
    {
        ScriptedBus { replies, cursor: 0, fail: false, error_code: 0, log: Vec::new() }
    }

    /// A bus on which every operation fails with `error_code`.
    pub fn failing(error_code: u8) -> (r: ScriptedBus)
        ensures
            r.fail,
            r.error_code == error_code,
            r.log@ == Seq::<BusRecord>::empty(),
    {
        ScriptedBus { replies: Vec::new(), cursor: 0, fail: true, error_code, log: Vec::new() }
    }
}

impl I2cBus for ScriptedBus {
    type BusError = u8;

    open spec fn history(&self) -> Seq<BusOp> {
        records_history(self.log@)
    }

    fn bus_write(&mut self, address: u8, data: &[u8]) -> (r: Result<(), u8>)
        ensures
            final(self).replies == old(self).replies,
            final(self).cursor == old(self).cursor,
            final(self).fail == old(self).fail,
            final(self).error_code == old(self).error_code,
            r is Ok <==> !old(self).fail,
            r matches Err(e) ==> e == old(self).error_code,
    {
        if self.fail {
            return Err(self.error_code);
        }
        let stored: Vec<u8> = copy_bytes(data);
        let ghost old_log = self.log@;
        let ghost rec = BusRecord::Write { addr: address, data: stored };
        self.log.push(BusRecord::Write { addr: address, data: stored });
        proof {
            lemma_records_history_push(old_log, rec);
        }
        Ok(())
    }

    fn bus_write_read(&mut self, address: u8, data: &[u8], read_len: usize) -> (r: Result<
        Vec<u8>,
        u8,
    >)
        ensures
            final(self).replies == old(self).replies,
            final(self).fail == old(self).fail,
            final(self).error_code == old(self).error_code,
            r is Ok <==> (!old(self).fail && old(self).cursor < old(self).replies@.len() && old(
                self,
            ).replies@[old(self).cursor as int]@.len() == read_len),
            r matches Ok(v) ==> v@ == old(self).replies@[old(self).cursor as int]@,
            r matches Err(e) ==> e == old(self).error_code,
            old(self).fail ==> final(self).cursor == old(self).cursor,
            !old(self).fail ==> final(self).cursor == (
            if old(self).cursor < old(self).replies@.len() {
                old(self).cursor + 1
            } else {
                old(self).cursor as int
            }),
    {
        if self.fail {
            return Err(self.error_code);
        }
        if self.cursor >= self.replies.len() {
            return Err(self.error_code);
        }
        let reply: Vec<u8> = copy_bytes(self.replies[self.cursor].as_slice());
        self.cursor = self.cursor + 1;
        if reply.len() != read_len {
            return Err(self.error_code);
        }
        let stored: Vec<u8> = copy_bytes(data);
        let stored_reply: Vec<u8> = copy_bytes(reply.as_slice());
        let ghost old_log = self.log@;
        let ghost rec = BusRecord::WriteRead { addr: address, data: stored, response: stored_reply };
        self.log.push(BusRecord::WriteRead { addr: address, data: stored, response: stored_reply });
        proof {
            lemma_records_history_push(old_log, rec);
        }
        Ok(reply)
    }
}

/// Delay double that records each requested wait instead of blocking.
#[derive(Debug)]
pub struct DelayLog {
    /// Every requested delay in milliseconds, oldest first.
    pub waits: Vec<u32>,
}

impl DelayLog {
    /// A recorder with an empty log.
    pub fn new() -> (r: DelayLog)
        ensures
            r.waits@ == Seq::<u32>::empty(),
    {
        DelayLog { waits: Vec::new() }
    }
}

impl Delay for DelayLog {
    open spec fn waited(&self) -> Seq<u32> {
        self.waits@
    }

    fn delay_ms(&mut self, ms: u32) {
        self.waits.push(ms);
    }
}

} // verus!
