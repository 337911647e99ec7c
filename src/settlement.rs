use vstd::prelude::*;
use crate::bytes::{push_word_le, word_le_bytes};

verus! {

/// A withdrawal instruction: the three operand words of the withdrawal
/// (destination and amount) and the class of funds it is paid from.
#[derive(Clone, Copy, Debug)]
pub struct Settlement {
    pub data: [u64; 3],
    pub class: u64,
}

/// The wire form of one settlement: its three words and its class, each
/// least significant byte first.
pub open spec fn settlement_bytes(s: Settlement) -> Seq<u8> {
    word_le_bytes(s.data@[0]) + word_le_bytes(s.data@[1]) + word_le_bytes(s.data@[2])
        + word_le_bytes(s.class)
}

/// The wire form of a queue: its records' wire forms in queue order.
pub open spec fn queue_bytes(q: Seq<Settlement>) -> Seq<u8>
    decreases q.len(),
{
    if q.len() == 0 {
        Seq::empty()
    } else {
        queue_bytes(q.drop_last()) + settlement_bytes(q.last())
    }
}

/// The queue of pending settlements, drained whole on a checkpoint.
pub struct SettlementInfo {
    queue: Vec<Settlement>,
}

impl View for SettlementInfo {
    type V = Seq<Settlement>;

    closed spec fn view(&self) -> Seq<Settlement> {
        self.queue@
    }
}

impl SettlementInfo {
    pub fn new() -> (r: Self)
        ensures
            r@ == Seq::<Settlement>::empty(),
    {
        SettlementInfo { queue: Vec::new() }
    }

    /// Appends a record at the end of the queue.
    pub fn append_settlement(&mut self, s: Settlement)
        ensures
            final(self)@ == old(self)@.push(s),
    {
        self.queue.push(s);
    }

    /// The number of pending records.
    pub fn settlement_size(&self) -> (r: usize)
        ensures
            r == self@.len(),
    {
        self.queue.len()
    }

    /// Drains the queue, returning its records' wire forms in queue order.
    pub fn flush_settlement(&mut self) -> (r: Vec<u8>)
        ensures
            r@ == queue_bytes(old(self)@),
            final(self)@ == Seq::<Settlement>::empty(),
    {
        let mut out: Vec<u8> = Vec::new();
        let mut i: usize = 0;
        while i < self.queue.len()
            invariant
                i <= self.queue@.len(),
                self.queue@ == old(self)@,
                out@ == queue_bytes(self.queue@.subrange(0, i as int)),
            decreases self.queue@.len() - i,
        {
            let s = self.queue[i];
            push_word_le(&mut out, s.data[0]);
            push_word_le(&mut out, s.data[1]);
            push_word_le(&mut out, s.data[2]);
            push_word_le(&mut out, s.class);
            proof {
                let p = self.queue@.subrange(0, i + 1);
                assert(p.drop_last() =~= self.queue@.subrange(0, i as int));
                assert(p.last() == s);
                assert(out@ =~= queue_bytes(p));
            }
            i = i + 1;
        }
        assert(self.queue@.subrange(0, i as int) =~= self.queue@);
        self.queue = Vec::new();
        out
    }
}

} // verus!
