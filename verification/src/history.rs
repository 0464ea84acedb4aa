//! Rolling history for the sparkline widgets: four parallel bounded FIFO
//! sequences (network rx/tx, disk read/write) of fixed capacity. A push
//! appends one sample to all four at once, evicting the oldest sample from
//! all four once the buffer is at capacity.

use vstd::prelude::*;

use crate::types::{DiskIOStats, NetworkStats};
use std::collections::VecDeque;

verus! {

/// One bounded FIFO step: append `v`, evicting the oldest element when the
/// window is already full.
pub open spec fn window_push(s: Seq<u64>, cap: nat, v: u64) -> Seq<u64> {
    if s.len() >= cap {
        s.drop_first().push(v)
    } else {
        s.push(v)
    }
}

/// The last `cap` elements of `samples`, in order (all of them when fewer).
pub open spec fn last_window(samples: Seq<u64>, cap: nat) -> Seq<u64> {
    if samples.len() <= cap {
        samples
    } else {
        samples.skip(samples.len() - cap)
    }
}

/// The window obtained by pushing every element of `samples` in order into
/// an initially empty bounded FIFO of capacity `cap`.
pub open spec fn window_fold(samples: Seq<u64>, cap: nat) -> Seq<u64>
    decreases samples.len(),
{
    if samples.len() == 0 {
        Seq::empty()
    } else {
        window_push(window_fold(samples.drop_last(), cap), cap, samples.last())
    }
}

/// Sliding-window law: for any capacity of at least one and any sequence of
/// pushed samples, the bounded FIFO holds exactly the last `cap` samples in
/// push order.
pub proof fn lemma_sliding_window(samples: Seq<u64>, cap: nat)
    requires
        cap >= 1,
    ensures
        window_fold(samples, cap) == last_window(samples, cap),
    decreases samples.len(),
{
    if samples.len() == 0 {
        assert(window_fold(samples, cap) =~= last_window(samples, cap));
    } else {
        let prefix = samples.drop_last();
        lemma_sliding_window(prefix, cap);
        let w = last_window(prefix, cap);
        if prefix.len() < cap {
            assert(w == prefix);
            assert(window_push(w, cap, samples.last()) =~= last_window(samples, cap));
        } else {
            assert(w.len() == cap);
            assert(window_push(w, cap, samples.last()) =~= last_window(samples, cap));
        }
    }
}

/// Rolling history for sparkline widgets.
pub struct SparklineHistory {
    pub net_rx: VecDeque<u64>,
    pub net_tx: VecDeque<u64>,
    pub disk_read: VecDeque<u64>,
    pub disk_write: VecDeque<u64>,
    pub capacity: usize,
}

impl SparklineHistory {
    /// The fixed capacity this history was created with.
    pub open spec fn cap(self) -> nat {
        self.capacity as nat
    }

    /// All four sequences have the same length, at most the capacity.
    pub open spec fn wf(self) -> bool {
        &&& self.cap() >= 1
        &&& self.net_rx@.len() <= self.cap()
        &&& self.net_tx@.len() == self.net_rx@.len()
        &&& self.disk_read@.len() == self.net_rx@.len()
        &&& self.disk_write@.len() == self.net_rx@.len()
    }

    pub fn new(capacity: usize) -> (r: Self)
        requires
            capacity >= 1,
        ensures
            r.wf(),
            r.cap() == capacity,
            r.net_rx@ == Seq::<u64>::empty(),
            r.net_tx@ == Seq::<u64>::empty(),
            r.disk_read@ == Seq::<u64>::empty(),
            r.disk_write@ == Seq::<u64>::empty(),
    {
        SparklineHistory {
            net_rx: VecDeque::with_capacity(capacity),
            net_tx: VecDeque::with_capacity(capacity),
            disk_read: VecDeque::with_capacity(capacity),
            disk_write: VecDeque::with_capacity(capacity),
            capacity,
        }
    }

    /// Append one sample to each of the four sequences; once any sequence is
    /// at capacity the oldest sample of all four is evicted in the same call.
    pub fn push(&mut self, net: &NetworkStats, disk: &DiskIOStats)
        requires
            old(self).wf(),
        ensures
            final(self).wf(),
            final(self).cap() == old(self).cap(),
            final(self).net_rx@ == window_push(
                old(self).net_rx@,
                old(self).cap(),
                net.received_bytes,
            ),
            final(self).net_tx@ == window_push(
                old(self).net_tx@,
                old(self).cap(),
                net.transmitted_bytes,
            ),
            final(self).disk_read@ == window_push(
                old(self).disk_read@,
                old(self).cap(),
                disk.read_bytes,
            ),
            final(self).disk_write@ == window_push(
                old(self).disk_write@,
                old(self).cap(),
                disk.write_bytes,
            ),
    {
        if self.net_rx.len() >= self.capacity {
            self.net_rx.pop_front();
            self.net_tx.pop_front();
            self.disk_read.pop_front();
            self.disk_write.pop_front();
        }
        self.net_rx.push_back(net.received_bytes);
        self.net_tx.push_back(net.transmitted_bytes);
        self.disk_read.push_back(disk.read_bytes);
        self.disk_write.push_back(disk.write_bytes);
    }

    /// Oldest-to-newest copy of the received-bytes history.
    pub fn rx_snapshot(&self) -> (r: Vec<u64>)
        ensures
            r@ == self.net_rx@,
    {
        deque_to_vec(&self.net_rx)
    }

    /// Oldest-to-newest copy of the transmitted-bytes history.
    pub fn tx_snapshot(&self) -> (r: Vec<u64>)
        ensures
            r@ == self.net_tx@,
    {
        deque_to_vec(&self.net_tx)
    }

    /// Oldest-to-newest copy of the disk-read history.
    pub fn read_snapshot(&self) -> (r: Vec<u64>)
        ensures
            r@ == self.disk_read@,
    {
        deque_to_vec(&self.disk_read)
    }

    /// Oldest-to-newest copy of the disk-write history.
    pub fn write_snapshot(&self) -> (r: Vec<u64>)
        ensures
            r@ == self.disk_write@,
    {
        deque_to_vec(&self.disk_write)
    }
}

fn deque_to_vec(d: &VecDeque<u64>) -> (r: Vec<u64>)
    ensures
        r@ == d@,
{
    let mut r: Vec<u64> = Vec::new();
    let mut i: usize = 0;
    while i < d.len()
        invariant
            i <= d@.len(),
            r@ =~= d@.take(i as int),
        decreases d@.len() - i,
    {
        r.push(d[i]);
        i = i + 1;
    }
    proof {
        assert(r@ =~= d@);
    }
    r
}

} // verus!
