//! A byte queue that stands for one standard stream of a guest module.
//!
//! The host fills the queue that the guest reads as its input, and empties
//! the queue that the guest fills as its output. Bytes leave a queue in the
//! order in which they came.

use std::collections::VecDeque;
use vstd::prelude::*;

verus! {

/// `VecDeque::shrink_to_fit` of the standard library: gives back what the
/// queue has allocated beyond its content, as far as the allocator goes
/// along. The content stays as it is; of how much memory comes back,
/// nothing is claimed.
#[verifier::external_body]
fn shrink_to_fit(queue: &mut VecDeque<u8>)
    ensures
        final(queue)@ == old(queue)@,
{
    queue.shrink_to_fit()
}

/// The first `n` bytes of `s`, or all of them where there are fewer.
pub open spec fn spec_front(s: Seq<u8>, n: nat) -> Seq<u8> {
    if n <= s.len() {
        s.subrange(0, n as int)
    } else {
        s
    }
}

/// What is left of `s` behind its first `n` bytes.
pub open spec fn spec_behind(s: Seq<u8>, n: nat) -> Seq<u8> {
    if n <= s.len() {
        s.subrange(n as int, s.len() as int)
    } else {
        Seq::empty()
    }
}

/// A queue of bytes between host and guest.
pub struct ReadWritePipe {
    data: VecDeque<u8>,
}

impl View for ReadWritePipe {
    type V = Seq<u8>;

    closed spec fn view(&self) -> Seq<u8> {
        self.data@
    }
}

impl ReadWritePipe {
    /// An empty queue.
    pub fn new() -> (pipe: Self)
        ensures
            pipe@ == Seq::<u8>::empty(),
    {
        ReadWritePipe { data: VecDeque::new() }
    }

    /// The number of bytes that wait in the queue.
    pub fn len(&self) -> (n: usize)
        ensures
            n == self@.len(),
    {
        self.data.len()
    }

    /// Puts `data` behind what waits in the queue.
    pub fn append(&mut self, data: &[u8])
        ensures
            final(self)@ == old(self)@ + data@,
    {
        let n: usize = data.len();
        let mut i: usize = 0;
        assert(self@ =~= old(self)@ + data@.subrange(0, 0));
        while i < n
            invariant
                i <= n == data@.len(),
                self@ == old(self)@ + data@.subrange(0, i as int),
            decreases n - i,
        {
            self.data.push_back(data[i]);
            assert(self@ =~= old(self)@ + data@.subrange(0, i + 1));
            i = i + 1;
        }
        assert(data@.subrange(0, n as int) =~= data@);
    }

    /// Makes `data` the content of the queue; what waited there is gone.
    pub fn write(&mut self, data: &[u8])
        ensures
            final(self)@ == data@,
    {
        self.data.clear();
        self.append(data);
        assert(self@ =~= data@);
    }

    /// Takes up to `amount` bytes from the front of the queue.
    pub fn read(&mut self, amount: usize) -> (out: Vec<u8>)
        ensures
            out@ == spec_front(old(self)@, amount as nat),
            final(self)@ == spec_behind(old(self)@, amount as nat),
    {
        let mut out: Vec<u8> = Vec::new();
        let mut taken: usize = 0;
        assert(self@ =~= old(self)@.subrange(0, old(self)@.len() as int));
        while taken < amount
            invariant
                taken <= amount,
                taken <= old(self)@.len(),
                out@ == old(self)@.subrange(0, taken as int),
                self@ == old(self)@.subrange(taken as int, old(self)@.len() as int),
            ensures
                taken <= amount,
                taken <= old(self)@.len(),
                taken == amount || taken == old(self)@.len(),
                out@ == old(self)@.subrange(0, taken as int),
                self@ == old(self)@.subrange(taken as int, old(self)@.len() as int),
            decreases amount - taken,
        {
            match self.data.pop_front() {
                None => {
                    break ;
                },
                Some(byte) => {
                    out.push(byte);
                    assert(out@ =~= old(self)@.subrange(0, taken + 1));
                    assert(self@ =~= old(self)@.subrange(taken + 1, old(self)@.len() as int));
                    taken = taken + 1;
                },
            }
        }
        assert(out@ =~= spec_front(old(self)@, amount as nat));
        assert(self@ =~= spec_behind(old(self)@, amount as nat));
        out
    }

    /// Drops everything that waits in the queue.
    pub fn clear(&mut self)
        ensures
            final(self)@ == Seq::<u8>::empty(),
    {
        self.data.clear();
    }

    /// Takes everything out of the queue.
    pub fn take_output(&mut self) -> (out: Vec<u8>)
        ensures
            out@ == old(self)@,
            final(self)@ == Seq::<u8>::empty(),
    {
        let n: usize = self.data.len();
        let out = self.read(n);
        assert(out@ =~= old(self)@);
        assert(self@ =~= Seq::<u8>::empty());
        out
    }

    /// Gives back the memory that the queue holds beyond its content.
    /// Nobody who reads or fills the queue can tell that this happened.
    pub fn gc(&mut self)
        ensures
            final(self)@ == old(self)@,
    {
        shrink_to_fit(&mut self.data);
    }
}

} // verus!
