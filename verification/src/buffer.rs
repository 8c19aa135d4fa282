//! The response buffer: a byte region of fixed capacity that is filled from
//! the front by bounded reads and never grows.

use vstd::prelude::*;

verus! {

/// `region` with `chunk` written over it from index `at` on.
pub open spec fn overwrite(region: Seq<u8>, at: int, chunk: Seq<u8>) -> Seq<u8> {
    Seq::new(
        region.len(),
        |i: int|
            if at <= i < at + chunk.len() {
                chunk[i - at]
            } else {
                region[i]
            },
    )
}

/// How many bytes of a read of `offered` bytes fit into `room`.
pub open spec fn fitting(offered: nat, room: nat) -> nat {
    if offered <= room {
        offered
    } else {
        room
    }
}

/// A byte region of fixed capacity, filled from the front.
#[derive(Debug)]
pub struct ResponseBuffer {
    data: Vec<u8>,
    filled: usize,
}

impl ResponseBuffer {

    /// The whole region, written or not.
    pub closed spec fn region(&self) -> Seq<u8> {
        self.data@
    }

    /// How many bytes have been written.
    pub closed spec fn filled(&self) -> nat {
        self.filled as nat
    }

    /// Well-formedness: no more is written than the region holds.
    pub open spec fn wf(&self) -> bool {
        self.filled() <= self.capacity_spec()
    }

    /// The capacity that the buffer was made with.
    pub open spec fn capacity_spec(&self) -> nat {
        self.region().len()
    }

    /// The bytes written so far.
    pub open spec fn captured(&self) -> Seq<u8> {
        self.region().take(self.filled() as int)
    }

    /// The room that is left.
    pub open spec fn room(&self) -> nat {
        (self.capacity_spec() - self.filled()) as nat
    }

    /// Makes an empty buffer of `capacity` zero bytes.
    pub fn new(capacity: usize) -> (b: ResponseBuffer)
        ensures
            b.wf(),
            b.region() == Seq::new(capacity as nat, |i: int| 0u8),
            b.filled() == 0,
    {
        let mut data: Vec<u8> = Vec::new();
        let mut i: usize = 0;
        while i < capacity
            invariant
                i <= capacity,
                data@ == Seq::new(i as nat, |k: int| 0u8),
            decreases capacity - i,
        {
            data.push(0u8);
            i = i + 1;
            assert(data@ =~= Seq::new(i as nat, |k: int| 0u8));
        }
        ResponseBuffer { data, filled: 0 }
    }

    /// Returns the capacity.
    pub fn capacity(&self) -> (n: usize)
        ensures
            n == self.capacity_spec(),
    {
        self.data.len()
    }

    /// Returns the number of bytes written so far.
    pub fn len(&self) -> (n: usize)
        requires
            self.wf(),
        ensures
            n == self.filled(),
            n <= self.capacity_spec(),
    {
        self.filled
    }

    /// Returns the room that is left: the most that one read may ask for.
    pub fn remaining(&self) -> (n: usize)
        requires
            self.wf(),
        ensures
            n == self.room(),
            n + self.filled() == self.capacity_spec(),
    {
        self.data.len() - self.filled
    }

    /// Returns whether no room is left.
    pub fn is_full(&self) -> (full: bool)
        requires
            self.wf(),
        ensures
            full == (self.room() == 0),
    {
        self.filled == self.data.len()
    }

    /// Returns the byte at `index` of the region, or `None` past its end.
    pub fn get(&self, index: usize) -> (b: Option<u8>)
        ensures
            b == (if index < self.capacity_spec() {
                Some(self.region()[index as int])
            } else {
                None
            }),
    {
        if index < self.data.len() {
            Some(self.data[index])
        } else {
            None
        }
    }

    /// Returns a copy of the bytes written so far.
    pub fn captured_bytes(&self) -> (v: Vec<u8>)
        requires
            self.wf(),
        ensures
            v@ == self.captured(),
    {
        let mut v: Vec<u8> = Vec::new();
        let mut i: usize = 0;
        while i < self.filled
            invariant
                i <= self.filled <= self.data.len(),
                v@ == self.data@.take(i as int),
            decreases self.filled - i,
        {
            v.push(self.data[i]);
            i = i + 1;
            assert(v@ =~= self.data@.take(i as int));
        }
        v
    }

    /// Writes the result of one read behind what is there. What does not fit
    /// is cut off: the region never grows. Returns the number of bytes taken.
    pub fn absorb(&mut self, chunk: &[u8]) -> (taken: usize)
        requires
            old(self).wf(),
        ensures
            final(self).wf(),
            taken == fitting(chunk@.len(), old(self).room()),
            final(self).filled() == old(self).filled() + taken,
            final(self).region() == overwrite(
                old(self).region(),
                old(self).filled() as int,
                chunk@.take(taken as int),
            ),
            final(self).captured() == old(self).captured() + chunk@.take(taken as int),
            final(self).capacity_spec() == old(self).capacity_spec(),
    {
        let room = self.data.len() - self.filled;
        let taken = if chunk.len() <= room { chunk.len() } else { room };
        let start = self.filled;
        let ghost before = self.data@;
        let mut k: usize = 0;
        while k < taken
            invariant
                k <= taken,
                start + taken <= self.data.len(),
                taken <= chunk@.len(),
                self.filled == start,
                self.data@ == overwrite(before, start as int, chunk@.take(k as int)),
            decreases taken - k,
        {
            self.data.set(start + k, chunk[k]);
            k = k + 1;
            assert(self.data@ =~= overwrite(before, start as int, chunk@.take(k as int)));
        }
        self.filled = start + taken;
        assert(self.data@.take((start + taken) as int) =~= before.take(start as int) + chunk@.take(
            taken as int,
        ));
        taken
    }
}

} // verus!
