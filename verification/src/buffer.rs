//! The buffer that a recording grows in.

use vstd::prelude::*;

verus! {

/// An append-only sequence of samples, in the order of their arrival.
pub struct SampleBuffer {
    samples: Vec<i16>,
}

impl View for SampleBuffer {
    type V = Seq<i16>;

    closed spec fn view(&self) -> Seq<i16> {
        self.samples@
    }
}

impl SampleBuffer {
    /// An empty buffer.
    pub fn new() -> (b: Self)
        ensures
            b@ == Seq::<i16>::empty(),
    {
        SampleBuffer { samples: Vec::new() }
    }

    /// Number of samples held.
    pub fn len(&self) -> (n: usize)
        ensures
            n == self@.len(),
    {
        self.samples.len()
    }

    /// Whether nothing was appended yet.
    pub fn is_empty(&self) -> (b: bool)
        ensures
            b == (self@.len() == 0),
    {
        self.samples.len() == 0
    }

    /// Adds `samples` behind what is held; nothing held is moved or dropped.
    pub fn append(&mut self, samples: &[i16])
        ensures
            final(self)@ == old(self)@ + samples@,
    {
        let mut i: usize = 0;
        while i < samples.len()
            invariant
                i <= samples.len(),
                self@ == old(self)@ + samples@.subrange(0, i as int),
            decreases samples.len() - i,
        {
            self.samples.push(samples[i]);
            i += 1;
            assert(self@ =~= old(self)@ + samples@.subrange(0, i as int));
        }
        assert(samples@.subrange(0, i as int) =~= samples@);
    }

    /// A copy of everything held, in the order of appending.
    pub fn snapshot(&self) -> (v: Vec<i16>)
        ensures
            v@ == self@,
    {
        let mut v: Vec<i16> = Vec::new();
        let mut i: usize = 0;
        while i < self.samples.len()
            invariant
                i <= self.samples.len(),
                v@ == self.samples@.subrange(0, i as int),
            decreases self.samples.len() - i,
        {
            v.push(self.samples[i]);
            i += 1;
            assert(v@ =~= self.samples@.subrange(0, i as int));
        }
        assert(self.samples@.subrange(0, i as int) =~= self.samples@);
        v
    }
}

} // verus!
