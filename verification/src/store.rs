//! The bounded header store: an append-only collection of header cells with
//! a capacity fixed at construction. An append past the capacity is rejected
//! with an explicit error; the populated count never exceeds the capacity.

use vstd::prelude::*;

use crate::header::Header;

verus! {

/// The error of an append to a full store.
#[derive(Clone, Copy, Debug, PartialEq, Eq, Structural)]
pub struct CapacityExceeded;

/// A bounded, append-only store of header cells. Its capacity is fixed when
/// it is constructed; appends into a full store fail and leave it unchanged.
#[derive(Debug)]
pub struct HeaderStore<'r> {
    items: Vec<Header<'r>>,
    cap: usize,
}

impl<'r> HeaderStore<'r> {
    /// The headers held, in insertion order.
    pub closed spec fn view(&self) -> Seq<Header<'r>> {
        self.items@
    }

    /// The fixed capacity.
    pub closed spec fn spec_capacity(&self) -> int {
        self.cap as int
    }

    /// The store invariant: the populated count never exceeds the capacity.
    pub open spec fn wf(&self) -> bool {
        self@.len() <= self.spec_capacity()
    }

    /// An empty store of the given capacity.
    pub fn new(capacity: usize) -> (s: Self)
        ensures
            s.wf(),
            s@.len() == 0,
            s.spec_capacity() == capacity,
    {
        HeaderStore { items: Vec::new(), cap: capacity }
    }

    /// How many headers are held.
    pub fn len(&self) -> (n: usize)
        ensures
            n == self@.len(),
    {
        self.items.len()
    }

    /// The fixed capacity.
    pub fn capacity(&self) -> (c: usize)
        ensures
            c == self.spec_capacity(),
    {
        self.cap
    }

    /// The header at position `i`; only the populated slots can be read.
    pub fn get(&self, i: usize) -> (h: &Header<'r>)
        requires
            i < self@.len(),
        ensures
            *h == self@[i as int],
    {
        &self.items[i]
    }

    /// Append one header. An append below the capacity succeeds and adds the
    /// header at the end; an append into a full store fails with
    /// `CapacityExceeded` and leaves the store unchanged.
    pub fn add_header(&mut self, h: Header<'r>) -> (r: Result<(), CapacityExceeded>)
        requires
            old(self).wf(),
        ensures
            final(self).wf(),
            final(self).spec_capacity() == old(self).spec_capacity(),
            if old(self)@.len() < old(self).spec_capacity() {
                r == Ok::<(), CapacityExceeded>(()) && final(self)@ == old(self)@.push(h)
            } else {
                r == Err::<(), CapacityExceeded>(CapacityExceeded) && final(self)@ == old(self)@
            },
    {
        if self.items.len() < self.cap {
            self.items.push(h);
            Ok(())
        } else {
            Err(CapacityExceeded)
        }
    }

    /// Append many headers, in order, until the first failure. If they all
    /// fit, every one is appended; otherwise the store is filled to its
    /// capacity with the first headers of `hs` and the append fails with
    /// `CapacityExceeded`.
    pub fn add_headers(&mut self, hs: Vec<Header<'r>>) -> (r: Result<(), CapacityExceeded>)
        requires
            old(self).wf(),
        ensures
            final(self).wf(),
            final(self).spec_capacity() == old(self).spec_capacity(),
            if old(self)@.len() + hs@.len() <= old(self).spec_capacity() {
                r == Ok::<(), CapacityExceeded>(()) && final(self)@ == old(self)@ + hs@
            } else {
                r == Err::<(), CapacityExceeded>(CapacityExceeded) && final(self)@ == old(self)@
                    + hs@.take(old(self).spec_capacity() - old(self)@.len())
            },
    {
        let ghost orig = self@;
        let mut i: usize = 0;
        while i < hs.len()
            invariant
                self.wf(),
                self.spec_capacity() == old(self).spec_capacity(),
                i <= hs@.len(),
                orig == old(self)@,
                orig.len() + i <= orig.len() + hs@.len(),
                self@ == orig + hs@.take(i as int),
                self@.len() == orig.len() + i,
            decreases hs@.len() - i,
        {
            let h = hs[i];
            match self.add_header(h) {
                Ok(()) => {
                    proof {
                        assert(orig + hs@.take(i as int) + seq![hs@[i as int]] =~= orig + hs@.take(
                            i + 1));
                    }
                    i = i + 1;
                },
                Err(e) => {
                    proof {
                        assert(self@.len() == self.spec_capacity());
                        assert(orig.len() + hs@.len() > old(self).spec_capacity());
                        assert(hs@.take(i as int) == hs@.take(
                            old(self).spec_capacity() - orig.len()));
                    }
                    return Err(e);
                },
            }
        }
        proof {
            assert(hs@.take(hs@.len() as int) =~= hs@);
        }
        Ok(())
    }
}

} // verus!
