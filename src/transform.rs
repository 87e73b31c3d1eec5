//! The stack of accumulated transforms used while a scene is drawn.
//!
//! Drawing code saves the current transform, composes more onto it, draws,
//! and restores it.  The stack is generic over the transform type: how two
//! transforms compose is the caller's business.
use vstd::prelude::*;

verus! {

pub struct TransformStack<M> {
    current: M,
    saved: Vec<M>,
}

impl<M: Copy> TransformStack<M> {
    /// The transform that applies now.
    pub closed spec fn top(&self) -> M {
        self.current
    }

    /// The saved transforms, the most recently saved last.
    pub closed spec fn saved_seq(&self) -> Seq<M> {
        self.saved@
    }

    /// A stack whose current transform is `start` and which holds nothing
    /// saved.
    pub fn new(start: M) -> (r: Self)
        ensures
            r.top() == start,
            r.saved_seq() == Seq::<M>::empty(),
    {
        TransformStack { current: start, saved: Vec::new() }
    }

    pub fn current(&self) -> (r: M)
        ensures
            r == self.top(),
    {
        self.current
    }

    /// Replaces the current transform, for instance by its composition with
    /// another.
    pub fn set_current(&mut self, m: M)
        ensures
            final(self).top() == m,
            final(self).saved_seq() == old(self).saved_seq(),
    {
        self.current = m;
    }

    /// Saves a copy of the current transform.
    pub fn push_matrix(&mut self)
        ensures
            final(self).top() == old(self).top(),
            final(self).saved_seq() == old(self).saved_seq().push(old(self).top()),
    {
        self.saved.push(self.current);
    }

    /// Restores the most recently saved transform and drops it from the
    /// stack; with nothing saved, nothing changes.
    pub fn pop_matrix(&mut self)
        ensures
            old(self).saved_seq().len() == 0 ==> final(self).top() == old(self).top()
                && final(self).saved_seq() == old(self).saved_seq(),
            old(self).saved_seq().len() > 0 ==> {
                &&& final(self).top() == old(self).saved_seq().last()
                &&& final(self).saved_seq() == old(self).saved_seq().drop_last()
            },
    {
        if let Some(m) = self.saved.pop() {
            self.current = m;
        }
    }

    /// Forgets every saved transform and makes `start` current again.
    pub fn reset(&mut self, start: M)
        ensures
            final(self).top() == start,
            final(self).saved_seq() == Seq::<M>::empty(),
    {
        self.saved.clear();
        self.current = start;
    }
}

} // verus!
