//! The bounded call stack of return addresses.
use vstd::prelude::*;

use crate::machine::Fault;

verus! {

pub const STACK_DEPTH: usize = 16;

/// A LIFO of at most 16 return addresses.
pub struct CallStack {
    entries: [u16; 16],
    depth: usize,
}

impl View for CallStack {
    type V = Seq<u16>;

    /// The addresses on the stack, oldest first.
    closed spec fn view(&self) -> Seq<u16> {
        self.entries@.subrange(0, self.depth as int)
    }
}

impl CallStack {
    /// The depth never exceeds 16.
    pub closed spec fn wf(&self) -> bool {
        self.depth <= 16
    }

    /// A well-formed stack holds at most 16 addresses.
    pub proof fn lemma_bounded(&self)
        requires
            self.wf(),
        ensures
            self@.len() <= 16,
    {
    }

    /// An empty stack.
    pub fn new() -> (r: CallStack)
        ensures
            r.wf(),
            r@ == Seq::<u16>::empty(),
    {
        let r = CallStack { entries: [0u16; 16], depth: 0 };
        proof {
            assert(r@ =~= Seq::<u16>::empty());
        }
        r
    }

    /// The number of addresses on the stack.
    pub fn depth(&self) -> (r: usize)
        requires
            self.wf(),
        ensures
            r == self@.len(),
    {
        self.depth
    }

    /// Pushes a return address; fails with `StackOverflow` at depth 16, leaving the stack as it was.
    pub fn push(&mut self, addr: u16) -> (r: Result<(), Fault>)
        requires
            old(self).wf(),
        ensures
            final(self).wf(),
            old(self)@.len() < 16 ==> r == Ok::<(), Fault>(()) && final(self)@ == old(self)@.push(addr),
            old(self)@.len() >= 16 ==> r == Err::<(), Fault>(Fault::StackOverflow) && final(self)@ == old(self)@,
    {
        if self.depth >= STACK_DEPTH {
            return Err(Fault::StackOverflow);
        }
        let ghost before = self@;
        self.entries[self.depth] = addr;
        self.depth = self.depth + 1;
        proof {
            assert(self@ =~= before.push(addr));
        }
        Ok(())
    }

    /// Pops the most recent return address; fails with `StackUnderflow` when empty,
    /// leaving the stack as it was.
    pub fn pop(&mut self) -> (r: Result<u16, Fault>)
        requires
            old(self).wf(),
        ensures
            final(self).wf(),
            old(self)@.len() > 0 ==> r == Ok::<u16, Fault>(old(self)@.last()) && final(self)@ == old(self)@.drop_last(),
            old(self)@.len() == 0 ==> r == Err::<u16, Fault>(Fault::StackUnderflow) && final(self)@ == old(self)@,
    {
        if self.depth == 0 {
            return Err(Fault::StackUnderflow);
        }
        let ghost before = self@;
        self.depth = self.depth - 1;
        let a = self.entries[self.depth];
        proof {
            assert(self@ =~= before.drop_last());
        }
        Ok(a)
    }
}

} // verus!
