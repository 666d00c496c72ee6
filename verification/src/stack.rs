//! The call stack: at most sixteen return addresses.

use vstd::prelude::*;
use crate::error::Chip8Error;

verus! {

/// How many return addresses the stack can hold.
pub const STACK_DEPTH: usize = 16;

/// The return-address stack. Its view is the sequence of addresses on it,
/// the oldest first.
pub struct Stack {
    slots: [u16; 16],
    depth: usize,
}

impl View for Stack {
    type V = Seq<u16>;

    closed spec fn view(&self) -> Seq<u16> {
        self.slots@.take(self.depth as int)
    }
}

impl Stack {
    /// The invariant of the type: the stack pointer is within the capacity.
    pub closed spec fn wf(&self) -> bool {
        self.depth <= STACK_DEPTH
    }

    /// A valid stack holds at most sixteen addresses.
    pub proof fn lemma_bounded(&self)
        requires
            self.wf(),
        ensures
            self@.len() <= STACK_DEPTH,
    {
    }

    /// The empty stack.
    pub fn new() -> (s: Stack)
        ensures
            s.wf(),
            s@ == Seq::<u16>::empty(),
    {
        Stack { slots: [0u16; 16], depth: 0 }
    }

    /// Number of addresses on the stack.
    pub fn len(&self) -> (n: usize)
        requires
            self.wf(),
        ensures
            n == self@.len(),
            n <= STACK_DEPTH,
    {
        self.depth
    }

    /// Puts `addr` on top. A full stack is left as it is and the call fails
    /// with `StackOverflow`.
    pub fn push(&mut self, addr: u16) -> (r: Result<(), Chip8Error>)
        requires
            old(self).wf(),
        ensures
            final(self).wf(),
            old(self)@.len() < STACK_DEPTH ==> r == Ok::<(), Chip8Error>(()) && final(self)@ == old(
                self,
            )@.push(addr),
            old(self)@.len() >= STACK_DEPTH ==> r == Err::<(), Chip8Error>(
                Chip8Error::StackOverflow,
            ) && final(self)@ == old(self)@,
    {
        if self.depth < STACK_DEPTH {
            self.slots[self.depth] = addr;
            self.depth = self.depth + 1;
            assert(self@ =~= old(self)@.push(addr));
            Ok(())
        } else {
            Err(Chip8Error::StackOverflow)
        }
    }

    /// Takes the top address off. On an empty stack fails with
    /// `StackUnderflow`.
    pub fn pop(&mut self) -> (r: Result<u16, Chip8Error>)
        requires
            old(self).wf(),
        ensures
            final(self).wf(),
            old(self)@.len() > 0 ==> r == Ok::<u16, Chip8Error>(old(self)@.last()) && final(self)@
                == old(self)@.drop_last(),
            old(self)@.len() == 0 ==> r == Err::<u16, Chip8Error>(Chip8Error::StackUnderflow)
                && final(self)@ == old(self)@,
    {
        if self.depth > 0 {
            self.depth = self.depth - 1;
            assert(self@ =~= old(self)@.drop_last());
            Ok(self.slots[self.depth])
        } else {
            Err(Chip8Error::StackUnderflow)
        }
    }
}

} // verus!
