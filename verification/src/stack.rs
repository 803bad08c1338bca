//! The call stack: a bounded last-in, first-out store of return addresses.

use vstd::prelude::*;
use crate::types::Addr;

verus! {

/// Largest number of return addresses that the stack holds.
pub const STACK_DEPTH: usize = 16;

/// Why a stack operation was refused.
#[derive(Debug, Copy, Clone, PartialEq, Eq, Structural)]
pub enum StackError {
    /// A push onto a full stack.
    Overflow,
    /// A pop from an empty stack.
    Underflow,
}

/// Up to sixteen return addresses. Its view is the sequence of the addresses
/// held, oldest first.
pub struct Stack {
    stack: [Addr; 16],
    sp: usize,
}

impl View for Stack {
    type V = Seq<Addr>;

    closed spec fn view(&self) -> Seq<Addr> {
        self.stack@.subrange(0, self.sp as int)
    }
}

impl Stack {
    /// The stack holds no more addresses than it has room for.
    pub closed spec fn wf(&self) -> bool {
        self.sp <= 16
    }

    /// An empty stack.
    pub fn new() -> (s: Stack)
        ensures
            s.wf(),
            s@ == Seq::<Addr>::empty(),
    {
        let s = Stack { stack: [Addr(0); 16], sp: 0 };
        assert(s@ =~= Seq::<Addr>::empty());
        s
    }

    /// Number of addresses held.
    pub fn depth(&self) -> (n: usize)
        requires
            self.wf(),
        ensures
            n == self@.len(),
            n <= 16,
    {
        self.sp
    }

    /// Puts `addr` on top of the stack. A full stack is left as it is and
    /// the push is refused.
    pub fn push(&mut self, addr: Addr) -> (r: Result<(), StackError>)
        requires
            old(self).wf(),
        ensures
            final(self).wf(),
            old(self)@.len() < 16 ==> r == Ok::<(), StackError>(()) && final(self)@ == old(self)@.push(addr),
            old(self)@.len() >= 16 ==> r == Err::<(), StackError>(StackError::Overflow) && final(self)@
                == old(self)@,
    {
        if self.sp >= STACK_DEPTH {
            return Err(StackError::Overflow);
        }
        self.stack[self.sp] = addr;
        self.sp = self.sp + 1;
        assert(self@ =~= old(self)@.push(addr));
        Ok(())
    }

    /// Takes the most recently pushed address off the stack. An empty stack
    /// is left as it is and the pop is refused.
    pub fn pop(&mut self) -> (r: Result<Addr, StackError>)
        requires
            old(self).wf(),
        ensures
            final(self).wf(),
            old(self)@.len() > 0 ==> r == Ok::<Addr, StackError>(old(self)@.last()) && final(self)@ == old(
                self,
            )@.drop_last(),
            old(self)@.len() == 0 ==> r == Err::<Addr, StackError>(StackError::Underflow) && final(self)@
                == old(self)@,
    {
        if self.sp == 0 {
            return Err(StackError::Underflow);
        }
        self.sp = self.sp - 1;
        let addr = self.stack[self.sp];
        assert(self@ =~= old(self)@.drop_last());
        Ok(addr)
    }
}

/// A push followed by a pop gives back the pushed address and the stack as
/// it was before.
pub proof fn push_then_pop(s: Seq<Addr>, addr: Addr)
    ensures
        s.push(addr).last() == addr,
        s.push(addr).drop_last() == s,
{
    assert(s.push(addr).drop_last() =~= s);
}

} // verus!
