use vstd::prelude::*;
use crate::error::CpuError;

verus! {

/// The call stack: 16-bit values added and removed at one end.
pub struct Stack {
    buffer: Vec<u16>,
}

impl View for Stack {
    type V = Seq<u16>;

    /// The values from the bottom of the stack to its top.
    closed spec fn view(&self) -> Seq<u16> {
        self.buffer@
    }
}

impl Stack {
    pub fn new() -> (s: Stack)
        ensures
            s@ == Seq::<u16>::empty(),
    {
        Stack { buffer: Vec::new() }
    }

    /// Puts `data` on top.
    pub fn push(&mut self, data: u16)
        ensures
            final(self)@ == old(self)@.push(data),
    {
        self.buffer.push(data);
    }

    /// Takes the top value off, or reports an underflow on an empty stack.
    pub fn pop(&mut self) -> (r: Result<u16, CpuError>)
        ensures
            old(self)@.len() == 0 ==> r == Err::<u16, CpuError>(CpuError::StackUnderflow)
                && final(self)@ == old(self)@,
            old(self)@.len() > 0 ==> r == Ok::<u16, CpuError>(old(self)@.last()) && final(self)@
                == old(self)@.drop_last(),
    {
        match self.buffer.pop() {
            Some(x) => Ok(x),
            None => Err(CpuError::StackUnderflow),
        }
    }

    /// The top value, if any.
    pub fn peek(&self) -> (r: Option<u16>)
        ensures
            r == (if self@.len() == 0 { None } else { Some(self@.last()) }),
    {
        if self.buffer.len() == 0 {
            None
        } else {
            Some(self.buffer[self.buffer.len() - 1])
        }
    }

    pub fn len(&self) -> (r: usize)
        ensures
            r == self@.len(),
    {
        self.buffer.len()
    }
}

/// The stack after pushing `vals`, first to last, onto `s`.
pub open spec fn push_all(s: Seq<u16>, vals: Seq<u16>) -> Seq<u16>
    decreases vals.len(),
{
    if vals.len() == 0 {
        s
    } else {
        push_all(s.push(vals[0]), vals.skip(1))
    }
}

/// The stack after `k` pops from `s` (stopping at empty).
pub open spec fn pop_n(s: Seq<u16>, k: nat) -> Seq<u16>
    decreases k,
{
    if k == 0 || s.len() == 0 {
        s
    } else {
        pop_n(s.drop_last(), (k - 1) as nat)
    }
}

proof fn lemma_push_all_appends(s: Seq<u16>, vals: Seq<u16>)
    ensures
        push_all(s, vals) == s + vals,
    decreases vals.len(),
{
    if vals.len() == 0 {
        assert(s + vals =~= s);
    } else {
        lemma_push_all_appends(s.push(vals[0]), vals.skip(1));
        assert(s.push(vals[0]) + vals.skip(1) =~= s + vals);
    }
}

proof fn lemma_pop_n_takes(s: Seq<u16>, k: nat)
    requires
        k <= s.len(),
    ensures
        pop_n(s, k) == s.take(s.len() - k),
    decreases k,
{
    if k == 0 {
        assert(s.take(s.len() as int) =~= s);
    } else {
        lemma_pop_n_takes(s.drop_last(), (k - 1) as nat);
        assert(s.drop_last().take(s.drop_last().len() - (k - 1)) =~= s.take(s.len() - k));
    }
}

/// Last in, first out: a pop right after pushing `v` gives `v` back and
/// restores the stack; after pushing `vals` onto an empty stack, the pop
/// numbered `k` (from 0) gives `vals[n - 1 - k]`, and after `n` pops the
/// stack is empty again, so one more pop underflows.
pub proof fn lemma_lifo(s: Seq<u16>, v: u16, vals: Seq<u16>, k: nat)
    requires
        k < vals.len(),
    ensures
        s.push(v).len() > 0,
        s.push(v).last() == v,
        s.push(v).drop_last() == s,
        pop_n(push_all(Seq::empty(), vals), k).len() > 0,
        pop_n(push_all(Seq::empty(), vals), k).last() == vals[vals.len() - 1 - k],
        pop_n(push_all(Seq::empty(), vals), vals.len()).len() == 0,
{
    assert(s.push(v).drop_last() =~= s);
    lemma_push_all_appends(Seq::empty(), vals);
    assert(Seq::<u16>::empty() + vals =~= vals);
    lemma_pop_n_takes(vals, k);
    lemma_pop_n_takes(vals, vals.len());
}

} // verus!
