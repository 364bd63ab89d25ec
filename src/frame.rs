use vstd::prelude::*;
use crate::fault::Fault;
use crate::value::Type;

verus! {

/// What popping the top of a frame holding `s` yields.
pub open spec fn pop_spec(s: Seq<Type>) -> Result<Type, Fault> {
    if s.len() > 0 {
        Ok(s.last())
    } else {
        Err(Fault::EmptyFrame)
    }
}

/// What reading `n` slots below the top of a frame holding `s` yields.
pub open spec fn peek_spec(s: Seq<Type>, n: int) -> Result<Type, Fault> {
    if 0 <= n < s.len() {
        Ok(s[s.len() - 1 - n])
    } else {
        Err(Fault::OffsetOutOfRange(n as usize))
    }
}

/// One call activation's value stack; its last element is the top.
#[derive(Debug)]
pub struct StackFrame {
    values: Vec<Type>,
}

impl View for StackFrame {
    type V = Seq<Type>;

    closed spec fn view(&self) -> Seq<Type> {
        self.values@
    }
}

impl StackFrame {
    /// An empty frame; `capacity` is an allocation hint only.
    pub fn new(capacity: usize) -> (r: StackFrame)
        ensures
            r@ == Seq::<Type>::empty(),
    {
        StackFrame { values: Vec::with_capacity(capacity) }
    }

    pub fn len(&self) -> (r: usize)
        ensures
            r == self@.len(),
    {
        self.values.len()
    }

    /// Pushes a value on top of the frame.
    pub fn push(&mut self, value: Type)
        ensures
            final(self)@ == old(self)@.push(value),
    {
        self.values.push(value);
    }

    /// Removes and returns the top value; fails on an empty frame.
    pub fn pop(&mut self) -> (r: Result<Type, Fault>)
        ensures
            r == pop_spec(old(self)@),
            final(self)@ == if old(self)@.len() > 0 {
                old(self)@.drop_last()
            } else {
                old(self)@
            },
    {
        match self.values.pop() {
            Some(v) => Ok(v),
            None => Err(Fault::EmptyFrame),
        }
    }

    /// Returns a copy of the value `n` slots below the top (`0` is the top
    /// itself), leaving the frame unchanged; fails when `n` is at or past the
    /// frame's size.
    pub fn clone_offset(&self, n: usize) -> (r: Result<Type, Fault>)
        ensures
            r == peek_spec(self@, n as int),
    {
        let len = self.values.len();
        if n < len {
            Ok(self.values[len - 1 - n])
        } else {
            Err(Fault::OffsetOutOfRange(n))
        }
    }

    /// Removes `n` values from the top; fails, changing nothing, when the
    /// frame holds fewer than `n`.
    pub fn pop_many(&mut self, n: usize) -> (r: Result<(), Fault>)
        ensures
            r is Ok <==> n <= old(self)@.len(),
            r is Ok ==> final(self)@ == old(self)@.subrange(0, old(self)@.len() - n),
            r is Err ==> r == Err::<(), Fault>(Fault::EmptyFrame) && final(self)@ == old(self)@,
    {
        if n > self.values.len() {
            return Err(Fault::EmptyFrame);
        }
        let mut i: usize = 0;
        while i < n
            invariant
                i <= n,
                n <= old(self)@.len(),
                self@ == old(self)@.subrange(0, old(self)@.len() - i),
            decreases n - i,
        {
            self.values.pop();
            i = i + 1;
        }
        Ok(())
    }
}

/// Reading at offset zero yields the top value; reading at or past the size
/// fails. Neither changes the frame.
pub proof fn lemma_peek_at_offset(s: Seq<Type>, n: int)
    ensures
        s.len() > 0 ==> peek_spec(s, 0) == Ok::<Type, Fault>(s.last()),
        s.len() > 0 ==> peek_spec(s, 0) == pop_spec(s),
        n >= s.len() ==> peek_spec(s, n) is Err,
{
}

} // verus!
