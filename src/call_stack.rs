use vstd::prelude::*;
use crate::fault::Fault;
use crate::frame::{StackFrame, pop_spec, peek_spec};
use crate::value::Type;

verus! {

/// The frame stack `s` with its top frame replaced by `top`.
pub open spec fn with_top(s: Seq<Seq<Type>>, top: Seq<Type>) -> Seq<Seq<Type>> {
    s.update(s.len() - 1, top)
}

/// The frame stack `s` after popping its top frame's top value.
pub open spec fn after_pop(s: Seq<Seq<Type>>) -> Seq<Seq<Type>> {
    if s.last().len() > 0 {
        with_top(s, s.last().drop_last())
    } else {
        s
    }
}

/// What removing the top frame of `s` yields: the remaining frames, or a
/// fault when that would leave none.
pub open spec fn pop_frame_spec(s: Seq<Seq<Type>>) -> Result<Seq<Seq<Type>>, Fault> {
    if s.len() > 1 {
        Ok(s.drop_last())
    } else {
        Err(Fault::FrameUnderflow)
    }
}

/// A stack of call frames. It always holds at least the root frame.
#[derive(Debug)]
pub struct CallStack {
    frames: Vec<StackFrame>,
}

impl View for CallStack {
    type V = Seq<Seq<Type>>;

    closed spec fn view(&self) -> Seq<Seq<Type>> {
        self.frames@.map_values(|f: StackFrame| f@)
    }
}

impl CallStack {
    /// A stack holding one empty root frame.
    pub fn new() -> (r: CallStack)
        ensures
            r@ == seq![Seq::<Type>::empty()],
    {
        let mut frames: Vec<StackFrame> = Vec::new();
        frames.push(StackFrame::new(0));
        let r = CallStack { frames };
        assert(r@ =~= seq![Seq::<Type>::empty()]);
        r
    }

    pub fn depth(&self) -> (r: usize)
        ensures
            r == self@.len(),
    {
        self.frames.len()
    }

    /// The top frame.
    pub fn top(&self) -> (r: &StackFrame)
        requires
            self@.len() >= 1,
        ensures
            r@ == self@.last(),
    {
        &self.frames[self.frames.len() - 1]
    }

    /// The top frame, to be changed in place.
    pub fn top_mut(&mut self) -> (r: &mut StackFrame)
        requires
            old(self)@.len() >= 1,
        ensures
            r@ == old(self)@.last(),
            final(self)@ == with_top(old(self)@, final(r)@),
    {
        let last = self.frames.len() - 1;
        &mut self.frames[last]
    }

    /// Pushes a value on the top frame.
    pub fn push(&mut self, value: Type)
        requires
            old(self)@.len() >= 1,
        ensures
            final(self)@ == with_top(old(self)@, old(self)@.last().push(value)),
    {
        let last = self.frames.len() - 1;
        self.frames[last].push(value);
        assert(self@ =~= with_top(old(self)@, old(self)@.last().push(value)));
    }
    /// Removes and returns the top frame's top value; fails on an empty top
    /// frame.
    pub fn pop(&mut self) -> (r: Result<Type, Fault>)
        requires
            old(self)@.len() >= 1,
        ensures
            r == pop_spec(old(self)@.last()),
            final(self)@ == after_pop(old(self)@),
    {
        let last = self.frames.len() - 1;
        let r = self.frames[last].pop();
        assert(self@ =~= after_pop(old(self)@));
        r
    }

    /// Returns a copy of the value `n` slots below the top of the top frame
    /// (`0` is the top itself); fails when `n` is at or past that frame's size.
    pub fn peek_at_offset(&self, n: usize) -> (r: Result<Type, Fault>)
        requires
            self@.len() >= 1,
        ensures
            r == peek_spec(self@.last(), n as int),
    {
        self.frames[self.frames.len() - 1].clone_offset(n)
    }

    /// Removes `n` values from the top frame; fails, changing nothing, when it
    /// holds fewer.
    pub fn pop_many(&mut self, n: usize) -> (r: Result<(), Fault>)
        requires
            old(self)@.len() >= 1,
        ensures
            final(self)@.len() == old(self)@.len(),
            r is Ok <==> n <= old(self)@.last().len(),
            r is Ok ==> final(self)@ == with_top(
                old(self)@,
                old(self)@.last().subrange(0, old(self)@.last().len() - n),
            ),
            r is Err ==> r == Err::<(), Fault>(Fault::EmptyFrame) && final(self)@ == old(self)@,
    {
        let last = self.frames.len() - 1;
        let r = self.frames[last].pop_many(n);
        proof {
            if r is Ok {
                assert(self@ =~= with_top(
                    old(self)@,
                    old(self)@.last().subrange(0, old(self)@.last().len() - n),
                ));
            } else {
                assert(self@ =~= old(self)@);
            }
        }
        r
    }

    /// Pushes a new, empty frame; `capacity` is an allocation hint only.
    pub fn push_frame(&mut self, capacity: usize)
        ensures
            final(self)@ == old(self)@.push(Seq::<Type>::empty()),
    {
        self.frames.push(StackFrame::new(capacity));
        assert(self@ =~= old(self)@.push(Seq::<Type>::empty()));
    }

    /// Removes the top frame; fails, changing nothing, when it is the only one.
    pub fn pop_frame(&mut self) -> (r: Result<(), Fault>)
        ensures
            match pop_frame_spec(old(self)@) {
                Ok(s) => r is Ok && final(self)@ == s,
                Err(e) => r == Err::<(), Fault>(e) && final(self)@ == old(self)@,
            },
    {
        if self.frames.len() <= 1 {
            return Err(Fault::FrameUnderflow);
        }
        self.frames.pop();
        assert(self@ =~= old(self)@.drop_last());
        Ok(())
    }
}

/// Pushing an empty frame and removing it again gives back the same frame
/// stack; removing a frame from a stack with a single frame fails.
pub proof fn lemma_push_pop_frame(s: Seq<Seq<Type>>)
    requires
        s.len() >= 1,
    ensures
        pop_frame_spec(s.push(Seq::<Type>::empty())) == Ok::<Seq<Seq<Type>>, Fault>(s),
        s.len() == 1 ==> pop_frame_spec(s) == Err::<Seq<Seq<Type>>, Fault>(Fault::FrameUnderflow),
{
    assert(s.push(Seq::<Type>::empty()).drop_last() =~= s);
}

} // verus!
