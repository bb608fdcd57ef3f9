//! The memory of the direct-form-I recursion.
//!
//! A filter instance remembers its last two inputs and its last two
//! outputs. After every processed sample the history shifts by one: the
//! newest input and output enter, the oldest leave. A new history, or one
//! that was reset, holds the zero value everywhere, which stands for an
//! infinite run of silence before the first sample.
use vstd::prelude::*;

verus! {

/// The previous two inputs and the previous two outputs of one filter instance.
#[derive(Clone, Copy, Debug, PartialEq)]
pub struct History<T> {
    /// The input one sample back.
    pub sin_1: T,
    /// The input two samples back.
    pub sin_2: T,
    /// The output one sample back.
    pub sout_1: T,
    /// The output two samples back.
    pub sout_2: T,
}

/// A history that holds `zero` in every slot.
pub open spec fn spec_silent<T>(zero: T) -> History<T> {
    History { sin_1: zero, sin_2: zero, sout_1: zero, sout_2: zero }
}

/// The history after one step that took `input` and produced `output`.
pub open spec fn spec_shifted<T>(h: History<T>, input: T, output: T) -> History<T> {
    History { sin_1: input, sin_2: h.sin_1, sout_1: output, sout_2: h.sout_1 }
}

/// The history after a run of steps, each pair being an input and the
/// output produced for it, from the first to the last.
pub open spec fn spec_after<T>(h: History<T>, steps: Seq<(T, T)>) -> History<T>
    decreases steps.len(),
{
    if steps.len() == 0 {
        h
    } else {
        let last = steps.last();
        spec_shifted(spec_after(h, steps.drop_last()), last.0, last.1)
    }
}

/// The memory spans two samples: after a run of at least two steps the
/// history holds the run's last two inputs and outputs, whatever it held
/// before the run.
pub proof fn lemma_history_holds_last_two<T>(h: History<T>, steps: Seq<(T, T)>)
    requires
        steps.len() >= 2,
    ensures
        spec_after(h, steps) == (History {
            sin_1: steps[steps.len() - 1].0,
            sin_2: steps[steps.len() - 2].0,
            sout_1: steps[steps.len() - 1].1,
            sout_2: steps[steps.len() - 2].1,
        }),
{
    let before = steps.drop_last();
    assert(before.last() == steps[steps.len() - 2]);
    assert(spec_after(h, before) == spec_shifted(
        spec_after(h, before.drop_last()),
        before.last().0,
        before.last().1,
    ));
}

impl<T: Copy> History<T> {
    /// A history of silence.
    pub fn new(zero: T) -> (r: Self)
        ensures
            r == spec_silent(zero),
    {
        History { sin_1: zero, sin_2: zero, sout_1: zero, sout_2: zero }
    }

    /// Records one step: `input` was taken and `output` produced.
    pub fn shift(&mut self, input: T, output: T)
        ensures
            *final(self) == spec_shifted(*old(self), input, output),
    {
        self.sin_2 = self.sin_1;
        self.sin_1 = input;
        self.sout_2 = self.sout_1;
        self.sout_1 = output;
    }

    /// Clears the memory between independent streams.
    pub fn reset(&mut self, zero: T)
        ensures
            *final(self) == spec_silent(zero),
    {
        *self = History::new(zero);
    }
}

} // verus!
