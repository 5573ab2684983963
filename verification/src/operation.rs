use vstd::prelude::*;
use crate::error::Error;

verus! {

/// A fallible, repeatable operation wrapped by a backoff or a circuit
/// breaker. An implementation carries a plan of its future outcomes:
/// `succeeds_after(i)` tells whether the `i`-th invocation from now
/// (counting from 0) succeeds. Each invocation consumes the front of the
/// plan and shifts the rest forward.
pub trait Operation<O, E> {
    /// Whether the `i`-th invocation from now will succeed.
    spec fn succeeds_after(&self, i: nat) -> bool;

    /// Performs the operation once.
    fn invoke(&mut self) -> (r: Result<O, E>)
        ensures
            r is Ok <==> old(self).succeeds_after(0),
            forall|i: nat| #[trigger] final(self).succeeds_after(i)
                == old(self).succeeds_after(i + 1),
    ;
}

/// No invocation among the first `n` of the plan succeeds.
pub open spec fn plan_fails_below<O, E, Op: Operation<O, E>>(op: Op, n: nat) -> bool {
    forall|i: nat| i < n ==> !(#[trigger] op.succeeds_after(i))
}

/// The first success of the plan is the invocation `j` from now.
pub open spec fn plan_first_success_at<O, E, Op: Operation<O, E>>(op: Op, j: nat) -> bool {
    op.succeeds_after(j) && plan_fails_below(op, j)
}

/// An operation whose outcomes follow a fixed script: it fails
/// `failures_left` more times and then succeeds on every later invocation;
/// with no count it fails forever. Failures carry a fixed message.
pub struct ScriptedOperation {
    pub failures_left: Option<usize>,
}

impl ScriptedOperation {
    /// An operation that succeeds at once.
    pub fn succeeding() -> (r: ScriptedOperation)
        ensures
            r.failures_left == Option::<usize>::Some(0),
    {
        ScriptedOperation { failures_left: Option::Some(0) }
    }

    /// An operation that fails on every invocation.
    pub fn failing() -> (r: ScriptedOperation)
        ensures
            r.failures_left == Option::<usize>::None,
    {
        ScriptedOperation { failures_left: Option::None }
    }

    /// An operation that fails `failures` times, then succeeds.
    pub fn recovering_after(failures: usize) -> (r: ScriptedOperation)
        ensures
            r.failures_left == Option::Some(failures),
    {
        ScriptedOperation { failures_left: Option::Some(failures) }
    }
}

impl Operation<(), Error> for ScriptedOperation {
    open spec fn succeeds_after(&self, i: nat) -> bool {
        match self.failures_left {
            Option::Some(n) => i >= n,
            Option::None => false,
        }
    }

    fn invoke(&mut self) -> (r: Result<(), Error>) {
        match self.failures_left {
            Option::Some(0) => Ok(()),
            Option::Some(n) => {
                self.failures_left = Option::Some(n - 1);
                Err(Error::new("Something went wrong."))
            }
            Option::None => Err(Error::new("Something went wrong.")),
        }
    }
}

} // verus!
