//! The continuation protocol shared by every builder.
//!
//! A builder owns one continuation: the consumer of the node that the builder
//! will finish. Finishing the node resumes the continuation with it and hands
//! back whatever the continuation returns. A builder that waits for a child
//! node is itself a continuation over that child, so chains of any depth
//! unwind in one call.

use vstd::prelude::*;

verus! {

/// A consumer of one finished value of type `A`.
pub trait Invoke<A: View>: Sized {
    /// What the consumer hands back once it has been resumed.
    type Result;

    /// Holds when the consumer, resumed with a value whose model is `arg`,
    /// may hand back `result`. A consumer that does not say what it hands
    /// back may hand back anything.
    open spec fn yields(self, arg: A::V, result: Self::Result) -> bool {
        true
    }

    /// Resumes the consumer with `arg`. There is no input on which this fails.
    fn invoke(self, arg: A) -> (result: Self::Result)
        ensures
            self.yields(arg@, result),
    ;
}

/// The continuation of a builder that is driven on its own: it hands the
/// finished value back unchanged.
#[derive(Clone, Copy, Debug, PartialEq, Eq)]
pub struct Identity;

impl<A: View> Invoke<A> for Identity {
    type Result = A;

    open spec fn yields(self, arg: A::V, result: A) -> bool {
        result@ == arg
    }

    fn invoke(self, arg: A) -> (result: A)
        ensures
            result == arg,
    {
        arg
    }
}

/// `callback.yields(arg, result)`, for a continuation over values of type `A`.
/// A builder may wait for more than one kind of value; this names the kind.
pub open spec fn resumed<A: View, F: Invoke<A>>(callback: F, arg: A::V, result: F::Result) -> bool {
    callback.yields(arg, result)
}

/// Resumed with a value, the identity continuation hands back a value with
/// the same model, and nothing else.
pub proof fn law_identity<A: View>(arg: A::V, result: A)
    ensures
        resumed::<A, Identity>(Identity, arg, result) <==> result@ == arg,
{
}

} // verus!
