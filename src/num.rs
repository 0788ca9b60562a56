use vstd::prelude::*;

use crate::error::DiceError;

verus! {

/// An integer strictly greater than zero.
#[derive(Debug, Clone, Copy, PartialEq, Eq, Structural)]
pub struct NonZeroPosInteger {
    n: u32,
}

impl View for NonZeroPosInteger {
    type V = nat;

    closed spec fn view(&self) -> nat {
        self.n as nat
    }
}

impl NonZeroPosInteger {
    #[verifier::type_invariant]
    spec fn positive(self) -> bool {
        self.n > 0
    }

    /// Wraps `n`, which must not be zero.
    pub fn new(n: u32) -> (r: Result<NonZeroPosInteger, DiceError>)
        ensures
            r is Ok <==> n > 0,
            r matches Ok(p) ==> p@ == n && p.value() == n,
            r matches Err(e) ==> e == DiceError::InvalidArgument,
    {
        if n == 0 {
            Err(DiceError::InvalidArgument)
        } else {
            Ok(NonZeroPosInteger { n })
        }
    }

    /// The wrapped integer.
    #[verifier::when_used_as_spec(spec_value)]
    pub fn value(&self) -> (r: u32)
        ensures
            r == self@,
            r == self.spec_value(),
            r > 0,
    {
        proof {
            use_type_invariant(self);
        }
        self.n
    }

    /// The wrapped integer, in specifications.
    pub closed spec fn spec_value(&self) -> u32 {
        self.n
    }
}

} // verus!
