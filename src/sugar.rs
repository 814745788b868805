use vstd::prelude::*;
use crate::guard::{is_conjunction_of, negation, Guard};
use crate::port::Port;

verus! {

/// A port read as a guard: the leaf `Port(port)`.
impl From<Port> for Guard {
    fn from(port: Port) -> (r: Guard) {
        Guard::Port(port)
    }
}

impl vstd::std_specs::convert::FromSpecImpl<Port> for Guard {
    open spec fn obeys_from_spec() -> bool {
        true
    }

    open spec fn from_spec(port: Port) -> Guard {
        Guard::Port(port)
    }
}

/// `a & b` is `a.and(b)`.
impl core::ops::BitAnd for Guard {
    type Output = Guard;

    fn bitand(self, other: Guard) -> (r: Guard)
        ensures
            is_conjunction_of(seq![self, other], r),
    {
        self.and(other)
    }
}

impl vstd::std_specs::ops::BitAndSpecImpl for Guard {
    open spec fn obeys_bitand_spec() -> bool {
        false
    }

    open spec fn bitand_req(self, other: Guard) -> bool {
        true
    }

    // The result holds a new vector, which no spec value can name: the
    // `ensures` of `bitand` above states it instead.
    open spec fn bitand_spec(self, other: Guard) -> Guard {
        vstd::pervasive::arbitrary()
    }
}

/// `a | b` is `a.or(b)`.
impl core::ops::BitOr for Guard {
    type Output = Guard;

    fn bitor(self, other: Guard) -> (r: Guard)
        ensures
            r is Or,
            r->Or_0@ == seq![self, other],
    {
        self.or(other)
    }
}

impl vstd::std_specs::ops::BitOrSpecImpl for Guard {
    open spec fn obeys_bitor_spec() -> bool {
        false
    }

    open spec fn bitor_req(self, other: Guard) -> bool {
        true
    }

    // The result holds a new vector, which no spec value can name: the
    // `ensures` of `bitor` above states it instead.
    open spec fn bitor_spec(self, other: Guard) -> Guard {
        vstd::pervasive::arbitrary()
    }
}

/// `!a` is `a.not()`.
impl core::ops::Not for Guard {
    type Output = Guard;

    fn not(self) -> (r: Guard) {
        Guard::not(self)
    }
}

impl vstd::std_specs::ops::NotSpecImpl for Guard {
    open spec fn obeys_not_spec() -> bool {
        true
    }

    open spec fn not_req(self) -> bool {
        true
    }

    open spec fn not_spec(self) -> Guard {
        negation(self)
    }
}

} // verus!
