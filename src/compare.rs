use vstd::prelude::*;
use core::cmp::Ordering;
use crate::guard::Guard;

verus! {

/// The place of `g`'s shape in the canonical order, from `True` (lowest) to
/// `Or` (highest). Operands and ports play no part.
pub open spec fn shape_rank(g: Guard) -> int {
    match g {
        Guard::True => 0,
        Guard::Port(_) => 1,
        Guard::Not(_) => 2,
        Guard::Neq(_, _) => 3,
        Guard::Eq(_, _) => 4,
        Guard::Gt(_, _) => 5,
        Guard::Lt(_, _) => 6,
        Guard::Geq(_, _) => 7,
        Guard::Leq(_, _) => 8,
        Guard::And(_) => 9,
        Guard::Or(_) => 10,
    }
}

/// Whether `a` and `b` are the same variant, whatever their operands.
pub open spec fn same_shape(a: Guard, b: Guard) -> bool {
    shape_rank(a) == shape_rank(b)
}

/// How `a` compares with `b` in the canonical order: by shape alone.
pub open spec fn shape_order(a: Guard, b: Guard) -> Ordering {
    if shape_rank(a) < shape_rank(b) {
        Ordering::Less
    } else if shape_rank(a) == shape_rank(b) {
        Ordering::Equal
    } else {
        Ordering::Greater
    }
}

/// Shape equality: two guards are equal when they are the same variant, so
/// that any two port leaves are equal, whichever ports they read.
impl PartialEq for Guard {
    fn eq(&self, other: &Guard) -> (r: bool) {
        match (self, other) {
            (Guard::Or(_), Guard::Or(_)) => true,
            (Guard::And(_), Guard::And(_)) => true,
            (Guard::Eq(_, _), Guard::Eq(_, _)) => true,
            (Guard::Neq(_, _), Guard::Neq(_, _)) => true,
            (Guard::Gt(_, _), Guard::Gt(_, _)) => true,
            (Guard::Lt(_, _), Guard::Lt(_, _)) => true,
            (Guard::Geq(_, _), Guard::Geq(_, _)) => true,
            (Guard::Leq(_, _), Guard::Leq(_, _)) => true,
            (Guard::Not(_), Guard::Not(_)) => true,
            (Guard::Port(_), Guard::Port(_)) => true,
            (Guard::True, Guard::True) => true,
            _ => false,
        }
    }
}

impl vstd::std_specs::cmp::PartialEqSpecImpl for Guard {
    open spec fn obeys_eq_spec() -> bool {
        true
    }

    open spec fn eq_spec(&self, other: &Guard) -> bool {
        same_shape(*self, *other)
    }
}

impl Eq for Guard {

}

impl Guard {
    /// Compares two guards in the canonical order; see [`shape_order`]. All
    /// guards of one shape compare equal.
    pub fn cmp(&self, other: &Guard) -> (r: Ordering)
        ensures
            r == shape_order(*self, *other),
    {
        if *self == *other {
            Ordering::Equal
        } else {
            match (self, other) {
                (Guard::Or(_), _) => Ordering::Greater,
                (_, Guard::Or(_)) => Ordering::Less,
                (Guard::And(_), _) => Ordering::Greater,
                (_, Guard::And(_)) => Ordering::Less,
                (Guard::Leq(..), _) => Ordering::Greater,
                (_, Guard::Leq(..)) => Ordering::Less,
                (Guard::Geq(..), _) => Ordering::Greater,
                (_, Guard::Geq(..)) => Ordering::Less,
                (Guard::Lt(..), _) => Ordering::Greater,
                (_, Guard::Lt(..)) => Ordering::Less,
                (Guard::Gt(..), _) => Ordering::Greater,
                (_, Guard::Gt(..)) => Ordering::Less,
                (Guard::Eq(..), _) => Ordering::Greater,
                (_, Guard::Eq(..)) => Ordering::Less,
                (Guard::Neq(..), _) => Ordering::Greater,
                (_, Guard::Neq(..)) => Ordering::Less,
                (Guard::Not(..), _) => Ordering::Greater,
                (_, Guard::Not(..)) => Ordering::Less,
                (Guard::Port(..), _) => Ordering::Greater,
                (_, Guard::Port(..)) => Ordering::Less,
                (Guard::True, _) => Ordering::Greater,
            }
        }
    }
}

impl PartialOrd for Guard {
    fn partial_cmp(&self, other: &Guard) -> (r: Option<Ordering>) {
        Some(self.cmp(other))
    }
}

impl vstd::std_specs::cmp::PartialOrdSpecImpl for Guard {
    open spec fn obeys_partial_cmp_spec() -> bool {
        true
    }

    open spec fn partial_cmp_spec(&self, other: &Guard) -> Option<Ordering> {
        Some(shape_order(*self, *other))
    }
}

} // verus!
