use vstd::prelude::*;
use core::cmp::Ordering;
use crate::compare::{same_shape, shape_order};
use crate::port::Port;
use crate::guard::{
    conjuncts, conjuncts_all, is_comparison, is_conjunction_of, negation, ports_of, ports_of_all, rewritten,
    trivially_true, Guard,
};

verus! {

/// Whether `g` may stand as an operand of a normalized conjunction: it is
/// neither a conjunction itself nor trivially true.
pub open spec fn flat_conjunct(g: Guard) -> bool {
    !(g is And) && !trivially_true(g)
}

/// Every operand that a guard contributes to a conjunction is flat.
proof fn lemma_conjuncts_flat(g: Guard)
    ensures
        forall|i: int| 0 <= i < conjuncts(g).len() ==> flat_conjunct(#[trigger] conjuncts(g)[i]),
    decreases g,
{
    match g {
        Guard::And(gs) => {
            lemma_conjuncts_all_flat(gs@);
            assert(conjuncts(g) == conjuncts_all(gs@));
        },
        _ => {},
    }
}

/// Every operand that a sequence of guards contributes to a conjunction is
/// flat.
proof fn lemma_conjuncts_all_flat(gs: Seq<Guard>)
    ensures
        forall|i: int|
            0 <= i < conjuncts_all(gs).len() ==> flat_conjunct(#[trigger] conjuncts_all(gs)[i]),
    decreases gs,
{
    if gs.len() > 0 {
        let init = gs.subrange(0, gs.len() - 1);
        let last = gs[gs.len() - 1];
        lemma_conjuncts_all_flat(init);
        lemma_conjuncts_flat(last);
        let whole = conjuncts_all(gs);
        assert(whole == conjuncts_all(init) + conjuncts(last));
        assert forall|i: int| 0 <= i < whole.len() implies flat_conjunct(#[trigger] whole[i]) by {
            if i >= conjuncts_all(init).len() {
                assert(whole[i] == conjuncts(last)[i - conjuncts_all(init).len()]);
            }
        }
    }
}

/// The conjunction of a single guard is that guard itself, unchanged.
pub proof fn lemma_and_vec_single(g: Guard, r: Guard)
    requires
        is_conjunction_of(seq![g], r),
    ensures
        r == g,
{
}

/// A conjunction of any number of guards but one is an `And` none of whose
/// operands is an `And` or trivially true.
pub proof fn lemma_and_vec_normalized(gs: Seq<Guard>, r: Guard)
    requires
        gs.len() != 1,
        is_conjunction_of(gs, r),
    ensures
        r is And,
        forall|i: int| 0 <= i < r->And_0@.len() ==> flat_conjunct(#[trigger] r->And_0@[i]),
{
    lemma_conjuncts_all_flat(gs);
}

/// The conjunct list of two guards is the conjunct list of the first followed
/// by that of the second.
proof fn lemma_conjuncts_pair(x: Guard, y: Guard)
    ensures
        conjuncts_all(seq![x, y]) == conjuncts(x) + conjuncts(y),
{
    let s = seq![x, y];
    assert(s.subrange(0, 1) =~= seq![x]);
    assert(seq![x].subrange(0, 0) =~= Seq::<Guard>::empty());
    assert(conjuncts_all(Seq::<Guard>::empty()) == Seq::<Guard>::empty());
    assert(conjuncts_all(seq![x]) =~= conjuncts(x));
}

/// Conjoining a conjunction of two flat guards `a` and `b` with a third flat
/// guard `c` gives one `And` of exactly `a`, `b`, `c`, in that order.
pub proof fn lemma_and_vec_flattens(a: Guard, b: Guard, c: Guard, ab: Guard, r: Guard)
    requires
        flat_conjunct(a),
        flat_conjunct(b),
        flat_conjunct(c),
        ab is And,
        ab->And_0@ == seq![a, b],
        is_conjunction_of(seq![ab, c], r),
    ensures
        r is And,
        r->And_0@ == seq![a, b, c],
{
    lemma_conjuncts_pair(ab, c);
    lemma_conjuncts_pair(a, b);
    assert(conjuncts(ab) == conjuncts_all(seq![a, b]));
    assert(r->And_0@ =~= seq![a, b, c]);
}

/// `True` is an identity of conjunction, on either side: conjoined with `x`
/// it leaves what `x` alone contributes; that is `x` itself when `x` is flat,
/// and nothing when `x` is trivially true.
pub proof fn lemma_and_true(x: Guard, r: Guard, s: Guard)
    requires
        is_conjunction_of(seq![Guard::True, x], r),
        is_conjunction_of(seq![x, Guard::True], s),
    ensures
        r is And,
        s is And,
        r->And_0@ == conjuncts(x),
        s->And_0@ == conjuncts(x),
        flat_conjunct(x) ==> r->And_0@ == seq![x],
        trivially_true(x) ==> r->And_0@.len() == 0,
{
    lemma_conjuncts_pair(Guard::True, x);
    lemma_conjuncts_pair(x, Guard::True);
    assert(conjuncts(Guard::True) =~= Seq::<Guard>::empty());
    assert(seq![] + conjuncts(x) =~= conjuncts(x));
    assert(conjuncts(x) + seq![] =~= conjuncts(x));
}

/// Negating a comparison twice gives it back, and each comparison negates to
/// its complement over the same operands.
pub proof fn lemma_not_comparison(g: Guard)
    requires
        is_comparison(g),
    ensures
        is_comparison(negation(g)),
        negation(negation(g)) == g,
        g is Eq ==> negation(g) == Guard::Neq(g->Eq_0, g->Eq_1),
        g is Neq ==> negation(g) == Guard::Eq(g->Neq_0, g->Neq_1),
        g is Gt ==> negation(g) == Guard::Leq(g->Gt_0, g->Gt_1),
        g is Leq ==> negation(g) == Guard::Gt(g->Leq_0, g->Leq_1),
        g is Lt ==> negation(g) == Guard::Geq(g->Lt_0, g->Lt_1),
        g is Geq ==> negation(g) == Guard::Lt(g->Geq_0, g->Geq_1),
{
}

/// Negating a conjunction, a disjunction, a port or `True` wraps it in a
/// `Not`, unchanged: no De Morgan rewriting takes place.
pub proof fn lemma_not_wraps(g: Guard)
    requires
        g is And || g is Or || g is Port || g is True,
    ensures
        negation(g) == Guard::Not(Box::new(g)),
{
}

/// Negating a `Not` takes its operand out.
pub proof fn lemma_not_not(e: Guard)
    ensures
        negation(Guard::Not(Box::new(e))) == e,
{
}

/// Equality of guards sees shapes only: any two port leaves are equal,
/// whichever ports they read, and an `Eq` never equals a `Neq`, whatever the
/// operands.
pub proof fn lemma_shape_equality(p1: Port, p2: Port, l1: Guard, r1: Guard, l2: Guard, r2: Guard)
    ensures
        same_shape(Guard::Port(p1), Guard::Port(p2)),
        !same_shape(Guard::Eq(Box::new(l1), Box::new(r1)), Guard::Neq(Box::new(l2), Box::new(r2))),
{
}

/// The canonical order groups guards by shape: two guards compare equal
/// exactly when they have one shape (so any two `And` nodes do), the order is
/// antisymmetric and transitive, and `True` comes before any port leaf.
pub proof fn lemma_order_by_shape(a: Guard, b: Guard, c: Guard, p: Port)
    ensures
        (shape_order(a, b) == Ordering::Equal) <==> same_shape(a, b),
        a is And && b is And ==> shape_order(a, b) == Ordering::Equal,
        (shape_order(a, b) == Ordering::Less) <==> (shape_order(b, a) == Ordering::Greater),
        shape_order(a, b) == Ordering::Less && shape_order(b, c) == Ordering::Less
            ==> shape_order(a, c) == Ordering::Less,
        shape_order(Guard::True, Guard::Port(p)) == Ordering::Less,
{
}

/// Whether every answer of `f` renames the port it is given by `rename`:
/// it is the leaf `Port(rename(p))`, or nothing where `rename` keeps `p`.
pub open spec fn renames_by<F: Fn(&Port) -> Option<Guard>>(f: F, rename: spec_fn(Port) -> Port) -> bool {
    forall|p: Port, o: Option<Guard>|
        #[trigger] f.ensures((&p,), o) ==> o == Some(Guard::Port(rename(p))) || (o is None
            && rename(p) == p)
}

/// A rewrite whose answers rename ports, leaf for leaf, renames the list of
/// ports that the guard reads, in place.
pub proof fn lemma_rewrite_renames_ports<F: Fn(&Port) -> Option<Guard>>(
    f: F,
    rename: spec_fn(Port) -> Port,
    a: Guard,
    b: Guard,
)
    requires
        renames_by(f, rename),
        rewritten(f, a, b),
    ensures
        ports_of(b) == ports_of(a).map_values(rename),
    decreases a,
{
    match a {
        Guard::Or(xs) => {
            lemma_rewrite_all_renames_ports(f, rename, xs@, b->Or_0@);
        },
        Guard::And(xs) => {
            lemma_rewrite_all_renames_ports(f, rename, xs@, b->And_0@);
        },
        Guard::Eq(l, r) => {
            lemma_rewrite_renames_ports(f, rename, *l, *b->Eq_0);
            lemma_rewrite_renames_ports(f, rename, *r, *b->Eq_1);
            assert(ports_of(b) =~= ports_of(a).map_values(rename));
        },
        Guard::Neq(l, r) => {
            lemma_rewrite_renames_ports(f, rename, *l, *b->Neq_0);
            lemma_rewrite_renames_ports(f, rename, *r, *b->Neq_1);
            assert(ports_of(b) =~= ports_of(a).map_values(rename));
        },
        Guard::Gt(l, r) => {
            lemma_rewrite_renames_ports(f, rename, *l, *b->Gt_0);
            lemma_rewrite_renames_ports(f, rename, *r, *b->Gt_1);
            assert(ports_of(b) =~= ports_of(a).map_values(rename));
        },
        Guard::Lt(l, r) => {
            lemma_rewrite_renames_ports(f, rename, *l, *b->Lt_0);
            lemma_rewrite_renames_ports(f, rename, *r, *b->Lt_1);
            assert(ports_of(b) =~= ports_of(a).map_values(rename));
        },
        Guard::Geq(l, r) => {
            lemma_rewrite_renames_ports(f, rename, *l, *b->Geq_0);
            lemma_rewrite_renames_ports(f, rename, *r, *b->Geq_1);
            assert(ports_of(b) =~= ports_of(a).map_values(rename));
        },
        Guard::Leq(l, r) => {
            lemma_rewrite_renames_ports(f, rename, *l, *b->Leq_0);
            lemma_rewrite_renames_ports(f, rename, *r, *b->Leq_1);
            assert(ports_of(b) =~= ports_of(a).map_values(rename));
        },
        Guard::Not(e) => {
            lemma_rewrite_renames_ports(f, rename, *e, *b->Not_0);
        },
        Guard::Port(p) => {
            assert(b == Guard::Port(rename(p)));
            assert(ports_of(b) =~= ports_of(a).map_values(rename));
        },
        Guard::True => {
            assert(ports_of(b) =~= ports_of(a).map_values(rename));
        },
    }
}

/// The sequence form of [`lemma_rewrite_renames_ports`].
proof fn lemma_rewrite_all_renames_ports<F: Fn(&Port) -> Option<Guard>>(
    f: F,
    rename: spec_fn(Port) -> Port,
    xs: Seq<Guard>,
    ys: Seq<Guard>,
)
    requires
        renames_by(f, rename),
        ys.len() == xs.len(),
        forall|i: int| 0 <= i < xs.len() ==> rewritten(f, #[trigger] xs[i], ys[i]),
    ensures
        ports_of_all(ys) == ports_of_all(xs).map_values(rename),
    decreases xs,
{
    if xs.len() > 0 {
        let n = xs.len() - 1;
        lemma_rewrite_all_renames_ports(f, rename, xs.subrange(0, n), ys.subrange(0, n));
        lemma_rewrite_renames_ports(f, rename, xs[n], ys[n]);
        assert(ports_of_all(ys) =~= ports_of_all(xs).map_values(rename));
    } else {
        assert(ports_of_all(ys) =~= ports_of_all(xs).map_values(rename));
    }
}

} // verus!
