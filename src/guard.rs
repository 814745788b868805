use vstd::prelude::*;
use crate::port::Port;

verus! {

/// A condition on port values under which an assignment is active.
///
/// `And` and `Or` are variadic; the comparisons hold two owned operands;
/// `Port` is a leaf that reads a shared port; `True` always holds.
#[derive(Debug)]
pub enum Guard {
    Or(Vec<Guard>),
    And(Vec<Guard>),
    Eq(Box<Guard>, Box<Guard>),
    Neq(Box<Guard>, Box<Guard>),
    Gt(Box<Guard>, Box<Guard>),
    Lt(Box<Guard>, Box<Guard>),
    Geq(Box<Guard>, Box<Guard>),
    Leq(Box<Guard>, Box<Guard>),
    Not(Box<Guard>),
    Port(Port),
    True,
}

/// Whether `a` and `b` are the same tree: the same shapes in the same places,
/// with the same ports at the leaves.
pub open spec fn same_tree(a: Guard, b: Guard) -> bool
    decreases a,
{
    match (a, b) {
        (Guard::Or(xs), Guard::Or(ys)) | (Guard::And(xs), Guard::And(ys)) => {
            &&& xs@.len() == ys@.len()
            &&& forall|i: int| 0 <= i < xs@.len() ==> same_tree(#[trigger] xs@[i], ys@[i])
        },
        (Guard::Eq(l1, r1), Guard::Eq(l2, r2))
        | (Guard::Neq(l1, r1), Guard::Neq(l2, r2))
        | (Guard::Gt(l1, r1), Guard::Gt(l2, r2))
        | (Guard::Lt(l1, r1), Guard::Lt(l2, r2))
        | (Guard::Geq(l1, r1), Guard::Geq(l2, r2))
        | (Guard::Leq(l1, r1), Guard::Leq(l2, r2)) => same_tree(*l1, *l2) && same_tree(*r1, *r2),
        (Guard::Not(e1), Guard::Not(e2)) => same_tree(*e1, *e2),
        (Guard::Port(p), Guard::Port(q)) => p == q,
        (Guard::True, Guard::True) => true,
        _ => false,
    }
}

impl Clone for Guard {
    /// A deep copy: the copy is the same tree, leaf for leaf.
    fn clone(&self) -> (r: Guard)
        ensures
            same_tree(r, *self),
        decreases self,
    {
        match self {
            Guard::Or(gs) => Guard::Or(clone_all(gs)),
            Guard::And(gs) => Guard::And(clone_all(gs)),
            Guard::Eq(l, r) => Guard::Eq(Box::new((**l).clone()), Box::new((**r).clone())),
            Guard::Neq(l, r) => Guard::Neq(Box::new((**l).clone()), Box::new((**r).clone())),
            Guard::Gt(l, r) => Guard::Gt(Box::new((**l).clone()), Box::new((**r).clone())),
            Guard::Lt(l, r) => Guard::Lt(Box::new((**l).clone()), Box::new((**r).clone())),
            Guard::Geq(l, r) => Guard::Geq(Box::new((**l).clone()), Box::new((**r).clone())),
            Guard::Leq(l, r) => Guard::Leq(Box::new((**l).clone()), Box::new((**r).clone())),
            Guard::Not(e) => Guard::Not(Box::new((**e).clone())),
            Guard::Port(p) => Guard::Port(*p),
            Guard::True => Guard::True,
        }
    }
}

/// A deep copy of each guard of `gs`, in order.
fn clone_all(gs: &Vec<Guard>) -> (r: Vec<Guard>)
    ensures
        r@.len() == gs@.len(),
        forall|i: int| 0 <= i < gs@.len() ==> same_tree(#[trigger] r@[i], gs@[i]),
    decreases gs,
{
    let mut out: Vec<Guard> = Vec::with_capacity(gs.len());
    let mut i: usize = 0;
    while i < gs.len()
        invariant
            i <= gs@.len(),
            out@.len() == i,
            forall|k: int| 0 <= k < i ==> same_tree(#[trigger] out@[k], gs@[k]),
        decreases gs@.len() - i,
    {
        proof {
            assert(decreases_to!(gs => gs@[i as int]));
        }
        out.push(gs[i].clone());
        i += 1;
    }
    out
}

/// The ports that the guards of `gs` read; see [`ports_of_all`].
fn ports_of_vec(gs: &Vec<Guard>) -> (r: Vec<Port>)
    ensures
        r@ == ports_of_all(gs@),
    decreases gs,
{
    let mut atoms: Vec<Port> = Vec::new();
    let mut i: usize = 0;
    while i < gs.len()
        invariant
            i <= gs@.len(),
            atoms@ == ports_of_all(gs@.take(i as int)),
        decreases gs@.len() - i,
    {
        proof {
            assert(decreases_to!(gs => gs@[i as int]));
        }
        let mut more = gs[i].all_ports();
        atoms.append(&mut more);
        proof {
            let t = gs@.take(i as int + 1);
            assert(t.subrange(0, t.len() - 1) =~= gs@.take(i as int));
        }
        i += 1;
    }
    proof {
        assert(gs@.take(i as int) =~= gs@);
    }
    atoms
}

/// Appends to `out` the conjuncts of `g`; see [`conjuncts`].
fn push_conjuncts(g: Guard, out: &mut Vec<Guard>)
    ensures
        final(out)@ == old(out)@ + conjuncts(g),
    decreases g,
{
    match g {
        Guard::And(gs) => push_conjuncts_all(gs, out),
        Guard::True => {},
        Guard::Port(p) => {
            if !p.is_constant(1) {
                out.push(Guard::Port(p));
            }
        },
        _ => out.push(g),
    }
    proof {
        assert(old(out)@ + seq![] =~= old(out)@);
    }
}

/// Appends to `out` the conjuncts of the guards of `gs`, in order.
fn push_conjuncts_all(guards: Vec<Guard>, out: &mut Vec<Guard>)
    ensures
        final(out)@ == old(out)@ + conjuncts_all(guards@),
    decreases guards,
{
    let ghost start = guards;
    let ghost orig = guards@;
    let mut gs = guards;
    let mut i: usize = 0;
    while i < gs.len()
        invariant
            gs@.len() == orig.len(),
            i <= orig.len(),
            forall|k: int| i <= k < orig.len() ==> #[trigger] gs@[k] == orig[k],
            out@ == old(out)@ + conjuncts_all(orig.take(i as int)),
            orig == start@,
            start == guards,
        decreases orig.len() - i,
    {
        let mut item = Guard::True;
        std::mem::swap(&mut item, &mut gs[i]);
        proof {
            assert(item == start@[i as int]);
            assert(decreases_to!(start => item));
        }
        push_conjuncts(item, out);
        proof {
            let t = orig.take(i as int + 1);
            assert(t.subrange(0, t.len() - 1) =~= orig.take(i as int));
        }
        i += 1;
    }
    proof {
        assert(orig.take(i as int) =~= orig);
    }
}

/// Rewrites each guard of `gs` in place by `f`; see [`Guard::for_each`].
fn rewrite_all<F>(gs: &mut Vec<Guard>, f: &F)
    where
        F: Fn(&Port) -> Option<Guard>,
    requires
        forall|p: Port| f.requires((&p,)),
    ensures
        final(gs)@.len() == old(gs)@.len(),
        forall|i: int|
            0 <= i < old(gs)@.len() ==> rewritten(*f, #[trigger] old(gs)@[i], final(gs)@[i]),
    decreases *old(gs),
{
    let ghost start = *gs;
    let ghost orig = gs@;
    let mut i: usize = 0;
    while i < gs.len()
        invariant
            forall|p: Port| f.requires((&p,)),
            gs@.len() == orig.len(),
            i <= orig.len(),
            forall|k: int| 0 <= k < i ==> rewritten(*f, #[trigger] orig[k], gs@[k]),
            forall|k: int| i <= k < orig.len() ==> #[trigger] gs@[k] == orig[k],
            start == *old(gs),
            orig == start@,
        decreases orig.len() - i,
    {
        proof {
            assert(decreases_to!(start => start@[i as int]));
        }
        gs[i].for_each(f);
        i += 1;
    }
}

/// The logical negation of `g`: comparisons turn into their complements, a
/// `Not` is unwrapped, and every other shape is wrapped in a `Not`.
pub open spec fn negation(g: Guard) -> Guard {
    match g {
        Guard::Eq(l, r) => Guard::Neq(l, r),
        Guard::Neq(l, r) => Guard::Eq(l, r),
        Guard::Gt(l, r) => Guard::Leq(l, r),
        Guard::Lt(l, r) => Guard::Geq(l, r),
        Guard::Geq(l, r) => Guard::Lt(l, r),
        Guard::Leq(l, r) => Guard::Gt(l, r),
        Guard::Not(e) => *e,
        _ => Guard::Not(Box::new(g)),
    }
}

/// Whether `g` is a conjunct that conjunction drops: `True`, or a port known
/// to hold the constant 1.
pub open spec fn trivially_true(g: Guard) -> bool {
    ||| g is True
    ||| g is Port && g->Port_0.spec_is_constant(1)
}

/// The operands that `g` contributes to a conjunction: the flattened operands
/// of an `And`, nothing for a trivially true guard, else `g` itself.
pub open spec fn conjuncts(g: Guard) -> Seq<Guard>
    decreases g,
{
    match g {
        Guard::And(gs) => conjuncts_all(gs@),
        _ => if trivially_true(g) {
            seq![]
        } else {
            seq![g]
        },
    }
}

/// The operands that the guards of `gs` contribute to a conjunction, in order.
pub open spec fn conjuncts_all(gs: Seq<Guard>) -> Seq<Guard>
    decreases gs,
{
    if gs.len() == 0 {
        seq![]
    } else {
        conjuncts_all(gs.subrange(0, gs.len() - 1)) + conjuncts(gs[gs.len() - 1])
    }
}

/// The conjunction of `gs`: the one guard itself when there is exactly one,
/// else an `And` of the flattened, non-trivial operands (possibly none).
pub open spec fn is_conjunction_of(gs: Seq<Guard>, r: Guard) -> bool {
    if gs.len() == 1 {
        r == gs[0]
    } else {
        r is And && r->And_0@ == conjuncts_all(gs)
    }
}

/// The operator symbol of an inner node.
pub open spec fn op_symbol(g: Guard) -> Seq<char> {
    match g {
        Guard::And(_) => seq!['&'],
        Guard::Or(_) => seq!['|'],
        Guard::Eq(_, _) => seq!['=', '='],
        Guard::Neq(_, _) => seq!['!', '='],
        Guard::Gt(_, _) => seq!['>'],
        Guard::Lt(_, _) => seq!['<'],
        Guard::Geq(_, _) => seq!['>', '='],
        Guard::Leq(_, _) => seq!['<', '='],
        Guard::Not(_) => seq!['!'],
        Guard::Port(_) | Guard::True => seq![],
    }
}

/// Whether `g` is a comparison node.
pub open spec fn is_comparison(g: Guard) -> bool {
    g is Eq || g is Neq || g is Gt || g is Lt || g is Geq || g is Leq
}

/// The ports that `g` reads, leaf by leaf from left to right, with repeats.
pub open spec fn ports_of(g: Guard) -> Seq<Port>
    decreases g,
{
    match g {
        Guard::Or(gs) | Guard::And(gs) => ports_of_all(gs@),
        Guard::Eq(l, r)
        | Guard::Neq(l, r)
        | Guard::Gt(l, r)
        | Guard::Lt(l, r)
        | Guard::Geq(l, r)
        | Guard::Leq(l, r) => ports_of(*l) + ports_of(*r),
        Guard::Not(e) => ports_of(*e),
        Guard::Port(p) => seq![p],
        Guard::True => seq![],
    }
}

/// The ports that the guards of `gs` read, one guard after the other.
pub open spec fn ports_of_all(gs: Seq<Guard>) -> Seq<Port>
    decreases gs,
{
    if gs.len() == 0 {
        seq![]
    } else {
        ports_of_all(gs.subrange(0, gs.len() - 1)) + ports_of(gs[gs.len() - 1])
    }
}

/// Whether `g` may stand for the leaf `Port(p)` after a rewrite by `f`: either
/// `f` gave `g` for `p`, or `f` gave nothing and the leaf stayed as it was.
pub open spec fn leaf_rewritten<F: Fn(&Port) -> Option<Guard>>(f: F, p: Port, g: Guard) -> bool {
    ||| f.ensures((&p,), Some(g))
    ||| g == Guard::Port(p) && f.ensures((&p,), None)
}

/// Whether `b` is `a` with each port leaf rewritten by `f`: every inner node
/// keeps its shape and its number of operands, and each leaf is replaced as
/// [`leaf_rewritten`] says.
pub open spec fn rewritten<F: Fn(&Port) -> Option<Guard>>(f: F, a: Guard, b: Guard) -> bool
    decreases a,
{
    match a {
        Guard::Or(xs) => {
            &&& b is Or
            &&& b->Or_0@.len() == xs@.len()
            &&& forall|i: int| 0 <= i < xs@.len() ==> rewritten(f, #[trigger] xs@[i], b->Or_0@[i])
        },
        Guard::And(xs) => {
            &&& b is And
            &&& b->And_0@.len() == xs@.len()
            &&& forall|i: int| 0 <= i < xs@.len() ==> rewritten(f, #[trigger] xs@[i], b->And_0@[i])
        },
        Guard::Eq(l, r) => b is Eq && rewritten(f, *l, *b->Eq_0) && rewritten(f, *r, *b->Eq_1),
        Guard::Neq(l, r) => b is Neq && rewritten(f, *l, *b->Neq_0) && rewritten(f, *r, *b->Neq_1),
        Guard::Gt(l, r) => b is Gt && rewritten(f, *l, *b->Gt_0) && rewritten(f, *r, *b->Gt_1),
        Guard::Lt(l, r) => b is Lt && rewritten(f, *l, *b->Lt_0) && rewritten(f, *r, *b->Lt_1),
        Guard::Geq(l, r) => b is Geq && rewritten(f, *l, *b->Geq_0) && rewritten(f, *r, *b->Geq_1),
        Guard::Leq(l, r) => b is Leq && rewritten(f, *l, *b->Leq_0) && rewritten(f, *r, *b->Leq_1),
        Guard::Not(e) => b is Not && rewritten(f, *e, *b->Not_0),
        Guard::Port(p) => leaf_rewritten(f, p, b),
        Guard::True => b is True,
    }
}

impl Guard {
    /// Replaces in place each port leaf by what `f` returns for its port, or
    /// leaves it as it is where `f` returns `None`. Inner nodes are walked,
    /// never replaced.
    pub fn for_each<F>(&mut self, f: &F)
        where
            F: Fn(&Port) -> Option<Guard>,
        requires
            forall|p: Port| f.requires((&p,)),
        ensures
            rewritten(*f, *old(self), *final(self)),
        decreases *old(self),
    {
        match self {
            Guard::And(ands) => rewrite_all(ands, f),
            Guard::Or(ors) => rewrite_all(ors, f),
            Guard::Eq(l, r) => {
                l.for_each(f);
                r.for_each(f);
            },
            Guard::Neq(l, r) => {
                l.for_each(f);
                r.for_each(f);
            },
            Guard::Gt(l, r) => {
                l.for_each(f);
                r.for_each(f);
            },
            Guard::Lt(l, r) => {
                l.for_each(f);
                r.for_each(f);
            },
            Guard::Geq(l, r) => {
                l.for_each(f);
                r.for_each(f);
            },
            Guard::Leq(l, r) => {
                l.for_each(f);
                r.for_each(f);
            },
            Guard::Not(inner) => {
                inner.for_each(f);
            },
            Guard::Port(port) => {
                let p: Port = *port;
                let guard = match f(&p) {
                    Some(g) => g,
                    None => Guard::Port(p),
                };
                *self = guard;
            },
            Guard::True => {},
        }
    }

    /// The ports that this guard reads; see [`ports_of`].
    pub fn all_ports(&self) -> (r: Vec<Port>)
        ensures
            r@ == ports_of(*self),
        decreases self,
    {
        match self {
            Guard::Port(a) => vec![*a],
            Guard::Or(gs) | Guard::And(gs) => ports_of_vec(gs),
            Guard::Eq(l, r)
            | Guard::Neq(l, r)
            | Guard::Gt(l, r)
            | Guard::Lt(l, r)
            | Guard::Leq(l, r)
            | Guard::Geq(l, r) => {
                let mut atoms = l.all_ports();
                let mut more = r.all_ports();
                atoms.append(&mut more);
                atoms
            },
            Guard::Not(g) => g.all_ports(),
            Guard::True => Vec::new(),
        }
    }

    /// The conjunction of `guards`; see [`is_conjunction_of`]. Operands that
    /// are themselves conjunctions are flattened into the result, at any
    /// depth, and trivially true operands are dropped.
    pub fn and_vec(guards: Vec<Guard>) -> (r: Guard)
        ensures
            is_conjunction_of(guards@, r),
    {
        let mut guards = guards;
        if guards.len() == 1 {
            return guards.remove(0);
        }
        let mut flat_atoms: Vec<Guard> = Vec::with_capacity(guards.len());
        push_conjuncts_all(guards, &mut flat_atoms);
        Guard::And(flat_atoms)
    }

    /// The conjunction of `self` and `rhs`.
    pub fn and(self, rhs: Guard) -> (r: Guard)
        ensures
            is_conjunction_of(seq![self, rhs], r),
    {
        let guards = vec![self, rhs];
        proof {
            assert(guards@ =~= seq![self, rhs]);
        }
        Guard::and_vec(guards)
    }

    /// The operator symbol of this node; see [`op_symbol`]. Leaves have none.
    pub fn op_str(&self) -> (r: String)
        requires
            !(self is Port),
            !(self is True),
        ensures
            r@ == op_symbol(*self),
    {
        let s: &str = match self {
            Guard::And(_) => "&",
            Guard::Or(_) => "|",
            Guard::Eq(_, _) => "==",
            Guard::Neq(_, _) => "!=",
            Guard::Gt(_, _) => ">",
            Guard::Lt(_, _) => "<",
            Guard::Geq(_, _) => ">=",
            Guard::Leq(_, _) => "<=",
            Guard::Not(_) => "!",
            Guard::Port(_) | Guard::True => "",
        };
        proof {
            reveal_strlit("&");
            reveal_strlit("|");
            reveal_strlit("==");
            reveal_strlit("!=");
            reveal_strlit(">");
            reveal_strlit("<");
            reveal_strlit(">=");
            reveal_strlit("<=");
            reveal_strlit("!");
        }
        s.to_string()
    }

    /// A disjunction of exactly `self` and `other`, with no simplification.
    pub fn or(self, other: Guard) -> (r: Guard)
        ensures
            r is Or,
            r->Or_0@ == seq![self, other],
    {
        Guard::Or(vec![self, other])
    }

    /// `self == other`.
    pub fn eq(self, other: Guard) -> (r: Guard)
        ensures
            r == Guard::Eq(Box::new(self), Box::new(other)),
    {
        Guard::Eq(Box::new(self), Box::new(other))
    }

    /// `self != other`.
    pub fn neq(self, other: Guard) -> (r: Guard)
        ensures
            r == Guard::Neq(Box::new(self), Box::new(other)),
    {
        Guard::Neq(Box::new(self), Box::new(other))
    }

    /// `self <= other`.
    pub fn le(self, other: Guard) -> (r: Guard)
        ensures
            r == Guard::Leq(Box::new(self), Box::new(other)),
    {
        Guard::Leq(Box::new(self), Box::new(other))
    }

    /// `self < other`.
    pub fn lt(self, other: Guard) -> (r: Guard)
        ensures
            r == Guard::Lt(Box::new(self), Box::new(other)),
    {
        Guard::Lt(Box::new(self), Box::new(other))
    }

    /// `self >= other`.
    pub fn ge(self, other: Guard) -> (r: Guard)
        ensures
            r == Guard::Geq(Box::new(self), Box::new(other)),
    {
        Guard::Geq(Box::new(self), Box::new(other))
    }

    /// `self > other`.
    pub fn gt(self, other: Guard) -> (r: Guard)
        ensures
            r == Guard::Gt(Box::new(self), Box::new(other)),
    {
        Guard::Gt(Box::new(self), Box::new(other))
    }

    /// The negation of `self`; see [`negation`].
    pub fn not(self) -> (r: Guard)
        ensures
            r == negation(self),
    {
        match self {
            Guard::Eq(lhs, rhs) => Guard::Neq(lhs, rhs),
            Guard::Neq(lhs, rhs) => Guard::Eq(lhs, rhs),
            Guard::Gt(lhs, rhs) => Guard::Leq(lhs, rhs),
            Guard::Lt(lhs, rhs) => Guard::Geq(lhs, rhs),
            Guard::Geq(lhs, rhs) => Guard::Lt(lhs, rhs),
            Guard::Leq(lhs, rhs) => Guard::Gt(lhs, rhs),
            Guard::Not(expr) => *expr,
            _ => Guard::Not(Box::new(self)),
        }
    }
}

} // verus!
