use calyx_guard::{Guard, Port};
use std::cmp::Ordering;

fn port(id: u64) -> Guard {
    Guard::Port(Port::new(id))
}

fn ids(g: &Guard) -> Vec<u64> {
    g.all_ports().iter().map(|p| p.id).collect()
}

#[test]
fn and_vec_of_one_guard_is_that_guard() {
    let g = port(1).eq(port(2));
    let r = Guard::and_vec(vec![g]);
    assert!(matches!(r, Guard::Eq(_, _)));
    assert_eq!(ids(&r), vec![1, 2]);

    let inner = Guard::And(vec![Guard::True, port(3)]);
    let r = Guard::and_vec(vec![inner]);
    match r {
        Guard::And(gs) => {
            assert_eq!(gs.len(), 2);
            assert!(matches!(gs[0], Guard::True));
        }
        _ => panic!("expected the And unchanged"),
    }
}

#[test]
fn and_vec_flattens_nested_and() {
    let ab = Guard::And(vec![port(1), port(2)]);
    let r = Guard::and_vec(vec![ab, port(3)]);
    match &r {
        Guard::And(gs) => {
            assert_eq!(gs.len(), 3);
            assert!(gs.iter().all(|g| matches!(g, Guard::Port(_))));
        }
        _ => panic!("expected an And"),
    }
    assert_eq!(ids(&r), vec![1, 2, 3]);
}

#[test]
fn and_vec_flattens_at_any_depth() {
    let deep = Guard::And(vec![Guard::And(vec![port(1), Guard::True]), port(2)]);
    let r = Guard::and_vec(vec![deep, port(3).or(port(4))]);
    match &r {
        Guard::And(gs) => {
            assert_eq!(gs.len(), 3);
            assert!(matches!(gs[2], Guard::Or(_)));
        }
        _ => panic!("expected an And"),
    }
    assert_eq!(ids(&r), vec![1, 2, 3, 4]);
}

#[test]
fn and_vec_of_nothing_is_empty_and() {
    let r = Guard::and_vec(vec![]);
    assert!(matches!(r, Guard::And(ref gs) if gs.is_empty()));
}

#[test]
fn and_with_true_leaves_the_other_operand() {
    let r = Guard::True.and(port(7));
    match &r {
        Guard::And(gs) => assert_eq!(gs.len(), 1),
        _ => panic!("expected an And"),
    }
    assert_eq!(ids(&r), vec![7]);

    let r = port(7).and(Guard::True);
    assert_eq!(ids(&r), vec![7]);
}

#[test]
fn and_of_true_and_true_is_empty() {
    let r = Guard::True.and(Guard::True);
    assert!(matches!(r, Guard::And(ref gs) if gs.is_empty()));
}

#[test]
fn and_drops_ports_holding_one_only() {
    let one = Guard::Port(Port::constant(9, 1));
    let zero = Guard::Port(Port::constant(8, 0));
    let r = one.and(zero);
    assert_eq!(ids(&r), vec![8]);

    let r = Guard::Port(Port::constant(9, 1)).and(Guard::True);
    assert!(matches!(r, Guard::And(ref gs) if gs.is_empty()));
}

#[test]
fn or_keeps_both_operands_as_they_are() {
    let r = Guard::True.or(Guard::True.or(port(1)));
    match &r {
        Guard::Or(gs) => {
            assert_eq!(gs.len(), 2);
            assert!(matches!(gs[0], Guard::True));
            assert!(matches!(gs[1], Guard::Or(_)));
        }
        _ => panic!("expected an Or"),
    }
}

#[test]
fn comparisons_wrap_their_operands() {
    assert!(matches!(port(1).eq(port(2)), Guard::Eq(_, _)));
    assert!(matches!(port(1).neq(port(2)), Guard::Neq(_, _)));
    assert!(matches!(port(1).le(port(2)), Guard::Leq(_, _)));
    assert!(matches!(port(1).lt(port(2)), Guard::Lt(_, _)));
    assert!(matches!(port(1).ge(port(2)), Guard::Geq(_, _)));
    assert!(matches!(port(1).gt(port(2)), Guard::Gt(_, _)));
    let r = port(1).eq(port(1));
    assert_eq!(ids(&r), vec![1, 1]);
}

#[test]
fn double_negation_of_eq_gives_it_back() {
    let r = port(1).eq(port(2)).not().not();
    assert!(matches!(r, Guard::Eq(_, _)));
    assert_eq!(ids(&r), vec![1, 2]);
}

#[test]
fn negation_takes_complements() {
    assert!(matches!(port(1).gt(port(2)).not(), Guard::Leq(_, _)));
    assert!(matches!(port(1).le(port(2)).not(), Guard::Gt(_, _)));
    assert!(matches!(port(1).lt(port(2)).not(), Guard::Geq(_, _)));
    assert!(matches!(port(1).ge(port(2)).not(), Guard::Lt(_, _)));
    assert!(matches!(port(1).eq(port(2)).not(), Guard::Neq(_, _)));
    assert!(matches!(port(1).neq(port(2)).not(), Guard::Eq(_, _)));
    let r = port(3).gt(port(4)).not();
    assert_eq!(ids(&r), vec![3, 4]);
}

#[test]
fn negating_any_comparison_twice_restores_it() {
    let cases = vec![
        port(1).eq(port(2)),
        port(1).neq(port(2)),
        port(1).gt(port(2)),
        port(1).lt(port(2)),
        port(1).ge(port(2)),
        port(1).le(port(2)),
    ];
    for g in cases {
        let back = g.clone().not().not();
        assert!(back == g);
        assert_eq!(back.op_str(), g.op_str());
        assert_eq!(ids(&back), vec![1, 2]);
    }
}

#[test]
fn negation_wraps_other_shapes() {
    let and = port(1).and(port(2));
    match and.not() {
        Guard::Not(inner) => {
            assert!(matches!(*inner, Guard::And(_)));
            assert_eq!(ids(&inner), vec![1, 2]);
        }
        _ => panic!("expected a Not"),
    }
    match port(1).or(port(2)).not() {
        Guard::Not(inner) => assert!(matches!(*inner, Guard::Or(_))),
        _ => panic!("expected a Not"),
    }
    match port(5).not() {
        Guard::Not(inner) => assert_eq!(ids(&inner), vec![5]),
        _ => panic!("expected a Not"),
    }
    match Guard::True.not() {
        Guard::Not(inner) => assert!(matches!(*inner, Guard::True)),
        _ => panic!("expected a Not"),
    }
    assert!(matches!(Guard::True.not().not(), Guard::True));
}

#[test]
fn all_ports_keeps_order_and_repeats() {
    let g = Guard::And(vec![port(1), Guard::Or(vec![port(2), port(1)])]);
    assert_eq!(ids(&g), vec![1, 2, 1]);
    assert!(Guard::True.all_ports().is_empty());
    let n = port(4).lt(port(5)).not().or(Guard::True);
    assert_eq!(ids(&n), vec![4, 5]);
}

#[test]
fn port_leaves_are_equal_whatever_their_ports() {
    assert!(port(1) == port(2));
    assert!(Guard::True == Guard::True);
    assert!(port(1).eq(port(2)) != port(1).neq(port(2)));
    assert!(Guard::And(vec![]) == port(1).and(port(2)));
    assert!(Guard::True != port(1));
}

#[test]
fn order_groups_by_shape() {
    let a = Guard::And(vec![port(1)]);
    let b = Guard::And(vec![port(2), port(3), port(4)]);
    assert_eq!(a.cmp(&b), Ordering::Equal);
    assert_eq!(a.partial_cmp(&b), Some(Ordering::Equal));
    assert_eq!(Guard::True.cmp(&port(1)), Ordering::Less);
    assert_eq!(port(1).cmp(&Guard::True), Ordering::Greater);
    assert!(Guard::True < port(1));
}

#[test]
fn order_follows_the_shape_ranks() {
    let ranked = vec![
        Guard::True,
        port(1),
        port(1).not(),
        port(1).neq(port(2)),
        port(1).eq(port(2)),
        port(1).gt(port(2)),
        port(1).lt(port(2)),
        port(1).ge(port(2)),
        port(1).le(port(2)),
        Guard::And(vec![]),
        Guard::Or(vec![]),
    ];
    for i in 0..ranked.len() {
        for j in 0..ranked.len() {
            assert_eq!(ranked[i].cmp(&ranked[j]), i.cmp(&j));
        }
    }
}

#[test]
fn for_each_replaces_port_leaves() {
    let mut g = Guard::And(vec![port(1), Guard::Or(vec![port(2), port(1)])]);
    g.for_each(&|p: &Port| if p.id == 1 { Some(Guard::Port(Port::new(3))) } else { None });
    assert_eq!(ids(&g), vec![3, 2, 3]);
    assert!(matches!(g, Guard::And(_)));
}

#[test]
fn for_each_can_put_a_tree_in_a_leaf() {
    let mut g = port(1).not();
    g.for_each(&|p: &Port| Some(port(p.id + 10).and(port(p.id + 20))));
    match &g {
        Guard::Not(inner) => assert!(matches!(**inner, Guard::And(_))),
        _ => panic!("expected a Not"),
    }
    assert_eq!(ids(&g), vec![11, 21]);

    let mut t = Guard::True;
    t.for_each(&|_p: &Port| Some(port(0)));
    assert!(matches!(t, Guard::True));
}

#[test]
fn op_str_gives_each_symbol() {
    assert_eq!(port(1).and(port(2)).op_str(), "&");
    assert_eq!(port(1).or(port(2)).op_str(), "|");
    assert_eq!(port(1).eq(port(2)).op_str(), "==");
    assert_eq!(port(1).neq(port(2)).op_str(), "!=");
    assert_eq!(port(1).gt(port(2)).op_str(), ">");
    assert_eq!(port(1).lt(port(2)).op_str(), "<");
    assert_eq!(port(1).ge(port(2)).op_str(), ">=");
    assert_eq!(port(1).le(port(2)).op_str(), "<=");
    assert_eq!(port(1).not().op_str(), "!");
}

#[test]
fn operators_are_the_named_constructors() {
    let a = port(1) & port(2);
    assert!(matches!(a, Guard::And(ref gs) if gs.len() == 2));
    let o = port(1) | port(2);
    assert!(matches!(o, Guard::Or(ref gs) if gs.len() == 2));
    let n = !port(1).eq(port(2));
    assert!(matches!(n, Guard::Neq(_, _)));
    let t = Guard::True & port(3);
    assert_eq!(ids(&t), vec![3]);
}

#[test]
fn port_converts_to_leaf() {
    let g: Guard = Guard::from(Port::new(6));
    assert_eq!(ids(&g), vec![6]);
    let h: Guard = Port::constant(2, 5).into();
    assert!(matches!(h, Guard::Port(p) if p.constant == Some(5)));
}

#[test]
fn port_constant_check() {
    assert!(Port::constant(1, 1).is_constant(1));
    assert!(!Port::constant(1, 0).is_constant(1));
    assert!(!Port::new(1).is_constant(1));
}

#[test]
fn clone_copies_the_whole_tree() {
    let g = port(1).and(port(2).eq(port(3)).not()).or(Guard::True);
    let c = g.clone();
    assert_eq!(ids(&c), ids(&g));
    assert_eq!(c.op_str(), "|");
}
