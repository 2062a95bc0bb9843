use state_formula::evaluate;
use state_formula::state_formula_and;
use state_formula::state_formula_not;
use state_formula::state_formula_or;
use state_formula::state_formula_predicate;
use state_formula::Formula;
use state_formula::Predicate;
use state_formula::PredicateQuery;
use state_formula::State;
use state_formula::Store;
use state_formula::Transition;

fn query(name: &str, a1: Option<&str>, a2: Option<&str>, a3: Option<&str>) -> PredicateQuery {
    PredicateQuery {
        name: name.to_string(),
        attr1: a1.map(|v| v.to_string()),
        attr2: a2.map(|v| v.to_string()),
        attr3: a3.map(|v| v.to_string()),
    }
}

/// The two-state "flip-bit" system: states 0 and 1 (both initial), the fact
/// `b(0)` at state 0 and `b(1)` at state 1, and the edges 0->1 and 1->0.
fn flip_bit_store() -> Store {
    let mut store = Store::new();
    store.add_state(State { state_id: 0, is_initial: true }).unwrap();
    store.add_state(State { state_id: 1, is_initial: true }).unwrap();
    store
        .add_predicate(Predicate {
            fact_id: 0,
            state_id: 0,
            name: "b".to_string(),
            attr1: Some("0".to_string()),
            attr2: None,
            attr3: None,
        })
        .unwrap();
    store
        .add_predicate(Predicate {
            fact_id: 1,
            state_id: 1,
            name: "b".to_string(),
            attr1: Some("1".to_string()),
            attr2: None,
            attr3: None,
        })
        .unwrap();
    store.add_transition(Transition { from_state: 0, to_state: 1 }).unwrap();
    store.add_transition(Transition { from_state: 1, to_state: 0 }).unwrap();
    store
}

#[test]
fn atomic_is_true_where_the_fact_holds() {
    let store = flip_bit_store();
    let f = state_formula_predicate(query("b", Some("1"), None, None));
    assert!(evaluate(&f, &store, 1));
}

#[test]
fn not_atomic_is_false_where_the_fact_holds() {
    let store = flip_bit_store();
    let f = state_formula_not(state_formula_predicate(query("b", Some("1"), None, None)));
    assert!(!evaluate(&f, &store, 1));
}

#[test]
fn and_of_two_true_atoms_is_true() {
    let store = flip_bit_store();
    let f = state_formula_and(
        state_formula_predicate(query("b", Some("1"), None, None)),
        state_formula_predicate(query("b", Some("1"), None, None)),
    );
    assert!(evaluate(&f, &store, 1));
}

#[test]
fn atomic_is_false_where_the_fact_does_not_hold() {
    let store = flip_bit_store();
    let f = state_formula_predicate(query("b", Some("1"), None, None));
    assert!(!evaluate(&f, &store, 0));
}

#[test]
fn matching_is_scoped_to_the_state() {
    let store = flip_bit_store();
    let f = state_formula_predicate(query("b", Some("0"), None, None));
    assert!(evaluate(&f, &store, 0));
}

#[test]
fn not_negates() {
    let store = flip_bit_store();
    for state_id in [0, 1] {
        for value in ["0", "1"] {
            let f = state_formula_predicate(query("b", Some(value), None, None));
            let g = state_formula_not(state_formula_predicate(query(
                "b",
                Some(value),
                None,
                None,
            )));
            assert_eq!(evaluate(&g, &store, state_id), !evaluate(&f, &store, state_id));
        }
    }
}

#[test]
fn and_is_conjunction_and_commutative() {
    let store = flip_bit_store();
    for state_id in [0, 1] {
        for v1 in ["0", "1"] {
            for v2 in ["0", "1"] {
                let a1 = state_formula_predicate(query("b", Some(v1), None, None));
                let a2 = state_formula_predicate(query("b", Some(v2), None, None));
                let r1 = evaluate(&a1, &store, state_id);
                let r2 = evaluate(&a2, &store, state_id);
                let both = state_formula_and(
                    state_formula_predicate(query("b", Some(v1), None, None)),
                    state_formula_predicate(query("b", Some(v2), None, None)),
                );
                let swapped = state_formula_and(
                    state_formula_predicate(query("b", Some(v2), None, None)),
                    state_formula_predicate(query("b", Some(v1), None, None)),
                );
                assert_eq!(evaluate(&both, &store, state_id), r1 && r2);
                assert_eq!(
                    evaluate(&both, &store, state_id),
                    evaluate(&swapped, &store, state_id)
                );
            }
        }
    }
}

#[test]
fn and_is_associative_in_result() {
    let store = flip_bit_store();
    for state_id in [0, 1] {
        for v1 in ["0", "1"] {
            for v2 in ["0", "1"] {
                for v3 in ["0", "1"] {
                    let left = state_formula_and(
                        state_formula_and(
                            state_formula_predicate(query("b", Some(v1), None, None)),
                            state_formula_predicate(query("b", Some(v2), None, None)),
                        ),
                        state_formula_predicate(query("b", Some(v3), None, None)),
                    );
                    let right = state_formula_and(
                        state_formula_predicate(query("b", Some(v1), None, None)),
                        state_formula_and(
                            state_formula_predicate(query("b", Some(v2), None, None)),
                            state_formula_predicate(query("b", Some(v3), None, None)),
                        ),
                    );
                    assert_eq!(
                        evaluate(&left, &store, state_id),
                        evaluate(&right, &store, state_id)
                    );
                }
            }
        }
    }
}

#[test]
fn or_is_disjunction() {
    let store = flip_bit_store();
    let t = || state_formula_predicate(query("b", Some("1"), None, None));
    let f = || state_formula_predicate(query("b", Some("0"), None, None));
    assert!(evaluate(&state_formula_or(t(), f()), &store, 1));
    assert!(evaluate(&state_formula_or(f(), t()), &store, 1));
    assert!(evaluate(&state_formula_or(t(), t()), &store, 1));
    assert!(!evaluate(&state_formula_or(f(), f()), &store, 1));
}

#[test]
fn variadic_connectives() {
    let store = flip_bit_store();
    let atom = |v: &str| state_formula_predicate(query("b", Some(v), None, None));
    let all_true = Formula::And(vec![atom("1"), atom("1"), atom("1")]);
    assert!(evaluate(&all_true, &store, 1));
    let one_false = Formula::And(vec![atom("1"), atom("0"), atom("1")]);
    assert!(!evaluate(&one_false, &store, 1));
    let one_true = Formula::Or(vec![atom("0"), atom("1"), atom("0")]);
    assert!(evaluate(&one_true, &store, 1));
    let none_true = Formula::Or(vec![atom("0"), atom("0")]);
    assert!(!evaluate(&none_true, &store, 1));
}

#[test]
fn empty_conjunction_is_true_and_empty_disjunction_is_false() {
    let store = flip_bit_store();
    assert!(evaluate(&Formula::And(Vec::new()), &store, 0));
    assert!(!evaluate(&Formula::Or(Vec::new()), &store, 0));
}

#[test]
fn absence_matches_only_absence() {
    let mut store = Store::new();
    store.add_state(State { state_id: 0, is_initial: true }).unwrap();
    store
        .add_predicate(Predicate {
            fact_id: 0,
            state_id: 0,
            name: "p".to_string(),
            attr1: None,
            attr2: Some("x".to_string()),
            attr3: None,
        })
        .unwrap();
    let exact = state_formula_predicate(query("p", None, Some("x"), None));
    assert!(evaluate(&exact, &store, 0));
    let concrete_for_absent = state_formula_predicate(query("p", Some("0"), Some("x"), None));
    assert!(!evaluate(&concrete_for_absent, &store, 0));
    let empty_for_absent = state_formula_predicate(query("p", Some(""), Some("x"), None));
    assert!(!evaluate(&empty_for_absent, &store, 0));
    let absent_for_concrete = state_formula_predicate(query("p", None, None, None));
    assert!(!evaluate(&absent_for_concrete, &store, 0));
    let wrong_slot = state_formula_predicate(query("p", Some("x"), None, None));
    assert!(!evaluate(&wrong_slot, &store, 0));
}

#[test]
fn empty_string_attribute_is_distinct_from_absent() {
    let mut store = Store::new();
    store.add_state(State { state_id: 0, is_initial: true }).unwrap();
    store
        .add_predicate(Predicate {
            fact_id: 0,
            state_id: 0,
            name: "p".to_string(),
            attr1: Some("".to_string()),
            attr2: None,
            attr3: None,
        })
        .unwrap();
    assert!(evaluate(&state_formula_predicate(query("p", Some(""), None, None)), &store, 0));
    assert!(!evaluate(&state_formula_predicate(query("p", None, None, None)), &store, 0));
}

#[test]
fn special_characters_are_matched_literally() {
    let mut store = Store::new();
    store.add_state(State { state_id: 0, is_initial: true }).unwrap();
    let tricky = "it's \"quoted\"; -- ) OR 1=1";
    store
        .add_predicate(Predicate {
            fact_id: 0,
            state_id: 0,
            name: "p".to_string(),
            attr1: Some(tricky.to_string()),
            attr2: None,
            attr3: None,
        })
        .unwrap();
    assert!(evaluate(&state_formula_predicate(query("p", Some(tricky), None, None)), &store, 0));
    assert!(!evaluate(
        &state_formula_predicate(query("p", Some("it's"), None, None)),
        &store,
        0
    ));
}

#[test]
fn nonexistent_state_evaluates_to_false_not_an_error() {
    let store = flip_bit_store();
    let f = state_formula_predicate(query("b", Some("1"), None, None));
    assert!(!evaluate(&f, &store, 42));
    let negated = state_formula_not(state_formula_predicate(query("b", Some("1"), None, None)));
    assert!(evaluate(&negated, &store, 42));
}
