use crate::formula::eval;
use crate::formula::Formula;
use crate::store::fact_matches;
use crate::store::Predicate;
use crate::store::PredicateQuery;
use crate::store::Store;
use vstd::prelude::*;
use vstd::seq_lib::group_to_multiset_ensures;

verus! {

/// Negation law: for every formula `f` and state, `Not(f)` is true exactly
/// when `f` is false.
pub proof fn lemma_not_negates(g: Formula, f: Formula, store: Store, state_id: u64)
    requires
        g matches Formula::Not(inner) && *inner == f,
    ensures
        eval(g, store, state_id) == !eval(f, store, state_id),
{
}

/// Conjunction law: for every pair of formulas and state, the two-operand
/// conjunction is true exactly when both operands are true.
pub proof fn lemma_and_is_conjunction(
    g: Formula,
    f1: Formula,
    f2: Formula,
    store: Store,
    state_id: u64,
)
    requires
        g matches Formula::And(fs) && fs@ == seq![f1, f2],
    ensures
        eval(g, store, state_id) == (eval(f1, store, state_id) && eval(f2, store, state_id)),
{
    let fs = g->And_0;
    assert(fs@[0] == f1);
    assert(fs@[1] == f2);
    if eval(f1, store, state_id) && eval(f2, store, state_id) {
        assert forall |i: int| 0 <= i < fs@.len() implies eval(
            #[trigger] fs@[i],
            store,
            state_id,
        ) by {
            if i == 0 {
                assert(fs@[i] == f1);
            } else {
                assert(fs@[i] == f2);
            }
        }
    }
}

/// Disjunction law: for every pair of formulas and state, the two-operand
/// disjunction is true exactly when at least one operand is true.
pub proof fn lemma_or_is_disjunction(
    g: Formula,
    f1: Formula,
    f2: Formula,
    store: Store,
    state_id: u64,
)
    requires
        g matches Formula::Or(fs) && fs@ == seq![f1, f2],
    ensures
        eval(g, store, state_id) == (eval(f1, store, state_id) || eval(f2, store, state_id)),
{
    let fs = g->Or_0;
    assert(fs@[0] == f1);
    assert(fs@[1] == f2);
}

/// The order of a conjunction's operands never changes the outcome: two
/// conjunctions whose operand sequences hold the same formulas the same
/// number of times evaluate alike. Commutativity is the two-element case.
pub proof fn lemma_and_order_irrelevant(g1: Formula, g2: Formula, store: Store, state_id: u64)
    requires
        g1 is And,
        g2 is And,
        g1->And_0@.to_multiset() == g2->And_0@.to_multiset(),
    ensures
        eval(g1, store, state_id) == eval(g2, store, state_id),
{
    broadcast use group_to_multiset_ensures;

    let xs = g1->And_0@;
    let ys = g2->And_0@;
    assert forall |j: int|
        (forall |i: int| 0 <= i < xs.len() ==> eval(#[trigger] xs[i], store, state_id)) && 0 <= j
            < ys.len() implies eval(#[trigger] ys[j], store, state_id) by {
        assert(ys.contains(ys[j]));
        assert(xs.to_multiset().count(ys[j]) > 0);
        assert(xs.contains(ys[j]));
        let i = choose |i: int| 0 <= i < xs.len() && xs[i] == ys[j];
        assert(eval(xs[i], store, state_id));
    }
    assert forall |i: int|
        (forall |j: int| 0 <= j < ys.len() ==> eval(#[trigger] ys[j], store, state_id)) && 0 <= i
            < xs.len() implies eval(#[trigger] xs[i], store, state_id) by {
        assert(xs.contains(xs[i]));
        assert(ys.to_multiset().count(xs[i]) > 0);
        assert(ys.contains(xs[i]));
        let j = choose |j: int| 0 <= j < ys.len() && ys[j] == xs[i];
        assert(eval(ys[j], store, state_id));
    }
}

/// Grouping a conjunction's operands never changes the outcome:
/// `And(And(f1, f2), f3)` and `And(f1, And(f2, f3))` evaluate alike at every
/// state.
pub proof fn lemma_and_associative(
    left: Formula,
    right: Formula,
    f1: Formula,
    f2: Formula,
    f3: Formula,
    store: Store,
    state_id: u64,
)
    requires
        left matches Formula::And(xs) && xs@.len() == 2 && (xs@[0] matches Formula::And(xi)
            && xi@ == seq![f1, f2]) && xs@[1] == f3,
        right matches Formula::And(ys) && ys@.len() == 2 && ys@[0] == f1 && (
        ys@[1] matches Formula::And(yi) && yi@ == seq![f2, f3]),
    ensures
        eval(left, store, state_id) == eval(right, store, state_id),
{
    let xs = left->And_0;
    let ys = right->And_0;
    lemma_and_is_conjunction(xs@[0], f1, f2, store, state_id);
    lemma_and_is_conjunction(ys@[1], f2, f3, store, state_id);
    let b = eval(f1, store, state_id) && eval(f2, store, state_id) && eval(f3, store, state_id);
    if b {
        assert forall |i: int| 0 <= i < xs@.len() implies eval(
            #[trigger] xs@[i],
            store,
            state_id,
        ) by {
            if i == 0 {
                assert(eval(xs@[0], store, state_id));
            } else {
                assert(xs@[i] == f3);
            }
        }
        assert forall |i: int| 0 <= i < ys@.len() implies eval(
            #[trigger] ys@[i],
            store,
            state_id,
        ) by {
            if i == 0 {
                assert(ys@[i] == f1);
            } else {
                assert(eval(ys@[1], store, state_id));
            }
        }
    } else {
        if !eval(f1, store, state_id) || !eval(f2, store, state_id) {
            assert(!eval(xs@[0], store, state_id));
            assert(!eval(left, store, state_id));
        } else {
            assert(!eval(f3, store, state_id));
            assert(xs@[1] == f3);
            assert(!eval(left, store, state_id));
        }
        if !eval(f1, store, state_id) {
            assert(ys@[0] == f1);
            assert(!eval(right, store, state_id));
        } else {
            assert(!eval(ys@[1], store, state_id));
            assert(!eval(right, store, state_id));
        }
    }
}

/// Exactness of atomic matching: a fact satisfies a query only when the
/// state, the name and every attribute slot agree exactly. In particular an
/// absent attribute is matched only by an absent attribute — absence is never
/// a wildcard — and a concrete value is matched only by the equal concrete
/// value.
pub proof fn lemma_matching_exact(p: Predicate, sid: u64, q: PredicateQuery)
    ensures
        fact_matches(p, sid, q) ==> p.state_id == sid && p.name@ == q.name@,
        p.attr1 is None && q.attr1 is Some ==> !fact_matches(p, sid, q),
        p.attr1 is Some && q.attr1 is None ==> !fact_matches(p, sid, q),
        p.attr2 is None && q.attr2 is Some ==> !fact_matches(p, sid, q),
        p.attr2 is Some && q.attr2 is None ==> !fact_matches(p, sid, q),
        p.attr3 is None && q.attr3 is Some ==> !fact_matches(p, sid, q),
        p.attr3 is Some && q.attr3 is None ==> !fact_matches(p, sid, q),
        fact_matches(p, sid, q) && p.attr1 is Some && q.attr1 is Some ==> p.attr1->0@
            == q.attr1->0@,
        fact_matches(p, sid, q) && p.attr2 is Some && q.attr2 is Some ==> p.attr2->0@
            == q.attr2->0@,
        fact_matches(p, sid, q) && p.attr3 is Some && q.attr3 is Some ==> p.attr3->0@
            == q.attr3->0@,
{
}

/// A state id that no stored state carries satisfies no atomic formula: in a
/// well-formed store every fact refers to a stored state, so the atomic test
/// is false — not an error.
pub proof fn lemma_atomic_false_at_missing_state(
    g: Formula,
    store: Store,
    state_id: u64,
)
    requires
        store.wf(),
        !store.has_state(state_id),
        g is Atomic,
    ensures
        !eval(g, store, state_id),
{
    let q = g->Atomic_0;
    if eval(g, store, state_id) {
        let i = choose |i: int|
            0 <= i < store.predicates@.len() && fact_matches(store.predicates@[i], state_id, q);
        assert(store.has_state(store.predicates@[i].state_id));
    }
}

} // verus!
