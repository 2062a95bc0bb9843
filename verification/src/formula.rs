use crate::store::PredicateQuery;
use crate::store::Store;
use vstd::prelude::*;

verus! {

/// A boolean expression tree over facts. A formula is built independently of
/// any state; the state is supplied only at evaluation time, so the same
/// formula can be checked against many states.
pub enum Formula {
    /// Truth at state `s`: some stored fact matches the query exactly at `s`.
    Atomic(PredicateQuery),
    /// Logical negation of the sub-formula.
    Not(Box<Formula>),
    /// Conjunction of any number of sub-formulas; the empty conjunction is
    /// true.
    And(Vec<Formula>),
    /// Disjunction of any number of sub-formulas; the empty disjunction is
    /// false.
    Or(Vec<Formula>),
}

/// Truth of the formula `f` at state `state_id` against the facts in `store`:
/// atomic tests ask the store for an exactly matching fact, the connectives
/// combine the sub-results logically.
pub open spec fn eval(f: Formula, store: Store, state_id: u64) -> bool
    decreases f,
{
    match f {
        Formula::Atomic(q) => store.matches_at(state_id, q),
        Formula::Not(g) => !eval(*g, store, state_id),
        Formula::And(fs) => forall |i: int|
            0 <= i < fs@.len() ==> eval(#[trigger] fs@[i], store, state_id),
        Formula::Or(fs) => exists |i: int|
            0 <= i < fs@.len() && eval(#[trigger] fs@[i], store, state_id),
    }
}

/// Builds the atomic formula that tests `pred` at the evaluation state.
pub fn state_formula_predicate(pred: PredicateQuery) -> (f: Formula)
    ensures
        f == Formula::Atomic(pred),
{
    Formula::Atomic(pred)
}

/// Builds the negation of `subformula`.
pub fn state_formula_not(subformula: Formula) -> (f: Formula)
    ensures
        f matches Formula::Not(g) && *g == subformula,
{
    Formula::Not(Box::new(subformula))
}

/// Builds the two-operand conjunction of `subformula_1` and `subformula_2`.
pub fn state_formula_and(subformula_1: Formula, subformula_2: Formula) -> (f: Formula)
    ensures
        f matches Formula::And(fs) && fs@ == seq![subformula_1, subformula_2],
{
    let mut fs: Vec<Formula> = Vec::new();
    fs.push(subformula_1);
    fs.push(subformula_2);
    proof {
        assert(fs@ =~= seq![subformula_1, subformula_2]);
    }
    Formula::And(fs)
}

/// Builds the two-operand disjunction of `subformula_1` and `subformula_2`.
pub fn state_formula_or(subformula_1: Formula, subformula_2: Formula) -> (f: Formula)
    ensures
        f matches Formula::Or(fs) && fs@ == seq![subformula_1, subformula_2],
{
    let mut fs: Vec<Formula> = Vec::new();
    fs.push(subformula_1);
    fs.push(subformula_2);
    proof {
        assert(fs@ =~= seq![subformula_1, subformula_2]);
    }
    Formula::Or(fs)
}

/// Evaluates `f` at state `state_id` against `store`. Pure interpretation of
/// the expression tree: atomic tests delegate to the store's query primitive,
/// the connectives combine the sub-results. Absence of a matching fact —
/// including a `state_id` that no stored state carries — is `false`, never an
/// error; the store is held in memory, so evaluation is total.
pub fn evaluate(f: &Formula, store: &Store, state_id: u64) -> (r: bool)
    ensures
        r == eval(*f, *store, state_id),
    decreases *f, 0int,
{
    match f {
        Formula::Atomic(q) => store.exists_predicate(state_id, q),
        Formula::Not(g) => !evaluate(g, store, state_id),
        Formula::And(fs) => evaluate_conj_from(fs, store, state_id, 0),
        Formula::Or(fs) => evaluate_disj_from(fs, store, state_id, 0),
    }
}

/// Conjunction of the formulas in `fs` from index `i` on.
fn evaluate_conj_from(fs: &Vec<Formula>, store: &Store, state_id: u64, i: usize) -> (r: bool)
    requires
        i <= fs@.len(),
    ensures
        r == (forall |j: int| i <= j < fs@.len() ==> eval(#[trigger] fs@[j], *store, state_id)),
    decreases *fs, fs@.len() - i,
{
    if i == fs.len() {
        true
    } else {
        proof {
            assert(decreases_to!(fs@ => fs@[i as int]));
        }
        if !evaluate(&fs[i], store, state_id) {
            false
        } else {
            evaluate_conj_from(fs, store, state_id, i + 1)
        }
    }
}

/// Disjunction of the formulas in `fs` from index `i` on.
fn evaluate_disj_from(fs: &Vec<Formula>, store: &Store, state_id: u64, i: usize) -> (r: bool)
    requires
        i <= fs@.len(),
    ensures
        r == (exists |j: int| i <= j < fs@.len() && eval(#[trigger] fs@[j], *store, state_id)),
    decreases *fs, fs@.len() - i,
{
    if i == fs.len() {
        false
    } else {
        proof {
            assert(decreases_to!(fs@ => fs@[i as int]));
        }
        if evaluate(&fs[i], store, state_id) {
            true
        } else {
            evaluate_disj_from(fs, store, state_id, i + 1)
        }
    }
}

} // verus!
