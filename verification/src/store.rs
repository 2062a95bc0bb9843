use vstd::prelude::*;

verus! {

/// One node of the modeled transition system, identified by `state_id` and
/// optionally marked initial.
pub struct State {
    pub state_id: u64,
    pub is_initial: bool,
}

/// A directed edge between two states.
pub struct Transition {
    pub from_state: u64,
    pub to_state: u64,
}

/// A ground fact: the proposition `name(attr1, attr2, attr3)` holding in the
/// state `state_id`. Each attribute is either a concrete string or absent
/// (`None`); absence is a value of its own, distinct from every concrete
/// string, and is never a wildcard. `fact_id` is the fact's sole identity.
pub struct Predicate {
    pub fact_id: u64,
    pub state_id: u64,
    pub name: String,
    pub attr1: Option<String>,
    pub attr2: Option<String>,
    pub attr3: Option<String>,
}

/// A pattern that facts are matched against: the shape of a fact, without
/// identity or state. Absent attributes match only absent attributes.
pub struct PredicateQuery {
    pub name: String,
    pub attr1: Option<String>,
    pub attr2: Option<String>,
    pub attr3: Option<String>,
}

/// Why a store mutation was rejected.
#[derive(Clone, Copy, Debug, PartialEq, Eq, Structural)]
pub enum StoreError {
    /// A key was already in use, or a reference named a state that does not
    /// exist.
    ConstraintViolation,
}

/// Exact matching of one attribute slot: absence matches only absence, and a
/// concrete value matches only the equal concrete value.
pub open spec fn attr_matches(a: Option<String>, q: Option<String>) -> bool {
    match (a, q) {
        (None, None) => true,
        (Some(x), Some(y)) => x@ == y@,
        _ => false,
    }
}

/// Whether the fact `p` satisfies the query `q` at state `sid`: the state,
/// the name and all three attribute slots must match exactly.
pub open spec fn fact_matches(p: Predicate, sid: u64, q: PredicateQuery) -> bool {
    &&& p.state_id == sid
    &&& p.name@ == q.name@
    &&& attr_matches(p.attr1, q.attr1)
    &&& attr_matches(p.attr2, q.attr2)
    &&& attr_matches(p.attr3, q.attr3)
}

/// The fact store: states, transitions and predicates. Its well-formedness
/// invariant gives each relation a unique key and ties every reference to an
/// existing state.
pub struct Store {
    pub states: Vec<State>,
    pub transitions: Vec<Transition>,
    pub predicates: Vec<Predicate>,
}

impl Store {
    /// Whether some stored state has id `sid`.
    pub open spec fn has_state(self, sid: u64) -> bool {
        exists |i: int| 0 <= i < self.states@.len() && self.states@[i].state_id == sid
    }

    /// Whether the edge `from -> to` is stored.
    pub open spec fn has_transition(self, from: u64, to: u64) -> bool {
        exists |i: int|
            0 <= i < self.transitions@.len() && self.transitions@[i].from_state == from
                && self.transitions@[i].to_state == to
    }

    /// Whether some stored fact has id `fid`.
    pub open spec fn has_fact_id(self, fid: u64) -> bool {
        exists |i: int| 0 <= i < self.predicates@.len() && self.predicates@[i].fact_id == fid
    }

    /// Whether some stored fact matches the query `q` exactly at state `sid`.
    pub open spec fn matches_at(self, sid: u64, q: PredicateQuery) -> bool {
        exists |i: int|
            0 <= i < self.predicates@.len() && fact_matches(self.predicates@[i], sid, q)
    }

    /// Key uniqueness (`state_id`, `fact_id`, the pair `(from_state,
    /// to_state)`) and referential integrity: every transition endpoint and
    /// every fact's state refer to a stored state.
    pub open spec fn wf(self) -> bool {
        &&& forall |i: int, j: int|
            0 <= i < j < self.states@.len() ==> (#[trigger] self.states@[i]).state_id != (
            #[trigger] self.states@[j]).state_id
        &&& forall |i: int, j: int|
            0 <= i < j < self.transitions@.len() ==> !((#[trigger] self.transitions@[i]).from_state
                == (#[trigger] self.transitions@[j]).from_state && self.transitions@[i].to_state
                == self.transitions@[j].to_state)
        &&& forall |i: int, j: int|
            0 <= i < j < self.predicates@.len() ==> (#[trigger] self.predicates@[i]).fact_id != (
            #[trigger] self.predicates@[j]).fact_id
        &&& forall |i: int|
            0 <= i < self.transitions@.len() ==> self.has_state(
                (#[trigger] self.transitions@[i]).from_state,
            ) && self.has_state(self.transitions@[i].to_state)
        &&& forall |i: int|
            0 <= i < self.predicates@.len() ==> self.has_state(
                (#[trigger] self.predicates@[i]).state_id,
            )
    }

    /// Creates an empty store, trivially well formed.
    pub fn new() -> (s: Store)
        ensures
            s.wf(),
            s.states@ == Seq::<State>::empty(),
            s.transitions@ == Seq::<Transition>::empty(),
            s.predicates@ == Seq::<Predicate>::empty(),
    {
        Store { states: Vec::new(), transitions: Vec::new(), predicates: Vec::new() }
    }

    /// Whether some stored state has id `sid`.
    pub fn contains_state(&self, sid: u64) -> (r: bool)
        ensures
            r == self.has_state(sid),
    {
        let mut i: usize = 0;
        while i < self.states.len()
            invariant
                i <= self.states@.len(),
                forall |j: int| 0 <= j < i ==> (#[trigger] self.states@[j]).state_id != sid,
            decreases self.states@.len() - i,
        {
            if self.states[i].state_id == sid {
                return true;
            }
            i += 1;
        }
        false
    }

    /// Whether the edge `from -> to` is stored.
    pub fn contains_transition(&self, from: u64, to: u64) -> (r: bool)
        ensures
            r == self.has_transition(from, to),
    {
        let mut i: usize = 0;
        while i < self.transitions.len()
            invariant
                i <= self.transitions@.len(),
                forall |j: int|
                    0 <= j < i ==> !((#[trigger] self.transitions@[j]).from_state == from
                        && self.transitions@[j].to_state == to),
            decreases self.transitions@.len() - i,
        {
            if self.transitions[i].from_state == from && self.transitions[i].to_state == to {
                return true;
            }
            i += 1;
        }
        false
    }

    /// Whether some stored fact has id `fid`.
    pub fn contains_fact_id(&self, fid: u64) -> (r: bool)
        ensures
            r == self.has_fact_id(fid),
    {
        let mut i: usize = 0;
        while i < self.predicates.len()
            invariant
                i <= self.predicates@.len(),
                forall |j: int| 0 <= j < i ==> (#[trigger] self.predicates@[j]).fact_id != fid,
            decreases self.predicates@.len() - i,
        {
            if self.predicates[i].fact_id == fid {
                return true;
            }
            i += 1;
        }
        false
    }

    /// Adds a state. Fails with `ConstraintViolation`, leaving the store
    /// unchanged, exactly when `state_id` is already in use.
    pub fn add_state(&mut self, state: State) -> (r: Result<(), StoreError>)
        requires
            old(self).wf(),
        ensures
            final(self).wf(),
            r is Ok <==> !old(self).has_state(state.state_id),
            r is Ok ==> final(self).states@ == old(self).states@.push(state),
            r is Err ==> final(self).states@ == old(self).states@ && r == Err::<(), StoreError>(
                StoreError::ConstraintViolation,
            ),
            final(self).transitions@ == old(self).transitions@,
            final(self).predicates@ == old(self).predicates@,
    {
        if self.contains_state(state.state_id) {
            return Err(StoreError::ConstraintViolation);
        }
        self.states.push(state);
        proof {
            lemma_push_state_preserves_wf(*old(self), *self, state);
        }
        Ok(())
    }

    /// Adds a transition. Fails with `ConstraintViolation`, leaving the store
    /// unchanged, exactly when the pair `(from_state, to_state)` is already in
    /// use or either endpoint names no stored state.
    pub fn add_transition(&mut self, trans: Transition) -> (r: Result<(), StoreError>)
        requires
            old(self).wf(),
        ensures
            final(self).wf(),
            r is Ok <==> (old(self).has_state(trans.from_state) && old(self).has_state(
                trans.to_state,
            ) && !old(self).has_transition(trans.from_state, trans.to_state)),
            r is Ok ==> final(self).transitions@ == old(self).transitions@.push(trans),
            r is Err ==> final(self).transitions@ == old(self).transitions@ && r == Err::<
                (),
                StoreError,
            >(StoreError::ConstraintViolation),
            final(self).states@ == old(self).states@,
            final(self).predicates@ == old(self).predicates@,
    {
        if !self.contains_state(trans.from_state) || !self.contains_state(trans.to_state) {
            return Err(StoreError::ConstraintViolation);
        }
        if self.contains_transition(trans.from_state, trans.to_state) {
            return Err(StoreError::ConstraintViolation);
        }
        self.transitions.push(trans);
        proof {
            lemma_push_transition_preserves_wf(*old(self), *self, trans);
        }
        Ok(())
    }

    /// Adds a fact. Fails with `ConstraintViolation`, leaving the store
    /// unchanged, exactly when `fact_id` is already in use or `state_id`
    /// names no stored state.
    pub fn add_predicate(&mut self, pred: Predicate) -> (r: Result<(), StoreError>)
        requires
            old(self).wf(),
        ensures
            final(self).wf(),
            r is Ok <==> (old(self).has_state(pred.state_id) && !old(self).has_fact_id(
                pred.fact_id,
            )),
            r is Ok ==> final(self).predicates@ == old(self).predicates@.push(pred),
            r is Err ==> final(self).predicates@ == old(self).predicates@ && r == Err::<
                (),
                StoreError,
            >(StoreError::ConstraintViolation),
            final(self).states@ == old(self).states@,
            final(self).transitions@ == old(self).transitions@,
    {
        if !self.contains_state(pred.state_id) {
            return Err(StoreError::ConstraintViolation);
        }
        if self.contains_fact_id(pred.fact_id) {
            return Err(StoreError::ConstraintViolation);
        }
        self.predicates.push(pred);
        proof {
            lemma_push_predicate_preserves_wf(*old(self), *self, pred);
        }
        Ok(())
    }

    /// The store's query primitive: whether some stored fact matches `q`
    /// exactly, absence included, at state `state_id`. Absence of a matching
    /// fact — in particular, a `state_id` no fact refers to — is `false`,
    /// never an error.
    pub fn exists_predicate(&self, state_id: u64, q: &PredicateQuery) -> (r: bool)
        ensures
            r == self.matches_at(state_id, *q),
    {
        let mut i: usize = 0;
        while i < self.predicates.len()
            invariant
                i <= self.predicates@.len(),
                forall |j: int|
                    0 <= j < i ==> !fact_matches(#[trigger] self.predicates@[j], state_id, *q),
            decreases self.predicates@.len() - i,
        {
            if fact_matches_exec(&self.predicates[i], state_id, q) {
                return true;
            }
            i += 1;
        }
        false
    }
}

/// Exact comparison of one attribute slot, mirroring `attr_matches`.
fn attr_eq(a: &Option<String>, q: &Option<String>) -> (r: bool)
    ensures
        r == attr_matches(*a, *q),
{
    match a {
        Some(x) => match q {
            Some(y) => *x == *y,
            None => false,
        },
        None => match q {
            Some(_) => false,
            None => true,
        },
    }
}

/// Exact comparison of a fact against a query at a state, mirroring
/// `fact_matches`.
fn fact_matches_exec(p: &Predicate, sid: u64, q: &PredicateQuery) -> (r: bool)
    ensures
        r == fact_matches(*p, sid, *q),
{
    p.state_id == sid && p.name == q.name && attr_eq(&p.attr1, &q.attr1) && attr_eq(
        &p.attr2,
        &q.attr2,
    ) && attr_eq(&p.attr3, &q.attr3)
}

/// Extending the state relation extends `has_state`: every state id found in
/// `s1` is still found in `s2` when `s2`'s states hold `s1`'s as a prefix.
proof fn lemma_has_state_mono(s1: Store, s2: Store)
    requires
        s1.states@.len() <= s2.states@.len(),
        forall |k: int| 0 <= k < s1.states@.len() ==> s2.states@[k] == s1.states@[k],
    ensures
        forall |sid: u64| #[trigger] s1.has_state(sid) ==> s2.has_state(sid),
{
    assert forall |sid: u64| #[trigger] s1.has_state(sid) implies s2.has_state(sid) by {
        let k = choose |k: int|
            0 <= k < s1.states@.len() && s1.states@[k].state_id == sid;
        assert(s2.states@[k].state_id == sid);
    }
}

/// Pushing a state with a fresh id keeps the store well formed.
proof fn lemma_push_state_preserves_wf(s1: Store, s2: Store, state: State)
    requires
        s1.wf(),
        !s1.has_state(state.state_id),
        s2.states@ == s1.states@.push(state),
        s2.transitions@ == s1.transitions@,
        s2.predicates@ == s1.predicates@,
    ensures
        s2.wf(),
{
    let n = s1.states@.len() as int;
    assert forall |i: int, j: int|
        0 <= i < j < s2.states@.len() implies (#[trigger] s2.states@[i]).state_id != (
    #[trigger] s2.states@[j]).state_id by {
        assert(s2.states@[i] == s1.states@[i]);
        if j < n {
            assert(s2.states@[j] == s1.states@[j]);
        } else {
            assert(s2.states@[j] == state);
            assert(s1.states@[i].state_id != state.state_id);
        }
    }
    lemma_has_state_mono(s1, s2);
    assert forall |i: int|
        0 <= i < s2.transitions@.len() implies s2.has_state(
        (#[trigger] s2.transitions@[i]).from_state,
    ) && s2.has_state(s2.transitions@[i].to_state) by {
        assert(s1.has_state(s1.transitions@[i].from_state));
        assert(s1.has_state(s1.transitions@[i].to_state));
    }
    assert forall |i: int|
        0 <= i < s2.predicates@.len() implies s2.has_state(
        (#[trigger] s2.predicates@[i]).state_id,
    ) by {
        assert(s1.has_state(s1.predicates@[i].state_id));
    }
}

/// Pushing a transition with stored endpoints and a fresh pair keeps the
/// store well formed.
proof fn lemma_push_transition_preserves_wf(s1: Store, s2: Store, trans: Transition)
    requires
        s1.wf(),
        s1.has_state(trans.from_state),
        s1.has_state(trans.to_state),
        !s1.has_transition(trans.from_state, trans.to_state),
        s2.transitions@ == s1.transitions@.push(trans),
        s2.states@ == s1.states@,
        s2.predicates@ == s1.predicates@,
    ensures
        s2.wf(),
{
    let n = s1.transitions@.len() as int;
    lemma_has_state_mono(s1, s2);
    assert forall |i: int, j: int|
        0 <= i < j < s2.transitions@.len() implies !((#[trigger] s2.transitions@[i]).from_state
        == (#[trigger] s2.transitions@[j]).from_state && s2.transitions@[i].to_state
        == s2.transitions@[j].to_state) by {
        assert(s2.transitions@[i] == s1.transitions@[i]);
        if j < n {
            assert(s2.transitions@[j] == s1.transitions@[j]);
        } else {
            assert(s2.transitions@[j] == trans);
            assert(!(s1.transitions@[i].from_state == trans.from_state
                && s1.transitions@[i].to_state == trans.to_state));
        }
    }
    assert forall |i: int|
        0 <= i < s2.transitions@.len() implies s2.has_state(
        (#[trigger] s2.transitions@[i]).from_state,
    ) && s2.has_state(s2.transitions@[i].to_state) by {
        if i < n {
            assert(s2.transitions@[i] == s1.transitions@[i]);
            assert(s1.has_state(s1.transitions@[i].from_state));
            assert(s1.has_state(s1.transitions@[i].to_state));
        } else {
            assert(s2.transitions@[i] == trans);
        }
    }
    assert forall |i: int|
        0 <= i < s2.predicates@.len() implies s2.has_state(
        (#[trigger] s2.predicates@[i]).state_id,
    ) by {
        assert(s1.has_state(s1.predicates@[i].state_id));
    }
}

/// Pushing a fact with a stored state and a fresh id keeps the store well
/// formed.
proof fn lemma_push_predicate_preserves_wf(s1: Store, s2: Store, pred: Predicate)
    requires
        s1.wf(),
        s1.has_state(pred.state_id),
        !s1.has_fact_id(pred.fact_id),
        s2.predicates@ == s1.predicates@.push(pred),
        s2.states@ == s1.states@,
        s2.transitions@ == s1.transitions@,
    ensures
        s2.wf(),
{
    let n = s1.predicates@.len() as int;
    lemma_has_state_mono(s1, s2);
    assert forall |i: int, j: int|
        0 <= i < j < s2.predicates@.len() implies (#[trigger] s2.predicates@[i]).fact_id != (
    #[trigger] s2.predicates@[j]).fact_id by {
        assert(s2.predicates@[i] == s1.predicates@[i]);
        if j < n {
            assert(s2.predicates@[j] == s1.predicates@[j]);
        } else {
            assert(s2.predicates@[j] == pred);
            assert(s1.predicates@[i].fact_id != pred.fact_id);
        }
    }
    assert forall |i: int|
        0 <= i < s2.transitions@.len() implies s2.has_state(
        (#[trigger] s2.transitions@[i]).from_state,
    ) && s2.has_state(s2.transitions@[i].to_state) by {
        assert(s1.has_state(s1.transitions@[i].from_state));
        assert(s1.has_state(s1.transitions@[i].to_state));
    }
    assert forall |i: int|
        0 <= i < s2.predicates@.len() implies s2.has_state(
        (#[trigger] s2.predicates@[i]).state_id,
    ) by {
        if i < n {
            assert(s2.predicates@[i] == s1.predicates@[i]);
            assert(s1.has_state(s1.predicates@[i].state_id));
        } else {
            assert(s2.predicates@[i] == pred);
        }
    }
}

} // verus!
