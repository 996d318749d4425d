//! Symbolic finite state machine utilities for agents.
//!
//! States carry a name and a set of symbolic key/value bindings; the machine
//! maps state names to states and `(state, symbol)` pairs to successor
//! names.  Both maps are association lists whose lookup takes the first
//! matching entry; insertion replaces the first matching entry or appends,
//! so the lists behave exactly like the maps they stand for.

use vstd::prelude::*;

verus! {

/// First-match lookup in an association list keyed by the first component.
pub open spec fn assoc_get<V>(s: Seq<(String, V)>, k: Seq<char>) -> Option<V>
    decreases s.len(),
{
    if s.len() == 0 {
        None
    } else if s[0].0@ == k {
        Some(s[0].1)
    } else {
        assoc_get(s.drop_first(), k)
    }
}

/// The keys of an association list are distinct.
pub open spec fn assoc_distinct<V>(s: Seq<(String, V)>) -> bool {
    forall|i: int, j: int| 0 <= i < j < s.len() ==> s[i].0@ != s[j].0@
}

/// Looking up past a prefix without the key.
proof fn lemma_assoc_skip<V>(s: Seq<(String, V)>, i: int, k: Seq<char>)
    requires
        0 <= i <= s.len(),
        forall|j: int| 0 <= j < i ==> s[j].0@ != k,
    ensures
        assoc_get(s, k) == assoc_get(s.skip(i), k),
    decreases i,
{
    if i > 0 {
        assert(s.skip(1) =~= s.drop_first());
        lemma_assoc_skip(s.drop_first(), i - 1, k);
        assert(s.drop_first().skip(i - 1) =~= s.skip(i));
    } else {
        assert(s.skip(0) =~= s);
    }
}

/// A key held by no entry looks up to nothing.
proof fn lemma_assoc_absent<V>(s: Seq<(String, V)>, k: Seq<char>)
    requires
        forall|j: int| 0 <= j < s.len() ==> s[j].0@ != k,
    ensures
        assoc_get(s, k) == None::<V>,
    decreases s.len(),
{
    if s.len() > 0 {
        lemma_assoc_absent(s.drop_first(), k);
    }
}

/// Replacing the first entry that holds a key updates exactly that binding.
proof fn lemma_assoc_update<V>(s: Seq<(String, V)>, i: int, p: (String, V))
    requires
        0 <= i < s.len(),
        s[i].0@ == p.0@,
        forall|j: int| 0 <= j < i ==> s[j].0@ != p.0@,
    ensures
        assoc_get(s.update(i, p), p.0@) == Some(p.1),
        forall|k2: Seq<char>|
            k2 != p.0@ ==> #[trigger] assoc_get(s.update(i, p), k2) == assoc_get(s, k2),
    decreases i,
{
    let u = s.update(i, p);
    if i == 0 {
        assert(u[0] == p);
        assert forall|k2: Seq<char>| k2 != p.0@ implies #[trigger] assoc_get(u, k2) == assoc_get(
            s,
            k2,
        ) by {
            assert(u.drop_first() =~= s.drop_first());
        }
    } else {
        assert(u[0] == s[0]);
        assert(u.drop_first() =~= s.drop_first().update(i - 1, p));
        lemma_assoc_update(s.drop_first(), i - 1, p);
        assert(assoc_get(u, p.0@) == Some(p.1));
        assert forall|k2: Seq<char>| k2 != p.0@ implies #[trigger] assoc_get(u, k2) == assoc_get(
            s,
            k2,
        ) by {
            if k2 != s[0].0@ {
                assert(assoc_get(u, k2) == assoc_get(u.drop_first(), k2));
            }
        }
    }
}

/// Appending an entry whose key is absent adds exactly that binding.
proof fn lemma_assoc_push<V>(s: Seq<(String, V)>, p: (String, V))
    requires
        forall|j: int| 0 <= j < s.len() ==> s[j].0@ != p.0@,
    ensures
        assoc_get(s.push(p), p.0@) == Some(p.1),
        forall|k2: Seq<char>|
            k2 != p.0@ ==> #[trigger] assoc_get(s.push(p), k2) == assoc_get(s, k2),
    decreases s.len(),
{
    let u = s.push(p);
    if s.len() == 0 {
        assert(u[0] == p);
        assert forall|k2: Seq<char>| k2 != p.0@ implies #[trigger] assoc_get(u, k2) == assoc_get(
            s,
            k2,
        ) by {
            assert(u.drop_first() =~= s);
        }
    } else {
        assert(u[0] == s[0]);
        assert(u.drop_first() =~= s.drop_first().push(p));
        lemma_assoc_push(s.drop_first(), p);
        assert(assoc_get(u, p.0@) == Some(p.1));
        assert forall|k2: Seq<char>| k2 != p.0@ implies #[trigger] assoc_get(u, k2) == assoc_get(
            s,
            k2,
        ) by {
            if k2 != s[0].0@ {
                assert(assoc_get(u, k2) == assoc_get(u.drop_first(), k2));
            }
        }
    }
}

/// Removing the first entry that holds a key from a distinct list removes
/// exactly that binding.
proof fn lemma_assoc_remove<V>(s: Seq<(String, V)>, i: int)
    requires
        assoc_distinct(s),
        0 <= i < s.len(),
    ensures
        assoc_get(s.remove(i), s[i].0@) == None::<V>,
        forall|k2: Seq<char>|
            k2 != s[i].0@ ==> #[trigger] assoc_get(s.remove(i), k2) == assoc_get(s, k2),
    decreases i,
{
    let r = s.remove(i);
    if i == 0 {
        assert(r =~= s.drop_first());
        lemma_assoc_absent(s.drop_first(), s[0].0@);
        assert forall|k2: Seq<char>| k2 != s[0].0@ implies #[trigger] assoc_get(r, k2)
            == assoc_get(s, k2) by {
        }
    } else {
        assert(r[0] == s[0]);
        assert(r.drop_first() =~= s.drop_first().remove(i - 1));
        assert(assoc_distinct(s.drop_first()));
        lemma_assoc_remove(s.drop_first(), i - 1);
        assert(s[0].0@ != s[i].0@);
        assert(assoc_get(r, s[i].0@) == None::<V>);
        assert forall|k2: Seq<char>| k2 != s[i].0@ implies #[trigger] assoc_get(r, k2)
            == assoc_get(s, k2) by {
            if k2 != s[0].0@ {
                assert(assoc_get(r, k2) == assoc_get(r.drop_first(), k2));
            }
        }
    }
}

/// Representation of a symbolic state.  Each state has a name and an
/// associated set of key/value pairs representing symbolic knowledge.
#[derive(Clone, Debug, PartialEq, Eq)]
pub struct SymbolicState {
    name: String,
    data: Vec<(String, String)>,
}

impl SymbolicState {
    /// The state's name, as contracts see it.
    pub closed spec fn spec_name(&self) -> Seq<char> {
        self.name@
    }

    /// The state's bindings, as contracts see them.
    pub closed spec fn spec_data(&self) -> Seq<(String, String)> {
        self.data@
    }

    /// The binding a key looks up to, if any.
    pub open spec fn spec_get(&self, k: Seq<char>) -> Option<String> {
        assoc_get(self.spec_data(), k)
    }

    /// Create a new state with the provided name and no bindings.
    pub fn new(name: &str) -> (st: SymbolicState)
        ensures
            st.spec_name() == name@,
            st.spec_data().len() == 0,
    {
        SymbolicState { name: name.to_owned(), data: Vec::new() }
    }

    /// Name of the state.
    pub fn name(&self) -> (r: &str)
        ensures
            r@ == self.spec_name(),
    {
        self.name.as_str()
    }

    /// Insert or update a symbolic value within the state.
    pub fn set(&mut self, key: &str, value: &str)
        ensures
            final(self).spec_name() == old(self).spec_name(),
            (match final(self).spec_get(key@) {
                Some(v) => v@ == value@,
                None => false,
            }),
            forall|k2: Seq<char>|
                k2 != key@ ==> #[trigger] final(self).spec_get(k2) == old(self).spec_get(k2),
    {
        let key_s: String = key.to_owned();
        let value_s: String = value.to_owned();
        let n: usize = self.data.len();
        let mut i: usize = 0;
        while i < n
            invariant
                *self == *old(self),
                n == self.data.len(),
                i <= n,
                key_s@ == key@,
                value_s@ == value@,
                forall|j: int| 0 <= j < i ==> self.data@[j].0@ != key@,
            decreases n - i,
        {
            if self.data[i].0 == key_s {
                let ghost pre = self.data@;
                let old_pair = self.data.remove(i);
                self.data.insert(i, (old_pair.0, value_s));
                proof {
                    let newp = self.data@[i as int];
                    assert(self.data@ =~= pre.update(i as int, newp));
                    lemma_assoc_update(pre, i as int, newp);
                }
                return ;
            }
            i = i + 1;
        }
        let ghost pre = self.data@;
        self.data.push((key_s, value_s));
        proof {
            let newp = self.data@.last();
            assert(self.data@ =~= pre.push(newp));
            lemma_assoc_push(pre, newp);
        }
    }

    /// Retrieve a symbolic value if present.
    pub fn get(&self, key: &str) -> (r: Option<&String>)
        ensures
            match r {
                Some(v) => self.spec_get(key@) == Some(*v),
                None => self.spec_get(key@) == None::<String>,
            },
    {
        let key_s: String = key.to_owned();
        let n: usize = self.data.len();
        let mut i: usize = 0;
        while i < n
            invariant
                n == self.data.len(),
                i <= n,
                key_s@ == key@,
                forall|j: int| 0 <= j < i ==> self.data@[j].0@ != key@,
            decreases n - i,
        {
            if self.data[i].0 == key_s {
                proof {
                    lemma_assoc_skip(self.data@, i as int, key@);
                    assert(self.data@.skip(i as int)[0] == self.data@[i as int]);
                }
                return Some(&self.data[i].1);
            }
            i = i + 1;
        }
        proof {
            lemma_assoc_absent(self.data@, key@);
        }
        None
    }
}

/// First-match lookup of a transition by source state and event symbol.
pub open spec fn trans_get(s: Seq<(String, String, String)>, from: Seq<char>, sym: Seq<char>) -> Option<
    Seq<char>,
>
    decreases s.len(),
{
    if s.len() == 0 {
        None
    } else if s[0].0@ == from && s[0].1@ == sym {
        Some(s[0].2@)
    } else {
        trans_get(s.drop_first(), from, sym)
    }
}

/// Looking a transition up past a prefix without the pair.
proof fn lemma_trans_skip(s: Seq<(String, String, String)>, i: int, from: Seq<char>, sym: Seq<char>)
    requires
        0 <= i <= s.len(),
        forall|j: int| 0 <= j < i ==> !(s[j].0@ == from && s[j].1@ == sym),
    ensures
        trans_get(s, from, sym) == trans_get(s.skip(i), from, sym),
    decreases i,
{
    if i > 0 {
        assert(s.skip(1) =~= s.drop_first());
        lemma_trans_skip(s.drop_first(), i - 1, from, sym);
        assert(s.drop_first().skip(i - 1) =~= s.skip(i));
    } else {
        assert(s.skip(0) =~= s);
    }
}

/// A pair held by no transition looks up to nothing.
proof fn lemma_trans_absent(s: Seq<(String, String, String)>, from: Seq<char>, sym: Seq<char>)
    requires
        forall|j: int| 0 <= j < s.len() ==> !(s[j].0@ == from && s[j].1@ == sym),
    ensures
        trans_get(s, from, sym) == None::<Seq<char>>,
    decreases s.len(),
{
    if s.len() > 0 {
        lemma_trans_absent(s.drop_first(), from, sym);
    }
}

/// Replacing the first transition of a pair updates exactly that binding.
proof fn lemma_trans_update(s: Seq<(String, String, String)>, i: int, p: (String, String, String))
    requires
        0 <= i < s.len(),
        s[i].0@ == p.0@,
        s[i].1@ == p.1@,
        forall|j: int| 0 <= j < i ==> !(s[j].0@ == p.0@ && s[j].1@ == p.1@),
    ensures
        trans_get(s.update(i, p), p.0@, p.1@) == Some(p.2@),
        forall|f2: Seq<char>, s2: Seq<char>|
            !(f2 == p.0@ && s2 == p.1@) ==> #[trigger] trans_get(s.update(i, p), f2, s2)
                == trans_get(s, f2, s2),
    decreases i,
{
    let u = s.update(i, p);
    if i == 0 {
        assert(u[0] == p);
        assert forall|f2: Seq<char>, s2: Seq<char>| !(f2 == p.0@ && s2 == p.1@) implies #[trigger] trans_get(
            u,
            f2,
            s2,
        ) == trans_get(s, f2, s2) by {
            assert(u.drop_first() =~= s.drop_first());
        }
    } else {
        assert(u[0] == s[0]);
        assert(u.drop_first() =~= s.drop_first().update(i - 1, p));
        lemma_trans_update(s.drop_first(), i - 1, p);
        assert(trans_get(u, p.0@, p.1@) == Some(p.2@));
        assert forall|f2: Seq<char>, s2: Seq<char>| !(f2 == p.0@ && s2 == p.1@) implies #[trigger] trans_get(
            u,
            f2,
            s2,
        ) == trans_get(s, f2, s2) by {
            if !(f2 == s[0].0@ && s2 == s[0].1@) {
                assert(trans_get(u, f2, s2) == trans_get(u.drop_first(), f2, s2));
            }
        }
    }
}

/// Appending a transition for an absent pair adds exactly that binding.
proof fn lemma_trans_push(s: Seq<(String, String, String)>, p: (String, String, String))
    requires
        forall|j: int| 0 <= j < s.len() ==> !(s[j].0@ == p.0@ && s[j].1@ == p.1@),
    ensures
        trans_get(s.push(p), p.0@, p.1@) == Some(p.2@),
        forall|f2: Seq<char>, s2: Seq<char>|
            !(f2 == p.0@ && s2 == p.1@) ==> #[trigger] trans_get(s.push(p), f2, s2) == trans_get(
                s,
                f2,
                s2,
            ),
    decreases s.len(),
{
    let u = s.push(p);
    if s.len() == 0 {
        assert(u[0] == p);
        assert forall|f2: Seq<char>, s2: Seq<char>| !(f2 == p.0@ && s2 == p.1@) implies #[trigger] trans_get(
            u,
            f2,
            s2,
        ) == trans_get(s, f2, s2) by {
            assert(u.drop_first() =~= s);
        }
    } else {
        assert(u[0] == s[0]);
        assert(u.drop_first() =~= s.drop_first().push(p));
        lemma_trans_push(s.drop_first(), p);
        assert(trans_get(u, p.0@, p.1@) == Some(p.2@));
        assert forall|f2: Seq<char>, s2: Seq<char>| !(f2 == p.0@ && s2 == p.1@) implies #[trigger] trans_get(
            u,
            f2,
            s2,
        ) == trans_get(s, f2, s2) by {
            if !(f2 == s[0].0@ && s2 == s[0].1@) {
                assert(trans_get(u, f2, s2) == trans_get(u.drop_first(), f2, s2));
            }
        }
    }
}

/// Removing an entry from a distinct list keeps it distinct, and no other
/// entry holds the removed key.
proof fn lemma_distinct_remove<V>(s: Seq<(String, V)>, i: int)
    requires
        assoc_distinct(s),
        0 <= i < s.len(),
    ensures
        assoc_distinct(s.remove(i)),
        forall|j: int| 0 <= j < s.len() - 1 ==> #[trigger] s.remove(i)[j].0@ != s[i].0@,
{
    let r = s.remove(i);
    assert forall|a: int, b: int| 0 <= a < b < r.len() implies r[a].0@ != r[b].0@ by {
        if b < i {
        } else if a < i {
            assert(r[b] == s[b + 1]);
        } else {
            assert(r[a] == s[a + 1] && r[b] == s[b + 1]);
        }
    }
    assert forall|j: int| 0 <= j < s.len() - 1 implies #[trigger] r[j].0@ != s[i].0@ by {
        if j < i {
        } else {
            assert(r[j] == s[j + 1]);
        }
    }
}

/// A simple deterministic symbolic finite state machine.  Transitions are
/// triggered by symbolic events represented as strings.
pub struct StateMachine {
    current_key: String,
    current: SymbolicState,
    others: Vec<(String, SymbolicState)>,
    transitions: Vec<(String, String, String)>,
}

impl StateMachine {
    /// The name the machine is currently at, as contracts see it.
    pub closed spec fn spec_current_key(&self) -> Seq<char> {
        self.current_key@
    }

    /// The state the machine is currently at, as contracts see it.
    pub closed spec fn spec_current(&self) -> SymbolicState {
        self.current
    }

    /// The registered states other than the current one, keyed by name.
    pub closed spec fn spec_others(&self) -> Seq<(String, SymbolicState)> {
        self.others@
    }

    /// The transition table, as `(from, symbol, to)` triples.
    pub closed spec fn spec_transitions(&self) -> Seq<(String, String, String)> {
        self.transitions@
    }

    /// The state registered under a name, if any: the current entry shadows
    /// the list of other states.
    pub open spec fn spec_state_find(&self, name: Seq<char>) -> Option<SymbolicState> {
        if name == self.spec_current_key() {
            Some(self.spec_current())
        } else {
            assoc_get(self.spec_others(), name)
        }
    }

    /// Each state name is registered once.
    pub open spec fn wf(&self) -> bool {
        &&& assoc_distinct(self.spec_others())
        &&& forall|j: int|
            0 <= j < self.spec_others().len() ==> (#[trigger] self.spec_others()[j].0@)
                != self.spec_current_key()
    }

    /// Construct a state machine with an initial state.
    pub fn new(initial: SymbolicState) -> (sm: StateMachine)
        ensures
            sm.wf(),
            sm.spec_current_key() == initial.spec_name(),
            sm.spec_current() == initial,
            sm.spec_others().len() == 0,
            sm.spec_transitions().len() == 0,
    {
        let current_key = initial.name.clone();
        StateMachine { current_key, current: initial, others: Vec::new(), transitions: Vec::new() }
    }

    /// Add a state to the machine, replacing any state registered under the
    /// same name.
    pub fn add_state(&mut self, state: SymbolicState)
        requires
            old(self).wf(),
        ensures
            final(self).wf(),
            final(self).spec_current_key() == old(self).spec_current_key(),
            final(self).spec_transitions() == old(self).spec_transitions(),
            final(self).spec_state_find(state.spec_name()) == Some(state),
            forall|n: Seq<char>|
                n != state.spec_name() ==> #[trigger] final(self).spec_state_find(n) == old(
                    self,
                ).spec_state_find(n),
    {
        if state.name == self.current_key {
            self.current = state;
            return ;
        }
        let key: String = state.name.clone();
        let n: usize = self.others.len();
        let mut i: usize = 0;
        while i < n
            invariant
                *self == *old(self),
                old(self).wf(),
                n == self.others.len(),
                i <= n,
                key@ == state.spec_name(),
                forall|j: int| 0 <= j < i ==> self.others@[j].0@ != key@,
            decreases n - i,
        {
            if self.others[i].0 == key {
                let ghost pre = self.others@;
                let _old_entry = self.others.remove(i);
                self.others.insert(i, (key, state));
                proof {
                    let newp = self.others@[i as int];
                    assert(self.others@ =~= pre.update(i as int, newp));
                    lemma_assoc_update(pre, i as int, newp);
                    assert(newp.0@ == pre[i as int].0@);
                    assert forall|a: int, b: int|
                        0 <= a < b < self.others@.len() implies (
                        #[trigger] self.others@[a].0@) != (#[trigger] self.others@[b].0@) by {
                        assert(pre[a].0@ != pre[b].0@);
                    }
                    assert forall|j: int| 0 <= j < self.others@.len() implies (
                    #[trigger] self.others@[j].0@) != self.spec_current_key() by {
                        assert(pre[j].0@ != self.spec_current_key());
                    }
                }
                return ;
            }
            i = i + 1;
        }
        let ghost pre = self.others@;
        self.others.push((key, state));
        proof {
            let newp = self.others@.last();
            assert(self.others@ =~= pre.push(newp));
            lemma_assoc_push(pre, newp);
        }
    }

    /// Define a transition between two states based on an event symbol,
    /// replacing any transition already defined for the pair.
    pub fn add_transition(&mut self, from: &str, symbol: &str, to: &str)
        ensures
            final(self).spec_current_key() == old(self).spec_current_key(),
            final(self).spec_current() == old(self).spec_current(),
            final(self).spec_others() == old(self).spec_others(),
            old(self).wf() ==> final(self).wf(),
            (match trans_get(final(self).spec_transitions(), from@, symbol@) {
                Some(t) => t == to@,
                None => false,
            }),
            forall|f2: Seq<char>, s2: Seq<char>|
                !(f2 == from@ && s2 == symbol@) ==> #[trigger] trans_get(
                    final(self).spec_transitions(),
                    f2,
                    s2,
                ) == trans_get(old(self).spec_transitions(), f2, s2),
    {
        let from_s: String = from.to_owned();
        let symbol_s: String = symbol.to_owned();
        let to_s: String = to.to_owned();
        let n: usize = self.transitions.len();
        let mut i: usize = 0;
        while i < n
            invariant
                *self == *old(self),
                n == self.transitions.len(),
                i <= n,
                from_s@ == from@,
                symbol_s@ == symbol@,
                to_s@ == to@,
                forall|j: int|
                    0 <= j < i ==> !((#[trigger] self.transitions@[j]).0@ == from@
                        && self.transitions@[j].1@ == symbol@),
            decreases n - i,
        {
            if self.transitions[i].0 == from_s && self.transitions[i].1 == symbol_s {
                let ghost pre = self.transitions@;
                let _old_entry = self.transitions.remove(i);
                self.transitions.insert(i, (from_s, symbol_s, to_s));
                proof {
                    let newp = self.transitions@[i as int];
                    assert(self.transitions@ =~= pre.update(i as int, newp));
                    lemma_trans_update(pre, i as int, newp);
                }
                return ;
            }
            i = i + 1;
        }
        let ghost pre = self.transitions@;
        self.transitions.push((from_s, symbol_s, to_s));
        proof {
            let newp = self.transitions@.last();
            assert(self.transitions@ =~= pre.push(newp));
            lemma_trans_push(pre, newp);
        }
    }

    /// The successor name the transition table yields for the current state
    /// and a symbol, if any.
    fn find_transition(&self, symbol: &String) -> (r: Option<String>)
        ensures
            (match r {
                Some(t) => trans_get(
                    self.spec_transitions(),
                    self.spec_current_key(),
                    symbol@,
                ) == Some(t@),
                None => trans_get(self.spec_transitions(), self.spec_current_key(), symbol@)
                    == None::<Seq<char>>,
            }),
    {
        let n: usize = self.transitions.len();
        let mut i: usize = 0;
        while i < n
            invariant
                n == self.transitions.len(),
                i <= n,
                forall|j: int|
                    0 <= j < i ==> !((#[trigger] self.transitions@[j]).0@
                        == self.spec_current_key() && self.transitions@[j].1@ == symbol@),
            decreases n - i,
        {
            if self.transitions[i].0 == self.current_key && self.transitions[i].1 == *symbol {
                proof {
                    lemma_trans_skip(
                        self.transitions@,
                        i as int,
                        self.spec_current_key(),
                        symbol@,
                    );
                    assert(self.transitions@.skip(i as int)[0] == self.transitions@[i as int]);
                }
                return Some(self.transitions[i].2.clone());
            }
            i = i + 1;
        }
        proof {
            lemma_trans_absent(self.transitions@, self.spec_current_key(), symbol@);
        }
        None
    }

    /// The position of a name in the list of other states, if present.
    fn find_other_index(&self, name: &String) -> (r: Option<usize>)
        ensures
            (match r {
                Some(i) => {
                    &&& i < self.spec_others().len()
                    &&& self.spec_others()[i as int].0@ == name@
                    &&& assoc_get(self.spec_others(), name@) == Some(
                        self.spec_others()[i as int].1,
                    )
                    &&& forall|j: int| 0 <= j < i ==> self.spec_others()[j].0@ != name@
                },
                None => assoc_get(self.spec_others(), name@) == None::<SymbolicState>,
            }),
    {
        let n: usize = self.others.len();
        let mut i: usize = 0;
        while i < n
            invariant
                n == self.others.len(),
                i <= n,
                forall|j: int| 0 <= j < i ==> self.others@[j].0@ != name@,
            decreases n - i,
        {
            if self.others[i].0 == *name {
                proof {
                    lemma_assoc_skip(self.others@, i as int, name@);
                    assert(self.others@.skip(i as int)[0] == self.others@[i as int]);
                }
                return Some(i);
            }
            i = i + 1;
        }
        proof {
            lemma_assoc_absent(self.others@, name@);
        }
        None
    }

    /// Advance the machine using the provided symbol.  Returns the new state
    /// if the transition exists and its target is registered, otherwise
    /// returns `None` and the machine is unchanged.  (A transition whose
    /// target was never registered does not move the machine.)
    pub fn step(&mut self, symbol: &str) -> (r: Option<&SymbolicState>)
        requires
            old(self).wf(),
        ensures
            final(self).wf(),
            final(self).spec_transitions() == old(self).spec_transitions(),
            (match trans_get(
                old(self).spec_transitions(),
                old(self).spec_current_key(),
                symbol@,
            ) {
                None => *final(self) == *old(self) && r is None,
                Some(next) => {
                    match old(self).spec_state_find(next) {
                        None => *final(self) == *old(self) && r is None,
                        Some(st) => {
                            &&& final(self).spec_current_key() == next
                            &&& final(self).spec_current() == st
                            &&& (match r {
                                Some(cur) => *cur == st,
                                None => false,
                            })
                            &&& (next == old(self).spec_current_key() ==> *final(self) == *old(self))
                            &&& (next != old(self).spec_current_key() ==> {
                                &&& final(self).spec_state_find(old(self).spec_current_key())
                                    == Some(old(self).spec_current())
                                &&& forall|n2: Seq<char>|
                                    n2 != next && n2 != old(self).spec_current_key()
                                        ==> #[trigger] final(self).spec_state_find(n2) == old(
                                        self,
                                    ).spec_state_find(n2)
                            })
                        },
                    }
                },
            }),
    {
        let symbol_s: String = symbol.to_owned();
        let next_key = match self.find_transition(&symbol_s) {
            None => {
                return None;
            },
            Some(k) => k,
        };
        if next_key == self.current_key {
            return Some(&self.current);
        }
        let i = match self.find_other_index(&next_key) {
            None => {
                return None;
            },
            Some(i) => i,
        };
        let ghost pre = self.others@;
        let entry = self.others.remove(i);
        proof {
            lemma_assoc_remove(pre, i as int);
            lemma_distinct_remove(pre, i as int);
        }
        let mut moved_state = entry.1;
        core::mem::swap(&mut self.current, &mut moved_state);
        let mut moved_key = entry.0;
        core::mem::swap(&mut self.current_key, &mut moved_key);
        let ghost mid = self.others@;
        self.others.push((moved_key, moved_state));
        proof {
            let newp = self.others@.last();
            assert(self.others@ =~= mid.push(newp));
            lemma_assoc_push(mid, newp);
        }
        Some(&self.current)
    }

    /// Return a reference to the current state.
    pub fn current_state(&self) -> (st: &SymbolicState)
        ensures
            *st == self.spec_current(),
    {
        &self.current
    }

    /// Return a mutable reference to the current state for manipulation.
    /// The state stays registered under its current name even if the caller
    /// overwrites it wholesale.
    pub fn current_state_mut(&mut self) -> (st: &mut SymbolicState)
        ensures
            *st == old(self).spec_current(),
            final(self).spec_current() == *final(st),
            final(self).spec_current_key() == old(self).spec_current_key(),
            final(self).spec_others() == old(self).spec_others(),
            final(self).spec_transitions() == old(self).spec_transitions(),
            old(self).wf() ==> final(self).wf(),
    {
        &mut self.current
    }
}

} // verus!
