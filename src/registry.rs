use vstd::prelude::*;

use crate::text::same_text;

verus! {

/// The table of live sessions: each session id maps to the outbound sink of the
/// connection that currently owns it.
///
/// Its model is a map from session id to sink; at most one entry stands for
/// each id.
pub struct SessionRegistry<S> {
    entries: Vec<(String, S)>,
    model: Ghost<Map<Seq<char>, S>>,
}

impl<S> View for SessionRegistry<S> {
    type V = Map<Seq<char>, S>;

    closed spec fn view(&self) -> Map<Seq<char>, S> {
        self.model@
    }
}

impl<S> SessionRegistry<S> {
    /// The entries and the model agree, and no two entries share an id.
    pub closed spec fn wf(&self) -> bool {
        &&& forall|i: int|
            0 <= i < self.entries@.len() ==> {
                &&& #[trigger] self.model@.contains_key(self.entries@[i].0@)
                &&& self.model@[self.entries@[i].0@] == self.entries@[i].1
            }
        &&& forall|k: Seq<char>|
            #[trigger] self.model@.contains_key(k) ==> exists|i: int|
                0 <= i < self.entries@.len() && #[trigger] self.entries@[i].0@ == k
        &&& forall|i: int, j: int|
            0 <= i < j < self.entries@.len() ==> #[trigger] self.entries@[i].0@
                != #[trigger] self.entries@[j].0@
    }

    /// An empty registry.
    pub fn new() -> (r: Self)
        ensures
            r.wf(),
            r@ == Map::<Seq<char>, S>::empty(),
    {
        SessionRegistry { entries: Vec::new(), model: Ghost(Map::empty()) }
    }

    /// The position of the entry for `id`, if there is one.
    fn position(&self, id: &str) -> (r: Option<usize>)
        requires
            self.wf(),
        ensures
            match r {
                Some(i) => i < self.entries@.len() && self.entries@[i as int].0@ == id@,
                None => !self@.contains_key(id@),
            },
    {
        let mut i: usize = 0;
        while i < self.entries.len()
            invariant
                self.wf(),
                i <= self.entries@.len(),
                forall|j: int| 0 <= j < i ==> self.entries@[j].0@ != id@,
            decreases self.entries@.len() - i,
        {
            if same_text(self.entries[i].0.as_str(), id) {
                return Some(i);
            }
            i += 1;
        }
        None
    }

    /// The number of live sessions.
    pub fn len(&self) -> (r: usize)
        requires
            self.wf(),
        ensures
            r == self@.len(),
    {
        proof { self.lemma_len(); }
        self.entries.len()
    }

    proof fn lemma_len(&self)
        requires
            self.wf(),
        ensures
            self.entries@.len() == self@.len(),
        decreases self.entries@.len(),
    {
        let keys = self.entries@.map_values(|e: (String, S)| e.0@);
        assert(keys.no_duplicates()) by {
            assert forall|i: int, j: int| 0 <= i < keys.len() && 0 <= j < keys.len() && i != j
                implies keys[i] != keys[j] by {
                if i < j {
                    assert(self.entries@[i].0@ != self.entries@[j].0@);
                } else {
                    assert(self.entries@[j].0@ != self.entries@[i].0@);
                }
            }
        }
        assert(keys.to_set() =~= self@.dom()) by {
            assert forall|k: Seq<char>| keys.to_set().contains(k) <==> self@.dom().contains(k) by {
                if self@.dom().contains(k) {
                    assert(self.model@.contains_key(k));
                    let i = choose|i: int| 0 <= i < self.entries@.len() && #[trigger] self.entries@[i].0@ == k;
                    assert(keys[i] == k);
                }
                if keys.to_set().contains(k) {
                    let i = choose|i: int| 0 <= i < keys.len() && keys[i] == k;
                    assert(self.model@.contains_key(self.entries@[i].0@));
                }
            }
        }
        keys.unique_seq_to_set();
    }

    /// The sink registered for `id`, if any.
    pub fn lookup(&self, id: &str) -> (r: Option<&S>)
        requires
            self.wf(),
        ensures
            r is Some <==> self@.contains_key(id@),
            r matches Some(s) ==> *s == self@[id@],
    {
        match self.position(id) {
            Some(i) => {
                assert(self.model@.contains_key(self.entries@[i as int].0@));
                Some(&self.entries[i].1)
            },
            None => None,
        }
    }

    /// Installs `sink` as the sink of `id`, replacing and handing back the sink
    /// that was registered for it before, if any.
    pub fn register(&mut self, id: String, sink: S) -> (r: Option<S>)
        requires
            old(self).wf(),
        ensures
            final(self).wf(),
            final(self)@ == old(self)@.insert(id@, sink),
            r is Some <==> old(self)@.contains_key(id@),
            r matches Some(p) ==> p == old(self)@[id@],
    {
        let ghost key = id@;
        match self.position(id.as_str()) {
            Some(i) => {
                let ghost before = self.entries@;
                let ghost old_model = self.model@;
                assert(old_model.contains_key(before[i as int].0@));
                let (_, previous) = self.entries.remove(i);
                self.entries.push((id, sink));
                self.model = Ghost(self.model@.insert(key, sink));
                proof {
                    assert forall|a: int, b: int|
                        0 <= a < b < self.entries@.len() implies #[trigger] self.entries@[a].0@
                        != #[trigger] self.entries@[b].0@ by {
                        if b == self.entries@.len() - 1 {
                            if a < i {
                                assert(before[a].0@ != before[i as int].0@);
                            } else {
                                assert(before[i as int].0@ != before[a + 1].0@);
                            }
                        } else {
                            let a0 = if a < i { a } else { a + 1 };
                            let b0 = if b < i { b } else { b + 1 };
                            assert(before[a0].0@ != before[b0].0@);
                        }
                    }
                    assert forall|k: Seq<char>| #[trigger] self.model@.contains_key(k) implies exists|j: int|
                        0 <= j < self.entries@.len() && #[trigger] self.entries@[j].0@ == k by {
                        if k == key {
                            assert(self.entries@[self.entries@.len() - 1].0@ == k);
                        } else {
                            assert(old_model.contains_key(k));
                            let j = choose|j: int| 0 <= j < before.len() && #[trigger] before[j].0@ == k;
                            if j < i {
                                assert(self.entries@[j].0@ == k);
                            } else {
                                assert(j != i);
                                assert(self.entries@[j - 1].0@ == k);
                            }
                        }
                    }
                    assert forall|j: int| 0 <= j < self.entries@.len() implies {
                        &&& #[trigger] self.model@.contains_key(self.entries@[j].0@)
                        &&& self.model@[self.entries@[j].0@] == self.entries@[j].1
                    } by {
                        if j < self.entries@.len() - 1 {
                            let j0 = if j < i { j } else { j + 1 };
                            assert(self.entries@[j] == before[j0]);
                            assert(before[j0].0@ != before[i as int].0@);
                            assert(old_model.contains_key(before[j0].0@));
                        }
                    }
                }
                Some(previous)
            },
            None => {
                let ghost before = self.entries@;
                let ghost old_model = self.model@;
                self.entries.push((id, sink));
                self.model = Ghost(self.model@.insert(key, sink));
                proof {
                    assert forall|k: Seq<char>| #[trigger] self.model@.contains_key(k) implies exists|j: int|
                        0 <= j < self.entries@.len() && #[trigger] self.entries@[j].0@ == k by {
                        if k == key {
                            assert(self.entries@[self.entries@.len() - 1].0@ == k);
                        } else {
                            assert(old_model.contains_key(k));
                            let j = choose|j: int| 0 <= j < before.len() && #[trigger] before[j].0@ == k;
                            assert(self.entries@[j] == before[j]);
                        }
                    }
                }
                None
            },
        }
    }

    /// Deletes the entry for `id`, handing back its sink; does nothing when
    /// there is none.
    pub fn remove(&mut self, id: &str) -> (r: Option<S>)
        requires
            old(self).wf(),
        ensures
            final(self).wf(),
            final(self)@ == old(self)@.remove(id@),
            r is Some <==> old(self)@.contains_key(id@),
            r matches Some(p) ==> p == old(self)@[id@],
    {
        match self.position(id) {
            Some(i) => {
                let ghost before = self.entries@;
                let ghost old_model = self.model@;
                assert(old_model.contains_key(before[i as int].0@));
                let (_, previous) = self.entries.remove(i);
                self.model = Ghost(self.model@.remove(id@));
                proof {
                    assert forall|a: int, b: int|
                        0 <= a < b < self.entries@.len() implies #[trigger] self.entries@[a].0@
                        != #[trigger] self.entries@[b].0@ by {
                        let a0 = if a < i { a } else { a + 1 };
                        let b0 = if b < i { b } else { b + 1 };
                        assert(before[a0].0@ != before[b0].0@);
                    }
                    assert forall|k: Seq<char>| #[trigger] self.model@.contains_key(k) implies exists|j: int|
                        0 <= j < self.entries@.len() && #[trigger] self.entries@[j].0@ == k by {
                        assert(old_model.contains_key(k));
                        let j = choose|j: int| 0 <= j < before.len() && #[trigger] before[j].0@ == k;
                        assert(j != i);
                        if j < i {
                            assert(self.entries@[j].0@ == k);
                        } else {
                            assert(self.entries@[j - 1].0@ == k);
                        }
                    }
                    assert forall|j: int| 0 <= j < self.entries@.len() implies {
                        &&& #[trigger] self.model@.contains_key(self.entries@[j].0@)
                        &&& self.model@[self.entries@[j].0@] == self.entries@[j].1
                    } by {
                        let j0 = if j < i { j } else { j + 1 };
                        assert(self.entries@[j] == before[j0]);
                        assert(before[j0].0@ != before[i as int].0@);
                        assert(old_model.contains_key(before[j0].0@));
                    }
                }
                Some(previous)
            },
            None => {
                assert(self@.remove(id@) =~= self@);
                None
            },
        }
    }
}

/// A session id resolves, right after it is registered, to the sink it was
/// registered with; once it is removed it resolves to nothing.
pub proof fn register_then_lookup<S>(sessions: Map<Seq<char>, S>, id: Seq<char>, sink: S)
    ensures
        sessions.insert(id, sink).contains_key(id),
        sessions.insert(id, sink)[id] == sink,
        !sessions.insert(id, sink).remove(id).contains_key(id),
{
}

/// Registering a session id a second time leaves the registry as though only
/// the second sink had been registered: that sink answers later lookups.
pub proof fn second_registration_wins<S>(sessions: Map<Seq<char>, S>, id: Seq<char>, first: S, second: S)
    ensures
        sessions.insert(id, first).insert(id, second) == sessions.insert(id, second),
        sessions.insert(id, first).insert(id, second)[id] == second,
{
    assert(sessions.insert(id, first).insert(id, second) =~= sessions.insert(id, second));
}

} // verus!
