//! Activities by name: the identifier of an activity, and the registry of a
//! module's activities.
use vstd::prelude::*;

verus! {

/// Module and activity name, which together identify an activity.
#[derive(Clone, Debug, PartialEq, Eq, Hash)]
pub struct ActivityIdentifier {
    module: String,
    activity: String,
}

impl ActivityIdentifier {
    pub closed spec fn spec_module(&self) -> Seq<char> {
        self.module@
    }

    pub closed spec fn spec_activity(&self) -> Seq<char> {
        self.activity@
    }

    pub fn new(module_name: &str, activity_name: &str) -> (id: Self)
        ensures
            id.spec_module() == module_name@,
            id.spec_activity() == activity_name@,
    {
        Self { module: module_name.to_string(), activity: activity_name.to_string() }
    }

    pub fn module(&self) -> (s: String)
        ensures
            s@ == self.spec_module(),
    {
        self.module.clone()
    }

    pub fn activity(&self) -> (s: String)
        ensures
            s@ == self.spec_activity(),
    {
        self.activity.clone()
    }

    /// "activity@module".
    pub fn to_string(&self) -> (s: String)
        ensures
            s@ == self.spec_activity() + seq!['@'] + self.spec_module(),
    {
        let mut s = self.activity.clone();
        let at = "@";
        proof {
            reveal_strlit("@");
        }
        s.append(at);
        s.append(self.module.as_str());
        s
    }
}

/// Why the registry refused a request.
#[derive(Clone, Debug, PartialEq, Eq)]
pub enum ActivityMapError {
    /// No activity of that name is registered.
    NotFound(String),
    /// An activity of that name is registered already.
    AlreadyRegistered(String),
}

/// The activities of a module, by activity name; no name occurs twice.
pub struct ActivityMap<V> {
    entries: Vec<(String, V)>,
}

impl<V> ActivityMap<V> {
    /// The names of the entries, in order of registration.
    pub closed spec fn spec_names(&self) -> Seq<Seq<char>> {
        self.entries@.map_values(|e: (String, V)| e.0@)
    }

    /// No name occurs twice.
    pub closed spec fn wf(&self) -> bool {
        forall|i: int, j: int|
            0 <= i < j < self.entries@.len() ==> self.entries@[i].0@ != self.entries@[j].0@
    }

    /// The registry as a map from activity name to activity.
    pub closed spec fn view(&self) -> Map<Seq<char>, V> {
        Map::new(
            |name: Seq<char>| exists|i: int| 0 <= i < self.entries@.len() && self.entries@[i].0@ == name,
            |name: Seq<char>|
                self.entries@[choose|i: int| 0 <= i < self.entries@.len() && self.entries@[i].0@ == name].1,
        )
    }

    /// The position of `name`, when it is registered.
    closed spec fn spec_position(&self, name: Seq<char>) -> int {
        choose|i: int| 0 <= i < self.entries@.len() && self.entries@[i].0@ == name
    }

    /// Each entry is what the registry maps its name to.
    proof fn lemma_view_entry(&self, i: int)
        requires
            self.wf(),
            0 <= i < self.entries@.len(),
        ensures
            self.view().dom().contains(self.entries@[i].0@),
            self.view()[self.entries@[i].0@] == self.entries@[i].1,
    {
        let name = self.entries@[i].0@;
        assert(self.view().dom().contains(name));
        let k = self.spec_position(name);
        if k != i {
            if k < i {
                assert(self.entries@[k].0@ != self.entries@[i].0@);
            } else {
                assert(self.entries@[i].0@ != self.entries@[k].0@);
            }
        }
    }

    /// Every registered name is in the registry's map, with the activity at
    /// its position.
    pub proof fn lemma_names_registered(&self, i: int)
        requires
            self.wf(),
            0 <= i < self.spec_names().len(),
        ensures
            self.view().dom().contains(self.spec_names()[i]),
    {
        self.lemma_view_entry(i);
    }

    /// An empty registry.
    pub fn new() -> (m: Self)
        ensures
            m.wf(),
            m.view() == Map::<Seq<char>, V>::empty(),
    {
        let m = ActivityMap { entries: Vec::new() };
        assert(m.view() =~= Map::<Seq<char>, V>::empty());
        m
    }

    /// The position of `name` in the entries, or `None`.
    fn find(&self, name: &String) -> (r: Option<usize>)
        requires
            self.wf(),
        ensures
            r is None <==> !self.view().dom().contains(name@),
            r matches Some(i) ==> i < self.entries@.len() && self.entries@[i as int].0@ == name@
                && self.view()[name@] == self.entries@[i as int].1,
    {
        let mut i: usize = 0;
        while i < self.entries.len()
            invariant
                self.wf(),
                0 <= i <= self.entries@.len(),
                forall|j: int| 0 <= j < i ==> self.entries@[j].0@ != name@,
            decreases self.entries@.len() - i,
        {
            if self.entries[i].0 == *name {
                proof {
                    self.lemma_view_entry(i as int);
                }
                return Some(i);
            }
            i += 1;
        }
        None
    }

    /// Whether an activity of that name is registered.
    pub fn contains(&self, identifier: &str) -> (b: bool)
        requires
            self.wf(),
        ensures
            b == self.view().dom().contains(identifier@),
    {
        let name = identifier.to_string();
        self.find(&name).is_some()
    }

    /// The activity of that name.
    pub fn get_activity(&self, identifier: &str) -> (r: Result<&V, ActivityMapError>)
        requires
            self.wf(),
        ensures
            self.view().dom().contains(identifier@) ==> (r matches Ok(v) && *v == self.view()[identifier@]),
            !self.view().dom().contains(identifier@) ==> (r matches Err(
                ActivityMapError::NotFound(n),
            ) && n@ == identifier@),
    {
        let name = identifier.to_string();
        match self.find(&name) {
            Some(i) => Ok(&self.entries[i].1),
            None => Err(ActivityMapError::NotFound(name)),
        }
    }

    /// `self` is `old` with the activity named `name` replaced by `value`.
    pub closed spec fn spec_replaced(self, old: Self, name: Seq<char>, value: V) -> bool {
        exists|i: int|
            0 <= i < old.entries@.len() && old.entries@[i].0@ == name && self.entries@
                == old.entries@.update(i, (old.entries@[i].0, value))
    }

    /// Replacing a registered activity keeps the names, and maps the name to
    /// the new activity.
    pub proof fn lemma_replaced(new: Self, old: Self, name: Seq<char>, value: V)
        requires
            old.wf(),
            new.spec_replaced(old, name, value),
        ensures
            new.wf(),
            old.view().dom().contains(name),
            new.view() == old.view().insert(name, value),
    {
        let i = choose|i: int|
            0 <= i < old.entries@.len() && old.entries@[i].0@ == name && new.entries@
                == old.entries@.update(i, (old.entries@[i].0, value));
        assert forall|a: int, b: int|
            0 <= a < b < new.entries@.len() implies new.entries@[a].0@ != new.entries@[b].0@ by {
            assert(new.entries@[a].0 == old.entries@[a].0);
            assert(new.entries@[b].0 == old.entries@[b].0);
        }
        old.lemma_view_entry(i);
        let nv = new.view();
        let ev = old.view().insert(name, value);
        assert forall|k: Seq<char>| #[trigger] nv.dom().contains(k) <==> ev.dom().contains(k) by {
            if nv.dom().contains(k) {
                let j = choose|j: int| 0 <= j < new.entries@.len() && new.entries@[j].0@ == k;
                assert(old.entries@[j].0 == new.entries@[j].0);
            }
            if old.view().dom().contains(k) {
                let j = choose|j: int| 0 <= j < old.entries@.len() && old.entries@[j].0@ == k;
                assert(new.entries@[j].0 == old.entries@[j].0);
            }
        }
        assert forall|k: Seq<char>| #[trigger] nv.dom().contains(k) implies nv[k] == ev[k] by {
            let j = choose|j: int| 0 <= j < new.entries@.len() && new.entries@[j].0@ == k;
            new.lemma_view_entry(j);
            if j != i {
                assert(new.entries@[j] == old.entries@[j]);
                old.lemma_view_entry(j);
            }
        }
        assert(nv =~= ev);
    }

    /// The activity of that name, to change in place: what is written
    /// through the result replaces it (see `lemma_replaced`).
    pub fn get_activity_mut(&mut self, identifier: &str) -> (r: Result<&mut V, ActivityMapError>)
        requires
            old(self).wf(),
        ensures
            old(self).view().dom().contains(identifier@) ==> (r matches Ok(v) && *v == old(
                self,
            ).view()[identifier@] && final(self).spec_replaced(*old(self), identifier@, *final(v))),
            !old(self).view().dom().contains(identifier@) ==> (r matches Err(
                ActivityMapError::NotFound(n),
            ) && n@ == identifier@ && *final(self) == *old(self)),
    {
        let name = identifier.to_string();
        match self.find(&name) {
            Some(i) => {
                let entry = &mut self.entries[i];
                Ok(&mut entry.1)
            },
            None => Err(ActivityMapError::NotFound(name)),
        }
    }

    /// Registers `activity` under `name`; a name that is registered already
    /// is refused, and the registry is left as it is.
    pub fn insert_activity(&mut self, name: String, activity: V) -> (r: Result<(), ActivityMapError>)
        requires
            old(self).wf(),
        ensures
            final(self).wf(),
            old(self).view().dom().contains(name@) ==> (r matches Err(
                ActivityMapError::AlreadyRegistered(n),
            ) && n@ == name@ && final(self).view() == old(self).view()),
            !old(self).view().dom().contains(name@) ==> r is Ok && final(self).view() == old(
                self,
            ).view().insert(name@, activity),
    {
        match self.find(&name) {
            Some(_) => Err(ActivityMapError::AlreadyRegistered(name)),
            None => {
                let ghost old_entries = self.entries@;
                let ghost key = name@;
                self.entries.push((name, activity));
                proof {
                    assert forall|i: int, j: int|
                        0 <= i < j < self.entries@.len() implies self.entries@[i].0@
                        != self.entries@[j].0@ by {
                        if j == old_entries.len() {
                            assert(self.entries@[i] == old_entries[i]);
                        }
                    }
                }
                proof {
                    let new_view = self.view();
                    let expected = old(self).view().insert(key, activity);
                    assert forall|k: Seq<char>| #[trigger] new_view.dom().contains(k) <==> expected.dom().contains(k) by {
                        if new_view.dom().contains(k) {
                            let i = choose|i: int| 0 <= i < self.entries@.len() && self.entries@[i].0@ == k;
                            if i < old_entries.len() {
                                assert(old(self).entries@[i].0@ == k);
                            }
                        }
                        if old(self).view().dom().contains(k) {
                            let i = choose|i: int| 0 <= i < old(self).entries@.len() && old(self).entries@[i].0@ == k;
                            assert(self.entries@[i].0@ == k);
                        }
                        if k == key {
                            assert(self.entries@[old_entries.len() as int].0@ == k);
                        }
                    }
                    assert forall|k: Seq<char>| #[trigger] new_view.dom().contains(k) implies new_view[k] == expected[k] by {
                        if k == key {
                            self.lemma_view_entry(old_entries.len() as int);
                        } else {
                            let i = choose|i: int| 0 <= i < old(self).entries@.len() && old(self).entries@[i].0@ == k;
                            old(self).lemma_view_entry(i);
                            assert(self.entries@[i] == old(self).entries@[i]);
                            self.lemma_view_entry(i);
                        }
                    }
                    assert(new_view =~= expected);
                }
                Ok(())
            },
        }
    }

    /// Unregisters the activity of that name, handing it back; `None` when
    /// none is registered.
    pub fn remove(&mut self, identifier: &str) -> (r: Option<V>)
        requires
            old(self).wf(),
        ensures
            final(self).wf(),
            final(self).view() == old(self).view().remove(identifier@),
            old(self).view().dom().contains(identifier@) ==> r == Some(old(self).view()[identifier@]),
            !old(self).view().dom().contains(identifier@) ==> r is None,
    {
        let name = identifier.to_string();
        match self.find(&name) {
            None => {
                assert(self.view() =~= old(self).view().remove(identifier@));
                None
            },
            Some(i) => {
                let ghost old_entries = self.entries@;
                let (_, activity) = self.entries.remove(i);
                proof {
                    assert forall|a: int, b: int|
                        0 <= a < b < self.entries@.len() implies self.entries@[a].0@
                        != self.entries@[b].0@ by {
                        let oa = if a < i { a } else { a + 1 };
                        let ob = if b < i { b } else { b + 1 };
                        assert(self.entries@[a] == old_entries[oa]);
                        assert(self.entries@[b] == old_entries[ob]);
                    }
                    let new_view = self.view();
                    let expected = old(self).view().remove(identifier@);
                    assert forall|k: Seq<char>| #[trigger] new_view.dom().contains(k) <==> expected.dom().contains(k) by {
                        if new_view.dom().contains(k) {
                            let j = choose|j: int| 0 <= j < self.entries@.len() && self.entries@[j].0@ == k;
                            let oj = if j < i { j } else { j + 1 };
                            assert(old_entries[oj].0@ == k);
                            if k == identifier@ {
                                assert(old_entries[i as int].0@ == k);
                                if oj < i {
                                    assert(old_entries[oj].0@ != old_entries[i as int].0@);
                                } else {
                                    assert(old_entries[i as int].0@ != old_entries[oj].0@);
                                }
                            }
                        }
                        if expected.dom().contains(k) {
                            let j = choose|j: int| 0 <= j < old_entries.len() && old_entries[j].0@ == k;
                            assert(j != i);
                            let nj = if j < i { j } else { j - 1 };
                            assert(self.entries@[nj] == old_entries[j]);
                        }
                    }
                    assert forall|k: Seq<char>| #[trigger] new_view.dom().contains(k) implies new_view[k] == expected[k] by {
                        let j = choose|j: int| 0 <= j < self.entries@.len() && self.entries@[j].0@ == k;
                        let oj = if j < i { j } else { j + 1 };
                        assert(self.entries@[j] == old_entries[oj]);
                        self.lemma_view_entry(j);
                        old(self).lemma_view_entry(oj);
                    }
                    assert(new_view =~= expected);
                }
                Some(activity)
            },
        }
    }

    /// The activities that an update addressed to `identifier` reaches: all
    /// of them, in order of registration, for "*"; otherwise the one of that
    /// name, which must be registered.
    pub fn targets(&self, identifier: &str) -> (r: Result<Vec<&V>, ActivityMapError>)
        requires
            self.wf(),
        ensures
            identifier@ == seq!['*'] ==> (r matches Ok(v) && v@.len() == self.spec_names().len()
                && forall|i: int| 0 <= i < v@.len() ==> *v@[i] == self.view()[#[trigger] self.spec_names()[i]]),
            identifier@ != seq!['*'] && self.view().dom().contains(identifier@) ==> (r matches Ok(v)
                && v@.len() == 1 && *v@[0] == self.view()[identifier@]),
            identifier@ != seq!['*'] && !self.view().dom().contains(identifier@) ==> (r matches Err(
                ActivityMapError::NotFound(n),
            ) && n@ == identifier@),
    {
        let name = identifier.to_string();
        let star = "*";
        proof {
            reveal_strlit("*");
        }
        let all = star.to_string();
        assert(all@ =~= seq!['*']);
        if name == all {
            let mut v: Vec<&V> = Vec::new();
            let mut i: usize = 0;
            while i < self.entries.len()
                invariant
                    self.wf(),
                    0 <= i <= self.entries@.len(),
                    v@.len() == i,
                    forall|j: int| 0 <= j < i ==> *v@[j] == self.entries@[j].1,
                decreases self.entries@.len() - i,
            {
                v.push(&self.entries[i].1);
                i += 1;
            }
            proof {
                assert(self.spec_names().len() == self.entries@.len());
                assert forall|j: int| 0 <= j < v@.len() implies *v@[j] == self.view()[#[trigger] self.spec_names()[j]] by {
                    assert(self.spec_names()[j] == self.entries@[j].0@);
                    self.lemma_view_entry(j);
                }
            }
            Ok(v)
        } else {
            match self.find(&name) {
                Some(i) => {
                    let mut v: Vec<&V> = Vec::new();
                    v.push(&self.entries[i].1);
                    Ok(v)
                },
                None => Err(ActivityMapError::NotFound(name)),
            }
        }
    }
}

/// An activity registered under a fresh name is found under it, and a
/// second registration under that name is refused; the other names keep
/// their activities.
pub proof fn lemma_registered_is_found<V>(registry: Map<Seq<char>, V>, name: Seq<char>, activity: V)
    requires
        !registry.dom().contains(name),
    ensures
        registry.insert(name, activity).dom().contains(name),
        registry.insert(name, activity)[name] == activity,
        forall|other: Seq<char>|
            other != name && registry.dom().contains(other) ==> registry.insert(name, activity)[other]
                == registry[other],
{
}

/// An unregistered activity is no longer found, and the others still are.
pub proof fn lemma_removed_is_gone<V>(registry: Map<Seq<char>, V>, name: Seq<char>)
    ensures
        !registry.remove(name).dom().contains(name),
        forall|other: Seq<char>|
            other != name && registry.dom().contains(other) ==> registry.remove(name).dom().contains(other)
                && registry.remove(name)[other] == registry[other],
{
}

} // verus!