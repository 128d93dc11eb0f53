//! The properties of an activity: named values that a module's producer sets
//! and that the activity's widgets subscribe to.
use vstd::prelude::*;

use crate::activity::{ActivityIdentifier, ActivityMap, ActivityMapError};

verus! {

/// A property of an activity: its value, and the activity and name under
/// which an update of it is sent.
pub struct DynamicProperty<V> {
    activity_id: ActivityIdentifier,
    property_name: String,
    value: V,
}

impl<V> DynamicProperty<V> {
    pub closed spec fn spec_activity_id(&self) -> ActivityIdentifier {
        self.activity_id
    }

    pub closed spec fn spec_name(&self) -> Seq<char> {
        self.property_name@
    }

    pub closed spec fn spec_value(&self) -> V {
        self.value
    }

    /// The property's name.
    pub fn name(&self) -> (n: &str)
        ensures
            n@ == self.spec_name(),
    {
        self.property_name.as_str()
    }

    /// The module and activity that the property belongs to.
    pub fn activity_id(&self) -> (id: ActivityIdentifier)
        ensures
            id.spec_module() == self.spec_activity_id().spec_module(),
            id.spec_activity() == self.spec_activity_id().spec_activity(),
    {
        let module = self.activity_id.module();
        let activity = self.activity_id.activity();
        ActivityIdentifier::new(module.as_str(), activity.as_str())
    }

    /// The property's value.
    pub fn get(&self) -> (v: &V)
        ensures
            *v == self.spec_value(),
    {
        &self.value
    }

    /// Replaces the value; the property's name and activity stay, so that
    /// the update is sent for this property.
    pub fn set(&mut self, value: V)
        ensures
            final(self).spec_value() == value,
            final(self).spec_name() == old(self).spec_name(),
            final(self).spec_activity_id() == old(self).spec_activity_id(),
    {
        self.value = value;
    }
}

/// A property with everything subscribed to its changes.
pub struct SubscribableProperty<P, S> {
    pub property: DynamicProperty<P>,
    pub subscribers: Vec<S>,
}

/// Why an activity refused a request about a property.
#[derive(Clone, Debug, PartialEq, Eq)]
pub enum PropertyError {
    /// A property of that name exists already.
    AlreadyAdded(String),
    /// No property of that name exists.
    Missing(String),
}

/// An activity's properties, by name, each with its subscribers.
pub struct DynamicActivity<P, S> {
    identifier: ActivityIdentifier,
    properties: ActivityMap<SubscribableProperty<P, S>>,
}

impl<P, S> DynamicActivity<P, S> {
    /// No name occurs twice, and each property records its own name and
    /// this activity.
    pub closed spec fn wf(&self) -> bool {
        &&& self.properties.wf()
        &&& forall|k: Seq<char>| #[trigger]
            self.properties.view().dom().contains(k) ==> {
                let p = self.properties.view()[k].property;
                &&& p.spec_name() == k
                &&& p.spec_activity_id().spec_module() == self.identifier.spec_module()
                &&& p.spec_activity_id().spec_activity() == self.identifier.spec_activity()
            }
    }

    /// Each property name with the property's value and its subscribers, in
    /// order of subscription.
    pub closed spec fn view(&self) -> Map<Seq<char>, (P, Seq<S>)> {
        self.properties.view().map_values(
            |p: SubscribableProperty<P, S>| (p.property.spec_value(), p.subscribers@),
        )
    }

    /// The property stored under `name`.
    pub closed spec fn spec_property(&self, name: Seq<char>) -> DynamicProperty<P> {
        self.properties.view()[name].property
    }

    /// The property stored under a name records that name and this activity.
    pub proof fn lemma_property_records(&self, name: Seq<char>)
        requires
            self.wf(),
            self.view().dom().contains(name),
        ensures
            self.spec_property(name).spec_name() == name,
            self.spec_property(name).spec_value() == self.view()[name].0,
            self.spec_property(name).spec_activity_id().spec_module()
                == self.spec_identifier().spec_module(),
            self.spec_property(name).spec_activity_id().spec_activity()
                == self.spec_identifier().spec_activity(),
    {
    }

    pub closed spec fn spec_identifier(&self) -> ActivityIdentifier {
        self.identifier
    }

    /// An activity of a module, with no properties yet.
    pub fn new(module_name: &str, activity_name: &str) -> (a: Self)
        ensures
            a.wf(),
            a.view() == Map::<Seq<char>, (P, Seq<S>)>::empty(),
            a.spec_identifier().spec_module() == module_name@,
            a.spec_identifier().spec_activity() == activity_name@,
    {
        let a = DynamicActivity {
            identifier: ActivityIdentifier::new(module_name, activity_name),
            properties: ActivityMap::new(),
        };
        assert(a.view() =~= Map::<Seq<char>, (P, Seq<S>)>::empty());
        a
    }

    /// The activity's module and name.
    pub fn get_identifier(&self) -> (id: ActivityIdentifier)
        ensures
            id.spec_module() == self.spec_identifier().spec_module(),
            id.spec_activity() == self.spec_identifier().spec_activity(),
    {
        let module = self.identifier.module();
        let activity = self.identifier.activity();
        ActivityIdentifier::new(module.as_str(), activity.as_str())
    }

    /// Adds a property with its first value and no subscribers; a name that
    /// exists already is refused, and the properties stay as they are.
    pub fn add_dynamic_property(&mut self, name: &str, initial_value: P) -> (r: Result<
        (),
        PropertyError,
    >)
        requires
            old(self).wf(),
        ensures
            final(self).wf(),
            final(self).spec_identifier() == old(self).spec_identifier(),
            old(self).view().dom().contains(name@) ==> (r matches Err(PropertyError::AlreadyAdded(n))
                && n@ == name@ && final(self).view() == old(self).view()),
            !old(self).view().dom().contains(name@) ==> r is Ok && final(self).view() == old(
                self,
            ).view().insert(name@, (initial_value, Seq::<S>::empty())),
            !old(self).view().dom().contains(name@) ==> final(self).spec_property(name@).spec_name()
                == name@ && final(self).spec_property(name@).spec_activity_id().spec_module()
                == old(self).spec_identifier().spec_module() && final(self).spec_property(
                name@,
            ).spec_activity_id().spec_activity() == old(self).spec_identifier().spec_activity(),
    {
        let property = DynamicProperty {
            activity_id: self.get_identifier(),
            property_name: name.to_string(),
            value: initial_value,
        };
        let prop = SubscribableProperty { property, subscribers: Vec::new() };
        let r = self.properties.insert_activity(name.to_string(), prop);
        match r {
            Ok(()) => {
                assert(self.view() =~= old(self).view().insert(
                    name@,
                    (initial_value, Seq::<S>::empty()),
                ));
                Ok(())
            },
            Err(_) => {
                assert(self.view() =~= old(self).view());
                Err(PropertyError::AlreadyAdded(name.to_string()))
            },
        }
    }

    /// Appends `callback` to the subscribers of the property of that name;
    /// a name that does not exist is refused, and the properties stay as
    /// they are.
    pub fn subscribe_to_property(&mut self, name: &str, callback: S) -> (r: Result<
        (),
        PropertyError,
    >)
        requires
            old(self).wf(),
        ensures
            final(self).wf(),
            final(self).spec_identifier() == old(self).spec_identifier(),
            old(self).view().dom().contains(name@) ==> r is Ok && final(self).view() == old(
                self,
            ).view().insert(
                name@,
                (old(self).view()[name@].0, old(self).view()[name@].1.push(callback)),
            ),
            !old(self).view().dom().contains(name@) ==> (r matches Err(PropertyError::Missing(n))
                && n@ == name@ && final(self).view() == old(self).view()),
    {
        let ghost before = self.properties;
        match self.properties.get_activity_mut(name) {
            Ok(prop) => {
                prop.subscribers.push(callback);
                proof {
                    ActivityMap::lemma_replaced(self.properties, before, name@, *prop);
                    assert(self.view() =~= old(self).view().insert(
                        name@,
                        (old(self).view()[name@].0, old(self).view()[name@].1.push(callback)),
                    ));
                }
                Ok(())
            },
            Err(_) => {
                assert(self.view() =~= old(self).view());
                Err(PropertyError::Missing(name.to_string()))
            },
        }
    }

    /// Gives the property of that name a new value; its subscribers stay. A
    /// name that does not exist is refused, and the properties stay as they
    /// are.
    pub fn set_property(&mut self, name: &str, value: P) -> (r: Result<(), PropertyError>)
        requires
            old(self).wf(),
        ensures
            final(self).wf(),
            final(self).spec_identifier() == old(self).spec_identifier(),
            old(self).view().dom().contains(name@) ==> r is Ok && final(self).view() == old(
                self,
            ).view().insert(name@, (value, old(self).view()[name@].1)),
            !old(self).view().dom().contains(name@) ==> (r matches Err(PropertyError::Missing(n))
                && n@ == name@ && final(self).view() == old(self).view()),
    {
        let ghost before = self.properties;
        match self.properties.get_activity_mut(name) {
            Ok(prop) => {
                prop.property.set(value);
                proof {
                    ActivityMap::lemma_replaced(self.properties, before, name@, *prop);
                    assert(self.view() =~= old(self).view().insert(
                        name@,
                        (value, old(self).view()[name@].1),
                    ));
                }
                Ok(())
            },
            Err(_) => {
                assert(self.view() =~= old(self).view());
                Err(PropertyError::Missing(name.to_string()))
            },
        }
    }

    /// The subscribers of the property of that name, in order of
    /// subscription.
    pub fn get_subscribers(&self, name: &str) -> (r: Result<&[S], PropertyError>)
        requires
            self.wf(),
        ensures
            self.view().dom().contains(name@) ==> (r matches Ok(s) && s@ == self.view()[name@].1),
            !self.view().dom().contains(name@) ==> (r matches Err(PropertyError::Missing(n)) && n@
                == name@),
    {
        match self.properties.get_activity(name) {
            Ok(prop) => Ok(prop.subscribers.as_slice()),
            Err(_) => Err(PropertyError::Missing(name.to_string())),
        }
    }

    /// The property of that name.
    pub fn get_property_any(&self, name: &str) -> (r: Result<&DynamicProperty<P>, PropertyError>)
        requires
            self.wf(),
        ensures
            self.view().dom().contains(name@) ==> (r matches Ok(p) && *p == self.spec_property(name@)
                && p.spec_value() == self.view()[name@].0 && p.spec_name() == name@),
            !self.view().dom().contains(name@) ==> (r matches Err(PropertyError::Missing(n)) && n@
                == name@),
    {
        match self.properties.get_activity(name) {
            Ok(prop) => Ok(&prop.property),
            Err(_) => Err(PropertyError::Missing(name.to_string())),
        }
    }
}

/// The subscribers of `property` on an activity, in order of subscription;
/// none where the activity lacks that property.
pub open spec fn spec_subscribers_of<P, S>(a: DynamicActivity<P, S>, property: Seq<char>) -> Seq<S> {
    if a.view().dom().contains(property) {
        a.view()[property].1
    } else {
        Seq::empty()
    }
}

/// The lists one after the other, in order.
pub open spec fn spec_joined<S>(lists: Seq<Seq<S>>) -> Seq<S>
    decreases lists.len(),
{
    if lists.len() == 0 {
        Seq::empty()
    } else {
        spec_joined(lists.drop_last()) + lists.last()
    }
}

/// Why a property could not be looked up in a module's activities.
#[derive(Clone, Debug, PartialEq, Eq)]
pub enum LookupError {
    /// No activity of that name is registered.
    Activity(ActivityMapError),
    /// The activity has no property of that name.
    Property(PropertyError),
}

impl<P, S> ActivityMap<DynamicActivity<P, S>> {
    /// The activities that an update addressed to `activity_id` reaches: for
    /// "*" all of them, in order of registration; otherwise the one of that
    /// name, or none.
    pub open spec fn spec_update_targets(&self, activity_id: Seq<char>) -> Seq<DynamicActivity<P, S>> {
        if activity_id == seq!['*'] {
            self.spec_names().map_values(|n: Seq<char>| self.view()[n])
        } else if self.view().dom().contains(activity_id) {
            seq![self.view()[activity_id]]
        } else {
            Seq::empty()
        }
    }

    /// The callbacks that an update of `property` addressed to `activity_id`
    /// runs: the subscribers of that property on each activity it reaches,
    /// activity after activity, each in order of subscription.
    pub open spec fn spec_update_subscribers(&self, activity_id: Seq<char>, property: Seq<char>) -> Seq<S> {
        spec_joined(
            self.spec_update_targets(activity_id).map_values(
                |a: DynamicActivity<P, S>| spec_subscribers_of(a, property),
            ),
        )
    }

    /// The callbacks that an update of `property_name` addressed to
    /// `activity_id` runs, each once, in order: for "*", those of every
    /// activity that has the property; otherwise those of the activity of
    /// that name; none for a missing activity or property.
    pub fn update_subscribers(&self, activity_id: &str, property_name: &str) -> (r: Vec<&S>)
        requires
            self.wf(),
            forall|k: Seq<char>| #[trigger] self.view().dom().contains(k) ==> self.view()[k].wf(),
        ensures
            r@.len() == self.spec_update_subscribers(activity_id@, property_name@).len(),
            forall|i: int|
                0 <= i < r@.len() ==> *r@[i] == self.spec_update_subscribers(
                    activity_id@,
                    property_name@,
                )[i],
    {
        let ghost targets = self.spec_update_targets(activity_id@);
        let ghost lists = targets.map_values(
            |a: DynamicActivity<P, S>| spec_subscribers_of(a, property_name@),
        );
        let acts: Vec<&DynamicActivity<P, S>> = match self.targets(activity_id) {
            Ok(v) => v,
            Err(_) => Vec::new(),
        };
        proof {
            reveal_strlit("*");
            assert(acts@.len() == targets.len());
            assert forall|i: int| 0 <= i < acts@.len() implies *acts@[i] == targets[i]
                && targets[i].wf() by {
                if activity_id@ == seq!['*'] {
                    self.lemma_names_registered(i);
                }
            }
        }
        let mut out: Vec<&S> = Vec::new();
        let mut i: usize = 0;
        while i < acts.len()
            invariant
                0 <= i <= acts@.len(),
                acts@.len() == targets.len(),
                lists == targets.map_values(
                    |a: DynamicActivity<P, S>| spec_subscribers_of(a, property_name@),
                ),
                forall|k: int| 0 <= k < acts@.len() ==> *acts@[k] == targets[k] && targets[k].wf(),
                out@.len() == spec_joined(lists.take(i as int)).len(),
                forall|k: int|
                    0 <= k < out@.len() ==> *out@[k] == spec_joined(lists.take(i as int))[k],
            decreases acts@.len() - i,
        {
            let ghost before = out@;
            let ghost prev = spec_joined(lists.take(i as int));
            assert(forall|k: int| 0 <= k < before.len() ==> *before[k] == prev[k]);
            assert(lists.take(i as int + 1).drop_last() =~= lists.take(i as int));
            assert(lists.take(i as int + 1).last() == lists[i as int]);
            assert(*acts@[i as int] == targets[i as int] && targets[i as int].wf());
            match acts[i].get_subscribers(property_name) {
                Ok(subs) => {
                    let mut j: usize = 0;
                    while j < subs.len()
                        invariant
                            0 <= j <= subs@.len(),
                            out@.len() == before.len() + j,
                            forall|k: int| 0 <= k < before.len() ==> out@[k] == before[k],
                            forall|k: int| 0 <= k < j ==> *out@[before.len() + k] == subs@[k],
                        decreases subs@.len() - j,
                    {
                        out.push(&subs[j]);
                        j += 1;
                    }
                    proof {
                        assert(subs@ == lists[i as int]);
                    }
                },
                Err(_) => {
                    proof {
                        assert(lists[i as int] =~= Seq::<S>::empty());
                    }
                },
            }
            proof {
                let joined = spec_joined(lists.take(i as int + 1));
                assert(joined == spec_joined(lists.take(i as int)) + lists[i as int]);
                assert(out@.len() == before.len() + lists[i as int].len());
                assert forall|k: int| 0 <= k < out@.len() implies *out@[k] == joined[k] by {
                    if k < before.len() {
                        assert(out@[k] == before[k]);
                        assert(*before[k] == prev[k]);
                    } else {
                        assert(*out@[before.len() + (k - before.len())] == lists[i as int][k
                            - before.len()]);
                    }
                }
            }
            i += 1;
        }
        assert(lists.take(i as int) =~= lists);
        out
    }

    /// The property `property_name` of the activity `activity_id`.
    pub fn get_property(&self, activity_id: &str, property_name: &str) -> (r: Result<
        &DynamicProperty<P>,
        LookupError,
    >)
        requires
            self.wf(),
            self.view().dom().contains(activity_id@) ==> self.view()[activity_id@].wf(),
        ensures
            !self.view().dom().contains(activity_id@) ==> (r matches Err(
                LookupError::Activity(ActivityMapError::NotFound(n)),
            ) && n@ == activity_id@),
            self.view().dom().contains(activity_id@) && !self.view()[activity_id@].view().dom().contains(
                property_name@,
            ) ==> (r matches Err(LookupError::Property(PropertyError::Missing(n))) && n@
                == property_name@),
            self.view().dom().contains(activity_id@) && self.view()[activity_id@].view().dom().contains(
                property_name@,
            ) ==> (r matches Ok(p) && p.spec_value() == self.view()[activity_id@].view()[property_name@].0
                && p.spec_name() == property_name@),
    {
        match self.get_activity(activity_id) {
            Ok(activity) => match activity.get_property_any(property_name) {
                Ok(p) => Ok(p),
                Err(e) => Err(LookupError::Property(e)),
            },
            Err(e) => Err(LookupError::Activity(e)),
        }
    }
}

} // verus!
