//! The property map and the tag sets that reactive entity and relation instances hold.
use crate::instances::pairs_to_map;
use crate::json::fresh_id;
use crate::property_instance::PropertyObserver;
use crate::property_instance::ReactivePropertyInstance;
use crate::property_type::default_value_of;
use crate::json::json_as_array;
use crate::json::json_as_object;
use crate::json::json_as_string;
use crate::json::json_array;
use crate::json::json_bool;
use crate::json::json_i64;
use crate::json::json_object;
use crate::json::json_str;
use crate::json::json_u64;
use crate::property_type::Component;
use crate::property_type::PropertyType;
use serde_json::Map as JsonMap;
use serde_json::Value;
use vstd::prelude::*;

verus! {

/// The properties of an instance, by name: each name stands for at most one stream, and
/// streams are kept in the order they were added.
pub struct ReactiveProperties<O> {
    pub items: Vec<ReactivePropertyInstance<O>>,
}

impl<O: PropertyObserver> ReactiveProperties<O> {
    /// The property names, in order.
    pub open spec fn names(&self) -> Seq<Seq<char>> {
        self.items@.map_values(|p: ReactivePropertyInstance<O>| p.name@)
    }

    pub open spec fn wf(&self) -> bool {
        &&& self.names().no_duplicates()
        &&& forall|i: int| 0 <= i < self.items@.len() ==> #[trigger] self.items@[i].wf()
    }

    /// The position of the stream named `n`.
    pub open spec fn index_of(&self, n: Seq<char>) -> int {
        choose|i: int| 0 <= i < self.items@.len() && self.items@[i].name@ == n
    }

    /// The stream named `n`.
    pub open spec fn stream(&self, n: Seq<char>) -> ReactivePropertyInstance<O> {
        self.items@[self.index_of(n)]
    }

    /// The current value of each property, by name.
    pub open spec fn view(&self) -> Map<Seq<char>, Value> {
        Map::new(|n: Seq<char>| self.names().contains(n), |n: Seq<char>| self.stream(n).value)
    }

    /// The current value of the property named `n`, if there is one.
    pub open spec fn value_of(&self, n: Seq<char>) -> Option<Value> {
        value_in(self@, n)
    }

    /// Every stream of `next` is the one at the same position here, but the one at `i`.
    pub open spec fn same_except(&self, next: &Self, i: int) -> bool {
        &&& next.items@.len() == self.items@.len()
        &&& forall|j: int|
            0 <= j < self.items@.len() && j != i ==> #[trigger] next.items@[j] == self.items@[j]
    }

    /// `next` keeps every stream of this map, in place, and may add streams after them.
    pub open spec fn extended_by(&self, next: &Self) -> bool {
        &&& next.items@.len() >= self.items@.len()
        &&& forall|j: int| 0 <= j < self.items@.len() ==> #[trigger] next.items@[j] == self.items@[j]
    }

    /// No stream has an observer.
    pub open spec fn no_observers(&self) -> bool {
        forall|j: int| 0 <= j < self.items@.len() ==> (#[trigger] self.items@[j]).observers@.len() == 0
    }

    /// `next` holds a fresh stream named `n` with value `v`, in the place of the stream of
    /// that name, or last; every other stream is kept in place.
    pub open spec fn after_put(&self, next: &Self, n: Seq<char>, v: Value) -> bool {
        if self@.contains_key(n) {
            &&& self.same_except(next, self.index_of(n))
            &&& next.items@[self.index_of(n)].is_fresh(n, v)
        } else {
            &&& next.items@.len() == self.items@.len() + 1
            &&& self.extended_by(next)
            &&& next.items@.last().is_fresh(n, v)
        }
    }

    /// `next` is this map after `add_property(n, v)`: the streams are kept as they are where
    /// `n` exists, else a fresh stream comes last.
    pub open spec fn after_add(&self, next: &Self, n: Seq<char>, v: Value) -> bool {
        if self@.contains_key(n) {
            next.items@ == self.items@
        } else {
            self.after_put(next, n, v)
        }
    }

    /// `next` is this map after `set(n, v)`.
    pub open spec fn after_set(&self, next: &Self, n: Seq<char>, v: Value) -> bool {
        if self@.contains_key(n) {
            &&& self.same_except(next, self.index_of(n))
            &&& self.items@[self.index_of(n)].after_set(&next.items@[self.index_of(n)], v)
        } else {
            next.items@ == self.items@
        }
    }

    /// `next` is this map after `set_no_propagate(n, v)`.
    pub open spec fn after_set_no_propagate(&self, next: &Self, n: Seq<char>, v: Value) -> bool {
        if self@.contains_key(n) {
            &&& self.same_except(next, self.index_of(n))
            &&& self.items@[self.index_of(n)].after_set_no_propagate(
                &next.items@[self.index_of(n)],
                v,
            )
        } else {
            next.items@ == self.items@
        }
    }

    /// `next` is this map after `tick()`.
    pub open spec fn after_tick(&self, next: &Self) -> bool {
        &&& next.items@.len() == self.items@.len()
        &&& forall|j: int|
            #![trigger next.items@[j]]
            0 <= j < self.items@.len() ==> self.items@[j].after_tick(&next.items@[j])
    }

    /// `next` is this map after `observe_with_handle(n, subscriber, handle_id)`.
    pub open spec fn after_observe(
        &self,
        next: &Self,
        n: Seq<char>,
        subscriber: O,
        handle_id: u128,
    ) -> bool {
        if self@.contains_key(n) {
            &&& self.same_except(next, self.index_of(n))
            &&& self.items@[self.index_of(n)].after_observe(
                &next.items@[self.index_of(n)],
                subscriber,
                handle_id,
            )
        } else {
            next.items@ == self.items@
        }
    }

    /// `next` is this map after `remove_observer(n, handle_id)`.
    pub open spec fn after_remove_observer(&self, next: &Self, n: Seq<char>, handle_id: u128) -> bool {
        if self@.contains_key(n) {
            &&& self.same_except(next, self.index_of(n))
            &&& self.items@[self.index_of(n)].after_remove_observer(
                &next.items@[self.index_of(n)],
                handle_id,
            )
        } else {
            next.items@ == self.items@
        }
    }

    /// The stream at position `i` is the one its name stands for.
    pub proof fn lemma_stream_at(&self, i: int)
        requires
            self.wf(),
            0 <= i < self.items@.len(),
        ensures
            self.index_of(self.items@[i].name@) == i,
            self@.contains_key(self.items@[i].name@),
            self@[self.items@[i].name@] == self.items@[i].value,
    {
        let n = self.items@[i].name@;
        assert(self.names()[i] == n);
        let j = self.index_of(n);
        assert(self.names()[j] == n);
    }

    pub fn new() -> (r: Self)
        ensures
            r.wf(),
            r@ == Map::<Seq<char>, Value>::empty(),
            r.items@.len() == 0,
    {
        let r = ReactiveProperties { items: Vec::new() };
        assert(r@ =~= Map::<Seq<char>, Value>::empty());
        r
    }

    /// Streams for the given (name, value) pairs, each with a fresh identity; where a name
    /// occurs twice, the later value wins.
    pub fn from_pairs(pairs: &Vec<(String, Value)>) -> (r: Self)
        ensures
            r.wf(),
            r@ == pairs_to_map(pairs@),
            r.no_observers(),
    {
        let mut r = ReactiveProperties::new();
        let mut i: usize = 0;
        while i < pairs.len()
            invariant
                0 <= i <= pairs@.len(),
                r.wf(),
                r@ == pairs_to_map(pairs@.take(i as int)),
                r.no_observers(),
            decreases pairs@.len() - i,
        {
            assert(pairs@.take(i + 1).drop_last() =~= pairs@.take(i as int));
            let ghost before = r;
            r.insert_property(pairs[i].0.as_str(), pairs[i].1.clone());
            assert forall|j: int| 0 <= j < r.items@.len() implies (#[trigger] r.items@[j]).observers@.len() == 0 by {
                if j < before.items@.len() && !(before@.contains_key(pairs@[i as int].0@) && j == before.index_of(pairs@[i as int].0@)) {
                    assert(r.items@[j] == before.items@[j]);
                }
            }
            i = i + 1;
        }
        assert(pairs@.take(i as int) =~= pairs@);
        r
    }

    /// The position of the property named `name`, if there is one.
    pub fn find(&self, name: &str) -> (r: Option<usize>)
        requires
            self.wf(),
        ensures
            r is None <==> !self@.contains_key(name@),
            r is Some ==> r->Some_0 < self.items@.len() && self.items@[r->Some_0 as int].name@
                == name@ && self.index_of(name@) == r->Some_0,
    {
        let key = name.to_owned();
        let mut i: usize = 0;
        while i < self.items.len()
            invariant
                0 <= i <= self.items@.len(),
                key@ == name@,
                self.wf(),
                forall|j: int| 0 <= j < i ==> self.names()[j] != name@,
            decreases self.items@.len() - i,
        {
            if self.items[i].name == key {
                proof {
                    self.lemma_stream_at(i as int);
                }
                return Some(i);
            }
            assert(self.names()[i as int] != name@);
            i = i + 1;
        }
        None
    }

    pub fn has_property(&self, name: &str) -> (r: bool)
        requires
            self.wf(),
        ensures
            r == self@.contains_key(name@),
    {
        self.find(name).is_some()
    }

    /// Appends a stream whose name is not taken yet.
    fn push_new(&mut self, p: ReactivePropertyInstance<O>)
        requires
            old(self).wf(),
            p.wf(),
            !old(self)@.contains_key(p.name@),
        ensures
            final(self).wf(),
            final(self).items@ == old(self).items@.push(p),
            final(self)@ == old(self)@.insert(p.name@, p.value),
    {
        self.items.push(p);
        let ghost n = p.name@;
        assert(self.names() =~= old(self).names().push(n));
        assert forall|i: int| 0 <= i < self.items@.len() implies #[trigger] self.items@[i].wf() by {
            if i < old(self).items@.len() {
                assert(self.items@[i] == old(self).items@[i]);
            }
        }
        assert forall|k: Seq<char>|
            #![auto]
            self@.contains_key(k) == old(self)@.insert(n, p.value).contains_key(k) by {
            if old(self).names().contains(k) {
                let j = choose|j: int| 0 <= j < old(self).names().len() && old(self).names()[j] == k;
                assert(self.names()[j] == k);
            }
            if k == n {
                assert(self.names()[old(self).names().len() as int] == n);
            }
            if self.names().contains(k) && k != n {
                let j = choose|j: int| 0 <= j < self.names().len() && self.names()[j] == k;
                assert(j < old(self).names().len());
                assert(old(self).names()[j] == k);
            }
        }
        assert forall|k: Seq<char>| #[trigger] self@.contains_key(k) implies self@[k] == old(
            self,
        )@.insert(n, p.value)[k] by {
            let j = choose|j: int| 0 <= j < self.names().len() && self.names()[j] == k;
            self.lemma_stream_at(j);
            if j < old(self).items@.len() {
                assert(old(self).names()[j] == k);
                old(self).lemma_stream_at(j);
            }
        }
        assert(self@ =~= old(self)@.insert(n, p.value));
    }

    /// Replaces the stream at position `i` by one of the same name.
    fn replace_at(&mut self, i: usize, p: ReactivePropertyInstance<O>)
        requires
            old(self).wf(),
            p.wf(),
            i < old(self).items@.len(),
            old(self).items@[i as int].name@ == p.name@,
        ensures
            final(self).wf(),
            final(self).items@ == old(self).items@.update(i as int, p),
            final(self)@ == old(self)@.insert(p.name@, p.value),
    {
        self.items.set(i, p);
        proof {
            self.lemma_updated(*old(self), i as int);
        }
    }

    /// Replacing the stream at one position by one of the same name changes the value of
    /// that name only.
    proof fn lemma_updated(&self, before: Self, i: int)
        requires
            before.wf(),
            0 <= i < before.items@.len(),
            self.items@.len() == before.items@.len(),
            self.items@ == before.items@.update(i, self.items@[i]),
            self.items@[i].name@ == before.items@[i].name@,
            self.items@[i].wf(),
        ensures
            self.wf(),
            self@ == before@.insert(self.items@[i].name@, self.items@[i].value),
            self.names() == before.names(),
    {
        let n = self.items@[i].name@;
        let v = self.items@[i].value;
        assert(self.names() =~= before.names());
        assert forall|j: int| 0 <= j < self.items@.len() implies #[trigger] self.items@[j].wf() by {
            if j != i {
                assert(self.items@[j] == before.items@[j]);
            }
        }
        before.lemma_stream_at(i);
        assert forall|k: Seq<char>|
            #![auto]
            self@.contains_key(k) == before@.insert(n, v).contains_key(k) by {
        }
        assert forall|k: Seq<char>| #[trigger] self@.contains_key(k) implies self@[k] == before@.insert(
            n,
            v,
        )[k] by {
            let j = choose|j: int| 0 <= j < self.names().len() && self.names()[j] == k;
            self.lemma_stream_at(j);
            before.lemma_stream_at(j);
        }
        assert(self@ =~= before@.insert(n, v));
    }

    /// Adds a property with an initial value, unless one of that name exists already.
    pub fn add_property(&mut self, name: &str, value: Value)
        requires
            old(self).wf(),
        ensures
            final(self).wf(),
            final(self)@ == with_property(old(self)@, name@, value),
            old(self).after_add(final(self), name@, value),
    {
        if self.find(name).is_none() {
            let p = ReactivePropertyInstance::new(fresh_id(), name, value);
            self.push_new(p);
        }
    }

    /// Creates the property with the default value of its data type, replacing any stream
    /// of that name.
    pub fn add_property_by_type(&mut self, property: &PropertyType)
        requires
            old(self).wf(),
        ensures
            final(self).wf(),
            final(self)@ == old(self)@.insert(property.name@, default_value_of(property.data_type)),
            old(self).after_put(final(self), property.name@, default_value_of(property.data_type)),
    {
        self.insert_property(property.name.as_str(), property.data_type.default_value());
    }

    /// Creates the property with the given value, replacing any stream of that name.
    pub fn insert_property(&mut self, name: &str, value: Value)
        requires
            old(self).wf(),
        ensures
            final(self).wf(),
            final(self)@ == old(self)@.insert(name@, value),
            old(self).after_put(final(self), name@, value),
    {
        let p = ReactivePropertyInstance::new(fresh_id(), name, value);
        match self.find(name) {
            Some(i) => self.replace_at(i, p),
            None => {
                self.push_new(p);
                assert(self.items@.last() == p);
            },
        }
    }

    /// Removes the property named `name`, if there is one.
    pub fn remove_property(&mut self, name: &str)
        requires
            old(self).wf(),
        ensures
            final(self).wf(),
            final(self)@ == old(self)@.remove(name@),
    {
        match self.find(name) {
            Some(i) => {
                let _ = self.items.remove(i);
                let ghost before = *old(self);
                assert(self.names() =~= before.names().remove(i as int));
                assert forall|a: int, b: int|
                    0 <= a < b < self.names().len() implies self.names()[a] != self.names()[b] by {
                    let a2 = if a >= i { a + 1 } else { a };
                    let b2 = if b >= i { b + 1 } else { b };
                    assert(self.names()[a] == before.names()[a2]);
                    assert(self.names()[b] == before.names()[b2]);
                }
                assert forall|j: int| 0 <= j < self.items@.len() implies #[trigger] self.items@[j].wf() by {
                    if j >= i {
                        assert(self.items@[j] == before.items@[j + 1]);
                    }
                }
                assert forall|k: Seq<char>|
                    #![auto]
                    self@.contains_key(k) == before@.remove(name@).contains_key(k) by {
                    if self.names().contains(k) {
                        let j = choose|j: int| 0 <= j < self.names().len() && self.names()[j] == k;
                        let j2 = if j >= i { j + 1 } else { j };
                        assert(before.names()[j2] == k);
                        assert(before.names()[i as int] == name@);
                    }
                    if before@.remove(name@).contains_key(k) {
                        let j = choose|j: int| 0 <= j < before.names().len() && before.names()[j] == k;
                        assert(j != i);
                        let j2 = if j > i { j - 1 } else { j };
                        assert(self.names()[j2] == k);
                    }
                }
                assert forall|k: Seq<char>| #[trigger] self@.contains_key(k) implies self@[k]
                    == before@.remove(name@)[k] by {
                    let j = choose|j: int| 0 <= j < self.names().len() && self.names()[j] == k;
                    let j2 = if j >= i { j + 1 } else { j };
                    self.lemma_stream_at(j);
                    before.lemma_stream_at(j2);
                }
                assert(self@ =~= before@.remove(name@));
            },
            None => {
                assert(self@ =~= old(self)@.remove(name@));
            },
        }
    }

    /// The current value of the property named `name`.
    pub fn get(&self, name: &str) -> (r: Option<Value>)
        requires
            self.wf(),
        ensures
            r == self.value_of(name@),
    {
        match self.find(name) {
            Some(i) => {
                proof {
                    self.lemma_stream_at(i as int);
                }
                Some(self.items[i].get())
            },
            None => None,
        }
    }

    /// Writes `value` to the property named `name` and notifies its observers; nothing
    /// happens if there is no such property.
    pub fn set(&mut self, name: &str, value: Value)
        requires
            old(self).wf(),
        ensures
            final(self).wf(),
            old(self)@.contains_key(name@) ==> final(self)@ == old(self)@.insert(name@, value),
            !old(self)@.contains_key(name@) ==> final(self)@ == old(self)@,
            old(self).after_set(final(self), name@, value),
    {
        match self.find(name) {
            Some(i) => {
                self.items[i].set(value);
                proof {
                    self.lemma_updated(*old(self), i as int);
                    self.lemma_stream_at(i as int);
                }
            },
            None => {},
        }
    }

    /// Writes `value` to the property named `name` without notifying any observer; nothing
    /// happens if there is no such property.
    pub fn set_no_propagate(&mut self, name: &str, value: Value)
        requires
            old(self).wf(),
        ensures
            final(self).wf(),
            old(self)@.contains_key(name@) ==> final(self)@ == old(self)@.insert(name@, value),
            !old(self)@.contains_key(name@) ==> final(self)@ == old(self)@,
            old(self).after_set_no_propagate(final(self), name@, value),
    {
        match self.find(name) {
            Some(i) => {
                self.items[i].set_no_propagate(value);
                proof {
                    self.lemma_updated(*old(self), i as int);
                    self.lemma_stream_at(i as int);
                }
            },
            None => {},
        }
    }

    /// Ticks every property: each stream sends its current value to its observers.
    pub fn tick(&mut self)
        requires
            old(self).wf(),
        ensures
            final(self).wf(),
            final(self)@ == old(self)@,
            final(self).names() == old(self).names(),
            old(self).after_tick(final(self)),
    {
        let n = self.items.len();
        let mut i: usize = 0;
        while i < n
            invariant
                0 <= i <= n,
                n == self.items@.len(),
                n == old(self).items@.len(),
                self.wf(),
                self@ == old(self)@,
                self.names() == old(self).names(),
                forall|j: int| i <= j < n ==> self.items@[j] == old(self).items@[j],
                forall|j: int|
                    #![trigger self.items@[j]]
                    0 <= j < i ==> old(self).items@[j].after_tick(&self.items@[j]),
            decreases n - i,
        {
            let ghost before = *self;
            self.items[i].tick();
            proof {
                self.lemma_updated(before, i as int);
                before.lemma_stream_at(i as int);
                assert(self.items@[i as int].value == before.items@[i as int].value);
                assert(self@ =~= before@);
            }
            i = i + 1;
        }
    }

    /// Registers `subscriber` under `handle_id` with the property named `name`; nothing
    /// happens if there is no such property.
    pub fn observe_with_handle(&mut self, name: &str, subscriber: O, handle_id: u128)
        requires
            old(self).wf(),
        ensures
            final(self).wf(),
            final(self)@ == old(self)@,
            old(self).after_observe(final(self), name@, subscriber, handle_id),
    {
        match self.find(name) {
            Some(i) => {
                self.items[i].observe_with_handle(subscriber, handle_id);
                proof {
                    self.lemma_updated(*old(self), i as int);
                    self.lemma_stream_at(i as int);
                    old(self).lemma_stream_at(i as int);
                    assert(self@ =~= old(self)@);
                }
            },
            None => {},
        }
    }

    /// Unregisters the observer under `handle_id` from the property named `name`; nothing
    /// happens if there is no such property or observer.
    pub fn remove_observer(&mut self, name: &str, handle_id: u128)
        requires
            old(self).wf(),
        ensures
            final(self).wf(),
            final(self)@ == old(self)@,
            old(self).after_remove_observer(final(self), name@, handle_id),
            old(self)@.contains_key(name@) ==> !final(self).items@[old(self).index_of(
                name@,
            )].handles().contains(handle_id),
    {
        match self.find(name) {
            Some(i) => {
                self.items[i].remove_observer(handle_id);
                proof {
                    self.lemma_updated(*old(self), i as int);
                    self.lemma_stream_at(i as int);
                    old(self).lemma_stream_at(i as int);
                    assert(self@ =~= old(self)@);
                }
            },
            None => {},
        }
    }

    /// The name and current value of every property, in order.
    pub fn values(&self) -> (r: Vec<(String, Value)>)
        requires
            self.wf(),
        ensures
            r@.len() == self.items@.len(),
            forall|i: int|
                0 <= i < r@.len() ==> (#[trigger] r@[i]).0@ == self.names()[i] && r@[i].1
                    == self.items@[i].value,
    {
        let mut r: Vec<(String, Value)> = Vec::new();
        let mut i: usize = 0;
        while i < self.items.len()
            invariant
                0 <= i <= self.items@.len(),
                r@.len() == i,
                forall|j: int|
                    0 <= j < i ==> (#[trigger] r@[j]).0@ == self.names()[j] && r@[j].1
                        == self.items@[j].value,
            decreases self.items@.len() - i,
        {
            r.push((self.items[i].name.clone(), self.items[i].get()));
            i = i + 1;
        }
        r
    }

    /// The boolean held by the property named `name`; none where there is no such property
    /// or its value is no boolean.
    pub fn as_bool(&self, name: &str) -> (r: Option<bool>)
        requires
            self.wf(),
        ensures
            r == (match self.value_of(name@) {
                Some(v) => json_bool(v),
                None => None,
            }),
    {
        match self.find(name) {
            Some(i) => {
                proof {
                    self.lemma_stream_at(i as int);
                }
                self.items[i].value.as_bool()
            },
            None => None,
        }
    }

    /// The unsigned integer held by the property named `name`, if any.
    pub fn as_u64(&self, name: &str) -> (r: Option<u64>)
        requires
            self.wf(),
        ensures
            r == (match self.value_of(name@) {
                Some(v) => json_u64(v),
                None => None,
            }),
    {
        match self.find(name) {
            Some(i) => {
                proof {
                    self.lemma_stream_at(i as int);
                }
                self.items[i].value.as_u64()
            },
            None => None,
        }
    }

    /// The signed integer held by the property named `name`, if any.
    pub fn as_i64(&self, name: &str) -> (r: Option<i64>)
        requires
            self.wf(),
        ensures
            r == (match self.value_of(name@) {
                Some(v) => json_i64(v),
                None => None,
            }),
    {
        match self.find(name) {
            Some(i) => {
                proof {
                    self.lemma_stream_at(i as int);
                }
                self.items[i].value.as_i64()
            },
            None => None,
        }
    }

    /// The text held by the property named `name`, if any.
    pub fn as_string(&self, name: &str) -> (r: Option<String>)
        requires
            self.wf(),
        ensures
            (r is Some) == (self.value_of(name@) is Some && json_str(
                self.value_of(name@)->Some_0,
            ) is Some),
            r is Some ==> r->Some_0@ == json_str(self.value_of(name@)->Some_0)->Some_0,
    {
        match self.find(name) {
            Some(i) => {
                proof {
                    self.lemma_stream_at(i as int);
                }
                json_as_string(&self.items[i].value)
            },
            None => None,
        }
    }

    /// The elements of the array held by the property named `name`, if any.
    pub fn as_array(&self, name: &str) -> (r: Option<Vec<Value>>)
        requires
            self.wf(),
        ensures
            (r is Some) == (self.value_of(name@) is Some && json_array(
                self.value_of(name@)->Some_0,
            ) is Some),
            r is Some ==> r->Some_0@ == json_array(self.value_of(name@)->Some_0)->Some_0,
    {
        match self.find(name) {
            Some(i) => {
                proof {
                    self.lemma_stream_at(i as int);
                }
                json_as_array(&self.items[i].value)
            },
            None => None,
        }
    }

    /// The object held by the property named `name`, if any.
    pub fn as_object(&self, name: &str) -> (r: Option<JsonMap<String, Value>>)
        requires
            self.wf(),
        ensures
            r == (match self.value_of(name@) {
                Some(v) => json_object(v),
                None => None,
            }),
    {
        match self.find(name) {
            Some(i) => {
                proof {
                    self.lemma_stream_at(i as int);
                }
                json_as_object(&self.items[i].value)
            },
            None => None,
        }
    }
}

/// The value under `n` in `m`, if there is one.
pub open spec fn value_in(m: Map<Seq<char>, Value>, n: Seq<char>) -> Option<Value> {
    if m.contains_key(n) {
        Some(m[n])
    } else {
        None
    }
}

/// The property map after adding `n` with `v`: unchanged where `n` exists already.
pub open spec fn with_property(m: Map<Seq<char>, Value>, n: Seq<char>, v: Value) -> Map<
    Seq<char>,
    Value,
> {
    if m.contains_key(n) {
        m
    } else {
        m.insert(n, v)
    }
}

/// A property added under a name not taken holds the value it was added with.
pub proof fn lemma_add_property_then_get(m: Map<Seq<char>, Value>, n: Seq<char>, v: Value)
    requires
        !m.contains_key(n),
    ensures
        with_property(m, n, v).contains_key(n),
        value_in(with_property(m, n, v), n) == Some(v),
{
}

/// Adding a property does not overwrite: after adding `n` with `v1`, then with `v2`, the
/// property holds `v1`.
pub proof fn lemma_add_property_keeps_first(
    m: Map<Seq<char>, Value>,
    n: Seq<char>,
    v1: Value,
    v2: Value,
)
    requires
        !m.contains_key(n),
    ensures
        value_in(with_property(with_property(m, n, v1), n, v2), n) == Some(v1),
{
}

/// Adding a property by its type overwrites: after adding `n` with `v`, then the property
/// type named `n`, the property holds the default value of the type's data type.
pub proof fn lemma_add_property_by_type_overwrites(
    m: Map<Seq<char>, Value>,
    v: Value,
    pt: PropertyType,
)
    ensures
        value_in(
            with_property(m, pt.name@, v).insert(pt.name@, default_value_of(pt.data_type)),
            pt.name@,
        ) == Some(default_value_of(pt.data_type)),
{
}

/// The values after each property type of `pts`, in order, is given its default value
/// where no property of its name exists yet.
pub open spec fn with_defaults(m: Map<Seq<char>, Value>, pts: Seq<PropertyType>) -> Map<
    Seq<char>,
    Value,
>
    decreases pts.len(),
{
    if pts.len() == 0 {
        m
    } else {
        let before = with_defaults(m, pts.drop_last());
        let pt = pts.last();
        if before.contains_key(pt.name@) {
            before
        } else {
            before.insert(pt.name@, default_value_of(pt.data_type))
        }
    }
}

/// A set of names (of components or behaviours), each held once, in the order added.
pub struct NameSet {
    pub items: Vec<String>,
}

impl NameSet {
    pub open spec fn names(&self) -> Seq<Seq<char>> {
        self.items@.map_values(|s: String| s@)
    }

    pub open spec fn wf(&self) -> bool {
        self.names().no_duplicates()
    }

    pub open spec fn view(&self) -> Set<Seq<char>> {
        Set::new(|n: Seq<char>| self.names().contains(n))
    }

    pub fn new() -> (r: NameSet)
        ensures
            r.wf(),
            r@ == Set::<Seq<char>>::empty(),
    {
        let r = NameSet { items: Vec::new() };
        assert(r@ =~= Set::<Seq<char>>::empty());
        r
    }

    fn find(&self, name: &str) -> (r: Option<usize>)
        ensures
            r is None <==> !self@.contains(name@),
            r is Some ==> r->Some_0 < self.items@.len() && self.names()[r->Some_0 as int]
                == name@,
    {
        let key = name.to_owned();
        let mut i: usize = 0;
        while i < self.items.len()
            invariant
                0 <= i <= self.items@.len(),
                key@ == name@,
                forall|j: int| 0 <= j < i ==> self.names()[j] != name@,
            decreases self.items@.len() - i,
        {
            if self.items[i] == key {
                assert(self.names()[i as int] == name@);
                return Some(i);
            }
            assert(self.names()[i as int] != name@);
            i = i + 1;
        }
        None
    }

    pub fn contains(&self, name: &str) -> (r: bool)
        ensures
            r == self@.contains(name@),
    {
        self.find(name).is_some()
    }

    /// Adds the name; nothing changes if it is present already.
    pub fn insert(&mut self, name: &str)
        requires
            old(self).wf(),
        ensures
            final(self).wf(),
            final(self)@ == old(self)@.insert(name@),
    {
        if self.find(name).is_none() {
            self.items.push(name.to_owned());
            assert(self.names() =~= old(self).names().push(name@));
            assert(self.names()[old(self).names().len() as int] == name@);
            assert forall|k: Seq<char>| #![auto] self@.contains(k) == old(self)@.insert(name@).contains(k) by {
                if old(self).names().contains(k) {
                    let j = choose|j: int| 0 <= j < old(self).names().len() && old(self).names()[j] == k;
                    assert(self.names()[j] == k);
                }
                if self.names().contains(k) && k != name@ {
                    let j = choose|j: int| 0 <= j < self.names().len() && self.names()[j] == k;
                    assert(old(self).names()[j] == k);
                }
            }
        }
        assert(self@ =~= old(self)@.insert(name@));
    }

    /// Removes the name; nothing changes if it is absent.
    pub fn remove(&mut self, name: &str)
        requires
            old(self).wf(),
        ensures
            final(self).wf(),
            final(self)@ == old(self)@.remove(name@),
    {
        match self.find(name) {
            Some(i) => {
                let _ = self.items.remove(i);
                let ghost before = old(self).names();
                assert(self.names() =~= before.remove(i as int));
                assert forall|a: int, b: int|
                    0 <= a < b < self.names().len() implies self.names()[a] != self.names()[b] by {
                    let a2 = if a >= i { a + 1 } else { a };
                    let b2 = if b >= i { b + 1 } else { b };
                    assert(self.names()[a] == before[a2]);
                    assert(self.names()[b] == before[b2]);
                }
                assert forall|k: Seq<char>| #![auto] self@.contains(k) == old(self)@.remove(name@).contains(k) by {
                    if self.names().contains(k) {
                        let j = choose|j: int| 0 <= j < self.names().len() && self.names()[j] == k;
                        let j2 = if j >= i { j + 1 } else { j };
                        assert(before[j2] == k);
                    }
                    if old(self)@.remove(name@).contains(k) {
                        let j = choose|j: int| 0 <= j < before.len() && before[j] == k;
                        assert(j != i);
                        let j2 = if j > i { j - 1 } else { j };
                        assert(self.names()[j2] == k);
                    }
                }
            },
            None => {},
        }
        assert(self@ =~= old(self)@.remove(name@));
    }

    /// The names, in the order they were added.
    pub fn to_vec(&self) -> (r: Vec<String>)
        ensures
            r@.map_values(|s: String| s@) == self.names(),
    {
        let r = self.items.clone();
        assert(r@.map_values(|s: String| s@) =~= self.names());
        r
    }
}

/// Adds the component's name to `components` and gives each property that the component
/// declares its default value, where no property of that name exists yet.
pub fn attach_component<O: PropertyObserver>(
    properties: &mut ReactiveProperties<O>,
    components: &mut NameSet,
    component: &Component,
)
    requires
        old(properties).wf(),
        old(components).wf(),
    ensures
        final(properties).wf(),
        final(components).wf(),
        final(components)@ == old(components)@.insert(component.name@),
        final(properties)@ == with_defaults(old(properties)@, component.properties@),
        old(properties).extended_by(final(properties)),
        forall|j: int|
            old(properties).items@.len() <= j < final(properties).items@.len() ==> (
            #[trigger] final(properties).items@[j]).observers@.len() == 0,
{
    components.insert(component.name.as_str());
    let mut i: usize = 0;
    while i < component.properties.len()
        invariant
            0 <= i <= component.properties@.len(),
            properties.wf(),
            properties@ == with_defaults(old(properties)@, component.properties@.take(i as int)),
            old(properties).extended_by(properties),
            forall|j: int|
                old(properties).items@.len() <= j < properties.items@.len() ==> (
                #[trigger] properties.items@[j]).observers@.len() == 0,
        decreases component.properties@.len() - i,
    {
        let pt = &component.properties[i];
        assert(component.properties@.take(i + 1).drop_last() =~= component.properties@.take(
            i as int,
        ));
        if !properties.has_property(pt.name.as_str()) {
            properties.add_property_by_type(pt);
        }
        i = i + 1;
    }
    assert(component.properties@.take(i as int) =~= component.properties@);
}

} // verus!
