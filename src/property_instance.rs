//! The reactive property stream: an observable value cell that propagates on write.
use serde_json::Value;
use vstd::prelude::*;

verus! {

/// A subscriber to the values published by a property stream.
pub trait PropertyObserver {
    /// The values this observer has received so far, in order.
    spec fn received(&self) -> Seq<Value>;

    /// Receives a value that the stream published.
    fn notify(&mut self, value: &Value)
        ensures
            final(self).received() == old(self).received().push(*value),
    ;
}

/// An observer that keeps every value it receives.
#[derive(Clone, Debug)]
pub struct ValueRecorder {
    pub values: Vec<Value>,
}

impl ValueRecorder {
    pub fn new() -> (r: ValueRecorder)
        ensures
            r.values@.len() == 0,
    {
        ValueRecorder { values: Vec::new() }
    }
}

impl PropertyObserver for ValueRecorder {
    open spec fn received(&self) -> Seq<Value> {
        self.values@
    }

    fn notify(&mut self, value: &Value) {
        self.values.push(value.clone());
    }
}

/// `after` is `before` with `value` sent once to each observer: same handles, in the same
/// order, and each observer has received `value` once more.
pub open spec fn notified<O: PropertyObserver>(
    before: Seq<(u128, O)>,
    after: Seq<(u128, O)>,
    value: Value,
) -> bool {
    &&& after.len() == before.len()
    &&& forall|i: int|
        0 <= i < before.len() ==> (#[trigger] after[i]).0 == before[i].0 && after[i].1.received()
            == before[i].1.received().push(value)
}

/// An observer that is no longer registered receives nothing from a later publication: every
/// observer that a publication reaches is registered under another handle.
pub proof fn lemma_removed_observer_not_notified<O: PropertyObserver>(
    before: Seq<(u128, O)>,
    after: Seq<(u128, O)>,
    removed: u128,
    value: Value,
)
    requires
        forall|i: int| 0 <= i < before.len() ==> (#[trigger] before[i]).0 != removed,
        notified(before, after, value),
    ensures
        forall|i: int| 0 <= i < after.len() ==> (#[trigger] after[i]).0 != removed,
{
    assert forall|i: int| 0 <= i < after.len() implies (#[trigger] after[i]).0 != removed by {
        assert(before[i].0 != removed);
    }
}

/// A single observable cell: its current value and its registered observers, each under a
/// handle that is unique within the stream, in registration order.
pub struct ReactivePropertyInstance<O> {
    pub id: u128,
    pub name: String,
    pub value: Value,
    pub observers: Vec<(u128, O)>,
}

impl<O: PropertyObserver> ReactivePropertyInstance<O> {
    /// The handles of the registered observers, in registration order.
    pub open spec fn handles(&self) -> Seq<u128> {
        self.observers@.map_values(|e: (u128, O)| e.0)
    }

    pub open spec fn wf(&self) -> bool {
        self.handles().no_duplicates()
    }

    /// A new stream named `n` holding `v`, without observers.
    pub open spec fn is_fresh(&self, n: Seq<char>, v: Value) -> bool {
        &&& self.wf()
        &&& self.name@ == n
        &&& self.value == v
        &&& self.observers@.len() == 0
    }

    /// `next` is this stream after `set(value)`.
    pub open spec fn after_set(&self, next: &Self, value: Value) -> bool {
        &&& next.id == self.id
        &&& next.name == self.name
        &&& next.value == value
        &&& notified(self.observers@, next.observers@, value)
    }

    /// `next` is this stream after `set_no_propagate(value)`.
    pub open spec fn after_set_no_propagate(&self, next: &Self, value: Value) -> bool {
        &&& next.id == self.id
        &&& next.name == self.name
        &&& next.value == value
        &&& next.observers == self.observers
    }

    /// `next` is this stream after `tick()`.
    pub open spec fn after_tick(&self, next: &Self) -> bool {
        self.after_set(next, self.value)
    }

    /// `next` is this stream after `observe_with_handle(subscriber, handle_id)`.
    pub open spec fn after_observe(&self, next: &Self, subscriber: O, handle_id: u128) -> bool {
        &&& next.id == self.id
        &&& next.name == self.name
        &&& next.value == self.value
        &&& if self.handles().contains(handle_id) {
            forall|i: int|
                0 <= i < self.observers@.len() && #[trigger] self.handles()[i] == handle_id
                    ==> next.observers@ == self.observers@.update(i, (handle_id, subscriber))
        } else {
            next.observers@ == self.observers@.push((handle_id, subscriber))
        }
    }

    /// `next` is this stream after `remove_observer(handle_id)`.
    pub open spec fn after_remove_observer(&self, next: &Self, handle_id: u128) -> bool {
        &&& next.id == self.id
        &&& next.name == self.name
        &&& next.value == self.value
        &&& if self.handles().contains(handle_id) {
            exists|i: int|
                0 <= i < self.observers@.len() && #[trigger] self.handles()[i] == handle_id
                    && next.observers@ == self.observers@.remove(i)
        } else {
            next.observers == self.observers
        }
    }

    pub fn new(id: u128, name: &str, value: Value) -> (r: Self)
        ensures
            r.is_fresh(name@, value),
            r.id == id,
    {
        let r = ReactivePropertyInstance { id, name: name.to_owned(), value, observers: Vec::new() };
        assert(r.handles() =~= Seq::empty());
        r
    }

    /// The last written value.
    pub fn get(&self) -> (r: Value)
        ensures
            r == self.value,
    {
        self.value.clone()
    }

    /// Sends the current value to every observer once, in registration order.
    fn publish(&mut self)
        requires
            old(self).wf(),
        ensures
            final(self).wf(),
            old(self).after_tick(final(self)),
    {
        let n = self.observers.len();
        let mut i: usize = 0;
        while i < n
            invariant
                0 <= i <= n,
                n == self.observers@.len(),
                n == old(self).observers@.len(),
                self.id == old(self).id,
                self.name == old(self).name,
                self.value == old(self).value,
                forall|j: int| i <= j < n ==> self.observers@[j] == old(self).observers@[j],
                forall|j: int|
                    0 <= j < i ==> (#[trigger] self.observers@[j]).0 == old(self).observers@[j].0
                        && self.observers@[j].1.received() == old(
                        self,
                    ).observers@[j].1.received().push(old(self).value),
            decreases n - i,
        {
            let v = self.value.clone();
            self.observers[i].1.notify(&v);
            i = i + 1;
        }
        assert(self.handles() =~= old(self).handles());
    }

    /// Stores `value`, then sends it to every registered observer once, in registration order.
    pub fn set(&mut self, value: Value)
        requires
            old(self).wf(),
        ensures
            final(self).wf(),
            old(self).after_set(final(self), value),
    {
        self.value = value;
        self.publish();
    }

    /// Stores `value` without notifying any observer.
    pub fn set_no_propagate(&mut self, value: Value)
        requires
            old(self).wf(),
        ensures
            final(self).wf(),
            old(self).after_set_no_propagate(final(self), value),
    {
        self.value = value;
    }

    /// Sends the current value, unchanged, to every registered observer once.
    pub fn tick(&mut self)
        requires
            old(self).wf(),
        ensures
            final(self).wf(),
            old(self).after_tick(final(self)),
    {
        self.publish();
    }

    /// The position of the observer registered under `handle_id`, if any.
    fn find_observer(&self, handle_id: u128) -> (r: Option<usize>)
        ensures
            r is None ==> !self.handles().contains(handle_id),
            r is Some ==> r->Some_0 < self.handles().len() && self.handles()[r->Some_0 as int]
                == handle_id,
    {
        let mut i: usize = 0;
        while i < self.observers.len()
            invariant
                0 <= i <= self.observers@.len(),
                forall|j: int| 0 <= j < i ==> self.handles()[j] != handle_id,
            decreases self.observers@.len() - i,
        {
            if self.observers[i].0 == handle_id {
                return Some(i);
            }
            i = i + 1;
        }
        None
    }

    /// Registers `subscriber` under `handle_id`. An observer already registered under that
    /// handle is replaced and keeps its place; otherwise the new one comes last.
    pub fn observe_with_handle(&mut self, subscriber: O, handle_id: u128)
        requires
            old(self).wf(),
        ensures
            final(self).wf(),
            old(self).after_observe(final(self), subscriber, handle_id),
    {
        let ghost s = subscriber;
        match self.find_observer(handle_id) {
            Some(i) => {
                self.observers.set(i, (handle_id, subscriber));
                assert(self.handles() =~= old(self).handles());
                assert forall|k: int|
                    0 <= k < old(self).observers@.len() && #[trigger] old(self).handles()[k]
                        == handle_id implies self.observers@ == old(self).observers@.update(
                    k,
                    (handle_id, s),
                ) by {
                    assert(old(self).handles()[i as int] == handle_id);
                }
            },
            None => {
                self.observers.push((handle_id, subscriber));
                assert(self.handles() =~= old(self).handles().push(handle_id));
            },
        }
    }

    /// Unregisters the observer under `handle_id`; nothing happens if there is none.
    pub fn remove_observer(&mut self, handle_id: u128)
        requires
            old(self).wf(),
        ensures
            final(self).wf(),
            !final(self).handles().contains(handle_id),
            old(self).after_remove_observer(final(self), handle_id),
    {
        match self.find_observer(handle_id) {
            Some(i) => {
                let _ = self.observers.remove(i);
                let ghost old_h = old(self).handles();
                assert(self.handles() =~= old_h.remove(i as int));
                proof {
                    assert forall|a: int, b: int|
                        0 <= a < b < self.handles().len() implies self.handles()[a]
                        != self.handles()[b] by {
                        if a >= i {
                            assert(self.handles()[a] == old_h[a + 1]);
                        }
                        if b >= i {
                            assert(self.handles()[b] == old_h[b + 1]);
                        }
                    }
                    if self.handles().contains(handle_id) {
                        let k = choose|k: int|
                            0 <= k < self.handles().len() && self.handles()[k] == handle_id;
                        if k < i {
                            assert(old_h[k] == old_h[i as int]);
                        } else {
                            assert(old_h[k + 1] == old_h[i as int]);
                        }
                    }
                    assert(old_h[i as int] == handle_id);
                }
            },
            None => {},
        }
    }
}

} // verus!
