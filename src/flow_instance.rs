//! Flows: named subgraphs whose identity is that of a wrapper entity, in a plain form for
//! interchange and a live, reactive form.
use crate::instances::EntityInstance;
use crate::instances::RelationInstance;
use crate::property_instance::PropertyObserver;
use crate::reactive_entity_instance::ReactiveEntityInstance;
use crate::reactive_relation_instance::type_tag;
use crate::reactive_relation_instance::EdgeKey;
use crate::reactive_relation_instance::ReactiveRelationInstance;
use std::sync::Arc;
use vstd::prelude::*;

verus! {

/// The live flow has no entity whose id is the flow's id, so it has no wrapper.
#[derive(Debug, PartialEq, Eq, Structural)]
pub struct FlowInstanceCreationError;

/// A flow instance: a container for entity instances and relation instances, strictly
/// associated with a wrapper entity instance whose id is the flow's id. Entity and relation
/// instances may be shared with other flows.
#[derive(Clone, Debug)]
pub struct FlowInstance {
    /// The id of the flow, which is the id of the wrapper entity instance.
    pub id: u128,
    /// The entity type of the flow instance.
    pub ty_name: String,
    /// The name of the flow instance.
    pub name: String,
    /// Textual description of the flow instance.
    pub description: String,
    /// The entity instances which are contained in this flow instance.
    pub entity_instances: Vec<EntityInstance>,
    /// The relation instances which are contained in this flow instance.
    pub relation_instances: Vec<RelationInstance>,
}

/// `s` is a snapshot of the entity `e`.
pub open spec fn entity_snapshot<O: PropertyObserver>(
    s: EntityInstance,
    e: ReactiveEntityInstance<O>,
) -> bool {
    &&& s.wf()
    &&& s.namespace@ == e.namespace@
    &&& s.id == e.id
    &&& s.ty_name@ == e.ty_name@
    &&& s.description@ == e.description@
    &&& s.properties@.len() == e.properties.items@.len()
    &&& forall|i: int|
        0 <= i < s.properties@.len() ==> (#[trigger] s.properties@[i]).0@ == e.properties.names()[i]
            && s.properties@[i].1 == e.properties.items@[i].value
}

/// `s` is a snapshot of the relation `r`.
pub open spec fn relation_snapshot<O: PropertyObserver>(
    s: RelationInstance,
    r: ReactiveRelationInstance<O>,
) -> bool {
    &&& s.wf()
    &&& s.namespace@ == r.namespace@
    &&& s.outbound_id == r.outbound.id
    &&& s.ty_name@ == r.ty_name@
    &&& s.inbound_id == r.inbound.id
    &&& s.description@ == r.description@
    &&& s.properties@.len() == r.properties.items@.len()
    &&& forall|i: int|
        0 <= i < s.properties@.len() ==> (#[trigger] s.properties@[i]).0@ == r.properties.names()[i]
            && s.properties@[i].1 == r.properties.items@[i].value
}

/// The address of a relation in the backing store: outbound id, type tag, inbound id.
pub open spec fn relation_key<O>(r: ReactiveRelationInstance<O>) -> (u128, Seq<char>, u128) {
    (r.outbound.id, type_tag(r.namespace@, r.ty_name@), r.inbound.id)
}

/// The entities of `es` other than the one with id `id`, in order.
pub open spec fn other_entities<O>(es: Seq<Arc<ReactiveEntityInstance<O>>>, id: u128) -> Seq<
    Arc<ReactiveEntityInstance<O>>,
>
    decreases es.len(),
{
    if es.len() == 0 {
        es
    } else if es.last().id != id {
        other_entities(es.drop_last(), id).push(es.last())
    } else {
        other_entities(es.drop_last(), id)
    }
}

/// None of the other entities has the id left out.
pub proof fn lemma_other_entities_ids<O>(es: Seq<Arc<ReactiveEntityInstance<O>>>, id: u128)
    ensures
        forall|k: int|
            0 <= k < other_entities(es, id).len() ==> (#[trigger] other_entities(es, id)[k]).id
                != id,
    decreases es.len(),
{
    if es.len() > 0 {
        lemma_other_entities_ids(es.drop_last(), id);
        let sub = other_entities(es.drop_last(), id);
        assert forall|k: int|
            0 <= k < other_entities(es, id).len() implies (#[trigger] other_entities(es, id)[k]).id
            != id by {
            if k < sub.len() {
                assert(other_entities(es, id)[k] == sub[k]);
            }
        }
    }
}

impl FlowInstance {
    /// The flow has exactly one entity whose id is the flow's id: its wrapper.
    pub open spec fn has_wrapper(&self) -> bool {
        exists|w: int|
            0 <= w < self.entity_instances@.len() && self.entity_instances@[w].id == self.id
                && forall|k: int|
                0 <= k < self.entity_instances@.len() && k != w ==> (
                #[trigger] self.entity_instances@[k]).id != self.id
    }

    /// Constructs a new flow instance from the wrapper entity instance.
    pub fn from_instance_with_name(wrapper_entity_instance: EntityInstance, name: &str) -> (r:
        FlowInstance)
        ensures
            r.has_wrapper(),
            r.id == wrapper_entity_instance.id,
            r.ty_name@ == wrapper_entity_instance.ty_name@,
            r.name@ == name@,
            r.description@.len() == 0,
            r.entity_instances@ == seq![wrapper_entity_instance],
            r.relation_instances@.len() == 0,
    {
        let r = FlowInstance {
            id: wrapper_entity_instance.id,
            ty_name: wrapper_entity_instance.ty_name.clone(),
            name: name.to_owned(),
            description: String::new(),
            entity_instances: vec![wrapper_entity_instance],
            relation_instances: Vec::new(),
        };
        assert(r.entity_instances@[0].id == r.id);
        r
    }

    /// Constructs a new flow instance, without a name, from the wrapper entity instance.
    pub fn from_entity_instance(wrapper_entity_instance: EntityInstance) -> (r: FlowInstance)
        ensures
            r.has_wrapper(),
            r.id == wrapper_entity_instance.id,
            r.ty_name@ == wrapper_entity_instance.ty_name@,
            r.name@.len() == 0,
            r.description@.len() == 0,
            r.entity_instances@ == seq![wrapper_entity_instance],
            r.relation_instances@.len() == 0,
    {
        proof {
            reveal_strlit("");
        }
        FlowInstance::from_instance_with_name(wrapper_entity_instance, "")
    }
}

/// The live counterpart of a flow: its entities, each id at most once, and its relations.
pub struct ReactiveFlowInstance<O> {
    /// The id of the flow, which is the id of the wrapper entity instance.
    pub id: u128,
    /// The entity instances of the flow.
    pub entity_instances: Vec<Arc<ReactiveEntityInstance<O>>>,
    /// The relation instances of the flow.
    pub relation_instances: Vec<Arc<ReactiveRelationInstance<O>>>,
}

impl<O: PropertyObserver> ReactiveFlowInstance<O> {
    /// The ids of the entities, in order.
    pub open spec fn entity_ids(&self) -> Seq<u128> {
        self.entity_instances@.map_values(|e: Arc<ReactiveEntityInstance<O>>| e.id)
    }

    /// The addresses of the relations, in order.
    pub open spec fn relation_keys(&self) -> Seq<(u128, Seq<char>, u128)> {
        self.relation_instances@.map_values(|r: Arc<ReactiveRelationInstance<O>>| relation_key(*r))
    }

    pub open spec fn wf(&self) -> bool {
        &&& self.entity_ids().no_duplicates()
        &&& self.relation_keys().no_duplicates()
        &&& forall|i: int| 0 <= i < self.entity_instances@.len() ==> (#[trigger] self.entity_instances@[i]).wf()
        &&& forall|i: int| 0 <= i < self.relation_instances@.len() ==> (#[trigger] self.relation_instances@[i]).wf()
    }

    /// A flow with the given id and no entities or relations yet.
    pub fn new(id: u128) -> (r: Self)
        ensures
            r.wf(),
            r.id == id,
            r.entity_instances@.len() == 0,
            r.relation_instances@.len() == 0,
    {
        let r = ReactiveFlowInstance { id, entity_instances: Vec::new(), relation_instances: Vec::new() };
        assert(r.entity_ids() =~= Seq::<u128>::empty());
        r
    }

    /// The position of the entity with id `id`, if there is one.
    pub fn find_entity(&self, id: u128) -> (r: Option<usize>)
        ensures
            r is None <==> !self.entity_ids().contains(id),
            r is Some ==> r->Some_0 < self.entity_instances@.len()
                && self.entity_instances@[r->Some_0 as int].id == id,
    {
        let mut i: usize = 0;
        while i < self.entity_instances.len()
            invariant
                0 <= i <= self.entity_instances@.len(),
                forall|j: int| 0 <= j < i ==> self.entity_ids()[j] != id,
            decreases self.entity_instances@.len() - i,
        {
            if self.entity_instances[i].id == id {
                assert(self.entity_ids()[i as int] == id);
                return Some(i);
            }
            assert(self.entity_ids()[i as int] != id);
            i = i + 1;
        }
        None
    }

    /// The entity with id `id`, if there is one.
    pub fn get_entity(&self, id: u128) -> (r: Option<&Arc<ReactiveEntityInstance<O>>>)
        ensures
            r is None <==> !self.entity_ids().contains(id),
            r is Some ==> self.entity_instances@.contains(*r->Some_0) && r->Some_0.id == id,
    {
        match self.find_entity(id) {
            Some(i) => Some(&self.entity_instances[i]),
            None => None,
        }
    }

    /// Adds the entity; one of the same id is replaced in its place.
    pub fn add_entity(&mut self, entity: Arc<ReactiveEntityInstance<O>>)
        requires
            old(self).wf(),
            entity.wf(),
        ensures
            final(self).wf(),
            final(self).id == old(self).id,
            final(self).relation_instances == old(self).relation_instances,
            final(self).entity_instances@.contains(entity),
            old(self).entity_ids().contains(entity.id) ==> final(self).entity_ids() == old(
                self,
            ).entity_ids(),
            !old(self).entity_ids().contains(entity.id) ==> final(self).entity_instances@ == old(
                self,
            ).entity_instances@.push(entity),
    {
        let ghost e = entity;
        match self.find_entity(entity.id) {
            Some(i) => {
                self.entity_instances.set(i, entity);
                assert(self.entity_ids() =~= old(self).entity_ids());
                assert(self.entity_instances@[i as int] == e);
            },
            None => {
                self.entity_instances.push(entity);
                assert(self.entity_ids() =~= old(self).entity_ids().push(e.id));
                assert(self.entity_instances@[old(self).entity_instances@.len() as int] == e);
            },
        }
        assert forall|i: int| 0 <= i < self.entity_instances@.len() implies (#[trigger] self.entity_instances@[i]).wf() by {
            if i < old(self).entity_instances@.len() && self.entity_instances@[i] != e {
                assert(self.entity_instances@[i] == old(self).entity_instances@[i]);
            }
        }
    }

    /// The position of the relation with the address `key`, if there is one.
    fn find_relation(&self, key: &EdgeKey) -> (r: Option<usize>)
        ensures
            r is None <==> !self.relation_keys().contains((key.outbound_id, key.t@, key.inbound_id)),
            r is Some ==> r->Some_0 < self.relation_instances@.len() && self.relation_keys()[r->Some_0 as int]
                == (key.outbound_id, key.t@, key.inbound_id),
    {
        let ghost k = (key.outbound_id, key.t@, key.inbound_id);
        let mut i: usize = 0;
        while i < self.relation_instances.len()
            invariant
                0 <= i <= self.relation_instances@.len(),
                k == (key.outbound_id, key.t@, key.inbound_id),
                forall|j: int| 0 <= j < i ==> self.relation_keys()[j] != k,
            decreases self.relation_instances@.len() - i,
        {
            let other = self.relation_instances[i].get_key();
            if other.outbound_id == key.outbound_id && other.inbound_id == key.inbound_id && other.t
                == key.t {
                assert(self.relation_keys()[i as int] == k);
                return Some(i);
            }
            assert(self.relation_keys()[i as int] != k);
            i = i + 1;
        }
        None
    }

    /// Adds the relation; one with the same address is replaced in its place.
    pub fn add_relation(&mut self, relation: Arc<ReactiveRelationInstance<O>>)
        requires
            old(self).wf(),
            relation.wf(),
        ensures
            final(self).wf(),
            final(self).id == old(self).id,
            final(self).entity_instances == old(self).entity_instances,
            old(self).relation_keys().contains(relation_key(*relation)) ==> exists|i: int|
                0 <= i < old(self).relation_instances@.len() && old(self).relation_keys()[i]
                    == relation_key(*relation) && final(self).relation_instances@ == old(
                    self,
                ).relation_instances@.update(i, relation),
            !old(self).relation_keys().contains(relation_key(*relation))
                ==> final(self).relation_instances@ == old(self).relation_instances@.push(
                relation,
            ),
    {
        let ghost rel = relation;
        let key = relation.get_key();
        match self.find_relation(&key) {
            Some(i) => {
                self.relation_instances.set(i, relation);
                assert(self.relation_keys() =~= old(self).relation_keys());
            },
            None => {
                self.relation_instances.push(relation);
                assert(self.relation_keys() =~= old(self).relation_keys().push(relation_key(*rel)));
            },
        }
        assert forall|i: int| 0 <= i < self.relation_instances@.len() implies (#[trigger] self.relation_instances@[i]).wf() by {
            if i < old(self).relation_instances@.len() && self.relation_instances@[i] != rel {
                assert(self.relation_instances@[i] == old(self).relation_instances@[i]);
            }
        }
    }

    /// The plain flow: the wrapper's snapshot first, its description on the flow, then a
    /// snapshot of every other entity and of every relation, in order. Fails if no entity
    /// has the flow's id.
    pub fn to_flow_instance(&self) -> (r: Result<FlowInstance, FlowInstanceCreationError>)
        requires
            self.wf(),
        ensures
            r is Err <==> !self.entity_ids().contains(self.id),
            r is Ok ==> self.is_flow_snapshot(r->Ok_0),
            r is Ok ==> r->Ok_0.has_wrapper(),
    {
        let wrapper = match self.get_entity(self.id) {
            Some(w) => w,
            None => {
                return Err(FlowInstanceCreationError);
            },
        };
        proof {
            let k = choose|k: int| 0 <= k < self.entity_instances@.len() && self.entity_instances@[k] == *wrapper;
            assert(self.entity_instances@[k].wf());
            let c = self.wrapper_index();
            assert(self.entity_ids()[k] == self.id);
            assert(self.entity_ids()[c] == self.id);
            assert(c == k);
        }
        let mut flow_instance = FlowInstance::from_entity_instance(wrapper.to_instance());
        flow_instance.description = wrapper.description.clone();
        let ghost es = self.entity_instances@;
        let ghost w = *wrapper;
        let mut i: usize = 0;
        while i < self.entity_instances.len()
            invariant
                0 <= i <= es.len(),
                es == self.entity_instances@,
                self.wf(),
                w.id == self.id,
                flow_instance.id == self.id,
                flow_instance.ty_name@ == w.ty_name@,
                flow_instance.name@.len() == 0,
                flow_instance.description@ == w.description@,
                flow_instance.relation_instances@.len() == 0,
                flow_instance.entity_instances@.len() == 1 + other_entities(es.take(i as int), self.id).len(),
                entity_snapshot(flow_instance.entity_instances@[0], *w),
                forall|k: int|
                    0 <= k < other_entities(es.take(i as int), self.id).len() ==> entity_snapshot(
                        #[trigger] flow_instance.entity_instances@[k + 1],
                        *other_entities(es.take(i as int), self.id)[k],
                    ),
            decreases es.len() - i,
        {
            assert(es.take(i + 1).drop_last() =~= es.take(i as int));
            assert(es.take(i + 1).last() == es[i as int]);
            let entity = &self.entity_instances[i];
            if entity.id != self.id {
                assert(es[i as int].wf());
                flow_instance.entity_instances.push(entity.to_instance());
            }
            i = i + 1;
        }
        assert(es.take(i as int) =~= es);
        let ghost rs = self.relation_instances@;
        let mut j: usize = 0;
        while j < self.relation_instances.len()
            invariant
                0 <= j <= rs.len(),
                rs == self.relation_instances@,
                self.wf(),
                w.id == self.id,
                flow_instance.id == self.id,
                flow_instance.ty_name@ == w.ty_name@,
                flow_instance.name@.len() == 0,
                flow_instance.description@ == w.description@,
                flow_instance.entity_instances@.len() == 1 + other_entities(es, self.id).len(),
                entity_snapshot(flow_instance.entity_instances@[0], *w),
                forall|k: int|
                    0 <= k < other_entities(es, self.id).len() ==> entity_snapshot(
                        #[trigger] flow_instance.entity_instances@[k + 1],
                        *other_entities(es, self.id)[k],
                    ),
                flow_instance.relation_instances@.len() == j,
                forall|k: int|
                    0 <= k < j ==> relation_snapshot(
                        #[trigger] flow_instance.relation_instances@[k],
                        *rs[k],
                    ),
            decreases rs.len() - j,
        {
            assert(rs[j as int].wf());
            flow_instance.relation_instances.push(self.relation_instances[j].to_instance());
            j = j + 1;
        }
        proof {
            lemma_other_entities_ids(es, self.id);
            assert forall|k: int|
                0 <= k < flow_instance.entity_instances@.len() && k != 0 implies (
                #[trigger] flow_instance.entity_instances@[k]).id != flow_instance.id by {
                assert(entity_snapshot(flow_instance.entity_instances@[(k - 1) + 1], *other_entities(es, self.id)[k - 1]));
            }
            assert(flow_instance.entity_instances@[0].id == flow_instance.id);
        }
        Ok(flow_instance)
    }

    /// The position of the entity whose id is the flow's id.
    pub open spec fn wrapper_index(&self) -> int {
        choose|w: int| 0 <= w < self.entity_instances@.len() && self.entity_instances@[w].id == self.id
    }

    /// `f` is the plain form of this flow: the wrapper's snapshot first and no other entity
    /// with the flow's id, then the other entities' snapshots in order, and a snapshot of
    /// each relation, in order.
    pub open spec fn is_flow_snapshot(&self, f: FlowInstance) -> bool {
        let others = other_entities(self.entity_instances@, self.id);
        &&& f.id == self.id
        &&& f.name@.len() == 0
        &&& f.entity_instances@.len() == 1 + others.len()
        &&& entity_snapshot(f.entity_instances@[0], *self.entity_instances@[self.wrapper_index()])
        &&& f.entity_instances@[0].id == self.id
        &&& f.ty_name@ == f.entity_instances@[0].ty_name@
        &&& f.description@ == f.entity_instances@[0].description@
        &&& forall|k: int|
            0 < k < f.entity_instances@.len() ==> (#[trigger] f.entity_instances@[k]).id != self.id
        &&& forall|k: int|
            0 <= k < others.len() ==> entity_snapshot(#[trigger] f.entity_instances@[k + 1], *others[k])
        &&& f.relation_instances@.len() == self.relation_instances@.len()
        &&& forall|k: int|
            0 <= k < f.relation_instances@.len() ==> relation_snapshot(
                #[trigger] f.relation_instances@[k],
                *self.relation_instances@[k],
            )
    }
}

impl FlowInstance {
    /// The plain form of a live flow; fails if no entity of the flow has the flow's id.
    pub fn try_from<O: PropertyObserver>(reactive_flow: ReactiveFlowInstance<O>) -> (r: Result<
        FlowInstance,
        FlowInstanceCreationError,
    >)
        requires
            reactive_flow.wf(),
        ensures
            r is Err <==> !reactive_flow.entity_ids().contains(reactive_flow.id),
            r is Ok ==> reactive_flow.is_flow_snapshot(r->Ok_0),
            r is Ok ==> r->Ok_0.has_wrapper(),
    {
        reactive_flow.to_flow_instance()
    }

    /// The plain form of a shared live flow; fails if no entity of the flow has the flow's id.
    pub fn try_from_shared<O: PropertyObserver>(reactive_flow: Arc<ReactiveFlowInstance<O>>) -> (r:
        Result<FlowInstance, FlowInstanceCreationError>)
        requires
            reactive_flow.wf(),
        ensures
            r is Err <==> !reactive_flow.entity_ids().contains(reactive_flow.id),
            r is Ok ==> reactive_flow.is_flow_snapshot(r->Ok_0),
            r is Ok ==> r->Ok_0.has_wrapper(),
    {
        reactive_flow.to_flow_instance()
    }
}

} // verus!
