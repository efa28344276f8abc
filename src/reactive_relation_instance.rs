//! Reactive instance of a relation: a directed, typed edge between two reactive entity
//! instances, itself carrying reactive properties.
use crate::instances::pairs_to_map;
use crate::instances::RelationInstance;
use crate::json::json_array;
use crate::json::json_bool;
use crate::json::json_i64;
use crate::json::json_object;
use crate::json::json_str;
use crate::json::json_u64;
use crate::namespaced_type::join;
use crate::property_container::attach_component;
use crate::property_container::with_defaults;
use crate::property_container::with_property;
use crate::property_container::NameSet;
use crate::property_container::ReactiveProperties;
use crate::property_instance::PropertyObserver;
use crate::property_type::default_value_of;
use crate::property_type::Component;
use crate::property_type::PropertyType;
use crate::reactive_entity_instance::ReactiveEntityInstance;
use serde_json::Map as JsonMap;
use serde_json::Value;
use std::sync::Arc;
use vstd::prelude::*;
use vstd::string::StrSliceExecFns;

verus! {

/// The tag of a relation type in the backing store: `<namespace>.<type name>`.
pub open spec fn type_tag(namespace: Seq<char>, ty_name: Seq<char>) -> Seq<char> {
    namespace + seq!['.'] + ty_name
}

/// Whether `k` is the position of the first `.` in `t`.
pub open spec fn is_first_dot(t: Seq<char>, k: int) -> bool {
    &&& 0 <= k < t.len()
    &&& t[k] == '.'
    &&& forall|j: int| 0 <= j < k ==> t[j] != '.'
}

/// The namespace and type name that a type tag holds: the parts before and after its first
/// `.`; a tag without one is a type name in the empty namespace.
pub open spec fn split_type_tag(t: Seq<char>) -> (Seq<char>, Seq<char>) {
    if exists|k: int| is_first_dot(t, k) {
        let k = choose|k: int| is_first_dot(t, k);
        (t.take(k), t.skip(k + 1))
    } else {
        (Seq::empty(), t)
    }
}

/// The first `.` of a tag is at one position only.
pub proof fn lemma_first_dot_unique(t: Seq<char>, a: int, b: int)
    requires
        is_first_dot(t, a),
        is_first_dot(t, b),
    ensures
        a == b,
{
    if a < b {
        assert(t[a] != '.');
    } else if b < a {
        assert(t[b] != '.');
    }
}

/// The type tag of a relation splits back into its namespace and type name, where the
/// namespace holds no `.`.
pub proof fn lemma_type_tag_round_trip(namespace: Seq<char>, ty_name: Seq<char>)
    requires
        forall|j: int| 0 <= j < namespace.len() ==> namespace[j] != '.',
    ensures
        split_type_tag(type_tag(namespace, ty_name)) == (namespace, ty_name),
{
    let t = type_tag(namespace, ty_name);
    let n = namespace.len() as int;
    assert(t[n] == '.');
    assert forall|j: int| 0 <= j < n implies t[j] != '.' by {
        assert(t[j] == namespace[j]);
    }
    assert(is_first_dot(t, n));
    let k = choose|k: int| is_first_dot(t, k);
    lemma_first_dot_unique(t, n, k);
    assert(t.take(n) =~= namespace);
    assert(t.skip(n + 1) =~= ty_name);
}

/// Splits a type tag into namespace and type name.
pub fn get_namespace_and_ty_name(t: &str) -> (r: (String, String))
    ensures
        (r.0@, r.1@) == split_type_tag(t@),
{
    let n = t.unicode_len();
    let mut i: usize = 0;
    while i < n
        invariant
            0 <= i <= n,
            n == t@.len(),
            forall|j: int| 0 <= j < i ==> t@[j] != '.',
        decreases n - i,
    {
        if t.get_char(i) == '.' {
            proof {
                assert(is_first_dot(t@, i as int));
                let k = choose|k: int| is_first_dot(t@, k);
                lemma_first_dot_unique(t@, i as int, k);
            }
            let namespace = t.substring_char(0, i).to_owned();
            let ty_name = t.substring_char(i + 1, n).to_owned();
            assert(namespace@ =~= t@.take(i as int));
            assert(ty_name@ =~= t@.skip(i + 1));
            return (namespace, ty_name);
        }
        i = i + 1;
    }
    (String::new(), t.to_owned())
}

/// The address of an edge in the backing store: outbound id, type tag, inbound id.
#[derive(Clone, Debug, PartialEq, Eq, Hash)]
pub struct EdgeKey {
    pub outbound_id: u128,
    pub t: String,
    pub inbound_id: u128,
}

/// A named property value of an edge record.
#[derive(Clone, Debug)]
pub struct NamedProperty {
    pub name: String,
    pub value: Value,
}

/// An edge record of the backing store with its properties.
#[derive(Clone, Debug)]
pub struct EdgeProperties {
    pub edge: EdgeKey,
    pub props: Vec<NamedProperty>,
}

/// The property map that the properties of an edge record describe; where a name occurs
/// twice, the later value wins.
pub open spec fn named_to_map(props: Seq<NamedProperty>) -> Map<Seq<char>, Value>
    decreases props.len(),
{
    if props.len() == 0 {
        Map::empty()
    } else {
        named_to_map(props.drop_last()).insert(props.last().name@, props.last().value)
    }
}

/// Reactive instance of a relation in the directed property graph. The endpoints are
/// shared: an entity may be the endpoint of many relations.
pub struct ReactiveRelationInstance<O> {
    /// The namespace the relation instance belongs to.
    pub namespace: String,
    /// The outbound entity instance.
    pub outbound: Arc<ReactiveEntityInstance<O>>,
    /// The name of the relation type.
    pub ty_name: String,
    /// The inbound entity instance.
    pub inbound: Arc<ReactiveEntityInstance<O>>,
    /// An optional description of the relation instance.
    pub description: String,
    /// The reactive properties.
    pub properties: ReactiveProperties<O>,
    /// The names of the components applied on this relation instance.
    pub components: NameSet,
    /// The names of the behaviours applied on this relation instance.
    pub behaviours: NameSet,
}

impl<O: PropertyObserver> ReactiveRelationInstance<O> {
    pub open spec fn wf(&self) -> bool {
        &&& self.properties.wf()
        &&& self.components.wf()
        &&& self.behaviours.wf()
    }

    /// Namespace, endpoints, type and description are those of `other`.
    pub open spec fn same_identity(&self, other: &Self) -> bool {
        &&& self.namespace == other.namespace
        &&& self.outbound == other.outbound
        &&& self.ty_name == other.ty_name
        &&& self.inbound == other.inbound
        &&& self.description == other.description
    }

    /// The relation of an edge record: namespace and type from the record's type tag, a
    /// fresh stream for each of its properties; no description, components or behaviours.
    pub fn from(
        outbound: Arc<ReactiveEntityInstance<O>>,
        inbound: Arc<ReactiveEntityInstance<O>>,
        properties: EdgeProperties,
    ) -> (r: Self)
        ensures
            r.wf(),
            (r.namespace@, r.ty_name@) == split_type_tag(properties.edge.t@),
            r.outbound == outbound,
            r.inbound == inbound,
            r.description@.len() == 0,
            r.properties@ == named_to_map(properties.props@),
            r.components@ == Set::<Seq<char>>::empty(),
            r.behaviours@ == Set::<Seq<char>>::empty(),
            r.properties.no_observers(),
    {
        let (namespace, ty_name) = get_namespace_and_ty_name(properties.edge.t.as_str());
        let mut props = ReactiveProperties::new();
        let mut i: usize = 0;
        while i < properties.props.len()
            invariant
                0 <= i <= properties.props@.len(),
                props.wf(),
                props@ == named_to_map(properties.props@.take(i as int)),
                props.no_observers(),
            decreases properties.props@.len() - i,
        {
            assert(properties.props@.take(i + 1).drop_last() =~= properties.props@.take(i as int));
            let p = &properties.props[i];
            let ghost before = props;
            props.insert_property(p.name.as_str(), p.value.clone());
            assert forall|j: int| 0 <= j < props.items@.len() implies (#[trigger] props.items@[j]).observers@.len() == 0 by {
                if j < before.items@.len() && !(before@.contains_key(p.name@) && j == before.index_of(p.name@)) {
                    assert(props.items@[j] == before.items@[j]);
                }
            }
            i = i + 1;
        }
        assert(properties.props@.take(i as int) =~= properties.props@);
        ReactiveRelationInstance {
            namespace,
            outbound,
            ty_name,
            inbound,
            description: String::new(),
            properties: props,
            components: NameSet::new(),
            behaviours: NameSet::new(),
        }
    }

    /// The live counterpart of a snapshot between the given endpoints: a fresh stream for
    /// each property; no components or behaviours.
    pub fn from_instance(
        outbound: Arc<ReactiveEntityInstance<O>>,
        inbound: Arc<ReactiveEntityInstance<O>>,
        instance: RelationInstance,
    ) -> (r: Self)
        ensures
            r.wf(),
            r.namespace@ == instance.namespace@,
            r.outbound == outbound,
            r.ty_name@ == instance.ty_name@,
            r.inbound == inbound,
            r.description@ == instance.description@,
            r.properties@ == pairs_to_map(instance.properties@),
            r.components@ == Set::<Seq<char>>::empty(),
            r.behaviours@ == Set::<Seq<char>>::empty(),
            r.properties.no_observers(),
    {
        let properties = ReactiveProperties::from_pairs(&instance.properties);
        ReactiveRelationInstance {
            namespace: instance.namespace,
            outbound,
            ty_name: instance.ty_name,
            inbound,
            description: instance.description,
            properties,
            components: NameSet::new(),
            behaviours: NameSet::new(),
        }
    }

    /// A relation with the given properties, each in a fresh stream; no description,
    /// components or behaviours.
    pub fn create_with_properties(
        namespace: &str,
        outbound: Arc<ReactiveEntityInstance<O>>,
        ty_name: &str,
        inbound: Arc<ReactiveEntityInstance<O>>,
        properties: Vec<(String, Value)>,
    ) -> (r: Self)
        ensures
            r.wf(),
            r.namespace@ == namespace@,
            r.outbound == outbound,
            r.ty_name@ == ty_name@,
            r.inbound == inbound,
            r.description@.len() == 0,
            r.properties@ == pairs_to_map(properties@),
            r.components@ == Set::<Seq<char>>::empty(),
            r.behaviours@ == Set::<Seq<char>>::empty(),
            r.properties.no_observers(),
    {
        ReactiveRelationInstance {
            namespace: namespace.to_owned(),
            outbound,
            ty_name: ty_name.to_owned(),
            inbound,
            description: String::new(),
            properties: ReactiveProperties::from_pairs(&properties),
            components: NameSet::new(),
            behaviours: NameSet::new(),
        }
    }

    /// The address of the edge in the backing store:
    /// `(outbound id, "<namespace>.<type name>", inbound id)`.
    pub fn get_key(&self) -> (r: EdgeKey)
        ensures
            r.outbound_id == self.outbound.id,
            r.t@ == type_tag(self.namespace@, self.ty_name@),
            r.inbound_id == self.inbound.id,
    {
        proof {
            reveal_strlit(".");
        }
        let t = join(self.namespace.as_str(), ".", self.ty_name.as_str());
        assert(t@ =~= type_tag(self.namespace@, self.ty_name@));
        EdgeKey { outbound_id: self.outbound.id, t, inbound_id: self.inbound.id }
    }

    /// The snapshot: namespace, endpoint ids, type and description, and the current value
    /// of each property, in order. Components and behaviours are not carried over.
    pub fn to_instance(&self) -> (r: RelationInstance)
        requires
            self.wf(),
        ensures
            r.wf(),
            r.namespace@ == self.namespace@,
            r.outbound_id == self.outbound.id,
            r.ty_name@ == self.ty_name@,
            r.inbound_id == self.inbound.id,
            r.description@ == self.description@,
            r.properties@.len() == self.properties.items@.len(),
            forall|i: int|
                0 <= i < r.properties@.len() ==> (#[trigger] r.properties@[i]).0@
                    == self.properties.names()[i] && r.properties@[i].1
                    == self.properties.items@[i].value,
    {
        let r = RelationInstance {
            namespace: self.namespace.clone(),
            outbound_id: self.outbound.id,
            ty_name: self.ty_name.clone(),
            inbound_id: self.inbound.id,
            description: self.description.clone(),
            properties: self.properties.values(),
        };
        assert(crate::instances::pair_names(r.properties@) =~= self.properties.names());
        r
    }

    /// Ticks every property: each stream sends its current value to its observers.
    pub fn tick(&mut self)
        requires
            old(self).wf(),
        ensures
            final(self).wf(),
            final(self).same_identity(old(self)),
            final(self).properties@ == old(self).properties@,
            old(self).properties.after_tick(&final(self).properties),
            final(self).components == old(self).components,
            final(self).behaviours == old(self).behaviours,
    {
        self.properties.tick();
    }

    /// Whether a property named `name` exists.
    pub fn has_property(&self, name: &str) -> (r: bool)
        requires
            self.wf(),
        ensures
            r == self.properties@.contains_key(name@),
    {
        self.properties.has_property(name)
    }

    /// Adds a property with an initial value, unless one of that name exists already.
    pub fn add_property(&mut self, name: &str, value: Value)
        requires
            old(self).wf(),
        ensures
            final(self).wf(),
            final(self).same_identity(old(self)),
            final(self).properties@ == with_property(old(self).properties@, name@, value),
            old(self).properties.after_add(&final(self).properties, name@, value),
            final(self).components == old(self).components,
            final(self).behaviours == old(self).behaviours,
    {
        self.properties.add_property(name, value);
    }

    /// Creates the property, in a fresh stream, with the default value of its data type,
    /// replacing any property of that name.
    pub fn add_property_by_type(&mut self, property: &PropertyType)
        requires
            old(self).wf(),
        ensures
            final(self).wf(),
            final(self).same_identity(old(self)),
            final(self).properties@ == old(self).properties@.insert(
                property.name@,
                default_value_of(property.data_type),
            ),
            old(self).properties.after_put(
                &final(self).properties,
                property.name@,
                default_value_of(property.data_type),
            ),
            final(self).components == old(self).components,
            final(self).behaviours == old(self).behaviours,
    {
        self.properties.add_property_by_type(property);
    }

    /// Removes the property named `name`, if there is one.
    pub fn remove_property(&mut self, name: &str)
        requires
            old(self).wf(),
        ensures
            final(self).wf(),
            final(self).same_identity(old(self)),
            final(self).properties@ == old(self).properties@.remove(name@),
            final(self).components == old(self).components,
            final(self).behaviours == old(self).behaviours,
    {
        self.properties.remove_property(name);
    }

    /// Registers `subscriber` under `handle_id` with the property named `name`; nothing
    /// happens if there is no such property.
    pub fn observe_with_handle(&mut self, name: &str, subscriber: O, handle_id: u128)
        requires
            old(self).wf(),
        ensures
            final(self).wf(),
            final(self).same_identity(old(self)),
            final(self).properties@ == old(self).properties@,
            old(self).properties.after_observe(&final(self).properties, name@, subscriber, handle_id),
            final(self).components == old(self).components,
            final(self).behaviours == old(self).behaviours,
    {
        self.properties.observe_with_handle(name, subscriber, handle_id);
    }

    /// Unregisters the observer under `handle_id` from the property named `name`; nothing
    /// happens if there is no such property or observer.
    pub fn remove_observer(&mut self, name: &str, handle_id: u128)
        requires
            old(self).wf(),
        ensures
            final(self).wf(),
            final(self).same_identity(old(self)),
            final(self).properties@ == old(self).properties@,
            old(self).properties.after_remove_observer(&final(self).properties, name@, handle_id),
            old(self).properties@.contains_key(name@) ==> !final(self).properties.items@[old(
                self,
            ).properties.index_of(name@)].handles().contains(handle_id),
            final(self).components == old(self).components,
            final(self).behaviours == old(self).behaviours,
    {
        self.properties.remove_observer(name, handle_id);
    }

    /// The names of the attached components, in the order they were added.
    pub fn get_components(&self) -> (r: Vec<String>)
        requires
            self.wf(),
        ensures
            r@.map_values(|s: String| s@) == self.components.names(),
    {
        self.components.to_vec()
    }

    /// Attaches the component name.
    pub fn add_component(&mut self, component: &str)
        requires
            old(self).wf(),
        ensures
            final(self).wf(),
            final(self).same_identity(old(self)),
            final(self).components@ == old(self).components@.insert(component@),
            final(self).properties == old(self).properties,
            final(self).behaviours == old(self).behaviours,
    {
        self.components.insert(component);
    }

    /// Attaches the component and gives each property it declares its default value, in a fresh
    /// stream, where no property of that name exists yet; existing streams are kept.
    pub fn add_component_with_properties(&mut self, component: &Component)
        requires
            old(self).wf(),
        ensures
            final(self).wf(),
            final(self).same_identity(old(self)),
            final(self).components@ == old(self).components@.insert(component.name@),
            final(self).properties@ == with_defaults(old(self).properties@, component.properties@),
            old(self).properties.extended_by(&final(self).properties),
            forall|j: int|
                old(self).properties.items@.len() <= j < final(self).properties.items@.len() ==> (
                #[trigger] final(self).properties.items@[j]).observers@.len() == 0,
            final(self).behaviours == old(self).behaviours,
    {
        attach_component(&mut self.properties, &mut self.components, component);
    }

    /// Detaches the component name.
    pub fn remove_component(&mut self, component: &str)
        requires
            old(self).wf(),
        ensures
            final(self).wf(),
            final(self).same_identity(old(self)),
            final(self).components@ == old(self).components@.remove(component@),
            final(self).properties == old(self).properties,
            final(self).behaviours == old(self).behaviours,
    {
        self.components.remove(component);
    }

    /// Whether the component is attached.
    pub fn is_a(&self, component: &str) -> (r: bool)
        requires
            self.wf(),
        ensures
            r == self.components@.contains(component@),
    {
        self.components.contains(component)
    }

    /// Attaches the behaviour name.
    pub fn add_behaviour(&mut self, behaviour: &str)
        requires
            old(self).wf(),
        ensures
            final(self).wf(),
            final(self).same_identity(old(self)),
            final(self).behaviours@ == old(self).behaviours@.insert(behaviour@),
            final(self).properties == old(self).properties,
            final(self).components == old(self).components,
    {
        self.behaviours.insert(behaviour);
    }

    /// Detaches the behaviour name.
    pub fn remove_behaviour(&mut self, behaviour: &str)
        requires
            old(self).wf(),
        ensures
            final(self).wf(),
            final(self).same_identity(old(self)),
            final(self).behaviours@ == old(self).behaviours@.remove(behaviour@),
            final(self).properties == old(self).properties,
            final(self).components == old(self).components,
    {
        self.behaviours.remove(behaviour);
    }

    /// Whether the behaviour is attached.
    pub fn behaves_as(&self, behaviour: &str) -> (r: bool)
        requires
            self.wf(),
        ensures
            r == self.behaviours@.contains(behaviour@),
    {
        self.behaviours.contains(behaviour)
    }

    /// The current value of the property named `name`.
    pub fn get(&self, name: &str) -> (r: Option<Value>)
        requires
            self.wf(),
        ensures
            r == self.properties.value_of(name@),
    {
        self.properties.get(name)
    }

    /// The value of the property named `name` read by `Value::as_bool`; none where there is no such
    /// property.
    pub fn as_bool(&self, name: &str) -> (r: Option<bool>)
        requires
            self.wf(),
        ensures
            r == (match self.properties.value_of(name@) {
                Some(v) => json_bool(v),
                None => None,
            }),
    {
        self.properties.as_bool(name)
    }

    /// The value of the property named `name` read by `Value::as_u64`; none where there is no such
    /// property.
    pub fn as_u64(&self, name: &str) -> (r: Option<u64>)
        requires
            self.wf(),
        ensures
            r == (match self.properties.value_of(name@) {
                Some(v) => json_u64(v),
                None => None,
            }),
    {
        self.properties.as_u64(name)
    }

    /// The value of the property named `name` read by `Value::as_i64`; none where there is no such
    /// property.
    pub fn as_i64(&self, name: &str) -> (r: Option<i64>)
        requires
            self.wf(),
        ensures
            r == (match self.properties.value_of(name@) {
                Some(v) => json_i64(v),
                None => None,
            }),
    {
        self.properties.as_i64(name)
    }

    /// The value of the property named `name` read by `Value::as_object`; none where there is no such
    /// property.
    pub fn as_object(&self, name: &str) -> (r: Option<JsonMap<String, Value>>)
        requires
            self.wf(),
        ensures
            r == (match self.properties.value_of(name@) {
                Some(v) => json_object(v),
                None => None,
            }),
    {
        self.properties.as_object(name)
    }

    /// The text held by the property named `name`, if any.
    pub fn as_string(&self, name: &str) -> (r: Option<String>)
        requires
            self.wf(),
        ensures
            (r is Some) == (self.properties.value_of(name@) is Some && json_str(
                self.properties.value_of(name@)->Some_0,
            ) is Some),
            r is Some ==> r->Some_0@ == json_str(self.properties.value_of(name@)->Some_0)->Some_0,
    {
        self.properties.as_string(name)
    }

    /// The elements of the array held by the property named `name`, if any.
    pub fn as_array(&self, name: &str) -> (r: Option<Vec<Value>>)
        requires
            self.wf(),
        ensures
            (r is Some) == (self.properties.value_of(name@) is Some && json_array(
                self.properties.value_of(name@)->Some_0,
            ) is Some),
            r is Some ==> r->Some_0@ == json_array(self.properties.value_of(name@)->Some_0)->Some_0,
    {
        self.properties.as_array(name)
    }

    /// Writes `value` to the property named `name` and notifies each of its observers once; nothing happens if there
    /// is no such property.
    pub fn set(&mut self, name: &str, value: Value)
        requires
            old(self).wf(),
        ensures
            final(self).wf(),
            final(self).same_identity(old(self)),
            old(self).properties@.contains_key(name@) ==> final(self).properties@ == old(self).properties@.insert(
                name@,
                value,
            ),
            !old(self).properties@.contains_key(name@) ==> final(self).properties@ == old(self).properties@,
            old(self).properties.after_set(&final(self).properties, name@, value),
            final(self).components == old(self).components,
            final(self).behaviours == old(self).behaviours,
    {
        self.properties.set(name, value);
    }

    /// Writes `value` to the property named `name` without notifying any observer; nothing happens if there
    /// is no such property.
    pub fn set_no_propagate(&mut self, name: &str, value: Value)
        requires
            old(self).wf(),
        ensures
            final(self).wf(),
            final(self).same_identity(old(self)),
            old(self).properties@.contains_key(name@) ==> final(self).properties@ == old(self).properties@.insert(
                name@,
                value,
            ),
            !old(self).properties@.contains_key(name@) ==> final(self).properties@ == old(self).properties@,
            old(self).properties.after_set_no_propagate(&final(self).properties, name@, value),
            final(self).components == old(self).components,
            final(self).behaviours == old(self).behaviours,
    {
        self.properties.set_no_propagate(name, value);
    }

}

} // verus!
