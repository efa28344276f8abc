//! Reactive instance of an entity: a node of the property graph whose properties are streams.
use crate::instances::pairs_to_map;
use crate::instances::EntityInstance;
use crate::json::json_array;
use crate::json::json_bool;
use crate::json::json_i64;
use crate::json::json_object;
use crate::json::json_str;
use crate::json::json_u64;
use crate::property_container::attach_component;
use crate::property_container::with_defaults;
use crate::property_container::with_property;
use crate::property_container::NameSet;
use crate::property_container::ReactiveProperties;
use crate::property_instance::PropertyObserver;
use crate::property_type::default_value_of;
use crate::property_type::Component;
use crate::property_type::PropertyType;
use serde_json::Map as JsonMap;
use serde_json::Value;
use vstd::prelude::*;

verus! {

/// Reactive instance of an entity. Its `id` is its permanent identity; when the entity wraps
/// a flow it is the flow's identity too.
pub struct ReactiveEntityInstance<O> {
    /// The namespace the entity instance belongs to.
    pub namespace: String,
    /// The unique identifier of the entity instance.
    pub id: u128,
    /// The name of the entity type.
    pub ty_name: String,
    /// A textual description of the entity instance.
    pub description: String,
    /// The reactive properties.
    pub properties: ReactiveProperties<O>,
    /// The names of the components applied on this entity instance.
    pub components: NameSet,
    /// The names of the behaviours applied on this entity instance.
    pub behaviours: NameSet,
}

impl<O: PropertyObserver> ReactiveEntityInstance<O> {
    pub open spec fn wf(&self) -> bool {
        &&& self.properties.wf()
        &&& self.components.wf()
        &&& self.behaviours.wf()
    }

    /// Namespace, id, type and description are those of `other`.
    pub open spec fn same_identity(&self, other: &Self) -> bool {
        &&& self.namespace == other.namespace
        &&& self.id == other.id
        &&& self.ty_name == other.ty_name
        &&& self.description == other.description
    }

    /// An entity instance without properties, components or behaviours.
    pub fn new(namespace: &str, id: u128, ty_name: &str, description: &str) -> (r: Self)
        ensures
            r.wf(),
            r.namespace@ == namespace@,
            r.id == id,
            r.ty_name@ == ty_name@,
            r.description@ == description@,
            r.properties@ == Map::<Seq<char>, Value>::empty(),
            r.components@ == Set::<Seq<char>>::empty(),
            r.behaviours@ == Set::<Seq<char>>::empty(),
            r.properties.no_observers(),
    {
        ReactiveEntityInstance {
            namespace: namespace.to_owned(),
            id,
            ty_name: ty_name.to_owned(),
            description: description.to_owned(),
            properties: ReactiveProperties::new(),
            components: NameSet::new(),
            behaviours: NameSet::new(),
        }
    }

    /// The live counterpart of a snapshot: a fresh stream for each property, holding the
    /// snapshot's value; no components or behaviours.
    pub fn from_instance(instance: EntityInstance) -> (r: Self)
        ensures
            r.wf(),
            r.namespace@ == instance.namespace@,
            r.id == instance.id,
            r.ty_name@ == instance.ty_name@,
            r.description@ == instance.description@,
            r.properties@ == pairs_to_map(instance.properties@),
            r.components@ == Set::<Seq<char>>::empty(),
            r.behaviours@ == Set::<Seq<char>>::empty(),
            r.properties.no_observers(),
    {
        let properties = ReactiveProperties::from_pairs(&instance.properties);
        ReactiveEntityInstance {
            namespace: instance.namespace,
            id: instance.id,
            ty_name: instance.ty_name,
            description: instance.description,
            properties,
            components: NameSet::new(),
            behaviours: NameSet::new(),
        }
    }

    /// The snapshot: namespace, id, type and description, and the current value of each
    /// property, in order. Components and behaviours are not carried over.
    pub fn to_instance(&self) -> (r: EntityInstance)
        requires
            self.wf(),
        ensures
            r.wf(),
            r.namespace@ == self.namespace@,
            r.id == self.id,
            r.ty_name@ == self.ty_name@,
            r.description@ == self.description@,
            r.properties@.len() == self.properties.items@.len(),
            forall|i: int|
                0 <= i < r.properties@.len() ==> (#[trigger] r.properties@[i]).0@
                    == self.properties.names()[i] && r.properties@[i].1
                    == self.properties.items@[i].value,
    {
        let r = EntityInstance {
            namespace: self.namespace.clone(),
            id: self.id,
            ty_name: self.ty_name.clone(),
            description: self.description.clone(),
            properties: self.properties.values(),
        };
        assert(crate::instances::pair_names(r.properties@) =~= self.properties.names());
        r
    }

    /// Ticks every property: each stream sends its current value to its observers.
    pub fn tick(&mut self)
        requires
            old(self).wf(),
        ensures
            final(self).wf(),
            final(self).same_identity(old(self)),
            final(self).properties@ == old(self).properties@,
            old(self).properties.after_tick(&final(self).properties),
            final(self).components == old(self).components,
            final(self).behaviours == old(self).behaviours,
    {
        self.properties.tick();
    }

    /// Whether a property named `name` exists.
    pub fn has_property(&self, name: &str) -> (r: bool)
        requires
            self.wf(),
        ensures
            r == self.properties@.contains_key(name@),
    {
        self.properties.has_property(name)
    }

    /// Adds a property with an initial value, unless one of that name exists already.
    pub fn add_property(&mut self, name: &str, value: Value)
        requires
            old(self).wf(),
        ensures
            final(self).wf(),
            final(self).same_identity(old(self)),
            final(self).properties@ == with_property(old(self).properties@, name@, value),
            old(self).properties.after_add(&final(self).properties, name@, value),
            final(self).components == old(self).components,
            final(self).behaviours == old(self).behaviours,
    {
        self.properties.add_property(name, value);
    }

    /// Creates the property, in a fresh stream, with the default value of its data type,
    /// replacing any property of that name.
    pub fn add_property_by_type(&mut self, property: &PropertyType)
        requires
            old(self).wf(),
        ensures
            final(self).wf(),
            final(self).same_identity(old(self)),
            final(self).properties@ == old(self).properties@.insert(
                property.name@,
                default_value_of(property.data_type),
            ),
            old(self).properties.after_put(
                &final(self).properties,
                property.name@,
                default_value_of(property.data_type),
            ),
            final(self).components == old(self).components,
            final(self).behaviours == old(self).behaviours,
    {
        self.properties.add_property_by_type(property);
    }

    /// Removes the property named `name`, if there is one.
    pub fn remove_property(&mut self, name: &str)
        requires
            old(self).wf(),
        ensures
            final(self).wf(),
            final(self).same_identity(old(self)),
            final(self).properties@ == old(self).properties@.remove(name@),
            final(self).components == old(self).components,
            final(self).behaviours == old(self).behaviours,
    {
        self.properties.remove_property(name);
    }

    /// Registers `subscriber` under `handle_id` with the property named `name`; nothing
    /// happens if there is no such property.
    pub fn observe_with_handle(&mut self, name: &str, subscriber: O, handle_id: u128)
        requires
            old(self).wf(),
        ensures
            final(self).wf(),
            final(self).same_identity(old(self)),
            final(self).properties@ == old(self).properties@,
            old(self).properties.after_observe(&final(self).properties, name@, subscriber, handle_id),
            final(self).components == old(self).components,
            final(self).behaviours == old(self).behaviours,
    {
        self.properties.observe_with_handle(name, subscriber, handle_id);
    }

    /// Unregisters the observer under `handle_id` from the property named `name`; nothing
    /// happens if there is no such property or observer.
    pub fn remove_observer(&mut self, name: &str, handle_id: u128)
        requires
            old(self).wf(),
        ensures
            final(self).wf(),
            final(self).same_identity(old(self)),
            final(self).properties@ == old(self).properties@,
            old(self).properties.after_remove_observer(&final(self).properties, name@, handle_id),
            old(self).properties@.contains_key(name@) ==> !final(self).properties.items@[old(
                self,
            ).properties.index_of(name@)].handles().contains(handle_id),
            final(self).components == old(self).components,
            final(self).behaviours == old(self).behaviours,
    {
        self.properties.remove_observer(name, handle_id);
    }

    /// The names of the attached components, in the order they were added.
    pub fn get_components(&self) -> (r: Vec<String>)
        requires
            self.wf(),
        ensures
            r@.map_values(|s: String| s@) == self.components.names(),
    {
        self.components.to_vec()
    }

    /// Attaches the component name.
    pub fn add_component(&mut self, component: &str)
        requires
            old(self).wf(),
        ensures
            final(self).wf(),
            final(self).same_identity(old(self)),
            final(self).components@ == old(self).components@.insert(component@),
            final(self).properties == old(self).properties,
            final(self).behaviours == old(self).behaviours,
    {
        self.components.insert(component);
    }

    /// Attaches the component and gives each property it declares its default value, in a fresh
    /// stream, where no property of that name exists yet; existing streams are kept.
    pub fn add_component_with_properties(&mut self, component: &Component)
        requires
            old(self).wf(),
        ensures
            final(self).wf(),
            final(self).same_identity(old(self)),
            final(self).components@ == old(self).components@.insert(component.name@),
            final(self).properties@ == with_defaults(old(self).properties@, component.properties@),
            old(self).properties.extended_by(&final(self).properties),
            forall|j: int|
                old(self).properties.items@.len() <= j < final(self).properties.items@.len() ==> (
                #[trigger] final(self).properties.items@[j]).observers@.len() == 0,
            final(self).behaviours == old(self).behaviours,
    {
        attach_component(&mut self.properties, &mut self.components, component);
    }

    /// Detaches the component name.
    pub fn remove_component(&mut self, component: &str)
        requires
            old(self).wf(),
        ensures
            final(self).wf(),
            final(self).same_identity(old(self)),
            final(self).components@ == old(self).components@.remove(component@),
            final(self).properties == old(self).properties,
            final(self).behaviours == old(self).behaviours,
    {
        self.components.remove(component);
    }

    /// Whether the component is attached.
    pub fn is_a(&self, component: &str) -> (r: bool)
        requires
            self.wf(),
        ensures
            r == self.components@.contains(component@),
    {
        self.components.contains(component)
    }

    /// Attaches the behaviour name.
    pub fn add_behaviour(&mut self, behaviour: &str)
        requires
            old(self).wf(),
        ensures
            final(self).wf(),
            final(self).same_identity(old(self)),
            final(self).behaviours@ == old(self).behaviours@.insert(behaviour@),
            final(self).properties == old(self).properties,
            final(self).components == old(self).components,
    {
        self.behaviours.insert(behaviour);
    }

    /// Detaches the behaviour name.
    pub fn remove_behaviour(&mut self, behaviour: &str)
        requires
            old(self).wf(),
        ensures
            final(self).wf(),
            final(self).same_identity(old(self)),
            final(self).behaviours@ == old(self).behaviours@.remove(behaviour@),
            final(self).properties == old(self).properties,
            final(self).components == old(self).components,
    {
        self.behaviours.remove(behaviour);
    }

    /// Whether the behaviour is attached.
    pub fn behaves_as(&self, behaviour: &str) -> (r: bool)
        requires
            self.wf(),
        ensures
            r == self.behaviours@.contains(behaviour@),
    {
        self.behaviours.contains(behaviour)
    }

    /// The current value of the property named `name`.
    pub fn get(&self, name: &str) -> (r: Option<Value>)
        requires
            self.wf(),
        ensures
            r == self.properties.value_of(name@),
    {
        self.properties.get(name)
    }

    /// The value of the property named `name` read by `Value::as_bool`; none where there is no such
    /// property.
    pub fn as_bool(&self, name: &str) -> (r: Option<bool>)
        requires
            self.wf(),
        ensures
            r == (match self.properties.value_of(name@) {
                Some(v) => json_bool(v),
                None => None,
            }),
    {
        self.properties.as_bool(name)
    }

    /// The value of the property named `name` read by `Value::as_u64`; none where there is no such
    /// property.
    pub fn as_u64(&self, name: &str) -> (r: Option<u64>)
        requires
            self.wf(),
        ensures
            r == (match self.properties.value_of(name@) {
                Some(v) => json_u64(v),
                None => None,
            }),
    {
        self.properties.as_u64(name)
    }

    /// The value of the property named `name` read by `Value::as_i64`; none where there is no such
    /// property.
    pub fn as_i64(&self, name: &str) -> (r: Option<i64>)
        requires
            self.wf(),
        ensures
            r == (match self.properties.value_of(name@) {
                Some(v) => json_i64(v),
                None => None,
            }),
    {
        self.properties.as_i64(name)
    }

    /// The value of the property named `name` read by `Value::as_object`; none where there is no such
    /// property.
    pub fn as_object(&self, name: &str) -> (r: Option<JsonMap<String, Value>>)
        requires
            self.wf(),
        ensures
            r == (match self.properties.value_of(name@) {
                Some(v) => json_object(v),
                None => None,
            }),
    {
        self.properties.as_object(name)
    }

    /// The text held by the property named `name`, if any.
    pub fn as_string(&self, name: &str) -> (r: Option<String>)
        requires
            self.wf(),
        ensures
            (r is Some) == (self.properties.value_of(name@) is Some && json_str(
                self.properties.value_of(name@)->Some_0,
            ) is Some),
            r is Some ==> r->Some_0@ == json_str(self.properties.value_of(name@)->Some_0)->Some_0,
    {
        self.properties.as_string(name)
    }

    /// The elements of the array held by the property named `name`, if any.
    pub fn as_array(&self, name: &str) -> (r: Option<Vec<Value>>)
        requires
            self.wf(),
        ensures
            (r is Some) == (self.properties.value_of(name@) is Some && json_array(
                self.properties.value_of(name@)->Some_0,
            ) is Some),
            r is Some ==> r->Some_0@ == json_array(self.properties.value_of(name@)->Some_0)->Some_0,
    {
        self.properties.as_array(name)
    }

    /// Writes `value` to the property named `name` and notifies each of its observers once; nothing happens if there
    /// is no such property.
    pub fn set(&mut self, name: &str, value: Value)
        requires
            old(self).wf(),
        ensures
            final(self).wf(),
            final(self).same_identity(old(self)),
            old(self).properties@.contains_key(name@) ==> final(self).properties@ == old(self).properties@.insert(
                name@,
                value,
            ),
            !old(self).properties@.contains_key(name@) ==> final(self).properties@ == old(self).properties@,
            old(self).properties.after_set(&final(self).properties, name@, value),
            final(self).components == old(self).components,
            final(self).behaviours == old(self).behaviours,
    {
        self.properties.set(name, value);
    }

    /// Writes `value` to the property named `name` without notifying any observer; nothing happens if there
    /// is no such property.
    pub fn set_no_propagate(&mut self, name: &str, value: Value)
        requires
            old(self).wf(),
        ensures
            final(self).wf(),
            final(self).same_identity(old(self)),
            old(self).properties@.contains_key(name@) ==> final(self).properties@ == old(self).properties@.insert(
                name@,
                value,
            ),
            !old(self).properties@.contains_key(name@) ==> final(self).properties@ == old(self).properties@,
            old(self).properties.after_set_no_propagate(&final(self).properties, name@, value),
            final(self).components == old(self).components,
            final(self).behaviours == old(self).behaviours,
    {
        self.properties.set_no_propagate(name, value);
    }

}

} // verus!
