//! Runtime model of a reactive, typed property graph: namespaced type identities,
//! observable property streams, reactive entity and relation instances, and flows.
pub mod json;
pub mod namespaced_type;
pub mod entity_component_type_id;
pub mod relation_behaviour_type_id;
pub mod property_type;
pub mod property_instance;
pub mod property_container;
pub mod instances;
pub mod reactive_entity_instance;
pub mod reactive_relation_instance;
pub mod flow_instance;

pub use entity_component_type_id::EntityComponentTypeId;
pub use flow_instance::FlowInstance;
pub use flow_instance::FlowInstanceCreationError;
pub use flow_instance::ReactiveFlowInstance;
pub use instances::EntityInstance;
pub use instances::RelationInstance;
pub use namespaced_type::BehaviourTypeId;
pub use namespaced_type::ComponentTypeId;
pub use namespaced_type::EntityTypeId;
pub use namespaced_type::NamespacedType;
pub use namespaced_type::RelationTypeId;
pub use property_instance::PropertyObserver;
pub use property_instance::ReactivePropertyInstance;
pub use property_type::Component;
pub use property_type::DataType;
pub use property_type::Extension;
pub use property_type::PropertyType;
pub use property_type::SocketType;
pub use reactive_entity_instance::ReactiveEntityInstance;
pub use reactive_relation_instance::EdgeKey;
pub use reactive_relation_instance::EdgeProperties;
pub use reactive_relation_instance::NamedProperty;
pub use reactive_relation_instance::ReactiveRelationInstance;
pub use relation_behaviour_type_id::RelationBehaviourTypeId;
