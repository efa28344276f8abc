use std::sync::Arc;

use reactive_graph_model::EdgeKey;
use reactive_graph_model::EdgeProperties;
use reactive_graph_model::EntityInstance;
use reactive_graph_model::FlowInstance;
use reactive_graph_model::FlowInstanceCreationError;
use reactive_graph_model::NamedProperty;
use reactive_graph_model::property_instance::ValueRecorder;
use reactive_graph_model::ReactiveEntityInstance;
use reactive_graph_model::ReactiveFlowInstance;
use reactive_graph_model::ReactiveRelationInstance;
use reactive_graph_model::RelationInstance;
use serde_json::Value;

type Entity = ReactiveEntityInstance<ValueRecorder>;

fn entity(id: u128, ty_name: &str) -> Arc<Entity> {
    let mut e = ReactiveEntityInstance::new("ns", id, ty_name, "desc");
    e.add_property("p", Value::from(id as u64));
    Arc::new(e)
}

#[test]
fn flow_from_wrapper_with_name() {
    let wrapper = EntityInstance::new("ns", 11, "Root");
    let flow = FlowInstance::from_instance_with_name(wrapper.clone(), "demo");
    assert_eq!(flow.id, 11);
    assert_eq!(flow.ty_name, "Root");
    assert_eq!(flow.name, "demo");
    assert_eq!(flow.description, "");
    assert_eq!(flow.entity_instances.len(), 1);
    assert_eq!(flow.entity_instances[0].id, wrapper.id);
    assert_eq!(flow.entity_instances[0].ty_name, wrapper.ty_name);
    assert!(flow.relation_instances.is_empty());
}

#[test]
fn flow_from_entity_instance_has_empty_name() {
    let flow = FlowInstance::from_entity_instance(EntityInstance::new("ns", 3, "Root"));
    assert_eq!(flow.id, 3);
    assert_eq!(flow.name, "");
    assert_eq!(flow.entity_instances.len(), 1);
}

#[test]
fn relation_key_uses_namespace_dot_type() {
    let a = entity(1, "A");
    let b = entity(2, "B");
    let r = ReactiveRelationInstance::create_with_properties("ns", a, "Connector", b, Vec::new());
    let key = r.get_key();
    assert_eq!(key, EdgeKey { outbound_id: 1, t: "ns.Connector".to_string(), inbound_id: 2 });
}

#[test]
fn relation_from_edge_record() {
    let a = entity(1, "A");
    let b = entity(2, "B");
    let record = EdgeProperties {
        edge: EdgeKey { outbound_id: 1, t: "logic.connector.default".to_string(), inbound_id: 2 },
        props: vec![
            NamedProperty { name: "x".to_string(), value: Value::from(1u64) },
            NamedProperty { name: "x".to_string(), value: Value::from(2u64) },
        ],
    };
    let r = ReactiveRelationInstance::from(a, b, record);
    assert_eq!(r.namespace, "logic");
    assert_eq!(r.ty_name, "connector.default");
    assert_eq!(r.get("x"), Some(Value::from(2u64)));
    assert_eq!(r.get_key().t, "logic.connector.default");
    assert!(r.get_components().is_empty());
}

#[test]
fn type_tag_without_dot_has_empty_namespace() {
    let (ns, name) = reactive_graph_model::reactive_relation_instance::get_namespace_and_ty_name("plain");
    assert_eq!(ns, "");
    assert_eq!(name, "plain");
}

#[test]
fn relation_snapshot_round_trip() {
    let a = entity(1, "A");
    let b = entity(2, "B");
    let mut snap = RelationInstance::new("ns", 1, "Connector", 2);
    snap.description = "d".to_string();
    snap.properties.push(("v".to_string(), Value::from(7u64)));
    let mut r = ReactiveRelationInstance::from_instance(a, b, snap);
    r.add_component("c");
    r.add_behaviour("beh");
    r.add_property("w", Value::from(false));
    let back = r.to_instance();
    assert_eq!(back.namespace, "ns");
    assert_eq!(back.outbound_id, 1);
    assert_eq!(back.inbound_id, 2);
    assert_eq!(back.ty_name, "Connector");
    assert_eq!(back.description, "d");
    assert_eq!(back.properties, vec![("v".to_string(), Value::from(7u64)), ("w".to_string(), Value::from(false))]);
}

#[test]
fn relation_add_property_then_get() {
    let mut r = ReactiveRelationInstance::create_with_properties("ns", entity(1, "A"), "C", entity(2, "B"), Vec::new());
    r.add_property("x", Value::from(1u64));
    r.add_property("x", Value::from(2u64));
    assert!(r.has_property("x"));
    assert_eq!(r.get("x"), Some(Value::from(1u64)));
}

fn live_flow(with_wrapper: bool) -> ReactiveFlowInstance<ValueRecorder> {
    let mut flow = ReactiveFlowInstance::new(100);
    let a = entity(1, "A");
    let b = entity(2, "B");
    flow.add_entity(a.clone());
    if with_wrapper {
        let mut w = ReactiveEntityInstance::new("ns", 100, "Root", "the wrapper");
        w.add_property("in", Value::from(true));
        flow.add_entity(Arc::new(w));
    }
    flow.add_entity(b.clone());
    let r = ReactiveRelationInstance::create_with_properties("ns", a, "Connector", b, Vec::new());
    flow.add_relation(Arc::new(r));
    flow
}

#[test]
fn live_flow_converts_with_wrapper_first() {
    let flow = FlowInstance::try_from(live_flow(true)).unwrap();
    assert_eq!(flow.id, 100);
    assert_eq!(flow.ty_name, "Root");
    assert_eq!(flow.description, "the wrapper");
    let ids: Vec<u128> = flow.entity_instances.iter().map(|e| e.id).collect();
    assert_eq!(ids, vec![100, 1, 2]);
    assert_eq!(flow.entity_instances[0].properties, vec![("in".to_string(), Value::from(true))]);
    assert_eq!(flow.relation_instances.len(), 1);
    assert_eq!(flow.relation_instances[0].outbound_id, 1);
}

#[test]
fn shared_live_flow_converts() {
    let flow = FlowInstance::try_from_shared(Arc::new(live_flow(true))).unwrap();
    assert_eq!(flow.entity_instances.iter().filter(|e| e.id == 100).count(), 1);
    assert_eq!(flow.relation_instances.len(), 1);
}

#[test]
fn live_flow_without_wrapper_fails() {
    assert_eq!(FlowInstance::try_from(live_flow(false)).unwrap_err(), FlowInstanceCreationError);
    assert_eq!(FlowInstance::try_from_shared(Arc::new(live_flow(false))).unwrap_err(), FlowInstanceCreationError);
}

#[test]
fn adding_entity_with_same_id_replaces_it() {
    let mut flow: ReactiveFlowInstance<ValueRecorder> = ReactiveFlowInstance::new(5);
    flow.add_entity(entity(5, "Old"));
    flow.add_entity(entity(5, "New"));
    assert_eq!(flow.entity_instances.len(), 1);
    assert_eq!(flow.get_entity(5).unwrap().ty_name, "New");
    assert!(flow.get_entity(6).is_none());
}

#[test]
fn entity_snapshot_round_trip() {
    let mut snap = EntityInstance::new("ns", 9, "T");
    snap.properties.push(("a".to_string(), Value::from(1u64)));
    snap.properties.push(("a".to_string(), Value::from(2u64)));
    let e: Entity = ReactiveEntityInstance::from_instance(snap);
    assert_eq!(e.get("a"), Some(Value::from(2u64)));
    let back = e.to_instance();
    assert_eq!(back.id, 9);
    assert_eq!(back.properties, vec![("a".to_string(), Value::from(2u64))]);
}
