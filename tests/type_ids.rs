use reactive_graph_model::BehaviourTypeId;
use reactive_graph_model::ComponentTypeId;
use reactive_graph_model::EntityComponentTypeId;
use reactive_graph_model::EntityTypeId;
use reactive_graph_model::NamespacedType;
use reactive_graph_model::RelationBehaviourTypeId;
use reactive_graph_model::RelationTypeId;

#[test]
fn namespaced_type_renders_namespace_and_name() {
    let t = NamespacedType::new("logical", "and");
    assert_eq!(t.namespace, "logical");
    assert_eq!(t.ty_name, "and");
    assert_eq!(t.to_string(), "logical__and");
}

#[test]
fn entity_component_type_id_holds_both_types() {
    let e = EntityTypeId::new("base", "light");
    let c = ComponentTypeId::new("base", "switch");
    let id = EntityComponentTypeId::new(e.clone(), c.clone());
    assert_eq!(id.entity_ty, e);
    assert_eq!(id.component_ty, c);
    assert_eq!(id.to_string(), "base__light__base__switch");
}

#[test]
fn relation_behaviour_type_id_new() {
    let r = RelationTypeId::new("flow", "connector");
    let b = BehaviourTypeId::new("flow", "propagate");
    let id = RelationBehaviourTypeId::new(r.clone(), b.clone());
    assert_eq!(id.relation_ty, r);
    assert_eq!(id.behaviour_ty, b);
    assert_eq!(id.to_string(), "flow__connector__flow__propagate");
}

#[test]
fn relation_behaviour_type_id_from_one_type() {
    let id = RelationBehaviourTypeId::new_from_type("flow", "default_connector");
    assert_eq!(id.relation_ty, RelationTypeId::new("flow", "default_connector"));
    assert_eq!(id.behaviour_ty, BehaviourTypeId::new("flow", "default_connector"));
    let from_nt = RelationBehaviourTypeId::from_namespaced_type(NamespacedType::new("flow", "default_connector"));
    assert_eq!(from_nt, id);
    let from_b = RelationBehaviourTypeId::from_behaviour_type(&BehaviourTypeId::new("flow", "default_connector"));
    assert_eq!(from_b, id);
}

#[test]
fn distinct_type_id_kinds_keep_the_pair() {
    let e = EntityTypeId::new("ns", "x");
    let c = ComponentTypeId::new("ns", "x");
    assert_eq!(e.0, c.0);
    assert_eq!(e.to_string(), "ns__x");
    assert_ne!(EntityTypeId::new("ns", "x"), EntityTypeId::new("ns", "y"));
}
