use reactive_graph_model::Component;
use reactive_graph_model::DataType;
use reactive_graph_model::PropertyType;
use reactive_graph_model::ReactiveEntityInstance;
use reactive_graph_model::ReactivePropertyInstance;
use reactive_graph_model::SocketType;
use reactive_graph_model::property_instance::ValueRecorder;
use serde_json::Value;

fn marked(mark: &str) -> ValueRecorder {
    ValueRecorder { values: vec![Value::from(mark)] }
}

/// What the observer under `handle` on the property `name` has received.
fn received(e: &ReactiveEntityInstance<ValueRecorder>, name: &str, handle: u128) -> Option<Vec<Value>> {
    let p = e.properties.items.iter().find(|p| p.name == name)?;
    p.observers.iter().find(|o| o.0 == handle).map(|o| o.1.values.clone())
}

fn entity() -> ReactiveEntityInstance<ValueRecorder> {
    ReactiveEntityInstance::new("base", 1, "thing", "")
}

#[test]
fn add_property_then_get() {
    let mut e = entity();
    e.add_property("x", Value::from(5u64));
    assert!(e.has_property("x"));
    assert_eq!(e.get("x"), Some(Value::from(5u64)));
}

#[test]
fn add_property_does_not_overwrite() {
    let mut e = entity();
    e.add_property("x", Value::from(1u64));
    e.add_property("x", Value::from(2u64));
    assert_eq!(e.get("x"), Some(Value::from(1u64)));
}

#[test]
fn add_property_by_type_overwrites() {
    let mut e = entity();
    e.add_property("x", Value::from(true));
    e.add_property_by_type(&PropertyType::new("x", DataType::Number));
    assert_eq!(e.get("x"), Some(Value::from(0u64)));
}

#[test]
fn default_values_of_data_types() {
    assert_eq!(DataType::Null.default_value(), Value::Null);
    assert_eq!(DataType::Bool.default_value(), Value::Bool(false));
    assert_eq!(DataType::Number.default_value(), Value::from(0u64));
    assert_eq!(DataType::String.default_value(), Value::String(String::new()));
    assert_eq!(DataType::Array.default_value(), Value::Array(Vec::new()));
    assert_eq!(DataType::Object.default_value(), Value::Object(serde_json::Map::new()));
    assert_eq!(DataType::Any.default_value(), Value::Null);
}

#[test]
fn property_type_constructors_set_socket() {
    assert_eq!(PropertyType::new("a", DataType::Bool).socket_type, SocketType::NoSocket);
    assert_eq!(PropertyType::input("a", DataType::Bool).socket_type, SocketType::Input);
    assert_eq!(PropertyType::output("a", DataType::Bool).socket_type, SocketType::Output);
    let p = PropertyType::new_with_socket("b", DataType::String, SocketType::Output);
    assert_eq!(p.name, "b");
    assert_eq!(p.data_type, DataType::String);
    assert!(p.extensions.is_empty());
}

#[test]
fn set_and_missing_property_set_is_noop() {
    let mut e = entity();
    e.set("missing", Value::from(1u64));
    assert!(!e.has_property("missing"));
    e.add_property("x", Value::from(1u64));
    e.set("x", Value::from(9u64));
    assert_eq!(e.get("x"), Some(Value::from(9u64)));
}

#[test]
fn remove_property_removes_only_that_one() {
    let mut e = entity();
    e.add_property("a", Value::from(1u64));
    e.add_property("b", Value::from(2u64));
    e.remove_property("a");
    e.remove_property("zzz");
    assert!(!e.has_property("a"));
    assert_eq!(e.get("b"), Some(Value::from(2u64)));
}

#[test]
fn set_no_propagate_notifies_nobody() {
    let mut e = entity();
    e.add_property("x", Value::from(1u64));
    e.add_property("y", Value::from(1u64));
    e.observe_with_handle("x", marked("x"), 7);
    e.observe_with_handle("y", marked("y"), 8);
    e.set_no_propagate("x", Value::from(2u64));
    assert_eq!(received(&e, "x", 7), Some(vec![Value::from("x")]));
    assert_eq!(received(&e, "y", 8), Some(vec![Value::from("y")]));
    assert_eq!(e.get("x"), Some(Value::from(2u64)));
}

#[test]
fn set_notifies_each_observer_once_in_order() {
    let mut p: ReactivePropertyInstance<ValueRecorder> = ReactivePropertyInstance::new(1, "x", Value::from(0u64));
    p.observe_with_handle(marked("a"), 3);
    p.observe_with_handle(marked("b"), 1);
    p.observe_with_handle(marked("c"), 2);
    p.set(Value::from(4u64));
    let seen: Vec<(u128, Vec<Value>)> = p.observers.iter().map(|o| (o.0, o.1.values.clone())).collect();
    assert_eq!(
        seen,
        vec![
            (3, vec![Value::from("a"), Value::from(4u64)]),
            (1, vec![Value::from("b"), Value::from(4u64)]),
            (2, vec![Value::from("c"), Value::from(4u64)]),
        ]
    );
    assert_eq!(p.get(), Value::from(4u64));
}

#[test]
fn same_handle_replaces_observer() {
    let mut p: ReactivePropertyInstance<ValueRecorder> = ReactivePropertyInstance::new(1, "x", Value::from(0u64));
    p.observe_with_handle(marked("first"), 5);
    p.observe_with_handle(marked("second"), 5);
    p.set(Value::from(1u64));
    assert_eq!(p.observers.len(), 1);
    assert_eq!(p.observers[0].1.values, vec![Value::from("second"), Value::from(1u64)]);
}

#[test]
fn removed_observer_is_not_notified() {
    let mut e = entity();
    e.add_property("x", Value::from(0u64));
    e.observe_with_handle("x", marked("one"), 1);
    e.observe_with_handle("x", marked("two"), 2);
    e.remove_observer("x", 1);
    e.remove_observer("x", 99);
    e.remove_observer("nothing", 2);
    e.set("x", Value::from(3u64));
    assert_eq!(received(&e, "x", 1), None);
    assert_eq!(received(&e, "x", 2), Some(vec![Value::from("two"), Value::from(3u64)]));
}

#[test]
fn tick_republishes_current_values() {
    let mut e = entity();
    e.add_property("a", Value::from(1u64));
    e.add_property("b", Value::from(true));
    e.observe_with_handle("a", ValueRecorder::new(), 1);
    e.observe_with_handle("b", ValueRecorder::new(), 2);
    e.tick();
    assert_eq!(received(&e, "a", 1), Some(vec![Value::from(1u64)]));
    assert_eq!(received(&e, "b", 2), Some(vec![Value::from(true)]));
    assert_eq!(e.get("a"), Some(Value::from(1u64)));
}

#[test]
fn typed_accessors_narrow_or_return_none() {
    let mut e = entity();
    e.add_property("b", Value::from(true));
    e.add_property("n", Value::from(42u64));
    e.add_property("neg", Value::from(-3i64));
    e.add_property("s", Value::from("hi"));
    e.add_property("a", Value::Array(vec![Value::from(1u64)]));
    let mut m = serde_json::Map::new();
    m.insert("k".to_string(), Value::from(1u64));
    e.add_property("o", Value::Object(m.clone()));
    assert_eq!(e.as_bool("b"), Some(true));
    assert_eq!(e.as_bool("n"), None);
    assert_eq!(e.as_bool("nothing"), None);
    assert_eq!(e.as_u64("n"), Some(42));
    assert_eq!(e.as_u64("neg"), None);
    assert_eq!(e.as_i64("neg"), Some(-3));
    assert_eq!(e.as_string("s"), Some("hi".to_string()));
    assert_eq!(e.as_string("b"), None);
    assert_eq!(e.as_array("a"), Some(vec![Value::from(1u64)]));
    assert_eq!(e.as_array("s"), None);
    assert_eq!(e.as_object("o"), Some(m));
    assert_eq!(e.as_object("a"), None);
}

#[test]
fn components_and_behaviours_are_tag_sets() {
    let mut e = entity();
    e.add_component("switch");
    e.add_component("switch");
    e.add_component("dimmer");
    assert!(e.is_a("switch"));
    assert_eq!(e.get_components(), vec!["switch".to_string(), "dimmer".to_string()]);
    e.remove_component("switch");
    assert!(!e.is_a("switch"));
    e.add_behaviour("blink");
    assert!(e.behaves_as("blink"));
    e.remove_behaviour("blink");
    assert!(!e.behaves_as("blink"));
}

#[test]
fn component_with_properties_keeps_existing_values() {
    let mut e = entity();
    e.add_property("on", Value::from(true));
    let c = Component {
        name: "switch".to_string(),
        properties: vec![PropertyType::new("on", DataType::Bool), PropertyType::new("level", DataType::Number)],
    };
    e.add_component_with_properties(&c);
    assert!(e.is_a("switch"));
    assert_eq!(e.get("on"), Some(Value::from(true)));
    assert_eq!(e.get("level"), Some(Value::from(0u64)));
}

#[test]
fn value_recorder_receives_each_published_value() {
    let mut p: ReactivePropertyInstance<ValueRecorder> = ReactivePropertyInstance::new(1, "x", Value::from(0u64));
    p.observe_with_handle(ValueRecorder::new(), 1);
    p.set(Value::from(1u64));
    p.set_no_propagate(Value::from(2u64));
    p.tick();
    assert_eq!(p.observers[0].1.values, vec![Value::from(1u64), Value::from(2u64)]);
}

#[test]
fn add_property_by_type_drops_old_observers() {
    let mut e = entity();
    e.add_property("x", Value::from(1u64));
    e.observe_with_handle("x", ValueRecorder::new(), 1);
    e.add_property_by_type(&PropertyType::new("x", DataType::Bool));
    e.set("x", Value::from(true));
    assert_eq!(received(&e, "x", 1), None);
    assert_eq!(e.get("x"), Some(Value::from(true)));
}

#[test]
fn add_property_on_existing_name_keeps_observers() {
    let mut e = entity();
    e.add_property("x", Value::from(1u64));
    e.observe_with_handle("x", ValueRecorder::new(), 1);
    e.add_property("x", Value::from(2u64));
    e.set("x", Value::from(3u64));
    assert_eq!(received(&e, "x", 1), Some(vec![Value::from(3u64)]));
}
