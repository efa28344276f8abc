//! Static property schemas: data types, socket types, property types and components.
use crate::json::json_array_value;
use crate::json::json_from_array;
use crate::json::json_from_bool;
use crate::json::json_from_map;
use crate::json::json_from_string;
use crate::json::json_from_u64;
use crate::json::json_from_unit;
use crate::json::json_map_new;
use crate::json::new_json_map;
use serde_json::Value;
use vstd::prelude::*;

verus! {

/// The data type of a property value.
#[derive(Clone, Copy, Debug, PartialEq, Eq)]
pub enum DataType {
    Null,
    Bool,
    Number,
    String,
    Array,
    Object,
    Any,
}

/// The initial value of a property of the given data type.
pub open spec fn default_value_of(data_type: DataType) -> Value {
    match data_type {
        DataType::Null => json_from_unit(()),
        DataType::Bool => json_from_bool(false),
        DataType::Number => json_from_u64(0),
        DataType::String => json_from_string(Seq::empty()),
        DataType::Array => json_from_array(Seq::empty()),
        DataType::Object => json_from_map(json_map_new(())),
        DataType::Any => json_from_unit(()),
    }
}

impl DataType {
    /// The initial value of a property of this type: `null`, `false`, `0`, `""`, `[]` or `{}`.
    pub fn default_value(&self) -> (r: Value)
        ensures
            r == default_value_of(*self),
    {
        match self {
            DataType::Null => Value::from(()),
            DataType::Bool => Value::from(false),
            DataType::Number => Value::from(0u64),
            DataType::String => Value::from(String::new()),
            DataType::Array => json_array_value(Vec::new()),
            DataType::Object => Value::from(new_json_map(())),
            DataType::Any => Value::from(()),
        }
    }
}

/// Whether a property acts as an input socket, an output socket, or neither.
#[derive(Clone, Copy, Debug, PartialEq, Eq, Structural)]
pub enum SocketType {
    NoSocket,
    Input,
    Output,
}

impl SocketType {
    /// The socket type of a property that declares none.
    pub fn none() -> (r: SocketType)
        ensures
            r == SocketType::NoSocket,
    {
        SocketType::NoSocket
    }
}

/// Opaque metadata attached to a property type.
#[derive(Clone, Debug)]
pub struct Extension {
    pub name: String,
    pub extension: Value,
}

/// Definition of a property: its name, the data type of its value and its socket type.
#[derive(Clone, Debug)]
pub struct PropertyType {
    /// The name of the property.
    pub name: String,
    /// The data type of the property.
    pub data_type: DataType,
    /// Specifies which type of socket.
    pub socket_type: SocketType,
    /// Property specific extensions.
    pub extensions: Vec<Extension>,
}

impl PropertyType {
    pub fn new(name: &str, data_type: DataType) -> (r: PropertyType)
        ensures
            r.name@ == name@,
            r.data_type == data_type,
            r.socket_type == SocketType::NoSocket,
            r.extensions@.len() == 0,
    {
        PropertyType { name: name.to_owned(), data_type, socket_type: SocketType::NoSocket, extensions: Vec::new() }
    }

    pub fn new_with_socket(name: &str, data_type: DataType, socket_type: SocketType) -> (r: PropertyType)
        ensures
            r.name@ == name@,
            r.data_type == data_type,
            r.socket_type == socket_type,
            r.extensions@.len() == 0,
    {
        PropertyType { name: name.to_owned(), data_type, socket_type, extensions: Vec::new() }
    }

    pub fn input(name: &str, data_type: DataType) -> (r: PropertyType)
        ensures
            r.name@ == name@,
            r.data_type == data_type,
            r.socket_type == SocketType::Input,
            r.extensions@.len() == 0,
    {
        PropertyType { name: name.to_owned(), data_type, socket_type: SocketType::Input, extensions: Vec::new() }
    }

    pub fn output(name: &str, data_type: DataType) -> (r: PropertyType)
        ensures
            r.name@ == name@,
            r.data_type == data_type,
            r.socket_type == SocketType::Output,
            r.extensions@.len() == 0,
    {
        PropertyType { name: name.to_owned(), data_type, socket_type: SocketType::Output, extensions: Vec::new() }
    }
}

/// A named, reusable bundle of property declarations.
#[derive(Clone, Debug)]
pub struct Component {
    pub name: String,
    pub properties: Vec<PropertyType>,
}

} // verus!
