//! Plain, non-reactive snapshots of entity and relation instances.
use serde_json::Value;
use vstd::prelude::*;

verus! {

/// The property map that a list of (name, value) pairs describes; where a name occurs
/// twice, the later pair wins.
pub open spec fn pairs_to_map(pairs: Seq<(String, Value)>) -> Map<Seq<char>, Value>
    decreases pairs.len(),
{
    if pairs.len() == 0 {
        Map::empty()
    } else {
        pairs_to_map(pairs.drop_last()).insert(pairs.last().0@, pairs.last().1)
    }
}

/// The names of a list of (name, value) pairs, in order.
pub open spec fn pair_names(pairs: Seq<(String, Value)>) -> Seq<Seq<char>> {
    pairs.map_values(|p: (String, Value)| p.0@)
}

/// A snapshot of an entity instance: final property values instead of streams.
#[derive(Clone, Debug)]
pub struct EntityInstance {
    pub namespace: String,
    pub id: u128,
    pub ty_name: String,
    pub description: String,
    pub properties: Vec<(String, Value)>,
}

/// A snapshot of a relation instance, its endpoints given by their ids.
#[derive(Clone, Debug)]
pub struct RelationInstance {
    pub namespace: String,
    pub outbound_id: u128,
    pub ty_name: String,
    pub inbound_id: u128,
    pub description: String,
    pub properties: Vec<(String, Value)>,
}

impl EntityInstance {
    /// Each property name occurs once.
    pub open spec fn wf(&self) -> bool {
        pair_names(self.properties@).no_duplicates()
    }

    pub fn new(namespace: &str, id: u128, ty_name: &str) -> (r: EntityInstance)
        ensures
            r.namespace@ == namespace@,
            r.id == id,
            r.ty_name@ == ty_name@,
            r.description@.len() == 0,
            r.properties@.len() == 0,
            r.wf(),
    {
        EntityInstance {
            namespace: namespace.to_owned(),
            id,
            ty_name: ty_name.to_owned(),
            description: String::new(),
            properties: Vec::new(),
        }
    }
}

impl RelationInstance {
    /// Each property name occurs once.
    pub open spec fn wf(&self) -> bool {
        pair_names(self.properties@).no_duplicates()
    }

    pub fn new(namespace: &str, outbound_id: u128, ty_name: &str, inbound_id: u128) -> (r:
        RelationInstance)
        ensures
            r.namespace@ == namespace@,
            r.outbound_id == outbound_id,
            r.ty_name@ == ty_name@,
            r.inbound_id == inbound_id,
            r.description@.len() == 0,
            r.properties@.len() == 0,
            r.wf(),
    {
        RelationInstance {
            namespace: namespace.to_owned(),
            outbound_id,
            ty_name: ty_name.to_owned(),
            inbound_id,
            description: String::new(),
            properties: Vec::new(),
        }
    }
}

} // verus!
