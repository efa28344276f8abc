//! Addressing of "relation type X has behaviour Y".
use crate::namespaced_type::BehaviourTypeId;
use crate::namespaced_type::NamespacedType;
use crate::namespaced_type::RelationTypeId;
use vstd::prelude::*;

verus! {

/// The behaviour of a relation type.
#[derive(Clone, Debug, PartialEq, Eq, Hash)]
pub struct RelationBehaviourTypeId {
    /// The relation type.
    pub relation_ty: RelationTypeId,
    /// The behaviour type.
    pub behaviour_ty: BehaviourTypeId,
}

impl RelationBehaviourTypeId {
    pub fn new(relation_ty: RelationTypeId, behaviour_ty: BehaviourTypeId) -> (r: Self)
        ensures
            r.relation_ty == relation_ty,
            r.behaviour_ty == behaviour_ty,
    {
        RelationBehaviourTypeId { relation_ty, behaviour_ty }
    }

    /// The behaviour of the relation type of the same namespace and name as the behaviour.
    pub fn new_from_type(namespace: &str, ty_name: &str) -> (r: Self)
        ensures
            r.relation_ty@ == (namespace@, ty_name@),
            r.behaviour_ty@ == (namespace@, ty_name@),
    {
        let namespaced_type = NamespacedType::new(namespace, ty_name);
        RelationBehaviourTypeId::new(RelationTypeId(namespaced_type.duplicate()), BehaviourTypeId(namespaced_type))
    }

    /// Relation type and behaviour both named by the namespaced type.
    pub fn from_namespaced_type(namespaced_type: NamespacedType) -> (r: Self)
        ensures
            r.relation_ty@ == namespaced_type@,
            r.behaviour_ty@ == namespaced_type@,
    {
        RelationBehaviourTypeId::new(RelationTypeId(namespaced_type.duplicate()), BehaviourTypeId(namespaced_type))
    }

    /// The behaviour, applied to the relation type of the same namespace and name.
    pub fn from_behaviour_type(behaviour_ty: &BehaviourTypeId) -> (r: Self)
        ensures
            r.relation_ty@ == behaviour_ty@,
            r.behaviour_ty@ == behaviour_ty@,
    {
        RelationBehaviourTypeId::new(
            RelationTypeId(behaviour_ty.0.duplicate()),
            BehaviourTypeId(behaviour_ty.0.duplicate()),
        )
    }

    /// Renders the address as `<relation type>__<behaviour type>`.
    pub fn to_string(&self) -> (r: String)
        ensures
            r@ == self.relation_ty.0.namespace@ + seq!['_', '_'] + self.relation_ty.0.ty_name@
                + seq!['_', '_'] + self.behaviour_ty.0.namespace@ + seq!['_', '_']
                + self.behaviour_ty.0.ty_name@,
    {
        let owner = self.relation_ty.to_string();
        let attached = self.behaviour_ty.to_string();
        proof {
            reveal_strlit("__");
        }
        let r = crate::namespaced_type::join(owner.as_str(), "__", attached.as_str());
        assert(r@ =~= self.relation_ty.0.namespace@ + seq!['_', '_'] + self.relation_ty.0.ty_name@
                + seq!['_', '_'] + self.behaviour_ty.0.namespace@ + seq!['_', '_']
                + self.behaviour_ty.0.ty_name@);
        r
    }
}

} // verus!
