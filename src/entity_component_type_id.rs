//! Addressing of "entity type X has component Y".
use crate::namespaced_type::ComponentTypeId;
use crate::namespaced_type::EntityTypeId;
use vstd::prelude::*;

verus! {

/// Addresses the component of an entity type.
#[derive(Clone, Debug, PartialEq, Eq, Hash)]
pub struct EntityComponentTypeId {
    /// The entity type.
    pub entity_ty: EntityTypeId,
    /// The component type.
    pub component_ty: ComponentTypeId,
}

impl EntityComponentTypeId {
    pub fn new(entity_ty: EntityTypeId, component_ty: ComponentTypeId) -> (r: Self)
        ensures
            r.entity_ty == entity_ty,
            r.component_ty == component_ty,
    {
        EntityComponentTypeId { entity_ty, component_ty }
    }

    /// Renders the address as `<entity type>__<component type>`.
    pub fn to_string(&self) -> (r: String)
        ensures
            r@ == self.entity_ty.0.namespace@ + seq!['_', '_'] + self.entity_ty.0.ty_name@
                + seq!['_', '_'] + self.component_ty.0.namespace@ + seq!['_', '_']
                + self.component_ty.0.ty_name@,
    {
        let owner = self.entity_ty.to_string();
        let attached = self.component_ty.to_string();
        proof {
            reveal_strlit("__");
        }
        let r = crate::namespaced_type::join(owner.as_str(), "__", attached.as_str());
        assert(r@ =~= self.entity_ty.0.namespace@ + seq!['_', '_'] + self.entity_ty.0.ty_name@
                + seq!['_', '_'] + self.component_ty.0.namespace@ + seq!['_', '_']
                + self.component_ty.0.ty_name@);
        r
    }
}

} // verus!
