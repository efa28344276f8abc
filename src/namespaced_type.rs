//! Namespaced type identities and the four kinds of type id built on them.
use vstd::prelude::*;

verus! {

/// Relies on `String::push_str`, which appends the text to the string.
pub assume_specification[ std::string::String::push_str ](s: &mut std::string::String, t: &str)
    ensures
        final(s)@ == old(s)@ + t@,
;

/// The text `a`, then `sep`, then `b`.
pub(crate) fn join(a: &str, sep: &str, b: &str) -> (r: String)
    ensures
        r@ == a@ + sep@ + b@,
{
    let mut r = a.to_owned();
    r.push_str(sep);
    r.push_str(b);
    r
}

/// The separator between the parts of a rendered type identity.
pub open spec fn type_separator() -> Seq<char> {
    seq!['_', '_']
}

/// A two-part identity: a namespace and a local type name.
#[derive(Clone, Debug, PartialEq, Eq, Hash)]
pub struct NamespacedType {
    pub namespace: String,
    pub ty_name: String,
}

impl View for NamespacedType {
    type V = (Seq<char>, Seq<char>);

    open spec fn view(&self) -> (Seq<char>, Seq<char>) {
        (self.namespace@, self.ty_name@)
    }
}

impl NamespacedType {
    pub fn new(namespace: &str, ty_name: &str) -> (r: NamespacedType)
        ensures
            r@ == (namespace@, ty_name@),
    {
        NamespacedType { namespace: namespace.to_owned(), ty_name: ty_name.to_owned() }
    }

    /// A copy with the same namespace and type name.
    pub fn duplicate(&self) -> (r: NamespacedType)
        ensures
            r@ == self@,
    {
        NamespacedType { namespace: self.namespace.clone(), ty_name: self.ty_name.clone() }
    }

    /// Renders the identity as `<namespace>__<ty_name>`.
    pub fn to_string(&self) -> (r: String)
        ensures
            r@ == self.namespace@ + type_separator() + self.ty_name@,
    {
        proof {
            reveal_strlit("__");
        }
        join(self.namespace.as_str(), "__", self.ty_name.as_str())
    }
}

/// The identity of an entity type.
#[derive(Clone, Debug, PartialEq, Eq, Hash)]
pub struct EntityTypeId(pub NamespacedType);

/// The identity of a relation type.
#[derive(Clone, Debug, PartialEq, Eq, Hash)]
pub struct RelationTypeId(pub NamespacedType);

/// The identity of a component.
#[derive(Clone, Debug, PartialEq, Eq, Hash)]
pub struct ComponentTypeId(pub NamespacedType);

/// The identity of a behaviour.
#[derive(Clone, Debug, PartialEq, Eq, Hash)]
pub struct BehaviourTypeId(pub NamespacedType);

impl View for EntityTypeId {
    type V = (Seq<char>, Seq<char>);

    open spec fn view(&self) -> (Seq<char>, Seq<char>) {
        self.0@
    }
}

impl View for RelationTypeId {
    type V = (Seq<char>, Seq<char>);

    open spec fn view(&self) -> (Seq<char>, Seq<char>) {
        self.0@
    }
}

impl View for ComponentTypeId {
    type V = (Seq<char>, Seq<char>);

    open spec fn view(&self) -> (Seq<char>, Seq<char>) {
        self.0@
    }
}

impl View for BehaviourTypeId {
    type V = (Seq<char>, Seq<char>);

    open spec fn view(&self) -> (Seq<char>, Seq<char>) {
        self.0@
    }
}

impl EntityTypeId {
    pub fn new(namespace: &str, ty_name: &str) -> (r: EntityTypeId)
        ensures
            r@ == (namespace@, ty_name@),
    {
        EntityTypeId(NamespacedType::new(namespace, ty_name))
    }

    pub fn to_string(&self) -> (r: String)
        ensures
            r@ == self.0.namespace@ + type_separator() + self.0.ty_name@,
    {
        self.0.to_string()
    }
}

impl RelationTypeId {
    pub fn new(namespace: &str, ty_name: &str) -> (r: RelationTypeId)
        ensures
            r@ == (namespace@, ty_name@),
    {
        RelationTypeId(NamespacedType::new(namespace, ty_name))
    }

    pub fn to_string(&self) -> (r: String)
        ensures
            r@ == self.0.namespace@ + type_separator() + self.0.ty_name@,
    {
        self.0.to_string()
    }
}

impl ComponentTypeId {
    pub fn new(namespace: &str, ty_name: &str) -> (r: ComponentTypeId)
        ensures
            r@ == (namespace@, ty_name@),
    {
        ComponentTypeId(NamespacedType::new(namespace, ty_name))
    }

    pub fn to_string(&self) -> (r: String)
        ensures
            r@ == self.0.namespace@ + type_separator() + self.0.ty_name@,
    {
        self.0.to_string()
    }
}

impl BehaviourTypeId {
    pub fn new(namespace: &str, ty_name: &str) -> (r: BehaviourTypeId)
        ensures
            r@ == (namespace@, ty_name@),
    {
        BehaviourTypeId(NamespacedType::new(namespace, ty_name))
    }

    pub fn to_string(&self) -> (r: String)
        ensures
            r@ == self.0.namespace@ + type_separator() + self.0.ty_name@,
    {
        self.0.to_string()
    }
}

} // verus!
