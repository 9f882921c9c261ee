use vstd::prelude::*;

verus! {

/// The access rules of one named attribute. `M` names the host functions.
pub struct Property<M> {
    pub name: String,
    /// Absent on a write-only property.
    pub getter: Option<M>,
    /// Absent on a read-only property.
    pub setter: Option<M>,
    /// Tried when the setter does not take the value.
    pub default_setter: Option<M>,
}

impl<M> Property<M> {
    /// The descriptor of the property `name`.
    pub fn new(
        name: String,
        getter: Option<M>,
        setter: Option<M>,
        default_setter: Option<M>,
    ) -> (property: Self)
        ensures
            property == (Property { name, getter, setter, default_setter }),
    {
        Property { name, getter, setter, default_setter }
    }
}

} // verus!
