use vstd::prelude::*;

verus! {

/// Why an operation on a class or an object was refused. A refused
/// operation changes nothing.
#[derive(Clone, Copy, Debug, PartialEq, Eq, Structural)]
pub enum Error {
    /// A class of that name is already registered.
    DuplicateClass,
    /// The class already declares a property of that name.
    DuplicateProperty,
    /// The handle names no class of the registry.
    UnknownClass,
    /// The key is not declared, and no index-miss handler stands in for it.
    UnknownProperty,
    /// The property has no setter.
    ReadOnlyProperty,
    /// The property has no getter.
    WriteOnlyProperty,
    /// The setter does not take a value of that shape, and no default
    /// setter made up for it.
    TypeMismatch,
    /// A value could not be carried across the boundary to the caller.
    Marshal,
}

/// The sentence that tells a caller of `error`.
pub open spec fn description(error: Error) -> Seq<char> {
    match error {
        Error::DuplicateClass => "a class of this name is already registered"@,
        Error::DuplicateProperty => "the class already declares a property of this name"@,
        Error::UnknownClass => "no such class in the registry"@,
        Error::UnknownProperty => "no such property, and no index-miss handler"@,
        Error::ReadOnlyProperty => "the property is read-only"@,
        Error::WriteOnlyProperty => "the property is write-only"@,
        Error::TypeMismatch => "the property does not take a value of this type"@,
        Error::Marshal => "the value cannot cross to the caller"@,
    }
}

impl Error {
    /// The error in words, for the caller to show.
    pub fn describe(&self) -> (text: String)
        ensures
            text@ == description(*self),
    {
        match self {
            Error::DuplicateClass => "a class of this name is already registered".to_owned(),
            Error::DuplicateProperty => {
                "the class already declares a property of this name".to_owned()
            },
            Error::UnknownClass => "no such class in the registry".to_owned(),
            Error::UnknownProperty => "no such property, and no index-miss handler".to_owned(),
            Error::ReadOnlyProperty => "the property is read-only".to_owned(),
            Error::WriteOnlyProperty => "the property is write-only".to_owned(),
            Error::TypeMismatch => "the property does not take a value of this type".to_owned(),
            Error::Marshal => "the value cannot cross to the caller".to_owned(),
        }
    }
}

} // verus!
