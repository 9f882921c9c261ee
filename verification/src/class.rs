use crate::error::Error;
use crate::payload::Payload;
use crate::property::Property;
use crate::signal::FunctionRef;
use vstd::prelude::*;

verus! {

/// Names a class of a [`Registry`]: its place in the order of registration.
#[derive(Clone, Copy, Debug, PartialEq, Eq, Structural)]
pub struct ClassHandle(pub usize);

/// Whether one of `properties` is called `name`.
pub open spec fn declared<M>(properties: Seq<Property<M>>, name: Seq<char>) -> bool {
    exists|i: int| 0 <= i < properties.len() && properties[i].name@ == name
}

/// The one of `properties` that is called `name`.
pub open spec fn descriptor<M>(properties: Seq<Property<M>>, name: Seq<char>) -> Property<M> {
    properties[choose|i: int| 0 <= i < properties.len() && properties[i].name@ == name]
}

/// No two of `properties` share a name.
pub open spec fn distinct_names<M>(properties: Seq<Property<M>>) -> bool {
    forall|i: int, j: int|
        0 <= i < j < properties.len() ==> properties[i].name@ != properties[j].name@
}

/// A name is declared once. After `first` has entered a table with
/// unique names, a descriptor `second` of the same name finds the name
/// taken, which is when [`Class::add_property`] refuses it, and the name
/// still leads to `first`.
pub proof fn lemma_duplicate_rejected<M>(
    properties: Seq<Property<M>>,
    first: Property<M>,
    second: Property<M>,
)
    requires
        distinct_names(properties),
        !declared(properties, first.name@),
        second.name@ == first.name@,
    ensures
        distinct_names(properties.push(first)),
        declared(properties.push(first), second.name@),
        descriptor(properties.push(first), second.name@) == first,
{
    let grown = properties.push(first);
    let last = properties.len() as int;
    assert(grown[last].name@ == second.name@);
    let found = choose|i: int| 0 <= i < grown.len() && grown[i].name@ == second.name@;
    assert(found == last);
}

/// The definition that the objects of one kind share.
pub struct Class<D: Payload> {
    name: String,
    parent: Option<ClassHandle>,
    allocator: D::Method,
    call_handler: Option<D::Method>,
    properties: Vec<Property<D::Method>>,
    index_miss_handler: Option<FunctionRef>,
}

impl<D: Payload> Class<D> {
    /// The name that the class is registered under.
    pub closed spec fn name(&self) -> Seq<char> {
        self.name@
    }

    /// The class that this one descends from.
    pub closed spec fn parent(&self) -> Option<ClassHandle> {
        self.parent
    }

    /// The host function that makes the data of a new object.
    pub closed spec fn allocator(&self) -> D::Method {
        self.allocator
    }

    /// The host function that sees the arguments a new object is made
    /// with.
    pub closed spec fn call_handler(&self) -> Option<D::Method> {
        self.call_handler
    }

    /// The declared properties, in the order of their declaration.
    pub closed spec fn properties(&self) -> Seq<Property<D::Method>> {
        self.properties@
    }

    /// The script function that stands in for undeclared keys.
    pub closed spec fn index_miss_handler(&self) -> Option<FunctionRef> {
        self.index_miss_handler
    }

    /// The property names of a class are unique.
    pub open spec fn wf(&self) -> bool {
        distinct_names(self.properties())
    }

    /// The descriptor that the class itself declares under `name`.
    pub open spec fn lookup(&self, name: Seq<char>) -> Option<Property<D::Method>> {
        if declared(self.properties(), name) {
            Some(descriptor(self.properties(), name))
        } else {
            None
        }
    }

    /// In a class with unique names, the property at `i` is the one found
    /// under its name.
    pub proof fn lemma_lookup_at(&self, i: int)
        requires
            self.wf(),
            0 <= i < self.properties().len(),
        ensures
            self.lookup(self.properties()[i].name@) == Some(self.properties()[i]),
    {
        let name = self.properties()[i].name@;
        let j = choose|j: int|
            0 <= j < self.properties().len() && self.properties()[j].name@ == name;
        assert(j == i);
    }

    /// A class without properties and without an index-miss handler.
    pub fn new(
        name: String,
        allocator: D::Method,
        parent: Option<ClassHandle>,
        call_handler: Option<D::Method>,
    ) -> (class: Self)
        ensures
            class.wf(),
            class.name() == name@,
            class.parent() == parent,
            class.allocator() == allocator,
            class.call_handler() == call_handler,
            class.properties() == Seq::<Property<D::Method>>::empty(),
            class.index_miss_handler() == None::<FunctionRef>,
    {
        Class {
            name,
            parent,
            allocator,
            call_handler,
            properties: Vec::new(),
            index_miss_handler: None,
        }
    }

    /// The host function that makes the data of a new object.
    pub fn allocator_ref(&self) -> (method: &D::Method)
        ensures
            *method == self.allocator(),
    {
        &self.allocator
    }

    /// The host function that sees the arguments a new object is made with.
    pub fn call_handler_ref(&self) -> (method: Option<&D::Method>)
        ensures
            match method {
                Some(handler) => self.call_handler() == Some(*handler),
                None => self.call_handler() is None,
            },
    {
        match &self.call_handler {
            Some(handler) => Some(handler),
            None => None,
        }
    }

    /// The script function that stands in for undeclared keys.
    pub fn index_miss(&self) -> (handler: Option<FunctionRef>)
        ensures
            handler == self.index_miss_handler(),
    {
        self.index_miss_handler
    }

    /// The class that this one descends from.
    pub fn parent_handle(&self) -> (parent: Option<ClassHandle>)
        ensures
            parent == self.parent(),
    {
        self.parent
    }

    /// How many properties the class itself declares.
    pub fn property_count(&self) -> (count: usize)
        ensures
            count == self.properties().len(),
    {
        self.properties.len()
    }

    /// Where the class declares `name`.
    fn position(&self, name: &String) -> (found: Option<usize>)
        ensures
            match found {
                Some(i) => i < self.properties().len() && self.properties()[i as int].name@
                    == name@,
                None => !declared(self.properties(), name@),
            },
    {
        let mut i: usize = 0;
        while i < self.properties.len()
            invariant
                i <= self.properties@.len(),
                forall|j: int| 0 <= j < i ==> self.properties@[j].name@ != name@,
            decreases self.properties@.len() - i,
        {
            if self.properties[i].name == *name {
                return Some(i);
            }
            i += 1;
        }
        None
    }

    /// Declares one more property. A name that the class already declares
    /// is refused, and the class stays as it was.
    pub fn add_property(&mut self, descriptor: Property<D::Method>) -> (outcome: Result<(), Error>)
        requires
            old(self).wf(),
        ensures
            final(self).wf(),
            final(self).name() == old(self).name(),
            final(self).parent() == old(self).parent(),
            final(self).allocator() == old(self).allocator(),
            final(self).call_handler() == old(self).call_handler(),
            final(self).index_miss_handler() == old(self).index_miss_handler(),
            outcome is Err <==> declared(old(self).properties(), descriptor.name@),
            outcome is Err ==> outcome == Err::<(), Error>(Error::DuplicateProperty)
                && final(self).properties() == old(self).properties(),
            outcome is Ok ==> final(self).properties() == old(self).properties().push(descriptor),
    {
        match self.position(&descriptor.name) {
            Some(_) => Err(Error::DuplicateProperty),
            None => {
                self.properties.push(descriptor);
                Ok(())
            },
        }
    }
}

/// The descriptor that governs `name` on the class at `at`: its own, or
/// else that of the nearest class up the parent chain that declares one.
pub open spec fn resolve_from<D: Payload>(classes: Seq<Class<D>>, at: int, name: Seq<char>) -> Option<
    Property<D::Method>,
>
    decreases at,
{
    if 0 <= at < classes.len() {
        match classes[at].lookup(name) {
            Some(found) => Some(found),
            None => match classes[at].parent() {
                Some(up) => if up.0 < at {
                    resolve_from(classes, up.0 as int, name)
                } else {
                    None
                },
                None => None,
            },
        }
    } else {
        None
    }
}

/// Whether the class at `at` is the class at `ancestor` or comes below it
/// in the parent chain.
pub open spec fn descends_from<D: Payload>(classes: Seq<Class<D>>, at: int, ancestor: int) -> bool
    decreases at,
{
    if 0 <= at < classes.len() {
        at == ancestor || match classes[at].parent() {
            Some(up) => up.0 < at && descends_from(classes, up.0 as int, ancestor),
            None => false,
        }
    } else {
        false
    }
}

/// Whether `after` is `before` with `handler` as the index-miss handler
/// of `class`, and nothing else changed.
pub open spec fn handler_replaced<D: Payload>(
    before: Registry<D>,
    after: Registry<D>,
    class: ClassHandle,
    handler: FunctionRef,
) -> bool {
    &&& after.classes().len() == before.classes().len()
    &&& forall|i: int|
        0 <= i < before.classes().len() && i != class.0 ==> after.classes()[i]
            == before.classes()[i]
    &&& after.class(class).index_miss_handler() == Some(handler)
    &&& after.class(class).name() == before.class(class).name()
    &&& after.class(class).parent() == before.class(class).parent()
    &&& after.class(class).allocator() == before.class(class).allocator()
    &&& after.class(class).call_handler() == before.class(class).call_handler()
    &&& after.class(class).properties() == before.class(class).properties()
}

/// Replacing an index-miss handler changes no property table and no
/// parent, so every key resolves as it did.
pub proof fn lemma_resolve_unchanged<D: Payload>(
    before: Registry<D>,
    after: Registry<D>,
    class: ClassHandle,
    handler: FunctionRef,
    at: int,
    name: Seq<char>,
)
    requires
        before.contains(class),
        handler_replaced(before, after, class, handler),
    ensures
        resolve_from(after.classes(), at, name) == resolve_from(before.classes(), at, name),
    decreases at,
{
    if 0 <= at < before.classes().len() {
        match before.classes()[at].parent() {
            Some(up) => {
                if up.0 < at {
                    lemma_resolve_unchanged(before, after, class, handler, up.0 as int, name);
                }
            },
            None => {},
        }
    }
}

/// The classes of a program, each under a name of its own. A class enters
/// when its definition is complete and stays for good; its parent is
/// always a class that entered before it, so no chain of parents can
/// come back to where it started.
pub struct Registry<D: Payload> {
    classes: Vec<Class<D>>,
}

impl<D: Payload> Registry<D> {
    /// The classes in the order in which they were registered.
    pub closed spec fn classes(&self) -> Seq<Class<D>> {
        self.classes@
    }

    /// Every class has unique property names, no two classes share a
    /// name, and a parent is registered before its children.
    pub open spec fn wf(&self) -> bool {
        &&& forall|i: int| 0 <= i < self.classes().len() ==> (#[trigger] self.classes()[i]).wf()
        &&& forall|i: int, j: int|
            0 <= i < j < self.classes().len() ==> self.classes()[i].name()
                != self.classes()[j].name()
        &&& forall|i: int|
            0 <= i < self.classes().len() ==> match (#[trigger] self.classes()[i]).parent() {
                Some(up) => up.0 < i,
                None => true,
            }
    }

    /// Whether `class` names a class of this registry.
    pub open spec fn contains(&self, class: ClassHandle) -> bool {
        class.0 < self.classes().len()
    }

    /// The class that `class` names.
    pub open spec fn class(&self, class: ClassHandle) -> Class<D> {
        self.classes()[class.0 as int]
    }

    /// Whether a class called `name` is registered.
    pub open spec fn registered(&self, name: Seq<char>) -> bool {
        exists|i: int| 0 <= i < self.classes().len() && self.classes()[i].name() == name
    }

    /// Whether `parent`, if there is one, is a class of this registry.
    pub open spec fn admits(&self, parent: Option<ClassHandle>) -> bool {
        match parent {
            Some(up) => self.contains(up),
            None => true,
        }
    }

    /// The descriptor that governs `name` on the objects of `class`.
    pub open spec fn resolve(&self, class: ClassHandle, name: Seq<char>) -> Option<
        Property<D::Method>,
    > {
        resolve_from(self.classes(), class.0 as int, name)
    }

    /// Whether an object of `class` can stand where one of `ancestor` is
    /// asked for.
    pub open spec fn descends(&self, class: ClassHandle, ancestor: ClassHandle) -> bool {
        descends_from(self.classes(), class.0 as int, ancestor.0 as int)
    }

    /// A registry without classes.
    pub fn new() -> (registry: Self)
        ensures
            registry.wf(),
            registry.classes() == Seq::<Class<D>>::empty(),
    {
        Registry { classes: Vec::new() }
    }

    /// The class registered under `name`.
    pub fn lookup(&self, name: &str) -> (found: Option<ClassHandle>)
        ensures
            match found {
                Some(class) => {
                    &&& self.contains(class)
                    &&& self.class(class).name() == name@
                    &&& forall|i: int| 0 <= i < class.0 ==> self.classes()[i].name() != name@
                },
                None => !self.registered(name@),
            },
    {
        let wanted = name.to_owned();
        let mut i: usize = 0;
        while i < self.classes.len()
            invariant
                i <= self.classes@.len(),
                wanted@ == name@,
                forall|j: int| 0 <= j < i ==> self.classes@[j].name() != name@,
            decreases self.classes@.len() - i,
        {
            if self.classes[i].name == wanted {
                return Some(ClassHandle(i));
            }
            i += 1;
        }
        None
    }

    /// Starts the definition of a class called `name`. The name must be
    /// new to the registry, and the parent, if any, one of its classes.
    pub fn define(
        &self,
        name: &str,
        allocator: D::Method,
        parent: Option<ClassHandle>,
        call_handler: Option<D::Method>,
    ) -> (outcome: Result<Class<D>, Error>)
        ensures
            self.registered(name@) ==> outcome is Err && outcome->Err_0 == Error::DuplicateClass,
            !self.registered(name@) && !self.admits(parent) ==> outcome is Err && outcome->Err_0
                == Error::UnknownClass,
            !self.registered(name@) && self.admits(parent) ==> outcome is Ok && ({
                let class = outcome->Ok_0;
                &&& class.wf()
                &&& class.name() == name@
                &&& class.parent() == parent
                &&& class.allocator() == allocator
                &&& class.call_handler() == call_handler
                &&& class.properties() == Seq::<Property<D::Method>>::empty()
                &&& class.index_miss_handler() == None::<FunctionRef>
            }),
    {
        if self.lookup(name).is_some() {
            return Err(Error::DuplicateClass);
        }
        if let Some(up) = parent {
            if up.0 >= self.classes.len() {
                return Err(Error::UnknownClass);
            }
        }
        Ok(Class::new(name.to_owned(), allocator, parent, call_handler))
    }

    /// Registers a class whose definition is complete. From here on its
    /// property table is fixed. A class whose name is taken, or whose
    /// parent is not of this registry, is refused and the registry stays
    /// as it was.
    pub fn save_class(&mut self, class: Class<D>) -> (outcome: Result<ClassHandle, Error>)
        requires
            old(self).wf(),
            class.wf(),
        ensures
            final(self).wf(),
            old(self).registered(class.name()) ==> outcome == Err::<ClassHandle, Error>(
                Error::DuplicateClass,
            ),
            !old(self).registered(class.name()) && !old(self).admits(class.parent()) ==> outcome
                == Err::<ClassHandle, Error>(Error::UnknownClass),
            !old(self).registered(class.name()) && old(self).admits(class.parent()) ==> outcome
                is Ok,
            outcome is Err ==> final(self).classes() == old(self).classes(),
            outcome is Ok ==> outcome->Ok_0.0 == old(self).classes().len()
                && final(self).classes() == old(self).classes().push(class),
    {
        if self.lookup(class.name.as_str()).is_some() {
            return Err(Error::DuplicateClass);
        }
        if let Some(up) = class.parent {
            if up.0 >= self.classes.len() {
                return Err(Error::UnknownClass);
            }
        }
        let handle = ClassHandle(self.classes.len());
        self.classes.push(class);
        Ok(handle)
    }

    /// The class that `class` names, if it is one of this registry.
    pub fn get(&self, class: ClassHandle) -> (found: Option<&Class<D>>)
        ensures
            match found {
                Some(definition) => self.contains(class) && *definition == self.class(class),
                None => !self.contains(class),
            },
    {
        if class.0 < self.classes.len() {
            Some(&self.classes[class.0])
        } else {
            None
        }
    }

    /// Replaces the index-miss handler of `class`. The handler belongs to
    /// the class, so every object of it, made before or after, falls back
    /// to the new one from now on.
    pub fn set_index_miss_handler(&mut self, class: ClassHandle, handler: FunctionRef) -> (outcome:
        Result<(), Error>)
        requires
            old(self).wf(),
        ensures
            final(self).wf(),
            outcome is Err <==> !old(self).contains(class),
            outcome is Err ==> outcome == Err::<(), Error>(Error::UnknownClass)
                && final(self).classes() == old(self).classes(),
            outcome is Ok ==> handler_replaced(*old(self), *final(self), class, handler),
    {
        if class.0 >= self.classes.len() {
            return Err(Error::UnknownClass);
        }
        self.classes[class.0].index_miss_handler = Some(handler);
        Ok(())
    }

    /// Whether `class` is `ancestor` or one of its descendants. `false`
    /// when `class` is not of this registry.
    pub fn is_a(&self, class: ClassHandle, ancestor: ClassHandle) -> (compatible: bool)
        requires
            self.wf(),
        ensures
            compatible == self.descends(class, ancestor),
    {
        if class.0 >= self.classes.len() {
            return false;
        }
        let mut at: usize = class.0;
        loop
            invariant
                self.wf(),
                at < self.classes@.len(),
                self.descends(class, ancestor) == descends_from(
                    self.classes(),
                    at as int,
                    ancestor.0 as int,
                ),
            decreases at,
        {
            if at == ancestor.0 {
                return true;
            }
            match self.classes[at].parent {
                Some(up) => {
                    at = up.0;
                },
                None => {
                    return false;
                },
            }
        }
    }

    /// The descriptor that governs `name` on the objects of `class`: the
    /// class's own, or else the nearest one up the parent chain.
    pub fn find_property(&self, class: ClassHandle, name: &str) -> (found: Option<
        &Property<D::Method>,
    >)
        requires
            self.wf(),
        ensures
            match found {
                Some(property) => self.resolve(class, name@) == Some(*property),
                None => self.resolve(class, name@) is None,
            },
    {
        if class.0 >= self.classes.len() {
            return None;
        }
        let wanted = name.to_owned();
        let mut at: usize = class.0;
        loop
            invariant
                self.wf(),
                wanted@ == name@,
                at < self.classes@.len(),
                self.resolve(class, name@) == resolve_from(self.classes(), at as int, name@),
            decreases at,
        {
            let definition = &self.classes[at];
            match definition.position(&wanted) {
                Some(i) => {
                    proof {
                        definition.lemma_lookup_at(i as int);
                    }
                    return Some(&definition.properties[i]);
                },
                None => {},
            }
            match definition.parent {
                Some(up) => {
                    at = up.0;
                },
                None => {
                    return None;
                },
            }
        }
    }
}

} // verus!
