use crate::class::{handler_replaced, lemma_resolve_unchanged, ClassHandle, Registry};
use crate::error::Error;
use crate::payload::{views, Payload};
use crate::signal::{callbacks_in, connect_in, disconnect_in, FunctionRef, SignalRegistry};
use crate::value::{Value, ValueView};
use vstd::prelude::*;

verus! {

/// One instance of a class: the data of its own, the signals of its own,
/// and the name of the class that it was made from.
pub struct Object<D: Payload> {
    class: ClassHandle,
    data: D,
    signals: SignalRegistry,
}

/// What an emission asks of the host: to invoke each of `callbacks`, first
/// to last, with the emitting object and then `args`.
#[derive(Clone, Debug, PartialEq, Eq)]
pub struct Emission {
    pub callbacks: Vec<FunctionRef>,
    pub args: Vec<Value>,
}

/// What a property read comes to.
#[derive(Clone, Debug, PartialEq, Eq)]
pub enum Fetched {
    /// The value that the property's getter read.
    Value(Value),
    /// The key is not declared: the value is whatever this handler, the
    /// index-miss handler of the class, returns for the object and the key.
    Deferred(FunctionRef),
}

/// What a [`Fetched`] holds.
pub enum FetchedView {
    Value(ValueView),
    Deferred(FunctionRef),
}

impl View for Fetched {
    type V = FetchedView;

    open spec fn view(&self) -> FetchedView {
        match self {
            Fetched::Value(value) => FetchedView::Value(value@),
            Fetched::Deferred(handler) => FetchedView::Deferred(*handler),
        }
    }
}

/// What reading `key` on an object of `class` with data `data` comes to.
pub open spec fn read_outcome<D: Payload>(
    registry: Registry<D>,
    class: ClassHandle,
    data: D,
    key: Seq<char>,
) -> Result<FetchedView, Error> {
    if !registry.contains(class) {
        Err(Error::UnknownClass)
    } else {
        match registry.resolve(class, key) {
            Some(property) => match property.getter {
                Some(getter) => Ok(FetchedView::Value(data.read(getter))),
                None => Err(Error::WriteOnlyProperty),
            },
            None => match registry.class(class).index_miss_handler() {
                Some(handler) => Ok(FetchedView::Deferred(handler)),
                None => Err(Error::UnknownProperty),
            },
        }
    }
}

/// The data that writing `value` to `key` leaves in an object of `class`
/// that held `data`, or why the write is refused.
pub open spec fn write_outcome<D: Payload>(
    registry: Registry<D>,
    class: ClassHandle,
    data: D,
    key: Seq<char>,
    value: ValueView,
) -> Result<D, Error> {
    if !registry.contains(class) {
        Err(Error::UnknownClass)
    } else {
        match registry.resolve(class, key) {
            Some(property) => match property.setter {
                Some(setter) => if D::accepts(setter, value) {
                    Ok(data.written(setter, value))
                } else {
                    match property.default_setter {
                        Some(fallback) => if D::recovers(fallback, value) {
                            Ok(data.recovered(fallback, value))
                        } else {
                            Err(Error::TypeMismatch)
                        },
                        None => Err(Error::TypeMismatch),
                    }
                },
                None => Err(Error::ReadOnlyProperty),
            },
            None => Err(Error::UnknownProperty),
        }
    }
}

/// The data that an object of `class` made with `args` starts with.
pub open spec fn initial_data<D: Payload>(
    registry: Registry<D>,
    class: ClassHandle,
    args: Seq<ValueView>,
) -> D {
    let definition = registry.class(class);
    let fresh = D::allocated(definition.allocator());
    match definition.call_handler() {
        Some(handler) => fresh.constructed(handler, args),
        None => fresh,
    }
}

/// What a write stores, a read gives back. Where `key` has a getter and a
/// setter and the write of `value` goes through, a read of `key` on the
/// data that the write left yields what the getter reads there: the
/// value as the setter, or the default setter in its place, stored it.
pub proof fn lemma_property_round_trip<D: Payload>(
    registry: Registry<D>,
    class: ClassHandle,
    data: D,
    key: Seq<char>,
    value: ValueView,
)
    requires
        registry.resolve(class, key) is Some,
        registry.resolve(class, key)->Some_0.getter is Some,
        registry.resolve(class, key)->Some_0.setter is Some,
        write_outcome(registry, class, data, key, value) is Ok,
    ensures
        ({
            let property = registry.resolve(class, key)->Some_0;
            let getter = property.getter->Some_0;
            let setter = property.setter->Some_0;
            let stored = write_outcome(registry, class, data, key, value)->Ok_0;
            &&& read_outcome(registry, class, stored, key) == Ok::<FetchedView, Error>(
                FetchedView::Value(stored.read(getter)),
            )
            &&& D::accepts(setter, value) ==> stored == data.written(setter, value)
            &&& !D::accepts(setter, value) ==> property.default_setter is Some && stored
                == data.recovered(property.default_setter->Some_0, value)
        }),
{
}

/// A property is used in the direction it was declared for. One
/// without a getter is never read and one without a setter never
/// written: the read is refused as write-only, the write as read-only,
/// whatever the data and the value.
pub proof fn lemma_access_direction<D: Payload>(
    registry: Registry<D>,
    class: ClassHandle,
    data: D,
    key: Seq<char>,
    value: ValueView,
)
    requires
        registry.contains(class),
        registry.resolve(class, key) is Some,
    ensures
        registry.resolve(class, key)->Some_0.getter is None ==> read_outcome(
            registry,
            class,
            data,
            key,
        ) == Err::<FetchedView, Error>(Error::WriteOnlyProperty),
        registry.resolve(class, key)->Some_0.setter is None ==> write_outcome(
            registry,
            class,
            data,
            key,
            value,
        ) == Err::<D, Error>(Error::ReadOnlyProperty),
{
}

/// The index-miss handler belongs to the class. Once `handler` has been
/// set on `class`, a read of an undeclared key is left to `handler` on
/// every object of the class, whatever its data and whenever it was
/// made, and declared keys are read as before.
pub proof fn lemma_index_miss_class_wide<D: Payload>(
    before: Registry<D>,
    after: Registry<D>,
    class: ClassHandle,
    handler: FunctionRef,
    data: D,
    key: Seq<char>,
)
    requires
        before.contains(class),
        handler_replaced(before, after, class, handler),
    ensures
        before.resolve(class, key) is None ==> read_outcome(after, class, data, key) == Ok::<
            FetchedView,
            Error,
        >(FetchedView::Deferred(handler)),
        before.resolve(class, key) is Some ==> read_outcome(after, class, data, key)
            == read_outcome(before, class, data, key),
{
    lemma_resolve_unchanged(before, after, class, handler, class.0 as int, key);
}

impl<D: Payload> Object<D> {
    /// The class that the object was made from.
    pub closed spec fn class(&self) -> ClassHandle {
        self.class
    }

    /// The data of the object.
    pub closed spec fn data(&self) -> D {
        self.data
    }

    /// The callbacks connected to this object, by signal name.
    pub closed spec fn signals(&self) -> Map<Seq<char>, Seq<FunctionRef>> {
        self.signals@
    }

    /// Each signal name is kept once.
    pub closed spec fn wf(&self) -> bool {
        self.signals.wf()
    }

    /// What an emission of `name` on this object invokes, in order.
    pub open spec fn connected(&self, name: Seq<char>) -> Seq<FunctionRef> {
        callbacks_in(self.signals(), name)
    }

    /// An object of `class` that holds `data` and has no signal connected.
    pub fn new(class: ClassHandle, data: D) -> (object: Self)
        ensures
            object.wf(),
            object.class() == class,
            object.data() == data,
            object.signals() == Map::<Seq<char>, Seq<FunctionRef>>::empty(),
    {
        Object { class, data, signals: SignalRegistry::new() }
    }

    /// The class that the object was made from.
    pub fn class_handle(&self) -> (class: ClassHandle)
        ensures
            class == self.class(),
    {
        self.class
    }

    /// The data, for the host that owns the class.
    pub fn payload(&self) -> (data: &D)
        ensures
            *data == self.data(),
    {
        &self.data
    }

    /// Replaces the data, leaving class and signals as they are.
    pub fn set_payload(&mut self, data: D)
        ensures
            final(self).data() == data,
            final(self).class() == old(self).class(),
            final(self).signals() == old(self).signals(),
            final(self).wf() == old(self).wf(),
    {
        self.data = data;
    }

    /// Reads the property `key`. A declared property is read by its
    /// getter; one without a getter cannot be read. An undeclared key is
    /// left to the index-miss handler of the class, if it has one.
    pub fn get_property(&self, registry: &Registry<D>, key: &str) -> (outcome: Result<
        Fetched,
        Error,
    >)
        requires
            registry.wf(),
        ensures
            match read_outcome(*registry, self.class(), self.data(), key@) {
                Ok(fetched) => outcome is Ok && outcome->Ok_0@ == fetched,
                Err(error) => outcome is Err && outcome->Err_0 == error,
            },
    {
        let definition = match registry.get(self.class) {
            Some(definition) => definition,
            None => {
                return Err(Error::UnknownClass);
            },
        };
        match registry.find_property(self.class, key) {
            Some(property) => match &property.getter {
                Some(getter) => Ok(Fetched::Value(self.data.get(getter))),
                None => Err(Error::WriteOnlyProperty),
            },
            None => match definition.index_miss() {
                Some(handler) => Ok(Fetched::Deferred(handler)),
                None => Err(Error::UnknownProperty),
            },
        }
    }

    /// Writes `value` to the property `key`. The setter stores what it
    /// takes; what it does not take goes to the default setter, if one is
    /// declared. A refused write leaves the object as it was.
    pub fn set_property(&mut self, registry: &Registry<D>, key: &str, value: &Value) -> (outcome:
        Result<(), Error>)
        requires
            registry.wf(),
        ensures
            final(self).class() == old(self).class(),
            final(self).signals() == old(self).signals(),
            final(self).wf() == old(self).wf(),
            match write_outcome(*registry, old(self).class(), old(self).data(), key@, value@) {
                Ok(data) => outcome is Ok && final(self).data() == data,
                Err(error) => outcome == Err::<(), Error>(error)
                    && final(self).data() == old(self).data(),
            },
    {
        if registry.get(self.class).is_none() {
            return Err(Error::UnknownClass);
        }
        let property = match registry.find_property(self.class, key) {
            Some(property) => property,
            None => {
                return Err(Error::UnknownProperty);
            },
        };
        let setter = match &property.setter {
            Some(setter) => setter,
            None => {
                return Err(Error::ReadOnlyProperty);
            },
        };
        if self.data.try_set(setter, value) {
            return Ok(());
        }
        match &property.default_setter {
            Some(fallback) => {
                if self.data.fallback_set(fallback, value) {
                    Ok(())
                } else {
                    Err(Error::TypeMismatch)
                }
            },
            None => Err(Error::TypeMismatch),
        }
    }

    /// Connects `callback` to the signal `name`, behind the callbacks that
    /// are connected to it already.
    pub fn connect_signal(&mut self, name: &str, callback: FunctionRef)
        requires
            old(self).wf(),
        ensures
            final(self).wf(),
            final(self).class() == old(self).class(),
            final(self).data() == old(self).data(),
            final(self).signals() == connect_in(old(self).signals(), name@, callback),
    {
        self.signals.connect(name, callback);
    }

    /// Disconnects every callback of the signal `name`.
    pub fn disconnect_signal(&mut self, name: &str)
        requires
            old(self).wf(),
        ensures
            final(self).wf(),
            final(self).class() == old(self).class(),
            final(self).data() == old(self).data(),
            final(self).signals() == disconnect_in(old(self).signals(), name@),
    {
        self.signals.disconnect(name);
    }

    /// Emits the signal `name`: says which callbacks to invoke, in the
    /// order in which they were connected, and what to hand each of them
    /// after the object itself. The list is fixed at this moment: what a
    /// callback connects or disconnects shows in the next emission. With
    /// nothing connected the list is empty.
    pub fn emit_signal(&self, name: &str, args: Vec<Value>) -> (emission: Emission)
        requires
            self.wf(),
        ensures
            emission.callbacks@ == self.connected(name@),
            emission.args == args,
    {
        Emission { callbacks: self.signals.snapshot(name), args }
    }
}

impl<D: Payload> Registry<D> {
    /// Makes an object of `class`: the allocator of the class makes the
    /// data, the call handler, if there is one, then sees the arguments.
    /// No signal is connected yet.
    pub fn instantiate(&self, class: ClassHandle, args: &Vec<Value>) -> (outcome: Result<
        Object<D>,
        Error,
    >)
        ensures
            outcome is Err <==> !self.contains(class),
            outcome is Err ==> outcome->Err_0 == Error::UnknownClass,
            outcome is Ok ==> {
                let object = outcome->Ok_0;
                &&& object.wf()
                &&& object.class() == class
                &&& object.data() == initial_data(*self, class, views(args@))
                &&& object.signals() == Map::<Seq<char>, Seq<FunctionRef>>::empty()
            },
    {
        match self.get(class) {
            None => Err(Error::UnknownClass),
            Some(definition) => {
                let mut data = D::allocate(definition.allocator_ref());
                match definition.call_handler_ref() {
                    Some(handler) => {
                        data.construct(handler, args);
                    },
                    None => {},
                }
                Ok(Object::new(class, data))
            },
        }
    }
}

} // verus!
