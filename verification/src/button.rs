use crate::class::{Class, ClassHandle, Registry};
use crate::error::Error;
use crate::modifiers::{
    all_modifiers, lemma_names_round_trip, mask_of, mods_to_lua, mods_to_rust, names_of, MOD_NONE,
};
use crate::object::{read_outcome, write_outcome, FetchedView, Object};
use crate::payload::Payload;
use crate::property::Property;
use crate::signal::FunctionRef;
use crate::value::{texts, Value, ValueView};
use vstd::prelude::*;
use xcb::ffi::xproto::xcb_button_t;

verus! {

/// What a button object carries: the code of a pointer button and the
/// modifier keys that go with it.
#[derive(Clone, Copy, Debug, PartialEq, Eq)]
pub struct ButtonState {
    pub button: xcb_button_t,
    pub modifiers: u32,
}

impl Default for ButtonState {
    /// Button code 0 and no modifiers.
    fn default() -> (state: Self)
        ensures
            state == (ButtonState { button: 0, modifiers: 0 }),
    {
        ButtonState { button: 0, modifiers: MOD_NONE }
    }
}

/// The host functions of the button class.
#[derive(Clone, Copy, Debug, PartialEq, Eq, Structural)]
pub enum ButtonMethod {
    /// Makes the state of a new button.
    Allocator,
    /// Sees the arguments that a button was made with, and leaves them.
    New,
    /// Reads the button code.
    GetButton,
    /// Stores a button code, or the default code for what is no number.
    SetButton,
    /// Reads the modifiers as a list of names.
    GetModifiers,
    /// Stores the modifiers that a list of names names.
    SetModifiers,
}

/// The lowest eight bits of `n`, as an unsigned number.
pub open spec fn low_byte(n: int) -> u8 {
    (n % 256) as u8
}

/// `n` held to the range of a button code.
pub open spec fn saturated(n: int) -> u8 {
    if n < 0 {
        0
    } else if n > 255 {
        255
    } else {
        n as u8
    }
}

/// The button code that `value` stands for: an integer by its lowest
/// eight bits, a floating value by its integral part, held to the range
/// of a code. Other values stand for none.
pub open spec fn button_code(value: ValueView) -> Option<u8> {
    match value {
        ValueView::Integer(n) => Some(low_byte(n)),
        ValueView::Number(n) => Some(saturated(n)),
        _ => None,
    }
}

/// The modifier mask that `value` stands for: a list of modifier names.
pub open spec fn modifier_mask(value: ValueView) -> Option<u32> {
    match value {
        ValueView::List(names) => if all_modifiers(names) {
            Some(mask_of(names))
        } else {
            None
        },
        _ => None,
    }
}

/// The lowest eight bits of `n`.
fn wrapped(n: i64) -> (code: u8)
    ensures
        code == low_byte(n as int),
{
    let r: i64 = n % 256;
    if r < 0 {
        (r + 256) as u8
    } else {
        r as u8
    }
}

/// `n`, or the end of the range of a code that is nearest to it.
fn clamped(n: i64) -> (code: u8)
    ensures
        code == saturated(n as int),
{
    if n < 0 {
        0
    } else if n > 255 {
        255
    } else {
        n as u8
    }
}

/// Sets the button code from what a script assigned: a number sets its
/// code, anything else the default code.
pub fn set_button(state: &mut ButtonState, val: &Value)
    ensures
        final(state).modifiers == old(state).modifiers,
        final(state).button == match button_code(val@) {
            Some(code) => code,
            None => 0u8,
        },
{
    match val {
        Value::Number(num) => {
            state.button = clamped(*num);
        },
        Value::Integer(num) => {
            state.button = wrapped(*num);
        },
        _ => {
            state.button = 0;
        },
    }
}

/// The button code, as a script reads it.
pub fn get_button(state: &ButtonState) -> (value: Value)
    ensures
        value@ == ValueView::Integer(state.button as int),
{
    Value::Integer(state.button as i64)
}

/// Sets the modifiers from the names that a script assigned. A name
/// that names no modifier leaves the state as it was.
pub fn set_modifiers(state: &mut ButtonState, modifiers: &Vec<String>) -> (outcome: Result<
    (),
    Error,
>)
    ensures
        final(state).button == old(state).button,
        outcome is Ok <==> all_modifiers(texts(modifiers@)),
        outcome is Ok ==> final(state).modifiers == mask_of(texts(modifiers@)),
        outcome is Err ==> outcome == Err::<(), Error>(Error::TypeMismatch)
            && final(state).modifiers == old(state).modifiers,
{
    match mods_to_rust(modifiers) {
        Ok(mask) => {
            state.modifiers = mask;
            Ok(())
        },
        Err(error) => Err(error),
    }
}

/// The modifiers, as a script reads them: their names, lowest bit first.
pub fn get_modifiers(state: &ButtonState) -> (value: Value)
    ensures
        value@ == ValueView::List(names_of(state.modifiers)),
{
    Value::List(mods_to_lua(state.modifiers))
}

impl Payload for ButtonState {
    type Method = ButtonMethod;

    open spec fn allocated(method: ButtonMethod) -> ButtonState {
        ButtonState { button: 0, modifiers: 0 }
    }

    open spec fn read(self, method: ButtonMethod) -> ValueView {
        match method {
            ButtonMethod::GetButton => ValueView::Integer(self.button as int),
            ButtonMethod::GetModifiers => ValueView::List(names_of(self.modifiers)),
            _ => ValueView::Nil,
        }
    }

    open spec fn accepts(method: ButtonMethod, value: ValueView) -> bool {
        match method {
            ButtonMethod::SetButton => button_code(value) is Some,
            ButtonMethod::SetModifiers => modifier_mask(value) is Some,
            _ => false,
        }
    }

    open spec fn written(self, method: ButtonMethod, value: ValueView) -> ButtonState {
        match method {
            ButtonMethod::SetButton => match button_code(value) {
                Some(code) => ButtonState { button: code, modifiers: self.modifiers },
                None => self,
            },
            ButtonMethod::SetModifiers => match modifier_mask(value) {
                Some(mask) => ButtonState { button: self.button, modifiers: mask },
                None => self,
            },
            _ => self,
        }
    }

    open spec fn recovers(method: ButtonMethod, value: ValueView) -> bool {
        match method {
            ButtonMethod::SetButton => true,
            ButtonMethod::SetModifiers => modifier_mask(value) is Some,
            _ => false,
        }
    }

    open spec fn recovered(self, method: ButtonMethod, value: ValueView) -> ButtonState {
        match method {
            ButtonMethod::SetButton => match button_code(value) {
                Some(code) => ButtonState { button: code, modifiers: self.modifiers },
                None => ButtonState { button: 0, modifiers: self.modifiers },
            },
            _ => self.written(method, value),
        }
    }

    open spec fn constructed(self, method: ButtonMethod, args: Seq<ValueView>) -> ButtonState {
        self
    }

    fn allocate(method: &ButtonMethod) -> (data: ButtonState) {
        ButtonState::default()
    }

    fn get(&self, method: &ButtonMethod) -> (value: Value) {
        match method {
            ButtonMethod::GetButton => get_button(self),
            ButtonMethod::GetModifiers => get_modifiers(self),
            _ => Value::Nil,
        }
    }

    fn try_set(&mut self, method: &ButtonMethod, value: &Value) -> (stored: bool) {
        match method {
            ButtonMethod::SetButton => match value {
                Value::Integer(_) | Value::Number(_) => {
                    set_button(self, value);
                    true
                },
                _ => false,
            },
            ButtonMethod::SetModifiers => match value {
                Value::List(names) => set_modifiers(self, names).is_ok(),
                _ => false,
            },
            _ => false,
        }
    }

    fn fallback_set(&mut self, method: &ButtonMethod, value: &Value) -> (stored: bool) {
        match method {
            ButtonMethod::SetButton => {
                set_button(self, value);
                true
            },
            ButtonMethod::SetModifiers => match value {
                Value::List(names) => set_modifiers(self, names).is_ok(),
                _ => false,
            },
            _ => false,
        }
    }

    fn construct(&mut self, method: &ButtonMethod, args: &Vec<Value>) {
    }
}

/// Whether `class` is the button class as [`init`] defines it.
pub open spec fn is_button_class(class: Class<ButtonState>) -> bool {
    &&& class.name() == "button"@
    &&& class.parent() is None
    &&& class.allocator() == ButtonMethod::Allocator
    &&& class.call_handler() == Some(ButtonMethod::New)
    &&& class.index_miss_handler() is None
    &&& class.properties().len() == 2
    &&& class.properties()[0].name@ == "button"@
    &&& class.properties()[0].getter == Some(ButtonMethod::GetButton)
    &&& class.properties()[0].setter == Some(ButtonMethod::SetButton)
    &&& class.properties()[0].default_setter == Some(ButtonMethod::SetButton)
    &&& class.properties()[1].name@ == "modifiers"@
    &&& class.properties()[1].getter == Some(ButtonMethod::GetModifiers)
    &&& class.properties()[1].setter == Some(ButtonMethod::SetModifiers)
    &&& class.properties()[1].default_setter == Some(ButtonMethod::SetModifiers)
}

/// On a button, the key `button` leads to the first property of the
/// button class and the key `modifiers` to the second.
pub proof fn lemma_button_properties(registry: Registry<ButtonState>, class: ClassHandle)
    requires
        registry.wf(),
        registry.contains(class),
        is_button_class(registry.class(class)),
    ensures
        registry.resolve(class, "button"@) == Some(registry.class(class).properties()[0]),
        registry.resolve(class, "modifiers"@) == Some(registry.class(class).properties()[1]),
{
    let definition = registry.class(class);
    definition.lemma_lookup_at(0);
    definition.lemma_lookup_at(1);
}

/// The button code that a script assigns is the one that it reads back.
/// An integer is stored by its lowest eight bits, so a code from 0 to
/// 255 comes back as it went in; a value that is no number resets the
/// code to 0. The modifiers stay as they are.
pub proof fn lemma_button_round_trip(
    registry: Registry<ButtonState>,
    class: ClassHandle,
    data: ButtonState,
    value: ValueView,
)
    requires
        registry.wf(),
        registry.contains(class),
        is_button_class(registry.class(class)),
    ensures
        ({
            let code = match button_code(value) {
                Some(code) => code,
                None => 0u8,
            };
            let stored = ButtonState { button: code, modifiers: data.modifiers };
            &&& write_outcome(registry, class, data, "button"@, value) == Ok::<ButtonState, Error>(
                stored,
            )
            &&& read_outcome(registry, class, stored, "button"@) == Ok::<FetchedView, Error>(
                FetchedView::Value(ValueView::Integer(code as int)),
            )
        }),
        forall|n: int| 0 <= n <= 255 ==> button_code(ValueView::Integer(n)) == Some(n as u8),
{
    lemma_button_properties(registry, class);
}

/// The modifiers that a script assigns by name are the ones that it reads
/// back, named lowest bit first; and what it reads it can assign again,
/// which leaves the modifiers as they are, as far as they are modifier
/// bits.
pub proof fn lemma_modifiers_round_trip(
    registry: Registry<ButtonState>,
    class: ClassHandle,
    data: ButtonState,
    names: Seq<Seq<char>>,
)
    requires
        registry.wf(),
        registry.contains(class),
        is_button_class(registry.class(class)),
        all_modifiers(names),
    ensures
        ({
            let stored = ButtonState { button: data.button, modifiers: mask_of(names) };
            &&& write_outcome(registry, class, data, "modifiers"@, ValueView::List(names)) == Ok::<
                ButtonState,
                Error,
            >(stored)
            &&& read_outcome(registry, class, stored, "modifiers"@) == Ok::<FetchedView, Error>(
                FetchedView::Value(ValueView::List(names_of(mask_of(names)))),
            )
        }),
        write_outcome(
            registry,
            class,
            data,
            "modifiers"@,
            ValueView::List(names_of(data.modifiers)),
        ) == Ok::<ButtonState, Error>(
            ButtonState { button: data.button, modifiers: data.modifiers & 0xff },
        ),
{
    lemma_button_properties(registry, class);
    lemma_names_round_trip(data.modifiers);
}

/// Makes a new button: default state, no signal connected. The button
/// class must have been registered.
pub fn allocator(registry: &Registry<ButtonState>) -> (outcome: Result<Object<ButtonState>, Error>)
    ensures
        outcome is Ok <==> registry.registered("button"@),
        outcome is Err ==> outcome->Err_0 == Error::UnknownClass,
        outcome is Ok ==> {
            let object = outcome->Ok_0;
            &&& object.wf()
            &&& registry.contains(object.class())
            &&& registry.class(object.class()).name() == "button"@
            &&& object.data() == (ButtonState { button: 0, modifiers: 0 })
            &&& object.signals() == Map::<Seq<char>, Seq<FunctionRef>>::empty()
        },
{
    match registry.lookup("button") {
        Some(class) => Ok(Object::new(class, ButtonState::default())),
        None => Err(Error::UnknownClass),
    }
}

/// Makes a new button for a script that called the class. The arguments
/// of the call are not looked at.
pub fn new(registry: &Registry<ButtonState>, _args: &Vec<Value>) -> (outcome: Result<
    Object<ButtonState>,
    Error,
>)
    ensures
        outcome is Ok <==> registry.registered("button"@),
        outcome is Err ==> outcome->Err_0 == Error::UnknownClass,
        outcome is Ok ==> {
            let object = outcome->Ok_0;
            &&& object.wf()
            &&& registry.contains(object.class())
            &&& registry.class(object.class()).name() == "button"@
            &&& object.data() == (ButtonState { button: 0, modifiers: 0 })
            &&& object.signals() == Map::<Seq<char>, Seq<FunctionRef>>::empty()
        },
{
    allocator(registry)
}

/// Defines the button class, with its properties `button` and
/// `modifiers`, and registers it under the name `button`.
pub fn init(registry: &mut Registry<ButtonState>) -> (outcome: Result<ClassHandle, Error>)
    requires
        old(registry).wf(),
    ensures
        final(registry).wf(),
        outcome is Err <==> old(registry).registered("button"@),
        outcome is Err ==> outcome == Err::<ClassHandle, Error>(Error::DuplicateClass)
            && final(registry).classes() == old(registry).classes(),
        outcome is Ok ==> {
            let class = outcome->Ok_0;
            &&& class.0 == old(registry).classes().len()
            &&& final(registry).classes().len() == old(registry).classes().len() + 1
            &&& final(registry).classes().drop_last() == old(registry).classes()
            &&& is_button_class(final(registry).class(class))
        },
{
    let mut class = match registry.define(
        "button",
        ButtonMethod::Allocator,
        None,
        Some(ButtonMethod::New),
    ) {
        Ok(class) => class,
        Err(error) => {
            return Err(error);
        },
    };
    proof {
        reveal_strlit("button");
        reveal_strlit("modifiers");
        assert("button"@ != "modifiers"@) by {
            assert("button"@.len() != "modifiers"@.len());
        }
    }
    if let Err(error) = class.add_property(
        Property::new(
            "button".to_owned(),
            Some(ButtonMethod::GetButton),
            Some(ButtonMethod::SetButton),
            Some(ButtonMethod::SetButton),
        ),
    ) {
        return Err(error);
    }
    if let Err(error) = class.add_property(
        Property::new(
            "modifiers".to_owned(),
            Some(ButtonMethod::GetModifiers),
            Some(ButtonMethod::SetModifiers),
            Some(ButtonMethod::SetModifiers),
        ),
    ) {
        return Err(error);
    }
    registry.save_class(class)
}

/// An object known to be a button.
pub struct Button(Object<ButtonState>);

/// Whether `registry` holds a class called `button` that `class` is, or
/// descends from.
pub open spec fn is_button(registry: Registry<ButtonState>, class: ClassHandle) -> bool {
    exists|button: ClassHandle|
        registry.contains(button) && registry.class(button).name() == "button"@
            && #[trigger] registry.descends(class, button)
}

impl Button {
    /// The object that is the button.
    pub closed spec fn object(&self) -> Object<ButtonState> {
        self.0
    }

    /// Whether `object` can be taken for a button: whether its class is
    /// the button class or descends from it.
    pub fn check(registry: &Registry<ButtonState>, object: &Object<ButtonState>) -> (fits: bool)
        requires
            registry.wf(),
        ensures
            fits == is_button(*registry, object.class()),
    {
        match registry.lookup("button") {
            Some(button) => {
                let fits = registry.is_a(object.class_handle(), button);
                proof {
                    if is_button(*registry, object.class()) {
                        let other = choose|other: ClassHandle|
                            registry.contains(other) && registry.class(other).name() == "button"@
                                && #[trigger] registry.descends(object.class(), other);
                        assert(other == button);
                    }
                }
                fits
            },
            None => false,
        }
    }

    /// Takes `object` for a button if its class is the button class or
    /// descends from it.
    pub fn cast(registry: &Registry<ButtonState>, object: Object<ButtonState>) -> (outcome: Result<
        Button,
        Error,
    >)
        requires
            registry.wf(),
        ensures
            outcome is Ok <==> is_button(*registry, object.class()),
            outcome is Ok ==> outcome->Ok_0.object() == object,
            outcome is Err ==> outcome->Err_0 == Error::TypeMismatch,
    {
        if Button::check(registry, &object) {
            Ok(Button(object))
        } else {
            Err(Error::TypeMismatch)
        }
    }

    /// Takes `object` for a button without looking at its class.
    pub fn wrap(object: Object<ButtonState>) -> (button: Button)
        ensures
            button.object() == object,
    {
        Button(object)
    }

    /// Gives the object back.
    pub fn into_object(self) -> (object: Object<ButtonState>)
        ensures
            object == self.object(),
    {
        self.0
    }

    /// The button code, as a script reads it.
    pub fn button(&self) -> (value: Value)
        ensures
            value@ == ValueView::Integer(self.object().data().button as int),
    {
        get_button(self.0.payload())
    }

    /// Sets the button code and leaves the rest of the object as it is.
    pub fn set_button(&mut self, new_val: xcb_button_t)
        ensures
            final(self).object().data() == (ButtonState {
                button: new_val,
                modifiers: old(self).object().data().modifiers,
            }),
            final(self).object().class() == old(self).object().class(),
            final(self).object().signals() == old(self).object().signals(),
            final(self).object().wf() == old(self).object().wf(),
    {
        let mut state = *self.0.payload();
        state.button = new_val;
        self.0.set_payload(state);
    }

    /// The modifier mask.
    pub fn modifiers(&self) -> (mods: u32)
        ensures
            mods == self.object().data().modifiers,
    {
        self.0.payload().modifiers
    }

    /// Sets the modifiers to those that `mods` names. A name that names
    /// no modifier leaves the button as it was.
    pub fn set_modifiers(&mut self, mods: &Vec<String>) -> (outcome: Result<(), Error>)
        ensures
            outcome is Ok <==> all_modifiers(texts(mods@)),
            outcome is Err ==> outcome == Err::<(), Error>(Error::TypeMismatch)
                && final(self).object().data() == old(self).object().data(),
            outcome is Ok ==> final(self).object().data() == (ButtonState {
                button: old(self).object().data().button,
                modifiers: mask_of(texts(mods@)),
            }),
            final(self).object().class() == old(self).object().class(),
            final(self).object().signals() == old(self).object().signals(),
            final(self).object().wf() == old(self).object().wf(),
    {
        let mut state = *self.0.payload();
        state.modifiers = mods_to_rust(mods)?;
        self.0.set_payload(state);
        Ok(())
    }
}

} // verus!
