use awesome_objects::button::{self, Button, ButtonMethod, ButtonState};
use awesome_objects::class::{ClassHandle, Registry};
use awesome_objects::error::Error;
use awesome_objects::object::{Fetched, Object};
use awesome_objects::property::Property;
use awesome_objects::signal::{FunctionRef, SignalRegistry};
use awesome_objects::value::Value;

fn property(
    name: &str,
    getter: Option<ButtonMethod>,
    setter: Option<ButtonMethod>,
    default_setter: Option<ButtonMethod>,
) -> Property<ButtonMethod> {
    Property::new(name.to_string(), getter, setter, default_setter)
}

/// A registry with one class, `gauge`, that declares a readable and
/// writable `level`, a read-only `shown`, a write-only `input` and a
/// strict `exact`, which has no default setter.
fn gauges() -> (Registry<ButtonState>, ClassHandle) {
    let mut registry = Registry::new();
    let mut class = registry
        .define("gauge", ButtonMethod::Allocator, None, None)
        .unwrap();
    let get = Some(ButtonMethod::GetButton);
    let set = Some(ButtonMethod::SetButton);
    class.add_property(property("level", get, set, set)).unwrap();
    class.add_property(property("shown", get, None, None)).unwrap();
    class.add_property(property("input", None, set, set)).unwrap();
    class.add_property(property("exact", get, set, None)).unwrap();
    let handle = registry.save_class(class).unwrap();
    (registry, handle)
}

fn read(registry: &Registry<ButtonState>, object: &Object<ButtonState>, key: &str) -> Value {
    match object.get_property(registry, key) {
        Ok(Fetched::Value(value)) => value,
        other => panic!("{:?}", other),
    }
}

#[test]
fn signals_fire_in_connection_order() {
    let mut signals = SignalRegistry::new();
    signals.connect("test", FunctionRef(1));
    signals.connect("test", FunctionRef(2));
    signals.connect("test", FunctionRef(3));
    assert_eq!(signals.snapshot("test"), vec![FunctionRef(1), FunctionRef(2), FunctionRef(3)]);
}

#[test]
fn a_callback_connected_twice_is_invoked_twice() {
    let mut signals = SignalRegistry::new();
    signals.connect("test", FunctionRef(7));
    signals.connect("other", FunctionRef(8));
    signals.connect("test", FunctionRef(7));
    assert_eq!(signals.snapshot("test"), vec![FunctionRef(7), FunctionRef(7)]);
    assert_eq!(signals.snapshot("other"), vec![FunctionRef(8)]);
}

#[test]
fn emitting_an_unknown_signal_invokes_nothing() {
    let signals = SignalRegistry::new();
    assert_eq!(signals.snapshot("test"), vec![]);
    let (registry, class) = gauges();
    let object = registry.instantiate(class, &vec![]).unwrap();
    let emission = object.emit_signal("test", vec![Value::Integer(1)]);
    assert!(emission.callbacks.is_empty());
    assert_eq!(emission.args, vec![Value::Integer(1)]);
}

#[test]
fn disconnect_clears_one_name_only() {
    let mut signals = SignalRegistry::new();
    signals.connect("first", FunctionRef(1));
    signals.connect("second", FunctionRef(2));
    signals.connect("first", FunctionRef(3));
    signals.connect("third", FunctionRef(4));
    signals.disconnect("first");
    assert_eq!(signals.snapshot("first"), vec![]);
    assert_eq!(signals.snapshot("second"), vec![FunctionRef(2)]);
    assert_eq!(signals.snapshot("third"), vec![FunctionRef(4)]);
    signals.disconnect("never connected");
    assert_eq!(signals.snapshot("second"), vec![FunctionRef(2)]);
    signals.connect("first", FunctionRef(5));
    assert_eq!(signals.snapshot("first"), vec![FunctionRef(5)]);
}

#[test]
fn signals_of_two_objects_are_apart() {
    let (registry, class) = gauges();
    let mut one = registry.instantiate(class, &vec![]).unwrap();
    let mut other = registry.instantiate(class, &vec![]).unwrap();
    other.connect_signal("test", FunctionRef(9));
    one.connect_signal("test", FunctionRef(1));
    assert_eq!(one.emit_signal("test", vec![]).callbacks, vec![FunctionRef(1)]);
    assert_eq!(other.emit_signal("test", vec![]).callbacks, vec![FunctionRef(9)]);
}

#[test]
fn an_emission_is_fixed_when_it_starts() {
    let (registry, class) = gauges();
    let mut object = registry.instantiate(class, &vec![]).unwrap();
    object.connect_signal("test", FunctionRef(1));
    object.connect_signal("test", FunctionRef(2));
    let emission = object.emit_signal("test", vec![]);
    let mut invoked = Vec::new();
    for callback in emission.callbacks {
        invoked.push(callback);
        object.connect_signal("test", FunctionRef(3));
        object.disconnect_signal("other");
    }
    assert_eq!(invoked, vec![FunctionRef(1), FunctionRef(2)]);
    assert_eq!(
        object.emit_signal("test", vec![]).callbacks,
        vec![FunctionRef(1), FunctionRef(2), FunctionRef(3), FunctionRef(3)]
    );
}

#[test]
fn the_last_of_two_callbacks_wins() {
    let (registry, class) = gauges();
    let mut object = registry.instantiate(class, &vec![]).unwrap();
    object.connect_signal("test", FunctionRef(5));
    object.connect_signal("test", FunctionRef(10));
    for callback in object.emit_signal("test", vec![]).callbacks {
        object.set_property(&registry, "level", &Value::Integer(callback.0 as i64)).unwrap();
    }
    assert_eq!(read(&registry, &object, "level"), Value::Integer(10));
}

#[test]
fn a_property_reads_back_what_was_stored() {
    let (registry, class) = gauges();
    let mut object = registry.instantiate(class, &vec![]).unwrap();
    assert_eq!(read(&registry, &object, "level"), Value::Integer(0));
    assert_eq!(object.set_property(&registry, "level", &Value::Integer(7)), Ok(()));
    assert_eq!(read(&registry, &object, "level"), Value::Integer(7));
    assert_eq!(object.set_property(&registry, "level", &Value::Integer(255)), Ok(()));
    assert_eq!(read(&registry, &object, "level"), Value::Integer(255));
    assert_eq!(object.set_property(&registry, "level", &Value::Integer(256)), Ok(()));
    assert_eq!(read(&registry, &object, "level"), Value::Integer(0));
    assert_eq!(object.set_property(&registry, "level", &Value::Integer(-1)), Ok(()));
    assert_eq!(read(&registry, &object, "level"), Value::Integer(255));
    assert_eq!(object.set_property(&registry, "level", &Value::Integer(1000)), Ok(()));
    assert_eq!(read(&registry, &object, "level"), Value::Integer(232));
}

#[test]
fn a_read_only_property_is_not_written() {
    let (registry, class) = gauges();
    let mut object = registry.instantiate(class, &vec![]).unwrap();
    object.set_property(&registry, "level", &Value::Integer(4)).unwrap();
    assert_eq!(
        object.set_property(&registry, "shown", &Value::Integer(9)),
        Err(Error::ReadOnlyProperty)
    );
    assert_eq!(*object.payload(), ButtonState { button: 4, modifiers: 0 });
    assert_eq!(read(&registry, &object, "shown"), Value::Integer(4));
}

#[test]
fn a_write_only_property_is_not_read() {
    let (registry, class) = gauges();
    let mut object = registry.instantiate(class, &vec![]).unwrap();
    assert_eq!(object.get_property(&registry, "input"), Err(Error::WriteOnlyProperty));
    assert_eq!(object.set_property(&registry, "input", &Value::Integer(6)), Ok(()));
    assert_eq!(object.get_property(&registry, "input"), Err(Error::WriteOnlyProperty));
    assert_eq!(*object.payload(), ButtonState { button: 6, modifiers: 0 });
}

#[test]
fn an_unknown_key_is_refused_without_a_handler() {
    let (registry, class) = gauges();
    let mut object = registry.instantiate(class, &vec![]).unwrap();
    assert_eq!(object.get_property(&registry, "aoeu"), Err(Error::UnknownProperty));
    assert_eq!(
        object.set_property(&registry, "aoeu", &Value::Integer(1)),
        Err(Error::UnknownProperty)
    );
    assert_eq!(*object.payload(), ButtonState { button: 0, modifiers: 0 });
}

#[test]
fn a_write_to_an_unknown_key_is_refused_with_a_handler_too() {
    let (mut registry, class) = gauges();
    let mut object = registry.instantiate(class, &vec![]).unwrap();
    registry.set_index_miss_handler(class, FunctionRef(1)).unwrap();
    assert_eq!(
        object.set_property(&registry, "aoeu", &Value::Integer(1)),
        Err(Error::UnknownProperty)
    );
}

#[test]
fn the_default_setter_makes_up_for_a_mismatch() {
    let (registry, class) = gauges();
    let mut object = registry.instantiate(class, &vec![]).unwrap();
    object.set_property(&registry, "level", &Value::Integer(9)).unwrap();
    let text = Value::Text("nine".to_string());
    assert_eq!(object.set_property(&registry, "level", &text), Ok(()));
    assert_eq!(read(&registry, &object, "level"), Value::Integer(0));
}

#[test]
fn a_mismatch_without_default_setter_is_refused() {
    let (registry, class) = gauges();
    let mut object = registry.instantiate(class, &vec![]).unwrap();
    object.set_property(&registry, "exact", &Value::Integer(9)).unwrap();
    let text = Value::Text("x".to_string());
    for value in [Value::Nil, Value::Boolean(true), text, Value::List(vec![])] {
        assert_eq!(object.set_property(&registry, "exact", &value), Err(Error::TypeMismatch));
        assert_eq!(*object.payload(), ButtonState { button: 9, modifiers: 0 });
    }
}

#[test]
fn a_default_setter_that_cannot_recover_is_a_mismatch() {
    let mut registry = Registry::new();
    let class = button::init(&mut registry).unwrap();
    let mut object = registry.instantiate(class, &vec![]).unwrap();
    let named = Value::List(vec!["Shift".to_string(), "Mod4".to_string()]);
    assert_eq!(object.set_property(&registry, "modifiers", &named), Ok(()));
    assert_eq!(*object.payload(), ButtonState { button: 0, modifiers: 65 });
    assert_eq!(
        object.set_property(&registry, "modifiers", &Value::Integer(5)),
        Err(Error::TypeMismatch)
    );
    let misnamed = Value::List(vec!["Caps".to_string(), "Hyper".to_string()]);
    assert_eq!(object.set_property(&registry, "modifiers", &misnamed), Err(Error::TypeMismatch));
    assert_eq!(*object.payload(), ButtonState { button: 0, modifiers: 65 });
    assert_eq!(read(&registry, &object, "modifiers"), named);
}

#[test]
fn a_floating_value_is_held_to_the_range() {
    let (registry, class) = gauges();
    let mut object = registry.instantiate(class, &vec![]).unwrap();
    let cases =
        [(3.9_f64, 3_u8), (-2.5, 0), (255.0, 255), (256.0, 255), (1e30, 255), (f64::NAN, 0), (0.0, 0)];
    for (number, code) in cases {
        assert_eq!(number as u8, code);
        let value = Value::Number(number as i64);
        assert_eq!(object.set_property(&registry, "level", &value), Ok(()));
        assert_eq!(read(&registry, &object, "level"), Value::Integer(code as i64));
    }
}

#[test]
fn a_second_property_of_the_same_name_is_refused() {
    let mut registry: Registry<ButtonState> = Registry::new();
    let mut class = registry.define("gauge", ButtonMethod::Allocator, None, None).unwrap();
    let get = Some(ButtonMethod::GetButton);
    let set = Some(ButtonMethod::SetButton);
    assert_eq!(class.add_property(property("level", get, None, None)), Ok(()));
    assert_eq!(class.add_property(property("level", get, set, set)), Err(Error::DuplicateProperty));
    assert_eq!(class.property_count(), 1);
    let handle = registry.save_class(class).unwrap();
    let mut object = registry.instantiate(handle, &vec![]).unwrap();
    assert_eq!(
        object.set_property(&registry, "level", &Value::Integer(1)),
        Err(Error::ReadOnlyProperty)
    );
    assert_eq!(read(&registry, &object, "level"), Value::Integer(0));
}

#[test]
fn a_second_class_of_the_same_name_is_refused() {
    let mut registry = Registry::new();
    let first = button::init(&mut registry).unwrap();
    assert_eq!(button::init(&mut registry), Err(Error::DuplicateClass));
    assert!(registry.define("button", ButtonMethod::Allocator, None, None).is_err());
    assert_eq!(registry.lookup("button"), Some(first));
    assert_eq!(registry.get(first).unwrap().property_count(), 2);
    let other: Registry<ButtonState> = Registry::new();
    let stray = other.define("button", ButtonMethod::Allocator, None, None).unwrap();
    assert_eq!(registry.save_class(stray), Err(Error::DuplicateClass));
    assert_eq!(registry.lookup("nothing"), None);
}

#[test]
fn a_parent_must_be_registered_first() {
    let mut registry: Registry<ButtonState> = Registry::new();
    let missing = Some(ClassHandle(0));
    assert!(matches!(
        registry.define("child", ButtonMethod::Allocator, missing, None),
        Err(Error::UnknownClass)
    ));
    let base = registry.define("base", ButtonMethod::Allocator, None, None).unwrap();
    let base = registry.save_class(base).unwrap();
    assert_eq!(base, ClassHandle(0));
    let child = registry.define("child", ButtonMethod::Allocator, Some(base), None).unwrap();
    assert_eq!(child.parent_handle(), Some(base));
    let empty: Registry<ButtonState> = Registry::new();
    let mut elsewhere = empty;
    assert_eq!(elsewhere.save_class(child), Err(Error::UnknownClass));
    assert_eq!(elsewhere.lookup("child"), None);
}

#[test]
fn an_unknown_class_is_named_as_such() {
    let (mut registry, class) = gauges();
    let nowhere = ClassHandle(7);
    assert!(matches!(registry.instantiate(nowhere, &vec![]), Err(Error::UnknownClass)));
    assert_eq!(registry.set_index_miss_handler(nowhere, FunctionRef(1)), Err(Error::UnknownClass));
    assert!(registry.get(nowhere).is_none());
    let mut stray = Object::new(nowhere, ButtonState::default());
    assert_eq!(stray.get_property(&registry, "level"), Err(Error::UnknownClass));
    assert_eq!(
        stray.set_property(&registry, "level", &Value::Integer(1)),
        Err(Error::UnknownClass)
    );
    assert_eq!(stray.class_handle(), nowhere);
    assert!(registry.get(class).is_some());
    let empty: Registry<ButtonState> = Registry::new();
    assert!(matches!(button::allocator(&empty), Err(Error::UnknownClass)));
    assert!(matches!(button::new(&empty, &vec![]), Err(Error::UnknownClass)));
}

#[test]
fn a_child_class_overrides_and_inherits() {
    let mut registry = Registry::new();
    let base = button::init(&mut registry).unwrap();
    let mut class = registry
        .define("quiet_button", ButtonMethod::Allocator, Some(base), None)
        .unwrap();
    class.add_property(property("button", Some(ButtonMethod::GetButton), None, None)).unwrap();
    let quiet = registry.save_class(class).unwrap();
    let mut object = registry.instantiate(quiet, &vec![]).unwrap();
    assert_eq!(
        object.set_property(&registry, "button", &Value::Integer(3)),
        Err(Error::ReadOnlyProperty)
    );
    let named = Value::List(vec!["Control".to_string()]);
    assert_eq!(object.set_property(&registry, "modifiers", &named), Ok(()));
    assert_eq!(*object.payload(), ButtonState { button: 0, modifiers: 4 });
    assert!(registry.find_property(quiet, "modifiers").is_some());
    assert!(registry.find_property(quiet, "aoeu").is_none());
    assert!(registry.find_property(base, "button").unwrap().setter.is_some());
    assert!(registry.find_property(quiet, "button").unwrap().setter.is_none());
}

#[test]
fn a_descendant_passes_for_its_ancestor() {
    let mut registry = Registry::new();
    let other = registry.define("gauge", ButtonMethod::Allocator, None, None).unwrap();
    let other = registry.save_class(other).unwrap();
    let base = button::init(&mut registry).unwrap();
    let child = registry.define("child", ButtonMethod::Allocator, Some(base), None).unwrap();
    let child = registry.save_class(child).unwrap();
    let grandchild =
        registry.define("grandchild", ButtonMethod::Allocator, Some(child), None).unwrap();
    let grandchild = registry.save_class(grandchild).unwrap();
    assert!(registry.is_a(base, base));
    assert!(registry.is_a(child, base));
    assert!(registry.is_a(grandchild, base));
    assert!(registry.is_a(grandchild, child));
    assert!(!registry.is_a(base, child));
    assert!(!registry.is_a(other, base));
    assert!(!registry.is_a(grandchild, other));
    assert!(!registry.is_a(ClassHandle(9), base));
    assert!(!registry.is_a(base, ClassHandle(9)));
    let made = registry.instantiate(grandchild, &vec![]).unwrap();
    assert!(Button::check(&registry, &made));
    assert!(Button::cast(&registry, made).is_ok());
    let made = registry.instantiate(other, &vec![]).unwrap();
    assert!(!Button::check(&registry, &made));
    assert!(matches!(Button::cast(&registry, made), Err(Error::TypeMismatch)));
    let empty: Registry<ButtonState> = Registry::new();
    let stray = Object::new(ClassHandle(0), ButtonState::default());
    assert!(matches!(Button::cast(&empty, stray), Err(Error::TypeMismatch)));
}

#[test]
fn a_new_handler_serves_the_objects_made_before_it() {
    let (mut registry, class) = gauges();
    let before = registry.instantiate(class, &vec![]).unwrap();
    assert_eq!(before.get_property(&registry, "aoeu"), Err(Error::UnknownProperty));
    assert_eq!(registry.get(class).unwrap().index_miss(), None);
    registry.set_index_miss_handler(class, FunctionRef(1)).unwrap();
    let after = registry.instantiate(class, &vec![]).unwrap();
    assert_eq!(before.get_property(&registry, "aoeu"), Ok(Fetched::Deferred(FunctionRef(1))));
    assert_eq!(after.get_property(&registry, "aoeu"), Ok(Fetched::Deferred(FunctionRef(1))));
    registry.set_index_miss_handler(class, FunctionRef(2)).unwrap();
    assert_eq!(before.get_property(&registry, "aoeu"), Ok(Fetched::Deferred(FunctionRef(2))));
    assert_eq!(after.get_property(&registry, "aoeu"), Ok(Fetched::Deferred(FunctionRef(2))));
    assert_eq!(read(&registry, &before, "level"), Value::Integer(0));
    assert_eq!(registry.get(class).unwrap().index_miss(), Some(FunctionRef(2)));
    assert_eq!(registry.get(class).unwrap().property_count(), 4);
}

#[test]
fn a_handler_is_not_handed_down_to_a_child_class() {
    let (mut registry, base) = gauges();
    let child = registry.define("child", ButtonMethod::Allocator, Some(base), None).unwrap();
    let child = registry.save_class(child).unwrap();
    registry.set_index_miss_handler(base, FunctionRef(1)).unwrap();
    let object = registry.instantiate(child, &vec![]).unwrap();
    assert_eq!(object.get_property(&registry, "aoeu"), Err(Error::UnknownProperty));
    assert_eq!(read(&registry, &object, "level"), Value::Integer(0));
}

#[test]
fn the_call_handler_sees_a_fresh_object() {
    let mut registry: Registry<ButtonState> = Registry::new();
    let class = registry
        .define("made", ButtonMethod::Allocator, None, Some(ButtonMethod::New))
        .unwrap();
    assert!(class.call_handler_ref().is_some());
    assert_eq!(*class.allocator_ref(), ButtonMethod::Allocator);
    let class = registry.save_class(class).unwrap();
    let object = registry.instantiate(class, &vec![Value::Integer(4)]).unwrap();
    assert_eq!(*object.payload(), ButtonState::default());
    assert_eq!(object.class_handle(), class);
    assert!(object.emit_signal("test", vec![]).callbacks.is_empty());
}

#[test]
fn every_error_has_words_of_its_own() {
    let all = [
        Error::DuplicateClass,
        Error::DuplicateProperty,
        Error::UnknownClass,
        Error::UnknownProperty,
        Error::ReadOnlyProperty,
        Error::WriteOnlyProperty,
        Error::TypeMismatch,
        Error::Marshal,
    ];
    for (i, one) in all.iter().enumerate() {
        assert!(!one.describe().is_empty());
        for other in all.iter().skip(i + 1) {
            assert_ne!(one.describe(), other.describe());
        }
    }
    assert_eq!(Error::ReadOnlyProperty.describe(), "the property is read-only");
    assert_eq!(Error::Marshal.describe(), "the value cannot cross to the caller");
}
