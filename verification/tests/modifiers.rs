use awesome_objects::error::Error;
use awesome_objects::modifiers::{
    mod_to_rust, mods_to_lua, mods_to_rust, MOD_ALT, MOD_CAPS, MOD_CTRL, MOD_MOD2, MOD_MOD3,
    MOD_MOD4, MOD_MOD5, MOD_NONE, MOD_SHIFT,
};

fn names(list: &[&str]) -> Vec<String> {
    list.iter().map(|name| name.to_string()).collect()
}

#[test]
fn each_modifier_has_its_bit() {
    let table = [
        ("Shift", MOD_SHIFT, 1),
        ("Caps", MOD_CAPS, 2),
        ("Control", MOD_CTRL, 4),
        ("Alt", MOD_ALT, 8),
        ("Mod2", MOD_MOD2, 16),
        ("Mod3", MOD_MOD3, 32),
        ("Mod4", MOD_MOD4, 64),
        ("Mod5", MOD_MOD5, 128),
    ];
    for (name, constant, bit) in table {
        assert_eq!(constant, bit);
        assert_eq!(mod_to_rust(&name.to_string()), Some(bit));
        assert_eq!(mods_to_rust(&names(&[name])), Ok(bit));
        assert_eq!(mods_to_lua(bit), names(&[name]));
    }
    assert_eq!(MOD_NONE, 0);
}

#[test]
fn unknown_modifier_names_are_refused() {
    for name in ["", "shift", "Shift ", "Mod1", "Mod6", "Any", "Caps\0"] {
        assert_eq!(mod_to_rust(&name.to_string()), None);
        assert_eq!(mods_to_rust(&names(&[name])), Err(Error::TypeMismatch));
        assert_eq!(mods_to_rust(&names(&["Caps", name, "Alt"])), Err(Error::TypeMismatch));
    }
}

#[test]
fn names_add_up_to_a_mask() {
    assert_eq!(mods_to_rust(&names(&[])), Ok(0));
    assert_eq!(mods_to_rust(&names(&["Caps"])), Ok(2));
    assert_eq!(mods_to_rust(&names(&["Shift", "Control"])), Ok(5));
    assert_eq!(mods_to_rust(&names(&["Control", "Shift", "Control"])), Ok(5));
    assert_eq!(
        mods_to_rust(&names(&["Shift", "Caps", "Control", "Alt", "Mod2", "Mod3", "Mod4", "Mod5"])),
        Ok(255)
    );
}

#[test]
fn a_mask_is_named_lowest_bit_first() {
    assert_eq!(mods_to_lua(0), names(&[]));
    assert_eq!(mods_to_lua(5), names(&["Shift", "Control"]));
    assert_eq!(mods_to_lua(0x88), names(&["Alt", "Mod5"]));
    assert_eq!(
        mods_to_lua(255),
        names(&["Shift", "Caps", "Control", "Alt", "Mod2", "Mod3", "Mod4", "Mod5"])
    );
    assert_eq!(mods_to_lua(0xffff_ff00), names(&[]));
    assert_eq!(mods_to_lua(0x102), names(&["Caps"]));
}

#[test]
fn naming_a_mask_and_reading_the_names_gives_the_mask() {
    for mask in 0..=255u32 {
        assert_eq!(mods_to_rust(&mods_to_lua(mask)), Ok(mask));
    }
}
