use crate::error::Error;
use crate::value::texts;
use vstd::prelude::*;

verus! {

/// No modifier.
pub const MOD_NONE: u32 = 0;

/// Shift.
pub const MOD_SHIFT: u32 = 1;

/// Caps lock.
pub const MOD_CAPS: u32 = 2;

/// Control.
pub const MOD_CTRL: u32 = 4;

/// Alt.
pub const MOD_ALT: u32 = 8;

/// Mod2.
pub const MOD_MOD2: u32 = 16;

/// Mod3.
pub const MOD_MOD3: u32 = 32;

/// Mod4, the logo key.
pub const MOD_MOD4: u32 = 64;

/// Mod5.
pub const MOD_MOD5: u32 = 128;

/// The name that scripts use for the modifier at bit `bit`.
pub open spec fn modifier_name(bit: int) -> Seq<char> {
    if bit == 0 {
        "Shift"@
    } else if bit == 1 {
        "Caps"@
    } else if bit == 2 {
        "Control"@
    } else if bit == 3 {
        "Alt"@
    } else if bit == 4 {
        "Mod2"@
    } else if bit == 5 {
        "Mod3"@
    } else if bit == 6 {
        "Mod4"@
    } else {
        "Mod5"@
    }
}

/// The mask of the modifier that scripts call `name`.
pub open spec fn modifier_bit(name: Seq<char>) -> Option<u32> {
    if name == "Shift"@ {
        Some(MOD_SHIFT)
    } else if name == "Caps"@ {
        Some(MOD_CAPS)
    } else if name == "Control"@ {
        Some(MOD_CTRL)
    } else if name == "Alt"@ {
        Some(MOD_ALT)
    } else if name == "Mod2"@ {
        Some(MOD_MOD2)
    } else if name == "Mod3"@ {
        Some(MOD_MOD3)
    } else if name == "Mod4"@ {
        Some(MOD_MOD4)
    } else if name == "Mod5"@ {
        Some(MOD_MOD5)
    } else {
        None
    }
}

/// Whether each of `names` names a modifier.
pub open spec fn all_modifiers(names: Seq<Seq<char>>) -> bool {
    forall|i: int| 0 <= i < names.len() ==> modifier_bit(#[trigger] names[i]) is Some
}

/// The modifiers that `names` name, as one mask.
pub open spec fn mask_of(names: Seq<Seq<char>>) -> u32
    decreases names.len(),
{
    if names.len() == 0 {
        0
    } else {
        mask_of(names.drop_last()) | match modifier_bit(names.last()) {
            Some(bit) => bit,
            None => 0,
        }
    }
}

/// The names of the modifiers among the lowest `upto` bits of `mods`,
/// lowest bit first.
pub open spec fn names_upto(mods: u32, upto: int) -> Seq<Seq<char>>
    decreases upto,
{
    if upto <= 0 {
        Seq::empty()
    } else if mods & (1u32 << ((upto - 1) as u32)) != 0 {
        names_upto(mods, upto - 1).push(modifier_name(upto - 1))
    } else {
        names_upto(mods, upto - 1)
    }
}

/// The names of the modifiers in `mods`, lowest bit first.
pub open spec fn names_of(mods: u32) -> Seq<Seq<char>> {
    names_upto(mods, 8)
}

/// The name of the modifier at `bit` leads back to that bit.
pub proof fn lemma_name_has_bit(bit: int)
    requires
        0 <= bit < 8,
    ensures
        modifier_bit(modifier_name(bit)) == Some((1u32 << (bit as u32))),
{
    reveal_strlit("Shift");
    reveal_strlit("Caps");
    reveal_strlit("Control");
    reveal_strlit("Alt");
    reveal_strlit("Mod2");
    reveal_strlit("Mod3");
    reveal_strlit("Mod4");
    reveal_strlit("Mod5");
    assert("Shift"@.len() == 5 && "Caps"@.len() == 4 && "Control"@.len() == 7 && "Alt"@.len() == 3);
    assert("Mod2"@[3] == '2' && "Mod3"@[3] == '3' && "Mod4"@[3] == '4' && "Mod5"@[3] == '5');
    assert(1u32 << 0u32 == 1 && 1u32 << 1u32 == 2 && 1u32 << 2u32 == 4 && 1u32 << 3u32 == 8 && 1u32
        << 4u32 == 16 && 1u32 << 5u32 == 32 && 1u32 << 6u32 == 64 && 1u32 << 7u32 == 128)
        by (bit_vector);
}

/// The names of the lowest `upto` bits of `mods` are modifier names, and
/// their mask is those bits of `mods`.
pub proof fn lemma_names_upto(mods: u32, upto: int)
    requires
        0 <= upto <= 8,
    ensures
        all_modifiers(names_upto(mods, upto)),
        mask_of(names_upto(mods, upto)) == mods & (((1u32 << (upto as u32)) - 1) as u32),
    decreases upto,
{
    let k = upto as u32;
    if upto == 0 {
        assert(mods & (((1u32 << 0u32) - 1) as u32) == 0) by (bit_vector);
    } else {
        let below = (upto - 1) as u32;
        lemma_names_upto(mods, upto - 1);
        lemma_name_has_bit(upto - 1);
        let before = names_upto(mods, upto - 1);
        let bit = 1u32 << below;
        if mods & bit != 0 {
            let after = before.push(modifier_name(upto - 1));
            assert(after.drop_last() =~= before);
            assert forall|i: int| 0 <= i < after.len() implies modifier_bit(#[trigger] after[i])
                is Some by {
                if i < before.len() {
                    assert(after[i] == before[i]);
                }
            }
            assert((mods & (((1u32 << below) - 1) as u32)) | (1u32 << below) == mods & (((1u32 << k)
                - 1) as u32)) by (bit_vector)
                requires
                    k == below + 1,
                    below < 8,
                    mods & (1u32 << below) != 0,
            ;
        } else {
            assert(mods & (((1u32 << below) - 1) as u32) == mods & (((1u32 << k) - 1) as u32))
                by (bit_vector)
                requires
                    k == below + 1,
                    below < 8,
                    mods & (1u32 << below) == 0,
            ;
        }
    }
}

/// Naming a mask and reading the names gives the mask again, as far as
/// its bits are modifiers: the lowest eight.
pub proof fn lemma_names_round_trip(mods: u32)
    ensures
        all_modifiers(names_of(mods)),
        mask_of(names_of(mods)) == mods & 0xff,
{
    lemma_names_upto(mods, 8);
    assert(((1u32 << 8u32) - 1) as u32 == 0xff) by (bit_vector);
}

/// The mask of the modifier called `name`.
pub fn mod_to_rust(name: &String) -> (bit: Option<u32>)
    ensures
        bit == modifier_bit(name@),
{
    if *name == "Shift".to_owned() {
        Some(MOD_SHIFT)
    } else if *name == "Caps".to_owned() {
        Some(MOD_CAPS)
    } else if *name == "Control".to_owned() {
        Some(MOD_CTRL)
    } else if *name == "Alt".to_owned() {
        Some(MOD_ALT)
    } else if *name == "Mod2".to_owned() {
        Some(MOD_MOD2)
    } else if *name == "Mod3".to_owned() {
        Some(MOD_MOD3)
    } else if *name == "Mod4".to_owned() {
        Some(MOD_MOD4)
    } else if *name == "Mod5".to_owned() {
        Some(MOD_MOD5)
    } else {
        None
    }
}

/// The mask of the modifiers that `names` name. One name that names no
/// modifier spoils the list.
pub fn mods_to_rust(names: &Vec<String>) -> (outcome: Result<u32, Error>)
    ensures
        all_modifiers(texts(names@)) ==> outcome == Ok::<u32, Error>(mask_of(texts(names@))),
        !all_modifiers(texts(names@)) ==> outcome == Err::<u32, Error>(Error::TypeMismatch),
{
    let mut mask: u32 = 0;
    let mut i: usize = 0;
    while i < names.len()
        invariant
            i <= names@.len(),
            all_modifiers(texts(names@).take(i as int)),
            mask == mask_of(texts(names@).take(i as int)),
        decreases names@.len() - i,
    {
        let ghost so_far = texts(names@).take(i as int);
        let ghost next = texts(names@).take(i as int + 1);
        assert(next.drop_last() =~= so_far);
        match mod_to_rust(&names[i]) {
            Some(bit) => {
                mask = mask | bit;
            },
            None => {
                assert(texts(names@)[i as int] == names@[i as int]@);
                return Err(Error::TypeMismatch);
            },
        }
        assert forall|j: int| 0 <= j < next.len() implies modifier_bit(#[trigger] next[j])
            is Some by {
            if j < i {
                assert(next[j] == so_far[j]);
            }
        }
        i += 1;
    }
    assert(texts(names@).take(i as int) =~= texts(names@));
    Ok(mask)
}

/// The names of the modifiers in `mods`, lowest bit first.
pub fn mods_to_lua(mods: u32) -> (names: Vec<String>)
    ensures
        texts(names@) == names_of(mods),
{
    let mut names: Vec<String> = Vec::new();
    let mut bit: u32 = 0;
    while bit < 8
        invariant
            bit <= 8,
            texts(names@) == names_upto(mods, bit as int),
        decreases 8 - bit,
    {
        if mods & (1u32 << bit) != 0 {
            let name = if bit == 0 {
                "Shift"
            } else if bit == 1 {
                "Caps"
            } else if bit == 2 {
                "Control"
            } else if bit == 3 {
                "Alt"
            } else if bit == 4 {
                "Mod2"
            } else if bit == 5 {
                "Mod3"
            } else if bit == 6 {
                "Mod4"
            } else {
                "Mod5"
            };
            names.push(name.to_owned());
        }
        bit += 1;
    }
    names
}

} // verus!
