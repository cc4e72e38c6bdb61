use crate::input::{InputEvent, Keystroke, Modifiers};
use vstd::prelude::*;
use vstd::string::*;

verus! {

/// What `str::to_lowercase` gives for a string.
pub uninterp spec fn lower_of(s: Seq<char>) -> Seq<char>;

/// Relies on `str::to_lowercase`: the lowercase form of a string, which
/// depends on its characters alone; the empty string stays empty.
#[verifier::external_body]
fn to_lowercase(s: &str) -> (r: String)
    ensures
        r@ == lower_of(s@),
        s@.len() == 0 ==> r@.len() == 0,
{
    s.to_lowercase()
}

pub open spec fn has_prefix(s: Seq<char>, prefix: Seq<char>) -> bool {
    prefix.len() <= s.len() && s.subrange(0, prefix.len() as int) == prefix
}

/// A symbolic key name that denotes a modifier key.
pub open spec fn is_modifier_name(name: Seq<char>) -> bool {
    has_prefix(name, "shift"@) || has_prefix(name, "control"@) || has_prefix(name, "super"@)
        || has_prefix(name, "alt"@)
}

/// The key name reported to the application: "return" is reported as "enter",
/// as on the other backend; every other name as it is.
pub open spec fn normalized_key(name: Seq<char>) -> Seq<char> {
    if name == "return"@ {
        "enter"@
    } else {
        name
    }
}

/// `event` is what a key press (`pressed`) or release of the key named `name`
/// (already lowercase) translates to, with `modifiers` held: a modifier key
/// reports the new modifier snapshot, any other key a key event.
pub open spec fn key_translation<P>(
    event: InputEvent<P>,
    name: Seq<char>,
    modifiers: Modifiers,
    pressed: bool,
) -> bool {
    if is_modifier_name(name) {
        event == InputEvent::<P>::ModifiersChanged { modifiers }
    } else if pressed {
        match event {
            InputEvent::KeyDown { keystroke, is_held } => !is_held && keystroke.modifiers
                == modifiers && keystroke.key@ == normalized_key(name),
            _ => false,
        }
    } else {
        match event {
            InputEvent::KeyUp { keystroke } => keystroke.modifiers == modifiers
                && keystroke.key@ == normalized_key(name),
            _ => false,
        }
    }
}

/// Whether `s` begins with `prefix`.
pub fn starts_with(s: &str, prefix: &str) -> (r: bool)
    ensures
        r == has_prefix(s@, prefix@),
{
    let n = s.unicode_len();
    let m = prefix.unicode_len();
    if m > n {
        return false;
    }
    let mut i: usize = 0;
    while i < m
        invariant
            m == prefix@.len(),
            n == s@.len(),
            m <= n,
            i <= m,
            forall|j: int| 0 <= j < i ==> s@[j] == prefix@[j],
        decreases m - i,
    {
        if s.get_char(i) != prefix.get_char(i) {
            assert(s@.subrange(0, m as int)[i as int] != prefix@[i as int]);
            return false;
        }
        i = i + 1;
    }
    assert(s@.subrange(0, m as int) =~= prefix@);
    true
}

/// Whether `a` and `b` hold the same characters.
pub fn same_text(a: &str, b: &str) -> (r: bool)
    ensures
        r == (a@ == b@),
{
    if a.unicode_len() != b.unicode_len() {
        return false;
    }
    let r = starts_with(a, b);
    proof {
        assert(a@ =~= a@.subrange(0, b@.len() as int));
    }
    r
}

/// Whether the (lowercase) key name denotes a modifier key.
pub fn is_modifier_key(name: &str) -> (r: bool)
    ensures
        r == is_modifier_name(name@),
{
    starts_with(name, "shift") || starts_with(name, "control") || starts_with(name, "super")
        || starts_with(name, "alt")
}

/// The name reported for a (lowercase) key name: "return" becomes "enter".
pub fn normalize_key(name: String) -> (r: String)
    ensures
        r@ == normalized_key(name@),
{
    if same_text(name.as_str(), "return") {
        String::from_str("enter")
    } else {
        name
    }
}

/// Translates a key press or release whose symbolic name has already been
/// lowercased. A modifier key gives `ModifiersChanged`; any other key a
/// `KeyDown` (never held) or `KeyUp` carrying `modifiers`.
pub fn translate_key<P>(lowered: String, modifiers: Modifiers, pressed: bool) -> (r: InputEvent<
    P,
>)
    ensures
        key_translation(r, lowered@, modifiers, pressed),
{
    if is_modifier_key(lowered.as_str()) {
        InputEvent::ModifiersChanged { modifiers }
    } else {
        let key = normalize_key(lowered);
        let keystroke = Keystroke { modifiers, key };
        if pressed {
            InputEvent::KeyDown { keystroke, is_held: false }
        } else {
            InputEvent::KeyUp { keystroke }
        }
    }
}

/// Translates a key press or release from the symbolic name that the active
/// keymap gives for it, in any case.
pub fn translate_key_name<P>(name: &str, modifiers: Modifiers, pressed: bool) -> (r: InputEvent<
    P,
>)
    ensures
        key_translation(r, lower_of(name@), modifiers, pressed),
{
    translate_key(to_lowercase(name), modifiers, pressed)
}

/// The lowercase form of a key name.
pub fn lowercase_key(name: &str) -> (r: String)
    ensures
        r@ == lower_of(name@),
{
    to_lowercase(name)
}

} // verus!
