use vstd::prelude::*;

verus! {

/// Number of keys on the hexadecimal keypad.
pub const KEY_COUNT: u8 = 16;

/// The keypad state is a 16-bit mask: bit `k` is set while key `k` is held.
/// A key identifier of 16 or more names no key and is never pressed.
pub open spec fn key_is_pressed(keys: u16, key: u8) -> bool {
    key < 16 && (keys >> (key as u16)) & 1u16 == 1u16
}

/// The lowest-numbered pressed key among `from..16`.
pub open spec fn first_pressed_from(keys: u16, from: nat) -> Option<u8>
    decreases 16 - from,
{
    if from >= 16 {
        None
    } else if key_is_pressed(keys, from as u8) {
        Some(from as u8)
    } else {
        first_pressed_from(keys, from + 1)
    }
}

/// The lowest-numbered pressed key, if any key is held.
pub open spec fn first_pressed(keys: u16) -> Option<u8> {
    first_pressed_from(keys, 0)
}

/// Whether key `key` is held in the keypad state `keys`.
pub fn is_key_pressed(keys: u16, key: u8) -> (r: bool)
    ensures
        r == key_is_pressed(keys, key),
{
    key < KEY_COUNT && (keys >> (key as u16)) & 1u16 == 1u16
}

/// The lowest-numbered key held in `keys`, or `None` when no key is held.
pub fn get_pressed_key(keys: u16) -> (r: Option<u8>)
    ensures
        r == first_pressed(keys),
        r matches Some(k) ==> k < 16 && key_is_pressed(keys, k),
{
    let mut k: u8 = 0;
    while k < KEY_COUNT
        invariant
            k <= 16,
            first_pressed(keys) == first_pressed_from(keys, k as nat),
        decreases 16 - k,
    {
        if is_key_pressed(keys, k) {
            return Some(k);
        }
        k = k + 1;
    }
    None
}

} // verus!
