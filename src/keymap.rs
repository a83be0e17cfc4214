//! The table from the UI library's logical keys to physical scancodes.
use vstd::prelude::*;

verus! {

/// Size of the UI library's key-state table, indexed by physical scancode.
pub const KEY_TABLE_LEN: usize = 512;

/// Number of logical keys the UI library asks the platform to map.
pub const N_UI_KEYS: usize = 18;

/// A logical key of the UI library that needs a physical scancode.
#[derive(Clone, Copy, Debug, PartialEq, Eq, Structural)]
pub enum UiKey {
    Tab,
    LeftArrow,
    RightArrow,
    UpArrow,
    DownArrow,
    Home,
    End,
    Delete,
    Backspace,
    Enter,
    Escape,
    Space,
    A,
    C,
    V,
    X,
    Y,
    Z,
}

/// The physical scancode (USB HID usage) a logical key is read from.
pub open spec fn spec_scancode_of(k: UiKey) -> u32 {
    match k {
        UiKey::Tab => 43,
        UiKey::LeftArrow => 80,
        UiKey::RightArrow => 79,
        UiKey::UpArrow => 82,
        UiKey::DownArrow => 81,
        UiKey::Home => 74,
        UiKey::End => 77,
        UiKey::Delete => 76,
        UiKey::Backspace => 42,
        UiKey::Enter => 40,
        UiKey::Escape => 41,
        UiKey::Space => 44,
        UiKey::A => 4,
        UiKey::C => 6,
        UiKey::V => 25,
        UiKey::X => 27,
        UiKey::Y => 28,
        UiKey::Z => 29,
    }
}

/// The scancode of a logical key.
pub fn scancode_of(k: UiKey) -> (r: u32)
    ensures
        r == spec_scancode_of(k),
        r < KEY_TABLE_LEN,
{
    match k {
        UiKey::Tab => 43,
        UiKey::LeftArrow => 80,
        UiKey::RightArrow => 79,
        UiKey::UpArrow => 82,
        UiKey::DownArrow => 81,
        UiKey::Home => 74,
        UiKey::End => 77,
        UiKey::Delete => 76,
        UiKey::Backspace => 42,
        UiKey::Enter => 40,
        UiKey::Escape => 41,
        UiKey::Space => 44,
        UiKey::A => 4,
        UiKey::C => 6,
        UiKey::V => 25,
        UiKey::X => 27,
        UiKey::Y => 28,
        UiKey::Z => 29,
    }
}

/// Every logical key, each once.
pub open spec fn spec_all_keys() -> Seq<UiKey> {
    seq![
        UiKey::Tab, UiKey::LeftArrow, UiKey::RightArrow, UiKey::UpArrow, UiKey::DownArrow,
        UiKey::Home, UiKey::End, UiKey::Delete, UiKey::Backspace, UiKey::Enter, UiKey::Escape,
        UiKey::Space, UiKey::A, UiKey::C, UiKey::V, UiKey::X, UiKey::Y, UiKey::Z,
    ]
}

/// The logical keys of a table, in order.
pub open spec fn spec_keys_of(t: Seq<(UiKey, u32)>) -> Seq<UiKey> {
    t.map_values(|e: (UiKey, u32)| e.0)
}

/// The mapping is one-to-one: distinct logical keys read distinct scancodes.
pub proof fn lemma_scancodes_distinct(a: UiKey, b: UiKey)
    ensures
        a != b ==> spec_scancode_of(a) != spec_scancode_of(b),
{
}

/// Every logical key appears in the list of all keys.
pub proof fn lemma_all_keys_complete(k: UiKey)
    ensures
        spec_all_keys().contains(k),
{
    let s = spec_all_keys();
    let i: int = match k {
        UiKey::Tab => 0,
        UiKey::LeftArrow => 1,
        UiKey::RightArrow => 2,
        UiKey::UpArrow => 3,
        UiKey::DownArrow => 4,
        UiKey::Home => 5,
        UiKey::End => 6,
        UiKey::Delete => 7,
        UiKey::Backspace => 8,
        UiKey::Enter => 9,
        UiKey::Escape => 10,
        UiKey::Space => 11,
        UiKey::A => 12,
        UiKey::C => 13,
        UiKey::V => 14,
        UiKey::X => 15,
        UiKey::Y => 16,
        UiKey::Z => 17,
    };
    assert(s[i] == k);
}

/// The key-map table: each logical key with its scancode, every key once.
pub fn key_table() -> (r: Vec<(UiKey, u32)>)
    ensures
        r@.len() == N_UI_KEYS,
        forall|i: int| 0 <= i < r@.len() ==> r@[i].0 == spec_all_keys()[i],
        forall|i: int| 0 <= i < r@.len() ==> r@[i].1 == spec_scancode_of(#[trigger] r@[i].0),
        forall|k: UiKey| #[trigger] spec_keys_of(r@).contains(k),
        forall|i: int, j: int|
            0 <= i < r@.len() && 0 <= j < r@.len() && i != j ==> r@[i].0 != r@[j].0
                && r@[i].1 != r@[j].1,
{
    let keys = [
        UiKey::Tab, UiKey::LeftArrow, UiKey::RightArrow, UiKey::UpArrow, UiKey::DownArrow,
        UiKey::Home, UiKey::End, UiKey::Delete, UiKey::Backspace, UiKey::Enter, UiKey::Escape,
        UiKey::Space, UiKey::A, UiKey::C, UiKey::V, UiKey::X, UiKey::Y, UiKey::Z,
    ];
    assert(keys@ =~= spec_all_keys());
    let mut r: Vec<(UiKey, u32)> = Vec::new();
    for i in 0..N_UI_KEYS
        invariant
            keys@ == spec_all_keys(),
            r@.len() == i,
            forall|j: int| 0 <= j < i ==> r@[j].0 == spec_all_keys()[j],
            forall|j: int| 0 <= j < i ==> r@[j].1 == spec_scancode_of(#[trigger] r@[j].0),
    {
        let k = keys[i];
        r.push((k, scancode_of(k)));
    }
    assert(spec_keys_of(r@) =~= spec_all_keys());
    assert forall|k: UiKey| #[trigger] spec_keys_of(r@).contains(k) by {
        lemma_all_keys_complete(k);
    }
    assert forall|i: int, j: int|
        0 <= i < r@.len() && 0 <= j < r@.len() && i != j implies r@[i].0 != r@[j].0
            && r@[i].1 != r@[j].1 by {
        lemma_scancodes_distinct(r@[i].0, r@[j].0);
    }
    r
}

} // verus!
