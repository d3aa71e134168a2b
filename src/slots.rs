use vstd::prelude::*;

verus! {

/// A hash table from integer key codes to slot numbers, backed by
/// `hashbrown::HashMap<u64, usize>`.
#[verifier::external_body]
pub struct CodeSlots {
    map: hashbrown::HashMap<u64, usize>,
}

/// What a `CodeSlots` table holds.
pub uninterp spec fn code_slots(t: CodeSlots) -> Map<u64, usize>;

/// Relies on hashbrown::HashMap::with_capacity: the new map is empty.
#[verifier::external_body]
pub(crate) fn code_slots_with_capacity(capacity: usize) -> (r: CodeSlots)
    ensures
        code_slots(r).dom() == Set::<u64>::empty(),
{
    CodeSlots { map: hashbrown::HashMap::with_capacity(capacity) }
}

/// Relies on hashbrown::HashMap::get: the value stored under `code`, if any.
#[verifier::external_body]
pub(crate) fn code_slot_of(t: &CodeSlots, code: u64) -> (r: Option<usize>)
    ensures
        code_slots(*t).contains_key(code) ==> r == Some(code_slots(*t)[code]),
        !code_slots(*t).contains_key(code) ==> r is None,
{
    t.map.get(&code).copied()
}

/// Relies on hashbrown::HashMap::insert: `code` maps to `slot` afterwards and
/// every other entry stays.
#[verifier::external_body]
pub(crate) fn code_slot_assign(t: &mut CodeSlots, code: u64, slot: usize)
    ensures
        code_slots(*final(t)) == code_slots(*old(t)).insert(code, slot),
{
    t.map.insert(code, slot);
}

/// A hash table from text keys to slot numbers, backed by
/// `hashbrown::HashMap<String, usize>`.
#[verifier::external_body]
pub struct TextSlots {
    map: hashbrown::HashMap<String, usize>,
}

/// What a `TextSlots` table holds, keyed by the characters of each key.
pub uninterp spec fn text_slots(t: TextSlots) -> Map<Seq<char>, usize>;

/// Relies on hashbrown::HashMap::with_capacity: the new map is empty.
#[verifier::external_body]
pub(crate) fn text_slots_with_capacity(capacity: usize) -> (r: TextSlots)
    ensures
        text_slots(r).dom() == Set::<Seq<char>>::empty(),
{
    TextSlots { map: hashbrown::HashMap::with_capacity(capacity) }
}

/// Relies on hashbrown::HashMap::get, looking a `String` key up by `&str`:
/// the value stored under the key with the same characters, if any.
#[verifier::external_body]
pub(crate) fn text_slot_of(t: &TextSlots, key: &str) -> (r: Option<usize>)
    ensures
        text_slots(*t).contains_key(key@) ==> r == Some(text_slots(*t)[key@]),
        !text_slots(*t).contains_key(key@) ==> r is None,
{
    t.map.get(key).copied()
}

/// Relies on hashbrown::HashMap::insert: `key` maps to `slot` afterwards and
/// every other entry stays.
#[verifier::external_body]
pub(crate) fn text_slot_assign(t: &mut TextSlots, key: String, slot: usize)
    ensures
        text_slots(*final(t)) == text_slots(*old(t)).insert(key@, slot),
{
    t.map.insert(key, slot);
}

} // verus!
