//! Looking champions up by id and by name.

pub mod list;

use crate::champion::list::slot;
use crate::champion::list::LIST;
use crate::text::str_eq;
use vstd::prelude::*;

verus! {

/// The name of the first table entry at or after position `from` whose id
/// is `id`.
pub open spec fn name_from(id: u32, from: int) -> Option<Seq<char>>
    decreases LIST@.len() - from,
{
    if from < 0 || from >= LIST@.len() {
        None
    } else if LIST@[from].0 == id {
        Some(LIST@[from].1@)
    } else {
        name_from(id, from + 1)
    }
}

/// The id of the first table entry at or after position `from` whose name
/// is `name`.
pub open spec fn id_from(name: Seq<char>, from: int) -> Option<u32>
    decreases LIST@.len() - from,
{
    if from < 0 || from >= LIST@.len() {
        None
    } else if LIST@[from].1@ == name {
        Some(LIST@[from].0)
    } else {
        id_from(name, from + 1)
    }
}

/// The name that the table gives for `id`.
pub open spec fn spec_name_from_id(id: u32) -> Option<Seq<char>> {
    name_from(id, 0)
}

/// The id that the table gives for `name`.
pub open spec fn spec_id_from_name(name: Seq<char>) -> Option<u32> {
    id_from(name, 0)
}

/// The names of the table, in table order.
pub open spec fn spec_name_list() -> Seq<Seq<char>> {
    Seq::new(LIST@.len(), |i: int| LIST@[i].1@)
}

/// The name of the champion with the given id, if the table knows it.
pub fn get_champion_name_from_id(id: u32) -> (name: Option<&'static str>)
    ensures
        match name {
            Some(found) => spec_name_from_id(id) == Some(found@),
            None => spec_name_from_id(id) is None,
        },
{
    let mut i: usize = 0;
    while i < LIST.len()
        invariant
            i <= LIST@.len(),
            name_from(id, 0) == name_from(id, i as int),
        decreases LIST@.len() - i,
    {
        if LIST[i].0 == id {
            return Some(LIST[i].1);
        }
        i += 1;
    }
    None
}

/// The id of the champion with the given name, if the table knows it.
pub fn get_champion_id_from_name(name: &str) -> (id: Option<u32>)
    ensures
        id == spec_id_from_name(name@),
{
    let mut i: usize = 0;
    while i < LIST.len()
        invariant
            i <= LIST@.len(),
            id_from(name@, 0) == id_from(name@, i as int),
        decreases LIST@.len() - i,
    {
        if str_eq(LIST[i].1, name) {
            return Some(LIST[i].0);
        }
        i += 1;
    }
    None
}

/// The names of all champions, in table order.
pub fn get_champion_name_list() -> (names: Vec<&'static str>)
    ensures
        names@.len() == spec_name_list().len(),
        forall|i: int| 0 <= i < names@.len() ==> names@[i]@ == spec_name_list()[i],
{
    let mut names: Vec<&'static str> = Vec::new();
    let mut i: usize = 0;
    while i < LIST.len()
        invariant
            i <= LIST@.len(),
            names@.len() == i,
            forall|j: int| 0 <= j < i ==> names@[j]@ == LIST@[j].1@,
        decreases LIST@.len() - i,
    {
        names.push(LIST[i].1);
        i += 1;
    }
    names
}

/// An entry's id has a name, looked up from anywhere at or before the entry.
pub proof fn lemma_listed_has_name(id: u32, at: int, from: int)
    requires
        0 <= from <= at < LIST@.len(),
        LIST@[at].0 == id,
    ensures
        name_from(id, from) is Some,
    decreases at - from,
{
    if LIST@[from].0 != id {
        lemma_listed_has_name(id, at, from + 1);
    }
}

/// An id found by name belongs to some entry at or after the starting point.
pub proof fn lemma_found_id_listed(name: Seq<char>, from: int)
    requires
        0 <= from,
    ensures
        id_from(name, from) matches Some(id) ==> exists|at: int|
            from <= at < LIST@.len() && LIST@[at].0 == id,
    decreases LIST@.len() - from,
{
    if from < LIST@.len() {
        if LIST@[from].1@ == name {
            assert(from <= from < LIST@.len() && LIST@[from].0 == id_from(name, from)->0);
        } else {
            lemma_found_id_listed(name, from + 1);
            if id_from(name, from) is Some {
                let at = choose|at: int|
                    from + 1 <= at < LIST@.len() && LIST@[at].0 == id_from(name, from + 1)->0;
                assert(from <= at < LIST@.len() && LIST@[at].0 == id_from(name, from)->0);
            }
        }
    }
}

/// Whatever id the table gives for a name, it gives a name for that id.
pub proof fn lemma_id_has_name(name: Seq<char>)
    ensures
        spec_id_from_name(name) matches Some(id) ==> spec_name_from_id(id) is Some,
{
    lemma_found_id_listed(name, 0);
    if spec_id_from_name(name) is Some {
        let id = spec_id_from_name(name)->0;
        let at = choose|at: int| 0 <= at < LIST@.len() && LIST@[at].0 == id;
        lemma_listed_has_name(id, at, 0);
    }
}

/// Whether each of the first `upto` entries stands where [`slot`] says its
/// id is held.
pub open spec fn slots_upto(upto: int) -> bool
    decreases upto,
{
    upto <= 0 || (slot(LIST@[upto - 1].0) == upto - 1 && slots_upto(upto - 1))
}

// The table is walked in stretches, so that no step has to unfold much.
proof fn lemma_slots_19()
    ensures
        slots_upto(19),
{
    reveal_with_fuel(slots_upto, 20);
}

proof fn lemma_slots_38()
    ensures
        slots_upto(38),
{
    lemma_slots_19();
    reveal_with_fuel(slots_upto, 20);
}

proof fn lemma_slots_57()
    ensures
        slots_upto(57),
{
    lemma_slots_38();
    reveal_with_fuel(slots_upto, 20);
}

proof fn lemma_slots_76()
    ensures
        slots_upto(76),
{
    lemma_slots_57();
    reveal_with_fuel(slots_upto, 20);
}

proof fn lemma_slots_95()
    ensures
        slots_upto(95),
{
    lemma_slots_76();
    reveal_with_fuel(slots_upto, 20);
}

proof fn lemma_slots_114()
    ensures
        slots_upto(114),
{
    lemma_slots_95();
    reveal_with_fuel(slots_upto, 20);
}

proof fn lemma_slots_133()
    ensures
        slots_upto(133),
{
    lemma_slots_114();
    reveal_with_fuel(slots_upto, 20);
}

proof fn lemma_slots_152()
    ensures
        slots_upto(152),
{
    lemma_slots_133();
    reveal_with_fuel(slots_upto, 20);
}

proof fn lemma_slots_171()
    ensures
        slots_upto(171),
{
    lemma_slots_152();
    reveal_with_fuel(slots_upto, 20);
}

/// Every entry stands where [`slot`] says its id is held.
pub proof fn lemma_slots()
    ensures
        slots_upto(LIST@.len() as int),
{
    lemma_slots_171();
}

/// What [`slots_upto`] says of each entry.
pub proof fn lemma_slot(upto: int, at: int)
    requires
        slots_upto(upto),
        0 <= at < upto,
    ensures
        slot(LIST@[at].0) == at,
    decreases upto,
{
    if at < upto - 1 {
        lemma_slot(upto - 1, at);
    }
}

/// No two entries of the table share an id, and no entry has the id zero.
pub proof fn lemma_ids_differ(first: int, second: int)
    requires
        0 <= first < LIST@.len(),
        0 <= second < LIST@.len(),
    ensures
        LIST@[first].0 != 0,
        LIST@[first].0 == LIST@[second].0 ==> first == second,
{
    lemma_slots();
    lemma_slot(LIST@.len() as int, first);
    lemma_slot(LIST@.len() as int, second);
}

/// An entry's id leads to the entry's own name, looked up from anywhere at
/// or before the entry.
pub proof fn lemma_name_of_own_id(at: int, from: int)
    requires
        0 <= from <= at < LIST@.len(),
    ensures
        name_from(LIST@[at].0, from) == Some(LIST@[at].1@),
    decreases at - from,
{
    if from < at {
        lemma_ids_differ(from, at);
        lemma_name_of_own_id(at, from + 1);
    }
}

/// The position of the first entry at or after `from` that carries the name.
pub open spec fn position_from(name: Seq<char>, from: int) -> Option<int>
    decreases LIST@.len() - from,
{
    if from < 0 || from >= LIST@.len() {
        None
    } else if LIST@[from].1@ == name {
        Some(from)
    } else {
        position_from(name, from + 1)
    }
}

/// The id found for a name is that of an entry that carries the name.
pub proof fn lemma_id_from_position(name: Seq<char>, from: int)
    requires
        0 <= from,
    ensures
        match position_from(name, from) {
            Some(at) => from <= at < LIST@.len() && LIST@[at].1@ == name && id_from(name, from)
                == Some(LIST@[at].0),
            None => id_from(name, from) is None,
        },
    decreases LIST@.len() - from,
{
    if from < LIST@.len() && LIST@[from].1@ != name {
        lemma_id_from_position(name, from + 1);
    }
}

/// Names and ids lead back to each other. Whatever id the table gives for a
/// name, it is not zero, and the name that the table gives for it is that
/// name again.
pub proof fn lemma_name_round_trip(name: Seq<char>)
    ensures
        spec_id_from_name(name) matches Some(id) ==> id != 0 && spec_name_from_id(id) == Some(
            name,
        ),
{
    lemma_id_from_position(name, 0);
    if position_from(name, 0) is Some {
        let at = position_from(name, 0)->0;
        lemma_ids_differ(at, at);
        lemma_name_of_own_id(at, 0);
    }
}

} // verus!
