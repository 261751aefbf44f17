//! Operations on the tables of the catalogue: each table maps ids to
//! records and keeps a list of open edit states. Copy, open an edit, rename
//! an edit, save it, create a record, cancel an edit.

use crate::data_types::{EntityId, ErrorKind, ValidationError, outcome, text};
use crate::entity_component::{EditState, Entity, get_next_id, spec_next_id};
use crate::item_groups::{ItemGroup, ItemGroupEditState, spec_validate_parts};
use crate::money::{Amount, spec_parse};
use crate::price_levels::{PriceLevel, PriceLevelEditState, PriceLevelType};
use crate::tax_groups::{TaxGroup, TaxGroupEditState};
use std::ops::Range;
use crate::text::{chars_of, int_string, lemma_parse_int_text, push_str, spec_int_text, spec_parse_i32, parse_i32_str};
use vstd::std_specs::iter::IteratorSpec;
use std::collections::BTreeMap;
use vstd::prelude::*;

verus! {

broadcast use vstd::laws_cmp::group_laws_cmp;

// ---------------------------------------------------------------------
// Edit states and the id they edit
// ---------------------------------------------------------------------

/// An edit state that names the record it edits by the text of its id.
pub trait EditRecord: Sized {
    spec fn spec_id_text(&self) -> Seq<char>;

    fn id_text(&self) -> (r: &str)
        ensures
            r@ == self.spec_id_text(),
    ;
}

impl EditRecord for EditState {
    open spec fn spec_id_text(&self) -> Seq<char> {
        self.id@
    }

    fn id_text(&self) -> (r: &str) {
        self.id.as_str()
    }
}

impl EditRecord for ItemGroupEditState {
    open spec fn spec_id_text(&self) -> Seq<char> {
        self.base.id@
    }

    fn id_text(&self) -> (r: &str) {
        self.base.id.as_str()
    }
}

impl EditRecord for TaxGroupEditState {
    open spec fn spec_id_text(&self) -> Seq<char> {
        self.base.id@
    }

    fn id_text(&self) -> (r: &str) {
        self.base.id.as_str()
    }
}

impl EditRecord for PriceLevelEditState {
    open spec fn spec_id_text(&self) -> Seq<char> {
        self.base.id@
    }

    fn id_text(&self) -> (r: &str) {
        self.base.id.as_str()
    }
}

/// Whether the edit state edits the record with this id.
pub open spec fn spec_edits<E: EditRecord>(e: E, id: EntityId) -> bool {
    spec_parse_i32(e.spec_id_text()) == Some(id)
}

/// Every edit state's id text reads as an integer.
pub open spec fn spec_edits_wf<E: EditRecord>(es: Seq<E>) -> bool {
    forall|i: int| 0 <= i < es.len() ==> (#[trigger] spec_parse_i32(es[i].spec_id_text())) is Some
}

/// The index of the first edit state for the id.
pub open spec fn spec_first_edit<E: EditRecord>(es: Seq<E>, id: EntityId) -> Option<int>
    decreases es.len(),
{
    if es.len() == 0 {
        None
    } else if spec_edits(es[0], id) {
        Some(0)
    } else {
        match spec_first_edit(es.drop_first(), id) {
            Some(j) => Some(j + 1),
            None => None,
        }
    }
}

/// The edit states without those for the id, in order.
pub open spec fn spec_without_edits<E: EditRecord>(es: Seq<E>, id: EntityId) -> Seq<E>
    decreases es.len(),
{
    if es.len() == 0 {
        es
    } else {
        (if spec_edits(es[0], id) {
            Seq::empty()
        } else {
            seq![es[0]]
        }) + spec_without_edits(es.drop_first(), id)
    }
}

proof fn lemma_first_edit_bounds<E: EditRecord>(es: Seq<E>, id: EntityId)
    ensures
        spec_first_edit(es, id) matches Some(i) ==> 0 <= i < es.len() && spec_edits(es[i], id),
    decreases es.len(),
{
    if es.len() > 0 {
        lemma_first_edit_bounds(es.drop_first(), id);
    }
}

proof fn lemma_without_wf<E: EditRecord>(es: Seq<E>, id: EntityId)
    requires
        spec_edits_wf(es),
    ensures
        spec_edits_wf(spec_without_edits(es, id)),
    decreases es.len(),
{
    if es.len() > 0 {
        assert(spec_edits_wf(es.drop_first())) by {
            assert forall|i: int| 0 <= i < es.drop_first().len() implies (#[trigger] spec_parse_i32(
                es.drop_first()[i].spec_id_text(),
            )) is Some by {
                assert(es.drop_first()[i] == es[i + 1]);
            }
        }
        lemma_without_wf(es.drop_first(), id);
        let head: Seq<E> = if spec_edits(es[0], id) {
            Seq::empty()
        } else {
            seq![es[0]]
        };
        let tail = spec_without_edits(es.drop_first(), id);
        assert(spec_without_edits(es, id) == head + tail);
        assert forall|i: int| 0 <= i < (head + tail).len() implies (#[trigger] spec_parse_i32(
            (head + tail)[i].spec_id_text(),
        )) is Some by {
            if i < head.len() {
                assert((head + tail)[i] == es[0]);
            } else {
                assert((head + tail)[i] == tail[i - head.len()]);
            }
        }
    }
}

/// The id an edit state's id text reads as.
fn edit_id<E: EditRecord>(e: &E) -> (r: EntityId)
    requires
        spec_parse_i32(e.spec_id_text()) is Some,
    ensures
        spec_parse_i32(e.spec_id_text()) == Some(r),
{
    match parse_i32_str(e.id_text()) {
        Some(v) => v,
        None => {
            assert(false);
            0
        },
    }
}

/// The index of the first edit state for the id.
pub fn find_edit<E: EditRecord>(es: &Vec<E>, id: EntityId) -> (r: Option<usize>)
    requires
        spec_edits_wf(es@),
    ensures
        match r {
            Some(i) => spec_first_edit(es@, id) == Some(i as int),
            None => spec_first_edit(es@, id) is None,
        },
        r matches Some(i) ==> i < es@.len() && spec_edits(es@[i as int], id),
{
    let mut i: usize = 0;
    proof {
        assert(es@.skip(0) =~= es@);
    }
    while i < es.len()
        invariant
            i <= es@.len(),
            spec_edits_wf(es@),
            spec_first_edit(es@, id) == match spec_first_edit(es@.skip(i as int), id) {
                Some(j) => Some(j + i),
                None => None::<int>,
            },
        decreases es.len() - i,
    {
        let ghost rest = es@.skip(i as int);
        proof {
            assert(rest[0] == es@[i as int]);
            assert(rest.drop_first() =~= es@.skip(i + 1));
            assert(spec_parse_i32(es@[i as int].spec_id_text()) is Some);
        }
        if edit_id(&es[i]) == id {
            return Some(i);
        }
        i += 1;
    }
    proof {
        assert(es@.skip(i as int) =~= Seq::<E>::empty());
    }
    None
}

/// Removes every edit state for the id, keeping the others in order.
pub fn drop_edits<E: EditRecord>(es: &mut Vec<E>, id: EntityId)
    requires
        spec_edits_wf(old(es)@),
    ensures
        final(es)@ == spec_without_edits(old(es)@, id),
        spec_edits_wf(final(es)@),
{
    let ghost es0 = es@;
    let mut i: usize = es.len();
    proof {
        assert(es0.skip(es0.len() as int) =~= Seq::<E>::empty());
        assert(es@ =~= es0.take(i as int) + spec_without_edits(es0.skip(i as int), id));
    }
    while i > 0
        invariant
            i <= es0.len(),
            spec_edits_wf(es0),
            es@ == es0.take(i as int) + spec_without_edits(es0.skip(i as int), id),
        decreases i,
    {
        let k = i - 1;
        proof {
            assert(es@[k as int] == es0[k as int]);
            assert(es0.skip(k as int)[0] == es0[k as int]);
            assert(es0.skip(k as int).drop_first() =~= es0.skip(i as int));
            assert(spec_parse_i32(es0[k as int].spec_id_text()) is Some);
        }
        let ghost tail = spec_without_edits(es0.skip(i as int), id);
        if edit_id(&es[k]) == id {
            es.remove(k);
            proof {
                assert(es@ =~= es0.take(k as int) + spec_without_edits(es0.skip(k as int), id));
            }
        } else {
            proof {
                assert(es@ =~= es0.take(k as int) + spec_without_edits(es0.skip(k as int), id));
            }
        }
        i = k;
    }
    proof {
        assert(es0.take(0) =~= Seq::<E>::empty());
        assert(es0.skip(0) =~= es0);
        assert(es@ =~= spec_without_edits(es0, id));
        lemma_without_wf(es0, id);
    }
}

// ---------------------------------------------------------------------
// Copying records
// ---------------------------------------------------------------------

/// The name of a copy: the original name and the new id in brackets.
pub open spec fn spec_copy_name(name: Seq<char>, id: EntityId) -> Seq<char> {
    name + "("@ + spec_int_text(id as int) + ")"@
}

/// Every id of the table leaves room for one more.
pub open spec fn spec_ids_below_max<T>(m: Map<EntityId, T>) -> bool {
    forall|k: EntityId| #[trigger] m.contains_key(k) ==> k < i32::MAX
}

/// `new` is `old` with one more record under `new_id`.
pub open spec fn spec_added<T>(old: Map<EntityId, T>, new: Map<EntityId, T>, new_id: EntityId) -> bool {
    &&& !old.contains_key(new_id)
    &&& new.dom() == old.dom().insert(new_id)
    &&& forall|k: EntityId| old.contains_key(k) ==> #[trigger] new[k] == old[k]
}

/// Copies the record `id` under the next free id, its name followed by the
/// new id in brackets; returns the new id.
/// The state `copy_record` leaves.
pub open spec fn spec_after_copy_record<T: Entity>(old_map: Map<EntityId, T>, new_map: Map<EntityId, T>, id: EntityId, new_id: EntityId) -> bool {
    &&& spec_next_id(old_map.dom(), new_id)
    &&& spec_added(old_map, new_map, new_id)
    &&& new_map[new_id].spec_id() == new_id
    &&& new_map[new_id].spec_name() == spec_copy_name(old_map[id].spec_name(), new_id)
    &&& new_map[new_id].spec_details() == old_map[id].spec_details()
}

pub fn copy_record<T: Entity>(map: &mut BTreeMap<EntityId, T>, id: EntityId) -> (new_id: EntityId)
    requires
        old(map)@.contains_key(id),
        spec_ids_below_max(old(map)@),
    ensures
        spec_after_copy_record(old(map)@, final(map)@, id, new_id),
{
    let next = get_next_id(map);
    let source = map.get(&id).unwrap();
    let mut name = text(source.name());
    push_str(&mut name, "(");
    let n = int_string(next);
    push_str(&mut name, n.as_str());
    push_str(&mut name, ")");
    let copy = source.with_id(next).with_name(name);
    let ghost before = map@;
    proof {
        assert(!before.contains_key(next)) by {
            if before.contains_key(next) {
                assert(before.dom().contains((next - 1) as EntityId));
            }
        }
    }
    map.insert(next, copy);
    proof {
        assert(map@.dom() =~= before.dom().insert(next));
    }
    next
}

// ---------------------------------------------------------------------
// Tables of records with a name only
// ---------------------------------------------------------------------

/// A fresh edit state for a record.
pub open spec fn spec_fresh_edit<T: Entity>(e: EditState, r: T) -> bool {
    &&& e.name@ == r.spec_name()
    &&& e.original_name@ == r.spec_name()
    &&& e.id@ == spec_int_text(r.spec_id() as int)
    &&& e.id_validation_error is None
    &&& e.name_validation_error is None
}

/// `new` is `old` with one more element at the end.
pub open spec fn spec_pushed<E>(old: Seq<E>, new: Seq<E>) -> bool {
    new.len() == old.len() + 1 && new.take(old.len() as int) == old
}

/// Opens an edit state for the record `id` unless one is open already or the
/// record does not exist.
/// The state `start_edit` leaves.
pub open spec fn spec_after_start_edit<T: Entity>(map: Map<EntityId, T>, old_edits: Seq<EditState>, new_edits: Seq<EditState>, id: EntityId) -> bool {
    &&& spec_edits_wf(new_edits)
    &&& if spec_first_edit(old_edits, id) is None && map.contains_key(id) {
        spec_pushed(old_edits, new_edits) && spec_fresh_edit(new_edits.last(), map[id])
    } else {
        new_edits == old_edits
    }
}

pub fn start_edit<T: Entity>(map: &BTreeMap<EntityId, T>, edits: &mut Vec<EditState>, id: EntityId)
    requires
        spec_edits_wf(old(edits)@),
        old(edits)@.len() < usize::MAX,
    ensures
        spec_after_start_edit(map@, old(edits)@, final(edits)@, id),
{
    if find_edit(edits, id).is_none() {
        match map.get(&id) {
            Some(r) => {
                let e = EditState::new(r);
                let ghost before = edits@;
                proof {
                    lemma_parse_int_text(r.spec_id());
                }
                edits.push(e);
                proof {
                    assert(edits@.take(before.len() as int) =~= before);
                    assert forall|i: int| 0 <= i < edits@.len() implies (#[trigger] spec_parse_i32(
                        edits@[i].spec_id_text(),
                    )) is Some by {
                        if i < before.len() {
                            assert(edits@[i] == before[i]);
                        }
                    }
                }
            },
            None => {},
        }
    }
}

/// The largest name an edit may hold, in bytes.
pub const MAX_EDIT_NAME_BYTES: usize = 16;

/// The message for a name that is too long.
pub open spec fn spec_name_too_long_message() -> Seq<char> {
    "Must be less than 16 characters"@
}

/// Renames an edit state: takes the name when it has at most 16 bytes,
/// else records the too-long error and keeps the name.
pub fn rename_edit(e: &mut EditState, new_name: String)
    ensures
        final(e).id@ == old(e).id@,
        final(e).original_name@ == old(e).original_name@,
        final(e).id_validation_error == old(e).id_validation_error,
        if crate::data_types::spec_byte_len(new_name@) < 17 {
            final(e).name@ == new_name@ && final(e).name_validation_error == old(e).name_validation_error
        } else {
            final(e).name@ == old(e).name@ && (final(e).name_validation_error matches Some(m) && m@
                == spec_name_too_long_message())
        },
{
    if new_name.as_str().len() < 17 {
        e.name = new_name;
    } else {
        e.name_validation_error = Some(text("Must be less than 16 characters"));
    }
}

/// `new` is `old` with the edit state at `i` renamed.
pub open spec fn spec_renamed(old: EditState, new: EditState, name: Seq<char>) -> bool {
    &&& new.id@ == old.id@
    &&& new.original_name@ == old.original_name@
    &&& new.id_validation_error == old.id_validation_error
    &&& if crate::data_types::spec_byte_len(name) < 17 {
        new.name@ == name && new.name_validation_error == old.name_validation_error
    } else {
        new.name@ == old.name@ && (new.name_validation_error matches Some(m) && m@
            == spec_name_too_long_message())
    }
}

/// Renames the first edit state for the id, if there is one.
/// The state `update_name` leaves.
pub open spec fn spec_after_update_name(old_edits: Seq<EditState>, new_edits: Seq<EditState>, id: EntityId, new_name: Seq<char>) -> bool {
    &&& spec_edits_wf(new_edits)
    &&& new_edits.len() == old_edits.len()
    &&& match spec_first_edit(old_edits, id) {
        Some(i) => spec_renamed(old_edits[i], new_edits[i], new_name) && forall|j: int|
            0 <= j < old_edits.len() && j != i ==> #[trigger] new_edits[j] == old_edits[j],
        None => new_edits == old_edits,
    }
}

pub fn update_name(edits: &mut Vec<EditState>, id: EntityId, new_name: String)
    requires
        spec_edits_wf(old(edits)@),
    ensures
        spec_after_update_name(old(edits)@, final(edits)@, id, new_name@),
{
    match find_edit(edits, id) {
        Some(i) => {
            let ghost before = edits@;
            let e = &mut edits[i];
            rename_edit(e, new_name);
            proof {
                assert forall|k: int| 0 <= k < edits@.len() implies (#[trigger] spec_parse_i32(
                    edits@[k].spec_id_text(),
                )) is Some by {
                    if k != i {
                        assert(edits@[k] == before[k]);
                    } else {
                        assert(edits@[k].id@ == before[k].id@);
                    }
                }
            }
        },
        None => {},
    }
}

/// Saves the first edit state for the id into the record (its name), if
/// both exist, then closes every edit state for the id.
/// The state `save_edit` leaves.
pub open spec fn spec_after_save_edit<T: Entity>(old_map: Map<EntityId, T>, new_map: Map<EntityId, T>, old_edits: Seq<EditState>, new_edits: Seq<EditState>, id: EntityId) -> bool {
    &&& new_edits == spec_without_edits(old_edits, id)
    &&& spec_edits_wf(new_edits)
    &&& match spec_first_edit(old_edits, id) {
        Some(i) => if old_map.contains_key(id) {
            &&& new_map.dom() == old_map.dom()
            &&& forall|k: EntityId| k != id && old_map.contains_key(k) ==> #[trigger] new_map[k] == old_map[k]
            &&& new_map[id].spec_id() == old_map[id].spec_id()
            &&& new_map[id].spec_name() == old_edits[i].name@
            &&& new_map[id].spec_details() == old_map[id].spec_details()
        } else {
            new_map == old_map
        },
        None => new_map == old_map,
    }
}

pub fn save_edit<T: Entity>(map: &mut BTreeMap<EntityId, T>, edits: &mut Vec<EditState>, id: EntityId)
    requires
        spec_edits_wf(old(edits)@),
    ensures
        spec_after_save_edit(old(map)@, final(map)@, old(edits)@, final(edits)@, id),
{
    match find_edit(edits, id) {
        Some(i) => {
            let name = edits[i].name.clone();
            match map.get(&id) {
                Some(r) => {
                    let updated = r.with_name(name);
                    let ghost before = map@;
                    map.insert(id, updated);
                    proof {
                        assert(map@.dom() =~= before.dom());
                    }
                },
                None => {},
            }
        },
        None => {},
    }
    drop_edits(edits, id);
}

/// Creates a record with the next free id and an empty name, and opens an
/// edit state for it; returns the new id.
/// The state `create_record` leaves.
pub open spec fn spec_after_create_record<T: Entity>(old_map: Map<EntityId, T>, new_map: Map<EntityId, T>, old_edits: Seq<EditState>, new_edits: Seq<EditState>, new_id: EntityId) -> bool {
    &&& spec_next_id(old_map.dom(), new_id)
    &&& spec_added(old_map, new_map, new_id)
    &&& crate::entity_component::spec_is_default_with(&new_map[new_id], new_id, Seq::empty())
    &&& spec_pushed(old_edits, new_edits)
    &&& spec_fresh_edit(new_edits.last(), new_map[new_id])
    &&& spec_edits_wf(new_edits)
}

pub fn create_record<T: Entity>(map: &mut BTreeMap<EntityId, T>, edits: &mut Vec<EditState>) -> (new_id: EntityId)
    requires
        spec_ids_below_max(old(map)@),
        spec_edits_wf(old(edits)@),
        old(edits)@.len() < usize::MAX,
    ensures
        spec_after_create_record(old(map)@, final(map)@, old(edits)@, final(edits)@, new_id),
{
    let next = get_next_id(map);
    let blank = T::default_with(next, String::new());
    let e = EditState::new(&blank);
    let ghost before = map@;
    proof {
        assert(!before.contains_key(next)) by {
            if before.contains_key(next) {
                assert(before.dom().contains((next - 1) as EntityId));
            }
        }
        lemma_parse_int_text(next);
    }
    map.insert(next, blank);
    proof {
        assert(map@.dom() =~= before.dom().insert(next));
    }
    let ghost eb = edits@;
    edits.push(e);
    proof {
        assert(edits@.take(eb.len() as int) =~= eb);
        assert forall|i: int| 0 <= i < edits@.len() implies (#[trigger] spec_parse_i32(
            edits@[i].spec_id_text(),
        )) is Some by {
            if i < eb.len() {
                assert(edits@[i] == eb[i]);
            }
        }
    }
    next
}

/// Closes the edit states for the record `id`; when one was open and the
/// record's name is empty, the record is removed too.
/// The state `cancel_edit` leaves.
pub open spec fn spec_after_cancel_edit<T: Entity>(old_map: Map<EntityId, T>, new_map: Map<EntityId, T>, old_edits: Seq<EditState>, new_edits: Seq<EditState>, id: EntityId) -> bool {
    &&& new_edits == spec_without_edits(old_edits, id)
    &&& spec_edits_wf(new_edits)
    &&& new_map == if spec_first_edit(old_edits, id) is Some && old_map[id].spec_name().len() == 0 {
        old_map.remove(id)
    } else {
        old_map
    }
}

pub fn cancel_edit<T: Entity>(map: &mut BTreeMap<EntityId, T>, edits: &mut Vec<EditState>, id: EntityId)
    requires
        old(map)@.contains_key(id),
        spec_edits_wf(old(edits)@),
    ensures
        spec_after_cancel_edit(old(map)@, final(map)@, old(edits)@, final(edits)@, id),
{
    if find_edit(edits, id).is_some() {
        let r = map.get(&id).unwrap();
        let name = chars_of(r.name());
        if name.len() < 1 {
            map.remove(&id);
        }
    }
    drop_edits(edits, id);
}

// ---------------------------------------------------------------------
// Creating and cancelling
// ---------------------------------------------------------------------

proof fn lemma_first_edit_push<E: EditRecord>(es: Seq<E>, x: E, id: EntityId)
    ensures
        spec_first_edit(es.push(x), id) == match spec_first_edit(es, id) {
            Some(i) => Some(i),
            None => if spec_edits(x, id) {
                Some(es.len() as int)
            } else {
                None
            },
        },
    decreases es.len(),
{
    if es.len() == 0 {
        assert(es.push(x).drop_first() =~= Seq::<E>::empty());
        assert(es.push(x)[0] == x);
    } else {
        assert(es.push(x).drop_first() =~= es.drop_first().push(x));
        assert(es.push(x)[0] == es[0]);
        lemma_first_edit_push(es.drop_first(), x, id);
    }
}

proof fn lemma_without_edits_push<E: EditRecord>(es: Seq<E>, x: E, id: EntityId)
    ensures
        spec_without_edits(es.push(x), id) == spec_without_edits(es, id) + if spec_edits(x, id) {
            Seq::<E>::empty()
        } else {
            seq![x]
        },
    decreases es.len(),
{
    if es.len() == 0 {
        assert(es.push(x).drop_first() =~= Seq::<E>::empty());
        assert(es.push(x)[0] == x);
        assert(spec_without_edits(Seq::<E>::empty(), id) == Seq::<E>::empty());
        assert(es =~= Seq::<E>::empty());
        assert(spec_without_edits(es.push(x), id) == (if spec_edits(x, id) {
            Seq::<E>::empty()
        } else {
            seq![x]
        }) + spec_without_edits(es.push(x).drop_first(), id));
        assert(spec_without_edits(es.push(x), id) =~= spec_without_edits(es, id) + if spec_edits(x, id) {
            Seq::<E>::empty()
        } else {
            seq![x]
        });
    } else {
        assert(es.push(x).drop_first() =~= es.drop_first().push(x));
        assert(es.push(x)[0] == es[0]);
        lemma_without_edits_push(es.drop_first(), x, id);
        assert(spec_without_edits(es.push(x), id) =~= spec_without_edits(es, id) + if spec_edits(x, id) {
            Seq::<E>::empty()
        } else {
            seq![x]
        });
    }
}

proof fn lemma_without_absent<E: EditRecord>(es: Seq<E>, id: EntityId)
    requires
        spec_first_edit(es, id) is None,
    ensures
        spec_without_edits(es, id) == es,
    decreases es.len(),
{
    if es.len() > 0 {
        lemma_without_absent(es.drop_first(), id);
        assert(seq![es[0]] + es.drop_first() =~= es);
    }
}

/// Creating a record and then cancelling its edit leaves the table and the
/// open edits as they were, when no edit was open for the new id.
pub proof fn lemma_create_then_cancel<T: Entity>(
    m0: Map<EntityId, T>,
    m1: Map<EntityId, T>,
    m2: Map<EntityId, T>,
    e0: Seq<EditState>,
    e1: Seq<EditState>,
    e2: Seq<EditState>,
    n: EntityId,
)
    requires
        spec_after_create_record(m0, m1, e0, e1, n),
        spec_after_cancel_edit(m1, m2, e1, e2, n),
        spec_first_edit(e0, n) is None,
    ensures
        m2 == m0,
        e2 == e0,
{
    let x = e1.last();
    assert(e1 == e0.push(x)) by {
        assert(e1.take(e0.len() as int) == e0);
        assert(e1 =~= e0.push(x));
    }
    assert(m1[n].spec_id() == n);
    lemma_parse_int_text(n);
    assert(spec_edits(x, n));
    lemma_first_edit_push(e0, x, n);
    assert(spec_first_edit(e1, n) is Some);
    assert(m1[n].spec_name().len() == 0);
    assert(m2 == m1.remove(n));
    assert(m2 =~= m0);
    lemma_without_edits_push(e0, x, n);
    lemma_without_absent(e0, n);
    assert(e2 =~= e0);
}

// ---------------------------------------------------------------------
// Tables whose edit states carry more than a name
// ---------------------------------------------------------------------

/// Closes every edit state whose id is written in `edits` and keeps the
/// others; `new` is `old` with the edit state at `i` changed to `e`.
pub open spec fn spec_updated_at<E>(old: Seq<E>, new: Seq<E>, i: int) -> bool {
    new.len() == old.len() && forall|j: int| 0 <= j < old.len() && j != i ==> #[trigger] new[j] == old[j]
}

proof fn lemma_wf_after_update<E: EditRecord>(old: Seq<E>, new: Seq<E>, i: int)
    requires
        spec_edits_wf(old),
        spec_updated_at(old, new, i),
        0 <= i < old.len(),
        new[i].spec_id_text() == old[i].spec_id_text(),
    ensures
        spec_edits_wf(new),
{
    assert forall|k: int| 0 <= k < new.len() implies (#[trigger] spec_parse_i32(
        new[k].spec_id_text(),
    )) is Some by {
        if k != i {
            assert(new[k] == old[k]);
        }
    }
}

proof fn lemma_wf_after_push<E: EditRecord>(old: Seq<E>, new: Seq<E>)
    requires
        spec_edits_wf(old),
        spec_pushed(old, new),
        spec_parse_i32(new.last().spec_id_text()) is Some,
    ensures
        spec_edits_wf(new),
{
    assert forall|k: int| 0 <= k < new.len() implies (#[trigger] spec_parse_i32(
        new[k].spec_id_text(),
    )) is Some by {
        if k < old.len() {
            assert(new[k] == new.take(old.len() as int)[k]);
        }
    }
}

/// Opens an edit state for the item group `id` unless one is open already
/// or the group does not exist.
/// The state `start_item_group_edit` leaves.
pub open spec fn spec_after_start_item_group_edit(map: Map<EntityId, ItemGroup>, old_edits: Seq<ItemGroupEditState>, new_edits: Seq<ItemGroupEditState>, id: EntityId) -> bool {
    &&& spec_edits_wf(new_edits)
    &&& if spec_first_edit(old_edits, id) is None && map.contains_key(id) {
        &&& spec_pushed(old_edits, new_edits)
        &&& crate::item_groups::spec_opened_edit(map[id], new_edits.last())
    } else {
        new_edits == old_edits
    }
}

pub fn start_item_group_edit(map: &BTreeMap<EntityId, ItemGroup>, edits: &mut Vec<ItemGroupEditState>, id: EntityId)
    requires
        spec_edits_wf(old(edits)@),
        old(edits)@.len() < usize::MAX,
    ensures
        spec_after_start_item_group_edit(map@, old(edits)@, final(edits)@, id),
{
    if find_edit(edits, id).is_none() {
        match map.get(&id) {
            Some(g) => {
                let e = ItemGroupEditState::new(g);
                let ghost before = edits@;
                proof {
                    lemma_parse_int_text(g.id);
                }
                edits.push(e);
                proof {
                    assert(edits@.take(before.len() as int) =~= before);
                    lemma_wf_after_push(before, edits@);
                }
            },
            None => {},
        }
    }
}

/// Renames the first edit state for the item group, if there is one.
/// The state `update_item_group_name` leaves.
pub open spec fn spec_after_update_item_group_name(old_edits: Seq<ItemGroupEditState>, new_edits: Seq<ItemGroupEditState>, id: EntityId, new_name: Seq<char>) -> bool {
    &&& spec_edits_wf(new_edits)
    &&& match spec_first_edit(old_edits, id) {
        Some(i) => spec_updated_at(old_edits, new_edits, i) && spec_renamed(
            old_edits[i].base,
            new_edits[i].base,
            new_name,
        ) && new_edits[i].id_range_start@ == old_edits[i].id_range_start@
            && new_edits[i].id_range_end@ == old_edits[i].id_range_end@,
        None => new_edits == old_edits,
    }
}

pub fn update_item_group_name(edits: &mut Vec<ItemGroupEditState>, id: EntityId, new_name: String)
    requires
        spec_edits_wf(old(edits)@),
    ensures
        spec_after_update_item_group_name(old(edits)@, final(edits)@, id, new_name@),
{
    match find_edit(edits, id) {
        Some(i) => {
            let ghost before = edits@;
            let e = &mut edits[i];
            rename_edit(&mut e.base, new_name);
            proof {
                lemma_wf_after_update(before, edits@, i as int);
            }
        },
        None => {},
    }
}

/// Replaces the range start text of the first edit state for the group.
/// The state `update_item_group_range_start` leaves.
pub open spec fn spec_after_update_item_group_range_start(old_edits: Seq<ItemGroupEditState>, new_edits: Seq<ItemGroupEditState>, id: EntityId, start: Seq<char>) -> bool {
    &&& spec_edits_wf(new_edits)
    &&& match spec_first_edit(old_edits, id) {
        Some(i) => spec_updated_at(old_edits, new_edits, i)
            && new_edits[i].id_range_start@ == start
            && new_edits[i].base == old_edits[i].base
            && new_edits[i].id_range_end == old_edits[i].id_range_end,
        None => new_edits == old_edits,
    }
}

pub fn update_item_group_range_start(edits: &mut Vec<ItemGroupEditState>, id: EntityId, start: String)
    requires
        spec_edits_wf(old(edits)@),
    ensures
        spec_after_update_item_group_range_start(old(edits)@, final(edits)@, id, start@),
{
    match find_edit(edits, id) {
        Some(i) => {
            let ghost before = edits@;
            let e = &mut edits[i];
            e.id_range_start = start;
            proof {
                lemma_wf_after_update(before, edits@, i as int);
            }
        },
        None => {},
    }
}

/// Replaces the range end text of the first edit state for the group.
/// The state `update_item_group_range_end` leaves.
pub open spec fn spec_after_update_item_group_range_end(old_edits: Seq<ItemGroupEditState>, new_edits: Seq<ItemGroupEditState>, id: EntityId, end: Seq<char>) -> bool {
    &&& spec_edits_wf(new_edits)
    &&& match spec_first_edit(old_edits, id) {
        Some(i) => spec_updated_at(old_edits, new_edits, i)
            && new_edits[i].id_range_end@ == end
            && new_edits[i].base == old_edits[i].base
            && new_edits[i].id_range_start == old_edits[i].id_range_start,
        None => new_edits == old_edits,
    }
}

pub fn update_item_group_range_end(edits: &mut Vec<ItemGroupEditState>, id: EntityId, end: String)
    requires
        spec_edits_wf(old(edits)@),
    ensures
        spec_after_update_item_group_range_end(old(edits)@, final(edits)@, id, end@),
{
    match find_edit(edits, id) {
        Some(i) => {
            let ghost before = edits@;
            let e = &mut edits[i];
            e.id_range_end = end;
            proof {
                lemma_wf_after_update(before, edits@, i as int);
            }
        },
        None => {},
    }
}

/// The groups of the table in key order, without those whose id is `id`.
pub open spec fn spec_groups_except<'a>(keys: Seq<EntityId>, m: &'a Map<EntityId, ItemGroup>, id: EntityId) -> Seq<&'a ItemGroup>
    decreases keys.len(),
{
    if keys.len() == 0 {
        Seq::empty()
    } else {
        let rest = spec_groups_except(keys.drop_last(), m, id);
        if m[keys.last()].id != id {
            rest.push(&m[keys.last()])
        } else {
            rest
        }
    }
}

/// Whether `keys` lists the keys of the table, each once.
pub open spec fn spec_key_order<V>(keys: Seq<EntityId>, m: Map<EntityId, V>) -> bool {
    keys.to_set() == m.dom() && keys.no_duplicates()
}

/// The other groups of the table, in key order.
fn other_groups(map: &BTreeMap<EntityId, ItemGroup>, id: EntityId) -> (r: Vec<&ItemGroup>)
    ensures
        exists|keys: Seq<EntityId>| spec_key_order(keys, map@) && r@ == spec_groups_except(keys, &map@, id),
{
    let ghost ks = vstd::std_specs::btree::spec_keys_iter(map).remaining();
    let ghost keys = ks.unref();
    let mut r: Vec<&ItemGroup> = Vec::new();
    let ghost mut n: int = 0;
    proof {
        assert(keys.take(0) =~= Seq::<EntityId>::empty());
    }
    for k in it: map.keys()
        invariant
            it.seq() == ks,
            keys == ks.unref(),
            keys.to_set() == map@.dom(),
            n == it.index(),
            r@ == spec_groups_except(keys.take(n), &map@, id),
    {
        proof {
            assert(keys[n] == *ks[n]);
            assert(keys.to_set().contains(keys[n]));
            assert(keys.take(n + 1).drop_last() =~= keys.take(n));
            assert(keys.take(n + 1).last() == keys[n]);
        }
        let g = map.get(k).unwrap();
        if g.id != id {
            r.push(g);
        }
        proof {
            n = n + 1;
        }
    }
    proof {
        assert(n == ks.len());
        assert(keys.take(n) =~= keys);
        assert(ks.no_duplicates());
        assert(keys.no_duplicates()) by {
            assert forall|i: int, j: int| 0 <= i < keys.len() && 0 <= j < keys.len() && i != j implies keys[i] != keys[j] by {
                assert(keys[i] == *ks[i]);
                assert(keys[j] == *ks[j]);
            }
        }
        assert(spec_key_order(keys, map@) && r@ == spec_groups_except(keys, &map@, id));
    }
    r
}

proof fn lemma_key_order_exists<V>(m: &BTreeMap<EntityId, V>)
    ensures
        exists|keys: Seq<EntityId>| spec_key_order(keys, m@),
{
    vstd::std_specs::btree::axiom_spec_keys_iter(m);
    let ks = vstd::std_specs::btree::spec_keys_iter(m).remaining();
    let keys = ks.unref();
    assert(keys.no_duplicates()) by {
        assert forall|i: int, j: int| 0 <= i < keys.len() && 0 <= j < keys.len() && i != j implies keys[i] != keys[j] by {
            assert(keys[i] == *ks[i]);
            assert(keys[j] == *ks[j]);
        }
    }
    assert(spec_key_order(keys, m@));
}

/// `new` is `old` with the record `id` (if any) given a new name and range.
pub open spec fn spec_group_saved(
    old: Map<EntityId, ItemGroup>,
    new: Map<EntityId, ItemGroup>,
    id: EntityId,
    name: Seq<char>,
    start: EntityId,
    end: EntityId,
) -> bool {
    if old.contains_key(id) {
        &&& new.dom() == old.dom()
        &&& forall|k: EntityId| k != id && old.contains_key(k) ==> #[trigger] new[k] == old[k]
        &&& new[id].id == old[id].id
        &&& new[id].name@ == name
        &&& new[id].id_range.start == start
        &&& new[id].id_range.end == end
    } else {
        new == old
    }
}

/// The edit state after a failed check: the message is put on the id, the
/// name or the range, by the kind of failure; nothing else changes.
pub open spec fn spec_group_error_recorded(
    old: ItemGroupEditState,
    new: ItemGroupEditState,
    kind: ErrorKind,
    msg: Seq<char>,
) -> bool {
    &&& new.base.name == old.base.name
    &&& new.base.original_name == old.base.original_name
    &&& new.base.id == old.base.id
    &&& new.id_range_start == old.id_range_start
    &&& new.id_range_end == old.id_range_end
    &&& new.original_id_range_start == old.original_id_range_start
    &&& new.original_id_range_end == old.original_id_range_end
    &&& match kind {
        ErrorKind::InvalidId | ErrorKind::DuplicateId => new.base.id_validation_error matches Some(m)
            && m@ == msg && new.base.name_validation_error == old.base.name_validation_error
            && new.range_validation_error == old.range_validation_error,
        ErrorKind::EmptyName | ErrorKind::NameTooLong => new.base.name_validation_error matches Some(
            m,
        ) && m@ == msg && new.base.id_validation_error == old.base.id_validation_error
            && new.range_validation_error == old.range_validation_error,
        _ => new.range_validation_error matches Some(m) && m@ == msg
            && new.base.id_validation_error == old.base.id_validation_error
            && new.base.name_validation_error == old.base.name_validation_error,
    }
}

/// What saving the edit of item group `id` does, the other groups taken in
/// the key order `keys`.
pub open spec fn spec_item_group_saved(
    old_map: Map<EntityId, ItemGroup>,
    new_map: Map<EntityId, ItemGroup>,
    old_edits: Seq<ItemGroupEditState>,
    new_edits: Seq<ItemGroupEditState>,
    id: EntityId,
    keys: Seq<EntityId>,
) -> bool {
    match spec_first_edit(old_edits, id) {
        None => new_map == old_map && new_edits == old_edits,
        Some(i) => {
            let e = old_edits[i];
            match (spec_parse_i32(e.id_range_start@), spec_parse_i32(e.id_range_end@)) {
                (Some(start), Some(end)) => match spec_validate_parts(
                    id,
                    e.base.name@,
                    start,
                    end,
                    spec_groups_except(keys, &old_map, id),
                ) {
                    Ok(()) => spec_group_saved(old_map, new_map, id, e.base.name@, start, end)
                        && new_edits == spec_without_edits(old_edits, id),
                    Err((kind, msg)) => new_map == old_map && spec_updated_at(old_edits, new_edits, i)
                        && spec_group_error_recorded(e, new_edits[i], kind, msg),
                },
                _ => {
                    &&& new_map == old_map
                    &&& spec_updated_at(old_edits, new_edits, i)
                    &&& new_edits[i].base == e.base
                    &&& new_edits[i].id_range_start == e.id_range_start
                    &&& new_edits[i].id_range_end == e.id_range_end
                    &&& new_edits[i].original_id_range_start == e.original_id_range_start
                    &&& new_edits[i].original_id_range_end == e.original_id_range_end
                    &&& new_edits[i].range_validation_error matches Some(m) && m@
                        == "Invalid range format"@
                },
            }
        },
    }
}

/// Saves the edit of item group `id`: when both range bounds read and the
/// group with the edited name and range passes its checks against the other
/// groups, the group takes them and the edit closes; otherwise the edit
/// keeps the error.
/// The state `save_item_group` leaves.
pub open spec fn spec_after_save_item_group(old_map: Map<EntityId, ItemGroup>, new_map: Map<EntityId, ItemGroup>, old_edits: Seq<ItemGroupEditState>, new_edits: Seq<ItemGroupEditState>, id: EntityId) -> bool {
    &&& spec_edits_wf(new_edits)
    &&& exists|keys: Seq<EntityId>| spec_key_order(keys, old_map) && spec_item_group_saved(
        old_map,
        new_map,
        old_edits,
        new_edits,
        id,
        keys,
    )
}

pub fn save_item_group(map: &mut BTreeMap<EntityId, ItemGroup>, edits: &mut Vec<ItemGroupEditState>, id: EntityId)
    requires
        spec_edits_wf(old(edits)@),
    ensures
        spec_after_save_item_group(old(map)@, final(map)@, old(edits)@, final(edits)@, id),
{
    proof {
        lemma_key_order_exists(&*map);
    }
    let ghost any_keys = choose|keys: Seq<EntityId>| spec_key_order(keys, map@);
    let i = match find_edit(edits, id) {
        Some(i) => i,
        None => {
            assert(spec_item_group_saved(old(map)@, map@, old(edits)@, edits@, id, any_keys));
            return;
        },
    };
    let ghost e0 = edits@[i as int];
    let start = parse_i32_str(edits[i].id_range_start.as_str());
    let end = parse_i32_str(edits[i].id_range_end.as_str());
    match (start, end) {
        (Some(start), Some(end)) => {
            let updated = ItemGroup {
                id: id,
                name: edits[i].base.name.clone(),
                id_range: Range { start: start, end: end },
            };
            let others = other_groups(map, id);
            let check = updated.validate(others.as_slice());
            let ghost w = choose|keys: Seq<EntityId>| spec_key_order(keys, map@) && others@ == spec_groups_except(keys, &map@, id);
            match check {
                Ok(()) => {
                    match map.get(&id) {
                        Some(g) => {
                            let saved = ItemGroup {
                                id: g.id,
                                name: edits[i].base.name.clone(),
                                id_range: Range { start: start, end: end },
                            };
                            let ghost before = map@;
                            map.insert(id, saved);
                            proof {
                                assert(map@.dom() =~= before.dom());
                            }
                        },
                        None => {},
                    }
                    drop_edits(edits, id);
                },
                Err(error) => {
                    let ghost before = edits@;
                    let e = &mut edits[i];
                    match error {
                        ValidationError::InvalidId(msg) | ValidationError::DuplicateId(msg) => {
                            e.base.id_validation_error = Some(msg);
                        },
                        ValidationError::EmptyName(msg) | ValidationError::NameTooLong(msg) => {
                            e.base.name_validation_error = Some(msg);
                        },
                        ValidationError::RangeOverlap(msg) | ValidationError::InvalidValue(msg) => {
                            e.range_validation_error = Some(msg);
                        },
                        other => {
                            e.range_validation_error = Some(other.message().clone());
                        },
                    }
                    proof {
                        lemma_wf_after_update(before, edits@, i as int);
                    }
                },
            }
        },
        _ => {
            let ghost before = edits@;
            let e = &mut edits[i];
            e.range_validation_error = Some(text("Invalid range format"));
            proof {
                lemma_wf_after_update(before, edits@, i as int);
            }
        },
    }
}

/// A record added under the next free id, and the edit state opened for it
/// at the end of the list.
pub open spec fn spec_created<T, E>(
    old_map: Map<EntityId, T>,
    new_map: Map<EntityId, T>,
    old_edits: Seq<E>,
    new_edits: Seq<E>,
    new_id: EntityId,
) -> bool {
    &&& spec_next_id(old_map.dom(), new_id)
    &&& spec_added(old_map, new_map, new_id)
    &&& spec_pushed(old_edits, new_edits)
}

/// Creates an item group with the next free id, an empty name and the range
/// `0..0`, and opens an edit state for it; returns the new id.
/// The state `create_item_group` leaves.
pub open spec fn spec_after_create_item_group(old_map: Map<EntityId, ItemGroup>, new_map: Map<EntityId, ItemGroup>, old_edits: Seq<ItemGroupEditState>, new_edits: Seq<ItemGroupEditState>, new_id: EntityId) -> bool {
    &&& spec_created(old_map, new_map, old_edits, new_edits, new_id)
    &&& new_map[new_id].id == new_id
    &&& new_map[new_id].name@ == Seq::<char>::empty()
    &&& new_map[new_id].id_range.start == 0 && new_map[new_id].id_range.end == 0
    &&& crate::item_groups::spec_opened_edit(new_map[new_id], new_edits.last())
    &&& spec_edits_wf(new_edits)
}

pub fn create_item_group(map: &mut BTreeMap<EntityId, ItemGroup>, edits: &mut Vec<ItemGroupEditState>) -> (new_id: EntityId)
    requires
        spec_ids_below_max(old(map)@),
        spec_edits_wf(old(edits)@),
        old(edits)@.len() < usize::MAX,
    ensures
        spec_after_create_item_group(old(map)@, final(map)@, old(edits)@, final(edits)@, new_id),
{
    let next = get_next_id(map);
    let group = ItemGroup { id: next, name: String::new(), id_range: Range { start: 0, end: 0 } };
    let e = ItemGroupEditState::new(&group);
    let ghost before = map@;
    proof {
        assert(!before.contains_key(next)) by {
            if before.contains_key(next) {
                assert(before.dom().contains((next - 1) as EntityId));
            }
        }
        lemma_parse_int_text(next);
    }
    map.insert(next, group);
    proof {
        assert(map@.dom() =~= before.dom().insert(next));
    }
    let ghost eb = edits@;
    edits.push(e);
    proof {
        assert(edits@.take(eb.len() as int) =~= eb);
        lemma_wf_after_push(eb, edits@);
    }
    next
}

/// Closes the edit states of item group `id`; when one was open, its name or
/// a range bound is empty, and the group has no name, the group is removed.
/// The state `cancel_item_group_edit` leaves.
pub open spec fn spec_after_cancel_item_group_edit(old_map: Map<EntityId, ItemGroup>, new_map: Map<EntityId, ItemGroup>, old_edits: Seq<ItemGroupEditState>, new_edits: Seq<ItemGroupEditState>, id: EntityId) -> bool {
    &&& new_edits == spec_without_edits(old_edits, id)
    &&& spec_edits_wf(new_edits)
    &&& new_map == match spec_first_edit(old_edits, id) {
        Some(i) => if (old_edits[i].base.name@.len() == 0 || old_edits[i].id_range_end@.len()
            == 0 || old_edits[i].id_range_start@.len() == 0) && old_map[id].name@.len() == 0 {
            old_map.remove(id)
        } else {
            old_map
        },
        None => old_map,
    }
}

pub fn cancel_item_group_edit(map: &mut BTreeMap<EntityId, ItemGroup>, edits: &mut Vec<ItemGroupEditState>, id: EntityId)
    requires
        old(map)@.contains_key(id),
        spec_edits_wf(old(edits)@),
    ensures
        spec_after_cancel_item_group_edit(old(map)@, final(map)@, old(edits)@, final(edits)@, id),
{
    match find_edit(edits, id) {
        Some(i) => {
            let g = map.get(&id).unwrap();
            let gname = chars_of(g.name.as_str());
            let ename = chars_of(edits[i].base.name.as_str());
            let rend = chars_of(edits[i].id_range_end.as_str());
            let rstart = chars_of(edits[i].id_range_start.as_str());
            if (ename.len() == 0 || rend.len() == 0 || rstart.len() == 0) && gname.len() < 1 {
                map.remove(&id);
            }
        },
        None => {},
    }
    drop_edits(edits, id);
}

/// A tax group's rate can be shown as a percentage.
pub open spec fn spec_rate_showable(g: TaxGroup) -> bool {
    crate::tax_groups::spec_percentage_defined(g.rate)
}

/// Opens an edit state for tax group `id` unless one is open already or the
/// group does not exist.
/// The state `start_tax_group_edit` leaves.
pub open spec fn spec_after_start_tax_group_edit(map: Map<EntityId, TaxGroup>, old_edits: Seq<TaxGroupEditState>, new_edits: Seq<TaxGroupEditState>, id: EntityId) -> bool {
    &&& spec_edits_wf(new_edits)
    &&& if spec_first_edit(old_edits, id) is None && map.contains_key(id) {
        &&& spec_pushed(old_edits, new_edits)
        &&& crate::tax_groups::spec_opened_edit(map[id], new_edits.last())
    } else {
        new_edits == old_edits
    }
}

pub fn start_tax_group_edit(map: &BTreeMap<EntityId, TaxGroup>, edits: &mut Vec<TaxGroupEditState>, id: EntityId)
    requires
        spec_edits_wf(old(edits)@),
        old(edits)@.len() < usize::MAX,
        map@.contains_key(id) ==> spec_rate_showable(map@[id]),
    ensures
        spec_after_start_tax_group_edit(map@, old(edits)@, final(edits)@, id),
{
    if find_edit(edits, id).is_none() {
        match map.get(&id) {
            Some(g) => {
                let e = TaxGroupEditState::new(g);
                let ghost before = edits@;
                proof {
                    lemma_parse_int_text(g.id);
                }
                edits.push(e);
                proof {
                    assert(edits@.take(before.len() as int) =~= before);
                    lemma_wf_after_push(before, edits@);
                }
            },
            None => {},
        }
    }
}

/// Renames the first edit state for the tax group, if there is one.
/// The state `update_tax_group_name` leaves.
pub open spec fn spec_after_update_tax_group_name(old_edits: Seq<TaxGroupEditState>, new_edits: Seq<TaxGroupEditState>, id: EntityId, new_name: Seq<char>) -> bool {
    &&& spec_edits_wf(new_edits)
    &&& match spec_first_edit(old_edits, id) {
        Some(i) => spec_updated_at(old_edits, new_edits, i) && spec_renamed(
            old_edits[i].base,
            new_edits[i].base,
            new_name,
        ) && new_edits[i].rate == old_edits[i].rate,
        None => new_edits == old_edits,
    }
}

pub fn update_tax_group_name(edits: &mut Vec<TaxGroupEditState>, id: EntityId, new_name: String)
    requires
        spec_edits_wf(old(edits)@),
    ensures
        spec_after_update_tax_group_name(old(edits)@, final(edits)@, id, new_name@),
{
    match find_edit(edits, id) {
        Some(i) => {
            let ghost before = edits@;
            let e = &mut edits[i];
            rename_edit(&mut e.base, new_name);
            proof {
                lemma_wf_after_update(before, edits@, i as int);
            }
        },
        None => {},
    }
}

/// Replaces the rate text of the first edit state for the tax group.
/// The state `update_tax_rate` leaves.
pub open spec fn spec_after_update_tax_rate(old_edits: Seq<TaxGroupEditState>, new_edits: Seq<TaxGroupEditState>, id: EntityId, rate: Seq<char>) -> bool {
    &&& spec_edits_wf(new_edits)
    &&& match spec_first_edit(old_edits, id) {
        Some(i) => spec_updated_at(old_edits, new_edits, i) && new_edits[i].rate@ == rate
            && new_edits[i].base == old_edits[i].base,
        None => new_edits == old_edits,
    }
}

pub fn update_tax_rate(edits: &mut Vec<TaxGroupEditState>, id: EntityId, rate: String)
    requires
        spec_edits_wf(old(edits)@),
    ensures
        spec_after_update_tax_rate(old(edits)@, final(edits)@, id, rate@),
{
    match find_edit(edits, id) {
        Some(i) => {
            let ghost before = edits@;
            let e = &mut edits[i];
            e.rate = rate;
            proof {
                lemma_wf_after_update(before, edits@, i as int);
            }
        },
        None => {},
    }
}

/// Saves the first edit state of tax group `id` into the group: its name,
/// and its rate text read as a percentage and divided by 100. Then every
/// edit state for the group closes.
/// The state `save_tax_group` leaves.
pub open spec fn spec_after_save_tax_group(old_map: Map<EntityId, TaxGroup>, new_map: Map<EntityId, TaxGroup>, old_edits: Seq<TaxGroupEditState>, new_edits: Seq<TaxGroupEditState>, id: EntityId) -> bool {
    &&& new_edits == spec_without_edits(old_edits, id)
    &&& spec_edits_wf(new_edits)
    &&& match spec_first_edit(old_edits, id) {
        Some(i) => if old_map.contains_key(id) {
            &&& new_map.dom() == old_map.dom()
            &&& forall|k: EntityId| k != id && old_map.contains_key(k) ==> #[trigger] new_map[k] == old_map[k]
            &&& new_map[id].id == old_map[id].id
            &&& new_map[id].name@ == old_edits[i].base.name@
            &&& spec_parse(old_edits[i].rate@) matches Some(pct)
                && new_map[id].rate == crate::tax_groups::spec_rate_from_percentage(pct)
        } else {
            new_map == old_map
        },
        None => new_map == old_map,
    }
}

pub fn save_tax_group(map: &mut BTreeMap<EntityId, TaxGroup>, edits: &mut Vec<TaxGroupEditState>, id: EntityId)
    requires
        spec_edits_wf(old(edits)@),
        old(map)@.contains_key(id) ==> (spec_first_edit(old(edits)@, id) matches Some(i) ==> spec_parse(
            old(edits)@[i].rate@,
        ) is Some),
    ensures
        spec_after_save_tax_group(old(map)@, final(map)@, old(edits)@, final(edits)@, id),
{
    match find_edit(edits, id) {
        Some(i) => {
            match map.get(&id) {
                Some(g) => {
                    let rate = match crate::money::parse_amount(edits[i].rate.as_str()) {
                        Some(pct) => crate::tax_groups::rate_from_percentage(pct),
                        None => {
                            assert(false);
                            Amount::zero()
                        },
                    };
                    let saved = TaxGroup { id: g.id, name: edits[i].base.name.clone(), rate: rate };
                    let ghost before = map@;
                    map.insert(id, saved);
                    proof {
                        assert(map@.dom() =~= before.dom());
                    }
                },
                None => {},
            }
        },
        None => {},
    }
    drop_edits(edits, id);
}

/// Creates a tax group with the next free id, an empty name and the rate
/// `0.00`, and opens an edit state for it; returns the new id.
/// The state `create_tax_group` leaves.
pub open spec fn spec_after_create_tax_group(old_map: Map<EntityId, TaxGroup>, new_map: Map<EntityId, TaxGroup>, old_edits: Seq<TaxGroupEditState>, new_edits: Seq<TaxGroupEditState>, new_id: EntityId) -> bool {
    &&& spec_created(old_map, new_map, old_edits, new_edits, new_id)
    &&& new_map[new_id].id == new_id
    &&& new_map[new_id].name@ == Seq::<char>::empty()
    &&& new_map[new_id].rate == (Amount { mantissa: 0, scale: 2 })
    &&& crate::tax_groups::spec_opened_edit(new_map[new_id], new_edits.last())
    &&& spec_edits_wf(new_edits)
}

pub fn create_tax_group(map: &mut BTreeMap<EntityId, TaxGroup>, edits: &mut Vec<TaxGroupEditState>) -> (new_id: EntityId)
    requires
        spec_ids_below_max(old(map)@),
        spec_edits_wf(old(edits)@),
        old(edits)@.len() < usize::MAX,
    ensures
        spec_after_create_tax_group(old(map)@, final(map)@, old(edits)@, final(edits)@, new_id),
{
    let next = get_next_id(map);
    let group = TaxGroup { id: next, name: String::new(), rate: Amount::new(0, 2) };
    let e = TaxGroupEditState::new(&group);
    let ghost before = map@;
    proof {
        assert(!before.contains_key(next)) by {
            if before.contains_key(next) {
                assert(before.dom().contains((next - 1) as EntityId));
            }
        }
        lemma_parse_int_text(next);
    }
    map.insert(next, group);
    proof {
        assert(map@.dom() =~= before.dom().insert(next));
    }
    let ghost eb = edits@;
    edits.push(e);
    proof {
        assert(edits@.take(eb.len() as int) =~= eb);
        lemma_wf_after_push(eb, edits@);
    }
    next
}

/// Closes the edit states of tax group `id`; when one was open, its name or
/// rate is empty, and the group has no name, the group is removed.
/// The state `cancel_tax_group_edit` leaves.
pub open spec fn spec_after_cancel_tax_group_edit(old_map: Map<EntityId, TaxGroup>, new_map: Map<EntityId, TaxGroup>, old_edits: Seq<TaxGroupEditState>, new_edits: Seq<TaxGroupEditState>, id: EntityId) -> bool {
    &&& new_edits == spec_without_edits(old_edits, id)
    &&& spec_edits_wf(new_edits)
    &&& new_map == match spec_first_edit(old_edits, id) {
        Some(i) => if (old_edits[i].base.name@.len() == 0 || old_edits[i].rate@.len() == 0)
            && old_map[id].name@.len() == 0 {
            old_map.remove(id)
        } else {
            old_map
        },
        None => old_map,
    }
}

pub fn cancel_tax_group_edit(map: &mut BTreeMap<EntityId, TaxGroup>, edits: &mut Vec<TaxGroupEditState>, id: EntityId)
    requires
        old(map)@.contains_key(id),
        spec_edits_wf(old(edits)@),
    ensures
        spec_after_cancel_tax_group_edit(old(map)@, final(map)@, old(edits)@, final(edits)@, id),
{
    match find_edit(edits, id) {
        Some(i) => {
            let g = map.get(&id).unwrap();
            let gname = chars_of(g.name.as_str());
            let ename = chars_of(edits[i].base.name.as_str());
            let rate = chars_of(edits[i].rate.as_str());
            if (ename.len() == 0 || rate.len() == 0) && gname.len() < 1 {
                map.remove(&id);
            }
        },
        None => {},
    }
    drop_edits(edits, id);
}

/// Opens an edit state for price level `id` unless one is open already or
/// the level does not exist.
/// The state `start_price_level_edit` leaves.
pub open spec fn spec_after_start_price_level_edit(map: Map<EntityId, PriceLevel>, old_edits: Seq<PriceLevelEditState>, new_edits: Seq<PriceLevelEditState>, id: EntityId) -> bool {
    &&& spec_edits_wf(new_edits)
    &&& if spec_first_edit(old_edits, id) is None && map.contains_key(id) {
        &&& spec_pushed(old_edits, new_edits)
        &&& crate::price_levels::spec_opened_edit(map[id], new_edits.last())
    } else {
        new_edits == old_edits
    }
}

pub fn start_price_level_edit(map: &BTreeMap<EntityId, PriceLevel>, edits: &mut Vec<PriceLevelEditState>, id: EntityId)
    requires
        spec_edits_wf(old(edits)@),
        old(edits)@.len() < usize::MAX,
        map@.contains_key(id) ==> map@[id].price.wf(),
    ensures
        spec_after_start_price_level_edit(map@, old(edits)@, final(edits)@, id),
{
    if find_edit(edits, id).is_none() {
        match map.get(&id) {
            Some(p) => {
                let e = PriceLevelEditState::new(p);
                let ghost before = edits@;
                proof {
                    lemma_parse_int_text(p.id);
                }
                edits.push(e);
                proof {
                    assert(edits@.take(before.len() as int) =~= before);
                    lemma_wf_after_push(before, edits@);
                }
            },
            None => {},
        }
    }
}

/// Renames the first edit state for the price level, if there is one.
/// The state `update_price_level_name` leaves.
pub open spec fn spec_after_update_price_level_name(old_edits: Seq<PriceLevelEditState>, new_edits: Seq<PriceLevelEditState>, id: EntityId, new_name: Seq<char>) -> bool {
    &&& spec_edits_wf(new_edits)
    &&& match spec_first_edit(old_edits, id) {
        Some(i) => spec_updated_at(old_edits, new_edits, i) && spec_renamed(
            old_edits[i].base,
            new_edits[i].base,
            new_name,
        ) && new_edits[i].price == old_edits[i].price,
        None => new_edits == old_edits,
    }
}

pub fn update_price_level_name(edits: &mut Vec<PriceLevelEditState>, id: EntityId, new_name: String)
    requires
        spec_edits_wf(old(edits)@),
    ensures
        spec_after_update_price_level_name(old(edits)@, final(edits)@, id, new_name@),
{
    match find_edit(edits, id) {
        Some(i) => {
            let ghost before = edits@;
            let e = &mut edits[i];
            rename_edit(&mut e.base, new_name);
            proof {
                lemma_wf_after_update(before, edits@, i as int);
            }
        },
        None => {},
    }
}

/// Saves the first edit state of price level `id` into the level (its name
/// only), then closes every edit state for the level.
/// The state `save_price_level` leaves.
pub open spec fn spec_after_save_price_level(old_map: Map<EntityId, PriceLevel>, new_map: Map<EntityId, PriceLevel>, old_edits: Seq<PriceLevelEditState>, new_edits: Seq<PriceLevelEditState>, id: EntityId) -> bool {
    &&& new_edits == spec_without_edits(old_edits, id)
    &&& spec_edits_wf(new_edits)
    &&& match spec_first_edit(old_edits, id) {
        Some(i) => if old_map.contains_key(id) {
            &&& new_map.dom() == old_map.dom()
            &&& forall|k: EntityId| k != id && old_map.contains_key(k) ==> #[trigger] new_map[k] == old_map[k]
            &&& new_map[id].id == old_map[id].id
            &&& new_map[id].name@ == old_edits[i].base.name@
            &&& new_map[id].price == old_map[id].price
            &&& new_map[id].level_type == old_map[id].level_type
        } else {
            new_map == old_map
        },
        None => new_map == old_map,
    }
}

pub fn save_price_level(map: &mut BTreeMap<EntityId, PriceLevel>, edits: &mut Vec<PriceLevelEditState>, id: EntityId)
    requires
        spec_edits_wf(old(edits)@),
    ensures
        spec_after_save_price_level(old(map)@, final(map)@, old(edits)@, final(edits)@, id),
{
    match find_edit(edits, id) {
        Some(i) => {
            match map.get(&id) {
                Some(p) => {
                    let saved = PriceLevel {
                        id: p.id,
                        name: edits[i].base.name.clone(),
                        price: p.price,
                        level_type: p.level_type,
                    };
                    let ghost before = map@;
                    map.insert(id, saved);
                    proof {
                        assert(map@.dom() =~= before.dom());
                    }
                },
                None => {},
            }
        },
        None => {},
    }
    drop_edits(edits, id);
}

/// Creates a price level with the next free id, an empty name, the
/// `Enterprise` type and the price `0.00`, and opens an edit state for it;
/// returns the new id.
/// The state `create_price_level` leaves.
pub open spec fn spec_after_create_price_level(old_map: Map<EntityId, PriceLevel>, new_map: Map<EntityId, PriceLevel>, old_edits: Seq<PriceLevelEditState>, new_edits: Seq<PriceLevelEditState>, new_id: EntityId) -> bool {
    &&& spec_created(old_map, new_map, old_edits, new_edits, new_id)
    &&& new_map[new_id].id == new_id
    &&& new_map[new_id].name@ == Seq::<char>::empty()
    &&& new_map[new_id].price == (Amount { mantissa: 0, scale: 2 })
    &&& new_map[new_id].level_type == PriceLevelType::Enterprise
    &&& crate::price_levels::spec_opened_edit(new_map[new_id], new_edits.last())
    &&& spec_edits_wf(new_edits)
}

pub fn create_price_level(map: &mut BTreeMap<EntityId, PriceLevel>, edits: &mut Vec<PriceLevelEditState>) -> (new_id: EntityId)
    requires
        spec_ids_below_max(old(map)@),
        spec_edits_wf(old(edits)@),
        old(edits)@.len() < usize::MAX,
    ensures
        spec_after_create_price_level(old(map)@, final(map)@, old(edits)@, final(edits)@, new_id),
{
    let next = get_next_id(map);
    let level = PriceLevel {
        id: next,
        name: String::new(),
        price: Amount::new(0, 2),
        level_type: PriceLevelType::Enterprise,
    };
    let e = PriceLevelEditState::new(&level);
    let ghost before = map@;
    proof {
        assert(!before.contains_key(next)) by {
            if before.contains_key(next) {
                assert(before.dom().contains((next - 1) as EntityId));
            }
        }
        lemma_parse_int_text(next);
    }
    map.insert(next, level);
    proof {
        assert(map@.dom() =~= before.dom().insert(next));
    }
    let ghost eb = edits@;
    edits.push(e);
    proof {
        assert(edits@.take(eb.len() as int) =~= eb);
        lemma_wf_after_push(eb, edits@);
    }
    next
}

/// Closes the edit states of price level `id`; when one was open and the
/// level has no name, the level is removed.
/// The state `cancel_price_level_edit` leaves.
pub open spec fn spec_after_cancel_price_level_edit(old_map: Map<EntityId, PriceLevel>, new_map: Map<EntityId, PriceLevel>, old_edits: Seq<PriceLevelEditState>, new_edits: Seq<PriceLevelEditState>, id: EntityId) -> bool {
    &&& new_edits == spec_without_edits(old_edits, id)
    &&& spec_edits_wf(new_edits)
    &&& new_map == if spec_first_edit(old_edits, id) is Some && old_map[id].name@.len() == 0 {
        old_map.remove(id)
    } else {
        old_map
    }
}

pub fn cancel_price_level_edit(map: &mut BTreeMap<EntityId, PriceLevel>, edits: &mut Vec<PriceLevelEditState>, id: EntityId)
    requires
        old(map)@.contains_key(id),
        spec_edits_wf(old(edits)@),
    ensures
        spec_after_cancel_price_level_edit(old(map)@, final(map)@, old(edits)@, final(edits)@, id),
{
    if find_edit(edits, id).is_some() {
        let p = map.get(&id).unwrap();
        let name = chars_of(p.name.as_str());
        if name.len() < 1 {
            map.remove(&id);
        }
    }
    drop_edits(edits, id);
}

} // verus!
