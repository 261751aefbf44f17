//! Behaviour shared by all entity kinds: the `Entity` trait, the generic
//! edit state of a named record, the common record checks, the next free id
//! and range overlap.

use crate::data_types::{
    EntityId, ErrorKind, ValidationError, outcome, spec_byte_len, text,
};
use crate::text::{
    int_string, parse_i32_str, push_str, spec_int_text, spec_is_blank, spec_parse_i32,
    str_is_blank,
};
use std::collections::BTreeMap;
use vstd::std_specs::iter::IteratorSpec;
use vstd::prelude::*;

verus! {

broadcast use vstd::laws_cmp::group_laws_cmp;

/// Common behaviour of entity types: an id, a name, and the other fields
/// (the details) that copying and renaming keep.
pub trait Entity: Sized {
    /// The fields of a record besides its id and name.
    type Details;

    spec fn spec_id(&self) -> EntityId;

    spec fn spec_name(&self) -> Seq<char>;

    spec fn spec_details(&self) -> Self::Details;

    /// The details of a default record.
    spec fn spec_default_details() -> Self::Details;

    fn id(&self) -> (r: EntityId)
        ensures
            r == self.spec_id(),
    ;

    fn name(&self) -> (r: &str)
        ensures
            r@ == self.spec_name(),
    ;

    fn with_id(&self, id: EntityId) -> (r: Self)
        ensures
            r.spec_id() == id,
            r.spec_name() == self.spec_name(),
            r.spec_details() == self.spec_details(),
    ;

    fn with_name(&self, name: String) -> (r: Self)
        ensures
            r.spec_id() == self.spec_id(),
            r.spec_name() == name@,
            r.spec_details() == self.spec_details(),
    ;

    fn default_new() -> (r: Self)
        ensures
            r.spec_id() == -1,
            r.spec_name() == Seq::<char>::empty(),
            r.spec_details() == Self::spec_default_details(),
    ;

    /// The default record with the given id and name.
    fn default_with(id: EntityId, name: String) -> (r: Self)
        ensures
            r.spec_id() == id,
            r.spec_name() == name@,
            r.spec_details() == Self::spec_default_details(),
    ;
}

/// Whether a record is the default record with the given id and name.
pub open spec fn spec_is_default_with<T: Entity>(r: &T, id: EntityId, name: Seq<char>) -> bool {
    r.spec_id() == id && r.spec_name() == name && r.spec_details() == T::spec_default_details()
}

/// Generic edit state for editing a named entity.
#[derive(Default, Debug, Clone)]
pub struct EditState {
    pub name: String,
    pub original_name: String,
    pub id: String,
    pub id_validation_error: Option<String>,
    pub name_validation_error: Option<String>,
}

/// The outcome of checking the name and id text of an edit state.
pub open spec fn spec_edit_validate(name: Seq<char>, id: Seq<char>, lo: i32, hi: i32) -> Result<
    (),
    (ErrorKind, Seq<char>),
> {
    if spec_is_blank(name) {
        Err((ErrorKind::EmptyName, "Name cannot be empty"@))
    } else if spec_byte_len(name) > 16 {
        Err((ErrorKind::NameTooLong, "Name cannot be more than 16 Characters"@))
    } else {
        match spec_parse_i32(id) {
            Some(v) => if lo <= v && v <= hi {
                Ok(())
            } else {
                Err(
                    (
                        ErrorKind::InvalidId,
                        "ID must be between "@ + spec_int_text(lo as int) + " and "@
                            + spec_int_text(hi as int),
                    ),
                )
            },
            None => Err((ErrorKind::InvalidId, "Invalid ID format"@)),
        }
    }
}

impl EditState {
    /// An edit state holding the entity's name (also as original) and id text.
    pub fn new<T: Entity>(entity: &T) -> (r: Self)
        ensures
            r.name@ == entity.spec_name(),
            r.original_name@ == entity.spec_name(),
            r.id@ == spec_int_text(entity.spec_id() as int),
            r.id_validation_error is None,
            r.name_validation_error is None,
    {
        EditState {
            name: text(entity.name()),
            original_name: text(entity.name()),
            id: int_string(entity.id()),
            id_validation_error: None,
            name_validation_error: None,
        }
    }

    /// Restores the original name and clears the errors.
    pub fn reset(&mut self)
        ensures
            final(self).name@ == old(self).original_name@,
            final(self).original_name@ == old(self).original_name@,
            final(self).id@ == old(self).id@,
            final(self).id_validation_error is None,
            final(self).name_validation_error is None,
    {
        self.name = self.original_name.clone();
        self.id_validation_error = None;
        self.name_validation_error = None;
    }

    /// Checks the name (not blank, at most 16 bytes) and that the id text is
    /// an integer in `lo..=hi`.
    pub fn validate(&self, lo: i32, hi: i32) -> (r: Result<(), ValidationError>)
        ensures
            outcome(r) == spec_edit_validate(self.name@, self.id@, lo, hi),
    {
        if str_is_blank(self.name.as_str()) {
            return Err(ValidationError::EmptyName(text("Name cannot be empty")));
        }
        if self.name.as_str().len() > 16 {
            return Err(ValidationError::NameTooLong(text("Name cannot be more than 16 Characters")));
        }
        match parse_i32_str(self.id.as_str()) {
            Some(v) => {
                if lo <= v && v <= hi {
                    Ok(())
                } else {
                    let mut m = text("ID must be between ");
                    let a = int_string(lo);
                    push_str(&mut m, a.as_str());
                    push_str(&mut m, " and ");
                    let b = int_string(hi);
                    push_str(&mut m, b.as_str());
                    Err(ValidationError::InvalidId(m))
                }
            },
            None => Err(ValidationError::InvalidId(text("Invalid ID format"))),
        }
    }
}

/// The ids of a list of entities, in order.
pub open spec fn spec_ids<T: Entity>(others: Seq<&T>) -> Seq<EntityId> {
    others.map_values(|o: &T| o.spec_id())
}

/// The ids of a list of entities.
pub fn ids_of<T: Entity>(others: &[&T]) -> (r: Vec<EntityId>)
    ensures
        r@ == spec_ids(others@),
{
    let mut r: Vec<EntityId> = Vec::new();
    let mut i: usize = 0;
    while i < others.len()
        invariant
            i <= others@.len(),
            r@ == spec_ids(others@.subrange(0, i as int)),
        decreases others.len() - i,
    {
        r.push(others[i].id());
        i += 1;
        proof {
            assert(spec_ids(others@.subrange(0, i as int)) =~= spec_ids(
                others@.subrange(0, i - 1),
            ).push(others@[i - 1].spec_id()));
        }
    }
    proof {
        assert(others@.subrange(0, others@.len() as int) =~= others@);
    }
    r
}

/// The outcome of the common record checks: the id lies in `lo..=hi`, no
/// other record has it, the name is not blank and, where `check_len` is set,
/// the name is at most 16 bytes long.
pub open spec fn spec_check_record(
    id: EntityId,
    name: Seq<char>,
    other_ids: Seq<EntityId>,
    lo: i32,
    hi: i32,
    range_msg: Seq<char>,
    dup_prefix: Seq<char>,
    empty_msg: Seq<char>,
    check_len: bool,
    long_msg: Seq<char>,
) -> Result<(), (ErrorKind, Seq<char>)> {
    if !(lo <= id && id <= hi) {
        Err((ErrorKind::InvalidId, range_msg))
    } else if other_ids.contains(id) {
        Err((ErrorKind::DuplicateId, dup_prefix + spec_int_text(id as int) + " already exists"@))
    } else if spec_is_blank(name) {
        Err((ErrorKind::EmptyName, empty_msg))
    } else if check_len && spec_byte_len(name) > 16 {
        Err((ErrorKind::NameTooLong, long_msg))
    } else {
        Ok(())
    }
}

/// The message telling that a record with `id` already exists.
pub fn duplicate_message(prefix: &str, id: EntityId) -> (r: String)
    ensures
        r@ == prefix@ + spec_int_text(id as int) + " already exists"@,
{
    let mut m = text(prefix);
    let t = int_string(id);
    push_str(&mut m, t.as_str());
    push_str(&mut m, " already exists");
    m
}

/// Whether `id` occurs in `ids`.
pub fn contains_id(ids: &[EntityId], id: EntityId) -> (r: bool)
    ensures
        r == ids@.contains(id),
{
    let mut i: usize = 0;
    while i < ids.len()
        invariant
            i <= ids@.len(),
            forall|j: int| 0 <= j < i ==> ids@[j] != id,
        decreases ids.len() - i,
    {
        if ids[i] == id {
            assert(ids@[i as int] == id);
            return true;
        }
        i += 1;
    }
    false
}

/// Runs the common record checks.
pub fn check_record(
    id: EntityId,
    name: &str,
    other_ids: &[EntityId],
    lo: i32,
    hi: i32,
    range_msg: &str,
    dup_prefix: &str,
    empty_msg: &str,
    check_len: bool,
    long_msg: &str,
) -> (r: Result<(), ValidationError>)
    ensures
        outcome(r) == spec_check_record(
            id,
            name@,
            other_ids@,
            lo,
            hi,
            range_msg@,
            dup_prefix@,
            empty_msg@,
            check_len,
            long_msg@,
        ),
{
    if !(lo <= id && id <= hi) {
        return Err(ValidationError::InvalidId(text(range_msg)));
    }
    if contains_id(other_ids, id) {
        return Err(ValidationError::DuplicateId(duplicate_message(dup_prefix, id)));
    }
    if str_is_blank(name) {
        return Err(ValidationError::EmptyName(text(empty_msg)));
    }
    if check_len && name.len() > 16 {
        return Err(ValidationError::NameTooLong(text(long_msg)));
    }
    Ok(())
}

/// The outcome of checking that a name is not blank and that an id text is
/// an integer in `lo..=hi`.
pub open spec fn spec_name_id_check(
    name: Seq<char>,
    id: Seq<char>,
    lo: i32,
    hi: i32,
    empty_msg: Seq<char>,
    range_msg: Seq<char>,
) -> Result<(), (ErrorKind, Seq<char>)> {
    if spec_is_blank(name) {
        Err((ErrorKind::EmptyName, empty_msg))
    } else {
        spec_id_text_check(id, lo, hi, range_msg)
    }
}

/// The outcome of checking that an id text is an integer in `lo..=hi`.
pub open spec fn spec_id_text_check(id: Seq<char>, lo: i32, hi: i32, range_msg: Seq<char>) -> Result<
    (),
    (ErrorKind, Seq<char>),
> {
    match spec_parse_i32(id) {
        Some(v) => if lo <= v && v <= hi {
            Ok(())
        } else {
            Err((ErrorKind::InvalidId, range_msg))
        },
        None => Err((ErrorKind::InvalidId, "Invalid ID format"@)),
    }
}

/// Checks that an id text is an integer in `lo..=hi`.
pub fn id_text_check(id: &str, lo: i32, hi: i32, range_msg: &str) -> (r: Result<(), ValidationError>)
    ensures
        outcome(r) == spec_id_text_check(id@, lo, hi, range_msg@),
{
    match parse_i32_str(id) {
        Some(v) => if lo <= v && v <= hi {
            Ok(())
        } else {
            Err(ValidationError::InvalidId(text(range_msg)))
        },
        None => Err(ValidationError::InvalidId(text("Invalid ID format"))),
    }
}

/// Checks that a name is not blank and that an id text is an integer in
/// `lo..=hi`.
pub fn name_id_check(name: &str, id: &str, lo: i32, hi: i32, empty_msg: &str, range_msg: &str) -> (r:
    Result<(), ValidationError>)
    ensures
        outcome(r) == spec_name_id_check(name@, id@, lo, hi, empty_msg@, range_msg@),
{
    if str_is_blank(name) {
        return Err(ValidationError::EmptyName(text(empty_msg)));
    }
    id_text_check(id, lo, hi, range_msg)
}

/// The next free id: one past the largest key, or 1 for an empty map.
pub open spec fn spec_next_id(keys: Set<EntityId>, r: EntityId) -> bool {
    if keys.is_empty() {
        r == 1
    } else {
        keys.contains((r - 1) as EntityId) && forall|k: EntityId| #[trigger]
            keys.contains(k) ==> k <= r - 1
    }
}

/// One past the largest id in use (1 when none is); the largest id must
/// leave room for one more.
pub fn get_next_id<T>(groups: &BTreeMap<EntityId, T>) -> (r: EntityId)
    requires
        forall|k: EntityId| #[trigger] groups@.contains_key(k) ==> k < i32::MAX,
    ensures
        spec_next_id(groups@.dom(), r),
{
    let mut best: Option<EntityId> = None;
    let ghost keys = groups@.dom();
    let ghost ks = vstd::std_specs::btree::spec_keys_iter(groups).remaining();
    let ghost mut n: int = 0;
    for k in it: groups.keys()
        invariant
            it.seq() == ks,
            ks.unref().to_set() == keys,
            n == it.index(),
            keys == groups@.dom(),
            forall|k: EntityId| #[trigger] groups@.contains_key(k) ==> k < i32::MAX,
            match best {
                None => n == 0,
                Some(b) => keys.contains(b) && forall|j: int| 0 <= j < n ==> *ks[j] <= b,
            },
    {
        proof {
            assert(ks.unref().to_set().contains(*ks[n]));
            n = n + 1;
        }
        match best {
            None => {
                best = Some(*k);
            },
            Some(b) => {
                if *k > b {
                    best = Some(*k);
                }
            },
        }
    }
    proof {
        assert(n == ks.len());
    }
    match best {
        None => {
            proof {
                if !keys.is_empty() {
                    let x = keys.choose();
                    assert(ks.unref().to_set().contains(x));
                }
            }
            1
        },
        Some(b) => {
            proof {
                assert forall|k: EntityId| #[trigger] keys.contains(k) implies k <= b by {
                    assert(ks.unref().to_set().contains(k));
                    let j = choose|j: int| 0 <= j < ks.unref().len() && ks.unref()[j] == k;
                    assert(*ks[j] == k);
                }
            }
            b + 1
        },
    }
}

/// Whether two inclusive ranges share a point.
pub fn ranges_overlap(s1: EntityId, e1: EntityId, s2: EntityId, e2: EntityId) -> (r: bool)
    ensures
        r == (s1 <= e2 && s2 <= e1),
{
    s1 <= e2 && s2 <= e1
}

} // verus!
