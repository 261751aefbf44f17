//! Item groups: named groups of items, each owning a range of item ids.

use crate::data_types::{EntityId, ErrorKind, ValidationError, outcome, text};
use crate::entity_component::{
    EditState as BaseEditState, Entity, contains_id, duplicate_message, ids_of, ranges_overlap,
    spec_edit_validate, spec_ids,
};
use crate::text::{
    int_string, parse_i32_str, push_str, spec_int_text, spec_is_blank, spec_parse_i32,
    str_is_blank,
};
use std::ops::Range;
use vstd::prelude::*;

verus! {

/// Whether the screen lists or edits.
#[derive(Debug, Clone, Copy, PartialEq, Eq)]
pub enum Mode {
    View,
    Edit,
}

#[derive(Debug)]
pub struct ItemGroup {
    pub id: EntityId,
    pub name: String,
    pub id_range: Range<EntityId>,
}

impl Clone for ItemGroup {
    fn clone(&self) -> (r: Self)
        ensures
            r.id == self.id,
            r.name == self.name,
            r.id_range == self.id_range,
    {
        ItemGroup {
            id: self.id,
            name: self.name.clone(),
            id_range: Range { start: self.id_range.start, end: self.id_range.end },
        }
    }
}

impl Default for ItemGroup {
    fn default() -> (r: Self)
        ensures
            r.id == -1,
            r.name@ == Seq::<char>::empty(),
            r.id_range.start == 1,
            r.id_range.end == 1000,
    {
        ItemGroup { id: -1, name: String::new(), id_range: Range { start: 1, end: 1000 } }
    }
}

impl Entity for ItemGroup {
    type Details = (EntityId, EntityId);

    open spec fn spec_details(&self) -> (EntityId, EntityId) {
        (self.id_range.start, self.id_range.end)
    }

    open spec fn spec_default_details() -> (EntityId, EntityId) {
        (1, 1000)
    }

    open spec fn spec_id(&self) -> EntityId {
        self.id
    }

    open spec fn spec_name(&self) -> Seq<char> {
        self.name@
    }

    fn id(&self) -> (r: EntityId) {
        self.id
    }

    fn name(&self) -> (r: &str) {
        self.name.as_str()
    }

    fn with_id(&self, id: EntityId) -> (r: Self)
        ensures
            r.id_range == self.id_range,
    {
        ItemGroup {
            id,
            name: self.name.clone(),
            id_range: Range { start: self.id_range.start, end: self.id_range.end },
        }
    }

    fn with_name(&self, name: String) -> (r: Self)
        ensures
            r.id_range == self.id_range,
    {
        ItemGroup {
            id: self.id,
            name,
            id_range: Range { start: self.id_range.start, end: self.id_range.end },
        }
    }

    fn default_new() -> (r: Self) {
        ItemGroup::default()
    }

    fn default_with(id: EntityId, name: String) -> (r: Self) {
        ItemGroup { id, name, id_range: Range { start: 1, end: 1000 } }
    }
}

/// The index of the first group among `others`, searching from `from`, that
/// does not have the id `id` and whose range overlaps `start..=end`.
pub open spec fn spec_first_overlap_parts(
    id: EntityId,
    start: EntityId,
    end: EntityId,
    others: Seq<&ItemGroup>,
    from: int,
) -> Option<int>
    decreases others.len() - from,
{
    if from >= others.len() || from < 0 {
        None
    } else if others[from].id != id && start <= others[from].id_range.end
        && others[from].id_range.start <= end {
        Some(from)
    } else {
        spec_first_overlap_parts(id, start, end, others, from + 1)
    }
}

/// The index of the first group among `others` (not sharing `g`'s id)
/// whose range overlaps `g`'s, searching from `from`.
pub open spec fn spec_first_overlap(g: &ItemGroup, others: Seq<&ItemGroup>, from: int) -> Option<int> {
    spec_first_overlap_parts(g.id, g.id_range.start, g.id_range.end, others, from)
}

/// The outcome of validating a group with this id, name and range against
/// the others.
pub open spec fn spec_validate_parts(
    id: EntityId,
    name: Seq<char>,
    start: EntityId,
    end: EntityId,
    others: Seq<&ItemGroup>,
) -> Result<(), (ErrorKind, Seq<char>)> {
    if !(1 <= id && id <= 999) {
        Err((ErrorKind::InvalidId, "Item group ID must be between 1 and 999"@))
    } else if spec_ids(others).contains(id) {
        Err(
            (
                ErrorKind::DuplicateId,
                "Item group with ID "@ + spec_int_text(id as int) + " already exists"@,
            ),
        )
    } else if let Some(i) = spec_first_overlap_parts(id, start, end, others, 0) {
        Err((ErrorKind::RangeOverlap, "Range overlaps with group '"@ + others[i].name@ + "'"@))
    } else if spec_is_blank(name) {
        Err((ErrorKind::EmptyName, "Item group name cannot be empty"@))
    } else {
        Ok(())
    }
}

/// The outcome of validating an item group against the others.
pub open spec fn spec_validate(g: &ItemGroup, others: Seq<&ItemGroup>) -> Result<
    (),
    (ErrorKind, Seq<char>),
> {
    spec_validate_parts(g.id, g.name@, g.id_range.start, g.id_range.end, others)
}

impl ItemGroup {
    /// A fresh, unsaved item group.
    pub fn new_draft() -> (r: Self)
        ensures
            r.id == -1,
            r.name@ == Seq::<char>::empty(),
            r.id_range.start == 1,
            r.id_range.end == 1000,
    {
        Self::default()
    }

    /// Checks the id range (1..=999), that no other group has the id, that
    /// the group's id range (taken inclusively) overlaps no other group's,
    /// and that the name is not blank.
    #[verifier::loop_isolation(false)]
    pub fn validate(&self, other_groups: &[&ItemGroup]) -> (r: Result<(), ValidationError>)
        ensures
            outcome(r) == spec_validate(self, other_groups@),
    {
        if !(1 <= self.id && self.id <= 999) {
            return Err(ValidationError::InvalidId(text("Item group ID must be between 1 and 999")));
        }
        let ids = ids_of(other_groups);
        if contains_id(ids.as_slice(), self.id) {
            return Err(
                ValidationError::DuplicateId(duplicate_message("Item group with ID ", self.id)),
            );
        }
        let mut i: usize = 0;
        while i < other_groups.len()
            invariant
                i <= other_groups@.len(),
                spec_first_overlap(self, other_groups@, 0) == spec_first_overlap(
                    self,
                    other_groups@,
                    i as int,
                ),
            decreases other_groups.len() - i,
        {
            let other = other_groups[i];
            if self.id != other.id && ranges_overlap(
                self.id_range.start,
                self.id_range.end,
                other.id_range.start,
                other.id_range.end,
            ) {
                assert(other_groups@[i as int] == other);
                assert(spec_first_overlap(self, other_groups@, i as int) == Some(i as int));
                let mut m = text("Range overlaps with group '");
                push_str(&mut m, other.name.as_str());
                push_str(&mut m, "'");
                return Err(ValidationError::RangeOverlap(m));
            }
            i += 1;
        }
        assert(spec_first_overlap(self, other_groups@, i as int) is None);
        if str_is_blank(self.name.as_str()) {
            return Err(ValidationError::EmptyName(text("Item group name cannot be empty")));
        }
        Ok(())
    }
}

/// The edit state of an item group.
#[derive(Default, Debug, Clone)]
pub struct ItemGroupEditState {
    pub base: BaseEditState,
    pub id_range_start: String,
    pub original_id_range_start: String,
    pub id_range_end: String,
    pub original_id_range_end: String,
    pub range_validation_error: Option<String>,
}

/// The outcome of validating an item group edit state.
pub open spec fn spec_group_edit_validate(
    name: Seq<char>,
    id: Seq<char>,
    start: Seq<char>,
    end: Seq<char>,
) -> Result<(), (ErrorKind, Seq<char>)> {
    match spec_edit_validate(name, id, 1, 99999) {
        Err(e) => Err(e),
        Ok(()) => match (spec_parse_i32(start), spec_parse_i32(end)) {
            (None, _) => Err((ErrorKind::InvalidId, "Invalid range start format"@)),
            (Some(_), None) => Err((ErrorKind::InvalidId, "Invalid range end format"@)),
            (Some(s), Some(e)) => if s >= e {
                Err((ErrorKind::InvalidValue, "Range start must be less than range end"@))
            } else {
                Ok(())
            },
        },
    }
}

/// The edit state opened on an item group: its name (also as the original
/// name), its id and range bounds as text (also as the originals), and no
/// error.
pub open spec fn spec_opened_edit(g: ItemGroup, e: ItemGroupEditState) -> bool {
    &&& e.base.name@ == g.name@
    &&& e.base.original_name@ == g.name@
    &&& e.base.id@ == spec_int_text(g.id as int)
    &&& e.base.id_validation_error is None
    &&& e.base.name_validation_error is None
    &&& e.id_range_start@ == spec_int_text(g.id_range.start as int)
    &&& e.original_id_range_start@ == spec_int_text(g.id_range.start as int)
    &&& e.id_range_end@ == spec_int_text(g.id_range.end as int)
    &&& e.original_id_range_end@ == spec_int_text(g.id_range.end as int)
    &&& e.range_validation_error is None
}

impl ItemGroupEditState {
    /// An edit state holding the group's name, id and range bounds as text.
    pub fn new(item_group: &ItemGroup) -> (r: Self)
        ensures
            spec_opened_edit(*item_group, r),
    {
        ItemGroupEditState {
            base: BaseEditState::new(item_group),
            id_range_start: int_string(item_group.id_range.start),
            original_id_range_start: int_string(item_group.id_range.start),
            id_range_end: int_string(item_group.id_range.end),
            original_id_range_end: int_string(item_group.id_range.end),
            range_validation_error: None,
        }
    }

    /// Restores the original name and range bounds and clears the errors.
    pub fn reset(&mut self)
        ensures
            final(self).base.name@ == old(self).base.original_name@,
            final(self).base.original_name@ == old(self).base.original_name@,
            final(self).base.id@ == old(self).base.id@,
            final(self).base.id_validation_error is None,
            final(self).base.name_validation_error is None,
            final(self).id_range_start@ == old(self).original_id_range_start@,
            final(self).original_id_range_start@ == old(self).original_id_range_start@,
            final(self).id_range_end@ == old(self).original_id_range_end@,
            final(self).original_id_range_end@ == old(self).original_id_range_end@,
            final(self).range_validation_error is None,
    {
        self.base.reset();
        self.id_range_start = self.original_id_range_start.clone();
        self.id_range_end = self.original_id_range_end.clone();
        self.range_validation_error = None;
    }

    /// Checks the name and id (ids up to 99999), that both range bounds are
    /// integers, and that the start lies below the end.
    pub fn validate(&self) -> (r: Result<(), ValidationError>)
        ensures
            outcome(r) == spec_group_edit_validate(
                self.base.name@,
                self.base.id@,
                self.id_range_start@,
                self.id_range_end@,
            ),
    {
        self.base.validate(1, 99999)?;
        let start = match parse_i32_str(self.id_range_start.as_str()) {
            Some(v) => v,
            None => {
                return Err(ValidationError::InvalidId(text("Invalid range start format")));
            },
        };
        let end = match parse_i32_str(self.id_range_end.as_str()) {
            Some(v) => v,
            None => {
                return Err(ValidationError::InvalidId(text("Invalid range end format")));
            },
        };
        if start >= end {
            return Err(
                ValidationError::InvalidValue(text("Range start must be less than range end")),
            );
        }
        Ok(())
    }
}

} // verus!
