//! Revenue categories: the revenue account an item books to.

use crate::data_types::{EntityId, ValidationError, outcome};
use crate::data_types::{ErrorKind, text};
use crate::entity_component::{
    Entity, check_record, ids_of, name_id_check, spec_check_record, spec_ids, spec_name_id_check,
};
use crate::text::{int_string, spec_int_text};
use vstd::prelude::*;

verus! {

/// Whether the screen lists or edits.
#[derive(Debug, Clone, Copy, PartialEq, Eq)]
pub enum Mode {
    View,
    Edit,
}

/// The edit state of a revenue category.
#[derive(Default, Debug, Clone)]
pub struct EditState {
    pub name: String,
    pub original_name: String,
    pub id: String,
    pub validation_error: Option<String>,
}

/// The outcome of validating a revenue category edit state.
pub open spec fn spec_edit_validate(name: Seq<char>, id: Seq<char>) -> Result<(), (ErrorKind, Seq<char>)> {
    spec_name_id_check(
        name,
        id,
        1,
        999,
        "Revenue category name cannot be empty"@,
        "Revenue category ID must be between 1 and 999"@,
    )
}

impl EditState {
    /// An edit state holding the category's name (also as original) and id text.
    pub fn new(revenue_category: &RevenueCategory) -> (r: Self)
        ensures
            r.name@ == revenue_category.name@,
            r.original_name@ == revenue_category.name@,
            r.id@ == spec_int_text(revenue_category.id as int),
            r.validation_error is None,
    {
        EditState {
            name: revenue_category.name.clone(),
            original_name: revenue_category.name.clone(),
            id: int_string(revenue_category.id),
            validation_error: None,
        }
    }

    /// Restores the original name and clears the error.
    pub fn reset(&mut self)
        ensures
            final(self).name@ == old(self).original_name@,
            final(self).original_name@ == old(self).original_name@,
            final(self).id@ == old(self).id@,
            final(self).validation_error is None,
    {
        self.name = self.original_name.clone();
        self.validation_error = None;
    }

    /// Checks that the name is not blank and the id text is in 1..=999.
    pub fn validate(&self) -> (r: Result<(), ValidationError>)
        ensures
            outcome(r) == spec_edit_validate(self.name@, self.id@),
    {
        name_id_check(
            self.name.as_str(),
            self.id.as_str(),
            1,
            999,
            "Revenue category name cannot be empty",
            "Revenue category ID must be between 1 and 999",
        )
    }
}

#[derive(Debug, Clone)]
pub struct RevenueCategory {
    pub id: EntityId,
    pub name: String,
}

impl Default for RevenueCategory {
    fn default() -> (r: Self)
        ensures
            r.id == -1,
            r.name@ == Seq::<char>::empty(),
    {
        RevenueCategory { id: -1, name: String::new() }
    }
}

impl Entity for RevenueCategory {
    type Details = ();

    open spec fn spec_details(&self) -> () {
        ()
    }

    open spec fn spec_default_details() -> () {
        ()
    }

    open spec fn spec_id(&self) -> EntityId {
        self.id
    }

    open spec fn spec_name(&self) -> Seq<char> {
        self.name@
    }

    fn id(&self) -> (r: EntityId) {
        self.id
    }

    fn name(&self) -> (r: &str) {
        self.name.as_str()
    }

    fn with_id(&self, id: EntityId) -> (r: Self) {
        RevenueCategory { id, name: self.name.clone() }
    }

    fn with_name(&self, name: String) -> (r: Self) {
        RevenueCategory { id: self.id, name }
    }

    fn default_new() -> (r: Self) {
        RevenueCategory::default()
    }

    fn default_with(id: EntityId, name: String) -> (r: Self) {
        RevenueCategory { id, name }
    }
}

/// The outcome of validating a revenue category against the others.
pub open spec fn spec_validate(g: &RevenueCategory, other_ids: Seq<EntityId>) -> Result<
    (),
    (crate::data_types::ErrorKind, Seq<char>),
> {
    spec_check_record(
        g.id,
        g.name@,
        other_ids,
        1,
        999,
        "Revenue category ID must be between 1 and 999"@,
        "Revenue category with ID "@,
        "Revenue category name cannot be empty"@,
        false,
        Seq::<char>::empty(),
    )
}

impl RevenueCategory {
    /// A fresh, unsaved revenue category.
    pub fn new_draft() -> (r: Self)
        ensures
            r.id == -1,
            r.name@ == Seq::<char>::empty(),
    {
        Self::default()
    }

    /// Checks the id range (1..=999), that no other category has the id, and
    /// that the name is not blank.
    pub fn validate(&self, other_categories: &[&RevenueCategory]) -> (r: Result<(), ValidationError>)
        ensures
            outcome(r) == spec_validate(self, spec_ids(other_categories@)),
    {
        let ids = ids_of(other_categories);
        check_record(
            self.id,
            self.name.as_str(),
            ids.as_slice(),
            1,
            999,
            "Revenue category ID must be between 1 and 999",
            "Revenue category with ID ",
            "Revenue category name cannot be empty",
            false,
            "",
        )
    }
}

} // verus!
