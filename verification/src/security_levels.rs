//! Security levels: the employee level needed to ring up an item.

use crate::data_types::{EntityId, ValidationError, outcome};
use crate::entity_component::{Entity, check_record, ids_of, spec_check_record, spec_ids};
use vstd::prelude::*;

verus! {

/// Whether the screen lists or edits.
#[derive(Debug, Clone, Copy, PartialEq, Eq)]
pub enum Mode {
    View,
    Edit,
}

#[derive(Debug, Clone)]
pub struct SecurityLevel {
    pub id: EntityId,
    pub name: String,
}

impl Default for SecurityLevel {
    fn default() -> (r: Self)
        ensures
            r.id == -1,
            r.name@ == Seq::<char>::empty(),
    {
        SecurityLevel { id: -1, name: String::new() }
    }
}

impl Entity for SecurityLevel {
    type Details = ();

    open spec fn spec_details(&self) -> () {
        ()
    }

    open spec fn spec_default_details() -> () {
        ()
    }

    open spec fn spec_id(&self) -> EntityId {
        self.id
    }

    open spec fn spec_name(&self) -> Seq<char> {
        self.name@
    }

    fn id(&self) -> (r: EntityId) {
        self.id
    }

    fn name(&self) -> (r: &str) {
        self.name.as_str()
    }

    fn with_id(&self, id: EntityId) -> (r: Self) {
        SecurityLevel { id, name: self.name.clone() }
    }

    fn with_name(&self, name: String) -> (r: Self) {
        SecurityLevel { id: self.id, name }
    }

    fn default_new() -> (r: Self) {
        SecurityLevel::default()
    }

    fn default_with(id: EntityId, name: String) -> (r: Self) {
        SecurityLevel { id, name }
    }
}

/// The outcome of validating a security level against the others.
pub open spec fn spec_validate(g: &SecurityLevel, other_ids: Seq<EntityId>) -> Result<
    (),
    (crate::data_types::ErrorKind, Seq<char>),
> {
    spec_check_record(
        g.id,
        g.name@,
        other_ids,
        1,
        999,
        "Price Levels ID must be between 1 and 999"@,
        "Price Levels with ID "@,
        "Price Levels name cannot be empty"@,
        false,
        Seq::<char>::empty(),
    )
}

impl SecurityLevel {
    /// A fresh, unsaved security level.
    pub fn new_draft() -> (r: Self)
        ensures
            r.id == -1,
            r.name@ == Seq::<char>::empty(),
    {
        Self::default()
    }

    /// Checks the id range (1..=999), that no other level has the id, and
    /// that the name is not blank.
    pub fn validate(&self, other_levels: &[&SecurityLevel]) -> (r: Result<(), ValidationError>)
        ensures
            outcome(r) == spec_validate(self, spec_ids(other_levels@)),
    {
        let ids = ids_of(other_levels);
        check_record(
            self.id,
            self.name.as_str(),
            ids.as_slice(),
            1,
            999,
            "Price Levels ID must be between 1 and 999",
            "Price Levels with ID ",
            "Price Levels name cannot be empty",
            false,
            "",
        )
    }
}

} // verus!
