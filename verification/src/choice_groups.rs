//! Choice groups: named groups of modifier choices attached to items.

use crate::data_types::{EntityId, ValidationError, outcome};
use crate::entity_component::{Entity, check_record, ids_of, spec_check_record, spec_ids};
use vstd::prelude::*;

verus! {

#[derive(Debug, Clone)]
pub struct ChoiceGroup {
    pub id: EntityId,
    pub name: String,
}

impl Default for ChoiceGroup {
    fn default() -> (r: Self)
        ensures
            r.id == -1,
            r.name@ == Seq::<char>::empty(),
    {
        ChoiceGroup { id: -1, name: String::new() }
    }
}

impl Entity for ChoiceGroup {
    type Details = ();

    open spec fn spec_details(&self) -> () {
        ()
    }

    open spec fn spec_default_details() -> () {
        ()
    }

    open spec fn spec_id(&self) -> EntityId {
        self.id
    }

    open spec fn spec_name(&self) -> Seq<char> {
        self.name@
    }

    fn id(&self) -> (r: EntityId) {
        self.id
    }

    fn name(&self) -> (r: &str) {
        self.name.as_str()
    }

    fn with_id(&self, id: EntityId) -> (r: Self) {
        ChoiceGroup { id, name: self.name.clone() }
    }

    fn with_name(&self, name: String) -> (r: Self) {
        ChoiceGroup { id: self.id, name }
    }

    fn default_new() -> (r: Self) {
        ChoiceGroup::default()
    }

    fn default_with(id: EntityId, name: String) -> (r: Self) {
        ChoiceGroup { id, name }
    }
}

/// The outcome of validating a choice group against the others.
pub open spec fn spec_validate(g: &ChoiceGroup, other_ids: Seq<EntityId>) -> Result<
    (),
    (crate::data_types::ErrorKind, Seq<char>),
> {
    spec_check_record(
        g.id,
        g.name@,
        other_ids,
        1,
        999,
        "Choice group ID must be between 1 and 999"@,
        "Choice group with ID "@,
        "Choice group name cannot be empty"@,
        false,
        Seq::<char>::empty(),
    )
}

impl ChoiceGroup {
    /// A fresh, unsaved choice group.
    pub fn new_draft() -> (r: Self)
        ensures
            r.id == -1,
            r.name@ == Seq::<char>::empty(),
    {
        Self::default()
    }

    /// Checks the id range (1..=999), that no other group has the id, and
    /// that the name is not blank.
    pub fn validate(&self, other_groups: &[&ChoiceGroup]) -> (r: Result<(), ValidationError>)
        ensures
            outcome(r) == spec_validate(self, spec_ids(other_groups@)),
    {
        let ids = ids_of(other_groups);
        check_record(
            self.id,
            self.name.as_str(),
            ids.as_slice(),
            1,
            999,
            "Choice group ID must be between 1 and 999",
            "Choice group with ID ",
            "Choice group name cannot be empty",
            false,
            "",
        )
    }
}

} // verus!
