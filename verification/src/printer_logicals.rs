//! Printer logicals: the logical kitchen printers an item prints to.

use crate::data_types::{EntityId, ValidationError, outcome};
use crate::entity_component::{Entity, check_record, ids_of, spec_check_record, spec_ids};
use vstd::prelude::*;

verus! {

/// Whether the screen lists or edits.
#[derive(Debug, Clone, Copy, PartialEq, Eq)]
pub enum Mode {
    View,
    Edit,
}

#[derive(Debug, Clone)]
pub struct PrinterLogical {
    pub id: EntityId,
    pub name: String,
}

impl Default for PrinterLogical {
    fn default() -> (r: Self)
        ensures
            r.id == -1,
            r.name@ == Seq::<char>::empty(),
    {
        PrinterLogical { id: -1, name: String::new() }
    }
}

impl Entity for PrinterLogical {
    type Details = ();

    open spec fn spec_details(&self) -> () {
        ()
    }

    open spec fn spec_default_details() -> () {
        ()
    }

    open spec fn spec_id(&self) -> EntityId {
        self.id
    }

    open spec fn spec_name(&self) -> Seq<char> {
        self.name@
    }

    fn id(&self) -> (r: EntityId) {
        self.id
    }

    fn name(&self) -> (r: &str) {
        self.name.as_str()
    }

    fn with_id(&self, id: EntityId) -> (r: Self) {
        PrinterLogical { id, name: self.name.clone() }
    }

    fn with_name(&self, name: String) -> (r: Self) {
        PrinterLogical { id: self.id, name }
    }

    fn default_new() -> (r: Self) {
        PrinterLogical::default()
    }

    fn default_with(id: EntityId, name: String) -> (r: Self) {
        PrinterLogical { id, name }
    }
}

/// The outcome of validating a printer logical against the others.
pub open spec fn spec_validate(g: &PrinterLogical, other_ids: Seq<EntityId>) -> Result<
    (),
    (crate::data_types::ErrorKind, Seq<char>),
> {
    spec_check_record(
        g.id,
        g.name@,
        other_ids,
        0,
        25,
        "Printer Logical ID must be between 0 and 25"@,
        "Printer Logical with ID "@,
        "Printer Logical name cannot be empty"@,
        true,
        "Printer Logical name cannot be more than 16 Characters"@,
    )
}

impl PrinterLogical {
    /// A fresh, unsaved printer logical.
    pub fn new_draft() -> (r: Self)
        ensures
            r.id == -1,
            r.name@ == Seq::<char>::empty(),
    {
        Self::default()
    }

    /// Checks the id range (0..=25), that no other printer has the id, that the
    /// name is not blank and at most 16 bytes long.
    pub fn validate(&self, other_printers: &[&PrinterLogical]) -> (r: Result<(), ValidationError>)
        ensures
            outcome(r) == spec_validate(self, spec_ids(other_printers@)),
    {
        let ids = ids_of(other_printers);
        check_record(
            self.id,
            self.name.as_str(),
            ids.as_slice(),
            0,
            25,
            "Printer Logical ID must be between 0 and 25",
            "Printer Logical with ID ",
            "Printer Logical name cannot be empty",
            true,
            "Printer Logical name cannot be more than 16 Characters",
        )
    }
}

} // verus!
