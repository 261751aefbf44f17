//! Price levels: the named prices an item can be sold at.

use crate::data_types::{EntityId, ErrorKind, ValidationError, outcome, text};
use crate::entity_component::{
    EditState as BaseEditState, Entity, check_record, ids_of, name_id_check, spec_check_record,
    spec_ids, spec_name_id_check,
};
use crate::money::{Amount, amount_text, parse_amount, spec_parse, spec_text};
use crate::text::spec_int_text;
use vstd::prelude::*;

verus! {

/// Where a price level applies.
#[derive(Debug, Clone, Copy, PartialEq, Eq)]
pub enum PriceLevelType {
    Enterprise,
    Store,
}

impl Default for PriceLevelType {
    fn default() -> (r: Self)
        ensures
            r == PriceLevelType::Enterprise,
    {
        PriceLevelType::Enterprise
    }
}

impl PriceLevelType {
    /// The text the level type displays.
    pub fn label(&self) -> (r: String)
        ensures
            r@ == (match self {
                PriceLevelType::Enterprise => "Enterprise Price Level"@,
                PriceLevelType::Store => "Store Price Level"@,
            }),
    {
        match self {
            PriceLevelType::Enterprise => text("Enterprise Price Level"),
            PriceLevelType::Store => text("Store Price Level"),
        }
    }
}

#[derive(Debug, Clone)]
pub struct PriceLevel {
    pub id: EntityId,
    pub name: String,
    pub price: Amount,
    pub level_type: PriceLevelType,
}

impl Default for PriceLevel {
    fn default() -> (r: Self)
        ensures
            r.id == -1,
            r.name@ == Seq::<char>::empty(),
            r.price.mantissa == 0 && r.price.scale == 0,
            r.level_type == PriceLevelType::Enterprise,
    {
        PriceLevel {
            id: -1,
            name: String::new(),
            price: Amount::zero(),
            level_type: PriceLevelType::default(),
        }
    }
}

impl Entity for PriceLevel {
    type Details = (Amount, PriceLevelType);

    open spec fn spec_details(&self) -> (Amount, PriceLevelType) {
        (self.price, self.level_type)
    }

    open spec fn spec_default_details() -> (Amount, PriceLevelType) {
        (Amount { mantissa: 0, scale: 0 }, PriceLevelType::Enterprise)
    }

    open spec fn spec_id(&self) -> EntityId {
        self.id
    }

    open spec fn spec_name(&self) -> Seq<char> {
        self.name@
    }

    fn id(&self) -> (r: EntityId) {
        self.id
    }

    fn name(&self) -> (r: &str) {
        self.name.as_str()
    }

    fn with_id(&self, id: EntityId) -> (r: Self)
        ensures
            r.price == self.price,
            r.level_type == self.level_type,
    {
        PriceLevel { id, name: self.name.clone(), price: self.price, level_type: self.level_type }
    }

    fn with_name(&self, name: String) -> (r: Self)
        ensures
            r.price == self.price,
            r.level_type == self.level_type,
    {
        PriceLevel { id: self.id, name, price: self.price, level_type: self.level_type }
    }

    fn default_new() -> (r: Self) {
        PriceLevel::default()
    }

    fn default_with(id: EntityId, name: String) -> (r: Self) {
        PriceLevel { id, name, price: Amount::zero(), level_type: PriceLevelType::Enterprise }
    }
}

/// The outcome of validating a price level against the others.
pub open spec fn spec_validate(p: &PriceLevel, other_ids: Seq<EntityId>) -> Result<
    (),
    (ErrorKind, Seq<char>),
> {
    spec_check_record(
        p.id,
        p.name@,
        other_ids,
        1,
        999,
        "Item group ID must be between 1 and 999"@,
        "Item group with ID "@,
        "Item group name cannot be empty"@,
        false,
        Seq::<char>::empty(),
    )
}

impl PriceLevel {
    /// A fresh, unsaved price level.
    pub fn new_draft() -> (r: Self)
        ensures
            r.id == -1,
            r.name@ == Seq::<char>::empty(),
            r.price.mantissa == 0 && r.price.scale == 0,
            r.level_type == PriceLevelType::Enterprise,
    {
        Self::default()
    }

    /// Checks the id range (1..=999), that no other level has the id, and
    /// that the name is not blank.
    pub fn validate(&self, other_groups: &[&PriceLevel]) -> (r: Result<(), ValidationError>)
        ensures
            outcome(r) == spec_validate(self, spec_ids(other_groups@)),
    {
        let ids = ids_of(other_groups);
        check_record(
            self.id,
            self.name.as_str(),
            ids.as_slice(),
            1,
            999,
            "Item group ID must be between 1 and 999",
            "Item group with ID ",
            "Item group name cannot be empty",
            false,
            "",
        )
    }
}

/// The edit state of a price level.
#[derive(Default, Debug, Clone)]
pub struct PriceLevelEditState {
    pub base: BaseEditState,
    pub price: String,
    pub original_price: String,
    pub level_type: PriceLevelType,
    pub range_validation_error: Option<String>,
}

/// The outcome of validating a price level edit state.
pub open spec fn spec_edit_validate(name: Seq<char>, id: Seq<char>, price: Seq<char>) -> Result<
    (),
    (ErrorKind, Seq<char>),
> {
    match spec_name_id_check(
        name,
        id,
        1,
        999,
        "Price level name cannot be empty"@,
        "Price level ID must be between 1 and 999"@,
    ) {
        Err(e) => Err(e),
        Ok(()) => if spec_parse(price) is None {
            Err((ErrorKind::InvalidValue, "Invalid price format"@))
        } else {
            Ok(())
        },
    }
}

/// The edit state opened on a price level: its name (also as the original
/// name), its id text, its price text (also as the original), its type, and
/// no error.
pub open spec fn spec_opened_edit(p: PriceLevel, e: PriceLevelEditState) -> bool {
    &&& e.base.name@ == p.name@
    &&& e.base.original_name@ == p.name@
    &&& e.base.id@ == spec_int_text(p.id as int)
    &&& e.base.id_validation_error is None
    &&& e.base.name_validation_error is None
    &&& e.price@ == spec_text(p.price)
    &&& e.original_price@ == spec_text(p.price)
    &&& e.level_type == p.level_type
    &&& e.range_validation_error is None
}

impl PriceLevelEditState {
    /// An edit state holding the level's name, id text, price text and type.
    pub fn new(price_level: &PriceLevel) -> (r: Self)
        requires
            price_level.price.wf(),
        ensures
            spec_opened_edit(*price_level, r),
    {
        PriceLevelEditState {
            base: BaseEditState::new(price_level),
            price: amount_text(price_level.price),
            original_price: amount_text(price_level.price),
            level_type: price_level.level_type,
            range_validation_error: None,
        }
    }

    /// Restores the original name and price, sets the type back to the
    /// default (`Enterprise`) and clears the errors.
    pub fn reset(&mut self)
        ensures
            final(self).base.name@ == old(self).base.original_name@,
            final(self).base.original_name@ == old(self).base.original_name@,
            final(self).base.id@ == old(self).base.id@,
            final(self).base.id_validation_error is None,
            final(self).base.name_validation_error is None,
            final(self).price@ == old(self).original_price@,
            final(self).original_price@ == old(self).original_price@,
            final(self).level_type == PriceLevelType::Enterprise,
            final(self).range_validation_error is None,
    {
        self.base.reset();
        self.price = self.original_price.clone();
        self.level_type = PriceLevelType::default();
        self.range_validation_error = None;
    }

    /// Checks that the name is not blank, that the id text is in 1..=999
    /// and that the price text is a decimal.
    pub fn validate(&self) -> (r: Result<(), ValidationError>)
        ensures
            outcome(r) == spec_edit_validate(self.base.name@, self.base.id@, self.price@),
    {
        name_id_check(
            self.base.name.as_str(),
            self.base.id.as_str(),
            1,
            999,
            "Price level name cannot be empty",
            "Price level ID must be between 1 and 999",
        )?;
        if parse_amount(self.price.as_str()).is_none() {
            return Err(ValidationError::InvalidValue(text("Invalid price format")));
        }
        Ok(())
    }
}

} // verus!
