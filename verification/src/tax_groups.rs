//! Tax groups: a named tax rate, stored as a fraction (0.08 for 8%).

use crate::data_types::{EntityId, ErrorKind, ValidationError, outcome, text};
use crate::entity_component::{
    EditState as BaseEditState, Entity, check_record, id_text_check, ids_of, spec_check_record,
    spec_edit_validate, spec_id_text_check, spec_ids,
};
use crate::money::{
    Amount, MAX_MANTISSA, MAX_SCALE, amount_text, checked_mul, le, parse_amount, spec_decimal_mul,
    spec_le, spec_parse, spec_text,
};
use crate::text::spec_int_text;
use vstd::prelude::*;

verus! {

#[derive(Debug, Clone)]
pub struct TaxGroup {
    pub id: EntityId,
    pub name: String,
    /// Stored as a fraction (0.08 for 8%).
    pub rate: Amount,
}

impl Default for TaxGroup {
    fn default() -> (r: Self)
        ensures
            r.id == -1,
            r.name@ == Seq::<char>::empty(),
            r.rate.mantissa == 0 && r.rate.scale == 0,
    {
        TaxGroup { id: -1, name: String::new(), rate: Amount::zero() }
    }
}

impl Entity for TaxGroup {
    type Details = Amount;

    open spec fn spec_details(&self) -> Amount {
        self.rate
    }

    open spec fn spec_default_details() -> Amount {
        Amount { mantissa: 0, scale: 0 }
    }

    open spec fn spec_id(&self) -> EntityId {
        self.id
    }

    open spec fn spec_name(&self) -> Seq<char> {
        self.name@
    }

    fn id(&self) -> (r: EntityId) {
        self.id
    }

    fn name(&self) -> (r: &str) {
        self.name.as_str()
    }

    fn with_id(&self, id: EntityId) -> (r: Self)
        ensures
            r.rate == self.rate,
    {
        TaxGroup { id, name: self.name.clone(), rate: self.rate }
    }

    fn with_name(&self, name: String) -> (r: Self)
        ensures
            r.rate == self.rate,
    {
        TaxGroup { id: self.id, name, rate: self.rate }
    }

    fn default_new() -> (r: Self) {
        TaxGroup::default()
    }

    fn default_with(id: EntityId, name: String) -> (r: Self) {
        TaxGroup { id, name, rate: Amount::zero() }
    }
}

/// Zero, as a decimal.
pub open spec fn spec_zero() -> Amount {
    Amount { mantissa: 0, scale: 0 }
}

/// A whole number, as a decimal.
pub open spec fn spec_whole(n: i128) -> Amount {
    Amount { mantissa: n, scale: 0 }
}

/// The outcome of validating a tax group against the others.
pub open spec fn spec_validate(g: &TaxGroup, other_ids: Seq<EntityId>) -> Result<
    (),
    (ErrorKind, Seq<char>),
> {
    match spec_check_record(
        g.id,
        g.name@,
        other_ids,
        1,
        99,
        "Tax group ID must be between 1 and 99"@,
        "Tax group with ID "@,
        "Tax group name cannot be empty"@,
        false,
        Seq::<char>::empty(),
    ) {
        Err(e) => Err(e),
        Ok(()) => if spec_le(spec_zero(), g.rate) && spec_le(g.rate, spec_whole(1)) {
            Ok(())
        } else {
            Err((ErrorKind::InvalidValue, "Tax rate must be between 0 and 100%"@))
        },
    }
}

/// The rate as a percentage: the rate times 100, as `Decimal` multiplies.
pub open spec fn spec_rate_percentage(rate: Amount) -> Amount {
    Amount::from_parts(spec_decimal_mul(rate.mantissa, rate.scale, 100, 0).unwrap())
}

/// The rate can be shown as a percentage: `Decimal`'s multiplication of the
/// rate by 100 does not overflow (where it does, the multiplication
/// panics). This is the case exactly when `Decimal::checked_mul` gives a
/// product; a product whose mantissa fits the decimal range is one such case.
pub open spec fn spec_percentage_defined(rate: Amount) -> bool {
    &&& rate.wf()
    &&& (-MAX_MANTISSA <= rate.mantissa * 100 <= MAX_MANTISSA || spec_decimal_mul(rate.mantissa, rate.scale, 100, 0) is Some)
}

impl TaxGroup {
    /// A fresh, unsaved tax group.
    pub fn new_draft() -> (r: Self)
        ensures
            r.id == -1,
            r.name@ == Seq::<char>::empty(),
            r.rate.mantissa == 0 && r.rate.scale == 0,
    {
        Self::default()
    }

    /// Checks the id range (1..=99), that no other group has the id, that
    /// the name is not blank, and that the rate lies in 0..=1.
    pub fn validate(&self, other_groups: &[&TaxGroup]) -> (r: Result<(), ValidationError>)
        requires
            self.rate.wf(),
        ensures
            outcome(r) == spec_validate(self, spec_ids(other_groups@)),
    {
        let ids = ids_of(other_groups);
        check_record(
            self.id,
            self.name.as_str(),
            ids.as_slice(),
            1,
            99,
            "Tax group ID must be between 1 and 99",
            "Tax group with ID ",
            "Tax group name cannot be empty",
            false,
            "",
        )?;
        if !(le(Amount::new(0, 0), self.rate) && le(self.rate, Amount::new(1, 0))) {
            return Err(ValidationError::InvalidValue(text("Tax rate must be between 0 and 100%")));
        }
        Ok(())
    }

    /// The rate as a percentage (rate times 100, as `Decimal` multiplies,
    /// rounding a scale above 28). The multiplication must not overflow.
    pub fn rate_percentage(&self) -> (r: Amount)
        requires
            spec_percentage_defined(self.rate),
        ensures
            r == spec_rate_percentage(self.rate),
            r.wf(),
    {
        match checked_mul(self.rate, Amount::new(100, 0)) {
            Some(p) => p,
            None => {
                assert(false);
                Amount::zero()
            },
        }
    }
}

/// The rate a percentage stands for: the percentage times `0.01`, as
/// `Decimal` multiplies (the percentage divided by 100).
pub open spec fn spec_rate_from_percentage(pct: Amount) -> Amount {
    Amount::from_parts(spec_decimal_mul(pct.mantissa, pct.scale, 1, 2).unwrap())
}

/// The rate a percentage stands for (the percentage divided by 100). For a
/// percentage `m / 10^s` with `s <= 26` this is exactly `m / 10^(s + 2)`.
pub fn rate_from_percentage(pct: Amount) -> (r: Amount)
    requires
        pct.wf(),
    ensures
        r == spec_rate_from_percentage(pct),
        r.wf(),
        pct.mantissa != 0 && pct.scale + 2 <= MAX_SCALE ==> r == (Amount { mantissa: pct.mantissa, scale: (pct.scale + 2) as u32 }),
{
    match checked_mul(pct, Amount::new(1, 2)) {
        Some(r) => r,
        None => {
            assert(false);
            Amount::zero()
        },
    }
}

/// The edit state of a tax group.
#[derive(Default, Debug, Clone)]
pub struct TaxGroupEditState {
    pub base: BaseEditState,
    pub rate: String,
    pub original_rate: String,
    pub rate_validation_error: Option<String>,
}

/// The outcome of validating a tax group edit state.
pub open spec fn spec_tax_edit_validate(name: Seq<char>, id: Seq<char>, rate: Seq<char>) -> Result<
    (),
    (ErrorKind, Seq<char>),
> {
    match spec_edit_validate(name, id, 1, 99999) {
        Err(e) => Err(e),
        Ok(()) => match spec_id_text_check(id, 1, 99, "Tax group ID must be between 1 and 99"@) {
            Err(e) => Err(e),
            Ok(()) => match spec_parse(rate) {
                Some(r) => if spec_le(spec_zero(), r) && spec_le(r, spec_whole(100)) {
                    Ok(())
                } else {
                    Err((ErrorKind::InvalidValue, "Tax rate must be between 0 and 100%"@))
                },
                None => Err((ErrorKind::InvalidValue, "Invalid tax rate format"@)),
            },
        },
    }
}

/// The edit state opened on a tax group: its name (also as the original
/// name), its id text, its rate as a percentage text (also as the original),
/// and no error.
pub open spec fn spec_opened_edit(g: TaxGroup, e: TaxGroupEditState) -> bool {
    &&& e.base.name@ == g.name@
    &&& e.base.original_name@ == g.name@
    &&& e.base.id@ == spec_int_text(g.id as int)
    &&& e.base.id_validation_error is None
    &&& e.base.name_validation_error is None
    &&& e.rate@ == spec_text(spec_rate_percentage(g.rate))
    &&& e.original_rate@ == spec_text(spec_rate_percentage(g.rate))
    &&& e.rate_validation_error is None
}

impl TaxGroupEditState {
    /// An edit state holding the group's name, id text and rate as a
    /// percentage text.
    pub fn new(tax_group: &TaxGroup) -> (r: Self)
        requires
            spec_percentage_defined(tax_group.rate),
        ensures
            spec_opened_edit(*tax_group, r),
    {
        let pct = tax_group.rate_percentage();
        TaxGroupEditState {
            base: BaseEditState::new(tax_group),
            rate: amount_text(pct),
            original_rate: amount_text(pct),
            rate_validation_error: None,
        }
    }

    /// Restores the original name and rate and clears the errors.
    pub fn reset(&mut self)
        ensures
            final(self).base.name@ == old(self).base.original_name@,
            final(self).base.original_name@ == old(self).base.original_name@,
            final(self).base.id@ == old(self).base.id@,
            final(self).base.id_validation_error is None,
            final(self).base.name_validation_error is None,
            final(self).rate@ == old(self).original_rate@,
            final(self).original_rate@ == old(self).original_rate@,
            final(self).rate_validation_error is None,
    {
        self.base.reset();
        self.rate = self.original_rate.clone();
        self.rate_validation_error = None;
    }

    /// Checks the name and id (the generic checks with ids up to 99999,
    /// then ids 1..=99) and that the rate text is a percentage in 0..=100.
    pub fn validate(&self) -> (r: Result<(), ValidationError>)
        ensures
            outcome(r) == spec_tax_edit_validate(self.base.name@, self.base.id@, self.rate@),
    {
        self.base.validate(1, 99999)?;
        id_text_check(self.base.id.as_str(), 1, 99, "Tax group ID must be between 1 and 99")?;
        match parse_amount(self.rate.as_str()) {
            Some(rate) => {
                if !(le(Amount::new(0, 0), rate) && le(rate, Amount::new(100, 0))) {
                    return Err(
                        ValidationError::InvalidValue(text("Tax rate must be between 0 and 100%")),
                    );
                }
            },
            None => {
                return Err(ValidationError::InvalidValue(text("Invalid tax rate format")));
            },
        }
        Ok(())
    }
}

} // verus!
