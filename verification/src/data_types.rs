//! Shared data types: entity ids, prices per price level, validation errors
//! and the pending-deletion record.

use crate::money::{Amount, spec_decimal_from_str};
use crate::text::push_str;
use vstd::prelude::*;

verus! {

/// Identifier of every entity kind.
pub type EntityId = i32;

/// Length of a text in UTF-8 bytes, as `str::len` reports it.
pub open spec fn spec_byte_len(s: Seq<char>) -> usize {
    vstd::utf8::encode_utf8(s).len() as usize
}

/// A string holding the given text.
pub fn text(s: &str) -> (r: String)
    ensures
        r@ == s@,
{
    let mut r = String::new();
    push_str(&mut r, s);
    proof {
        assert(r@ =~= s@);
    }
    r
}

/// A price of an item at one price level.
#[derive(Clone, Copy, Debug)]
pub struct ItemPrice {
    pub price_level_id: EntityId,
    pub price: Amount,
}

/// The kinds of validation failure.
#[derive(Clone, Copy, Debug, PartialEq, Eq)]
pub enum ErrorKind {
    InvalidId,
    DuplicateId,
    EmptyName,
    NameTooLong,
    InvalidRange,
    RangeOverlap,
    InvalidValue,
    InvalidReference,
    InvalidRate,
    InvalidPrice,
    MissingItemGroup,
    MissingRevenueCategory,
}

/// Common validation error type for all entity kinds; each carries a message.
#[derive(Clone, Debug)]
pub enum ValidationError {
    InvalidId(String),
    DuplicateId(String),
    EmptyName(String),
    NameTooLong(String),
    InvalidRange(String),
    RangeOverlap(String),
    InvalidValue(String),
    InvalidReference(String),
    InvalidRate(String),
    InvalidPrice(String),
    MissingItemGroup(String),
    MissingRevenueCategory(String),
}

impl View for ValidationError {
    type V = (ErrorKind, Seq<char>);

    open spec fn view(&self) -> (ErrorKind, Seq<char>) {
        match self {
            ValidationError::InvalidId(m) => (ErrorKind::InvalidId, m@),
            ValidationError::DuplicateId(m) => (ErrorKind::DuplicateId, m@),
            ValidationError::EmptyName(m) => (ErrorKind::EmptyName, m@),
            ValidationError::NameTooLong(m) => (ErrorKind::NameTooLong, m@),
            ValidationError::InvalidRange(m) => (ErrorKind::InvalidRange, m@),
            ValidationError::RangeOverlap(m) => (ErrorKind::RangeOverlap, m@),
            ValidationError::InvalidValue(m) => (ErrorKind::InvalidValue, m@),
            ValidationError::InvalidReference(m) => (ErrorKind::InvalidReference, m@),
            ValidationError::InvalidRate(m) => (ErrorKind::InvalidRate, m@),
            ValidationError::InvalidPrice(m) => (ErrorKind::InvalidPrice, m@),
            ValidationError::MissingItemGroup(m) => (ErrorKind::MissingItemGroup, m@),
            ValidationError::MissingRevenueCategory(m) => (ErrorKind::MissingRevenueCategory, m@),
        }
    }
}

/// The outcome of a validation as plain values.
pub open spec fn outcome(r: Result<(), ValidationError>) -> Result<(), (ErrorKind, Seq<char>)> {
    match r {
        Ok(()) => Ok(()),
        Err(e) => Err(e@),
    }
}

/// The label `Display` puts before the message of each kind.
pub open spec fn spec_error_label(k: ErrorKind) -> Seq<char> {
    match k {
        ErrorKind::InvalidRange => "Invalid range: "@,
        ErrorKind::RangeOverlap => "Range overlap: "@,
        ErrorKind::InvalidId => "Invalid ID: "@,
        ErrorKind::DuplicateId => "Duplicate ID: "@,
        ErrorKind::EmptyName => "Empty name: "@,
        ErrorKind::NameTooLong => "Too Long: "@,
        ErrorKind::InvalidValue => "Invalid value: "@,
        ErrorKind::InvalidReference => "Invalid refernce: "@,
        ErrorKind::InvalidRate => "Invalid rate: "@,
        ErrorKind::InvalidPrice => "Invalid Price: "@,
        ErrorKind::MissingItemGroup => "Missing Item Group: "@,
        ErrorKind::MissingRevenueCategory => "Missing Revenue Group: "@,
    }
}

impl ValidationError {
    /// An error of the given kind with the given message.
    pub fn of_kind(kind: ErrorKind, msg: String) -> (r: ValidationError)
        ensures
            r@ == (kind, msg@),
    {
        match kind {
            ErrorKind::InvalidId => ValidationError::InvalidId(msg),
            ErrorKind::DuplicateId => ValidationError::DuplicateId(msg),
            ErrorKind::EmptyName => ValidationError::EmptyName(msg),
            ErrorKind::NameTooLong => ValidationError::NameTooLong(msg),
            ErrorKind::InvalidRange => ValidationError::InvalidRange(msg),
            ErrorKind::RangeOverlap => ValidationError::RangeOverlap(msg),
            ErrorKind::InvalidValue => ValidationError::InvalidValue(msg),
            ErrorKind::InvalidReference => ValidationError::InvalidReference(msg),
            ErrorKind::InvalidRate => ValidationError::InvalidRate(msg),
            ErrorKind::InvalidPrice => ValidationError::InvalidPrice(msg),
            ErrorKind::MissingItemGroup => ValidationError::MissingItemGroup(msg),
            ErrorKind::MissingRevenueCategory => ValidationError::MissingRevenueCategory(msg),
        }
    }

    /// The kind of the error.
    pub fn kind(&self) -> (k: ErrorKind)
        ensures
            k == self@.0,
    {
        match self {
            ValidationError::InvalidId(_) => ErrorKind::InvalidId,
            ValidationError::DuplicateId(_) => ErrorKind::DuplicateId,
            ValidationError::EmptyName(_) => ErrorKind::EmptyName,
            ValidationError::NameTooLong(_) => ErrorKind::NameTooLong,
            ValidationError::InvalidRange(_) => ErrorKind::InvalidRange,
            ValidationError::RangeOverlap(_) => ErrorKind::RangeOverlap,
            ValidationError::InvalidValue(_) => ErrorKind::InvalidValue,
            ValidationError::InvalidReference(_) => ErrorKind::InvalidReference,
            ValidationError::InvalidRate(_) => ErrorKind::InvalidRate,
            ValidationError::InvalidPrice(_) => ErrorKind::InvalidPrice,
            ValidationError::MissingItemGroup(_) => ErrorKind::MissingItemGroup,
            ValidationError::MissingRevenueCategory(_) => ErrorKind::MissingRevenueCategory,
        }
    }

    /// The message of the error.
    pub fn message(&self) -> (m: &String)
        ensures
            m@ == self@.1,
    {
        match self {
            ValidationError::InvalidId(m) => m,
            ValidationError::DuplicateId(m) => m,
            ValidationError::EmptyName(m) => m,
            ValidationError::NameTooLong(m) => m,
            ValidationError::InvalidRange(m) => m,
            ValidationError::RangeOverlap(m) => m,
            ValidationError::InvalidValue(m) => m,
            ValidationError::InvalidReference(m) => m,
            ValidationError::InvalidRate(m) => m,
            ValidationError::InvalidPrice(m) => m,
            ValidationError::MissingItemGroup(m) => m,
            ValidationError::MissingRevenueCategory(m) => m,
        }
    }

    /// The text the error displays: a label for its kind, then its message.
    pub fn to_display_string(&self) -> (r: String)
        ensures
            r@ == spec_error_label(self@.0) + self@.1,
    {
        let label = match self.kind() {
            ErrorKind::InvalidRange => "Invalid range: ",
            ErrorKind::RangeOverlap => "Range overlap: ",
            ErrorKind::InvalidId => "Invalid ID: ",
            ErrorKind::DuplicateId => "Duplicate ID: ",
            ErrorKind::EmptyName => "Empty name: ",
            ErrorKind::NameTooLong => "Too Long: ",
            ErrorKind::InvalidValue => "Invalid value: ",
            ErrorKind::InvalidReference => "Invalid refernce: ",
            ErrorKind::InvalidRate => "Invalid rate: ",
            ErrorKind::InvalidPrice => "Invalid Price: ",
            ErrorKind::MissingItemGroup => "Missing Item Group: ",
            ErrorKind::MissingRevenueCategory => "Missing Revenue Group: ",
        };
        let mut r = text(label);
        push_str(&mut r, self.message().as_str());
        r
    }
}

/// A pending deletion: what is to be deleted and which items it touches.
#[derive(Clone, Debug)]
pub struct DeletionInfo {
    pub entity_type: String,
    pub entity_id: EntityId,
    pub affected_items: Vec<String>,
}

impl DeletionInfo {
    /// The empty deletion record.
    pub fn new() -> (r: Self)
        ensures
            r.entity_type@ == Seq::<char>::empty(),
            r.entity_id == 1,
            r.affected_items@.len() == 0,
    {
        DeletionInfo { entity_type: String::new(), entity_id: 1, affected_items: Vec::new() }
    }
}

/// The message `string_to_decimal` gives for a text that is no decimal.
pub open spec fn spec_decimal_error_message(input: Seq<char>, reason: Seq<char>) -> Seq<char> {
    "Failed to convert '"@ + input + "' to Decimal: "@ + reason
}

/// Reads a decimal from a text; the error names the text and the reason
/// `rust_decimal` gives.
pub fn string_to_decimal(input: &str) -> (r: Result<Amount, String>)
    ensures
        match spec_decimal_from_str(input@) {
            Ok(p) => r matches Ok(a) && a.parts() == p && a.wf(),
            Err(reason) => r matches Err(m) && m@ == spec_decimal_error_message(input@, reason),
        },
{
    match crate::money::decimal_parse_result(input) {
        Ok(a) => Ok(a),
        Err(reason) => {
            let mut m = text("Failed to convert '");
            push_str(&mut m, input);
            push_str(&mut m, "' to Decimal: ");
            push_str(&mut m, reason.as_str());
            Err(m)
        },
    }
}

} // verus!
