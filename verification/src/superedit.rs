//! Mass editing of items: conditions that select items (combined left to
//! right with and/or), actions that change the selected items, and the
//! preview of the changes.

use crate::choice_groups::ChoiceGroup;
use crate::data_types::{EntityId, ItemPrice, text};
use crate::item_groups::ItemGroup;
use crate::items::{Item, ItemModel, ViewContext};
use crate::money::{Amount, checked_add, checked_sub, compare, lt, parse_amount, spec_add, spec_compare, spec_lt, spec_parse, spec_sub};
use crate::price_levels::PriceLevel;
use crate::printer_logicals::PrinterLogical;
use crate::product_classes::ProductClass;
use crate::report_categories::ReportCategory;
use crate::revenue_categories::RevenueCategory;
use crate::security_levels::SecurityLevel;
use crate::tax_groups::TaxGroup;
use crate::text::{
    chars_of, contains, ends_with, lowercase, parse_i32, same_text, spec_contains, spec_ends_with,
    spec_lowercase, spec_parse_i32, spec_split, spec_starts_with, split, starts_with,
};
use std::collections::BTreeMap;
use vstd::prelude::*;

verus! {

broadcast use vstd::laws_cmp::group_laws_cmp;

// ---------------------------------------------------------------------
// Categories, operators, logic, operations
// ---------------------------------------------------------------------

/// The item field a condition tests or an action changes.
#[derive(Debug, Clone, Copy, PartialEq, Eq, Structural)]
pub enum FilterCategory {
    Name,
    Id,
    ItemGroup,
    ProductClass,
    TaxGroup,
    SecurityLevel,
    RevenueCategory,
    PriceLevel,
    ChoiceGroup,
    PrinterLogical,
    ReportCategory,
    Price,
}

/// How a condition compares.
#[derive(Debug, Clone, Copy, PartialEq, Eq, Structural)]
pub enum FilterOperator {
    BeginsWith,
    Contains,
    DoesNotContain,
    EndsWith,
    Equals,
    NotEquals,
    IsEmpty,
    IsNotEmpty,
    GreaterThan,
    LessThan,
    GreaterOrEqual,
    LessOrEqual,
    Between,
}

/// How a condition combines with the result of those before it.
#[derive(Debug, Clone, Copy, PartialEq, Eq, Structural)]
pub enum ConditionLogic {
    And,
    Or,
}

/// What an action does.
#[derive(Debug, Clone, Copy, PartialEq, Eq, Structural)]
pub enum ActionOperation {
    AddToPrice,
    SubtractFromPrice,
    SetPrice,
    Add,
    Remove,
    SwapTo,
}

impl ConditionLogic {
    /// The combinations offered, in order.
    pub fn all() -> (r: Vec<ConditionLogic>)
        ensures
            r@ == seq![ConditionLogic::And, ConditionLogic::Or],
    {
        let mut r: Vec<ConditionLogic> = Vec::new();
        r.push(ConditionLogic::And);
        r.push(ConditionLogic::Or);
        r
    }

    /// The name the combination is shown with.
    pub fn to_display_string(&self) -> (r: String)
        ensures
            r@ == match self {
                ConditionLogic::And => "And"@,
                ConditionLogic::Or => "Or"@,
            },
    {
        match self {
            ConditionLogic::And => text("And"),
            ConditionLogic::Or => text("Or"),
        }
    }
}

/// The operators offered for a field.
pub open spec fn spec_operators_for(field: FilterCategory) -> Seq<FilterOperator> {
    match field {
        FilterCategory::Name => seq![
            FilterOperator::Contains,
            FilterOperator::BeginsWith,
            FilterOperator::EndsWith,
            FilterOperator::IsEmpty,
            FilterOperator::IsNotEmpty,
        ],
        FilterCategory::ItemGroup | FilterCategory::ProductClass | FilterCategory::TaxGroup
        | FilterCategory::SecurityLevel | FilterCategory::RevenueCategory
        | FilterCategory::ReportCategory => seq![
            FilterOperator::Contains,
            FilterOperator::Equals,
            FilterOperator::NotEquals,
            FilterOperator::IsEmpty,
            FilterOperator::IsNotEmpty,
        ],
        FilterCategory::PriceLevel | FilterCategory::ChoiceGroup
        | FilterCategory::PrinterLogical => seq![
            FilterOperator::Contains,
            FilterOperator::DoesNotContain,
            FilterOperator::Equals,
            FilterOperator::NotEquals,
            FilterOperator::IsEmpty,
            FilterOperator::IsNotEmpty,
        ],
        FilterCategory::Price => seq![
            FilterOperator::Equals,
            FilterOperator::NotEquals,
            FilterOperator::GreaterThan,
            FilterOperator::LessThan,
            FilterOperator::GreaterOrEqual,
            FilterOperator::LessOrEqual,
            FilterOperator::IsEmpty,
            FilterOperator::IsNotEmpty,
        ],
        FilterCategory::Id => seq![
            FilterOperator::GreaterThan,
            FilterOperator::LessThan,
            FilterOperator::Between,
        ],
    }
}

fn vec_of_ops(s: &[FilterOperator]) -> (r: Vec<FilterOperator>)
    ensures
        r@ == s@,
{
    let mut r: Vec<FilterOperator> = Vec::new();
    let mut i: usize = 0;
    while i < s.len()
        invariant
            i <= s@.len(),
            r@ == s@.take(i as int),
        decreases s.len() - i,
    {
        r.push(s[i]);
        i += 1;
        proof {
            assert(r@ =~= s@.take(i as int));
        }
    }
    proof {
        assert(s@.take(s@.len() as int) =~= s@);
    }
    r
}

impl FilterOperator {
    /// The operators offered for a field, in order.
    pub fn available_for_field(field: &FilterCategory) -> (r: Vec<FilterOperator>)
        ensures
            r@ == spec_operators_for(*field),
    {
        let r = match field {
            FilterCategory::Name => vec_of_ops(
                &[
                    FilterOperator::Contains,
                    FilterOperator::BeginsWith,
                    FilterOperator::EndsWith,
                    FilterOperator::IsEmpty,
                    FilterOperator::IsNotEmpty,
                ],
            ),
            FilterCategory::ItemGroup | FilterCategory::ProductClass | FilterCategory::TaxGroup
            | FilterCategory::SecurityLevel | FilterCategory::RevenueCategory
            | FilterCategory::ReportCategory => vec_of_ops(
                &[
                    FilterOperator::Contains,
                    FilterOperator::Equals,
                    FilterOperator::NotEquals,
                    FilterOperator::IsEmpty,
                    FilterOperator::IsNotEmpty,
                ],
            ),
            FilterCategory::PriceLevel | FilterCategory::ChoiceGroup
            | FilterCategory::PrinterLogical => vec_of_ops(
                &[
                    FilterOperator::Contains,
                    FilterOperator::DoesNotContain,
                    FilterOperator::Equals,
                    FilterOperator::NotEquals,
                    FilterOperator::IsEmpty,
                    FilterOperator::IsNotEmpty,
                ],
            ),
            FilterCategory::Price => vec_of_ops(
                &[
                    FilterOperator::Equals,
                    FilterOperator::NotEquals,
                    FilterOperator::GreaterThan,
                    FilterOperator::LessThan,
                    FilterOperator::GreaterOrEqual,
                    FilterOperator::LessOrEqual,
                    FilterOperator::IsEmpty,
                    FilterOperator::IsNotEmpty,
                ],
            ),
            FilterCategory::Id => vec_of_ops(
                &[FilterOperator::GreaterThan, FilterOperator::LessThan, FilterOperator::Between],
            ),
        };
        proof {
            assert(r@ =~= spec_operators_for(*field));
        }
        r
    }

    /// The words the operator is shown with.
    pub fn to_display_string(&self) -> (r: String)
        ensures
            r@ == match self {
                FilterOperator::BeginsWith => "begins with"@,
                FilterOperator::Contains => "contains"@,
                FilterOperator::DoesNotContain => "does not contain"@,
                FilterOperator::EndsWith => "ends with"@,
                FilterOperator::Equals => "is"@,
                FilterOperator::NotEquals => "is not"@,
                FilterOperator::IsEmpty => "is empty"@,
                FilterOperator::IsNotEmpty => "is not empty"@,
                FilterOperator::GreaterThan => "greater than"@,
                FilterOperator::LessThan => "less than"@,
                FilterOperator::GreaterOrEqual => "greater or equal"@,
                FilterOperator::LessOrEqual => "less or equal"@,
                FilterOperator::Between => "between"@,
            },
    {
        match self {
            FilterOperator::BeginsWith => text("begins with"),
            FilterOperator::Contains => text("contains"),
            FilterOperator::DoesNotContain => text("does not contain"),
            FilterOperator::EndsWith => text("ends with"),
            FilterOperator::Equals => text("is"),
            FilterOperator::NotEquals => text("is not"),
            FilterOperator::IsEmpty => text("is empty"),
            FilterOperator::IsNotEmpty => text("is not empty"),
            FilterOperator::GreaterThan => text("greater than"),
            FilterOperator::LessThan => text("less than"),
            FilterOperator::GreaterOrEqual => text("greater or equal"),
            FilterOperator::LessOrEqual => text("less or equal"),
            FilterOperator::Between => text("between"),
        }
    }
}

/// The operations offered for a category.
pub open spec fn spec_operations_for(category: FilterCategory) -> Seq<ActionOperation> {
    match category {
        FilterCategory::Price => seq![
            ActionOperation::AddToPrice,
            ActionOperation::SubtractFromPrice,
            ActionOperation::SetPrice,
        ],
        FilterCategory::PrinterLogical | FilterCategory::PriceLevel
        | FilterCategory::ChoiceGroup => seq![
            ActionOperation::Add,
            ActionOperation::Remove,
            ActionOperation::SwapTo,
        ],
        FilterCategory::Name | FilterCategory::Id => Seq::empty(),
        _ => seq![ActionOperation::SwapTo],
    }
}

impl ActionOperation {
    /// The operations offered for a category, in order.
    pub fn available_for_category(category: &FilterCategory) -> (r: Vec<ActionOperation>)
        ensures
            r@ == spec_operations_for(*category),
    {
        let mut r: Vec<ActionOperation> = Vec::new();
        match category {
            FilterCategory::Price => {
                r.push(ActionOperation::AddToPrice);
                r.push(ActionOperation::SubtractFromPrice);
                r.push(ActionOperation::SetPrice);
            },
            FilterCategory::PrinterLogical | FilterCategory::PriceLevel
            | FilterCategory::ChoiceGroup => {
                r.push(ActionOperation::Add);
                r.push(ActionOperation::Remove);
                r.push(ActionOperation::SwapTo);
            },
            FilterCategory::Name | FilterCategory::Id => {},
            _ => {
                r.push(ActionOperation::SwapTo);
            },
        }
        proof {
            assert(r@ =~= spec_operations_for(*category));
        }
        r
    }

    /// The words the operation is shown with.
    pub fn to_display_string(&self) -> (r: String)
        ensures
            r@ == match self {
                ActionOperation::AddToPrice => "Add to price"@,
                ActionOperation::SubtractFromPrice => "Subtract from price"@,
                ActionOperation::SetPrice => "Set price to"@,
                ActionOperation::SwapTo => "Swap"@,
                ActionOperation::Add => "Add"@,
                ActionOperation::Remove => "Remove"@,
            },
    {
        match self {
            ActionOperation::AddToPrice => text("Add to price"),
            ActionOperation::SubtractFromPrice => text("Subtract from price"),
            ActionOperation::SetPrice => text("Set price to"),
            ActionOperation::SwapTo => text("Swap"),
            ActionOperation::Add => text("Add"),
            ActionOperation::Remove => text("Remove"),
        }
    }
}

// ---------------------------------------------------------------------
// Names of entities
// ---------------------------------------------------------------------

/// An entity with a name that conditions can test.
pub trait HasName {
    spec fn spec_has_name(&self) -> Seq<char>;

    fn name(&self) -> (r: &str)
        ensures
            r@ == self.spec_has_name(),
    ;
}

impl HasName for ItemGroup {
    open spec fn spec_has_name(&self) -> Seq<char> {
        self.name@
    }

    fn name(&self) -> (r: &str) {
        self.name.as_str()
    }
}

impl HasName for TaxGroup {
    open spec fn spec_has_name(&self) -> Seq<char> {
        self.name@
    }

    fn name(&self) -> (r: &str) {
        self.name.as_str()
    }
}

impl HasName for SecurityLevel {
    open spec fn spec_has_name(&self) -> Seq<char> {
        self.name@
    }

    fn name(&self) -> (r: &str) {
        self.name.as_str()
    }
}

impl HasName for RevenueCategory {
    open spec fn spec_has_name(&self) -> Seq<char> {
        self.name@
    }

    fn name(&self) -> (r: &str) {
        self.name.as_str()
    }
}

impl HasName for ReportCategory {
    open spec fn spec_has_name(&self) -> Seq<char> {
        self.name@
    }

    fn name(&self) -> (r: &str) {
        self.name.as_str()
    }
}

impl HasName for ProductClass {
    open spec fn spec_has_name(&self) -> Seq<char> {
        self.name@
    }

    fn name(&self) -> (r: &str) {
        self.name.as_str()
    }
}

impl HasName for ChoiceGroup {
    open spec fn spec_has_name(&self) -> Seq<char> {
        self.name@
    }

    fn name(&self) -> (r: &str) {
        self.name.as_str()
    }
}

impl HasName for PrinterLogical {
    open spec fn spec_has_name(&self) -> Seq<char> {
        self.name@
    }

    fn name(&self) -> (r: &str) {
        self.name.as_str()
    }
}

impl HasName for PriceLevel {
    open spec fn spec_has_name(&self) -> Seq<char> {
        self.name@
    }

    fn name(&self) -> (r: &str) {
        self.name.as_str()
    }
}

// ---------------------------------------------------------------------
// Evaluating conditions
// ---------------------------------------------------------------------

/// A text field tested against a value, both taken in lower case.
pub open spec fn spec_eval_string(f: Seq<char>, op: FilterOperator, v: Seq<char>) -> bool {
    let lf = spec_lowercase(f);
    let lv = spec_lowercase(v);
    match op {
        FilterOperator::Contains => spec_contains(lf, lv),
        FilterOperator::BeginsWith => spec_starts_with(lf, lv),
        FilterOperator::EndsWith => spec_ends_with(lf, lv),
        FilterOperator::Equals => lf == lv,
        FilterOperator::NotEquals => lf != lv,
        FilterOperator::IsEmpty => f.len() == 0,
        FilterOperator::IsNotEmpty => f.len() > 0,
        _ => false,
    }
}

/// Tests a text field against a value, both taken in lower case.
pub fn evaluate_string_field(field_value: &str, operator: FilterOperator, condition_value: &str) -> (r: bool)
    ensures
        r == spec_eval_string(field_value@, operator, condition_value@),
{
    let lf = lowercase(field_value);
    let lv = lowercase(condition_value);
    let a = chars_of(lf.as_str());
    let b = chars_of(lv.as_str());
    let f = chars_of(field_value);
    match operator {
        FilterOperator::Contains => contains(a.as_slice(), b.as_slice()),
        FilterOperator::BeginsWith => starts_with(a.as_slice(), b.as_slice()),
        FilterOperator::EndsWith => ends_with(a.as_slice(), b.as_slice()),
        FilterOperator::Equals => same_text(a.as_slice(), b.as_slice()),
        FilterOperator::NotEquals => !same_text(a.as_slice(), b.as_slice()),
        FilterOperator::IsEmpty => f.len() == 0,
        FilterOperator::IsNotEmpty => f.len() > 0,
        _ => false,
    }
}

/// An id tested against a value: above, below, or within `from-to`.
pub open spec fn spec_eval_id(id: EntityId, op: FilterOperator, v: Seq<char>) -> bool {
    match op {
        FilterOperator::GreaterThan => match spec_parse_i32(v) {
            Some(x) => id > x,
            None => false,
        },
        FilterOperator::LessThan => match spec_parse_i32(v) {
            Some(x) => id < x,
            None => false,
        },
        FilterOperator::Between => {
            let parts = spec_split(v, '-');
            if parts.len() == 2 {
                match (spec_parse_i32(parts[0]), spec_parse_i32(parts[1])) {
                    (Some(from), Some(to)) => from <= id && id <= to,
                    _ => false,
                }
            } else {
                false
            }
        },
        _ => false,
    }
}

/// Tests an item id against a value.
pub fn evaluate_id_field(id: EntityId, operator: FilterOperator, condition_value: &str) -> (r: bool)
    ensures
        r == spec_eval_id(id, operator, condition_value@),
{
    let v = chars_of(condition_value);
    match operator {
        FilterOperator::GreaterThan => match parse_i32(v.as_slice()) {
            Some(x) => id > x,
            None => false,
        },
        FilterOperator::LessThan => match parse_i32(v.as_slice()) {
            Some(x) => id < x,
            None => false,
        },
        FilterOperator::Between => {
            let parts = split(v.as_slice(), '-');
            if parts.len() == 2 {
                match (parse_i32(parts[0].as_slice()), parse_i32(parts[1].as_slice())) {
                    (Some(from), Some(to)) => from <= id && id <= to,
                    _ => false,
                }
            } else {
                false
            }
        },
        _ => false,
    }
}

/// A single reference tested against a chosen entity.
pub open spec fn spec_eval_entity_by_id(field: Option<EntityId>, chosen: Option<EntityId>, op: FilterOperator) -> bool {
    match op {
        FilterOperator::Equals => field == chosen,
        FilterOperator::NotEquals => field != chosen,
        FilterOperator::IsEmpty => field is None,
        FilterOperator::IsNotEmpty => field is Some,
        _ => false,
    }
}

/// Tests a single reference against a chosen entity.
pub fn evaluate_entity_by_id(field_id: Option<EntityId>, condition_entity_id: Option<EntityId>, operator: FilterOperator) -> (r: bool)
    ensures
        r == spec_eval_entity_by_id(field_id, condition_entity_id, operator),
{
    match operator {
        FilterOperator::Equals => field_id == condition_entity_id,
        FilterOperator::NotEquals => field_id != condition_entity_id,
        FilterOperator::IsEmpty => field_id.is_none(),
        FilterOperator::IsNotEmpty => field_id.is_some(),
        _ => false,
    }
}

/// A list of references tested against a chosen entity.
pub open spec fn spec_eval_multi_by_id(ids: Option<Seq<EntityId>>, chosen: Option<EntityId>, op: FilterOperator) -> bool {
    match ids {
        Some(s) => match op {
            FilterOperator::Contains | FilterOperator::Equals => match chosen {
                Some(c) => s.contains(c),
                None => false,
            },
            FilterOperator::DoesNotContain | FilterOperator::NotEquals => match chosen {
                Some(c) => !s.contains(c),
                None => true,
            },
            FilterOperator::IsEmpty => s.len() == 0,
            FilterOperator::IsNotEmpty => s.len() > 0,
            _ => false,
        },
        None => op == FilterOperator::IsEmpty,
    }
}

fn seq_contains_id(s: &Vec<EntityId>, x: EntityId) -> (r: bool)
    ensures
        r == s@.contains(x),
{
    let mut i: usize = 0;
    while i < s.len()
        invariant
            i <= s@.len(),
            forall|j: int| 0 <= j < i ==> s@[j] != x,
        decreases s.len() - i,
    {
        if s[i] == x {
            assert(s@[i as int] == x);
            return true;
        }
        i += 1;
    }
    false
}

/// Tests a list of references against a chosen entity.
pub fn evaluate_multi_entity_by_id(field_ids: Option<Vec<EntityId>>, condition_entity_id: Option<EntityId>, operator: FilterOperator) -> (r: bool)
    ensures
        r == spec_eval_multi_by_id(
            match field_ids {
                Some(v) => Some(v@),
                None => None,
            },
            condition_entity_id,
            operator,
        ),
{
    match field_ids {
        Some(ids) => match operator {
            FilterOperator::Contains | FilterOperator::Equals => match condition_entity_id {
                Some(c) => seq_contains_id(&ids, c),
                None => false,
            },
            FilterOperator::DoesNotContain | FilterOperator::NotEquals => match condition_entity_id {
                Some(c) => !seq_contains_id(&ids, c),
                None => true,
            },
            FilterOperator::IsEmpty => ids.len() == 0,
            FilterOperator::IsNotEmpty => ids.len() > 0,
            _ => false,
        },
        None => match operator {
            FilterOperator::IsEmpty => true,
            _ => false,
        },
    }
}

/// A single reference tested by the name of the entity it names.
pub open spec fn spec_eval_optional_entity<T: HasName>(field: Option<EntityId>, m: Map<EntityId, T>, op: FilterOperator, v: Seq<char>) -> bool {
    match field {
        Some(id) => if m.contains_key(id) {
            spec_eval_string(m[id].spec_has_name(), op, v)
        } else {
            op == FilterOperator::IsEmpty
        },
        None => op == FilterOperator::IsEmpty,
    }
}

/// Tests a single reference by the name of the entity it names.
pub fn evaluate_optional_entity_field<T: HasName>(field_id: Option<EntityId>, entities: &BTreeMap<EntityId, T>, operator: FilterOperator, condition_value: &str) -> (r: bool)
    ensures
        r == spec_eval_optional_entity(field_id, entities@, operator, condition_value@),
{
    match field_id {
        Some(id) => match entities.get(&id) {
            Some(e) => evaluate_string_field(e.name(), operator, condition_value),
            None => match operator {
                FilterOperator::IsEmpty => true,
                _ => false,
            },
        },
        None => match operator {
            FilterOperator::IsEmpty => true,
            _ => false,
        },
    }
}

/// Whether some listed id names an entity whose name passes the test.
pub open spec fn spec_some_name<T: HasName>(ids: Seq<EntityId>, m: Map<EntityId, T>, op: FilterOperator, v: Seq<char>, contains_only: bool) -> bool {
    exists|i: int|
        0 <= i < ids.len() && m.contains_key(#[trigger] ids[i]) && (if contains_only {
            spec_contains(spec_lowercase(m[ids[i]].spec_has_name()), spec_lowercase(v))
        } else {
            spec_eval_string(m[ids[i]].spec_has_name(), op, v)
        })
}

/// A list of references tested by the names of the entities they name:
/// `does not contain` holds when no name contains the value, other
/// operators when some name passes.
pub open spec fn spec_eval_multi_names<T: HasName>(ids: Option<Seq<EntityId>>, m: Map<EntityId, T>, op: FilterOperator, v: Seq<char>) -> bool {
    match ids {
        Some(s) => if s.len() == 0 {
            op == FilterOperator::IsEmpty
        } else {
            match op {
                FilterOperator::IsEmpty => false,
                FilterOperator::IsNotEmpty => true,
                FilterOperator::DoesNotContain => !spec_some_name(s, m, op, v, true),
                _ => spec_some_name(s, m, op, v, false),
            }
        },
        None => op == FilterOperator::IsEmpty,
    }
}

fn some_name<T: HasName>(ids: &Vec<EntityId>, entities: &BTreeMap<EntityId, T>, operator: FilterOperator, condition_value: &str, contains_only: bool) -> (r: bool)
    ensures
        r == spec_some_name(ids@, entities@, operator, condition_value@, contains_only),
{
    let lv = lowercase(condition_value);
    let b = chars_of(lv.as_str());
    let mut i: usize = 0;
    while i < ids.len()
        invariant
            i <= ids@.len(),
            b@ == spec_lowercase(condition_value@),
            forall|j: int|
                0 <= j < i ==> !(entities@.contains_key(#[trigger] ids@[j]) && (if contains_only {
                    spec_contains(spec_lowercase(entities@[ids@[j]].spec_has_name()), spec_lowercase(condition_value@))
                } else {
                    spec_eval_string(entities@[ids@[j]].spec_has_name(), operator, condition_value@)
                })),
        decreases ids.len() - i,
    {
        match entities.get(&ids[i]) {
            Some(e) => {
                let hit = if contains_only {
                    let ln = lowercase(e.name());
                    let a = chars_of(ln.as_str());
                    contains(a.as_slice(), b.as_slice())
                } else {
                    evaluate_string_field(e.name(), operator, condition_value)
                };
                if hit {
                    assert(entities@.contains_key(ids@[i as int]));
                    return true;
                }
            },
            None => {},
        }
        i += 1;
    }
    false
}

/// Tests a list of references by the names of the entities they name.
pub fn evaluate_multi_names<T: HasName>(field_ids: Option<Vec<EntityId>>, entities: &BTreeMap<EntityId, T>, operator: FilterOperator, condition_value: &str) -> (r: bool)
    ensures
        r == spec_eval_multi_names(
            match field_ids {
                Some(v) => Some(v@),
                None => None,
            },
            entities@,
            operator,
            condition_value@,
        ),
{
    match field_ids {
        Some(ids) => {
            if ids.len() == 0 {
                match operator {
                    FilterOperator::IsEmpty => true,
                    _ => false,
                }
            } else {
                match operator {
                    FilterOperator::IsEmpty => false,
                    FilterOperator::IsNotEmpty => true,
                    FilterOperator::DoesNotContain => !some_name(&ids, entities, operator, condition_value, true),
                    _ => some_name(&ids, entities, operator, condition_value, false),
                }
            }
        },
        None => match operator {
            FilterOperator::IsEmpty => true,
            _ => false,
        },
    }
}

/// The first components of an optional list of pairs.
pub open spec fn spec_firsts<T>(o: Option<Seq<(EntityId, T)>>) -> Option<Seq<EntityId>> {
    match o {
        Some(s) => Some(s.map_values(|p: (EntityId, T)| p.0)),
        None => None,
    }
}

fn firsts<T: Copy>(o: &Option<Vec<(EntityId, T)>>) -> (r: Option<Vec<EntityId>>)
    ensures
        match r {
            Some(v) => spec_firsts(crate::import_items::opt_seq_of(o)) == Some(v@),
            None => spec_firsts(crate::import_items::opt_seq_of(o)) is None,
        },
{
    match o {
        None => None,
        Some(v) => {
            let mut r: Vec<EntityId> = Vec::new();
            let mut i: usize = 0;
            while i < v.len()
                invariant
                    i <= v@.len(),
                    r@.len() == i,
                    forall|j: int| 0 <= j < i ==> #[trigger] r@[j] == v@[j].0,
                decreases v.len() - i,
            {
                r.push(v[i].0);
                i += 1;
            }
            proof {
                assert(r@ =~= v@.map_values(|p: (EntityId, T)| p.0));
            }
            Some(r)
        },
    }
}

fn ids_copy(o: &Option<Vec<EntityId>>) -> (r: Option<Vec<EntityId>>)
    ensures
        match r {
            Some(v) => crate::import_items::opt_seq_of(o) == Some(v@),
            None => crate::import_items::opt_seq_of(o) is None,
        },
{
    match o {
        None => None,
        Some(v) => Some(crate::items::copy_vec(v)),
    }
}

// ---------------------------------------------------------------------
// Prices
// ---------------------------------------------------------------------

/// The absolute value of an amount.
pub open spec fn spec_abs(a: Amount) -> Amount {
    Amount { mantissa: if a.mantissa < 0 { -a.mantissa } else { a.mantissa as int } as i128, scale: a.scale }
}

/// One cent, the tolerance of price equality.
pub open spec fn spec_cent() -> Amount {
    Amount { mantissa: 1, scale: 2 }
}

/// A price compared with the condition's price: the order operators by
/// value, equality within a cent.
pub open spec fn spec_price_matches(p: Amount, c: Amount, op: FilterOperator) -> bool {
    match op {
        FilterOperator::GreaterThan => spec_compare(p, c) > 0,
        FilterOperator::LessThan => spec_compare(p, c) < 0,
        FilterOperator::GreaterOrEqual => spec_compare(p, c) >= 0,
        FilterOperator::LessOrEqual => spec_compare(p, c) <= 0,
        FilterOperator::Equals => spec_lt(spec_abs(spec_sub(p, c)->0), spec_cent()),
        FilterOperator::NotEquals => !spec_lt(spec_abs(spec_sub(p, c)->0), spec_cent()),
        FilterOperator::IsEmpty => false,
        FilterOperator::IsNotEmpty => true,
        _ => false,
    }
}

/// Whether comparing the price needs a difference that cannot be formed.
pub open spec fn spec_price_compare_fails(p: Amount, c: Amount, op: FilterOperator) -> bool {
    (op == FilterOperator::Equals || op == FilterOperator::NotEquals) && spec_sub(p, c) is None
}

/// The prices of an item in the order a price condition looks at them: the
/// default price first, then the prices per level.
pub open spec fn spec_price_list(it: ItemModel) -> Seq<Amount> {
    (match it.default_price {
        Some(d) => seq![d],
        None => Seq::empty(),
    }) + (match it.item_prices {
        Some(ps) => ps.map_values(|p: ItemPrice| p.price),
        None => Seq::empty(),
    })
}

/// Every amount of the item is within the decimal range.
pub open spec fn spec_item_amounts_wf(it: ItemModel) -> bool {
    &&& it.default_price matches Some(d) ==> d.wf()
    &&& it.item_prices matches Some(ps) ==> crate::import_items::spec_prices_wf(ps)
    &&& it.weight_amount.wf()
    &&& it.cost_amount matches Some(c) ==> c.wf()
}

/// A price condition on an item: `is empty` holds when the item has no
/// price at all (no default price and no price per level); any other
/// operator holds when some price matches the value.
pub open spec fn spec_eval_price(it: ItemModel, op: FilterOperator, v: Seq<char>) -> bool {
    if op == FilterOperator::IsEmpty {
        spec_price_list(it).len() == 0
    } else {
        spec_parse(v) is Some && exists|k: int|
            0 <= k < spec_price_list(it).len() && #[trigger] spec_price_matches(
                spec_price_list(it)[k],
                spec_parse(v)->0,
                op,
            )
    }
}

/// No price before index `k` matches.
pub open spec fn spec_no_match_before(l: Seq<Amount>, c: Amount, op: FilterOperator, k: int) -> bool {
    forall|j: int| 0 <= j < k ==> !#[trigger] spec_price_matches(l[j], c, op)
}

/// A price condition can be evaluated on the item: no comparison reached
/// before the first match needs a difference that cannot be formed.
pub open spec fn spec_price_eval_ok(it: ItemModel, op: FilterOperator, v: Seq<char>) -> bool {
    spec_parse(v) is Some ==> forall|k: int|
        0 <= k < spec_price_list(it).len() && #[trigger] spec_no_match_before(
            spec_price_list(it),
            spec_parse(v)->0,
            op,
            k,
        ) ==> !spec_price_compare_fails(spec_price_list(it)[k], spec_parse(v)->0, op)
}

/// Compares a price with the condition's price.
fn price_matches(p: Amount, c: Amount, operator: FilterOperator) -> (r: bool)
    requires
        p.wf(),
        c.wf(),
        !spec_price_compare_fails(p, c, operator),
    ensures
        r == spec_price_matches(p, c, operator),
{
    match operator {
        FilterOperator::GreaterThan => compare(p, c) > 0,
        FilterOperator::LessThan => compare(p, c) < 0,
        FilterOperator::GreaterOrEqual => compare(p, c) >= 0,
        FilterOperator::LessOrEqual => compare(p, c) <= 0,
        FilterOperator::Equals | FilterOperator::NotEquals => {
            let d = match checked_sub(p, c) {
                Some(d) => d,
                None => {
                    assert(false);
                    Amount::zero()
                },
            };
            let near = lt(crate::money::abs(d), Amount::new(1, 2));
            match operator {
                FilterOperator::Equals => near,
                _ => !near,
            }
        },
        FilterOperator::IsEmpty => false,
        FilterOperator::IsNotEmpty => true,
        _ => false,
    }
}

/// Whether some price of the item fails to be comparable before a match.
pub fn price_eval_ok(item: &Item, operator: FilterOperator, condition_value: &str) -> (r: bool)
    requires
        spec_item_amounts_wf(item@),
    ensures
        r == spec_price_eval_ok(item@, operator, condition_value@),
{
    let c = match parse_amount(condition_value) {
        Some(c) => c,
        None => return true,
    };
    let prices = price_list(item);
    let ghost l = spec_price_list(item@);
    let mut i: usize = 0;
    while i < prices.len()
        invariant
            prices@ == l,
            l == spec_price_list(item@),
            c.wf(),
            Some(c) == spec_parse(condition_value@),
            forall|k: int| 0 <= k < prices@.len() ==> (#[trigger] prices@[k]).wf(),
            i <= prices@.len(),
            forall|j: int| 0 <= j < i ==> !#[trigger] spec_price_matches(l[j], c, operator),
            forall|j: int| 0 <= j < i ==> !#[trigger] spec_price_compare_fails(l[j], c, operator),
        decreases prices.len() - i,
    {
        let p = prices[i];
        let fails = match operator {
            FilterOperator::Equals | FilterOperator::NotEquals => checked_sub(p, c).is_none(),
            _ => false,
        };
        proof {
            assert(p == l[i as int]);
            assert(fails == spec_price_compare_fails(l[i as int], c, operator));
        }
        if fails {
            proof {
                assert(spec_no_match_before(l, c, operator, i as int));
                assert(!spec_price_eval_ok(item@, operator, condition_value@));
            }
            return false;
        }
        if price_matches(p, c, operator) {
            proof {
                assert forall|k: int|
                    0 <= k < l.len() && #[trigger] spec_no_match_before(l, c, operator, k)
                        implies !spec_price_compare_fails(l[k], c, operator) by {
                    if k > i {
                        assert(spec_price_matches(l[i as int], c, operator));
                    }
                }
            }
            return true;
        }
        i += 1;
    }
    true
}

/// The prices of the item in the order conditions look at them.
fn price_list(item: &Item) -> (r: Vec<Amount>)
    requires
        spec_item_amounts_wf(item@),
    ensures
        r@ == spec_price_list(item@),
        forall|k: int| 0 <= k < r@.len() ==> (#[trigger] r@[k]).wf(),
{
    let mut r: Vec<Amount> = Vec::new();
    match item.default_price {
        Some(d) => r.push(d),
        None => {},
    }
    let ghost head = r@;
    match &item.item_prices {
        Some(ps) => {
            let mut i: usize = 0;
            while i < ps.len()
                invariant
                    i <= ps@.len(),
                    crate::import_items::spec_prices_wf(ps@),
                    forall|k: int| 0 <= k < head.len() ==> (#[trigger] head[k]).wf(),
                    r@ == head + ps@.take(i as int).map_values(|p: ItemPrice| p.price),
                decreases ps.len() - i,
            {
                r.push(ps[i].price);
                i += 1;
                proof {
                    assert(r@ =~= head + ps@.take(i as int).map_values(|p: ItemPrice| p.price));
                }
            }
            proof {
                assert(ps@.take(ps@.len() as int) =~= ps@);
            }
        },
        None => {
            proof {
                assert(r@ =~= head + Seq::<Amount>::empty());
            }
        },
    }
    proof {
        assert(r@ =~= spec_price_list(item@));
        assert forall|k: int| 0 <= k < r@.len() implies (#[trigger] r@[k]).wf() by {
            if k >= head.len() {
                let ps = item@.item_prices->0;
                assert(r@[k] == ps[k - head.len()].price);
            }
        }
    }
    r
}

proof fn lemma_price_eval_ok_at(it: ItemModel, op: FilterOperator, v: Seq<char>, c: Amount, k: int)
    requires
        spec_price_eval_ok(it, op, v),
        spec_parse(v) == Some(c),
        0 <= k < spec_price_list(it).len(),
        spec_no_match_before(spec_price_list(it), c, op, k),
    ensures
        !spec_price_compare_fails(spec_price_list(it)[k], c, op),
{
    let l = spec_price_list(it);
    assert(spec_price_eval_ok(it, op, v));
    assert(spec_parse(v) is Some);
    assert(spec_parse(v)->0 == c);
    assert(spec_no_match_before(spec_price_list(it), spec_parse(v)->0, op, k));
    assert(0 <= k < spec_price_list(it).len());
}

/// Tests the prices of an item against a value.
pub fn evaluate_price_field(item: &Item, operator: FilterOperator, condition_value: &str) -> (r: bool)
    requires
        spec_item_amounts_wf(item@),
        spec_price_eval_ok(item@, operator, condition_value@),
    ensures
        r == spec_eval_price(item@, operator, condition_value@),
{
    let prices = price_list(item);
    match operator {
        FilterOperator::IsEmpty => return prices.len() == 0,
        _ => {},
    }
    let c = match parse_amount(condition_value) {
        Some(c) => c,
        None => return false,
    };
    let ghost l = spec_price_list(item@);
    let mut i: usize = 0;
    while i < prices.len()
        invariant
            prices@ == l,
            l == spec_price_list(item@),
            c.wf(),
            Some(c) == spec_parse(condition_value@),
            spec_price_eval_ok(item@, operator, condition_value@),
            forall|k: int| 0 <= k < prices@.len() ==> (#[trigger] prices@[k]).wf(),
            i <= prices@.len(),
            forall|j: int| 0 <= j < i ==> !#[trigger] spec_price_matches(l[j], c, operator),
        decreases prices.len() - i,
    {
        let p = prices[i];
        proof {
            assert(p == l[i as int]);
            assert(spec_no_match_before(l, c, operator, i as int));
            lemma_price_eval_ok_at(item@, operator, condition_value@, c, i as int);
        }
        if price_matches(p, c, operator) {
            proof {
                assert(spec_parse(condition_value@)->0 == c);
                assert(spec_price_matches(spec_price_list(item@)[i as int], spec_parse(condition_value@)->0, operator));
            }
            return true;
        }
        i += 1;
    }
    false
}

// ---------------------------------------------------------------------
// Conditions
// ---------------------------------------------------------------------

/// A condition on items.
#[derive(Debug, Clone)]
pub struct FilterCondition {
    pub logic: ConditionLogic,
    pub field: FilterCategory,
    pub operator: FilterOperator,
    pub value: String,
    pub entity_id: Option<EntityId>,
}

/// Whether a condition holds for an item, the entities named by their
/// tables in the context. A chosen entity is compared by id; otherwise an
/// entity field is compared by the names of the entities it names.
pub open spec fn spec_eval_condition(c: FilterCondition, it: ItemModel, ctx: &ViewContext) -> bool {
    let op = c.operator;
    let v = c.value@;
    let by_id = c.entity_id is Some;
    match c.field {
        FilterCategory::Name => spec_eval_string(it.name, op, v),
        FilterCategory::Id => spec_eval_id(it.id, op, v),
        FilterCategory::ItemGroup => if by_id {
            spec_eval_entity_by_id(it.item_group, c.entity_id, op)
        } else {
            spec_eval_optional_entity(it.item_group, ctx.available_item_groups@, op, v)
        },
        FilterCategory::TaxGroup => if by_id {
            spec_eval_entity_by_id(it.tax_group, c.entity_id, op)
        } else {
            spec_eval_optional_entity(it.tax_group, ctx.available_tax_groups@, op, v)
        },
        FilterCategory::SecurityLevel => if by_id {
            spec_eval_entity_by_id(it.security_level, c.entity_id, op)
        } else {
            spec_eval_optional_entity(it.security_level, ctx.available_security_levels@, op, v)
        },
        FilterCategory::RevenueCategory => if by_id {
            spec_eval_entity_by_id(it.revenue_category, c.entity_id, op)
        } else {
            spec_eval_optional_entity(it.revenue_category, ctx.available_revenue_categories@, op, v)
        },
        FilterCategory::ReportCategory => if by_id {
            spec_eval_entity_by_id(it.report_category, c.entity_id, op)
        } else {
            spec_eval_optional_entity(it.report_category, ctx.available_report_categories@, op, v)
        },
        FilterCategory::ProductClass => if by_id {
            spec_eval_entity_by_id(it.product_class, c.entity_id, op)
        } else {
            spec_eval_optional_entity(it.product_class, ctx.available_product_classes@, op, v)
        },
        FilterCategory::ChoiceGroup => if by_id {
            spec_eval_multi_by_id(spec_firsts(it.choice_groups), c.entity_id, op)
        } else {
            spec_eval_multi_names(spec_firsts(it.choice_groups), ctx.available_choice_groups@, op, v)
        },
        FilterCategory::PrinterLogical => if by_id {
            spec_eval_multi_by_id(spec_firsts(it.printer_logicals), c.entity_id, op)
        } else {
            spec_eval_multi_names(spec_firsts(it.printer_logicals), ctx.available_printer_logicals@, op, v)
        },
        FilterCategory::PriceLevel => if by_id {
            spec_eval_multi_by_id(it.price_levels, c.entity_id, op)
        } else {
            spec_eval_multi_names(it.price_levels, ctx.available_price_levels@, op, v)
        },
        FilterCategory::Price => spec_eval_price(it, op, v),
    }
}

/// A condition can be evaluated on the item.
pub open spec fn spec_condition_ok(c: FilterCondition, it: ItemModel) -> bool {
    c.field == FilterCategory::Price ==> spec_price_eval_ok(it, c.operator, c.value@)
}

/// Whether a condition holds for an item.
pub fn evaluate_condition(condition: &FilterCondition, item: &Item, ctx: &ViewContext) -> (r: bool)
    requires
        spec_item_amounts_wf(item@),
        spec_condition_ok(*condition, item@),
    ensures
        r == spec_eval_condition(*condition, item@, ctx),
{
    let op = condition.operator;
    let v = condition.value.as_str();
    let by_id = condition.entity_id.is_some();
    match condition.field {
        FilterCategory::Name => evaluate_string_field(item.name.as_str(), op, v),
        FilterCategory::Id => evaluate_id_field(item.id, op, v),
        FilterCategory::ItemGroup => if by_id {
            evaluate_entity_by_id(item.item_group, condition.entity_id, op)
        } else {
            evaluate_optional_entity_field(item.item_group, &ctx.available_item_groups, op, v)
        },
        FilterCategory::TaxGroup => if by_id {
            evaluate_entity_by_id(item.tax_group, condition.entity_id, op)
        } else {
            evaluate_optional_entity_field(item.tax_group, &ctx.available_tax_groups, op, v)
        },
        FilterCategory::SecurityLevel => if by_id {
            evaluate_entity_by_id(item.security_level, condition.entity_id, op)
        } else {
            evaluate_optional_entity_field(item.security_level, &ctx.available_security_levels, op, v)
        },
        FilterCategory::RevenueCategory => if by_id {
            evaluate_entity_by_id(item.revenue_category, condition.entity_id, op)
        } else {
            evaluate_optional_entity_field(item.revenue_category, &ctx.available_revenue_categories, op, v)
        },
        FilterCategory::ReportCategory => if by_id {
            evaluate_entity_by_id(item.report_category, condition.entity_id, op)
        } else {
            evaluate_optional_entity_field(item.report_category, &ctx.available_report_categories, op, v)
        },
        FilterCategory::ProductClass => if by_id {
            evaluate_entity_by_id(item.product_class, condition.entity_id, op)
        } else {
            evaluate_optional_entity_field(item.product_class, &ctx.available_product_classes, op, v)
        },
        FilterCategory::ChoiceGroup => if by_id {
            evaluate_multi_entity_by_id(firsts(&item.choice_groups), condition.entity_id, op)
        } else {
            evaluate_multi_names(firsts(&item.choice_groups), &ctx.available_choice_groups, op, v)
        },
        FilterCategory::PrinterLogical => if by_id {
            evaluate_multi_entity_by_id(firsts(&item.printer_logicals), condition.entity_id, op)
        } else {
            evaluate_multi_names(firsts(&item.printer_logicals), &ctx.available_printer_logicals, op, v)
        },
        FilterCategory::PriceLevel => if by_id {
            evaluate_multi_entity_by_id(ids_copy(&item.price_levels), condition.entity_id, op)
        } else {
            evaluate_multi_names(ids_copy(&item.price_levels), &ctx.available_price_levels, op, v)
        },
        FilterCategory::Price => evaluate_price_field(item, op, v),
    }
}

/// A result combined with the next condition's result.
pub open spec fn spec_combine(acc: bool, logic: ConditionLogic, b: bool) -> bool {
    match logic {
        ConditionLogic::And => acc && b,
        ConditionLogic::Or => acc || b,
    }
}

/// The first `n` conditions folded from the left with their logic (the
/// first condition's logic is not used).
pub open spec fn spec_fold_conditions(cs: Seq<FilterCondition>, n: int, it: ItemModel, ctx: &ViewContext) -> bool
    decreases n,
{
    if n <= 1 {
        spec_eval_condition(cs[0], it, ctx)
    } else {
        spec_combine(
            spec_fold_conditions(cs, n - 1, it, ctx),
            cs[n - 1].logic,
            spec_eval_condition(cs[n - 1], it, ctx),
        )
    }
}

/// Whether the conditions select the item: all items when there are none.
pub open spec fn spec_applies(cs: Seq<FilterCondition>, it: ItemModel, ctx: &ViewContext) -> bool {
    if cs.len() == 0 {
        true
    } else {
        spec_fold_conditions(cs, cs.len() as int, it, ctx)
    }
}

/// Every condition can be evaluated on the item.
pub open spec fn spec_conditions_ok(cs: Seq<FilterCondition>, it: ItemModel) -> bool {
    forall|k: int| 0 <= k < cs.len() ==> spec_condition_ok(#[trigger] cs[k], it)
}

/// Whether the conditions select the item.
pub fn conditions_apply(conditions: &Vec<FilterCondition>, item: &Item, ctx: &ViewContext) -> (r: bool)
    requires
        spec_item_amounts_wf(item@),
        spec_conditions_ok(conditions@, item@),
    ensures
        r == spec_applies(conditions@, item@, ctx),
{
    if conditions.len() == 0 {
        return true;
    }
    let mut result = evaluate_condition(&conditions[0], item, ctx);
    let mut i: usize = 1;
    while i < conditions.len()
        invariant
            1 <= i <= conditions@.len(),
            spec_item_amounts_wf(item@),
            spec_conditions_ok(conditions@, item@),
            result == spec_fold_conditions(conditions@, i as int, item@, ctx),
        decreases conditions.len() - i,
    {
        let c = &conditions[i];
        let b = evaluate_condition(c, item, ctx);
        result = match c.logic {
            ConditionLogic::And => result && b,
            ConditionLogic::Or => result || b,
        };
        i += 1;
    }
    result
}

/// Whether a condition can be evaluated on the item.
pub fn condition_ok(condition: &FilterCondition, item: &Item) -> (r: bool)
    requires
        spec_item_amounts_wf(item@),
    ensures
        r == spec_condition_ok(*condition, item@),
{
    match condition.field {
        FilterCategory::Price => price_eval_ok(item, condition.operator, condition.value.as_str()),
        _ => true,
    }
}

/// Whether every condition can be evaluated on the item.
pub fn conditions_ok(conditions: &Vec<FilterCondition>, item: &Item) -> (r: bool)
    requires
        spec_item_amounts_wf(item@),
    ensures
        r == spec_conditions_ok(conditions@, item@),
{
    let mut i: usize = 0;
    while i < conditions.len()
        invariant
            i <= conditions@.len(),
            spec_item_amounts_wf(item@),
            forall|k: int| 0 <= k < i ==> spec_condition_ok(#[trigger] conditions@[k], item@),
        decreases conditions.len() - i,
    {
        if !condition_ok(&conditions[i], item) {
            return false;
        }
        i += 1;
    }
    true
}

// ---------------------------------------------------------------------
// Actions
// ---------------------------------------------------------------------

/// A change to selected items.
#[derive(Debug, Clone)]
pub struct FilterAction {
    pub category: FilterCategory,
    pub operation: ActionOperation,
    pub value: String,
    pub entity_id: Option<EntityId>,
    pub swap_from_id: Option<EntityId>,
    pub price_level: Option<EntityId>,
}

/// A single reference swapped: when it names `from`, it names `to`.
pub open spec fn spec_swap_ref(o: Option<EntityId>, from: Option<EntityId>, to: Option<EntityId>) -> Option<EntityId> {
    match (from, to) {
        (Some(f), Some(t)) => if o == Some(f) {
            Some(t)
        } else {
            o
        },
        _ => o,
    }
}

/// The first pair whose id is `from` gets the id `to`.
pub open spec fn spec_swap_first_pair<T>(s: Seq<(EntityId, T)>, from: EntityId, to: EntityId) -> Seq<(EntityId, T)>
    decreases s.len(),
{
    if s.len() == 0 {
        s
    } else if s[0].0 == from {
        s.update(0, (to, s[0].1))
    } else {
        seq![s[0]] + spec_swap_first_pair(s.drop_first(), from, to)
    }
}

/// The first id equal to `from` becomes `to`.
pub open spec fn spec_swap_first_id(s: Seq<EntityId>, from: EntityId, to: EntityId) -> Seq<EntityId>
    decreases s.len(),
{
    if s.len() == 0 {
        s
    } else if s[0] == from {
        s.update(0, to)
    } else {
        seq![s[0]] + spec_swap_first_id(s.drop_first(), from, to)
    }
}

/// A list of pairs swapped, when both ids are chosen.
pub open spec fn spec_swap_pairs<T>(o: Option<Seq<(EntityId, T)>>, from: Option<EntityId>, to: Option<EntityId>) -> Option<Seq<(EntityId, T)>> {
    match (o, from, to) {
        (Some(s), Some(f), Some(t)) => Some(spec_swap_first_pair(s, f, t)),
        _ => o,
    }
}

/// A list of ids swapped, when both ids are chosen.
pub open spec fn spec_swap_ids(o: Option<Seq<EntityId>>, from: Option<EntityId>, to: Option<EntityId>) -> Option<Seq<EntityId>> {
    match (o, from, to) {
        (Some(s), Some(f), Some(t)) => Some(spec_swap_first_id(s, f, t)),
        _ => o,
    }
}

/// The index of the first price of the level.
pub open spec fn spec_first_level(ps: Seq<ItemPrice>, level: EntityId) -> Option<int>
    decreases ps.len(),
{
    if ps.len() == 0 {
        None
    } else if ps[0].price_level_id == level {
        Some(0)
    } else {
        match spec_first_level(ps.drop_first(), level) {
            Some(j) => Some(j + 1),
            None => None,
        }
    }
}

/// Whether a price action works on the default price: no level, or level 0.
pub open spec fn spec_on_default(level: Option<EntityId>) -> bool {
    level is None || level == Some(0i32)
}

/// How a price action changes a price.
#[derive(Debug, Clone, Copy, PartialEq, Eq)]
pub enum PriceChange {
    Replace,
    Add,
    Subtract,
}

/// A price after the change by the action's amount.
pub open spec fn spec_changed_price(mode: PriceChange, p: Amount, x: Amount) -> Amount {
    match mode {
        PriceChange::Replace => x,
        PriceChange::Add => spec_add(p, x)->0,
        PriceChange::Subtract => spec_sub(p, x)->0,
    }
}

/// The prices per level after one level's price is changed; a level without
/// a price gets the amount itself, except when subtracting (no change).
pub open spec fn spec_update_level(o: Option<Seq<ItemPrice>>, level: EntityId, mode: PriceChange, x: Amount) -> Option<Seq<ItemPrice>> {
    match o {
        Some(ps) => match spec_first_level(ps, level) {
            Some(i) => Some(ps.update(i, ItemPrice { price_level_id: level, price: spec_changed_price(mode, ps[i].price, x) })),
            None => if mode == PriceChange::Subtract {
                o
            } else {
                Some(ps.push(ItemPrice { price_level_id: level, price: x }))
            },
        },
        None => if mode == PriceChange::Subtract {
            o
        } else {
            Some(seq![ItemPrice { price_level_id: level, price: x }])
        },
    }
}

/// What an action does to an item. Swaps change the first reference to the
/// `from` entity; price actions read the value as a decimal (doing nothing
/// when it is not one) and work on the default price or on one level's
/// price. Adding puts the chosen choice group, printer or price level on
/// the item's list once, as the item editor does; removing drops every
/// entry of it, keeping the others in order (a removed price level also
/// loses its prices). Without a chosen entity these do nothing.
pub open spec fn spec_apply_action(it: ItemModel, a: FilterAction) -> ItemModel {
    if a.category == FilterCategory::Price {
        spec_apply_price_action(it, a)
    } else if a.operation == ActionOperation::Add || a.operation == ActionOperation::Remove {
        spec_apply_list_action(it, a)
    } else {
        spec_apply_swap_action(it, a)
    }
}

/// What adding or removing a list entry does to an item.
pub open spec fn spec_apply_list_action(it: ItemModel, a: FilterAction) -> ItemModel {
    let from = a.swap_from_id;
    let to = a.entity_id;
    match (a.category, a.operation) {
        (FilterCategory::ChoiceGroup, ActionOperation::Add) => match to {
            Some(g) => ItemModel { choice_groups: crate::item_edit::spec_add_choice_group(it.choice_groups, g), ..it },
            None => it,
        },
        (FilterCategory::ChoiceGroup, ActionOperation::Remove) => match to {
            Some(g) => ItemModel { choice_groups: crate::item_edit::spec_remove_pairs(it.choice_groups, g), ..it },
            None => it,
        },
        (FilterCategory::PrinterLogical, ActionOperation::Add) => match to {
            Some(p) => ItemModel { printer_logicals: crate::item_edit::spec_add_printer(it.printer_logicals, p), ..it },
            None => it,
        },
        (FilterCategory::PrinterLogical, ActionOperation::Remove) => match to {
            Some(p) => ItemModel { printer_logicals: crate::item_edit::spec_remove_pairs(it.printer_logicals, p), ..it },
            None => it,
        },
        (FilterCategory::PriceLevel, ActionOperation::Add) => match to {
            Some(l) => ItemModel { price_levels: crate::item_edit::spec_add_id_once(it.price_levels, l), ..it },
            None => it,
        },
        (FilterCategory::PriceLevel, ActionOperation::Remove) => match to {
            Some(l) => ItemModel {
                price_levels: crate::menu_builder::spec_list_without(it.price_levels, l),
                item_prices: crate::item_edit::spec_prices_without(it.item_prices, l),
                ..it
            },
            None => it,
        },
        _ => it,
    }
}

/// What a swap does to an item.
pub open spec fn spec_apply_swap_action(it: ItemModel, a: FilterAction) -> ItemModel {
    let from = a.swap_from_id;
    let to = a.entity_id;
    match (a.category, a.operation) {
        (FilterCategory::ItemGroup, ActionOperation::SwapTo) => ItemModel { item_group: spec_swap_ref(it.item_group, from, to), ..it },
        (FilterCategory::TaxGroup, ActionOperation::SwapTo) => ItemModel { tax_group: spec_swap_ref(it.tax_group, from, to), ..it },
        (FilterCategory::SecurityLevel, ActionOperation::SwapTo) => ItemModel { security_level: spec_swap_ref(it.security_level, from, to), ..it },
        (FilterCategory::RevenueCategory, ActionOperation::SwapTo) => ItemModel { revenue_category: spec_swap_ref(it.revenue_category, from, to), ..it },
        (FilterCategory::ReportCategory, ActionOperation::SwapTo) => ItemModel { report_category: spec_swap_ref(it.report_category, from, to), ..it },
        (FilterCategory::ProductClass, ActionOperation::SwapTo) => ItemModel { product_class: spec_swap_ref(it.product_class, from, to), ..it },
        (FilterCategory::PrinterLogical, ActionOperation::SwapTo) => ItemModel { printer_logicals: spec_swap_pairs(it.printer_logicals, from, to), ..it },
        (FilterCategory::ChoiceGroup, ActionOperation::SwapTo) => ItemModel { choice_groups: spec_swap_pairs(it.choice_groups, from, to), ..it },
        (FilterCategory::PriceLevel, ActionOperation::SwapTo) => ItemModel { price_levels: spec_swap_ids(it.price_levels, from, to), ..it },
        _ => it,
    }
}

/// What a price action does to an item.
pub open spec fn spec_apply_price_action(it: ItemModel, a: FilterAction) -> ItemModel {
    let from = a.swap_from_id;
    let to = a.entity_id;
    match (a.category, a.operation) {
        (FilterCategory::Price, ActionOperation::SetPrice) => match spec_parse(a.value@) {
            Some(x) => if spec_on_default(a.price_level) {
                ItemModel { default_price: Some(x), ..it }
            } else {
                ItemModel { item_prices: spec_update_level(it.item_prices, a.price_level->0, PriceChange::Replace, x), ..it }
            },
            None => it,
        },
        (FilterCategory::Price, ActionOperation::AddToPrice) => match spec_parse(a.value@) {
            Some(x) => if spec_on_default(a.price_level) {
                ItemModel {
                    default_price: Some(match it.default_price {
                        Some(cur) => spec_add(cur, x)->0,
                        None => x,
                    }),
                    ..it
                }
            } else {
                ItemModel { item_prices: spec_update_level(it.item_prices, a.price_level->0, PriceChange::Add, x), ..it }
            },
            None => it,
        },
        (FilterCategory::Price, ActionOperation::SubtractFromPrice) => match spec_parse(a.value@) {
            Some(x) => if spec_on_default(a.price_level) {
                ItemModel {
                    default_price: match it.default_price {
                        Some(cur) => Some(spec_sub(cur, x)->0),
                        None => None,
                    },
                    ..it
                }
            } else {
                ItemModel { item_prices: spec_update_level(it.item_prices, a.price_level->0, PriceChange::Subtract, x), ..it }
            },
            None => it,
        },
        _ => it,
    }
}

/// An action can be applied to the item: a sum or difference it forms stays
/// within the decimal range.
pub open spec fn spec_action_ok(it: ItemModel, a: FilterAction) -> bool {
    match (a.category, a.operation, spec_parse(a.value@)) {
        (FilterCategory::Price, ActionOperation::AddToPrice, Some(x)) => if spec_on_default(a.price_level) {
            it.default_price matches Some(cur) ==> spec_add(cur, x) is Some
        } else {
            it.item_prices matches Some(ps) ==> (spec_first_level(ps, a.price_level->0) matches Some(i) ==> spec_add(ps[i].price, x) is Some)
        },
        (FilterCategory::Price, ActionOperation::SubtractFromPrice, Some(x)) => if spec_on_default(a.price_level) {
            it.default_price matches Some(cur) ==> spec_sub(cur, x) is Some
        } else {
            it.item_prices matches Some(ps) ==> (spec_first_level(ps, a.price_level->0) matches Some(i) ==> spec_sub(ps[i].price, x) is Some)
        },
        _ => true,
    }
}

fn first_level(ps: &Vec<ItemPrice>, level: EntityId) -> (r: Option<usize>)
    ensures
        match r {
            Some(i) => spec_first_level(ps@, level) == Some(i as int) && i < ps@.len(),
            None => spec_first_level(ps@, level) is None,
        },
{
    let mut i: usize = 0;
    proof {
        assert(ps@.skip(0) =~= ps@);
    }
    while i < ps.len()
        invariant
            i <= ps@.len(),
            spec_first_level(ps@, level) == match spec_first_level(ps@.skip(i as int), level) {
                Some(j) => Some(j + i),
                None => None::<int>,
            },
        decreases ps.len() - i,
    {
        proof {
            assert(ps@.skip(i as int)[0] == ps@[i as int]);
            assert(ps@.skip(i as int).drop_first() =~= ps@.skip(i + 1));
        }
        if ps[i].price_level_id == level {
            return Some(i);
        }
        i += 1;
    }
    proof {
        assert(ps@.skip(i as int) =~= Seq::<ItemPrice>::empty());
    }
    None
}

fn swap_first_pair<T: Copy>(v: &mut Vec<(EntityId, T)>, from: EntityId, to: EntityId)
    ensures
        final(v)@ == spec_swap_first_pair(old(v)@, from, to),
{
    let ghost v0 = v@;
    let mut i: usize = 0;
    proof {
        assert(v0.skip(0) =~= v0);
        assert(v0.take(0) + spec_swap_first_pair(v0, from, to) =~= spec_swap_first_pair(v0, from, to));
    }
    while i < v.len() && v[i].0 != from
        invariant
            i <= v@.len(),
            v@ == v0,
            v0.take(i as int) + spec_swap_first_pair(v0.skip(i as int), from, to) == spec_swap_first_pair(v0, from, to),
        decreases v.len() - i,
    {
        proof {
            let rest = v0.skip(i as int);
            assert(rest[0] == v0[i as int]);
            assert(rest.drop_first() =~= v0.skip(i + 1));
            assert(v0.take(i + 1) =~= v0.take(i as int) + seq![v0[i as int]]);
            assert(v0.take(i + 1) + spec_swap_first_pair(v0.skip(i + 1), from, to) =~= v0.take(i as int) + spec_swap_first_pair(rest, from, to));
        }
        i += 1;
    }
    if i < v.len() {
        let p = v[i];
        v.set(i, (to, p.1));
        proof {
            let rest = v0.skip(i as int);
            assert(rest[0] == v0[i as int]);
            assert(v@ =~= v0.take(i as int) + spec_swap_first_pair(rest, from, to));
        }
    } else {
        proof {
            assert(v0.skip(i as int) =~= Seq::<(EntityId, T)>::empty());
            assert(v@ =~= v0.take(i as int) + spec_swap_first_pair(v0.skip(i as int), from, to));
        }
    }
}

fn swap_first_id(v: &mut Vec<EntityId>, from: EntityId, to: EntityId)
    ensures
        final(v)@ == spec_swap_first_id(old(v)@, from, to),
{
    let ghost v0 = v@;
    let mut i: usize = 0;
    proof {
        assert(v0.skip(0) =~= v0);
        assert(v0.take(0) + spec_swap_first_id(v0, from, to) =~= spec_swap_first_id(v0, from, to));
    }
    while i < v.len() && v[i] != from
        invariant
            i <= v@.len(),
            v@ == v0,
            v0.take(i as int) + spec_swap_first_id(v0.skip(i as int), from, to) == spec_swap_first_id(v0, from, to),
        decreases v.len() - i,
    {
        proof {
            let rest = v0.skip(i as int);
            assert(rest[0] == v0[i as int]);
            assert(rest.drop_first() =~= v0.skip(i + 1));
            assert(v0.take(i + 1) =~= v0.take(i as int) + seq![v0[i as int]]);
            assert(v0.take(i + 1) + spec_swap_first_id(v0.skip(i + 1), from, to) =~= v0.take(i as int) + spec_swap_first_id(rest, from, to));
        }
        i += 1;
    }
    if i < v.len() {
        v.set(i, to);
        proof {
            let rest = v0.skip(i as int);
            assert(rest[0] == v0[i as int]);
            assert(v@ =~= v0.take(i as int) + spec_swap_first_id(rest, from, to));
        }
    } else {
        proof {
            assert(v0.skip(i as int) =~= Seq::<EntityId>::empty());
            assert(v@ =~= v0.take(i as int) + spec_swap_first_id(v0.skip(i as int), from, to));
        }
    }
}

/// Changes one level's price in the item's prices per level.
fn update_level(prices: &mut Option<Vec<ItemPrice>>, level: EntityId, mode: PriceChange, x: Amount)
    requires
        x.wf(),
        *old(prices) matches Some(ps) ==> crate::import_items::spec_prices_wf(ps@),
        *old(prices) matches Some(ps) ==> (spec_first_level(ps@, level) matches Some(i) ==> match mode {
            PriceChange::Add => spec_add(ps@[i].price, x) is Some,
            PriceChange::Subtract => spec_sub(ps@[i].price, x) is Some,
            PriceChange::Replace => true,
        }),
    ensures
        crate::import_items::opt_seq_of(&*final(prices)) == spec_update_level(crate::import_items::opt_seq_of(&*old(prices)), level, mode, x),
        *final(prices) matches Some(ps) ==> crate::import_items::spec_prices_wf(ps@),
{
    match prices.take() {
        Some(mut ps) => {
            match first_level(&ps, level) {
                Some(i) => {
                    let cur = ps[i].price;
                    let np = match mode {
                        PriceChange::Replace => x,
                        PriceChange::Add => match checked_add(cur, x) {
                            Some(v) => v,
                            None => {
                                assert(false);
                                x
                            },
                        },
                        PriceChange::Subtract => match checked_sub(cur, x) {
                            Some(v) => v,
                            None => {
                                assert(false);
                                x
                            },
                        },
                    };
                    let ghost before = ps@;
                    ps.set(i, ItemPrice { price_level_id: level, price: np });
                    proof {
                        assert forall|k: int| 0 <= k < ps@.len() implies (#[trigger] ps@[k]).price.wf() by {
                            if k != i {
                                assert(ps@[k] == before[k]);
                            }
                        }
                    }
                    *prices = Some(ps);
                },
                None => {
                    match mode {
                        PriceChange::Subtract => {
                            *prices = Some(ps);
                        },
                        _ => {
                            let ghost before = ps@;
                            ps.push(ItemPrice { price_level_id: level, price: x });
                            proof {
                                assert forall|k: int| 0 <= k < ps@.len() implies (#[trigger] ps@[k]).price.wf() by {
                                    if k < before.len() {
                                        assert(ps@[k] == before[k]);
                                    }
                                }
                            }
                            *prices = Some(ps);
                        },
                    }
                },
            }
        },
        None => {
            match mode {
                PriceChange::Subtract => {},
                _ => {
                    let mut v: Vec<ItemPrice> = Vec::new();
                    v.push(ItemPrice { price_level_id: level, price: x });
                    proof {
                        assert(v@ =~= seq![ItemPrice { price_level_id: level, price: x }]);
                    }
                    *prices = Some(v);
                },
            }
        },
    }
}

/// Applies a swap action to an item.
#[verifier::rlimit(100)]
#[verifier::spinoff_prover]
proof fn lemma_other_levels_keep_wf(ps: Seq<ItemPrice>, l: EntityId)
    requires
        crate::import_items::spec_prices_wf(ps),
    ensures
        crate::import_items::spec_prices_wf(ps.filter(|q: ItemPrice| q.price_level_id != l)),
    decreases ps.len(),
{
    reveal_with_fuel(Seq::filter, 1);
    if ps.len() > 0 {
        lemma_other_levels_keep_wf(ps.drop_last(), l);
        assert(ps.drop_last().len() < ps.len());
    }
}

/// Adds or removes the chosen entity on one of the item's lists.
#[verifier::rlimit(50)]
fn apply_list_action(item: &mut Item, action: &FilterAction)
    requires
        action.operation == ActionOperation::Add || action.operation == ActionOperation::Remove,
        action.category == FilterCategory::ChoiceGroup || action.category == FilterCategory::PrinterLogical
            || action.category == FilterCategory::PriceLevel,
    ensures
        final(item)@ == spec_apply_list_action(old(item)@, *action),
        spec_item_amounts_wf(old(item)@) ==> spec_item_amounts_wf(final(item)@),
{
    proof {
        if let Some(ps) = item@.item_prices {
            if let Some(l) = action.entity_id {
                if crate::import_items::spec_prices_wf(ps) {
                    lemma_other_levels_keep_wf(ps, l);
                }
            }
        }
    }
    let x = match action.entity_id {
        Some(x) => x,
        None => return,
    };
    let add = match action.operation {
        ActionOperation::Add => true,
        _ => false,
    };
    match action.category {
        FilterCategory::ChoiceGroup => {
            item.choice_groups = if add {
                crate::item_edit::add_choice_group(&item.choice_groups, x)
            } else {
                crate::item_edit::remove_pairs(&item.choice_groups, x)
            };
        },
        FilterCategory::PrinterLogical => {
            item.printer_logicals = if add {
                crate::item_edit::add_printer(&item.printer_logicals, x)
            } else {
                crate::item_edit::remove_pairs(&item.printer_logicals, x)
            };
        },
        _ => {
            if add {
                item.price_levels = crate::item_edit::add_id_once(&item.price_levels, x);
            } else {
                crate::menu_builder::clean_price_level(item, x);
            }
        },
    }
}

#[verifier::rlimit(100)]
#[verifier::spinoff_prover]
fn apply_swap_action(item: &mut Item, action: &FilterAction)
    requires
        action.category != FilterCategory::Price,
        action.operation != ActionOperation::Add,
        action.operation != ActionOperation::Remove,
    ensures
        final(item)@ == spec_apply_swap_action(old(item)@, *action),
{
    let from = action.swap_from_id;
    let to = action.entity_id;
    match (action.category, action.operation) {
        (FilterCategory::ItemGroup, ActionOperation::SwapTo) => item.item_group = swap_ref(item.item_group, from, to),
        (FilterCategory::TaxGroup, ActionOperation::SwapTo) => item.tax_group = swap_ref(item.tax_group, from, to),
        (FilterCategory::SecurityLevel, ActionOperation::SwapTo) => item.security_level = swap_ref(item.security_level, from, to),
        (FilterCategory::RevenueCategory, ActionOperation::SwapTo) => item.revenue_category = swap_ref(item.revenue_category, from, to),
        (FilterCategory::ReportCategory, ActionOperation::SwapTo) => item.report_category = swap_ref(item.report_category, from, to),
        (FilterCategory::ProductClass, ActionOperation::SwapTo) => item.product_class = swap_ref(item.product_class, from, to),
        (FilterCategory::PrinterLogical, ActionOperation::SwapTo) => {
            match (from, to) {
                (Some(f), Some(t)) => {
                    match item.printer_logicals.take() {
                        Some(mut v) => {
                            swap_first_pair(&mut v, f, t);
                            item.printer_logicals = Some(v);
                        },
                        None => {},
                    }
                },
                _ => {},
            }
        },
        (FilterCategory::ChoiceGroup, ActionOperation::SwapTo) => {
            match (from, to) {
                (Some(f), Some(t)) => {
                    match item.choice_groups.take() {
                        Some(mut v) => {
                            swap_first_pair(&mut v, f, t);
                            item.choice_groups = Some(v);
                        },
                        None => {},
                    }
                },
                _ => {},
            }
        },
        (FilterCategory::PriceLevel, ActionOperation::SwapTo) => {
            match (from, to) {
                (Some(f), Some(t)) => {
                    match item.price_levels.take() {
                        Some(mut v) => {
                            swap_first_id(&mut v, f, t);
                            item.price_levels = Some(v);
                        },
                        None => {},
                    }
                },
                _ => {},
            }
        },
        _ => {},
    }
}

/// Applies a price action to an item.
#[verifier::rlimit(100)]
#[verifier::spinoff_prover]
fn apply_price_action(item: &mut Item, action: &FilterAction)
    requires
        action.category == FilterCategory::Price,
        spec_item_amounts_wf(old(item)@),
        spec_action_ok(old(item)@, *action),
    ensures
        final(item)@ == spec_apply_price_action(old(item)@, *action),
        spec_item_amounts_wf(final(item)@),
{
    let mode = match action.operation {
        ActionOperation::SetPrice => PriceChange::Replace,
        ActionOperation::AddToPrice => PriceChange::Add,
        ActionOperation::SubtractFromPrice => PriceChange::Subtract,
        _ => return,
    };
    match parse_amount(action.value.as_str()) {
        Some(x) => {
            let on_default = match action.price_level {
                None => true,
                Some(l) => l == 0,
            };
            if on_default {
                let np = match mode {
                    PriceChange::Replace => Some(x),
                    PriceChange::Add => match item.default_price {
                        Some(cur) => match checked_add(cur, x) {
                            Some(v) => Some(v),
                            None => {
                                assert(false);
                                None
                            },
                        },
                        None => Some(x),
                    },
                    PriceChange::Subtract => match item.default_price {
                        Some(cur) => match checked_sub(cur, x) {
                            Some(v) => Some(v),
                            None => {
                                assert(false);
                                None
                            },
                        },
                        None => None,
                    },
                };
                item.default_price = np;
            } else {
                let level = match action.price_level {
                    Some(l) => l,
                    None => 0,
                };
                update_level(&mut item.item_prices, level, mode, x);
            }
        },
        None => {},
    }
}

/// Applies an action to an item.
pub fn apply_action_to_item(item: &mut Item, action: &FilterAction)
    requires
        spec_item_amounts_wf(old(item)@),
        spec_action_ok(old(item)@, *action),
    ensures
        final(item)@ == spec_apply_action(old(item)@, *action),
        spec_item_amounts_wf(final(item)@),
{
    match (action.category, action.operation) {
        (FilterCategory::Price, _) => apply_price_action(item, action),
        (FilterCategory::ChoiceGroup, ActionOperation::Add)
        | (FilterCategory::ChoiceGroup, ActionOperation::Remove)
        | (FilterCategory::PrinterLogical, ActionOperation::Add)
        | (FilterCategory::PrinterLogical, ActionOperation::Remove)
        | (FilterCategory::PriceLevel, ActionOperation::Add)
        | (FilterCategory::PriceLevel, ActionOperation::Remove) => apply_list_action(item, action),
        (_, ActionOperation::Add) | (_, ActionOperation::Remove) => {},
        _ => apply_swap_action(item, action),
    }
}

fn swap_ref(o: Option<EntityId>, from: Option<EntityId>, to: Option<EntityId>) -> (r: Option<EntityId>)
    ensures
        r == spec_swap_ref(o, from, to),
{
    match (from, to) {
        (Some(f), Some(t)) => if o == Some(f) {
            Some(t)
        } else {
            o
        },
        _ => o,
    }
}

/// Whether an action can be applied to the item.
pub fn action_ok(item: &Item, action: &FilterAction) -> (r: bool)
    requires
        spec_item_amounts_wf(item@),
    ensures
        r == spec_action_ok(item@, *action),
{
    match (action.category, action.operation) {
        (FilterCategory::Price, ActionOperation::AddToPrice)
        | (FilterCategory::Price, ActionOperation::SubtractFromPrice) => {
            let add = match action.operation {
                ActionOperation::AddToPrice => true,
                _ => false,
            };
            match parse_amount(action.value.as_str()) {
                None => true,
                Some(x) => {
                    let on_default = match action.price_level {
                        None => true,
                        Some(l) => l == 0,
                    };
                    if on_default {
                        match item.default_price {
                            None => true,
                            Some(cur) => if add {
                                checked_add(cur, x).is_some()
                            } else {
                                checked_sub(cur, x).is_some()
                            },
                        }
                    } else {
                        let level = match action.price_level {
                            Some(l) => l,
                            None => 0,
                        };
                        match &item.item_prices {
                            None => true,
                            Some(ps) => match first_level(ps, level) {
                                None => true,
                                Some(i) => if add {
                                    checked_add(ps[i].price, x).is_some()
                                } else {
                                    checked_sub(ps[i].price, x).is_some()
                                },
                            },
                        }
                    }
                },
            }
        },
        _ => true,
    }
}

/// The item after the actions, applied in order.
pub open spec fn spec_apply_actions(it: ItemModel, acts: Seq<FilterAction>) -> ItemModel
    decreases acts.len(),
{
    if acts.len() == 0 {
        it
    } else {
        spec_apply_action(spec_apply_actions(it, acts.drop_last()), acts.last())
    }
}

/// Every action can be applied to the item the actions before it leave.
pub open spec fn spec_actions_ok(it: ItemModel, acts: Seq<FilterAction>) -> bool {
    forall|k: int| 0 <= k < acts.len() ==> #[trigger] spec_action_ok(spec_apply_actions(it, acts.take(k)), acts[k])
}

/// Applies the actions in order; none when one of them cannot be applied.
pub fn apply_actions(item: &Item, actions: &Vec<FilterAction>) -> (r: Option<Item>)
    requires
        spec_item_amounts_wf(item@),
    ensures
        r is Some <==> spec_actions_ok(item@, actions@),
        r matches Some(it) ==> it@ == spec_apply_actions(item@, actions@) && spec_item_amounts_wf(it@),
{
    let mut cur = item.copy();
    let mut i: usize = 0;
    proof {
        assert(actions@.take(0) =~= Seq::<FilterAction>::empty());
    }
    while i < actions.len()
        invariant
            i <= actions@.len(),
            cur@ == spec_apply_actions(item@, actions@.take(i as int)),
            spec_item_amounts_wf(cur@),
            forall|k: int| 0 <= k < i ==> #[trigger] spec_action_ok(spec_apply_actions(item@, actions@.take(k)), actions@[k]),
        decreases actions.len() - i,
    {
        let a = &actions[i];
        if !action_ok(&cur, a) {
            return None;
        }
        apply_action_to_item(&mut cur, a);
        proof {
            assert(actions@.take(i + 1).drop_last() =~= actions@.take(i as int));
            assert(actions@.take(i + 1).last() == actions@[i as int]);
        }
        i += 1;
    }
    proof {
        assert(actions@.take(actions@.len() as int) =~= actions@);
    }
    Some(cur)
}

/// Whether two optional amounts are equal by value.
pub open spec fn spec_opt_amount_eq(a: Option<Amount>, b: Option<Amount>) -> bool {
    match (a, b) {
        (Some(x), Some(y)) => crate::money::spec_num_eq(x, y),
        (None, None) => true,
        _ => false,
    }
}

/// Whether two lists of prices are equal, prices by value.
pub open spec fn spec_prices_eq(a: Option<Seq<ItemPrice>>, b: Option<Seq<ItemPrice>>) -> bool {
    match (a, b) {
        (Some(x), Some(y)) => x.len() == y.len() && forall|k: int| 0 <= k < x.len() ==> (#[trigger] x[k]).price_level_id == y[k].price_level_id && crate::money::spec_num_eq(x[k].price, y[k].price),
        (None, None) => true,
        _ => false,
    }
}

/// Whether the fields that actions change are equal (prices by value).
pub open spec fn spec_action_fields_eq(a: ItemModel, b: ItemModel) -> bool {
    &&& a.item_group == b.item_group
    &&& a.tax_group == b.tax_group
    &&& a.security_level == b.security_level
    &&& a.revenue_category == b.revenue_category
    &&& a.report_category == b.report_category
    &&& a.product_class == b.product_class
    &&& a.printer_logicals == b.printer_logicals
    &&& a.choice_groups == b.choice_groups
    &&& a.price_levels == b.price_levels
    &&& spec_opt_amount_eq(a.default_price, b.default_price)
    &&& spec_prices_eq(a.item_prices, b.item_prices)
}

/// An item with the fields actions change taken from `b`, the rest from `a`.
pub open spec fn spec_with_action_fields(a: ItemModel, b: ItemModel) -> ItemModel {
    ItemModel {
        item_group: b.item_group,
        tax_group: b.tax_group,
        security_level: b.security_level,
        revenue_category: b.revenue_category,
        report_category: b.report_category,
        product_class: b.product_class,
        printer_logicals: b.printer_logicals,
        choice_groups: b.choice_groups,
        price_levels: b.price_levels,
        default_price: b.default_price,
        item_prices: b.item_prices,
        ..a
    }
}

#[verifier::rlimit(50)]
#[verifier::spinoff_prover]
proof fn lemma_action_keeps_other_fields(it: ItemModel, a: FilterAction)
    ensures
        spec_with_action_fields(it, spec_apply_action(it, a)) == spec_apply_action(it, a),
{
}

#[verifier::rlimit(50)]
#[verifier::spinoff_prover]
proof fn lemma_with_action_fields_chain(it: ItemModel, y: ItemModel, x: ItemModel)
    requires
        spec_with_action_fields(it, y) == y,
        spec_with_action_fields(y, x) == x,
    ensures
        spec_with_action_fields(it, x) == x,
{
}

/// Actions change no field but those they are about.
pub proof fn lemma_actions_keep_other_fields(it: ItemModel, acts: Seq<FilterAction>)
    ensures
        spec_with_action_fields(it, spec_apply_actions(it, acts)) == spec_apply_actions(it, acts),
    decreases acts.len(),
{
    if acts.len() > 0 {
        let y = spec_apply_actions(it, acts.drop_last());
        lemma_actions_keep_other_fields(it, acts.drop_last());
        lemma_action_keeps_other_fields(y, acts.last());
        lemma_with_action_fields_chain(it, y, spec_apply_action(y, acts.last()));
    } else {
        assert(spec_with_action_fields(it, it) == it);
    }
}

fn opt_amount_eq(a: Option<Amount>, b: Option<Amount>) -> (r: bool)
    requires
        a matches Some(x) ==> x.wf(),
        b matches Some(y) ==> y.wf(),
    ensures
        r == spec_opt_amount_eq(a, b),
{
    match (a, b) {
        (Some(x), Some(y)) => crate::money::num_eq(x, y),
        (None, None) => true,
        _ => false,
    }
}

#[verifier::loop_isolation(false)]
fn prices_eq(a: &Option<Vec<ItemPrice>>, b: &Option<Vec<ItemPrice>>) -> (r: bool)
    requires
        *a matches Some(x) ==> crate::import_items::spec_prices_wf(x@),
        *b matches Some(y) ==> crate::import_items::spec_prices_wf(y@),
    ensures
        r == spec_prices_eq(crate::import_items::opt_seq_of(a), crate::import_items::opt_seq_of(b)),
{
    match (a, b) {
        (Some(x), Some(y)) => {
            if x.len() != y.len() {
                return false;
            }
            let mut i: usize = 0;
            while i < x.len()
                invariant
                    i <= x@.len(),
                    x@.len() == y@.len(),
                    crate::import_items::spec_prices_wf(x@),
                    crate::import_items::spec_prices_wf(y@),
                    forall|k: int| 0 <= k < i ==> (#[trigger] x@[k]).price_level_id == y@[k].price_level_id && crate::money::spec_num_eq(x@[k].price, y@[k].price),
                decreases x.len() - i,
            {
                if x[i].price_level_id != y[i].price_level_id || !crate::money::num_eq(x[i].price, y[i].price) {
                    proof {
                        let xs = x@;
                        let ys = y@;
                        assert(!(xs[i as int].price_level_id == ys[i as int].price_level_id && crate::money::spec_num_eq(xs[i as int].price, ys[i as int].price)));
                        assert(!spec_prices_eq(Some(xs), Some(ys)));
                    }
                    return false;
                }
                i += 1;
            }
            true
        },
        (None, None) => true,
        _ => false,
    }
}

/// Whether the fields actions change are equal (prices by value).
fn action_fields_eq(a: &Item, b: &Item) -> (r: bool)
    requires
        spec_item_amounts_wf(a@),
        spec_item_amounts_wf(b@),
    ensures
        r == spec_action_fields_eq(a@, b@),
{
    a.item_group == b.item_group && a.tax_group == b.tax_group && a.security_level == b.security_level
        && a.revenue_category == b.revenue_category && a.report_category == b.report_category
        && a.product_class == b.product_class && printers_eq(&a.printer_logicals, &b.printer_logicals)
        && groups_eq(&a.choice_groups, &b.choice_groups) && ids_eq(&a.price_levels, &b.price_levels)
        && opt_amount_eq(a.default_price, b.default_price) && prices_eq(&a.item_prices, &b.item_prices)
}

#[verifier::loop_isolation(false)]
fn groups_eq(a: &Option<Vec<(EntityId, i32)>>, b: &Option<Vec<(EntityId, i32)>>) -> (r: bool)
    ensures
        r == (crate::import_items::opt_seq_of(a) == crate::import_items::opt_seq_of(b)),
{
    match (a, b) {
        (Some(x), Some(y)) => {
            if x.len() != y.len() {
                return false;
            }
            let mut i: usize = 0;
            while i < x.len()
                invariant
                    i <= x@.len(),
                    x@.len() == y@.len(),
                    forall|k: int| 0 <= k < i ==> #[trigger] x@[k] == y@[k],
                decreases x.len() - i,
            {
                if x[i].0 != y[i].0 || x[i].1 != y[i].1 {
                    proof {
                        assert(x@[i as int] != y@[i as int]);
                        assert(x@ != y@);
                        assert(Some(x@) != Some(y@));
                    }
                    return false;
                }
                i += 1;
            }
            proof {
                assert(x@ =~= y@);
            }
            true
        },
        (None, None) => true,
        _ => false,
    }
}

#[verifier::loop_isolation(false)]
fn printers_eq(a: &Option<Vec<(EntityId, bool)>>, b: &Option<Vec<(EntityId, bool)>>) -> (r: bool)
    ensures
        r == (crate::import_items::opt_seq_of(a) == crate::import_items::opt_seq_of(b)),
{
    match (a, b) {
        (Some(x), Some(y)) => {
            if x.len() != y.len() {
                return false;
            }
            let mut i: usize = 0;
            while i < x.len()
                invariant
                    i <= x@.len(),
                    x@.len() == y@.len(),
                    forall|k: int| 0 <= k < i ==> #[trigger] x@[k] == y@[k],
                decreases x.len() - i,
            {
                if x[i].0 != y[i].0 || x[i].1 != y[i].1 {
                    proof {
                        assert(x@[i as int] != y@[i as int]);
                        assert(x@ != y@);
                        assert(Some(x@) != Some(y@));
                    }
                    return false;
                }
                i += 1;
            }
            proof {
                assert(x@ =~= y@);
            }
            true
        },
        (None, None) => true,
        _ => false,
    }
}

#[verifier::loop_isolation(false)]
fn ids_eq(a: &Option<Vec<EntityId>>, b: &Option<Vec<EntityId>>) -> (r: bool)
    ensures
        r == (crate::import_items::opt_seq_of(a) == crate::import_items::opt_seq_of(b)),
{
    match (a, b) {
        (Some(x), Some(y)) => {
            if x.len() != y.len() {
                return false;
            }
            let mut i: usize = 0;
            while i < x.len()
                invariant
                    i <= x@.len(),
                    x@.len() == y@.len(),
                    forall|k: int| 0 <= k < i ==> #[trigger] x@[k] == y@[k],
                decreases x.len() - i,
            {
                if x[i] != y[i] {
                    proof {
                        assert(x@[i as int] != y@[i as int]);
                        assert(x@ != y@);
                        assert(Some(x@) != Some(y@));
                    }
                    return false;
                }
                i += 1;
            }
            proof {
                assert(x@ =~= y@);
            }
            true
        },
        (None, None) => true,
        _ => false,
    }
}

/// Whether every amount of the item lies in the decimal range.
pub fn item_amounts_wf(item: &Item) -> (r: bool)
    ensures
        r == spec_item_amounts_wf(item@),
{
    let d = match item.default_price {
        Some(d) => d.is_wf(),
        None => true,
    };
    let c = match item.cost_amount {
        Some(c) => c.is_wf(),
        None => true,
    };
    let p = match &item.item_prices {
        None => true,
        Some(ps) => {
            let mut i: usize = 0;
            let mut ok = true;
            while i < ps.len()
                invariant
                    i <= ps@.len(),
                    ok == (forall|k: int| 0 <= k < i ==> (#[trigger] ps@[k]).price.wf()),
                decreases ps.len() - i,
            {
                ok = ok && ps[i].price.is_wf();
                i += 1;
            }
            ok
        },
    };
    d && c && p && item.weight_amount.is_wf()
}

// ---------------------------------------------------------------------
// The mass editor
// ---------------------------------------------------------------------

/// The conditions, the actions and the preview of a mass edit.
pub struct SuperEdit {
    pub conditions: Vec<FilterCondition>,
    pub actions: Vec<FilterAction>,
    pub filtered_items: Option<BTreeMap<EntityId, Item>>,
    pub modified_items: Option<BTreeMap<EntityId, Item>>,
    pub show_preview: bool,
    pub changed_item_ids: Vec<EntityId>,
}

/// The editor keeps at least one condition and one action: a new editor has
/// one of each, removing refuses the last one, and accepting the changes
/// starts over with one of each. Every method that changes the editor keeps
/// this.
pub open spec fn spec_editor_wf(se: SuperEdit) -> bool {
    se.conditions@.len() >= 1 && se.actions@.len() >= 1
}

/// A condition as its plain fields.
pub open spec fn spec_condition_is(c: FilterCondition, logic: ConditionLogic, field: FilterCategory, op: FilterOperator, value: Seq<char>, entity: Option<EntityId>) -> bool {
    c.logic == logic && c.field == field && c.operator == op && c.value@ == value && c.entity_id == entity
}

/// An action as its plain fields.
pub open spec fn spec_action_is(a: FilterAction, category: FilterCategory, op: ActionOperation, value: Seq<char>, entity: Option<EntityId>, from: Option<EntityId>, level: Option<EntityId>) -> bool {
    a.category == category && a.operation == op && a.value@ == value && a.entity_id == entity && a.swap_from_id == from && a.price_level == level
}

/// The condition a new editor starts with: names that are not empty.
pub open spec fn spec_initial_condition(c: FilterCondition) -> bool {
    spec_condition_is(c, ConditionLogic::And, FilterCategory::Name, FilterOperator::IsNotEmpty, Seq::empty(), None)
}

/// The action a new editor starts with: swap item groups.
pub open spec fn spec_initial_action(a: FilterAction) -> bool {
    spec_action_is(a, FilterCategory::ItemGroup, ActionOperation::SwapTo, Seq::empty(), None, None, None)
}

fn initial_condition() -> (r: FilterCondition)
    ensures
        spec_initial_condition(r),
{
    FilterCondition {
        logic: ConditionLogic::And,
        field: FilterCategory::Name,
        operator: FilterOperator::IsNotEmpty,
        value: String::new(),
        entity_id: None,
    }
}

fn initial_action() -> (r: FilterAction)
    ensures
        spec_initial_action(r),
{
    FilterAction {
        category: FilterCategory::ItemGroup,
        operation: ActionOperation::SwapTo,
        value: String::new(),
        entity_id: None,
        swap_from_id: None,
        price_level: None,
    }
}

/// Every item can be tested by the conditions, and every item they select
/// can take the actions.
pub open spec fn spec_items_ready(items: Map<EntityId, Item>, cs: Seq<FilterCondition>, acts: Seq<FilterAction>, ctx: &ViewContext) -> bool {
    forall|k: EntityId| #[trigger] items.contains_key(k) ==> {
        let it = items[k]@;
        &&& spec_item_amounts_wf(it)
        &&& spec_conditions_ok(cs, it)
        &&& (spec_applies(cs, it, ctx) ==> spec_actions_ok(it, acts))
    }
}

/// The item after a mass edit: the actions applied when the conditions
/// select it.
pub open spec fn spec_edited(it: ItemModel, cs: Seq<FilterCondition>, acts: Seq<FilterAction>, ctx: &ViewContext) -> ItemModel {
    if spec_applies(cs, it, ctx) {
        spec_apply_actions(it, acts)
    } else {
        it
    }
}

/// Whether a mass edit changes the item: a field the actions touch differs
/// (prices by value); the other fields never change.
pub open spec fn spec_changed_by(it: ItemModel, cs: Seq<FilterCondition>, acts: Seq<FilterAction>, ctx: &ViewContext) -> bool {
    spec_applies(cs, it, ctx) && !spec_action_fields_eq(it, spec_apply_actions(it, acts))
}

impl SuperEdit {
    /// A new editor: one condition (name is not empty), one action (swap
    /// item group), no preview.
    pub fn new() -> (r: Self)
        ensures
            spec_editor_wf(r),
            r.conditions@.len() == 1,
            spec_initial_condition(r.conditions@[0]),
            r.actions@.len() == 1,
            spec_initial_action(r.actions@[0]),
            r.filtered_items is None,
            r.modified_items is None,
            !r.show_preview,
            r.changed_item_ids@.len() == 0,
    {
        let mut conditions: Vec<FilterCondition> = Vec::new();
        conditions.push(initial_condition());
        let mut actions: Vec<FilterAction> = Vec::new();
        actions.push(initial_action());
        SuperEdit {
            conditions,
            actions,
            filtered_items: None,
            modified_items: None,
            show_preview: false,
            changed_item_ids: Vec::new(),
        }
    }

    /// Whether the conditions select the item.
    pub fn applies_to_item(&self, item: &Item, ctx: &ViewContext) -> (r: bool)
        requires
            spec_item_amounts_wf(item@),
            spec_conditions_ok(self.conditions@, item@),
        ensures
            r == spec_applies(self.conditions@, item@, ctx),
    {
        conditions_apply(&self.conditions, item, ctx)
    }

    /// Computes the edited items and the ids of those that change, and
    /// shows the preview.
    #[verifier::loop_isolation(false)]
    pub fn preview_changes_unchecked(&mut self, items: &BTreeMap<EntityId, Item>, ctx: &ViewContext)
        requires
            spec_items_ready(items@, old(self).conditions@, old(self).actions@, ctx),
        ensures
            spec_editor_wf(*old(self)) ==> spec_editor_wf(*final(self)),
            final(self).conditions == old(self).conditions,
            final(self).actions == old(self).actions,
            final(self).show_preview,
            final(self).modified_items matches Some(m) && m@.dom() == items@.dom() && forall|k: EntityId|
                #[trigger] m@.contains_key(k) ==> m@[k]@ == spec_edited(items@[k]@, old(self).conditions@, old(self).actions@, ctx),
            forall|x: EntityId| #[trigger] final(self).changed_item_ids@.contains(x) <==> items@.contains_key(x)
                && spec_changed_by(items@[x]@, old(self).conditions@, old(self).actions@, ctx),
            final(self).changed_item_ids@.no_duplicates(),
            forall|a: int, b: int| 0 <= a < b < final(self).changed_item_ids@.len() ==> final(self).changed_item_ids@[a]
                < final(self).changed_item_ids@[b],
    {
        let keys = crate::menu_builder::keys_of(items);
        let mut modified = items.clone();
        let mut changed: Vec<EntityId> = Vec::new();
        let ghost cs = self.conditions@;
        let ghost acts = self.actions@;
        let mut i: usize = 0;
        while i < keys.len()
            invariant
                i <= keys@.len(),
                keys@.to_set() == items@.dom(),
                keys@.no_duplicates(),
                modified@.dom() == items@.dom(),
                cs == self.conditions@,
                acts == self.actions@,
                forall|k: EntityId| #[trigger] modified@.contains_key(k) ==> modified@[k]@ == (if keys@.take(i as int).contains(k) {
                    spec_edited(items@[k]@, cs, acts, ctx)
                } else {
                    items@[k]@
                }),
                forall|x: EntityId| #[trigger] changed@.contains(x) <==> keys@.take(i as int).contains(x)
                    && spec_changed_by(items@[x]@, cs, acts, ctx),
                changed@.no_duplicates(),
                forall|x: EntityId| #[trigger] changed@.contains(x) ==> keys@.take(i as int).contains(x),
                forall|a: int, b: int| 0 <= a < b < keys@.len() ==> keys@[a] < keys@[b],
                forall|a: int, b: int| 0 <= a < b < changed@.len() ==> changed@[a] < changed@[b],
            decreases keys.len() - i,
        {
            let k = keys[i];
            proof {
                assert(keys@.to_set().contains(k));
                assert(!keys@.take(i as int).contains(k)) by {
                    if keys@.take(i as int).contains(k) {
                        let j = choose|j: int| 0 <= j < i && keys@.take(i as int)[j] == k;
                        assert(keys@[j] == keys@[i as int]);
                    }
                }
                assert forall|y: EntityId| #[trigger] keys@.take(i + 1).contains(y) <==> keys@.take(i as int).contains(y) || y == k by {
                    assert(keys@.take(i + 1) =~= keys@.take(i as int).push(k));
                    vstd::seq_lib::lemma_seq_contains_after_push(keys@.take(i as int), k, y);
                }
            }
            let it = items.get(&k).unwrap();
            if self.applies_to_item(it, ctx) {
                let edited = match apply_actions(it, &self.actions) {
                    Some(e) => e,
                    None => {
                        assert(false);
                        it.copy()
                    },
                };
                if !action_fields_eq(it, &edited) {
                    let ghost before = changed@;
                    proof {
                        assert forall|a: int| 0 <= a < before.len() implies before[a] < k by {
                            assert(before.contains(before[a]));
                            assert(keys@.take(i as int).contains(before[a]));
                            let j = choose|j: int| 0 <= j < i && keys@.take(i as int)[j] == before[a];
                            assert(keys@[j] == before[a]);
                        }
                    }
                    changed.push(k);
                    proof {
                        assert forall|a: int, b: int| 0 <= a < b < changed@.len() implies changed@[a] < changed@[b] by {
                            if b < before.len() {
                                assert(changed@[a] == before[a]);
                                assert(changed@[b] == before[b]);
                            } else {
                                assert(changed@[a] == before[a]);
                            }
                        }
                        assert forall|y: EntityId| #[trigger] changed@.contains(y) <==> before.contains(y) || y == k by {
                            vstd::seq_lib::lemma_seq_contains_after_push(before, k, y);
                        }
                        assert(changed@.no_duplicates()) by {
                            assert forall|a: int, b: int| 0 <= a < changed@.len() && 0 <= b < changed@.len() && a != b implies changed@[a] != changed@[b] by {
                                if a < before.len() && b < before.len() {
                                    assert(changed@[a] == before[a]);
                                    assert(changed@[b] == before[b]);
                                } else if a < before.len() {
                                    assert(before.contains(changed@[a]));
                                } else if b < before.len() {
                                    assert(before.contains(changed@[b]));
                                }
                            }
                        }
                    }
                }
                let ghost mb = modified@;
                modified.insert(k, edited);
                proof {
                    assert(modified@.dom() =~= mb.dom());
                }
            }
            i += 1;
        }
        proof {
            assert(keys@.take(keys@.len() as int) =~= keys@);
        }
        self.modified_items = Some(modified);
        self.changed_item_ids = changed;
        self.show_preview = true;
    }

    /// Computes the preview when every item can be tested and edited (where
    /// an amount would leave the decimal range the preview is not computed
    /// and the editor is left as it is); returns whether it was computed.
    pub fn preview_changes(&mut self, items: &BTreeMap<EntityId, Item>, ctx: &ViewContext) -> (r: bool)
        ensures
            spec_editor_wf(*old(self)) ==> spec_editor_wf(*final(self)),
            r == spec_items_ready(items@, old(self).conditions@, old(self).actions@, ctx),
            r ==> final(self).show_preview && (final(self).modified_items matches Some(m) && m@.dom() == items@.dom()
                && forall|k: EntityId| #[trigger] m@.contains_key(k) ==> m@[k]@ == spec_edited(items@[k]@, old(self).conditions@, old(self).actions@, ctx)),
            r ==> forall|x: EntityId| #[trigger] final(self).changed_item_ids@.contains(x) <==> items@.contains_key(x)
                && spec_changed_by(items@[x]@, old(self).conditions@, old(self).actions@, ctx),
            r ==> forall|a: int, b: int| 0 <= a < b < final(self).changed_item_ids@.len() ==> final(self).changed_item_ids@[a]
                < final(self).changed_item_ids@[b],
            !r ==> *final(self) == *old(self),
            final(self).conditions == old(self).conditions,
            final(self).actions == old(self).actions,
    {
        if !self.items_ready(items, ctx) {
            return false;
        }
        self.preview_changes_unchecked(items, ctx);
        true
    }

    /// Whether every item can be tested by the conditions and every item
    /// they select can take the actions.
    pub fn items_ready(&self, items: &BTreeMap<EntityId, Item>, ctx: &ViewContext) -> (r: bool)
        ensures
            r == spec_items_ready(items@, self.conditions@, self.actions@, ctx),
    {
        let keys = crate::menu_builder::keys_of(items);
        let mut i: usize = 0;
        while i < keys.len()
            invariant
                i <= keys@.len(),
                keys@.to_set() == items@.dom(),
                forall|j: int| 0 <= j < i ==> {
                    let it = items@[#[trigger] keys@[j]]@;
                    &&& spec_item_amounts_wf(it)
                    &&& spec_conditions_ok(self.conditions@, it)
                    &&& (spec_applies(self.conditions@, it, ctx) ==> spec_actions_ok(it, self.actions@))
                },
            decreases keys.len() - i,
        {
            let k = keys[i];
            proof {
                assert(keys@.to_set().contains(k));
            }
            let it = items.get(&k).unwrap();
            if !item_amounts_wf(it) || !conditions_ok(&self.conditions, it) {
                return false;
            }
            if conditions_apply(&self.conditions, it, ctx) {
                if apply_actions(it, &self.actions).is_none() {
                    return false;
                }
            }
            i += 1;
        }
        proof {
            assert forall|k: EntityId| #[trigger] items@.contains_key(k) implies {
                let it = items@[k]@;
                &&& spec_item_amounts_wf(it)
                &&& spec_conditions_ok(self.conditions@, it)
                &&& (spec_applies(self.conditions@, it, ctx) ==> spec_actions_ok(it, self.actions@))
            } by {
                assert(keys@.to_set().contains(k));
                let j = choose|j: int| 0 <= j < keys@.len() && keys@[j] == k;
            }
        }
        true
    }

    /// Takes the changed items of the preview into the catalogue: each
    /// changed id that both maps hold gets the edited item. The editor then
    /// starts over with its initial condition and action. Without a preview
    /// nothing happens.
    pub fn accept_changes(&mut self, items: &mut BTreeMap<EntityId, Item>)
        ensures
            spec_editor_wf(*old(self)) ==> spec_editor_wf(*final(self)),
            old(self).modified_items is None ==> *final(self) == *old(self) && *final(items) == *old(items),
            old(self).modified_items matches Some(m) ==> {
                &&& final(items)@.dom() == old(items)@.dom()
                &&& forall|k: EntityId| #[trigger] final(items)@.contains_key(k) ==> final(items)@[k]@ == if old(self).changed_item_ids@.contains(k) && m@.contains_key(k) {
                    m@[k]@
                } else {
                    old(items)@[k]@
                }
            },
            old(self).modified_items is Some ==> {
                &&& final(self).conditions@.len() == 1
                &&& spec_initial_condition(final(self).conditions@[0])
                &&& final(self).actions@.len() == 1
                &&& spec_initial_action(final(self).actions@[0])
                &&& !final(self).show_preview
                &&& final(self).modified_items is None
                &&& final(self).changed_item_ids@.len() == 0
            },
    {
        let modified = match self.modified_items.take() {
            Some(m) => m,
            None => return,
        };
        let ghost ids = self.changed_item_ids@;
        let ghost i0 = items@;
        let mut j: usize = 0;
        while j < self.changed_item_ids.len()
            invariant
                j <= ids.len(),
                ids == self.changed_item_ids@,
                items@.dom() == i0.dom(),
                forall|k: EntityId| #[trigger] items@.contains_key(k) ==> items@[k]@ == if ids.take(j as int).contains(k) && modified@.contains_key(k) {
                    modified@[k]@
                } else {
                    i0[k]@
                },
            decreases ids.len() - j,
        {
            let id = self.changed_item_ids[j];
            proof {
                assert forall|y: EntityId| #[trigger] ids.take(j + 1).contains(y) <==> ids.take(j as int).contains(y) || y == id by {
                    assert(ids.take(j + 1) =~= ids.take(j as int).push(id));
                    vstd::seq_lib::lemma_seq_contains_after_push(ids.take(j as int), id, y);
                }
            }
            match modified.get(&id) {
                Some(m) => {
                    if items.contains_key(&id) {
                        let ghost before = items@;
                        items.insert(id, m.copy());
                        proof {
                            assert(items@.dom() =~= before.dom());
                        }
                    }
                },
                None => {},
            }
            j += 1;
        }
        proof {
            assert(ids.take(ids.len() as int) =~= ids);
        }
        let mut conditions: Vec<FilterCondition> = Vec::new();
        conditions.push(initial_condition());
        let mut actions: Vec<FilterAction> = Vec::new();
        actions.push(initial_action());
        self.conditions = conditions;
        self.actions = actions;
        self.show_preview = false;
        self.modified_items = None;
        self.changed_item_ids = Vec::new();
    }

    /// Closes the preview and forgets the edited items.
    pub fn cancel_preview(&mut self)
        ensures
            spec_editor_wf(*old(self)) ==> spec_editor_wf(*final(self)),
            !final(self).show_preview,
            final(self).modified_items is None,
            final(self).changed_item_ids@.len() == 0,
            final(self).conditions == old(self).conditions,
            final(self).actions == old(self).actions,
    {
        self.show_preview = false;
        self.modified_items = None;
        self.changed_item_ids = Vec::new();
    }

    /// Keeps, as the filtered items, the items the conditions select, when
    /// every item can be tested; returns whether it could.
    pub fn refresh_filtered_items(&mut self, items: &BTreeMap<EntityId, Item>, ctx: &ViewContext) -> (r: bool)
        ensures
            spec_editor_wf(*old(self)) ==> spec_editor_wf(*final(self)),
            r ==> (final(self).filtered_items matches Some(f) && (forall|k: EntityId| #[trigger] f@.contains_key(k) <==> items@.contains_key(k)
                && spec_applies(old(self).conditions@, items@[k]@, ctx)) && forall|k: EntityId| #[trigger] f@.contains_key(k) ==> f@[k]@ == items@[k]@),
            !r ==> *final(self) == *old(self),
            final(self).conditions == old(self).conditions,
            final(self).actions == old(self).actions,
    {
        let keys = crate::menu_builder::keys_of(items);
        let mut filtered: BTreeMap<EntityId, Item> = BTreeMap::new();
        let mut i: usize = 0;
        while i < keys.len()
            invariant
                i <= keys@.len(),
                keys@.to_set() == items@.dom(),
                forall|k: EntityId| #[trigger] filtered@.contains_key(k) <==> keys@.take(i as int).contains(k)
                    && spec_applies(self.conditions@, items@[k]@, ctx),
                forall|k: EntityId| #[trigger] filtered@.contains_key(k) ==> filtered@[k]@ == items@[k]@,
            decreases keys.len() - i,
        {
            let k = keys[i];
            proof {
                assert(keys@.to_set().contains(k));
                assert forall|y: EntityId| #[trigger] keys@.take(i + 1).contains(y) <==> keys@.take(i as int).contains(y) || y == k by {
                    assert(keys@.take(i + 1) =~= keys@.take(i as int).push(k));
                    vstd::seq_lib::lemma_seq_contains_after_push(keys@.take(i as int), k, y);
                }
            }
            let it = items.get(&k).unwrap();
            if !item_amounts_wf(it) || !conditions_ok(&self.conditions, it) {
                return false;
            }
            if conditions_apply(&self.conditions, it, ctx) {
                filtered.insert(k, it.copy());
            }
            i += 1;
        }
        proof {
            assert(keys@.take(keys@.len() as int) =~= keys@);
        }
        self.filtered_items = Some(filtered);
        true
    }

    /// Adds a condition: and, name contains, empty value.
    pub fn add_condition(&mut self)
        ensures
            spec_editor_wf(*old(self)) ==> spec_editor_wf(*final(self)),
            final(self).conditions@.len() == old(self).conditions@.len() + 1,
            final(self).conditions@.take(old(self).conditions@.len() as int) == old(self).conditions@,
            spec_condition_is(final(self).conditions@.last(), ConditionLogic::And, FilterCategory::Name, FilterOperator::Contains, Seq::empty(), None),
            final(self).actions == old(self).actions,
    {
        let c = FilterCondition {
            logic: ConditionLogic::And,
            field: FilterCategory::Name,
            operator: FilterOperator::Contains,
            value: String::new(),
            entity_id: None,
        };
        let ghost before = self.conditions@;
        self.conditions.push(c);
        proof {
            assert(self.conditions@.take(before.len() as int) =~= before);
        }
    }

    /// Removes the condition at `index` unless it is the only one or there
    /// is none there.
    pub fn remove_condition(&mut self, index: usize)
        ensures
            spec_editor_wf(*old(self)) ==> spec_editor_wf(*final(self)),
            final(self).conditions@ == if old(self).conditions@.len() > 1 && index < old(self).conditions@.len() {
                old(self).conditions@.remove(index as int)
            } else {
                old(self).conditions@
            },
            final(self).actions == old(self).actions,
    {
        if self.conditions.len() > 1 && index < self.conditions.len() {
            self.conditions.remove(index);
        }
    }

    /// Sets the logic of the condition at `index`.
    pub fn update_condition_logic(&mut self, index: usize, logic: ConditionLogic)
        ensures
            spec_editor_wf(*old(self)) ==> spec_editor_wf(*final(self)),
            final(self).conditions@.len() == old(self).conditions@.len(),
            forall|j: int| 0 <= j < old(self).conditions@.len() && j != index ==> #[trigger] final(self).conditions@[j] == old(self).conditions@[j],
            index < old(self).conditions@.len() ==> final(self).conditions@[index as int] == (FilterCondition { logic: logic, ..old(self).conditions@[index as int] }),
            final(self).actions == old(self).actions,
    {
        if index < self.conditions.len() {
            let c = &mut self.conditions[index];
            c.logic = logic;
        }
    }

    /// Sets the operator of the condition at `index`.
    pub fn update_condition_operator(&mut self, index: usize, operator: FilterOperator)
        ensures
            spec_editor_wf(*old(self)) ==> spec_editor_wf(*final(self)),
            final(self).conditions@.len() == old(self).conditions@.len(),
            forall|j: int| 0 <= j < old(self).conditions@.len() && j != index ==> #[trigger] final(self).conditions@[j] == old(self).conditions@[j],
            index < old(self).conditions@.len() ==> final(self).conditions@[index as int] == (FilterCondition { operator: operator, ..old(self).conditions@[index as int] }),
            final(self).actions == old(self).actions,
    {
        if index < self.conditions.len() {
            let c = &mut self.conditions[index];
            c.operator = operator;
        }
    }

    /// Sets the value of the condition at `index`.
    pub fn update_condition_value(&mut self, index: usize, value: String)
        ensures
            spec_editor_wf(*old(self)) ==> spec_editor_wf(*final(self)),
            final(self).conditions@.len() == old(self).conditions@.len(),
            forall|j: int| 0 <= j < old(self).conditions@.len() && j != index ==> #[trigger] final(self).conditions@[j] == old(self).conditions@[j],
            index < old(self).conditions@.len() ==> final(self).conditions@[index as int] == (FilterCondition { value: value, ..old(self).conditions@[index as int] }),
            final(self).actions == old(self).actions,
    {
        if index < self.conditions.len() {
            let c = &mut self.conditions[index];
            c.value = value;
        }
    }

    /// Chooses the entity of the condition at `index`.
    pub fn update_condition_entity(&mut self, index: usize, entity_id: EntityId)
        ensures
            spec_editor_wf(*old(self)) ==> spec_editor_wf(*final(self)),
            final(self).conditions@.len() == old(self).conditions@.len(),
            forall|j: int| 0 <= j < old(self).conditions@.len() && j != index ==> #[trigger] final(self).conditions@[j] == old(self).conditions@[j],
            index < old(self).conditions@.len() ==> final(self).conditions@[index as int] == (FilterCondition { entity_id: Some(entity_id), ..old(self).conditions@[index as int] }),
            final(self).actions == old(self).actions,
    {
        if index < self.conditions.len() {
            let c = &mut self.conditions[index];
            c.entity_id = Some(entity_id);
        }
    }

    /// Sets the field of the condition at `index`; an operator the field
    /// does not offer becomes the field's first operator; a text, price or
    /// id field forgets the chosen entity, an entity field forgets the value.
    pub fn update_condition_field(&mut self, index: usize, field: FilterCategory)
        ensures
            spec_editor_wf(*old(self)) ==> spec_editor_wf(*final(self)),
            final(self).conditions@.len() == old(self).conditions@.len(),
            forall|j: int| 0 <= j < old(self).conditions@.len() && j != index ==> #[trigger] final(self).conditions@[j] == old(self).conditions@[j],
            index < old(self).conditions@.len() ==> {
                let c = old(self).conditions@[index as int];
                let n = final(self).conditions@[index as int];
                let ops = spec_operators_for(field);
                &&& n.field == field
                &&& n.logic == c.logic
                &&& n.operator == if ops.contains(c.operator) { c.operator } else { ops[0] }
                &&& match field {
                    FilterCategory::Name | FilterCategory::Price | FilterCategory::Id => n.entity_id is None && n.value == c.value,
                    _ => n.value@ == Seq::<char>::empty() && n.entity_id == c.entity_id,
                }
            },
            final(self).actions == old(self).actions,
    {
        if index < self.conditions.len() {
            let ops = FilterOperator::available_for_field(&field);
            let current = self.conditions[index].operator;
            let mut k: usize = 0;
            while k < ops.len() && ops[k] != current
                invariant
                    k <= ops@.len(),
                    forall|j: int| 0 <= j < k ==> ops@[j] != current,
                decreases ops.len() - k,
            {
                k += 1;
            }
            proof {
                if k < ops@.len() {
                    assert(ops@[k as int] == current);
                }
            }
            let op = if k < ops.len() {
                current
            } else {
                proof {
                    assert(!ops@.contains(current));
                    assert(ops@.len() > 0);
                }
                ops[0]
            };
            let c = &mut self.conditions[index];
            c.field = field;
            c.operator = op;
            match field {
                FilterCategory::Name | FilterCategory::Price | FilterCategory::Id => {
                    c.entity_id = None;
                },
                _ => {
                    c.value = String::new();
                },
            }
        }
    }

    /// Adds an action: swap item groups.
    pub fn add_action(&mut self)
        ensures
            spec_editor_wf(*old(self)) ==> spec_editor_wf(*final(self)),
            final(self).actions@.len() == old(self).actions@.len() + 1,
            final(self).actions@.take(old(self).actions@.len() as int) == old(self).actions@,
            spec_initial_action(final(self).actions@.last()),
            final(self).conditions == old(self).conditions,
    {
        let ghost before = self.actions@;
        self.actions.push(initial_action());
        proof {
            assert(self.actions@.take(before.len() as int) =~= before);
        }
    }

    /// Removes the action at `index` unless it is the only one or there is
    /// none there.
    pub fn remove_action(&mut self, index: usize)
        ensures
            spec_editor_wf(*old(self)) ==> spec_editor_wf(*final(self)),
            final(self).actions@ == if old(self).actions@.len() > 1 && index < old(self).actions@.len() {
                old(self).actions@.remove(index as int)
            } else {
                old(self).actions@
            },
            final(self).conditions == old(self).conditions,
    {
        if self.actions.len() > 1 && index < self.actions.len() {
            self.actions.remove(index);
        }
    }

    /// Sets the category of the action at `index`: an operation the category
    /// does not offer becomes its first one (when it offers any); the chosen
    /// entities and the value are cleared; a price action works on the
    /// default price (level 0).
    pub fn update_action_category(&mut self, index: usize, category: FilterCategory)
        ensures
            spec_editor_wf(*old(self)) ==> spec_editor_wf(*final(self)),
            final(self).actions@.len() == old(self).actions@.len(),
            forall|j: int| 0 <= j < old(self).actions@.len() && j != index ==> #[trigger] final(self).actions@[j] == old(self).actions@[j],
            index < old(self).actions@.len() ==> {
                let a = old(self).actions@[index as int];
                let n = final(self).actions@[index as int];
                let ops = spec_operations_for(category);
                &&& n.category == category
                &&& n.operation == if ops.len() > 0 && !ops.contains(a.operation) { ops[0] } else { a.operation }
                &&& n.entity_id is None
                &&& n.swap_from_id is None
                &&& n.value@ == Seq::<char>::empty()
                &&& n.price_level == if category == FilterCategory::Price { Some(0i32) } else { None }
            },
            final(self).conditions == old(self).conditions,
    {
        if index < self.actions.len() {
            let ops = ActionOperation::available_for_category(&category);
            let current = self.actions[index].operation;
            let mut k: usize = 0;
            while k < ops.len() && ops[k] != current
                invariant
                    k <= ops@.len(),
                    forall|j: int| 0 <= j < k ==> ops@[j] != current,
                decreases ops.len() - k,
            {
                k += 1;
            }
            proof {
                if k < ops@.len() {
                    assert(ops@[k as int] == current);
                }
            }
            let op = if ops.len() > 0 && k == ops.len() {
                proof {
                    assert(!ops@.contains(current));
                }
                ops[0]
            } else {
                current
            };
            let level = match category {
                FilterCategory::Price => Some(0),
                _ => None,
            };
            let a = &mut self.actions[index];
            a.category = category;
            a.operation = op;
            a.entity_id = None;
            a.swap_from_id = None;
            a.value = String::new();
            a.price_level = level;
        }
    }

    /// Sets the operation of the action at `index`.
    pub fn update_action_operation(&mut self, index: usize, operation: ActionOperation)
        ensures
            spec_editor_wf(*old(self)) ==> spec_editor_wf(*final(self)),
            final(self).actions@.len() == old(self).actions@.len(),
            forall|j: int| 0 <= j < old(self).actions@.len() && j != index ==> #[trigger] final(self).actions@[j] == old(self).actions@[j],
            index < old(self).actions@.len() ==> final(self).actions@[index as int] == (FilterAction { operation: operation, ..old(self).actions@[index as int] }),
            final(self).conditions == old(self).conditions,
    {
        if index < self.actions.len() {
            let a = &mut self.actions[index];
            a.operation = operation;
        }
    }

    /// Sets the value of the action at `index`.
    pub fn update_action_value(&mut self, index: usize, value: String)
        ensures
            spec_editor_wf(*old(self)) ==> spec_editor_wf(*final(self)),
            final(self).actions@.len() == old(self).actions@.len(),
            forall|j: int| 0 <= j < old(self).actions@.len() && j != index ==> #[trigger] final(self).actions@[j] == old(self).actions@[j],
            index < old(self).actions@.len() ==> final(self).actions@[index as int] == (FilterAction { value: value, ..old(self).actions@[index as int] }),
            final(self).conditions == old(self).conditions,
    {
        if index < self.actions.len() {
            let a = &mut self.actions[index];
            a.value = value;
        }
    }

    /// Sets the price level of the action at `index`.
    pub fn update_action_price_level(&mut self, index: usize, price_level_id: EntityId)
        ensures
            spec_editor_wf(*old(self)) ==> spec_editor_wf(*final(self)),
            final(self).actions@.len() == old(self).actions@.len(),
            forall|j: int| 0 <= j < old(self).actions@.len() && j != index ==> #[trigger] final(self).actions@[j] == old(self).actions@[j],
            index < old(self).actions@.len() ==> final(self).actions@[index as int] == (FilterAction { price_level: Some(price_level_id), ..old(self).actions@[index as int] }),
            final(self).conditions == old(self).conditions,
    {
        if index < self.actions.len() {
            let a = &mut self.actions[index];
            a.price_level = Some(price_level_id);
        }
    }

    /// Chooses the entity the action at `index` swaps to.
    pub fn update_action_entity(&mut self, index: usize, entity_id: EntityId)
        ensures
            spec_editor_wf(*old(self)) ==> spec_editor_wf(*final(self)),
            final(self).actions@.len() == old(self).actions@.len(),
            forall|j: int| 0 <= j < old(self).actions@.len() && j != index ==> #[trigger] final(self).actions@[j] == old(self).actions@[j],
            index < old(self).actions@.len() ==> final(self).actions@[index as int] == (FilterAction { entity_id: Some(entity_id), ..old(self).actions@[index as int] }),
            final(self).conditions == old(self).conditions,
    {
        if index < self.actions.len() {
            let a = &mut self.actions[index];
            a.entity_id = Some(entity_id);
        }
    }

    /// Chooses the entity the action at `index` swaps from.
    pub fn update_action_swap_from(&mut self, index: usize, entity_id: EntityId)
        ensures
            spec_editor_wf(*old(self)) ==> spec_editor_wf(*final(self)),
            final(self).actions@.len() == old(self).actions@.len(),
            forall|j: int| 0 <= j < old(self).actions@.len() && j != index ==> #[trigger] final(self).actions@[j] == old(self).actions@[j],
            index < old(self).actions@.len() ==> final(self).actions@[index as int] == (FilterAction { swap_from_id: Some(entity_id), ..old(self).actions@[index as int] }),
            final(self).conditions == old(self).conditions,
    {
        if index < self.actions.len() {
            let a = &mut self.actions[index];
            a.swap_from_id = Some(entity_id);
        }
    }
}

/// An id condition compares the item's id with the number its value reads
/// as: `greater than` holds exactly when the id is larger, `less than`
/// exactly when it is smaller; a value that is no number selects nothing.
pub proof fn lemma_id_conditions_compare(id: EntityId, v: Seq<char>)
    ensures
        spec_parse_i32(v) matches Some(x) ==> (spec_eval_id(id, FilterOperator::GreaterThan, v) <==> id > x),
        spec_parse_i32(v) matches Some(x) ==> (spec_eval_id(id, FilterOperator::LessThan, v) <==> id < x),
        spec_parse_i32(v) is None ==> !spec_eval_id(id, FilterOperator::GreaterThan, v),
        spec_parse_i32(v) is None ==> !spec_eval_id(id, FilterOperator::LessThan, v),
{
}

/// A `between` condition written `lo-hi` (two numbers without a minus sign)
/// holds exactly for the ids from `lo` to `hi`, both included.
pub proof fn lemma_id_between(id: EntityId, a: Seq<char>, b: Seq<char>, lo: i32, hi: i32)
    requires
        !a.contains('-'),
        !b.contains('-'),
        spec_parse_i32(a) == Some(lo),
        spec_parse_i32(b) == Some(hi),
    ensures
        spec_eval_id(id, FilterOperator::Between, a + seq!['-'] + b) <==> lo <= id <= hi,
{
    let v = a + seq!['-'] + b;
    assert(v.take(a.len() as int) =~= a);
    assert(v[a.len() as int] == '-');
    crate::text::lemma_first_index_at(v, '-', a.len() as int);
    assert(v.skip(a.len() as int + 1) =~= b);
    crate::text::lemma_first_index_none(b, '-');
    assert(spec_split(b, '-') == seq![b]);
    assert(spec_split(v, '-') =~= seq![a, b]);
}

/// A swap from `f` to `t` on a single reference field makes a field that
/// names `f` name `t`, leaves a field naming anything else (or nothing) as
/// it is, and changes nothing else of the item.
pub proof fn lemma_swap_moves_single_reference(it: ItemModel, a: FilterAction, f: EntityId, t: EntityId)
    requires
        a.operation == ActionOperation::SwapTo,
        a.swap_from_id == Some(f),
        a.entity_id == Some(t),
    ensures
        a.category == FilterCategory::ItemGroup ==> spec_apply_action(it, a) == (ItemModel {
            item_group: if it.item_group == Some(f) { Some(t) } else { it.item_group },
            ..it
        }),
        a.category == FilterCategory::TaxGroup ==> spec_apply_action(it, a) == (ItemModel {
            tax_group: if it.tax_group == Some(f) { Some(t) } else { it.tax_group },
            ..it
        }),
        a.category == FilterCategory::SecurityLevel ==> spec_apply_action(it, a) == (ItemModel {
            security_level: if it.security_level == Some(f) { Some(t) } else { it.security_level },
            ..it
        }),
        a.category == FilterCategory::RevenueCategory ==> spec_apply_action(it, a) == (ItemModel {
            revenue_category: if it.revenue_category == Some(f) { Some(t) } else { it.revenue_category },
            ..it
        }),
        a.category == FilterCategory::ReportCategory ==> spec_apply_action(it, a) == (ItemModel {
            report_category: if it.report_category == Some(f) { Some(t) } else { it.report_category },
            ..it
        }),
        a.category == FilterCategory::ProductClass ==> spec_apply_action(it, a) == (ItemModel {
            product_class: if it.product_class == Some(f) { Some(t) } else { it.product_class },
            ..it
        }),
{
}

proof fn lemma_swap_first_pair_at<T>(s: Seq<(EntityId, T)>, f: EntityId, t: EntityId, i: int)
    requires
        0 <= i < s.len(),
        s[i].0 == f,
        forall|j: int| 0 <= j < i ==> (#[trigger] s[j]).0 != f,
    ensures
        spec_swap_first_pair(s, f, t) == s.update(i, (t, s[i].1)),
    decreases s.len(),
{
    if i > 0 {
        assert forall|j: int| 0 <= j < i - 1 implies (#[trigger] s.drop_first()[j]).0 != f by {
            assert(s.drop_first()[j] == s[j + 1]);
        }
        lemma_swap_first_pair_at(s.drop_first(), f, t, i - 1);
        assert(seq![s[0]] + s.drop_first().update(i - 1, (t, s[i].1)) =~= s.update(i, (t, s[i].1)));
    }
}

proof fn lemma_swap_first_pair_none<T>(s: Seq<(EntityId, T)>, f: EntityId, t: EntityId)
    requires
        forall|j: int| 0 <= j < s.len() ==> (#[trigger] s[j]).0 != f,
    ensures
        spec_swap_first_pair(s, f, t) == s,
    decreases s.len(),
{
    if s.len() > 0 {
        assert forall|j: int| 0 <= j < s.drop_first().len() implies (#[trigger] s.drop_first()[j]).0 != f by {
            assert(s.drop_first()[j] == s[j + 1]);
        }
        lemma_swap_first_pair_none(s.drop_first(), f, t);
        assert(seq![s[0]] + s.drop_first() =~= s);
    }
}

proof fn lemma_swap_first_id_at(s: Seq<EntityId>, f: EntityId, t: EntityId, i: int)
    requires
        0 <= i < s.len(),
        s[i] == f,
        forall|j: int| 0 <= j < i ==> #[trigger] s[j] != f,
    ensures
        spec_swap_first_id(s, f, t) == s.update(i, t),
    decreases s.len(),
{
    if i > 0 {
        assert forall|j: int| 0 <= j < i - 1 implies #[trigger] s.drop_first()[j] != f by {
            assert(s.drop_first()[j] == s[j + 1]);
        }
        lemma_swap_first_id_at(s.drop_first(), f, t, i - 1);
        assert(seq![s[0]] + s.drop_first().update(i - 1, t) =~= s.update(i, t));
    }
}

proof fn lemma_swap_first_id_none(s: Seq<EntityId>, f: EntityId, t: EntityId)
    requires
        forall|j: int| 0 <= j < s.len() ==> #[trigger] s[j] != f,
    ensures
        spec_swap_first_id(s, f, t) == s,
    decreases s.len(),
{
    if s.len() > 0 {
        assert forall|j: int| 0 <= j < s.drop_first().len() implies #[trigger] s.drop_first()[j] != f by {
            assert(s.drop_first()[j] == s[j + 1]);
        }
        lemma_swap_first_id_none(s.drop_first(), f, t);
        assert(seq![s[0]] + s.drop_first() =~= s);
    }
}

/// A swap from `f` to `t` on the item's choice groups gives the first pair naming
/// `f` the id `t`, keeping its second part, and leaves every other pair, and
/// the rest of the item, as it was; a list without `f`, or no list, stays as
/// it is.
#[verifier::rlimit(50)]
pub proof fn lemma_swap_moves_first_choice_group(it: ItemModel, a: FilterAction, f: EntityId, t: EntityId, i: int)
    requires
        a.category == FilterCategory::ChoiceGroup,
        a.operation == ActionOperation::SwapTo,
        a.swap_from_id == Some(f),
        a.entity_id == Some(t),
    ensures
        spec_apply_action(it, a) == (ItemModel { choice_groups: spec_apply_action(it, a).choice_groups, ..it }),
        it.choice_groups is None ==> spec_apply_action(it, a).choice_groups is None,
        it.choice_groups matches Some(s) ==> (0 <= i < s.len() && s[i].0 == f && (forall|j: int| 0 <= j < i ==> (#[trigger] s[j]).0 != f)
            ==> spec_apply_action(it, a).choice_groups == Some(s.update(i, (t, s[i].1)))),
        it.choice_groups matches Some(s) ==> ((forall|j: int| 0 <= j < s.len() ==> (#[trigger] s[j]).0 != f)
            ==> spec_apply_action(it, a).choice_groups == Some(s)),
{
    if let Some(s) = it.choice_groups {
        if 0 <= i < s.len() && s[i].0 == f && (forall|j: int| 0 <= j < i ==> (#[trigger] s[j]).0 != f) {
            lemma_swap_first_pair_at(s, f, t, i);
        }
        if forall|j: int| 0 <= j < s.len() ==> (#[trigger] s[j]).0 != f {
            lemma_swap_first_pair_none(s, f, t);
        }
    }
}

/// A swap from `f` to `t` on the item's kitchen printers gives the first pair naming
/// `f` the id `t`, keeping its second part, and leaves every other pair, and
/// the rest of the item, as it was; a list without `f`, or no list, stays as
/// it is.
#[verifier::rlimit(50)]
pub proof fn lemma_swap_moves_first_printer(it: ItemModel, a: FilterAction, f: EntityId, t: EntityId, i: int)
    requires
        a.category == FilterCategory::PrinterLogical,
        a.operation == ActionOperation::SwapTo,
        a.swap_from_id == Some(f),
        a.entity_id == Some(t),
    ensures
        spec_apply_action(it, a) == (ItemModel { printer_logicals: spec_apply_action(it, a).printer_logicals, ..it }),
        it.printer_logicals is None ==> spec_apply_action(it, a).printer_logicals is None,
        it.printer_logicals matches Some(s) ==> (0 <= i < s.len() && s[i].0 == f && (forall|j: int| 0 <= j < i ==> (#[trigger] s[j]).0 != f)
            ==> spec_apply_action(it, a).printer_logicals == Some(s.update(i, (t, s[i].1)))),
        it.printer_logicals matches Some(s) ==> ((forall|j: int| 0 <= j < s.len() ==> (#[trigger] s[j]).0 != f)
            ==> spec_apply_action(it, a).printer_logicals == Some(s)),
{
    if let Some(s) = it.printer_logicals {
        if 0 <= i < s.len() && s[i].0 == f && (forall|j: int| 0 <= j < i ==> (#[trigger] s[j]).0 != f) {
            lemma_swap_first_pair_at(s, f, t, i);
        }
        if forall|j: int| 0 <= j < s.len() ==> (#[trigger] s[j]).0 != f {
            lemma_swap_first_pair_none(s, f, t);
        }
    }
}

/// A swap from `f` to `t` on the item's price levels makes the first entry
/// `f` read `t` and leaves every other entry, and the rest of the item, as it
/// was; a list without `f`, or no list, stays as it is.
#[verifier::rlimit(50)]
pub proof fn lemma_swap_moves_first_price_level(it: ItemModel, a: FilterAction, f: EntityId, t: EntityId, i: int)
    requires
        a.category == FilterCategory::PriceLevel,
        a.operation == ActionOperation::SwapTo,
        a.swap_from_id == Some(f),
        a.entity_id == Some(t),
    ensures
        spec_apply_action(it, a) == (ItemModel { price_levels: spec_apply_action(it, a).price_levels, ..it }),
        it.price_levels is None ==> spec_apply_action(it, a).price_levels is None,
        it.price_levels matches Some(s) ==> (0 <= i < s.len() && s[i] == f && (forall|j: int| 0 <= j < i ==> #[trigger] s[j] != f)
            ==> spec_apply_action(it, a).price_levels == Some(s.update(i, t))),
        it.price_levels matches Some(s) ==> ((forall|j: int| 0 <= j < s.len() ==> #[trigger] s[j] != f)
            ==> spec_apply_action(it, a).price_levels == Some(s)),
{
    if let Some(s) = it.price_levels {
        if 0 <= i < s.len() && s[i] == f && (forall|j: int| 0 <= j < i ==> #[trigger] s[j] != f) {
            lemma_swap_first_id_at(s, f, t, i);
        }
        if forall|j: int| 0 <= j < s.len() ==> #[trigger] s[j] != f {
            lemma_swap_first_id_none(s, f, t);
        }
    }
}

/// A price condition on an item whose only price is its default price `d`
/// compares `d` with the amount the value reads as, by value: `greater
/// than` holds exactly when `d` is larger, `less than` exactly when it is
/// smaller, and likewise with equality allowed.
pub proof fn lemma_price_conditions_compare(it: ItemModel, d: Amount, v: Seq<char>, c: Amount)
    requires
        it.default_price == Some(d),
        it.item_prices is None,
        spec_parse(v) == Some(c),
    ensures
        spec_eval_price(it, FilterOperator::GreaterThan, v) <==> d.mantissa * crate::money::ten_pow(c.scale) > c.mantissa * crate::money::ten_pow(d.scale),
        spec_eval_price(it, FilterOperator::LessThan, v) <==> d.mantissa * crate::money::ten_pow(c.scale) < c.mantissa * crate::money::ten_pow(d.scale),
        spec_eval_price(it, FilterOperator::GreaterOrEqual, v) <==> d.mantissa * crate::money::ten_pow(c.scale) >= c.mantissa * crate::money::ten_pow(d.scale),
        spec_eval_price(it, FilterOperator::LessOrEqual, v) <==> d.mantissa * crate::money::ten_pow(c.scale) <= c.mantissa * crate::money::ten_pow(d.scale),
        !spec_eval_price(it, FilterOperator::IsEmpty, v),
{
    assert(spec_price_list(it) =~= seq![d]);
    assert(spec_price_list(it)[0] == d);
    assert(spec_parse(v)->0 == c);
    assert(spec_price_matches(spec_price_list(it)[0], spec_parse(v)->0, FilterOperator::GreaterThan) == spec_price_matches(d, c, FilterOperator::GreaterThan));
    assert(spec_price_matches(spec_price_list(it)[0], spec_parse(v)->0, FilterOperator::LessThan) == spec_price_matches(d, c, FilterOperator::LessThan));
    assert(spec_price_matches(spec_price_list(it)[0], spec_parse(v)->0, FilterOperator::GreaterOrEqual) == spec_price_matches(d, c, FilterOperator::GreaterOrEqual));
    assert(spec_price_matches(spec_price_list(it)[0], spec_parse(v)->0, FilterOperator::LessOrEqual) == spec_price_matches(d, c, FilterOperator::LessOrEqual));
}

/// A price action without a price level works on the default price only:
/// setting makes it the amount, adding adds the amount to it (or sets it
/// when there is none), subtracting takes the amount from it (nothing when
/// there is none); the rest of the item stays as it was. A value that is no
/// decimal changes nothing.
pub proof fn lemma_default_price_actions(it: ItemModel, a: FilterAction)
    requires
        a.category == FilterCategory::Price,
        a.price_level is None,
    ensures
        spec_parse(a.value@) is None ==> spec_apply_action(it, a) == it,
        spec_parse(a.value@) matches Some(x) ==> (a.operation == ActionOperation::SetPrice ==> spec_apply_action(it, a) == (ItemModel {
            default_price: Some(x),
            ..it
        })),
        spec_parse(a.value@) matches Some(x) ==> (a.operation == ActionOperation::AddToPrice ==> spec_apply_action(it, a) == (ItemModel {
            default_price: Some(
                match it.default_price {
                    Some(cur) => crate::money::spec_add(cur, x)->0,
                    None => x,
                },
            ),
            ..it
        })),
        spec_parse(a.value@) matches Some(x) ==> (a.operation == ActionOperation::SubtractFromPrice ==> spec_apply_action(it, a) == (ItemModel {
            default_price: match it.default_price {
                Some(cur) => Some(crate::money::spec_sub(cur, x)->0),
                None => None,
            },
            ..it
        })),
{
}

/// Removing choice group `g` leaves no pair naming `g` and keeps every
/// other pair; adding `g` keeps every pair and leaves a pair naming `g`.
pub proof fn lemma_choice_group_list_actions(it: ItemModel, a: FilterAction, g: EntityId)
    requires
        a.category == FilterCategory::ChoiceGroup,
        a.entity_id == Some(g),
    ensures
        a.operation == ActionOperation::Remove ==> spec_apply_action(it, a) == (ItemModel {
            choice_groups: spec_apply_action(it, a).choice_groups,
            ..it
        }),
        a.operation == ActionOperation::Remove ==> (spec_apply_action(it, a).choice_groups matches Some(r) ==> forall|k: int|
            0 <= k < r.len() ==> (#[trigger] r[k]).0 != g),
        a.operation == ActionOperation::Remove ==> (it.choice_groups matches Some(s) ==> spec_apply_action(it, a).choice_groups matches Some(r)
            && forall|k: int| 0 <= k < s.len() && (#[trigger] s[k]).0 != g ==> r.contains(s[k])),
        a.operation == ActionOperation::Add ==> spec_apply_action(it, a) == (ItemModel {
            choice_groups: spec_apply_action(it, a).choice_groups,
            ..it
        }),
        a.operation == ActionOperation::Add ==> (spec_apply_action(it, a).choice_groups matches Some(r) && exists|k: int|
            0 <= k < r.len() && (#[trigger] r[k]).0 == g),
        a.operation == ActionOperation::Add ==> (it.choice_groups matches Some(s) ==> spec_apply_action(it, a).choice_groups matches Some(r)
            && r.len() >= s.len() && r.take(s.len() as int) == s),
{
    if a.operation == ActionOperation::Remove {
        if let Some(s) = it.choice_groups {
            s.filter_lemma(|p: (EntityId, i32)| p.0 != g);
            if !crate::item_edit::spec_has_pair(s, g) {
                assert forall|k: int| 0 <= k < s.len() implies (#[trigger] s[k]).0 != g by {
                    if s[k].0 == g {
                        assert(crate::item_edit::spec_has_pair(s, g));
                    }
                }
                assert forall|k: int| 0 <= k < s.len() && (#[trigger] s[k]).0 != g implies s.contains(s[k]) by {
                }
            }
        }
    }
    if a.operation == ActionOperation::Add {
        assert(spec_apply_action(it, a).choice_groups == crate::item_edit::spec_add_choice_group(it.choice_groups, g));
        if let Some(s) = it.choice_groups {
            if crate::item_edit::spec_has_pair(s, g) {
                assert(s.take(s.len() as int) =~= s);
                let k = choose|k: int| 0 <= k < s.len() && #[trigger] s[k].0 == g;
                assert(spec_apply_action(it, a).choice_groups == Some(s));
                assert(spec_apply_action(it, a).choice_groups->0[k].0 == g);
            } else {
                let r = s.push((g, crate::item_edit::spec_sequence_no(s.len())));
                assert(r.take(s.len() as int) =~= s);
                assert(spec_apply_action(it, a).choice_groups == Some(r));
                assert(spec_apply_action(it, a).choice_groups->0[s.len() as int].0 == g);
            }
        } else {
            let r = seq![(g, 0i32)];
            assert(spec_apply_action(it, a).choice_groups == Some(r));
            assert(spec_apply_action(it, a).choice_groups->0[0].0 == g);
        }
    }
}

} // verus!
