//! Items: the sellable menu entries, their model, copying, validation
//! against the catalogue and the list search.

use crate::choice_groups::ChoiceGroup;
use crate::data_types::{EntityId, ErrorKind, ItemPrice, ValidationError, outcome, spec_byte_len, text};
use crate::item_edit::{
    EditState, Message as EditMessage, spec_edit_operation, spec_edited_error, spec_edited_item,
    spec_with_error, update_item,
};
use crate::item_groups::ItemGroup;
use crate::money::Amount;
use crate::price_levels::PriceLevel;
use crate::printer_logicals::PrinterLogical;
use crate::product_classes::ProductClass;
use crate::report_categories::ReportCategory;
use crate::revenue_categories::RevenueCategory;
use crate::security_levels::SecurityLevel;
use crate::preview_changes::spec_pair_ids;
use crate::superedit::HasName;
use crate::tax_groups::TaxGroup;
use crate::text::{
    chars_of, contains, int_string, lowercase, push_str, spec_contains, spec_int_text,
    spec_is_blank, spec_lowercase, str_is_blank,
};
use std::collections::BTreeMap;
use vstd::prelude::*;

verus! {

broadcast use vstd::laws_cmp::group_laws_cmp;

/// Whether the items screen lists or edits.
#[derive(Debug, Clone, Copy, PartialEq, Eq)]
pub enum Mode {
    View,
    Edit,
}

/// A menu item.
#[derive(Debug, Clone)]
pub struct Item {
    pub id: EntityId,
    pub name: String,
    pub button1: String,
    pub button2: Option<String>,
    pub printer_text: String,
    pub price_levels: Option<Vec<EntityId>>,
    pub default_price: Option<Amount>,
    pub item_prices: Option<Vec<ItemPrice>>,
    pub product_class: Option<EntityId>,
    pub revenue_category: Option<EntityId>,
    pub tax_group: Option<EntityId>,
    pub security_level: Option<EntityId>,
    pub report_category: Option<EntityId>,
    pub use_weight: bool,
    pub weight_amount: Amount,
    pub sku: Option<String>,
    pub bar_gun_code: Option<String>,
    pub cost_amount: Option<Amount>,
    pub reserved1: bool,
    pub ask_price: bool,
    pub print_on_check: bool,
    pub discountable: bool,
    pub voidable: bool,
    pub not_active: bool,
    pub tax_included: bool,
    pub item_group: Option<EntityId>,
    pub customer_receipt: String,
    pub allow_price_override: bool,
    pub reserved2: bool,
    pub choice_groups: Option<Vec<(EntityId, i32)>>,
    pub printer_logicals: Option<Vec<(EntityId, bool)>>,
    pub covers: i32,
    pub store_id: i32,
    pub kitchen_video: String,
    pub kds_dept: i32,
    pub kds_category: String,
    pub kds_cooktime: i32,
    pub store_price_level: Option<Vec<EntityId>>,
    pub image_id: i32,
    pub stock_item: bool,
    pub language_iso_code: String,
}

/// An item as plain values.
pub struct ItemModel {
    pub id: EntityId,
    pub name: Seq<char>,
    pub button1: Seq<char>,
    pub button2: Option<Seq<char>>,
    pub printer_text: Seq<char>,
    pub price_levels: Option<Seq<EntityId>>,
    pub default_price: Option<Amount>,
    pub item_prices: Option<Seq<ItemPrice>>,
    pub product_class: Option<EntityId>,
    pub revenue_category: Option<EntityId>,
    pub tax_group: Option<EntityId>,
    pub security_level: Option<EntityId>,
    pub report_category: Option<EntityId>,
    pub use_weight: bool,
    pub weight_amount: Amount,
    pub sku: Option<Seq<char>>,
    pub bar_gun_code: Option<Seq<char>>,
    pub cost_amount: Option<Amount>,
    pub reserved1: bool,
    pub ask_price: bool,
    pub print_on_check: bool,
    pub discountable: bool,
    pub voidable: bool,
    pub not_active: bool,
    pub tax_included: bool,
    pub item_group: Option<EntityId>,
    pub customer_receipt: Seq<char>,
    pub allow_price_override: bool,
    pub reserved2: bool,
    pub choice_groups: Option<Seq<(EntityId, i32)>>,
    pub printer_logicals: Option<Seq<(EntityId, bool)>>,
    pub covers: i32,
    pub store_id: i32,
    pub kitchen_video: Seq<char>,
    pub kds_dept: i32,
    pub kds_category: Seq<char>,
    pub kds_cooktime: i32,
    pub store_price_level: Option<Seq<EntityId>>,
    pub image_id: i32,
    pub stock_item: bool,
    pub language_iso_code: Seq<char>,
}

/// The text of an optional string.
pub open spec fn opt_text(o: Option<String>) -> Option<Seq<char>> {
    match o {
        Some(s) => Some(s@),
        None => None,
    }
}

/// The contents of an optional vector.
pub open spec fn opt_seq<T>(o: Option<Vec<T>>) -> Option<Seq<T>> {
    match o {
        Some(v) => Some(v@),
        None => None,
    }
}

impl View for Item {
    type V = ItemModel;

    open spec fn view(&self) -> ItemModel {
        ItemModel {
            id: self.id,
            name: self.name@,
            button1: self.button1@,
            button2: opt_text(self.button2),
            printer_text: self.printer_text@,
            price_levels: opt_seq(self.price_levels),
            default_price: self.default_price,
            item_prices: opt_seq(self.item_prices),
            product_class: self.product_class,
            revenue_category: self.revenue_category,
            tax_group: self.tax_group,
            security_level: self.security_level,
            report_category: self.report_category,
            use_weight: self.use_weight,
            weight_amount: self.weight_amount,
            sku: opt_text(self.sku),
            bar_gun_code: opt_text(self.bar_gun_code),
            cost_amount: self.cost_amount,
            reserved1: self.reserved1,
            ask_price: self.ask_price,
            print_on_check: self.print_on_check,
            discountable: self.discountable,
            voidable: self.voidable,
            not_active: self.not_active,
            tax_included: self.tax_included,
            item_group: self.item_group,
            customer_receipt: self.customer_receipt@,
            allow_price_override: self.allow_price_override,
            reserved2: self.reserved2,
            choice_groups: opt_seq(self.choice_groups),
            printer_logicals: opt_seq(self.printer_logicals),
            covers: self.covers,
            store_id: self.store_id,
            kitchen_video: self.kitchen_video@,
            kds_dept: self.kds_dept,
            kds_category: self.kds_category@,
            kds_cooktime: self.kds_cooktime,
            store_price_level: opt_seq(self.store_price_level),
            image_id: self.image_id,
            stock_item: self.stock_item,
            language_iso_code: self.language_iso_code@,
        }
    }
}

/// A map of items by id, each item taken as plain values.
pub open spec fn items_model(m: Map<EntityId, Item>) -> Map<EntityId, ItemModel> {
    Map::new(|k: EntityId| m.contains_key(k), |k: EntityId| m[k]@)
}

/// A copy of a vector of plain values.
pub fn copy_vec<T: Copy>(v: &Vec<T>) -> (r: Vec<T>)
    ensures
        r@ == v@,
{
    let mut r: Vec<T> = Vec::new();
    let mut i: usize = 0;
    while i < v.len()
        invariant
            i <= v@.len(),
            r@ == v@.subrange(0, i as int),
        decreases v.len() - i,
    {
        r.push(v[i]);
        i += 1;
        proof {
            assert(r@ =~= v@.subrange(0, i as int));
        }
    }
    proof {
        assert(v@.subrange(0, v@.len() as int) =~= v@);
    }
    r
}

/// A copy of an optional vector of plain values.
pub fn copy_opt_vec<T: Copy>(o: &Option<Vec<T>>) -> (r: Option<Vec<T>>)
    ensures
        opt_seq(r) == opt_seq(*o),
{
    match o {
        Some(v) => Some(copy_vec(v)),
        None => None,
    }
}

/// A copy of an optional string.
pub fn copy_opt_string(o: &Option<String>) -> (r: Option<String>)
    ensures
        opt_text(r) == opt_text(*o),
{
    match o {
        Some(s) => Some(s.clone()),
        None => None,
    }
}

/// The model of a default item.
pub open spec fn spec_default_item() -> ItemModel {
    ItemModel {
        id: -1i32,
        name: "New Item"@,
        button1: Seq::empty(),
        button2: None,
        printer_text: Seq::empty(),
        price_levels: None,
        default_price: None,
        item_prices: None,
        product_class: None,
        revenue_category: None,
        tax_group: None,
        security_level: None,
        report_category: None,
        use_weight: false,
        weight_amount: Amount { mantissa: 0, scale: 0 },
        sku: None,
        bar_gun_code: None,
        cost_amount: None,
        reserved1: false,
        ask_price: false,
        print_on_check: true,
        discountable: true,
        voidable: true,
        not_active: false,
        tax_included: false,
        item_group: None,
        customer_receipt: Seq::empty(),
        allow_price_override: false,
        reserved2: false,
        choice_groups: None,
        printer_logicals: None,
        covers: 0,
        store_id: 0,
        kitchen_video: Seq::empty(),
        kds_dept: 0,
        kds_category: Seq::empty(),
        kds_cooktime: 0,
        store_price_level: None,
        image_id: 0,
        stock_item: false,
        language_iso_code: Seq::empty(),
    }
}

impl Default for Item {
    fn default() -> (r: Self)
        ensures
            r@ == spec_default_item(),
    {
        Item {
            id: -1,
            name: text("New Item"),
            button1: String::new(),
            button2: None,
            printer_text: String::new(),
            default_price: None,
            price_levels: None,
            item_prices: None,
            product_class: None,
            revenue_category: None,
            tax_group: None,
            security_level: None,
            report_category: None,
            use_weight: false,
            weight_amount: Amount::zero(),
            sku: None,
            bar_gun_code: None,
            cost_amount: None,
            reserved1: false,
            ask_price: false,
            print_on_check: true,
            discountable: true,
            voidable: true,
            not_active: false,
            tax_included: false,
            item_group: None,
            customer_receipt: String::new(),
            allow_price_override: false,
            reserved2: false,
            choice_groups: None,
            printer_logicals: None,
            covers: 0,
            store_id: 0,
            kitchen_video: String::new(),
            kds_dept: 0,
            kds_category: String::new(),
            kds_cooktime: 0,
            store_price_level: None,
            image_id: 0,
            stock_item: false,
            language_iso_code: String::new(),
        }
    }
}

/// The catalogue an item is checked against: every entity kind by id.
pub struct ViewContext {
    pub available_items: BTreeMap<EntityId, Item>,
    pub available_item_groups: BTreeMap<EntityId, ItemGroup>,
    pub available_tax_groups: BTreeMap<EntityId, TaxGroup>,
    pub available_security_levels: BTreeMap<EntityId, SecurityLevel>,
    pub available_revenue_categories: BTreeMap<EntityId, RevenueCategory>,
    pub available_report_categories: BTreeMap<EntityId, ReportCategory>,
    pub available_product_classes: BTreeMap<EntityId, ProductClass>,
    pub available_choice_groups: BTreeMap<EntityId, ChoiceGroup>,
    pub available_printer_logicals: BTreeMap<EntityId, PrinterLogical>,
    pub available_price_levels: BTreeMap<EntityId, PriceLevel>,
}

/// Whether an optional reference names a key of the map (or is absent).
pub open spec fn ref_ok(r: Option<EntityId>, keys: Set<EntityId>) -> bool {
    match r {
        Some(id) => keys.contains(id),
        None => true,
    }
}

/// Whether every id of an optional list is a key of the map.
pub open spec fn refs_ok(r: Option<Seq<EntityId>>, keys: Set<EntityId>) -> bool {
    r is Some ==> forall|i: int| 0 <= i < r->0.len() ==> keys.contains(#[trigger] r->0[i])
}

/// Whether the first component of every pair of an optional list is a key.
pub open spec fn pair_refs_ok<T>(r: Option<Seq<(EntityId, T)>>, keys: Set<EntityId>) -> bool {
    r is Some ==> forall|i: int| 0 <= i < r->0.len() ==> keys.contains(#[trigger] r->0[i].0)
}

/// The message for an item id outside its group's range.
pub open spec fn spec_range_message(start: EntityId, end: EntityId) -> Seq<char> {
    "ID must be within group range ("@ + spec_int_text(start as int) + "-"@ + spec_int_text(
        end as int,
    ) + ")"@
}

/// The outcome of validating an item against the catalogue.
pub open spec fn spec_item_validate(it: ItemModel, ctx: &ViewContext) -> Result<
    (),
    (ErrorKind, Seq<char>),
> {
    if spec_is_blank(it.name) {
        Err((ErrorKind::EmptyName, "Item name cannot be empty"@))
    } else if spec_byte_len(it.button1) > 15 {
        Err((ErrorKind::InvalidValue, "Button 1 text exceeds 15 characters"@))
    } else if it.button2 matches Some(b2) && spec_byte_len(b2) > 15 {
        Err((ErrorKind::InvalidValue, "Button 2 text exceeds 15 characters"@))
    } else if it.item_group matches Some(gid) && !ctx.available_item_groups@.contains_key(gid) {
        Err((ErrorKind::InvalidReference, "Referenced item group does not exist"@))
    } else if it.item_group matches Some(gid) && ({
        let g = ctx.available_item_groups@[gid];
        it.id < g.id_range.start || it.id > g.id_range.end
    }) {
        let g = ctx.available_item_groups@[it.item_group.unwrap()];
        Err((ErrorKind::InvalidId, spec_range_message(g.id_range.start, g.id_range.end)))
    } else if !ref_ok(it.tax_group, ctx.available_tax_groups@.dom()) {
        Err((ErrorKind::InvalidReference, "Referenced tax group does not exist"@))
    } else if !ref_ok(it.security_level, ctx.available_security_levels@.dom()) {
        Err((ErrorKind::InvalidReference, "Referenced security level does not exist"@))
    } else if !ref_ok(it.revenue_category, ctx.available_revenue_categories@.dom()) {
        Err((ErrorKind::InvalidReference, "Referenced revenue category does not exist"@))
    } else if !ref_ok(it.report_category, ctx.available_report_categories@.dom()) {
        Err((ErrorKind::InvalidReference, "Referenced report category does not exist"@))
    } else if !ref_ok(it.product_class, ctx.available_product_classes@.dom()) {
        Err((ErrorKind::InvalidReference, "Referenced product class does not exist"@))
    } else if !refs_ok(it.price_levels, ctx.available_price_levels@.dom()) {
        Err((ErrorKind::InvalidReference, "Referenced price level does not exist"@))
    } else if !pair_refs_ok(it.choice_groups, ctx.available_choice_groups@.dom()) {
        Err((ErrorKind::InvalidReference, "Referenced choice group does not exist"@))
    } else if !pair_refs_ok(it.printer_logicals, ctx.available_printer_logicals@.dom()) {
        Err((ErrorKind::InvalidReference, "Referenced printer logical does not exist"@))
    } else {
        Ok(())
    }
}

/// Whether every id of an optional list is a key of the map.
#[verifier::loop_isolation(false)]
fn all_keys<V>(ids: &Option<Vec<EntityId>>, m: &BTreeMap<EntityId, V>) -> (r: bool)
    ensures
        r == refs_ok(opt_seq(*ids), m@.dom()),
{
    match ids {
        None => true,
        Some(v) => {
            let mut i: usize = 0;
            while i < v.len()
                invariant
                    i <= v@.len(),
                    forall|j: int| 0 <= j < i ==> m@.dom().contains(#[trigger] v@[j]),
                decreases v.len() - i,
            {
                if !m.contains_key(&v[i]) {
                    assert(!m@.dom().contains(v@[i as int]));
                    assert(opt_seq(*ids) is Some && opt_seq(*ids)->0 == v@);

                    return false;
                }
                i += 1;
            }
            true
        },
    }
}

/// Whether the first component of every pair of an optional list is a key.
#[verifier::loop_isolation(false)]
fn all_pair_keys<T: Copy, V>(ps: &Option<Vec<(EntityId, T)>>, m: &BTreeMap<EntityId, V>) -> (r:
    bool)
    ensures
        r == pair_refs_ok(opt_seq(*ps), m@.dom()),
{
    match ps {
        None => true,
        Some(v) => {
            let mut i: usize = 0;
            while i < v.len()
                invariant
                    i <= v@.len(),
                    forall|j: int| 0 <= j < i ==> m@.dom().contains(#[trigger] v@[j].0),
                decreases v.len() - i,
            {
                let id = v[i].0;
                if !m.contains_key(&id) {
                    assert(!m@.dom().contains(v@[i as int].0));
                    assert(opt_seq(*ps) is Some && opt_seq(*ps)->0 == v@);

                    return false;
                }
                i += 1;
            }
            true
        },
    }
}

/// Whether an optional reference is a key of the map (or absent).
fn key_ok<V>(r: Option<EntityId>, m: &BTreeMap<EntityId, V>) -> (b: bool)
    ensures
        b == ref_ok(r, m@.dom()),
{
    match r {
        Some(id) => m.contains_key(&id),
        None => true,
    }
}

impl Item {
    /// A default item.
    pub fn new() -> (r: Self)
        ensures
            r@ == spec_default_item(),
    {
        Self::default()
    }

    /// A copy of the item.
    pub fn copy(&self) -> (r: Self)
        ensures
            r@ == self@,
    {
        Item {
            id: self.id,
            name: self.name.clone(),
            button1: self.button1.clone(),
            button2: copy_opt_string(&self.button2),
            printer_text: self.printer_text.clone(),
            price_levels: copy_opt_vec(&self.price_levels),
            default_price: self.default_price,
            item_prices: copy_opt_vec(&self.item_prices),
            product_class: self.product_class,
            revenue_category: self.revenue_category,
            tax_group: self.tax_group,
            security_level: self.security_level,
            report_category: self.report_category,
            use_weight: self.use_weight,
            weight_amount: self.weight_amount,
            sku: copy_opt_string(&self.sku),
            bar_gun_code: copy_opt_string(&self.bar_gun_code),
            cost_amount: self.cost_amount,
            reserved1: self.reserved1,
            ask_price: self.ask_price,
            print_on_check: self.print_on_check,
            discountable: self.discountable,
            voidable: self.voidable,
            not_active: self.not_active,
            tax_included: self.tax_included,
            item_group: self.item_group,
            customer_receipt: self.customer_receipt.clone(),
            allow_price_override: self.allow_price_override,
            reserved2: self.reserved2,
            choice_groups: copy_opt_vec(&self.choice_groups),
            printer_logicals: copy_opt_vec(&self.printer_logicals),
            covers: self.covers,
            store_id: self.store_id,
            kitchen_video: self.kitchen_video.clone(),
            kds_dept: self.kds_dept,
            kds_category: self.kds_category.clone(),
            kds_cooktime: self.kds_cooktime,
            store_price_level: copy_opt_vec(&self.store_price_level),
            image_id: self.image_id,
            stock_item: self.stock_item,
            language_iso_code: self.language_iso_code.clone(),
        }
    }

    /// Gives the item the first id of its group's range.
    pub fn assign_id_from_group(&mut self, item_group: &ItemGroup) -> (r: Result<(), ValidationError>)
        ensures
            r is Ok,
            final(self)@ == (ItemModel { id: item_group.id_range.start, ..old(self)@ }),
    {
        self.id = item_group.id_range.start;
        Ok(())
    }

    /// Checks the name, the button texts (at most 15 bytes), the id against
    /// the range of the item's group, and that every referenced entity
    /// exists in the catalogue.
    pub fn validate(&self, context: &ViewContext) -> (r: Result<(), ValidationError>)
        ensures
            outcome(r) == spec_item_validate(self@, context),
    {
        if str_is_blank(self.name.as_str()) {
            return Err(ValidationError::EmptyName(text("Item name cannot be empty")));
        }
        if self.button1.as_str().len() > 15 {
            return Err(ValidationError::InvalidValue(text("Button 1 text exceeds 15 characters")));
        }
        if let Some(b2) = &self.button2 {
            if b2.as_str().len() > 15 {
                return Err(
                    ValidationError::InvalidValue(text("Button 2 text exceeds 15 characters")),
                );
            }
        }
        if let Some(group_id) = self.item_group {
            match context.available_item_groups.get(&group_id) {
                Some(group) => {
                    if self.id < group.id_range.start || self.id > group.id_range.end {
                        let mut m = text("ID must be within group range (");
                        let a = int_string(group.id_range.start);
                        push_str(&mut m, a.as_str());
                        push_str(&mut m, "-");
                        let b = int_string(group.id_range.end);
                        push_str(&mut m, b.as_str());
                        push_str(&mut m, ")");
                        return Err(ValidationError::InvalidId(m));
                    }
                },
                None => {
                    return Err(
                        ValidationError::InvalidReference(
                            text("Referenced item group does not exist"),
                        ),
                    );
                },
            }
        }
        if !key_ok(self.tax_group, &context.available_tax_groups) {
            return Err(
                ValidationError::InvalidReference(text("Referenced tax group does not exist")),
            );
        }
        if !key_ok(self.security_level, &context.available_security_levels) {
            return Err(
                ValidationError::InvalidReference(text("Referenced security level does not exist")),
            );
        }
        if !key_ok(self.revenue_category, &context.available_revenue_categories) {
            return Err(
                ValidationError::InvalidReference(
                    text("Referenced revenue category does not exist"),
                ),
            );
        }
        if !key_ok(self.report_category, &context.available_report_categories) {
            return Err(
                ValidationError::InvalidReference(
                    text("Referenced report category does not exist"),
                ),
            );
        }
        if !key_ok(self.product_class, &context.available_product_classes) {
            return Err(
                ValidationError::InvalidReference(text("Referenced product class does not exist")),
            );
        }
        if !all_keys(&self.price_levels, &context.available_price_levels) {
            return Err(
                ValidationError::InvalidReference(text("Referenced price level does not exist")),
            );
        }
        if !all_pair_keys(&self.choice_groups, &context.available_choice_groups) {
            return Err(
                ValidationError::InvalidReference(text("Referenced choice group does not exist")),
            );
        }
        if !all_pair_keys(&self.printer_logicals, &context.available_printer_logicals) {
            return Err(
                ValidationError::InvalidReference(
                    text("Referenced printer logical does not exist"),
                ),
            );
        }
        Ok(())
    }
}


// ---------------------------------------------------------------------
// Messages of the items screen
// ---------------------------------------------------------------------

/// What the items screen asks the menu builder to do.
#[derive(Debug, Clone)]
pub enum Operation {
    Save(Item),
    StartEdit,
    Cancel,
    Back,
    CreateNew(Item),
    Select(EntityId),
    UpdateSearchQuery(String),
    RequestDelete(EntityId),
    CopyItem(EntityId),
    HideModal,
    ShowModal,
    UpdatePrice(EntityId, EntityId, String),
    LaunchMassItemEditWindow,
}

/// A message of the item detail view.
#[derive(Debug, Clone, Copy, PartialEq, Eq)]
pub enum ViewMessage {
    Edit,
    Back,
    ExportToCsv,
}

/// A message of the items screen.
#[derive(Debug, Clone)]
pub enum Message {
    Edit(EditMessage),
    View(ViewMessage),
    CreateNew,
    Select(EntityId),
    SearchItems(String),
    RequestDelete(EntityId),
    CopyItem(EntityId),
    HideModal,
    ShowModal,
    LaunchMassItemEditWindow,
}

/// What a message that is not an edit asks of the menu builder.
pub open spec fn spec_item_operation(m: Message, r: Option<Operation>) -> bool {
    match m {
        Message::Edit(_) => true,
        Message::View(v) => match v {
            ViewMessage::Edit => r matches Some(Operation::StartEdit),
            ViewMessage::Back => r matches Some(Operation::Back),
            ViewMessage::ExportToCsv => r is None,
        },
        Message::CreateNew => r matches Some(Operation::CreateNew(x)) && x@ == spec_default_item(),
        Message::Select(id) => r matches Some(Operation::Select(x)) && x == id,
        Message::SearchItems(q) => r matches Some(Operation::UpdateSearchQuery(x)) && x@ == q@,
        Message::RequestDelete(id) => r matches Some(Operation::RequestDelete(x)) && x == id,
        Message::CopyItem(id) => r matches Some(Operation::CopyItem(x)) && x == id,
        Message::HideModal => r matches Some(Operation::HideModal),
        Message::ShowModal => r matches Some(Operation::ShowModal),
        Message::LaunchMassItemEditWindow => r matches Some(Operation::LaunchMassItemEditWindow),
    }
}

/// Handles a message of the items screen: an edit changes the item (or
/// records why not) in the form; every message says what the menu builder
/// must do next.
pub fn update(item: &mut Item, message: Message, state: &mut EditState) -> (r: Option<Operation>)
    ensures
        match message {
            Message::Edit(m) => {
                &&& final(item)@ == spec_edited_item(old(item)@, m)
                &&& final(state)@ == spec_with_error(old(state)@, spec_edited_error(old(state)@.validation_error, m))
                &&& spec_edit_operation(old(item)@, m, final(item)@, r)
            },
            _ => {
                &&& final(item)@ == old(item)@
                &&& final(state)@ == old(state)@
                &&& spec_item_operation(message, r)
            },
        },
{
    match message {
        Message::Edit(m) => update_item(item, m, state),
        _ => view_operation(message),
    }
}

/// The operation a message other than an edit leads to.
pub fn view_operation(message: Message) -> (r: Option<Operation>)
    requires
        !(message is Edit),
    ensures
        spec_item_operation(message, r),
{
    match message {
        Message::Edit(_) => None,
        Message::View(v) => match v {
            ViewMessage::Edit => Some(Operation::StartEdit),
            ViewMessage::Back => Some(Operation::Back),
            ViewMessage::ExportToCsv => None,
        },
        Message::CreateNew => Some(Operation::CreateNew(Item::new())),
        Message::Select(id) => Some(Operation::Select(id)),
        Message::SearchItems(q) => Some(Operation::UpdateSearchQuery(q)),
        Message::RequestDelete(id) => Some(Operation::RequestDelete(id)),
        Message::CopyItem(id) => Some(Operation::CopyItem(id)),
        Message::HideModal => Some(Operation::HideModal),
        Message::ShowModal => Some(Operation::ShowModal),
        Message::LaunchMassItemEditWindow => Some(Operation::LaunchMassItemEditWindow),
    }
}


// ---------------------------------------------------------------------
// Searching the item list
// ---------------------------------------------------------------------

/// The entity a reference names has a name holding the lower-cased query.
pub open spec fn spec_name_hit<T: HasName>(id: Option<EntityId>, m: Map<EntityId, T>, q: Seq<char>) -> bool {
    match id {
        Some(k) => m.contains_key(k) && spec_contains(spec_lowercase(m[k].spec_has_name()), q),
        None => false,
    }
}

/// Some listed id names an entity whose name holds the lower-cased query.
pub open spec fn spec_list_hit<T: HasName>(ids: Seq<EntityId>, m: Map<EntityId, T>, q: Seq<char>) -> bool {
    exists|i: int|
        0 <= i < ids.len() && m.contains_key(#[trigger] ids[i]) && spec_contains(
            spec_lowercase(m[ids[i]].spec_has_name()),
            q,
        )
}

/// An optional list, taken as its ids.
pub open spec fn spec_opt_list_hit<T: HasName>(ids: Option<Seq<EntityId>>, m: Map<EntityId, T>, q: Seq<char>) -> bool {
    match ids {
        Some(s) => spec_list_hit(s, m, q),
        None => false,
    }
}

/// Whether an item is listed for a search: every item for a blank query,
/// else the items whose name, or the name of an item group, tax group,
/// security level, report category, choice group, printer or price level
/// they reference, holds the query, ignoring case.
pub open spec fn spec_matches_search(it: ItemModel, query: Seq<char>, ctx: &ViewContext) -> bool {
    let q = spec_lowercase(query);
    ||| spec_is_blank(query)
    ||| spec_contains(spec_lowercase(it.name), q)
    ||| spec_name_hit(it.item_group, ctx.available_item_groups@, q)
    ||| spec_name_hit(it.tax_group, ctx.available_tax_groups@, q)
    ||| spec_name_hit(it.security_level, ctx.available_security_levels@, q)
    ||| spec_name_hit(it.report_category, ctx.available_report_categories@, q)
    ||| spec_opt_list_hit(
        match it.choice_groups {
            Some(s) => Some(spec_pair_ids(s)),
            None => None,
        },
        ctx.available_choice_groups@,
        q,
    )
    ||| spec_opt_list_hit(
        match it.printer_logicals {
            Some(s) => Some(spec_pair_ids(s)),
            None => None,
        },
        ctx.available_printer_logicals@,
        q,
    )
    ||| spec_opt_list_hit(it.price_levels, ctx.available_price_levels@, q)
}

fn name_holds<T: HasName>(e: &T, q: &[char]) -> (r: bool)
    ensures
        r == spec_contains(spec_lowercase(e.spec_has_name()), q@),
{
    let l = lowercase(e.name());
    let c = chars_of(l.as_str());
    contains(c.as_slice(), q)
}

fn name_hit<T: HasName>(id: Option<EntityId>, m: &BTreeMap<EntityId, T>, q: &[char]) -> (r: bool)
    ensures
        r == spec_name_hit(id, m@, q@),
{
    match id {
        Some(k) => match m.get(&k) {
            Some(e) => name_holds(e, q),
            None => false,
        },
        None => false,
    }
}

fn list_hit<T: HasName>(ids: &Vec<EntityId>, m: &BTreeMap<EntityId, T>, q: &[char]) -> (r: bool)
    ensures
        r == spec_list_hit(ids@, m@, q@),
{
    let mut i: usize = 0;
    while i < ids.len()
        invariant
            i <= ids@.len(),
            forall|j: int|
                0 <= j < i ==> !(m@.contains_key(#[trigger] ids@[j]) && spec_contains(
                    spec_lowercase(m@[ids@[j]].spec_has_name()),
                    q@,
                )),
        decreases ids.len() - i,
    {
        match m.get(&ids[i]) {
            Some(e) => {
                if name_holds(e, q) {
                    assert(m@.contains_key(ids@[i as int]));
                    return true;
                }
            },
            None => {},
        }
        i += 1;
    }
    false
}

fn pair_ids<U: Copy>(v: &Vec<(EntityId, U)>) -> (r: Vec<EntityId>)
    ensures
        r@ == spec_pair_ids(v@),
{
    let mut r: Vec<EntityId> = Vec::new();
    let mut i: usize = 0;
    while i < v.len()
        invariant
            i <= v@.len(),
            r@ == spec_pair_ids(v@.take(i as int)),
        decreases v.len() - i,
    {
        r.push(v[i].0);
        i += 1;
        proof {
            assert(r@ =~= spec_pair_ids(v@.take(i as int)));
        }
    }
    proof {
        assert(v@.take(v@.len() as int) =~= v@);
    }
    r
}

/// Whether an item is listed for the search query.
pub fn matches_search(item: &Item, query: &str, context: &ViewContext) -> (r: bool)
    ensures
        r == spec_matches_search(item@, query@, context),
{
    if str_is_blank(query) {
        return true;
    }
    let ql = lowercase(query);
    let q = chars_of(ql.as_str());
    let nl = lowercase(item.name.as_str());
    let n = chars_of(nl.as_str());
    if contains(n.as_slice(), q.as_slice()) {
        return true;
    }
    if name_hit(item.item_group, &context.available_item_groups, q.as_slice()) {
        return true;
    }
    if name_hit(item.tax_group, &context.available_tax_groups, q.as_slice()) {
        return true;
    }
    if name_hit(item.security_level, &context.available_security_levels, q.as_slice()) {
        return true;
    }
    if name_hit(item.report_category, &context.available_report_categories, q.as_slice()) {
        return true;
    }
    if let Some(cgs) = &item.choice_groups {
        let ids = pair_ids(cgs);
        if list_hit(&ids, &context.available_choice_groups, q.as_slice()) {
            return true;
        }
    }
    if let Some(pls) = &item.printer_logicals {
        let ids = pair_ids(pls);
        if list_hit(&ids, &context.available_printer_logicals, q.as_slice()) {
            return true;
        }
    }
    if let Some(levels) = &item.price_levels {
        if list_hit(levels, &context.available_price_levels, q.as_slice()) {
            return true;
        }
    }
    false
}

} // verus!
