//! The item edit form: its fields as typed, how each edit message changes
//! the item being edited, and the checks of the form.

use crate::data_types::{EntityId, ErrorKind, ItemPrice, ValidationError, outcome, spec_byte_len, text};
use crate::export_items::{or_empty, spec_or_empty};
use crate::item_groups::ItemGroup;
use crate::entity_component::contains_id;
use crate::items::{Item, ItemModel, Operation, copy_vec, opt_seq, opt_text, spec_range_message};
use crate::menu_builder::{ids_without, pairs_without, spec_list_without, spec_pairs_except};
use crate::money::{Amount, amount_text, parse_amount, spec_parse, spec_text};
use crate::superedit::spec_item_amounts_wf;
use crate::text::{int_string, parse_i32_str, push_str, spec_int_text, spec_is_blank, spec_parse_i32, str_is_blank};
use vstd::prelude::*;

verus! {

/// The edit form of an item: its fields as the user types them.
#[derive(Debug, Clone)]
pub struct EditState {
    pub name: String,
    pub id: String,
    pub button1: String,
    pub button2: String,
    pub printer_text: String,
    pub item_group: Option<EntityId>,
    pub product_class: Option<EntityId>,
    pub revenue_category: Option<EntityId>,
    pub tax_group: Option<EntityId>,
    pub security_level: Option<EntityId>,
    pub report_category: Option<EntityId>,
    pub cost_amount: String,
    pub ask_price: bool,
    pub allow_price_override: bool,
    pub price_levels: Vec<EntityId>,
    pub price: String,
    pub prices: Option<Vec<(EntityId, String)>>,
    pub store_price_level: Vec<EntityId>,
    pub use_weight: bool,
    pub weight_amount: String,
    pub sku: String,
    pub bar_gun_code: String,
    pub reserved1: bool,
    pub print_on_check: bool,
    pub discountable: bool,
    pub voidable: bool,
    pub not_active: bool,
    pub tax_included: bool,
    pub stock_item: bool,
    pub reserved2: bool,
    pub customer_receipt: String,
    pub kitchen_video: String,
    pub kds_category: String,
    pub kds_cooktime: String,
    pub kds_dept: String,
    pub store_id: String,
    pub covers: String,
    pub image_id: String,
    pub language_iso_code: String,
    pub choice_groups: Vec<(EntityId, i32)>,
    pub printer_logicals: Vec<(EntityId, bool)>,
    pub validation_error: Option<String>,
}

/// The edit form as plain values.
pub struct EditStateModel {
    pub name: Seq<char>,
    pub id: Seq<char>,
    pub button1: Seq<char>,
    pub button2: Seq<char>,
    pub printer_text: Seq<char>,
    pub item_group: Option<EntityId>,
    pub product_class: Option<EntityId>,
    pub revenue_category: Option<EntityId>,
    pub tax_group: Option<EntityId>,
    pub security_level: Option<EntityId>,
    pub report_category: Option<EntityId>,
    pub cost_amount: Seq<char>,
    pub ask_price: bool,
    pub allow_price_override: bool,
    pub price_levels: Seq<EntityId>,
    pub price: Seq<char>,
    pub prices: Option<Seq<(EntityId, Seq<char>)>>,
    pub store_price_level: Seq<EntityId>,
    pub use_weight: bool,
    pub weight_amount: Seq<char>,
    pub sku: Seq<char>,
    pub bar_gun_code: Seq<char>,
    pub reserved1: bool,
    pub print_on_check: bool,
    pub discountable: bool,
    pub voidable: bool,
    pub not_active: bool,
    pub tax_included: bool,
    pub stock_item: bool,
    pub reserved2: bool,
    pub customer_receipt: Seq<char>,
    pub kitchen_video: Seq<char>,
    pub kds_category: Seq<char>,
    pub kds_cooktime: Seq<char>,
    pub kds_dept: Seq<char>,
    pub store_id: Seq<char>,
    pub covers: Seq<char>,
    pub image_id: Seq<char>,
    pub language_iso_code: Seq<char>,
    pub choice_groups: Seq<(EntityId, i32)>,
    pub printer_logicals: Seq<(EntityId, bool)>,
    pub validation_error: Option<Seq<char>>,
}

/// The prices of the form as plain values.
pub open spec fn spec_prices_model(p: Option<Vec<(EntityId, String)>>) -> Option<Seq<(EntityId, Seq<char>)>> {
    match p {
        Some(v) => Some(v@.map_values(|e: (EntityId, String)| (e.0, e.1@))),
        None => None,
    }
}

impl View for EditState {
    type V = EditStateModel;

    open spec fn view(&self) -> EditStateModel {
        EditStateModel {
            name: self.name@,
            id: self.id@,
            button1: self.button1@,
            button2: self.button2@,
            printer_text: self.printer_text@,
            item_group: self.item_group,
            product_class: self.product_class,
            revenue_category: self.revenue_category,
            tax_group: self.tax_group,
            security_level: self.security_level,
            report_category: self.report_category,
            cost_amount: self.cost_amount@,
            ask_price: self.ask_price,
            allow_price_override: self.allow_price_override,
            price_levels: self.price_levels@,
            price: self.price@,
            prices: spec_prices_model(self.prices),
            store_price_level: self.store_price_level@,
            use_weight: self.use_weight,
            weight_amount: self.weight_amount@,
            sku: self.sku@,
            bar_gun_code: self.bar_gun_code@,
            reserved1: self.reserved1,
            print_on_check: self.print_on_check,
            discountable: self.discountable,
            voidable: self.voidable,
            not_active: self.not_active,
            tax_included: self.tax_included,
            stock_item: self.stock_item,
            reserved2: self.reserved2,
            customer_receipt: self.customer_receipt@,
            kitchen_video: self.kitchen_video@,
            kds_category: self.kds_category@,
            kds_cooktime: self.kds_cooktime@,
            kds_dept: self.kds_dept@,
            store_id: self.store_id@,
            covers: self.covers@,
            image_id: self.image_id@,
            language_iso_code: self.language_iso_code@,
            choice_groups: self.choice_groups@,
            printer_logicals: self.printer_logicals@,
            validation_error: opt_text(self.validation_error),
        }
    }
}

/// The empty form: every text empty, every flag off, no list.
pub open spec fn spec_blank_edit_state() -> EditStateModel {
    EditStateModel {
        name: Seq::empty(),
        id: Seq::empty(),
        button1: Seq::empty(),
        button2: Seq::empty(),
        printer_text: Seq::empty(),
        item_group: None,
        product_class: None,
        revenue_category: None,
        tax_group: None,
        security_level: None,
        report_category: None,
        cost_amount: Seq::empty(),
        ask_price: false,
        allow_price_override: false,
        price_levels: Seq::empty(),
        price: Seq::empty(),
        prices: None,
        store_price_level: Seq::empty(),
        use_weight: false,
        weight_amount: Seq::empty(),
        sku: Seq::empty(),
        bar_gun_code: Seq::empty(),
        reserved1: false,
        print_on_check: false,
        discountable: false,
        voidable: false,
        not_active: false,
        tax_included: false,
        stock_item: false,
        reserved2: false,
        customer_receipt: Seq::empty(),
        kitchen_video: Seq::empty(),
        kds_category: Seq::empty(),
        kds_cooktime: Seq::empty(),
        kds_dept: Seq::empty(),
        store_id: Seq::empty(),
        covers: Seq::empty(),
        image_id: Seq::empty(),
        language_iso_code: Seq::empty(),
        choice_groups: Seq::empty(),
        printer_logicals: Seq::empty(),
        validation_error: None,
    }
}

impl Default for EditState {
    fn default() -> (r: Self)
        ensures
            r@ == spec_blank_edit_state(),
    {
        EditState {
            name: String::new(),
            id: String::new(),
            button1: String::new(),
            button2: String::new(),
            printer_text: String::new(),
            item_group: None,
            product_class: None,
            revenue_category: None,
            tax_group: None,
            security_level: None,
            report_category: None,
            cost_amount: String::new(),
            ask_price: false,
            allow_price_override: false,
            price_levels: Vec::new(),
            price: String::new(),
            prices: None,
            store_price_level: Vec::new(),
            use_weight: false,
            weight_amount: String::new(),
            sku: String::new(),
            bar_gun_code: String::new(),
            reserved1: false,
            print_on_check: false,
            discountable: false,
            voidable: false,
            not_active: false,
            tax_included: false,
            stock_item: false,
            reserved2: false,
            customer_receipt: String::new(),
            kitchen_video: String::new(),
            kds_category: String::new(),
            kds_cooktime: String::new(),
            kds_dept: String::new(),
            store_id: String::new(),
            covers: String::new(),
            image_id: String::new(),
            language_iso_code: String::new(),
            choice_groups: Vec::new(),
            printer_logicals: Vec::new(),
            validation_error: None,
        }
    }
}

/// The form with a new validation message and every field as it was.
pub open spec fn spec_with_error(s: EditStateModel, e: Option<Seq<char>>) -> EditStateModel {
    EditStateModel {
        name: s.name,
        id: s.id,
        button1: s.button1,
        button2: s.button2,
        printer_text: s.printer_text,
        item_group: s.item_group,
        product_class: s.product_class,
        revenue_category: s.revenue_category,
        tax_group: s.tax_group,
        security_level: s.security_level,
        report_category: s.report_category,
        cost_amount: s.cost_amount,
        ask_price: s.ask_price,
        allow_price_override: s.allow_price_override,
        price_levels: s.price_levels,
        price: s.price,
        prices: s.prices,
        store_price_level: s.store_price_level,
        use_weight: s.use_weight,
        weight_amount: s.weight_amount,
        sku: s.sku,
        bar_gun_code: s.bar_gun_code,
        reserved1: s.reserved1,
        print_on_check: s.print_on_check,
        discountable: s.discountable,
        voidable: s.voidable,
        not_active: s.not_active,
        tax_included: s.tax_included,
        stock_item: s.stock_item,
        reserved2: s.reserved2,
        customer_receipt: s.customer_receipt,
        kitchen_video: s.kitchen_video,
        kds_category: s.kds_category,
        kds_cooktime: s.kds_cooktime,
        kds_dept: s.kds_dept,
        store_id: s.store_id,
        covers: s.covers,
        image_id: s.image_id,
        language_iso_code: s.language_iso_code,
        choice_groups: s.choice_groups,
        printer_logicals: s.printer_logicals,
        validation_error: e,
    }
}

/// The list, empty when there is none.
pub open spec fn spec_or_none_seq<T>(o: Option<Seq<T>>) -> Seq<T> {
    match o {
        Some(s) => s,
        None => Seq::empty(),
    }
}

/// The form opened on an item.
pub open spec fn spec_new_edit_state(it: ItemModel) -> EditStateModel {
    EditStateModel {
        name: it.name,
        id: spec_int_text(it.id as int),
        button1: it.button1,
        button2: spec_or_empty(it.button2),
        printer_text: it.printer_text,
        item_group: it.item_group,
        product_class: it.product_class,
        revenue_category: it.revenue_category,
        tax_group: it.tax_group,
        security_level: it.security_level,
        report_category: it.report_category,
        cost_amount: match it.cost_amount { Some(c) => spec_text(c), None => Seq::empty() },
        ask_price: it.ask_price,
        allow_price_override: it.allow_price_override,
        price_levels: spec_or_none_seq(it.price_levels),
        price: Seq::empty(),
        prices: match it.item_prices { Some(ps) => Some(ps.map_values(|p: ItemPrice| (p.price_level_id, spec_text(p.price)))), None => None },
        store_price_level: spec_or_none_seq(it.store_price_level),
        use_weight: it.use_weight,
        weight_amount: spec_text(it.weight_amount),
        sku: spec_or_empty(it.sku),
        bar_gun_code: spec_or_empty(it.bar_gun_code),
        reserved1: it.reserved1,
        print_on_check: it.print_on_check,
        discountable: it.discountable,
        voidable: it.voidable,
        not_active: it.not_active,
        tax_included: it.tax_included,
        stock_item: it.stock_item,
        reserved2: it.reserved2,
        customer_receipt: it.customer_receipt,
        kitchen_video: it.kitchen_video,
        kds_category: it.kds_category,
        kds_cooktime: spec_int_text(it.kds_cooktime as int),
        kds_dept: spec_int_text(it.kds_dept as int),
        store_id: spec_int_text(it.store_id as int),
        covers: spec_int_text(it.covers as int),
        image_id: spec_int_text(it.image_id as int),
        language_iso_code: it.language_iso_code,
        choice_groups: spec_or_none_seq(it.choice_groups),
        printer_logicals: spec_or_none_seq(it.printer_logicals),
        validation_error: None,
    }
}

fn copy_or_empty<T: Copy>(o: &Option<Vec<T>>) -> (r: Vec<T>)
    ensures
        r@ == spec_or_none_seq(opt_seq(*o)),
{
    match o {
        Some(v) => copy_vec(v),
        None => Vec::new(),
    }
}

fn price_texts(o: &Option<Vec<ItemPrice>>) -> (r: Option<Vec<(EntityId, String)>>)
    requires
        o matches Some(ps) ==> forall|k: int| 0 <= k < ps@.len() ==> (#[trigger] ps@[k]).price.wf(),
    ensures
        spec_prices_model(r) == match opt_seq(*o) {
            Some(ps) => Some(ps.map_values(|p: ItemPrice| (p.price_level_id, spec_text(p.price)))),
            None => None,
        },
{
    match o {
        None => None,
        Some(ps) => {
            let ghost want = ps@.map_values(|p: ItemPrice| (p.price_level_id, spec_text(p.price)));
            let mut r: Vec<(EntityId, String)> = Vec::new();
            let mut i: usize = 0;
            while i < ps.len()
                invariant
                    i <= ps@.len(),
                    want == ps@.map_values(|p: ItemPrice| (p.price_level_id, spec_text(p.price))),
                    forall|k: int| 0 <= k < ps@.len() ==> (#[trigger] ps@[k]).price.wf(),
                    r@.map_values(|e: (EntityId, String)| (e.0, e.1@)) == want.take(i as int),
                decreases ps.len() - i,
            {
                let ghost before = r@.map_values(|e: (EntityId, String)| (e.0, e.1@));
                let t = amount_text(ps[i].price);
                let ghost tv = t@;
                r.push((ps[i].price_level_id, t));
                proof {
                    assert(r@.map_values(|e: (EntityId, String)| (e.0, e.1@)) =~= before.push((ps@[i as int].price_level_id, tv)));
                    assert(want.take(i + 1) =~= want.take(i as int).push(want[i as int]));
                }
                i += 1;
            }
            proof {
                assert(want.take(ps@.len() as int) =~= want);
            }
            Some(r)
        },
    }
}

impl EditState {
    /// The form opened on an item.
    pub fn new(item: &Item) -> (r: Self)
        requires
            spec_item_amounts_wf(item@),
        ensures
            r@ == spec_new_edit_state(item@),
    {
        EditState {
            name: item.name.clone(),
            id: int_string(item.id),
            button1: item.button1.clone(),
            button2: or_empty(&item.button2),
            printer_text: item.printer_text.clone(),
            item_group: item.item_group,
            product_class: item.product_class,
            revenue_category: item.revenue_category,
            tax_group: item.tax_group,
            security_level: item.security_level,
            report_category: item.report_category,
            cost_amount: match item.cost_amount { Some(c) => amount_text(c), None => String::new() },
            ask_price: item.ask_price,
            allow_price_override: item.allow_price_override,
            price_levels: copy_or_empty(&item.price_levels),
            price: String::new(),
            prices: price_texts(&item.item_prices),
            store_price_level: copy_or_empty(&item.store_price_level),
            use_weight: item.use_weight,
            weight_amount: amount_text(item.weight_amount),
            sku: or_empty(&item.sku),
            bar_gun_code: or_empty(&item.bar_gun_code),
            reserved1: item.reserved1,
            print_on_check: item.print_on_check,
            discountable: item.discountable,
            voidable: item.voidable,
            not_active: item.not_active,
            tax_included: item.tax_included,
            stock_item: item.stock_item,
            reserved2: item.reserved2,
            customer_receipt: item.customer_receipt.clone(),
            kitchen_video: item.kitchen_video.clone(),
            kds_category: item.kds_category.clone(),
            kds_cooktime: int_string(item.kds_cooktime),
            kds_dept: int_string(item.kds_dept),
            store_id: int_string(item.store_id),
            covers: int_string(item.covers),
            image_id: int_string(item.image_id),
            language_iso_code: item.language_iso_code.clone(),
            choice_groups: copy_or_empty(&item.choice_groups),
            printer_logicals: copy_or_empty(&item.printer_logicals),
            validation_error: None,
        }
    }

    /// Checks the form: a name, button texts of at most 15 bytes, an id
    /// inside the group's range when a group is given, and readable numbers.
    pub fn validate(&self, item_group: Option<&ItemGroup>) -> (r: Result<(), ValidationError>)
        ensures
            outcome(r) == spec_edit_validate(
                self@,
                match item_group {
                    Some(g) => Some(*g),
                    None => None,
                },
            ),
    {
        if str_is_blank(self.name.as_str()) {
            return Err(ValidationError::EmptyName(text("Item name cannot be empty")));
        }
        if self.button1.as_str().len() > 15 {
            return Err(ValidationError::InvalidValue(text("Button 1 text exceeds 15 characters")));
        }
        if !self.button2.as_str().is_empty() && self.button2.as_str().len() > 15 {
            return Err(ValidationError::InvalidValue(text("Button 2 text exceeds 15 characters")));
        }
        if let Some(group) = item_group {
            match parse_i32_str(self.id.as_str()) {
                None => {
                    return Err(ValidationError::InvalidId(text("Invalid ID format")));
                },
                Some(id) => {
                    if id < group.id_range.start || id > group.id_range.end {
                        let mut m = text("ID must be within group range (");
                        let a = int_string(group.id_range.start);
                        push_str(&mut m, a.as_str());
                        push_str(&mut m, "-");
                        let b = int_string(group.id_range.end);
                        push_str(&mut m, b.as_str());
                        push_str(&mut m, ")");
                        return Err(ValidationError::InvalidId(m));
                    }
                },
            }
        }
        self.validate_numbers()
    }

    fn validate_numbers(&self) -> (r: Result<(), ValidationError>)
        ensures
            outcome(r) == spec_validate_numbers(self@),
    {
        if !self.cost_amount.as_str().is_empty() && parse_amount(self.cost_amount.as_str()).is_none() {
            return Err(ValidationError::InvalidValue(text("Invalid cost amount format")));
        }
        if parse_amount(self.weight_amount.as_str()).is_none() {
            return Err(ValidationError::InvalidValue(text("Invalid weight amount format")));
        }
        if bad_int(&self.kds_cooktime) {
            return Err(ValidationError::InvalidValue(text("Invalid KDS Cook Time format")));
        }
        if bad_int(&self.kds_dept) {
            return Err(ValidationError::InvalidValue(text("Invalid KDS Department format")));
        }
        if bad_int(&self.store_id) {
            return Err(ValidationError::InvalidValue(text("Invalid Store ID format")));
        }
        if bad_int(&self.covers) {
            return Err(ValidationError::InvalidValue(text("Invalid Covers format")));
        }
        if bad_int(&self.image_id) {
            return Err(ValidationError::InvalidValue(text("Invalid Image ID format")));
        }
        Ok(())
    }
}

/// A whole-number field that is filled in but not a readable `i32`.
pub open spec fn spec_bad_int(s: Seq<char>) -> bool {
    s.len() > 0 && spec_parse_i32(s) is None
}

fn bad_int(s: &String) -> (r: bool)
    ensures
        r == spec_bad_int(s@),
{
    !s.as_str().is_empty() && parse_i32_str(s.as_str()).is_none()
}

/// The checks of the form's numbers, in order.
pub open spec fn spec_validate_numbers(s: EditStateModel) -> Result<(), (ErrorKind, Seq<char>)> {
    if s.cost_amount.len() > 0 && spec_parse(s.cost_amount) is None {
        Err((ErrorKind::InvalidValue, "Invalid cost amount format"@))
    } else if spec_parse(s.weight_amount) is None {
        Err((ErrorKind::InvalidValue, "Invalid weight amount format"@))
    } else if spec_bad_int(s.kds_cooktime) {
        Err((ErrorKind::InvalidValue, "Invalid KDS Cook Time format"@))
    } else if spec_bad_int(s.kds_dept) {
        Err((ErrorKind::InvalidValue, "Invalid KDS Department format"@))
    } else if spec_bad_int(s.store_id) {
        Err((ErrorKind::InvalidValue, "Invalid Store ID format"@))
    } else if spec_bad_int(s.covers) {
        Err((ErrorKind::InvalidValue, "Invalid Covers format"@))
    } else if spec_bad_int(s.image_id) {
        Err((ErrorKind::InvalidValue, "Invalid Image ID format"@))
    } else {
        Ok(())
    }
}

/// The outcome of checking the form, the item group given.
pub open spec fn spec_edit_validate(s: EditStateModel, group: Option<ItemGroup>) -> Result<(), (ErrorKind, Seq<char>)> {
    if spec_is_blank(s.name) {
        Err((ErrorKind::EmptyName, "Item name cannot be empty"@))
    } else if spec_byte_len(s.button1) > 15 {
        Err((ErrorKind::InvalidValue, "Button 1 text exceeds 15 characters"@))
    } else if s.button2.len() > 0 && spec_byte_len(s.button2) > 15 {
        Err((ErrorKind::InvalidValue, "Button 2 text exceeds 15 characters"@))
    } else {
        match group {
            Some(g) => match spec_parse_i32(s.id) {
                None => Err((ErrorKind::InvalidId, "Invalid ID format"@)),
                Some(id) => if id < g.id_range.start || id > g.id_range.end {
                    Err((ErrorKind::InvalidId, spec_range_message(g.id_range.start, g.id_range.end)))
                } else {
                    spec_validate_numbers(s)
                },
            },
            None => spec_validate_numbers(s),
        }
    }
}


// ---------------------------------------------------------------------
// Edit messages
// ---------------------------------------------------------------------

/// A change the user makes in the item edit form.
#[derive(Debug, Clone)]
pub enum Message {
    UpdateName(String),
    UpdateBasePrice(String),
    UpdateButton1(String),
    UpdateButton2(String),
    UpdatePrinterText(String),
    SelectItemGroup(Option<EntityId>),
    SelectProductClass(Option<EntityId>),
    SelectRevenueCategory(Option<EntityId>),
    SelectTaxGroup(Option<EntityId>),
    SelectSecurityLevel(Option<EntityId>),
    SelectReportCategory(Option<EntityId>),
    ChoiceGroupSelected(EntityId),
    PriceLevelSelected(EntityId),
    PrinterLogicalSelected(EntityId),
    UpdateCostAmount(String),
    ToggleAskPrice(bool),
    ToggleAllowPriceOverride(bool),
    AddPriceLevel(EntityId),
    RemovePriceLevel(EntityId),
    UpdateStorePriceLevel(Option<EntityId>),
    UpdatePrice(EntityId, String),
    ToggleUseWeight(bool),
    UpdateWeightAmount(String),
    UpdateSku(String),
    UpdateBarGunCode(String),
    ToggleReserved1(bool),
    TogglePrintOnCheck(bool),
    ToggleDiscountable(bool),
    ToggleVoidable(bool),
    ToggleNotActive(bool),
    ToggleTaxIncluded(bool),
    ToggleStockItem(bool),
    ToggleReserved2(bool),
    UpdateCustomerReceipt(String),
    UpdateKitchenVideo(String),
    UpdateKdsCategory(String),
    UpdateKdsCooktime(String),
    UpdateKdsDept(String),
    UpdateStoreId(String),
    UpdateCovers(String),
    UpdateImageId(String),
    UpdateLanguageIsoCode(String),
    AddChoiceGroup(EntityId),
    RemoveChoiceGroup(EntityId),
    AddPrinterLogical(EntityId),
    RemovePrinterLogical(EntityId),
    Save,
    Cancel,
}

/// Some pair of the list has the id first.
pub open spec fn spec_has_pair<T>(s: Seq<(EntityId, T)>, g: EntityId) -> bool {
    exists|k: int| 0 <= k < s.len() && #[trigger] s[k].0 == g
}

/// The place a new choice group takes: the length of the list, `i32::MAX`
/// when that does not fit.
pub open spec fn spec_sequence_no(n: nat) -> i32 {
    if n <= i32::MAX {
        n as i32
    } else {
        i32::MAX
    }
}

/// A choice group added at the end unless it is listed already.
pub open spec fn spec_add_choice_group(o: Option<Seq<(EntityId, i32)>>, g: EntityId) -> Option<Seq<(EntityId, i32)>> {
    match o {
        Some(s) => if spec_has_pair(s, g) {
            Some(s)
        } else {
            Some(s.push((g, spec_sequence_no(s.len()))))
        },
        None => Some(seq![(g, 0i32)]),
    }
}

/// A printer added at the end unless it is listed already; the first
/// printer of an item is its primary one.
pub open spec fn spec_add_printer(o: Option<Seq<(EntityId, bool)>>, p: EntityId) -> Option<Seq<(EntityId, bool)>> {
    match o {
        Some(s) => if spec_has_pair(s, p) {
            Some(s)
        } else {
            Some(s.push((p, false)))
        },
        None => Some(seq![(p, true)]),
    }
}

/// The pairs without those of the id, when some pair has it.
pub open spec fn spec_remove_pairs<T>(o: Option<Seq<(EntityId, T)>>, g: EntityId) -> Option<Seq<(EntityId, T)>> {
    match o {
        Some(s) => if spec_has_pair(s, g) {
            Some(spec_pairs_except(s, g))
        } else {
            Some(s)
        },
        None => None,
    }
}

/// An id added at the end of an optional list.
pub open spec fn spec_push_id(o: Option<Seq<EntityId>>, l: EntityId) -> Option<Seq<EntityId>> {
    match o {
        Some(s) => Some(s.push(l)),
        None => Some(seq![l]),
    }
}

/// An id added at the end of an optional list unless it is listed.
pub open spec fn spec_add_id_once(o: Option<Seq<EntityId>>, l: EntityId) -> Option<Seq<EntityId>> {
    match o {
        Some(s) => if s.contains(l) {
            Some(s)
        } else {
            Some(s.push(l))
        },
        None => Some(seq![l]),
    }
}

/// Zero (`Decimal::ZERO`).
pub open spec fn spec_zero() -> Amount {
    Amount { mantissa: 0, scale: 0 }
}

/// A zero price at the level added at the end.
pub open spec fn spec_push_price(o: Option<Seq<ItemPrice>>, l: EntityId) -> Option<Seq<ItemPrice>> {
    let p = ItemPrice { price_level_id: l, price: spec_zero() };
    match o {
        Some(s) => Some(s.push(p)),
        None => Some(seq![p]),
    }
}

/// The prices at other levels; none when nothing is left.
pub open spec fn spec_prices_without(o: Option<Seq<ItemPrice>>, l: EntityId) -> Option<Seq<ItemPrice>> {
    match o {
        Some(s) => {
            let f = s.filter(|p: ItemPrice| p.price_level_id != l);
            if f.len() == 0 {
                None
            } else {
                Some(f)
            }
        },
        None => None,
    }
}

/// The first price at or after `j` at the level.
pub open spec fn spec_first_price_at(s: Seq<ItemPrice>, l: EntityId, j: int) -> Option<int>
    decreases s.len() - j,
{
    if j < 0 || j >= s.len() {
        None
    } else if s[j].price_level_id == l {
        Some(j)
    } else {
        spec_first_price_at(s, l, j + 1)
    }
}

/// The first price at the level set to the text's amount, when the text is
/// a decimal.
pub open spec fn spec_set_price(o: Option<Seq<ItemPrice>>, l: EntityId, t: Seq<char>) -> Option<Seq<ItemPrice>> {
    match o {
        Some(s) => match (spec_first_price_at(s, l, 0), spec_parse(t)) {
            (Some(k), Some(p)) => Some(s.update(k, ItemPrice { price_level_id: s[k].price_level_id, price: p })),
            _ => Some(s),
        },
        None => None,
    }
}

/// A text, none when it is empty.
pub open spec fn spec_nonempty(t: Seq<char>) -> Option<Seq<char>> {
    if t.len() == 0 {
        None
    } else {
        Some(t)
    }
}

/// The item after an edit message.
pub open spec fn spec_edited_item(it: ItemModel, m: Message) -> ItemModel {
    match m {
        Message::UpdateName(s) => ItemModel { name: s@, ..it },
        Message::UpdateBasePrice(s) => if s@.len() == 0 {
            ItemModel { default_price: Some(Amount { mantissa: 0, scale: 2 }), ..it }
        } else {
            match spec_parse(s@) {
                Some(p) => ItemModel { default_price: Some(p), ..it },
                None => it,
            }
        },
        Message::UpdateButton1(s) => if spec_byte_len(s@) <= 15 {
            ItemModel { button1: s@, ..it }
        } else {
            it
        },
        Message::UpdateButton2(s) => if s@.len() == 0 {
            ItemModel { button2: None, ..it }
        } else if spec_byte_len(s@) <= 15 {
            ItemModel { button2: Some(s@), ..it }
        } else {
            it
        },
        Message::UpdatePrinterText(s) => ItemModel { printer_text: s@, ..it },
        Message::SelectItemGroup(o) => ItemModel { item_group: o, ..it },
        Message::SelectProductClass(o) => ItemModel { product_class: o, ..it },
        Message::SelectRevenueCategory(o) => ItemModel { revenue_category: o, ..it },
        Message::SelectTaxGroup(o) => ItemModel { tax_group: o, ..it },
        Message::SelectSecurityLevel(o) => ItemModel { security_level: o, ..it },
        Message::SelectReportCategory(o) => ItemModel { report_category: o, ..it },
        Message::ChoiceGroupSelected(g) => ItemModel { choice_groups: spec_add_choice_group(it.choice_groups, g), ..it },
        Message::PriceLevelSelected(l) => ItemModel {
            price_levels: spec_push_id(it.price_levels, l),
            item_prices: spec_push_price(it.item_prices, l),
            ..it
        },
        Message::PrinterLogicalSelected(p) => ItemModel { printer_logicals: spec_add_printer(it.printer_logicals, p), ..it },
        Message::UpdateCostAmount(s) => if s@.len() == 0 {
            ItemModel { cost_amount: None, ..it }
        } else {
            match spec_parse(s@) {
                Some(a) => ItemModel { cost_amount: Some(a), ..it },
                None => it,
            }
        },
        Message::ToggleAskPrice(b) => ItemModel { ask_price: b, ..it },
        Message::ToggleAllowPriceOverride(b) => ItemModel { allow_price_override: b, ..it },
        Message::AddPriceLevel(l) => ItemModel { price_levels: spec_add_id_once(it.price_levels, l), ..it },
        Message::RemovePriceLevel(l) => ItemModel {
            price_levels: spec_list_without(it.price_levels, l),
            item_prices: spec_prices_without(it.item_prices, l),
            ..it
        },
        Message::UpdateStorePriceLevel(o) => match o {
            Some(l) => ItemModel { store_price_level: spec_push_id(it.store_price_level, l), ..it },
            None => it,
        },
        Message::UpdatePrice(l, s) => ItemModel { item_prices: spec_set_price(it.item_prices, l, s@), ..it },
        Message::ToggleUseWeight(v) => if v {
            ItemModel { use_weight: v, ..it }
        } else {
            ItemModel { use_weight: v, weight_amount: spec_zero(), ..it }
        },
        Message::UpdateWeightAmount(s) => match spec_parse(s@) {
            Some(a) => ItemModel { weight_amount: a, ..it },
            None => it,
        },
        Message::UpdateSku(s) => ItemModel { sku: spec_nonempty(s@), ..it },
        Message::UpdateBarGunCode(s) => ItemModel { bar_gun_code: spec_nonempty(s@), ..it },
        Message::ToggleReserved1(b) => ItemModel { reserved1: b, ..it },
        Message::TogglePrintOnCheck(b) => ItemModel { print_on_check: b, ..it },
        Message::ToggleDiscountable(b) => ItemModel { discountable: b, ..it },
        Message::ToggleVoidable(b) => ItemModel { voidable: b, ..it },
        Message::ToggleNotActive(b) => ItemModel { not_active: b, ..it },
        Message::ToggleTaxIncluded(b) => ItemModel { tax_included: b, ..it },
        Message::ToggleStockItem(b) => ItemModel { stock_item: b, ..it },
        Message::ToggleReserved2(b) => ItemModel { reserved2: b, ..it },
        Message::UpdateCustomerReceipt(s) => ItemModel { customer_receipt: s@, ..it },
        Message::UpdateKitchenVideo(s) => ItemModel { kitchen_video: s@, ..it },
        Message::UpdateKdsCategory(s) => ItemModel { kds_category: s@, ..it },
        Message::UpdateKdsCooktime(s) => match spec_parse_i32(s@) {
            Some(v) => ItemModel { kds_cooktime: v, ..it },
            None => it,
        },
        Message::UpdateKdsDept(s) => match spec_parse_i32(s@) {
            Some(v) => ItemModel { kds_dept: v, ..it },
            None => it,
        },
        Message::UpdateStoreId(s) => match spec_parse_i32(s@) {
            Some(v) => ItemModel { store_id: v, ..it },
            None => it,
        },
        Message::UpdateCovers(s) => match spec_parse_i32(s@) {
            Some(v) => ItemModel { covers: v, ..it },
            None => it,
        },
        Message::UpdateImageId(s) => match spec_parse_i32(s@) {
            Some(v) => ItemModel { image_id: v, ..it },
            None => it,
        },
        Message::UpdateLanguageIsoCode(s) => ItemModel { language_iso_code: s@, ..it },
        Message::AddChoiceGroup(g) => ItemModel { choice_groups: spec_add_choice_group(it.choice_groups, g), ..it },
        Message::RemoveChoiceGroup(g) => ItemModel { choice_groups: spec_remove_pairs(it.choice_groups, g), ..it },
        Message::AddPrinterLogical(p) => ItemModel { printer_logicals: spec_add_printer(it.printer_logicals, p), ..it },
        Message::RemovePrinterLogical(p) => ItemModel { printer_logicals: spec_remove_pairs(it.printer_logicals, p), ..it },
        Message::Save => it,
        Message::Cancel => it,
    }
}

/// The form's message after a whole-number field is typed: cleared when it
/// reads, the given message when not.
pub open spec fn spec_int_field_error(s: Seq<char>, msg: Seq<char>) -> Option<Seq<char>> {
    if spec_parse_i32(s) is Some {
        None
    } else {
        Some(msg)
    }
}

/// The form's validation message after an edit message.
pub open spec fn spec_edited_error(e: Option<Seq<char>>, m: Message) -> Option<Seq<char>> {
    match m {
        Message::UpdateBasePrice(s) => if s@.len() > 0 && spec_parse(s@) is None {
            Some("Invalid cost amount format"@)
        } else {
            e
        },
        Message::UpdateButton1(s) => if spec_byte_len(s@) <= 15 {
            None
        } else {
            Some("Button 1 text cannot exceed 15 characters"@)
        },
        Message::UpdateButton2(s) => if s@.len() == 0 {
            e
        } else if spec_byte_len(s@) <= 15 {
            None
        } else {
            Some("Button 2 text cannot exceed 15 characters"@)
        },
        Message::UpdateCostAmount(s) => if s@.len() > 0 && spec_parse(s@) is None {
            Some("Invalid cost amount format"@)
        } else {
            e
        },
        Message::UpdateWeightAmount(s) => if spec_parse(s@) is Some {
            None
        } else {
            Some("Invalid weight amount format"@)
        },
        Message::UpdateKdsCooktime(s) => spec_int_field_error(s@, "Invalid cook time format"@),
        Message::UpdateKdsDept(s) => spec_int_field_error(s@, "Invalid department number"@),
        Message::UpdateStoreId(s) => spec_int_field_error(s@, "Invalid store ID"@),
        Message::UpdateCovers(s) => spec_int_field_error(s@, "Invalid covers number"@),
        Message::UpdateImageId(s) => spec_int_field_error(s@, "Invalid image ID"@),
        _ => e,
    }
}

/// What an edit message asks of the menu builder.
pub open spec fn spec_edit_operation(it: ItemModel, m: Message, after: ItemModel, r: Option<Operation>) -> bool {
    match m {
        Message::UpdatePrice(l, s) => r matches Some(Operation::UpdatePrice(i, l2, s2)) && i == it.id && l2 == l
            && s2@ == s@,
        Message::Save => r matches Some(Operation::Save(x)) && x@ == after,
        Message::Cancel => r matches Some(Operation::Cancel),
        _ => r is None,
    }
}

fn has_pair<T: Copy>(v: &Vec<(EntityId, T)>, g: EntityId) -> (r: bool)
    ensures
        r == spec_has_pair(v@, g),
{
    let mut i: usize = 0;
    while i < v.len()
        invariant
            i <= v@.len(),
            forall|k: int| 0 <= k < i ==> (#[trigger] v@[k]).0 != g,
        decreases v.len() - i,
    {
        if v[i].0 == g {
            return true;
        }
        i += 1;
    }
    false
}

pub(crate) fn add_choice_group(o: &Option<Vec<(EntityId, i32)>>, g: EntityId) -> (r: Option<Vec<(EntityId, i32)>>)
    ensures
        opt_seq(r) == spec_add_choice_group(opt_seq(*o), g),
{
    match o {
        Some(v) => {
            let mut w = copy_vec(v);
            if !has_pair(v, g) {
                let n = v.len();
                let place: i32 = if n <= 2147483647 {
                    n as i32
                } else {
                    i32::MAX
                };
                w.push((g, place));
            }
            Some(w)
        },
        None => {
            let mut w: Vec<(EntityId, i32)> = Vec::new();
            w.push((g, 0));
            proof {
                assert(w@ =~= seq![(g, 0i32)]);
            }
            Some(w)
        },
    }
}

pub(crate) fn add_printer(o: &Option<Vec<(EntityId, bool)>>, p: EntityId) -> (r: Option<Vec<(EntityId, bool)>>)
    ensures
        opt_seq(r) == spec_add_printer(opt_seq(*o), p),
{
    match o {
        Some(v) => {
            let mut w = copy_vec(v);
            if !has_pair(v, p) {
                w.push((p, false));
            }
            Some(w)
        },
        None => {
            let mut w: Vec<(EntityId, bool)> = Vec::new();
            w.push((p, true));
            proof {
                assert(w@ =~= seq![(p, true)]);
            }
            Some(w)
        },
    }
}

pub(crate) fn remove_pairs<T: Copy>(o: &Option<Vec<(EntityId, T)>>, g: EntityId) -> (r: Option<Vec<(EntityId, T)>>)
    ensures
        opt_seq(r) == spec_remove_pairs(opt_seq(*o), g),
{
    match o {
        Some(v) => {
            if has_pair(v, g) {
                match pairs_without(copy_vec(v), g) {
                    Some(w) => Some(w),
                    None => {
                        let w: Vec<(EntityId, T)> = Vec::new();
                        proof {
                            assert(w@ =~= spec_pairs_except(v@, g));
                        }
                        Some(w)
                    },
                }
            } else {
                Some(copy_vec(v))
            }
        },
        None => None,
    }
}

fn push_id(o: &Option<Vec<EntityId>>, l: EntityId) -> (r: Option<Vec<EntityId>>)
    ensures
        opt_seq(r) == spec_push_id(opt_seq(*o), l),
{
    match o {
        Some(v) => {
            let mut w = copy_vec(v);
            w.push(l);
            Some(w)
        },
        None => {
            let mut w: Vec<EntityId> = Vec::new();
            w.push(l);
            proof {
                assert(w@ =~= seq![l]);
            }
            Some(w)
        },
    }
}

pub(crate) fn add_id_once(o: &Option<Vec<EntityId>>, l: EntityId) -> (r: Option<Vec<EntityId>>)
    ensures
        opt_seq(r) == spec_add_id_once(opt_seq(*o), l),
{
    match o {
        Some(v) => {
            let mut w = copy_vec(v);
            if !contains_id(v.as_slice(), l) {
                w.push(l);
            }
            Some(w)
        },
        None => {
            let mut w: Vec<EntityId> = Vec::new();
            w.push(l);
            proof {
                assert(w@ =~= seq![l]);
            }
            Some(w)
        },
    }
}

fn push_price(o: &Option<Vec<ItemPrice>>, l: EntityId) -> (r: Option<Vec<ItemPrice>>)
    ensures
        opt_seq(r) == spec_push_price(opt_seq(*o), l),
{
    let p = ItemPrice { price_level_id: l, price: Amount::new(0, 0) };
    match o {
        Some(v) => {
            let mut w = copy_vec(v);
            w.push(p);
            Some(w)
        },
        None => {
            let mut w: Vec<ItemPrice> = Vec::new();
            w.push(p);
            proof {
                assert(w@ =~= seq![p]);
            }
            Some(w)
        },
    }
}

pub(crate) fn prices_without(o: &Option<Vec<ItemPrice>>, l: EntityId) -> (r: Option<Vec<ItemPrice>>)
    ensures
        opt_seq(r) == spec_prices_without(opt_seq(*o), l),
{
    match o {
        None => None,
        Some(v) => {
            let mut w: Vec<ItemPrice> = Vec::new();
            let mut i: usize = 0;
            while i < v.len()
                invariant
                    i <= v@.len(),
                    w@ == v@.take(i as int).filter(|p: ItemPrice| p.price_level_id != l),
                decreases v.len() - i,
            {
                proof {
                    assert(v@.take(i + 1).drop_last() =~= v@.take(i as int));
                    reveal_with_fuel(Seq::filter, 1);
                }
                if v[i].price_level_id != l {
                    w.push(v[i]);
                }
                i += 1;
            }
            proof {
                assert(v@.take(v@.len() as int) =~= v@);
            }
            if w.len() == 0 {
                None
            } else {
                Some(w)
            }
        },
    }
}

fn set_price(o: &Option<Vec<ItemPrice>>, l: EntityId, t: &str) -> (r: Option<Vec<ItemPrice>>)
    ensures
        opt_seq(r) == spec_set_price(opt_seq(*o), l, t@),
{
    match o {
        None => None,
        Some(v) => {
            let mut found: Option<usize> = None;
            let mut j: usize = 0;
            while j < v.len()
                invariant_except_break
                    found is None,
                    spec_first_price_at(v@, l, 0) == spec_first_price_at(v@, l, j as int),
                invariant
                    j <= v@.len(),
                ensures
                    match found {
                        Some(k) => k < v@.len() && spec_first_price_at(v@, l, 0) == Some(k as int),
                        None => spec_first_price_at(v@, l, 0) is None,
                    },
                decreases v.len() - j,
            {
                if v[j].price_level_id == l {
                    found = Some(j);
                    break;
                }
                j += 1;
            }
            let mut w = copy_vec(v);
            match (found, parse_amount(t)) {
                (Some(k), Some(p)) => {
                    let level = w[k].price_level_id;
                    w.set(k, ItemPrice { price_level_id: level, price: p });
                },
                _ => {},
            }
            Some(w)
        },
    }
}

fn nonempty(s: String) -> (r: Option<String>)
    ensures
        opt_text(r) == spec_nonempty(s@),
{
    if s.as_str().is_empty() {
        None
    } else {
        Some(s)
    }
}

fn int_field(s: &String, field: &mut i32, error: &mut Option<String>, msg: &str)
    ensures
        *final(field) == match spec_parse_i32(s@) {
            Some(v) => v,
            None => *old(field),
        },
        opt_text(*final(error)) == spec_int_field_error(s@, msg@),
{
    match parse_i32_str(s.as_str()) {
        Some(v) => {
            *field = v;
            *error = None;
        },
        None => {
            *error = Some(text(msg));
        },
    }
}

/// An edit message of the names, button texts, base price and classifications.
pub open spec fn spec_is_basic_edit(m: Message) -> bool {
    m is UpdateName || m is UpdateBasePrice || m is UpdateButton1 || m is UpdateButton2 || m is UpdatePrinterText || m is SelectItemGroup || m is SelectProductClass || m is SelectRevenueCategory || m is SelectTaxGroup || m is SelectSecurityLevel || m is SelectReportCategory
}

fn is_basic_edit(m: &Message) -> (r: bool)
    ensures
        r == spec_is_basic_edit(*m),
{
    match m {
        Message::UpdateName(..) => true,
        Message::UpdateBasePrice(..) => true,
        Message::UpdateButton1(..) => true,
        Message::UpdateButton2(..) => true,
        Message::UpdatePrinterText(..) => true,
        Message::SelectItemGroup(..) => true,
        Message::SelectProductClass(..) => true,
        Message::SelectRevenueCategory(..) => true,
        Message::SelectTaxGroup(..) => true,
        Message::SelectSecurityLevel(..) => true,
        Message::SelectReportCategory(..) => true,
        _ => false,
    }
}

#[verifier::rlimit(100)]
#[verifier::spinoff_prover]
fn edit_basic(item: &mut Item, message: Message, state: &mut EditState) -> (r: Option<Operation>)
    requires
        spec_is_basic_edit(message),
    ensures
        final(item)@ == spec_edited_item(old(item)@, message),
        final(state)@ == spec_with_error(old(state)@, spec_edited_error(old(state)@.validation_error, message)),
        spec_edit_operation(old(item)@, message, final(item)@, r),
{
    match message {
        Message::UpdateName(s) => {
            item.name = s;
            None
        },
        Message::UpdateBasePrice(s) => {
            if s.as_str().is_empty() {
                item.default_price = Some(Amount::new(0, 2));
            } else {
                match parse_amount(s.as_str()) {
                    Some(p) => {
                        item.default_price = Some(p);
                    },
                    None => {
                        state.validation_error = Some(text("Invalid cost amount format"));
                    },
                }
            }
            None
        },
        Message::UpdateButton1(s) => {
            if s.as_str().len() <= 15 {
                item.button1 = s;
                state.validation_error = None;
            } else {
                state.validation_error = Some(text("Button 1 text cannot exceed 15 characters"));
            }
            None
        },
        Message::UpdateButton2(s) => {
            if s.as_str().is_empty() {
                item.button2 = None;
            } else if s.as_str().len() <= 15 {
                item.button2 = Some(s);
                state.validation_error = None;
            } else {
                state.validation_error = Some(text("Button 2 text cannot exceed 15 characters"));
            }
            None
        },
        Message::UpdatePrinterText(s) => {
            item.printer_text = s;
            None
        },
        Message::SelectItemGroup(o) => {
            item.item_group = o;
            None
        },
        Message::SelectProductClass(o) => {
            item.product_class = o;
            None
        },
        Message::SelectRevenueCategory(o) => {
            item.revenue_category = o;
            None
        },
        Message::SelectTaxGroup(o) => {
            item.tax_group = o;
            None
        },
        Message::SelectSecurityLevel(o) => {
            item.security_level = o;
            None
        },
        Message::SelectReportCategory(o) => {
            item.report_category = o;
            None
        },
        _ => None,
    }
}

/// An edit message of the the lists of prices, price levels, choice groups and printers.
pub open spec fn spec_is_lists_edit(m: Message) -> bool {
    m is ChoiceGroupSelected || m is PriceLevelSelected || m is PrinterLogicalSelected || m is AddPriceLevel || m is RemovePriceLevel || m is UpdateStorePriceLevel || m is UpdatePrice || m is AddChoiceGroup || m is RemoveChoiceGroup || m is AddPrinterLogical || m is RemovePrinterLogical
}

fn is_lists_edit(m: &Message) -> (r: bool)
    ensures
        r == spec_is_lists_edit(*m),
{
    match m {
        Message::ChoiceGroupSelected(..) => true,
        Message::PriceLevelSelected(..) => true,
        Message::PrinterLogicalSelected(..) => true,
        Message::AddPriceLevel(..) => true,
        Message::RemovePriceLevel(..) => true,
        Message::UpdateStorePriceLevel(..) => true,
        Message::UpdatePrice(..) => true,
        Message::AddChoiceGroup(..) => true,
        Message::RemoveChoiceGroup(..) => true,
        Message::AddPrinterLogical(..) => true,
        Message::RemovePrinterLogical(..) => true,
        _ => false,
    }
}

#[verifier::rlimit(100)]
#[verifier::spinoff_prover]
fn edit_lists(item: &mut Item, message: Message, state: &mut EditState) -> (r: Option<Operation>)
    requires
        spec_is_lists_edit(message),
    ensures
        final(item)@ == spec_edited_item(old(item)@, message),
        final(state)@ == spec_with_error(old(state)@, spec_edited_error(old(state)@.validation_error, message)),
        spec_edit_operation(old(item)@, message, final(item)@, r),
{
    match message {
        Message::ChoiceGroupSelected(g) => {
            item.choice_groups = add_choice_group(&item.choice_groups, g);
            None
        },
        Message::PriceLevelSelected(l) => {
            item.price_levels = push_id(&item.price_levels, l);
            item.item_prices = push_price(&item.item_prices, l);
            None
        },
        Message::PrinterLogicalSelected(p) => {
            item.printer_logicals = add_printer(&item.printer_logicals, p);
            None
        },
        Message::AddPriceLevel(l) => {
            item.price_levels = add_id_once(&item.price_levels, l);
            None
        },
        Message::RemovePriceLevel(l) => {
            item.price_levels = match &item.price_levels {
                Some(v) => ids_without(copy_vec(v), l),
                None => None,
            };
            item.item_prices = prices_without(&item.item_prices, l);
            None
        },
        Message::UpdateStorePriceLevel(o) => {
            if let Some(l) = o {
                item.store_price_level = push_id(&item.store_price_level, l);
            }
            None
        },
        Message::UpdatePrice(l, s) => {
            item.item_prices = set_price(&item.item_prices, l, s.as_str());
            Some(Operation::UpdatePrice(item.id, l, s))
        },
        Message::AddChoiceGroup(g) => {
            item.choice_groups = add_choice_group(&item.choice_groups, g);
            None
        },
        Message::RemoveChoiceGroup(g) => {
            item.choice_groups = remove_pairs(&item.choice_groups, g);
            None
        },
        Message::AddPrinterLogical(p) => {
            item.printer_logicals = add_printer(&item.printer_logicals, p);
            None
        },
        Message::RemovePrinterLogical(p) => {
            item.printer_logicals = remove_pairs(&item.printer_logicals, p);
            None
        },
        _ => None,
    }
}

/// An edit message of the cost, weight, identifiers and flags.
pub open spec fn spec_is_values_edit(m: Message) -> bool {
    m is UpdateCostAmount || m is ToggleAskPrice || m is ToggleAllowPriceOverride || m is ToggleUseWeight || m is UpdateWeightAmount || m is UpdateSku || m is UpdateBarGunCode || m is ToggleReserved1 || m is TogglePrintOnCheck || m is ToggleDiscountable || m is ToggleVoidable || m is ToggleNotActive || m is ToggleTaxIncluded || m is ToggleStockItem || m is ToggleReserved2
}

fn is_values_edit(m: &Message) -> (r: bool)
    ensures
        r == spec_is_values_edit(*m),
{
    match m {
        Message::UpdateCostAmount(..) => true,
        Message::ToggleAskPrice(..) => true,
        Message::ToggleAllowPriceOverride(..) => true,
        Message::ToggleUseWeight(..) => true,
        Message::UpdateWeightAmount(..) => true,
        Message::UpdateSku(..) => true,
        Message::UpdateBarGunCode(..) => true,
        Message::ToggleReserved1(..) => true,
        Message::TogglePrintOnCheck(..) => true,
        Message::ToggleDiscountable(..) => true,
        Message::ToggleVoidable(..) => true,
        Message::ToggleNotActive(..) => true,
        Message::ToggleTaxIncluded(..) => true,
        Message::ToggleStockItem(..) => true,
        Message::ToggleReserved2(..) => true,
        _ => false,
    }
}

#[verifier::rlimit(100)]
#[verifier::spinoff_prover]
fn edit_values(item: &mut Item, message: Message, state: &mut EditState) -> (r: Option<Operation>)
    requires
        spec_is_values_edit(message),
    ensures
        final(item)@ == spec_edited_item(old(item)@, message),
        final(state)@ == spec_with_error(old(state)@, spec_edited_error(old(state)@.validation_error, message)),
        spec_edit_operation(old(item)@, message, final(item)@, r),
{
    match message {
        Message::UpdateCostAmount(s) => {
            if s.as_str().is_empty() {
                item.cost_amount = None;
            } else {
                match parse_amount(s.as_str()) {
                    Some(a) => {
                        item.cost_amount = Some(a);
                    },
                    None => {
                        state.validation_error = Some(text("Invalid cost amount format"));
                    },
                }
            }
            None
        },
        Message::ToggleAskPrice(b) => {
            item.ask_price = b;
            None
        },
        Message::ToggleAllowPriceOverride(b) => {
            item.allow_price_override = b;
            None
        },
        Message::ToggleUseWeight(v) => {
            item.use_weight = v;
            if !v {
                item.weight_amount = Amount::new(0, 0);
            }
            None
        },
        Message::UpdateWeightAmount(s) => {
            match parse_amount(s.as_str()) {
                Some(a) => {
                    item.weight_amount = a;
                    state.validation_error = None;
                },
                None => {
                    state.validation_error = Some(text("Invalid weight amount format"));
                },
            }
            None
        },
        Message::UpdateSku(s) => {
            item.sku = nonempty(s);
            None
        },
        Message::UpdateBarGunCode(s) => {
            item.bar_gun_code = nonempty(s);
            None
        },
        Message::ToggleReserved1(b) => {
            item.reserved1 = b;
            None
        },
        Message::TogglePrintOnCheck(b) => {
            item.print_on_check = b;
            None
        },
        Message::ToggleDiscountable(b) => {
            item.discountable = b;
            None
        },
        Message::ToggleVoidable(b) => {
            item.voidable = b;
            None
        },
        Message::ToggleNotActive(b) => {
            item.not_active = b;
            None
        },
        Message::ToggleTaxIncluded(b) => {
            item.tax_included = b;
            None
        },
        Message::ToggleStockItem(b) => {
            item.stock_item = b;
            None
        },
        Message::ToggleReserved2(b) => {
            item.reserved2 = b;
            None
        },
        _ => None,
    }
}

/// An edit message of the receipt, kitchen and store fields, and saving or cancelling.
pub open spec fn spec_is_kitchen_edit(m: Message) -> bool {
    m is UpdateCustomerReceipt || m is UpdateKitchenVideo || m is UpdateKdsCategory || m is UpdateKdsCooktime || m is UpdateKdsDept || m is UpdateStoreId || m is UpdateCovers || m is UpdateImageId || m is UpdateLanguageIsoCode || m is Save || m is Cancel
}

#[verifier::rlimit(100)]
#[verifier::spinoff_prover]
fn edit_kitchen(item: &mut Item, message: Message, state: &mut EditState) -> (r: Option<Operation>)
    requires
        spec_is_kitchen_edit(message),
    ensures
        final(item)@ == spec_edited_item(old(item)@, message),
        final(state)@ == spec_with_error(old(state)@, spec_edited_error(old(state)@.validation_error, message)),
        spec_edit_operation(old(item)@, message, final(item)@, r),
{
    match message {
        Message::UpdateCustomerReceipt(s) => {
            item.customer_receipt = s;
            None
        },
        Message::UpdateKitchenVideo(s) => {
            item.kitchen_video = s;
            None
        },
        Message::UpdateKdsCategory(s) => {
            item.kds_category = s;
            None
        },
        Message::UpdateKdsCooktime(s) => {
            int_field(&s, &mut item.kds_cooktime, &mut state.validation_error, "Invalid cook time format");
            None
        },
        Message::UpdateKdsDept(s) => {
            int_field(&s, &mut item.kds_dept, &mut state.validation_error, "Invalid department number");
            None
        },
        Message::UpdateStoreId(s) => {
            int_field(&s, &mut item.store_id, &mut state.validation_error, "Invalid store ID");
            None
        },
        Message::UpdateCovers(s) => {
            int_field(&s, &mut item.covers, &mut state.validation_error, "Invalid covers number");
            None
        },
        Message::UpdateImageId(s) => {
            int_field(&s, &mut item.image_id, &mut state.validation_error, "Invalid image ID");
            None
        },
        Message::UpdateLanguageIsoCode(s) => {
            item.language_iso_code = s;
            None
        },
        Message::Save => Some(Operation::Save(item.copy())),
        Message::Cancel => Some(Operation::Cancel),
        _ => None,
    }
}

/// Applies an edit message to the item being edited: the field changes, or
/// the form records why it did not; returns what the menu builder must do.
pub fn update_item(item: &mut Item, message: Message, state: &mut EditState) -> (r: Option<Operation>)
    ensures
        final(item)@ == spec_edited_item(old(item)@, message),
        final(state)@ == spec_with_error(old(state)@, spec_edited_error(old(state)@.validation_error, message)),
        spec_edit_operation(old(item)@, message, final(item)@, r),
{
    if is_basic_edit(&message) {
        edit_basic(item, message, state)
    } else if is_lists_edit(&message) {
        edit_lists(item, message, state)
    } else if is_values_edit(&message) {
        edit_values(item, message, state)
    } else {
        edit_kitchen(item, message, state)
    }
}

} // verus!
