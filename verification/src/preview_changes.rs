//! The preview of a mass edit: every item shown as a row of texts, one per
//! column, each cell marked with whether the edit changed it.

use crate::choice_groups::ChoiceGroup;
use crate::data_types::{EntityId, ItemPrice, text};
use crate::export_items::{join, lemma_join_front, or_empty, spec_join, spec_or_empty};
use crate::items::{Item, ItemModel, ViewContext};
use crate::money::{Amount, amount_text, amount_text_2dp, spec_text, spec_text_2dp};
use crate::price_levels::PriceLevel;
use crate::printer_logicals::PrinterLogical;
use crate::superedit::{HasName, spec_item_amounts_wf};
use crate::text::{chars_of, int_string, push_str, spec_int_text, string_of};
use std::collections::BTreeMap;
use vstd::std_specs::iter::IteratorSpec;
use vstd::prelude::*;

verus! {

broadcast use vstd::laws_cmp::group_laws_cmp;

// ---------------------------------------------------------------------
// Cells
// ---------------------------------------------------------------------

/// How a cell differs from the item before the edit.
#[derive(Debug, Clone, Copy, PartialEq, Eq, Structural)]
pub enum CellChange {
    Unchanged,
    Modified,
    Added,
    Removed,
}

/// One cell: the text before the edit and, when it changed, the text after.
#[derive(Debug, Clone)]
pub struct CellValue {
    pub original: String,
    pub modified: Option<String>,
    pub change_type: CellChange,
}

/// A cell as plain values.
pub struct CellModel {
    pub original: Seq<char>,
    pub modified: Option<Seq<char>>,
    pub change_type: CellChange,
}

impl View for CellValue {
    type V = CellModel;

    open spec fn view(&self) -> CellModel {
        CellModel {
            original: self.original@,
            modified: match self.modified {
                Some(m) => Some(m@),
                None => None,
            },
            change_type: self.change_type,
        }
    }
}

/// A cell the edit left alone.
pub open spec fn spec_unchanged(v: Seq<char>) -> CellModel {
    CellModel { original: v, modified: None, change_type: CellChange::Unchanged }
}

/// A cell the edit changed from `o` to `n`.
pub open spec fn spec_modified(o: Seq<char>, n: Seq<char>) -> CellModel {
    CellModel { original: o, modified: Some(n), change_type: CellChange::Modified }
}

/// The cell for a text before and after the edit: unchanged when equal.
pub open spec fn spec_diff(o: Seq<char>, n: Seq<char>) -> CellModel {
    if o == n {
        spec_unchanged(o)
    } else {
        spec_modified(o, n)
    }
}

/// The text a cell shows: the new text when there is one.
pub open spec fn spec_display(c: CellModel) -> Seq<char> {
    match c.modified {
        Some(m) => m,
        None => c.original,
    }
}

impl CellValue {
    /// A cell the edit left alone.
    pub fn unchanged(value: String) -> (r: Self)
        ensures
            r@ == spec_unchanged(value@),
    {
        CellValue { original: value, modified: None, change_type: CellChange::Unchanged }
    }

    /// A cell the edit changed.
    pub fn modified(original: String, new_value: String) -> (r: Self)
        ensures
            r@ == spec_modified(original@, new_value@),
    {
        CellValue { original, modified: Some(new_value), change_type: CellChange::Modified }
    }

    /// The text the cell shows.
    pub fn display(&self) -> (r: String)
        ensures
            r@ == spec_display(self@),
    {
        match &self.modified {
            Some(new_val) => new_val.clone(),
            None => self.original.clone(),
        }
    }
}

/// The cell for a text before and after the edit.
fn diff_value(orig: String, modif: String) -> (r: CellValue)
    ensures
        r@ == spec_diff(orig@, modif@),
{
    if orig == modif {
        CellValue::unchanged(orig)
    } else {
        CellValue::modified(orig, modif)
    }
}

// ---------------------------------------------------------------------
// Texts of fields
// ---------------------------------------------------------------------

/// The text of a flag, as `bool::to_string` writes it.
pub open spec fn spec_bool_text(b: bool) -> Seq<char> {
    if b {
        "true"@
    } else {
        "false"@
    }
}

fn bool_text(b: bool) -> (r: String)
    ensures
        r@ == spec_bool_text(b),
{
    if b {
        text("true")
    } else {
        text("false")
    }
}

/// The name of the entity a reference names, `None` when there is no
/// reference or it names nothing.
pub open spec fn spec_name_or_none<T: HasName>(id: Option<EntityId>, m: Map<EntityId, T>) -> Seq<char> {
    match id {
        Some(k) => if m.contains_key(k) {
            m[k].spec_has_name()
        } else {
            "None"@
        },
        None => "None"@,
    }
}

fn name_or_none<T: HasName>(id: Option<EntityId>, m: &BTreeMap<EntityId, T>) -> (r: String)
    ensures
        r@ == spec_name_or_none(id, m@),
{
    match id {
        Some(k) => match m.get(&k) {
            Some(e) => text(e.name()),
            None => text("None"),
        },
        None => text("None"),
    }
}

/// The names of the entities the listed ids name, in list order; ids that
/// name nothing are skipped.
pub open spec fn spec_found_names<T: HasName>(ids: Seq<EntityId>, m: Map<EntityId, T>) -> Seq<Seq<char>>
    decreases ids.len(),
{
    if ids.len() == 0 {
        Seq::empty()
    } else {
        let rest = spec_found_names(ids.drop_last(), m);
        if m.contains_key(ids.last()) {
            rest.push(m[ids.last()].spec_has_name())
        } else {
            rest
        }
    }
}

/// A list of references shown by name: `[a, b]`, and `[]` when there is
/// no list or it is empty.
pub open spec fn spec_names_list<T: HasName>(ids: Option<Seq<EntityId>>, m: Map<EntityId, T>) -> Seq<char> {
    match ids {
        Some(s) => if s.len() > 0 {
            "["@ + spec_join(spec_found_names(s, m), ", "@) + "]"@
        } else {
            "[]"@
        },
        None => "[]"@,
    }
}

/// The ids of a list of pairs.
pub open spec fn spec_pair_ids<U>(data: Seq<(EntityId, U)>) -> Seq<EntityId> {
    data.map_values(|p: (EntityId, U)| p.0)
}

fn names_list<T: HasName, U: Copy>(data: &Vec<(EntityId, U)>, m: &BTreeMap<EntityId, T>) -> (r: String)
    ensures
        r@ == spec_names_list(Some(spec_pair_ids(data@)), m@),
{
    let ghost ids = spec_pair_ids(data@);
    if data.len() == 0 {
        return text("[]");
    }
    let mut names: Vec<String> = Vec::new();
    let mut i: usize = 0;
    while i < data.len()
        invariant
            i <= data@.len(),
            ids == spec_pair_ids(data@),
            names@.map_values(|p: String| p@) == spec_found_names(ids.take(i as int), m@),
        decreases data.len() - i,
    {
        let ghost before = names@.map_values(|p: String| p@);
        let id = data[i].0;
        proof {
            assert(ids.take(i + 1).drop_last() =~= ids.take(i as int));
            assert(ids.take(i + 1).last() == id);
        }
        match m.get(&id) {
            Some(e) => {
                names.push(text(e.name()));
                proof {
                    assert(names@.map_values(|p: String| p@) =~= before.push(m@[id].spec_has_name()));
                }
            },
            None => {
                proof {
                    assert(names@.map_values(|p: String| p@) =~= before);
                }
            },
        }
        i += 1;
    }
    proof {
        assert(ids.take(data@.len() as int) =~= ids);
    }
    let joined = join(&names, ", ");
    let mut r = text("[");
    push_str(&mut r, joined.as_str());
    push_str(&mut r, "]");
    r
}

/// The choice groups of an item by name (`[]` when it has none).
pub fn get_choice_groups_string_with_names(
    choice_group_data: Option<&Vec<(EntityId, i32)>>,
    choice_groups: &BTreeMap<EntityId, ChoiceGroup>,
) -> (r: String)
    ensures
        r@ == spec_names_list(
            match choice_group_data {
                Some(d) => Some(spec_pair_ids(d@)),
                None => None,
            },
            choice_groups@,
        ),
{
    match choice_group_data {
        Some(data) => names_list(data, choice_groups),
        None => text("[]"),
    }
}

/// The printers of an item by name (`[]` when it has none).
pub fn get_printer_logicals_string_with_names(
    printer_logical_data: Option<&Vec<(EntityId, bool)>>,
    printer_logicals: &BTreeMap<EntityId, PrinterLogical>,
) -> (r: String)
    ensures
        r@ == spec_names_list(
            match printer_logical_data {
                Some(d) => Some(spec_pair_ids(d@)),
                None => None,
            },
            printer_logicals@,
        ),
{
    match printer_logical_data {
        Some(data) => names_list(data, printer_logicals),
        None => text("[]"),
    }
}

// ---------------------------------------------------------------------
// Prices
// ---------------------------------------------------------------------

/// `k` is the smallest key of a price level whose id is 1: the first such
/// level in key order.
pub open spec fn spec_is_level_one(m: Map<EntityId, PriceLevel>, k: EntityId) -> bool {
    &&& m.contains_key(k)
    &&& m[k].id == 1
    &&& forall|j: EntityId| #[trigger] m.contains_key(j) && m[j].id == 1 ==> k <= j
}

/// The name the default price is shown under: that of the first price
/// level with id 1, `Default` when there is none.
pub open spec fn spec_default_level_name(m: Map<EntityId, PriceLevel>) -> Seq<char> {
    if exists|k: EntityId| spec_is_level_one(m, k) {
        m[choose|k: EntityId| spec_is_level_one(m, k)].name@
    } else {
        "Default"@
    }
}

fn default_level_name(levels: &BTreeMap<EntityId, PriceLevel>) -> (r: String)
    ensures
        r@ == spec_default_level_name(levels@),
{
    let mut best: Option<EntityId> = None;
    let ghost keys = levels@.dom();
    let ghost ks = vstd::std_specs::btree::spec_keys_iter(levels).remaining();
    let ghost mut n: int = 0;
    for k in it: levels.keys()
        invariant
            it.seq() == ks,
            ks.unref().to_set() == keys,
            n == it.index(),
            keys == levels@.dom(),
            match best {
                None => forall|j: int| 0 <= j < n ==> levels@[*ks[j]].id != 1,
                Some(b) => {
                    &&& keys.contains(b)
                    &&& levels@[b].id == 1
                    &&& forall|j: int| 0 <= j < n && levels@[*ks[j]].id == 1 ==> b <= *ks[j]
                },
            },
    {
        proof {
            assert(ks.unref().to_set().contains(*ks[n]));
            n = n + 1;
        }
        match levels.get(k) {
            Some(lvl) => {
                if lvl.id == 1 {
                    match best {
                        None => {
                            best = Some(*k);
                        },
                        Some(b) => {
                            if *k < b {
                                best = Some(*k);
                            }
                        },
                    }
                }
            },
            None => {},
        }
    }
    proof {
        assert(n == ks.len());
    }
    match best {
        None => {
            proof {
                assert forall|k: EntityId| !spec_is_level_one(levels@, k) by {
                    if spec_is_level_one(levels@, k) {
                        assert(ks.unref().to_set().contains(k));
                        let j = choose|j: int| 0 <= j < ks.unref().len() && ks.unref()[j] == k;
                        assert(*ks[j] == k);
                    }
                }
            }
            text("Default")
        },
        Some(b) => {
            proof {
                assert forall|j: EntityId| #[trigger] levels@.contains_key(j) && levels@[j].id == 1 implies b <= j by {
                    assert(ks.unref().to_set().contains(j));
                    let x = choose|x: int| 0 <= x < ks.unref().len() && ks.unref()[x] == j;
                    assert(*ks[x] == j);
                }
                assert(spec_is_level_one(levels@, b));
                let c = choose|k: EntityId| spec_is_level_one(levels@, k);
                assert(spec_is_level_one(levels@, c));
                assert(c <= b && b <= c);
            }
            match levels.get(&b) {
                Some(lvl) => text(lvl.name.as_str()),
                None => text("Default"),
            }
        },
    }
}

/// One additional price: the level's name (`Level n` when no level has that
/// id) and the price with two decimals.
pub open spec fn spec_price_entry(p: ItemPrice, m: Map<EntityId, PriceLevel>) -> Seq<char> {
    (if m.contains_key(p.price_level_id) {
        m[p.price_level_id].name@
    } else {
        "Level "@ + spec_int_text(p.price_level_id as int)
    }) + ": $"@ + spec_text_2dp(p.price)
}

/// The prices of an item: the default price under the default level's name
/// (`0.00` when there is none), then each additional price, as `[a, b]`.
pub open spec fn spec_prices_text(
    default_price: Option<Amount>,
    prices: Option<Seq<ItemPrice>>,
    m: Map<EntityId, PriceLevel>,
) -> Seq<char> {
    let first = spec_default_level_name(m) + ": $"@ + match default_price {
        Some(p) => spec_text_2dp(p),
        None => "0.00"@,
    };
    let rest = match prices {
        Some(ps) => ps.map_values(|p: ItemPrice| spec_price_entry(p, m)),
        None => Seq::empty(),
    };
    "["@ + spec_join(seq![first] + rest, ", "@) + "]"@
}

fn price_entry(p: &ItemPrice, levels: &BTreeMap<EntityId, PriceLevel>) -> (r: String)
    requires
        p.price.wf(),
    ensures
        r@ == spec_price_entry(*p, levels@),
{
    let mut r = match levels.get(&p.price_level_id) {
        Some(lvl) => text(lvl.name.as_str()),
        None => {
            let mut s = text("Level ");
            let n = int_string(p.price_level_id);
            push_str(&mut s, n.as_str());
            s
        },
    };
    push_str(&mut r, ": $");
    let a = amount_text_2dp(p.price);
    push_str(&mut r, a.as_str());
    r
}

/// The prices of an item shown with the names of their levels.
pub fn get_prices_string_with_names(
    default_price: Option<Amount>,
    item_prices: Option<&Vec<ItemPrice>>,
    price_levels: &BTreeMap<EntityId, PriceLevel>,
) -> (r: String)
    requires
        default_price matches Some(d) ==> d.wf(),
        item_prices matches Some(ps) ==> forall|k: int| 0 <= k < ps@.len() ==> (#[trigger] ps@[k]).price.wf(),
    ensures
        r@ == spec_prices_text(
            default_price,
            match item_prices {
                Some(ps) => Some(ps@),
                None => None,
            },
            price_levels@,
        ),
{
    let mut parts: Vec<String> = Vec::new();
    let mut first = default_level_name(price_levels);
    push_str(&mut first, ": $");
    match default_price {
        Some(p) => {
            let a = amount_text_2dp(p);
            push_str(&mut first, a.as_str());
        },
        None => {
            push_str(&mut first, "0.00");
        },
    }
    let ghost fst = first@;
    parts.push(first);
    let ghost ps: Seq<ItemPrice> = match item_prices {
        Some(v) => v@,
        None => Seq::empty(),
    };
    let ghost rest = ps.map_values(|p: ItemPrice| spec_price_entry(p, price_levels@));
    proof {
        assert(parts@.map_values(|p: String| p@) =~= seq![fst] + rest.take(0));
    }
    match item_prices {
        Some(v) => {
            let mut i: usize = 0;
            while i < v.len()
                invariant
                    i <= v@.len(),
                    ps == v@,
                    rest == ps.map_values(|p: ItemPrice| spec_price_entry(p, price_levels@)),
                    forall|k: int| 0 <= k < v@.len() ==> (#[trigger] v@[k]).price.wf(),
                    parts@.map_values(|p: String| p@) == seq![fst] + rest.take(i as int),
                decreases v.len() - i,
            {
                let e = price_entry(&v[i], price_levels);
                let ghost before = parts@.map_values(|p: String| p@);
                let ghost ev = e@;
                parts.push(e);
                proof {
                    assert(parts@.map_values(|p: String| p@) =~= before.push(ev));
                    assert(rest.take(i + 1) =~= rest.take(i as int).push(rest[i as int]));
                    assert(seq![fst] + rest.take(i + 1) =~= (seq![fst] + rest.take(i as int)).push(
                        rest[i as int],
                    ));
                }
                i += 1;
            }
            proof {
                assert(rest.take(v@.len() as int) =~= rest);
            }
        },
        None => {
            proof {
                assert(rest.take(0) =~= rest);
            }
        },
    }
    let joined = join(&parts, ", ");
    let mut r = text("[");
    push_str(&mut r, joined.as_str());
    push_str(&mut r, "]");
    r
}


// ---------------------------------------------------------------------
// Columns
// ---------------------------------------------------------------------

/// The columns of the preview, in the order they are shown.
#[derive(Debug, Clone, Copy, PartialEq, Eq, Structural)]
pub enum ColumnType {
    Id,
    Name,
    Button1,
    Button2,
    PrinterText,
    ItemGroup,
    ProductClass,
    RevenueCategory,
    TaxGroup,
    SecurityLevel,
    ReportCategory,
    CostAmount,
    AskPrice,
    AllowPriceOverride,
    PriceLevels,
    UseWeight,
    WeightAmount,
    SKU,
    BarGunCode,
    PrintOnCheck,
    Discountable,
    Voidable,
    NotActive,
    TaxIncluded,
    StockItem,
    CustomerReceiptText,
    KitchenVideoText,
    KDSCategory,
    KDSCooktime,
    KDSDepartment,
    StoreID,
    Covers,
    ImageID,
    LanguageISOCode,
    ChoiceGroups,
    PrinterLogicals,
}

/// The columns in the order they are shown.
pub open spec fn spec_columns() -> Seq<ColumnType> {
    seq![
        ColumnType::Id,
        ColumnType::Name,
        ColumnType::Button1,
        ColumnType::Button2,
        ColumnType::PrinterText,
        ColumnType::ItemGroup,
        ColumnType::ProductClass,
        ColumnType::RevenueCategory,
        ColumnType::TaxGroup,
        ColumnType::SecurityLevel,
        ColumnType::ReportCategory,
        ColumnType::CostAmount,
        ColumnType::AskPrice,
        ColumnType::AllowPriceOverride,
        ColumnType::PriceLevels,
        ColumnType::UseWeight,
        ColumnType::WeightAmount,
        ColumnType::SKU,
        ColumnType::BarGunCode,
        ColumnType::PrintOnCheck,
        ColumnType::Discountable,
        ColumnType::Voidable,
        ColumnType::NotActive,
        ColumnType::TaxIncluded,
        ColumnType::StockItem,
        ColumnType::CustomerReceiptText,
        ColumnType::KitchenVideoText,
        ColumnType::KDSCategory,
        ColumnType::KDSCooktime,
        ColumnType::KDSDepartment,
        ColumnType::StoreID,
        ColumnType::Covers,
        ColumnType::ImageID,
        ColumnType::LanguageISOCode,
        ColumnType::ChoiceGroups,
        ColumnType::PrinterLogicals,
    ]
}

/// The place of a column in the order they are shown.
pub open spec fn spec_column_index(c: ColumnType) -> int {
    match c {
        ColumnType::Id => 0,
        ColumnType::Name => 1,
        ColumnType::Button1 => 2,
        ColumnType::Button2 => 3,
        ColumnType::PrinterText => 4,
        ColumnType::ItemGroup => 5,
        ColumnType::ProductClass => 6,
        ColumnType::RevenueCategory => 7,
        ColumnType::TaxGroup => 8,
        ColumnType::SecurityLevel => 9,
        ColumnType::ReportCategory => 10,
        ColumnType::CostAmount => 11,
        ColumnType::AskPrice => 12,
        ColumnType::AllowPriceOverride => 13,
        ColumnType::PriceLevels => 14,
        ColumnType::UseWeight => 15,
        ColumnType::WeightAmount => 16,
        ColumnType::SKU => 17,
        ColumnType::BarGunCode => 18,
        ColumnType::PrintOnCheck => 19,
        ColumnType::Discountable => 20,
        ColumnType::Voidable => 21,
        ColumnType::NotActive => 22,
        ColumnType::TaxIncluded => 23,
        ColumnType::StockItem => 24,
        ColumnType::CustomerReceiptText => 25,
        ColumnType::KitchenVideoText => 26,
        ColumnType::KDSCategory => 27,
        ColumnType::KDSCooktime => 28,
        ColumnType::KDSDepartment => 29,
        ColumnType::StoreID => 30,
        ColumnType::Covers => 31,
        ColumnType::ImageID => 32,
        ColumnType::LanguageISOCode => 33,
        ColumnType::ChoiceGroups => 34,
        ColumnType::PrinterLogicals => 35,
    }
}

/// The heading of a column.
pub open spec fn spec_display_name(c: ColumnType) -> Seq<char> {
    match c {
        ColumnType::Id => "Id"@,
        ColumnType::Name => "Name"@,
        ColumnType::Button1 => "Button1"@,
        ColumnType::Button2 => "Button2"@,
        ColumnType::PrinterText => "Printer Text"@,
        ColumnType::ItemGroup => "Item Group"@,
        ColumnType::ProductClass => "Product Class"@,
        ColumnType::RevenueCategory => "Revenue Category"@,
        ColumnType::TaxGroup => "Tax Group"@,
        ColumnType::SecurityLevel => "Security Level"@,
        ColumnType::ReportCategory => "Report Category"@,
        ColumnType::CostAmount => "Cost Amount"@,
        ColumnType::AskPrice => "Ask Price"@,
        ColumnType::AllowPriceOverride => "Allow Price Override"@,
        ColumnType::PriceLevels => "Price Levels"@,
        ColumnType::UseWeight => "Use Weight"@,
        ColumnType::WeightAmount => "Weight Amount"@,
        ColumnType::SKU => "SKU"@,
        ColumnType::BarGunCode => "Bar Gun Code"@,
        ColumnType::PrintOnCheck => "Print On Check"@,
        ColumnType::Discountable => "Discountable"@,
        ColumnType::Voidable => "Voidable"@,
        ColumnType::NotActive => "Not Active"@,
        ColumnType::TaxIncluded => "Tax Included"@,
        ColumnType::StockItem => "Stock Item"@,
        ColumnType::CustomerReceiptText => "Customer Receipt Text"@,
        ColumnType::KitchenVideoText => "Kitchen Video Text"@,
        ColumnType::KDSCategory => "KDS Category"@,
        ColumnType::KDSCooktime => "KDS Cooktime"@,
        ColumnType::KDSDepartment => "KDS Department"@,
        ColumnType::StoreID => "Store ID"@,
        ColumnType::Covers => "Covers"@,
        ColumnType::ImageID => "Image ID"@,
        ColumnType::LanguageISOCode => "Language ISO Code"@,
        ColumnType::ChoiceGroups => "Choice Groups"@,
        ColumnType::PrinterLogicals => "Printer Logicals"@,
    }
}

/// Whether a column is shown before the user picks columns.
pub open spec fn spec_visible_by_default(c: ColumnType) -> bool {
    match c {
        ColumnType::SKU => false,
        ColumnType::BarGunCode => false,
        ColumnType::NotActive => false,
        ColumnType::StockItem => false,
        ColumnType::KitchenVideoText => false,
        ColumnType::KDSCategory => false,
        ColumnType::KDSCooktime => false,
        ColumnType::KDSDepartment => false,
        ColumnType::StoreID => false,
        ColumnType::Covers => false,
        ColumnType::ImageID => false,
        ColumnType::LanguageISOCode => false,
        _ => true,
    }
}

impl ColumnType {
    /// Every column, in the order they are shown.
    pub fn all() -> (r: Vec<ColumnType>)
        ensures
            r@ == spec_columns(),
    {
        let mut r: Vec<ColumnType> = Vec::new();
        r.push(ColumnType::Id);
        r.push(ColumnType::Name);
        r.push(ColumnType::Button1);
        r.push(ColumnType::Button2);
        r.push(ColumnType::PrinterText);
        r.push(ColumnType::ItemGroup);
        r.push(ColumnType::ProductClass);
        r.push(ColumnType::RevenueCategory);
        r.push(ColumnType::TaxGroup);
        r.push(ColumnType::SecurityLevel);
        r.push(ColumnType::ReportCategory);
        r.push(ColumnType::CostAmount);
        r.push(ColumnType::AskPrice);
        r.push(ColumnType::AllowPriceOverride);
        r.push(ColumnType::PriceLevels);
        r.push(ColumnType::UseWeight);
        r.push(ColumnType::WeightAmount);
        r.push(ColumnType::SKU);
        r.push(ColumnType::BarGunCode);
        r.push(ColumnType::PrintOnCheck);
        r.push(ColumnType::Discountable);
        r.push(ColumnType::Voidable);
        r.push(ColumnType::NotActive);
        r.push(ColumnType::TaxIncluded);
        r.push(ColumnType::StockItem);
        r.push(ColumnType::CustomerReceiptText);
        r.push(ColumnType::KitchenVideoText);
        r.push(ColumnType::KDSCategory);
        r.push(ColumnType::KDSCooktime);
        r.push(ColumnType::KDSDepartment);
        r.push(ColumnType::StoreID);
        r.push(ColumnType::Covers);
        r.push(ColumnType::ImageID);
        r.push(ColumnType::LanguageISOCode);
        r.push(ColumnType::ChoiceGroups);
        r.push(ColumnType::PrinterLogicals);
        proof {
            assert(r@ =~= spec_columns());
        }
        r
    }

    /// The place of the column in the order they are shown.
    pub fn index(&self) -> (r: usize)
        ensures
            r as int == spec_column_index(*self),
    {
        match self {
            ColumnType::Id => 0,
            ColumnType::Name => 1,
            ColumnType::Button1 => 2,
            ColumnType::Button2 => 3,
            ColumnType::PrinterText => 4,
            ColumnType::ItemGroup => 5,
            ColumnType::ProductClass => 6,
            ColumnType::RevenueCategory => 7,
            ColumnType::TaxGroup => 8,
            ColumnType::SecurityLevel => 9,
            ColumnType::ReportCategory => 10,
            ColumnType::CostAmount => 11,
            ColumnType::AskPrice => 12,
            ColumnType::AllowPriceOverride => 13,
            ColumnType::PriceLevels => 14,
            ColumnType::UseWeight => 15,
            ColumnType::WeightAmount => 16,
            ColumnType::SKU => 17,
            ColumnType::BarGunCode => 18,
            ColumnType::PrintOnCheck => 19,
            ColumnType::Discountable => 20,
            ColumnType::Voidable => 21,
            ColumnType::NotActive => 22,
            ColumnType::TaxIncluded => 23,
            ColumnType::StockItem => 24,
            ColumnType::CustomerReceiptText => 25,
            ColumnType::KitchenVideoText => 26,
            ColumnType::KDSCategory => 27,
            ColumnType::KDSCooktime => 28,
            ColumnType::KDSDepartment => 29,
            ColumnType::StoreID => 30,
            ColumnType::Covers => 31,
            ColumnType::ImageID => 32,
            ColumnType::LanguageISOCode => 33,
            ColumnType::ChoiceGroups => 34,
            ColumnType::PrinterLogicals => 35,
        }
    }

    /// The heading of the column.
    pub fn display_name(&self) -> (r: String)
        ensures
            r@ == spec_display_name(*self),
    {
        match self {
            ColumnType::Id => text("Id"),
            ColumnType::Name => text("Name"),
            ColumnType::Button1 => text("Button1"),
            ColumnType::Button2 => text("Button2"),
            ColumnType::PrinterText => text("Printer Text"),
            ColumnType::ItemGroup => text("Item Group"),
            ColumnType::ProductClass => text("Product Class"),
            ColumnType::RevenueCategory => text("Revenue Category"),
            ColumnType::TaxGroup => text("Tax Group"),
            ColumnType::SecurityLevel => text("Security Level"),
            ColumnType::ReportCategory => text("Report Category"),
            ColumnType::CostAmount => text("Cost Amount"),
            ColumnType::AskPrice => text("Ask Price"),
            ColumnType::AllowPriceOverride => text("Allow Price Override"),
            ColumnType::PriceLevels => text("Price Levels"),
            ColumnType::UseWeight => text("Use Weight"),
            ColumnType::WeightAmount => text("Weight Amount"),
            ColumnType::SKU => text("SKU"),
            ColumnType::BarGunCode => text("Bar Gun Code"),
            ColumnType::PrintOnCheck => text("Print On Check"),
            ColumnType::Discountable => text("Discountable"),
            ColumnType::Voidable => text("Voidable"),
            ColumnType::NotActive => text("Not Active"),
            ColumnType::TaxIncluded => text("Tax Included"),
            ColumnType::StockItem => text("Stock Item"),
            ColumnType::CustomerReceiptText => text("Customer Receipt Text"),
            ColumnType::KitchenVideoText => text("Kitchen Video Text"),
            ColumnType::KDSCategory => text("KDS Category"),
            ColumnType::KDSCooktime => text("KDS Cooktime"),
            ColumnType::KDSDepartment => text("KDS Department"),
            ColumnType::StoreID => text("Store ID"),
            ColumnType::Covers => text("Covers"),
            ColumnType::ImageID => text("Image ID"),
            ColumnType::LanguageISOCode => text("Language ISO Code"),
            ColumnType::ChoiceGroups => text("Choice Groups"),
            ColumnType::PrinterLogicals => text("Printer Logicals"),
        }
    }

    /// Whether the column is shown before the user picks columns.
    pub fn visible_by_default(&self) -> (r: bool)
        ensures
            r == spec_visible_by_default(*self),
    {
        match self {
            ColumnType::SKU => false,
            ColumnType::BarGunCode => false,
            ColumnType::NotActive => false,
            ColumnType::StockItem => false,
            ColumnType::KitchenVideoText => false,
            ColumnType::KDSCategory => false,
            ColumnType::KDSCooktime => false,
            ColumnType::KDSDepartment => false,
            ColumnType::StoreID => false,
            ColumnType::Covers => false,
            ColumnType::ImageID => false,
            ColumnType::LanguageISOCode => false,
            _ => true,
        }
    }
}

proof fn lemma_columns_indexed()
    ensures
        spec_columns().len() == 36,
        forall|i: int| 0 <= i < 36 ==> spec_column_index(#[trigger] spec_columns()[i]) == i,
        forall|c: ColumnType| spec_columns()[#[trigger] spec_column_index(c)] == c,
        forall|c: ColumnType| 0 <= #[trigger] spec_column_index(c) < 36,
{
}

// ---------------------------------------------------------------------
// Rows
// ---------------------------------------------------------------------

/// A missing cost shows as `0.00`.
pub open spec fn spec_cost_or_zero(c: Option<Amount>) -> Amount {
    match c {
        Some(a) => a,
        None => Amount { mantissa: 0, scale: 2 },
    }
}

fn cost_or_zero(c: Option<Amount>) -> (r: Amount)
    ensures
        r == spec_cost_or_zero(c),
{
    match c {
        Some(a) => a,
        None => Amount::new(0, 2),
    }
}

/// The text of a column for an item, as the preview shows it.
pub open spec fn spec_column_text(it: ItemModel, ctx: &ViewContext, c: ColumnType) -> Seq<char> {
    match c {
        ColumnType::Id => spec_int_text(it.id as int),
        ColumnType::Name => it.name,
        ColumnType::Button1 => it.button1,
        ColumnType::Button2 => spec_or_empty(it.button2),
        ColumnType::PrinterText => it.printer_text,
        ColumnType::ItemGroup => spec_name_or_none(it.item_group, ctx.available_item_groups@),
        ColumnType::ProductClass => spec_name_or_none(it.product_class, ctx.available_product_classes@),
        ColumnType::RevenueCategory => spec_name_or_none(it.revenue_category, ctx.available_revenue_categories@),
        ColumnType::TaxGroup => spec_name_or_none(it.tax_group, ctx.available_tax_groups@),
        ColumnType::SecurityLevel => spec_name_or_none(it.security_level, ctx.available_security_levels@),
        ColumnType::ReportCategory => spec_name_or_none(it.report_category, ctx.available_report_categories@),
        ColumnType::CostAmount => spec_text(spec_cost_or_zero(it.cost_amount)),
        ColumnType::AskPrice => spec_bool_text(it.ask_price),
        ColumnType::AllowPriceOverride => spec_bool_text(it.allow_price_override),
        ColumnType::PriceLevels => spec_prices_text(it.default_price, it.item_prices, ctx.available_price_levels@),
        ColumnType::UseWeight => spec_bool_text(it.use_weight),
        ColumnType::WeightAmount => spec_text(it.weight_amount),
        ColumnType::SKU => spec_or_empty(it.sku),
        ColumnType::BarGunCode => spec_or_empty(it.bar_gun_code),
        ColumnType::PrintOnCheck => spec_bool_text(it.print_on_check),
        ColumnType::Discountable => spec_bool_text(it.discountable),
        ColumnType::Voidable => spec_bool_text(it.voidable),
        ColumnType::NotActive => spec_bool_text(it.not_active),
        ColumnType::TaxIncluded => spec_bool_text(it.tax_included),
        ColumnType::StockItem => spec_bool_text(it.stock_item),
        ColumnType::CustomerReceiptText => it.customer_receipt,
        ColumnType::KitchenVideoText => it.kitchen_video,
        ColumnType::KDSCategory => it.kds_category,
        ColumnType::KDSCooktime => spec_int_text(it.kds_cooktime as int),
        ColumnType::KDSDepartment => spec_int_text(it.kds_dept as int),
        ColumnType::StoreID => spec_int_text(it.store_id as int),
        ColumnType::Covers => spec_int_text(it.covers as int),
        ColumnType::ImageID => spec_int_text(it.image_id as int),
        ColumnType::LanguageISOCode => it.language_iso_code,
        ColumnType::ChoiceGroups => spec_names_list(match it.choice_groups { Some(d) => Some(spec_pair_ids(d)), None => None }, ctx.available_choice_groups@),
        ColumnType::PrinterLogicals => spec_names_list(match it.printer_logicals { Some(d) => Some(spec_pair_ids(d)), None => None }, ctx.available_printer_logicals@),
    }
}

/// The text of a column for an item.
#[verifier::rlimit(40)]
fn column_text(item: &Item, ctx: &ViewContext, c: ColumnType) -> (r: String)
    requires
        spec_item_amounts_wf(item@),
    ensures
        r@ == spec_column_text(item@, ctx, c),
{
    match c {
        ColumnType::Id => int_string(item.id),
        ColumnType::Name => item.name.clone(),
        ColumnType::Button1 => item.button1.clone(),
        ColumnType::Button2 => or_empty(&item.button2),
        ColumnType::PrinterText => item.printer_text.clone(),
        ColumnType::ItemGroup => name_or_none(item.item_group, &ctx.available_item_groups),
        ColumnType::ProductClass => name_or_none(item.product_class, &ctx.available_product_classes),
        ColumnType::RevenueCategory => name_or_none(item.revenue_category, &ctx.available_revenue_categories),
        ColumnType::TaxGroup => name_or_none(item.tax_group, &ctx.available_tax_groups),
        ColumnType::SecurityLevel => name_or_none(item.security_level, &ctx.available_security_levels),
        ColumnType::ReportCategory => name_or_none(item.report_category, &ctx.available_report_categories),
        ColumnType::CostAmount => amount_text(cost_or_zero(item.cost_amount)),
        ColumnType::AskPrice => bool_text(item.ask_price),
        ColumnType::AllowPriceOverride => bool_text(item.allow_price_override),
        ColumnType::PriceLevels => get_prices_string_with_names(item.default_price, item.item_prices.as_ref(), &ctx.available_price_levels),
        ColumnType::UseWeight => bool_text(item.use_weight),
        ColumnType::WeightAmount => amount_text(item.weight_amount),
        ColumnType::SKU => or_empty(&item.sku),
        ColumnType::BarGunCode => or_empty(&item.bar_gun_code),
        ColumnType::PrintOnCheck => bool_text(item.print_on_check),
        ColumnType::Discountable => bool_text(item.discountable),
        ColumnType::Voidable => bool_text(item.voidable),
        ColumnType::NotActive => bool_text(item.not_active),
        ColumnType::TaxIncluded => bool_text(item.tax_included),
        ColumnType::StockItem => bool_text(item.stock_item),
        ColumnType::CustomerReceiptText => item.customer_receipt.clone(),
        ColumnType::KitchenVideoText => item.kitchen_video.clone(),
        ColumnType::KDSCategory => item.kds_category.clone(),
        ColumnType::KDSCooktime => int_string(item.kds_cooktime),
        ColumnType::KDSDepartment => int_string(item.kds_dept),
        ColumnType::StoreID => int_string(item.store_id),
        ColumnType::Covers => int_string(item.covers),
        ColumnType::ImageID => int_string(item.image_id),
        ColumnType::LanguageISOCode => item.language_iso_code.clone(),
        ColumnType::ChoiceGroups => get_choice_groups_string_with_names(item.choice_groups.as_ref(), &ctx.available_choice_groups),
        ColumnType::PrinterLogicals => get_printer_logicals_string_with_names(item.printer_logicals.as_ref(), &ctx.available_printer_logicals),
    }
}

/// The cells of an item's row when the edit left it alone.
pub open spec fn spec_row(it: ItemModel, ctx: &ViewContext) -> Seq<CellModel> {
    Seq::new(36, |i: int| spec_unchanged(spec_column_text(it, ctx, spec_columns()[i])))
}

/// The cells of an item's row before (`o`) and after (`m`) the edit: the
/// id as it was, every other column marked changed where its text differs.
pub open spec fn spec_row_diff(o: ItemModel, m: ItemModel, ctx: &ViewContext) -> Seq<CellModel> {
    Seq::new(
        36,
        |i: int|
            if i == 0 {
                spec_unchanged(spec_column_text(o, ctx, ColumnType::Id))
            } else {
                spec_diff(
                    spec_column_text(o, ctx, spec_columns()[i]),
                    spec_column_text(m, ctx, spec_columns()[i]),
                )
            },
    )
}

/// One row of the preview: a cell per column.
#[derive(Debug)]
pub struct Row {
    cells: Vec<CellValue>,
}

impl View for Row {
    type V = Seq<CellModel>;

    closed spec fn view(&self) -> Seq<CellModel> {
        self.cells@.map_values(|c: CellValue| c@)
    }
}

impl Row {
    #[verifier::type_invariant]
    spec fn has_every_column(self) -> bool {
        self.cells@.len() == 36
    }

    /// The row of an item the edit left alone.
    pub fn generate(item: &Item, context: &ViewContext) -> (r: Row)
        requires
            spec_item_amounts_wf(item@),
        ensures
            r@ == spec_row(item@, context),
    {
        proof {
            lemma_columns_indexed();
        }
        let columns = ColumnType::all();
        let mut cells: Vec<CellValue> = Vec::new();
        let mut i: usize = 0;
        while i < 36
            invariant
                i <= 36,
                columns@ == spec_columns(),
                spec_columns().len() == 36,
                spec_item_amounts_wf(item@),
                cells@.len() == i,
                forall|k: int| 0 <= k < i ==> (#[trigger] cells@[k])@ == spec_row(item@, context)[k],
            decreases 36 - i,
        {
            let t = column_text(item, context, columns[i]);
            cells.push(CellValue::unchanged(t));
            i += 1;
        }
        let r = Row { cells };
        proof {
            assert(r@ =~= spec_row(item@, context));
        }
        r
    }

    /// The row of an item before and after the edit.
    pub fn generate_with_diff(original: &Item, modified: &Item, context: &ViewContext) -> (r: Row)
        requires
            spec_item_amounts_wf(original@),
            spec_item_amounts_wf(modified@),
        ensures
            r@ == spec_row_diff(original@, modified@, context),
    {
        proof {
            lemma_columns_indexed();
        }
        let columns = ColumnType::all();
        let mut cells: Vec<CellValue> = Vec::new();
        cells.push(CellValue::unchanged(column_text(original, context, ColumnType::Id)));
        let mut i: usize = 1;
        while i < 36
            invariant
                1 <= i <= 36,
                columns@ == spec_columns(),
                spec_columns().len() == 36,
                spec_item_amounts_wf(original@),
                spec_item_amounts_wf(modified@),
                cells@.len() == i,
                forall|k: int|
                    0 <= k < i ==> (#[trigger] cells@[k])@ == spec_row_diff(original@, modified@, context)[k],
            decreases 36 - i,
        {
            let before = column_text(original, context, columns[i]);
            let after = column_text(modified, context, columns[i]);
            cells.push(diff_value(before, after));
            i += 1;
        }
        let r = Row { cells };
        proof {
            assert(r@ =~= spec_row_diff(original@, modified@, context));
        }
        r
    }

    /// The cell of a column.
    pub fn cell(&self, column: ColumnType) -> (r: &CellValue)
        ensures
            r@ == self@[spec_column_index(column)],
            self@.len() == 36,
    {
        proof {
            use_type_invariant(self);
            lemma_columns_indexed();
        }
        &self.cells[column.index()]
    }
}

/// The row the preview shows for the item stored under `id`: before and
/// after the edit when the edited items still hold `id`, else as it was.
pub open spec fn spec_preview_row(
    id: EntityId,
    original: ItemModel,
    modified_items: Map<EntityId, Item>,
    ctx: &ViewContext,
) -> Seq<CellModel> {
    if modified_items.contains_key(id) {
        spec_row_diff(original, modified_items[id]@, ctx)
    } else {
        spec_row(original, ctx)
    }
}

/// The row the preview shows for the item stored under `id`.
pub fn preview_row(id: EntityId, original: &Item, modified_items: &BTreeMap<EntityId, Item>, context: &ViewContext) -> (r: Row)
    requires
        spec_item_amounts_wf(original@),
        modified_items@.contains_key(id) ==> spec_item_amounts_wf(modified_items@[id]@),
    ensures
        r@ == spec_preview_row(id, original@, modified_items@, context),
{
    match modified_items.get(&id) {
        Some(m) => Row::generate_with_diff(original, m, context),
        None => Row::generate(original, context),
    }
}


// ---------------------------------------------------------------------
// Lists shown in a cell
// ---------------------------------------------------------------------

/// A `, ` separator starts at `i`.
pub open spec fn spec_sep_at(s: Seq<char>, i: int) -> bool {
    0 <= i && i + 1 < s.len() && s[i] == ',' && s[i + 1] == ' '
}

/// Where the first `, ` separator starts, if there is one.
pub open spec fn spec_first_sep(s: Seq<char>) -> Option<int>
    decreases s.len(),
{
    if s.len() < 2 {
        None
    } else if s[0] == ',' && s[1] == ' ' {
        Some(0)
    } else {
        match spec_first_sep(s.drop_first()) {
            Some(i) => Some(i + 1),
            None => None,
        }
    }
}

/// The pieces of `s` between `, ` separators (`str::split(", ")`).
pub open spec fn spec_split_sep(s: Seq<char>) -> Seq<Seq<char>>
    decreases s.len(),
{
    match spec_first_sep(s) {
        None => seq![s],
        Some(i) => if 0 <= i && i + 2 <= s.len() {
            seq![s.take(i)] + spec_split_sep(s.skip(i + 2))
        } else {
            seq![s]
        },
    }
}

/// The entries of a list shown as `[a, b]`; a text that is not bracketed
/// is one entry, and `[]` none.
pub open spec fn spec_parse_list(s: Seq<char>) -> Seq<Seq<char>> {
    if s.len() >= 2 && s[0] == '[' && s.last() == ']' {
        let inner = s.subrange(1, s.len() - 1);
        if inner.len() == 0 {
            Seq::empty()
        } else {
            spec_split_sep(inner)
        }
    } else {
        seq![s]
    }
}

proof fn lemma_first_sep_none(s: Seq<char>)
    requires
        forall|j: int| !spec_sep_at(s, j),
    ensures
        spec_first_sep(s) is None,
    decreases s.len(),
{
    if s.len() >= 2 {
        assert(!spec_sep_at(s, 0));
        let d = s.drop_first();
        assert forall|j: int| !spec_sep_at(d, j) by {
            if spec_sep_at(d, j) {
                assert(spec_sep_at(s, j + 1));
            }
        }
        lemma_first_sep_none(d);
    }
}

proof fn lemma_first_sep_at(s: Seq<char>, k: int)
    requires
        spec_sep_at(s, k),
        forall|j: int| j < k ==> !spec_sep_at(s, j),
    ensures
        spec_first_sep(s) == Some(k),
    decreases s.len(),
{
    if k > 0 {
        assert(!spec_sep_at(s, 0));
        let d = s.drop_first();
        assert(spec_sep_at(d, k - 1));
        assert forall|j: int| j < k - 1 implies !spec_sep_at(d, j) by {
            if spec_sep_at(d, j) {
                assert(spec_sep_at(s, j + 1));
            }
        }
        lemma_first_sep_at(d, k - 1);
    }
}

/// Splits a text at every `, ` separator.
fn split_sep(s: &[char]) -> (r: Vec<String>)
    ensures
        r@.map_values(|x: String| x@) == spec_split_sep(s@),
{
    let mut r: Vec<String> = Vec::new();
    let mut cur: Vec<char> = Vec::new();
    let mut start: usize = 0;
    let mut i: usize = 0;
    let n = s.len();
    proof {
        assert(s@.skip(0) =~= s@);
    }
    while i < n
        invariant
            n == s@.len(),
            start <= i <= n,
            cur@ == s@.subrange(start as int, i as int),
            forall|j: int| start <= j < i ==> !spec_sep_at(s@, j),
            r@.map_values(|x: String| x@) + spec_split_sep(s@.skip(start as int)) == spec_split_sep(s@),
        decreases n - i,
    {
        let ghost rest = s@.skip(start as int);
        if s[i] == ',' && i + 1 < n && s[i + 1] == ' ' {
            proof {
                let k = i - start;
                assert(spec_sep_at(rest, k));
                assert forall|j: int| j < k implies !spec_sep_at(rest, j) by {
                    if spec_sep_at(rest, j) {
                        assert(spec_sep_at(s@, start + j));
                    }
                }
                lemma_first_sep_at(rest, k);
                assert(rest.take(k) =~= cur@);
                assert(rest.skip(k + 2) =~= s@.skip(i + 2));
            }
            let ghost before = r@.map_values(|x: String| x@);
            let piece = string_of(cur.as_slice());
            r.push(piece);
            proof {
                assert(r@.map_values(|x: String| x@) =~= before.push(cur@));
                assert(spec_split_sep(rest) == seq![cur@] + spec_split_sep(s@.skip(i + 2)));
                assert(before.push(cur@) + spec_split_sep(s@.skip(i + 2)) =~= before + spec_split_sep(rest));
            }
            cur = Vec::new();
            start = i + 2;
            i = i + 2;
            proof {
                assert(cur@ =~= s@.subrange(start as int, i as int));
            }
        } else {
            cur.push(s[i]);
            i += 1;
            proof {
                assert(cur@ =~= s@.subrange(start as int, i as int));
            }
        }
    }
    proof {
        let rest = s@.skip(start as int);
        assert(rest =~= cur@);
        assert forall|j: int| !spec_sep_at(rest, j) by {
            if spec_sep_at(rest, j) {
                assert(spec_sep_at(s@, start + j));
            }
        }
        lemma_first_sep_none(rest);
    }
    let ghost before = r@.map_values(|x: String| x@);
    let piece = string_of(cur.as_slice());
    r.push(piece);
    proof {
        assert(r@.map_values(|x: String| x@) =~= before + spec_split_sep(s@.skip(start as int)));
    }
    r
}

/// The entries of a list shown as `[a, b]`.
pub fn parse_list_string(s: &str) -> (r: Vec<String>)
    ensures
        r@.map_values(|x: String| x@) == spec_parse_list(s@),
{
    let c = chars_of(s);
    let n = c.len();
    if n >= 2 && c[0] == '[' && c[n - 1] == ']' {
        if n == 2 {
            let r: Vec<String> = Vec::new();
            proof {
                assert(r@.map_values(|x: String| x@) =~= spec_parse_list(s@));
            }
            return r;
        }
        let mut inner: Vec<char> = Vec::new();
        let mut i: usize = 1;
        while i < n - 1
            invariant
                1 <= i <= n - 1,
                n == c@.len(),
                inner@ == c@.subrange(1, i as int),
            decreases n - 1 - i,
        {
            inner.push(c[i]);
            i += 1;
            proof {
                assert(inner@ =~= c@.subrange(1, i as int));
            }
        }
        split_sep(inner.as_slice())
    } else {
        let mut r: Vec<String> = Vec::new();
        r.push(text(s));
        proof {
            assert(r@.map_values(|x: String| x@) =~= spec_parse_list(s@));
        }
        r
    }
}


/// The first entry at or after `j` equal to `x` that is not yet matched.
pub open spec fn spec_first_unused(mods: Seq<Seq<char>>, used: Set<int>, x: Seq<char>, j: int) -> Option<int>
    decreases mods.len() - j,
{
    if j < 0 || j >= mods.len() {
        None
    } else if mods[j] == x && !used.contains(j) {
        Some(j)
    } else {
        spec_first_unused(mods, used, x, j + 1)
    }
}

/// The old entries in order, each kept when it matches the first unmatched
/// equal new entry and removed otherwise; with the new entries matched.
pub open spec fn spec_match_old(olds: Seq<Seq<char>>, mods: Seq<Seq<char>>) -> (Seq<(Seq<char>, CellChange)>, Set<int>)
    decreases olds.len(),
{
    if olds.len() == 0 {
        (Seq::empty(), Set::empty())
    } else {
        let prev = spec_match_old(olds.drop_last(), mods);
        let x = olds.last();
        match spec_first_unused(mods, prev.1, x, 0) {
            Some(j) => (prev.0.push((x, CellChange::Unchanged)), prev.1.insert(j)),
            None => (prev.0.push((x, CellChange::Removed)), prev.1),
        }
    }
}

/// The first `n` new entries that no old entry matched, marked added.
pub open spec fn spec_added(mods: Seq<Seq<char>>, used: Set<int>, n: int) -> Seq<(Seq<char>, CellChange)>
    decreases n,
{
    if n <= 0 {
        Seq::empty()
    } else {
        let prev = spec_added(mods, used, n - 1);
        if used.contains(n - 1) {
            prev
        } else {
            prev.push((mods[n - 1], CellChange::Added))
        }
    }
}

/// How a changed list cell reads entry by entry: the old entries, kept or
/// removed, then the entries the edit added.
pub open spec fn spec_list_diff(original: Seq<char>, modified: Seq<char>) -> Seq<(Seq<char>, CellChange)> {
    let olds = spec_parse_list(original);
    let mods = spec_parse_list(modified);
    let m = spec_match_old(olds, mods);
    m.0 + spec_added(mods, m.1, mods.len() as int)
}

/// The entries of a changed list cell, each marked kept, removed or added.
pub fn list_diff(original: &str, modified: &str) -> (r: Vec<(String, CellChange)>)
    ensures
        r@.map_values(|e: (String, CellChange)| (e.0@, e.1)) == spec_list_diff(original@, modified@),
{
    let olds = parse_list_string(original);
    let mods = parse_list_string(modified);
    let ghost ov = olds@.map_values(|x: String| x@);
    let ghost mv = mods@.map_values(|x: String| x@);
    let mut used: Vec<bool> = Vec::new();
    let mut k: usize = 0;
    while k < mods.len()
        invariant
            k <= mods@.len(),
            used@.len() == k,
            forall|j: int| 0 <= j < k ==> !used@[j],
        decreases mods.len() - k,
    {
        used.push(false);
        k += 1;
    }
    let mut out: Vec<(String, CellChange)> = Vec::new();
    let ghost mut used_set: Set<int> = Set::empty();
    let mut i: usize = 0;
    proof {
        assert(ov.take(0) =~= Seq::<Seq<char>>::empty());
        assert(out@.map_values(|e: (String, CellChange)| (e.0@, e.1)) =~= Seq::<(Seq<char>, CellChange)>::empty());
    }
    while i < olds.len()
        invariant
            i <= olds@.len(),
            ov == olds@.map_values(|x: String| x@),
            mv == mods@.map_values(|x: String| x@),
            used@.len() == mods@.len(),
            forall|j: int| 0 <= j < used@.len() ==> used@[j] == used_set.contains(j),
            spec_match_old(ov.take(i as int), mv) == (out@.map_values(|e: (String, CellChange)| (e.0@, e.1)), used_set),
        decreases olds.len() - i,
    {
        let ghost x = ov[i as int];
        let mut found: Option<usize> = None;
        let mut j: usize = 0;
        while j < mods.len()
            invariant_except_break
                found is None,
                spec_first_unused(mv, used_set, x, 0) == spec_first_unused(mv, used_set, x, j as int),
            invariant
                j <= mods@.len(),
                i < olds@.len(),
                x == ov[i as int],
                ov == olds@.map_values(|x: String| x@),
                mv == mods@.map_values(|x: String| x@),
                used@.len() == mods@.len(),
                forall|j: int| 0 <= j < used@.len() ==> used@[j] == used_set.contains(j),
            ensures
                match found {
                    Some(f) => f < mods@.len() && spec_first_unused(mv, used_set, x, 0) == Some(f as int),
                    None => spec_first_unused(mv, used_set, x, 0) is None,
                },
            decreases mods.len() - j,
        {
            if mods[j] == olds[i] && !used[j] {
                found = Some(j);
                break;
            }
            j += 1;
        }
        let ghost prev = out@.map_values(|e: (String, CellChange)| (e.0@, e.1));
        proof {
            assert(ov.take(i + 1).drop_last() =~= ov.take(i as int));
            assert(ov.take(i + 1).last() == x);
        }
        match found {
            Some(f) => {
                out.push((olds[i].clone(), CellChange::Unchanged));
                used.set(f, true);
                proof {
                    used_set = used_set.insert(f as int);
                }
            },
            None => {
                out.push((olds[i].clone(), CellChange::Removed));
            },
        }
        proof {
            assert(out@.map_values(|e: (String, CellChange)| (e.0@, e.1)) =~= prev.push(
                (x, if found is Some { CellChange::Unchanged } else { CellChange::Removed }),
            ));
        }
        i += 1;
    }
    proof {
        assert(ov.take(olds@.len() as int) =~= ov);
    }
    let ghost matched = out@.map_values(|e: (String, CellChange)| (e.0@, e.1));
    let mut k: usize = 0;
    while k < mods.len()
        invariant
            k <= mods@.len(),
            mv == mods@.map_values(|x: String| x@),
            used@.len() == mods@.len(),
            forall|j: int| 0 <= j < used@.len() ==> used@[j] == used_set.contains(j),
            out@.map_values(|e: (String, CellChange)| (e.0@, e.1)) == matched + spec_added(mv, used_set, k as int),
        decreases mods.len() - k,
    {
        let ghost prev = out@.map_values(|e: (String, CellChange)| (e.0@, e.1));
        if !used[k] {
            out.push((mods[k].clone(), CellChange::Added));
            proof {
                assert(out@.map_values(|e: (String, CellChange)| (e.0@, e.1)) =~= prev.push((mv[k as int], CellChange::Added)));
            }
        }
        k += 1;
        proof {
            assert(matched + spec_added(mv, used_set, k as int) =~= if used_set.contains(k - 1) {
                matched + spec_added(mv, used_set, k - 1)
            } else {
                (matched + spec_added(mv, used_set, k - 1)).push((mv[k - 1], CellChange::Added))
            });
        }
    }
    out
}


/// No `, ` separator occurs in the text.
pub open spec fn spec_no_sep(s: Seq<char>) -> bool {
    forall|j: int| !spec_sep_at(s, j)
}

proof fn lemma_split_after_piece(x: Seq<char>, y: Seq<char>)
    requires
        spec_no_sep(x),
    ensures
        spec_split_sep(x + ", "@ + y) == seq![x] + spec_split_sep(y),
{
    reveal_strlit(", ");
    let s = x + ", "@ + y;
    let k = x.len() as int;
    assert(s[k] == ',' && s[k + 1] == ' ');
    assert(spec_sep_at(s, k));
    assert forall|j: int| j < k implies !spec_sep_at(s, j) by {
        if spec_sep_at(s, j) {
            if j + 1 < k {
                assert(spec_sep_at(x, j));
            } else {
                assert(s[j + 1] == ',');
            }
        }
    }
    lemma_first_sep_at(s, k);
    assert(s.take(k) =~= x);
    assert(s.skip(k + 2) =~= y);
}

proof fn lemma_split_join(names: Seq<Seq<char>>)
    requires
        names.len() >= 1,
        forall|k: int| 0 <= k < names.len() ==> spec_no_sep(#[trigger] names[k]),
    ensures
        spec_split_sep(spec_join(names, ", "@)) == names,
    decreases names.len(),
{
    if names.len() == 1 {
        assert(spec_no_sep(names[0]));
        lemma_first_sep_none(names[0]);
        assert(spec_split_sep(names[0]) == seq![names[0]]);
        assert(seq![names[0]] =~= names);
    } else {
        lemma_join_front(names, ", "@);
        let rest = names.drop_first();
        assert forall|k: int| 0 <= k < rest.len() implies spec_no_sep(#[trigger] rest[k]) by {
            assert(rest[k] == names[k + 1]);
        }
        lemma_split_join(rest);
        assert(spec_no_sep(names[0]));
        lemma_split_after_piece(names[0], spec_join(rest, ", "@));
        assert(seq![names[0]] + rest =~= names);
    }
}

/// Reading back a list shown as `[a, b]` gives its entries, when no entry
/// holds `, ` and the list is not a single empty entry.
pub proof fn lemma_parse_shown_list(names: Seq<Seq<char>>)
    requires
        forall|k: int| 0 <= k < names.len() ==> spec_no_sep(#[trigger] names[k]),
        !(names.len() == 1 && names[0].len() == 0),
    ensures
        spec_parse_list("["@ + spec_join(names, ", "@) + "]"@) == names,
{
    reveal_strlit("[");
    reveal_strlit("]");
    reveal_strlit(", ");
    let j = spec_join(names, ", "@);
    let s = "["@ + j + "]"@;
    assert(s[0] == '[');
    assert(s.last() == ']');
    assert(s.subrange(1, s.len() - 1) =~= j);
    if names.len() == 0 {
        assert(j.len() == 0);
        assert(names =~= Seq::<Seq<char>>::empty());
    } else {
        if names.len() == 1 {
            assert(j == names[0]);
        } else {
            lemma_join_front(names, ", "@);
            assert(j.len() >= 2);
        }
        lemma_split_join(names);
    }
}


proof fn lemma_found_names_no_sep<T: HasName>(ids: Seq<EntityId>, m: Map<EntityId, T>)
    requires
        forall|id: EntityId| m.contains_key(id) ==> spec_no_sep(#[trigger] m[id].spec_has_name()),
    ensures
        forall|k: int| 0 <= k < spec_found_names(ids, m).len() ==> spec_no_sep(#[trigger] spec_found_names(ids, m)[k]),
    decreases ids.len(),
{
    if ids.len() > 0 {
        lemma_found_names_no_sep(ids.drop_last(), m);
        let prev = spec_found_names(ids.drop_last(), m);
        assert forall|k: int| 0 <= k < spec_found_names(ids, m).len() implies spec_no_sep(
            #[trigger] spec_found_names(ids, m)[k],
        ) by {
            if k < prev.len() {
                assert(spec_found_names(ids, m)[k] == prev[k]);
            } else {
                assert(spec_found_names(ids, m)[k] == m[ids.last()].spec_has_name());
            }
        }
    }
}

/// The names a list cell shows: those of the entities found, none when
/// there is no list.
pub open spec fn spec_shown_names<T: HasName>(ids: Option<Seq<EntityId>>, m: Map<EntityId, T>) -> Seq<Seq<char>> {
    match ids {
        Some(s) => spec_found_names(s, m),
        None => Seq::empty(),
    }
}

/// Reading back a cell listing entities by name gives the names of the
/// entities found, when no name holds `, ` and the cell does not list a
/// single empty name.
pub proof fn lemma_parse_names_list<T: HasName>(ids: Option<Seq<EntityId>>, m: Map<EntityId, T>)
    requires
        forall|id: EntityId| m.contains_key(id) ==> spec_no_sep(#[trigger] m[id].spec_has_name()),
        !(spec_shown_names(ids, m).len() == 1 && spec_shown_names(ids, m)[0].len() == 0),
    ensures
        spec_parse_list(spec_names_list(ids, m)) == spec_shown_names(ids, m),
{
    reveal_strlit("[]");
    reveal_strlit("[");
    reveal_strlit("]");
    let names = spec_shown_names(ids, m);
    match ids {
        Some(s) => {
            lemma_found_names_no_sep(s, m);
            if s.len() > 0 {
                lemma_parse_shown_list(names);
            } else {
                assert(names.len() == 0);
                assert(spec_parse_list("[]"@) =~= names);
            }
        },
        None => {
            assert(spec_parse_list("[]"@) =~= names);
        },
    }
}

} // verus!
