//! The state of the menu builder: the catalogue of every entity kind, the
//! open edits, the item being drafted, the pending deletion, and the
//! operations that change them.

use crate::catalog::{EditRecord, spec_edits_wf};
use crate::entity_component::spec_next_id;
use crate::choice_groups::ChoiceGroup;
use crate::data_types::{DeletionInfo, EntityId, ItemPrice, text};
use crate::entity_component::EditState;
use crate::import_items::{ItemReference, ensure_all_referenced_entities_exist, spec_filled, spec_refs, spec_refs_resolve};
use crate::item_groups::{ItemGroup, ItemGroupEditState};
use crate::item_edit::{EditState as ItemEditState, EditStateModel, spec_blank_edit_state, spec_new_edit_state};
use crate::items::{Item, ItemModel, Mode, items_model};
use crate::money::{Amount, parse_amount, spec_parse};
use crate::price_levels::{PriceLevel, PriceLevelEditState};
use crate::printer_logicals::PrinterLogical;
use crate::product_classes::ProductClass;
use crate::report_categories::ReportCategory;
use crate::revenue_categories::RevenueCategory;
use crate::security_levels::SecurityLevel;
use crate::settings::{AppSettings, ThemeChoice};
use crate::tax_groups::{TaxGroup, TaxGroupEditState};
use crate::text::text_is;
use std::collections::BTreeMap;
use vstd::std_specs::cmp::OrdSpec;
use vstd::std_specs::iter::IteratorSpec;
use vstd::prelude::*;

verus! {

broadcast use vstd::laws_cmp::group_laws_cmp;

/// The screen shown.
#[derive(Debug, Clone)]
pub enum Screen {
    Settings(AppSettings),
    Items(Mode),
    ItemGroups,
    PriceLevels,
    ProductClasses,
    TaxGroups,
    SecurityLevels,
    RevenueCategories,
    ReportCategories,
    ChoiceGroups,
    PrinterLogicals,
}

/// The state of the menu builder.
pub struct MenuBuilder {
    pub screen: Screen,
    pub settings: AppSettings,
    pub deletion_info: DeletionInfo,
    pub show_modal: bool,
    pub show_item_import_confirmation: bool,
    pub error_message: Option<String>,
    pub items: BTreeMap<EntityId, Item>,
    pub draft_item: Item,
    pub draft_item_id: Option<EntityId>,
    pub selected_item_id: Option<EntityId>,
    pub item_edit_state: ItemEditState,
    pub item_search: String,
    pub import_item_path: String,
    pub item_groups: BTreeMap<EntityId, ItemGroup>,
    pub item_group_edit_state_vec: Vec<ItemGroupEditState>,
    pub price_levels: BTreeMap<EntityId, PriceLevel>,
    pub price_level_edit_state_vec: Vec<PriceLevelEditState>,
    pub product_classes: BTreeMap<EntityId, ProductClass>,
    pub product_class_edit_state_vec: Vec<EditState>,
    pub tax_groups: BTreeMap<EntityId, TaxGroup>,
    pub tax_group_edit_state_vec: Vec<TaxGroupEditState>,
    pub security_levels: BTreeMap<EntityId, SecurityLevel>,
    pub security_level_edit_state_vec: Vec<EditState>,
    pub revenue_categories: BTreeMap<EntityId, RevenueCategory>,
    pub revenue_category_edit_state_vec: Vec<EditState>,
    pub report_categories: BTreeMap<EntityId, ReportCategory>,
    pub report_category_edit_state_vec: Vec<EditState>,
    pub choice_groups: BTreeMap<EntityId, ChoiceGroup>,
    pub choice_group_edit_state_vec: Vec<EditState>,
    pub printer_logicals: BTreeMap<EntityId, PrinterLogical>,
    pub printer_logical_edit_state_vec: Vec<EditState>,
}

/// What the caller must do after an operation.
#[derive(Debug, Clone, Copy, PartialEq, Eq)]
pub enum Effect {
    /// Nothing more.
    Nothing,
    /// Write the state to the data file.
    Save,
    /// Show the application in the given theme.
    SetTheme(ThemeChoice),
    /// Open the window that edits many items at once.
    OpenMassEdit,
}

/// The entity kinds a deletion can name, by their type name.
#[derive(Debug, Clone, Copy, PartialEq, Eq)]
pub enum DeletedKind {
    ChoiceGroup,
    ItemGroup,
    Item,
    PriceLevel,
    PrinterLogical,
    ProductClass,
    ReportCategory,
    RevenueCategory,
    SecurityLevel,
    TaxGroup,
    Unknown,
}

/// The kind a deletion's type name names.
pub open spec fn spec_deleted_kind(t: Seq<char>) -> DeletedKind {
    if t == "ChoiceGroup"@ {
        DeletedKind::ChoiceGroup
    } else if t == "ItemGroup"@ {
        DeletedKind::ItemGroup
    } else if t == "Item"@ {
        DeletedKind::Item
    } else if t == "PriceLevel"@ {
        DeletedKind::PriceLevel
    } else if t == "PrinterLogical"@ {
        DeletedKind::PrinterLogical
    } else if t == "ProductClass"@ {
        DeletedKind::ProductClass
    } else if t == "ReportCategory"@ {
        DeletedKind::ReportCategory
    } else if t == "RevenueCategory"@ {
        DeletedKind::RevenueCategory
    } else if t == "SecurityLevel"@ {
        DeletedKind::SecurityLevel
    } else if t == "TaxGroup"@ {
        DeletedKind::TaxGroup
    } else {
        DeletedKind::Unknown
    }
}

/// Reads the kind a deletion's type name names.
pub fn deleted_kind(t: &str) -> (r: DeletedKind)
    ensures
        r == spec_deleted_kind(t@),
{
    let v = crate::text::chars_of(t);
    let v = v.as_slice();
    if text_is(v, "ChoiceGroup") {
        DeletedKind::ChoiceGroup
    } else if text_is(v, "ItemGroup") {
        DeletedKind::ItemGroup
    } else if text_is(v, "Item") {
        DeletedKind::Item
    } else if text_is(v, "PriceLevel") {
        DeletedKind::PriceLevel
    } else if text_is(v, "PrinterLogical") {
        DeletedKind::PrinterLogical
    } else if text_is(v, "ProductClass") {
        DeletedKind::ProductClass
    } else if text_is(v, "ReportCategory") {
        DeletedKind::ReportCategory
    } else if text_is(v, "RevenueCategory") {
        DeletedKind::RevenueCategory
    } else if text_is(v, "SecurityLevel") {
        DeletedKind::SecurityLevel
    } else if text_is(v, "TaxGroup") {
        DeletedKind::TaxGroup
    } else {
        DeletedKind::Unknown
    }
}

// ---------------------------------------------------------------------
// Removing references to a deleted entity
// ---------------------------------------------------------------------

/// The ids of a list other than `x`, in order.
pub open spec fn spec_ids_except(s: Seq<EntityId>, x: EntityId) -> Seq<EntityId> {
    s.filter(|y: EntityId| y != x)
}

/// The pairs of a list whose first component is not `x`, in order.
pub open spec fn spec_pairs_except<T>(s: Seq<(EntityId, T)>, x: EntityId) -> Seq<(EntityId, T)> {
    s.filter(|p: (EntityId, T)| p.0 != x)
}

/// A list without the id; none when nothing is left.
pub open spec fn spec_list_without(o: Option<Seq<EntityId>>, x: EntityId) -> Option<Seq<EntityId>> {
    match o {
        Some(s) => {
            let f = spec_ids_except(s, x);
            if f.len() == 0 {
                None
            } else {
                Some(f)
            }
        },
        None => None,
    }
}

/// A list of pairs without those whose first component is the id; none
/// when nothing is left.
pub open spec fn spec_pairs_without<T>(o: Option<Seq<(EntityId, T)>>, x: EntityId) -> Option<Seq<(EntityId, T)>> {
    match o {
        Some(s) => {
            let f = spec_pairs_except(s, x);
            if f.len() == 0 {
                None
            } else {
                Some(f)
            }
        },
        None => None,
    }
}

/// An optional reference, cleared when it names the id.
pub open spec fn spec_ref_without(o: Option<EntityId>, x: EntityId) -> Option<EntityId> {
    if o == Some(x) {
        None
    } else {
        o
    }
}

/// An item with every reference to the deleted entity removed.
pub open spec fn spec_clean_item(it: ItemModel, kind: DeletedKind, x: EntityId) -> ItemModel {
    match kind {
        DeletedKind::ChoiceGroup => ItemModel { choice_groups: spec_pairs_without(it.choice_groups, x), ..it },
        DeletedKind::ItemGroup => ItemModel { item_group: spec_ref_without(it.item_group, x), ..it },
        DeletedKind::PriceLevel => ItemModel {
            price_levels: spec_list_without(it.price_levels, x),
            item_prices: crate::item_edit::spec_prices_without(it.item_prices, x),
            ..it
        },
        DeletedKind::PrinterLogical => ItemModel {
            printer_logicals: spec_pairs_without(it.printer_logicals, x),
            ..it
        },
        DeletedKind::ProductClass => ItemModel { product_class: spec_ref_without(it.product_class, x), ..it },
        DeletedKind::ReportCategory => ItemModel {
            report_category: spec_ref_without(it.report_category, x),
            ..it
        },
        DeletedKind::RevenueCategory => ItemModel {
            revenue_category: spec_ref_without(it.revenue_category, x),
            ..it
        },
        DeletedKind::SecurityLevel => ItemModel {
            security_level: spec_ref_without(it.security_level, x),
            ..it
        },
        DeletedKind::TaxGroup => ItemModel { tax_group: spec_ref_without(it.tax_group, x), ..it },
        _ => it,
    }
}

pub(crate) fn ids_without(v: Vec<EntityId>, x: EntityId) -> (r: Option<Vec<EntityId>>)
    ensures
        match r {
            Some(w) => spec_list_without(Some(v@), x) == Some(w@),
            None => spec_list_without(Some(v@), x) is None,
        },
{
    let mut w: Vec<EntityId> = Vec::new();
    let mut i: usize = 0;
    while i < v.len()
        invariant
            i <= v@.len(),
            w@ == spec_ids_except(v@.take(i as int), x),
        decreases v.len() - i,
    {
        proof {
            assert(v@.take(i + 1).drop_last() =~= v@.take(i as int));
            reveal_with_fuel(Seq::filter, 1);
        }
        if v[i] != x {
            w.push(v[i]);
        }
        i += 1;
    }
    proof {
        assert(v@.take(v@.len() as int) =~= v@);
    }
    if w.len() == 0 {
        None
    } else {
        Some(w)
    }
}

pub(crate) fn pairs_without<T: Copy>(v: Vec<(EntityId, T)>, x: EntityId) -> (r: Option<Vec<(EntityId, T)>>)
    ensures
        match r {
            Some(w) => spec_pairs_without(Some(v@), x) == Some(w@),
            None => spec_pairs_without(Some(v@), x) is None,
        },
{
    let mut w: Vec<(EntityId, T)> = Vec::new();
    let mut i: usize = 0;
    while i < v.len()
        invariant
            i <= v@.len(),
            w@ == spec_pairs_except(v@.take(i as int), x),
        decreases v.len() - i,
    {
        proof {
            assert(v@.take(i + 1).drop_last() =~= v@.take(i as int));
            reveal_with_fuel(Seq::filter, 1);
        }
        if v[i].0 != x {
            w.push(v[i]);
        }
        i += 1;
    }
    proof {
        assert(v@.take(v@.len() as int) =~= v@);
    }
    if w.len() == 0 {
        None
    } else {
        Some(w)
    }
}

fn ref_without(o: Option<EntityId>, x: EntityId) -> (r: Option<EntityId>)
    ensures
        r == spec_ref_without(o, x),
{
    match o {
        Some(y) => if y == x {
            None
        } else {
            Some(y)
        },
        None => None,
    }
}

/// Removes the price level from the item's level list and its prices.
#[verifier::rlimit(100)]
#[verifier::spinoff_prover]
pub(crate) fn clean_price_level(it: &mut Item, x: EntityId)
    ensures
        final(it)@ == spec_clean_item(old(it)@, DeletedKind::PriceLevel, x),
{
    let levels = match it.price_levels.take() {
        Some(v) => ids_without(v, x),
        None => None,
    };
    let prices = crate::item_edit::prices_without(&it.item_prices, x);
    it.price_levels = levels;
    it.item_prices = prices;
}

/// Removes from the item every reference to the deleted entity.
#[verifier::rlimit(100)]
#[verifier::spinoff_prover]
pub fn clean_item(it: &mut Item, kind: DeletedKind, x: EntityId)
    ensures
        final(it)@ == spec_clean_item(old(it)@, kind, x),
{
    match kind {
        DeletedKind::ChoiceGroup => {
            match it.choice_groups.take() {
                Some(v) => it.choice_groups = pairs_without(v, x),
                None => {},
            }
        },
        DeletedKind::ItemGroup => it.item_group = ref_without(it.item_group, x),
        DeletedKind::PriceLevel => clean_price_level(it, x),
        DeletedKind::PrinterLogical => {
            match it.printer_logicals.take() {
                Some(v) => it.printer_logicals = pairs_without(v, x),
                None => {},
            }
        },
        DeletedKind::ProductClass => it.product_class = ref_without(it.product_class, x),
        DeletedKind::ReportCategory => it.report_category = ref_without(it.report_category, x),
        DeletedKind::RevenueCategory => it.revenue_category = ref_without(it.revenue_category, x),
        DeletedKind::SecurityLevel => it.security_level = ref_without(it.security_level, x),
        DeletedKind::TaxGroup => it.tax_group = ref_without(it.tax_group, x),
        _ => {},
    }
}

/// Keys a map hands out in increasing order are increasing as integers.
proof fn lemma_keys_increasing(ks: Seq<&EntityId>)
    requires
        vstd::std_specs::btree::increasing_seq(ks),
    ensures
        forall|i: int, j: int| 0 <= i < j < ks.len() ==> *ks[i] < *ks[j],
{
    broadcast use {vstd::std_specs::btree::axiom_increasing_seq_meaning, vstd::laws_cmp::group_laws_cmp};
    assert(vstd::laws_cmp::obeys_cmp::<EntityId>());
    assert(vstd::laws_cmp::obeys_cmp::<&EntityId>());
    assert forall|i: int, j: int| 0 <= i < j < ks.len() implies *ks[i] < *ks[j] by {
        assert(OrdSpec::cmp_spec(&ks[i], &ks[j]) is Less);
    }
}

/// The keys of a map, each once, in increasing order.
pub fn keys_of<V>(m: &BTreeMap<EntityId, V>) -> (r: Vec<EntityId>)
    ensures
        r@.to_set() == m@.dom(),
        r@.no_duplicates(),
        forall|i: int, j: int| 0 <= i < j < r@.len() ==> r@[i] < r@[j],
{
    let ghost ks = vstd::std_specs::btree::spec_keys_iter(m).remaining();
    let mut r: Vec<EntityId> = Vec::new();
    let ghost mut n: int = 0;
    for k in it: m.keys()
        invariant
            it.seq() == ks,
            ks.unref().to_set() == m@.dom(),
            ks.no_duplicates(),
            n == it.index(),
            r@ == ks.unref().take(n),
    {
        r.push(*k);
        proof {
            n = n + 1;
            assert(r@ =~= ks.unref().take(n));
        }
    }
    proof {
        assert(n == ks.len());
        assert(r@ =~= ks.unref());
        lemma_keys_increasing(ks);
        assert forall|i: int, j: int| 0 <= i < j < r@.len() implies r@[i] < r@[j] by {
            assert(r@[i] == *ks[i]);
            assert(r@[j] == *ks[j]);
        }
        assert(r@.no_duplicates()) by {
            assert forall|i: int, j: int| 0 <= i < r@.len() && 0 <= j < r@.len() && i != j implies r@[i] != r@[j] by {
                assert(r@[i] == *ks[i]);
                assert(r@[j] == *ks[j]);
            }
        }
    }
    r
}

/// Removes from every item every reference to the deleted entity.
pub fn clean_items(items: &mut BTreeMap<EntityId, Item>, kind: DeletedKind, x: EntityId)
    ensures
        final(items)@.dom() == old(items)@.dom(),
        items_model(final(items)@) == items_model(old(items)@).map_values(
            |it: ItemModel| spec_clean_item(it, kind, x),
        ),
{
    let keys = keys_of(items);
    let ghost m0 = items_model(items@);
    let ghost d0 = items@.dom();
    let mut i: usize = 0;
    while i < keys.len()
        invariant
            i <= keys@.len(),
            keys@.to_set() == d0,
            keys@.no_duplicates(),
            items@.dom() == d0,
            m0.dom() == d0,
            forall|k: EntityId| #[trigger] items@.contains_key(k) ==> items@[k]@ == (if keys@.take(i as int).contains(k) {
                spec_clean_item(m0[k], kind, x)
            } else {
                m0[k]
            }),
        decreases keys.len() - i,
    {
        let k = keys[i];
        proof {
            assert(keys@.to_set().contains(k));
            assert(!keys@.take(i as int).contains(k)) by {
                if keys@.take(i as int).contains(k) {
                    let j = choose|j: int| 0 <= j < i && keys@.take(i as int)[j] == k;
                    assert(keys@[j] == keys@[i as int]);
                }
            }
            assert forall|y: EntityId| #[trigger] keys@.take(i + 1).contains(y) <==> keys@.take(i as int).contains(y) || y == k by {
                assert(keys@.take(i + 1) =~= keys@.take(i as int).push(k));
                vstd::seq_lib::lemma_seq_contains_after_push(keys@.take(i as int), k, y);
            }
        }
        let ghost before = items@;
        let mut it = items.remove(&k).unwrap();
        clean_item(&mut it, kind, x);
        items.insert(k, it);
        proof {
            assert(items@.dom() =~= before.dom());
        }
        i += 1;
    }
    proof {
        assert(keys@.take(keys@.len() as int) =~= keys@);
        assert(items_model(items@) =~= m0.map_values(|it: ItemModel| spec_clean_item(it, kind, x)));
    }
}

/// Whether the item names `x` through the field of the deleted kind.
pub open spec fn spec_item_names(it: ItemModel, kind: DeletedKind, x: EntityId) -> bool {
    match kind {
        DeletedKind::ChoiceGroup => it.choice_groups matches Some(s) && exists|i: int| 0 <= i < s.len() && (#[trigger] s[i]).0 == x,
        DeletedKind::ItemGroup => it.item_group == Some(x),
        DeletedKind::PriceLevel => (it.price_levels matches Some(s) && s.contains(x)) || (it.item_prices matches Some(
            p,
        ) && exists|i: int| 0 <= i < p.len() && (#[trigger] p[i]).price_level_id == x),
        DeletedKind::PrinterLogical => it.printer_logicals matches Some(s) && exists|i: int| 0 <= i < s.len() && (#[trigger] s[i]).0 == x,
        DeletedKind::ProductClass => it.product_class == Some(x),
        DeletedKind::ReportCategory => it.report_category == Some(x),
        DeletedKind::RevenueCategory => it.revenue_category == Some(x),
        DeletedKind::SecurityLevel => it.security_level == Some(x),
        DeletedKind::TaxGroup => it.tax_group == Some(x),
        _ => false,
    }
}

/// After its references to a deleted entity are removed, an item no longer
/// names that entity.
#[verifier::rlimit(50)]
#[verifier::spinoff_prover]
pub proof fn lemma_clean_item_drops_reference(it: ItemModel, kind: DeletedKind, x: EntityId)
    ensures
        !spec_item_names(spec_clean_item(it, kind, x), kind, x),
{
    match kind {
        DeletedKind::ChoiceGroup => {
            if let Some(s) = it.choice_groups {
                let f = spec_pairs_except(s, x);
                assert forall|i: int| 0 <= i < f.len() implies (#[trigger] f[i]).0 != x by {
                    s.filter_lemma(|p: (EntityId, i32)| p.0 != x);
                }
            }
        },
        DeletedKind::PrinterLogical => {
            if let Some(s) = it.printer_logicals {
                let f = spec_pairs_except(s, x);
                assert forall|i: int| 0 <= i < f.len() implies (#[trigger] f[i]).0 != x by {
                    s.filter_lemma(|p: (EntityId, bool)| p.0 != x);
                }
            }
        },
        DeletedKind::PriceLevel => {
            if let Some(s) = it.price_levels {
                let f = spec_ids_except(s, x);
                s.filter_lemma(|y: EntityId| y != x);
                assert(!f.contains(x));
            }
            if let Some(p) = it.item_prices {
                let f = p.filter(|q: ItemPrice| q.price_level_id != x);
                assert forall|i: int| 0 <= i < f.len() implies (#[trigger] f[i]).price_level_id != x by {
                    p.filter_lemma(|q: ItemPrice| q.price_level_id != x);
                }
            }
        },
        _ => {},
    }
}

/// A table after a deletion: the entry is gone when the deletion names this
/// table's kind.
pub open spec fn spec_after_delete<V>(old: Map<EntityId, V>, mine: bool, x: EntityId) -> Map<EntityId, V> {
    if mine {
        old.remove(x)
    } else {
        old
    }
}

/// The screen after a deletion of the kind.
pub open spec fn spec_screen_after_delete(kind: DeletedKind, old: Screen) -> Screen {
    match kind {
        DeletedKind::ChoiceGroup => Screen::ChoiceGroups,
        DeletedKind::ItemGroup => Screen::ItemGroups,
        DeletedKind::PriceLevel => Screen::PriceLevels,
        DeletedKind::PrinterLogical => Screen::PrinterLogicals,
        DeletedKind::ProductClass => Screen::ProductClasses,
        DeletedKind::ReportCategory => Screen::ReportCategories,
        DeletedKind::RevenueCategory => Screen::RevenueCategories,
        DeletedKind::SecurityLevel => Screen::SecurityLevels,
        DeletedKind::TaxGroup => Screen::TaxGroups,
        _ => old,
    }
}

/// The edit states of a state, all lists together, are left as they are.
pub open spec fn spec_same_edits(a: &MenuBuilder, b: &MenuBuilder) -> bool {
    &&& a.item_group_edit_state_vec == b.item_group_edit_state_vec
    &&& a.price_level_edit_state_vec == b.price_level_edit_state_vec
    &&& a.product_class_edit_state_vec == b.product_class_edit_state_vec
    &&& a.tax_group_edit_state_vec == b.tax_group_edit_state_vec
    &&& a.security_level_edit_state_vec == b.security_level_edit_state_vec
    &&& a.revenue_category_edit_state_vec == b.revenue_category_edit_state_vec
    &&& a.report_category_edit_state_vec == b.report_category_edit_state_vec
    &&& a.choice_group_edit_state_vec == b.choice_group_edit_state_vec
    &&& a.printer_logical_edit_state_vec == b.printer_logical_edit_state_vec
}

/// The tables of entities other than items are left as they are.
pub open spec fn spec_same_tables(a: &MenuBuilder, b: &MenuBuilder) -> bool {
    &&& a.item_groups == b.item_groups
    &&& a.price_levels == b.price_levels
    &&& a.product_classes == b.product_classes
    &&& a.tax_groups == b.tax_groups
    &&& a.security_levels == b.security_levels
    &&& a.revenue_categories == b.revenue_categories
    &&& a.report_categories == b.report_categories
    &&& a.choice_groups == b.choice_groups
    &&& a.printer_logicals == b.printer_logicals
}

/// The item draft, selection, prices under edit and search are left as
/// they are.
pub open spec fn spec_same_item_view(a: &MenuBuilder, b: &MenuBuilder) -> bool {
    &&& a.draft_item == b.draft_item
    &&& a.draft_item_id == b.draft_item_id
    &&& a.selected_item_id == b.selected_item_id
    &&& a.item_edit_state == b.item_edit_state
    &&& a.item_search == b.item_search
}

/// The parts of the state an operation may change.
#[derive(Debug, Clone, Copy, PartialEq, Eq, Structural)]
pub enum Part {
    Settings,
    Items,
    ItemGroups,
    PriceLevels,
    ProductClasses,
    TaxGroups,
    SecurityLevels,
    RevenueCategories,
    ReportCategories,
    ChoiceGroups,
    PrinterLogicals,
}

/// Every part of the state but `part` (and the screen and the pending
/// deletion, which operations set themselves) is left as it was.
pub open spec fn spec_untouched_except(old: &MenuBuilder, new: &MenuBuilder, part: Part) -> bool {
    &&& part != Part::Settings ==> {
        &&& new.settings == old.settings
        &&& new.error_message == old.error_message
        &&& new.show_item_import_confirmation == old.show_item_import_confirmation
    }
    &&& part != Part::Items ==> new.items == old.items && spec_same_item_view(new, old)
        && new.import_item_path == old.import_item_path
    &&& part != Part::ItemGroups ==> new.item_groups == old.item_groups
        && new.item_group_edit_state_vec == old.item_group_edit_state_vec
    &&& part != Part::PriceLevels ==> new.price_levels == old.price_levels
        && new.price_level_edit_state_vec == old.price_level_edit_state_vec
    &&& part != Part::ProductClasses ==> new.product_classes == old.product_classes
        && new.product_class_edit_state_vec == old.product_class_edit_state_vec
    &&& part != Part::TaxGroups ==> new.tax_groups == old.tax_groups
        && new.tax_group_edit_state_vec == old.tax_group_edit_state_vec
    &&& part != Part::SecurityLevels ==> new.security_levels == old.security_levels
        && new.security_level_edit_state_vec == old.security_level_edit_state_vec
    &&& part != Part::RevenueCategories ==> new.revenue_categories == old.revenue_categories
        && new.revenue_category_edit_state_vec == old.revenue_category_edit_state_vec
    &&& part != Part::ReportCategories ==> new.report_categories == old.report_categories
        && new.report_category_edit_state_vec == old.report_category_edit_state_vec
    &&& part != Part::ChoiceGroups ==> new.choice_groups == old.choice_groups
        && new.choice_group_edit_state_vec == old.choice_group_edit_state_vec
    &&& part != Part::PrinterLogicals ==> new.printer_logicals == old.printer_logicals
        && new.printer_logical_edit_state_vec == old.printer_logical_edit_state_vec
}

/// The pair of an edited price: the level and the price text.
pub open spec fn prices_view(o: Option<Vec<(EntityId, String)>>) -> Option<Seq<(EntityId, Seq<char>)>> {
    match o {
        Some(v) => Some(v@.map_values(|q: (EntityId, String)| (q.0, q.1@))),
        None => None,
    }
}

/// The prices an item gets when its edit is saved: each edited price text
/// read as a decimal, `0.00` when it is not one.
pub open spec fn spec_saved_prices(o: Option<Seq<(EntityId, Seq<char>)>>) -> Seq<ItemPrice> {
    match o {
        Some(s) => s.map_values(
            |q: (EntityId, Seq<char>)| ItemPrice {
                price_level_id: q.0,
                price: match spec_parse(q.1) {
                    Some(a) => a,
                    None => Amount { mantissa: 0, scale: 2 },
                },
            },
        ),
        None => Seq::empty(),
    }
}

/// The edited prices after one is set: the first pair with the level takes
/// the text, else the pair is added at the end.
pub open spec fn spec_set_price(o: Option<Seq<(EntityId, Seq<char>)>>, level: EntityId, price: Seq<char>) -> Option<
    Seq<(EntityId, Seq<char>)>,
> {
    match o {
        None => Some(seq![(level, price)]),
        Some(s) => if exists|i: int| 0 <= i < s.len() && (#[trigger] s[i]).0 == level {
            let i = choose|i: int| 0 <= i < s.len() && s[i].0 == level && forall|j: int| 0 <= j < i ==> (#[trigger] s[j]).0 != level;
            Some(s.update(i, (level, price)))
        } else {
            Some(s.push((level, price)))
        },
    }
}

fn saved_prices(o: &Option<Vec<(EntityId, String)>>) -> (r: Vec<ItemPrice>)
    ensures
        r@ == spec_saved_prices(prices_view(*o)),
{
    let mut r: Vec<ItemPrice> = Vec::new();
    match o {
        None => {},
        Some(v) => {
            let mut i: usize = 0;
            while i < v.len()
                invariant
                    i <= v@.len(),
                    r@.len() == i,
                    forall|j: int| 0 <= j < i ==> #[trigger] r@[j] == spec_saved_prices(prices_view(*o))[j],
                    *o == Some(*v),
                decreases v.len() - i,
            {
                let price = match parse_amount(v[i].1.as_str()) {
                    Some(a) => a,
                    None => Amount::new(0, 2),
                };
                r.push(ItemPrice { price_level_id: v[i].0, price: price });
                i += 1;
            }
            proof {
                assert(r@ =~= spec_saved_prices(prices_view(*o)));
            }
        },
    }
    proof {
        assert(r@ =~= spec_saved_prices(prices_view(*o)));
    }
    r
}

/// The state `save_item` leaves.
pub open spec fn spec_after_save_item(old: &MenuBuilder, new: &MenuBuilder, item: Item, r: (Effect, EntityId)) -> bool {
    &&& r.0 == Effect::Save
    &&& item.id < 0 ==> spec_next_id(old.items@.dom(), r.1)
    &&& item.id >= 0 ==> r.1 == item.id
    &&& items_model(new.items@) == items_model(old.items@).insert(
        r.1,
        ItemModel {
            id: r.1,
            item_prices: Some(spec_saved_prices(prices_view(old.item_edit_state.prices))),
            ..item@
        },
    )
    &&& new.items@.dom() == old.items@.dom().insert(r.1)
    &&& new.selected_item_id == Some(r.1)
    &&& item.id < 0 ==> new.draft_item_id is None && new.draft_item@ == crate::items::spec_default_item()
    &&& item.id >= 0 ==> new.draft_item == old.draft_item && new.draft_item_id == old.draft_item_id
    &&& new.screen == Screen::Items(Mode::View)
    &&& spec_same_tables(new, old)
    &&& spec_same_edits(new, old)
    &&& spec_untouched_except(old, new, Part::Items)
    &&& new.deletion_info == old.deletion_info
    &&& new.show_modal == old.show_modal
}

/// The state `create_new_item` leaves.
pub open spec fn spec_after_create_new_item(old: &MenuBuilder, new: &MenuBuilder, item: Item, new_id: EntityId) -> bool {
    &&& spec_next_id(old.items@.dom(), new_id)
    &&& items_model(new.items@) == items_model(old.items@).insert(new_id, ItemModel { id: new_id, ..item@ })
    &&& new.items@.dom() == old.items@.dom().insert(new_id)
    &&& new.draft_item@ == (ItemModel { id: new_id, ..item@ })
    &&& new.draft_item_id == Some(new_id)
    &&& new.selected_item_id == Some(new_id)
    &&& new.screen == Screen::Items(Mode::Edit)
    &&& spec_same_tables(new, old)
    &&& spec_same_edits(new, old)
    &&& spec_untouched_except(old, new, Part::Items)
    &&& new.deletion_info == old.deletion_info
    &&& new.show_modal == old.show_modal
}

/// The state `copy_item` leaves.
pub open spec fn spec_after_copy_item(old: &MenuBuilder, new: &MenuBuilder, id: EntityId, new_id: EntityId) -> bool {
    &&& spec_next_id(old.items@.dom(), new_id)
    &&& items_model(new.items@) == items_model(old.items@).insert(
        new_id,
        ItemModel {
            id: new_id,
            name: crate::catalog::spec_copy_name(old.items@[id].name@, new_id),
            ..old.items@[id]@
        },
    )
    &&& new.items@.dom() == old.items@.dom().insert(new_id)
    &&& new.draft_item@ == items_model(new.items@)[new_id]
    &&& new.draft_item_id == Some(new_id)
    &&& new.selected_item_id == Some(new_id)
    &&& new.screen == Screen::Items(Mode::Edit)
    &&& spec_same_tables(new, old)
    &&& spec_same_edits(new, old)
    &&& spec_untouched_except(old, new, Part::Items)
    &&& new.deletion_info == old.deletion_info
    &&& new.show_modal == old.show_modal
}

/// The state `cancel_item_edit` leaves.
pub open spec fn spec_after_cancel_item_edit(old: &MenuBuilder, new: &MenuBuilder) -> bool {
    &&& old.draft_item_id is Some ==> new.draft_item_id is None
        && new.draft_item@ == crate::items::spec_default_item()
    &&& old.draft_item_id is None ==> new.draft_item == old.draft_item
        && new.draft_item_id is None
    &&& new.screen == Screen::Items(Mode::View)
    &&& new.items == old.items
    &&& spec_same_tables(new, old)
    &&& spec_same_edits(new, old)
    &&& spec_untouched_except(old, new, Part::Items)
    &&& new.deletion_info == old.deletion_info
    &&& new.show_modal == old.show_modal
}

/// The state `select_item` leaves.
pub open spec fn spec_after_select_item(old: &MenuBuilder, new: &MenuBuilder, id: EntityId) -> bool {
    &&& new.selected_item_id == Some(id)
    &&& new.screen == Screen::Items(Mode::View)
    &&& new.items == old.items
    &&& spec_same_tables(new, old)
    &&& spec_same_edits(new, old)
    &&& spec_untouched_except(old, new, Part::Items)
    &&& new.deletion_info == old.deletion_info
    &&& new.show_modal == old.show_modal
}

/// The state `update_price` leaves.
pub open spec fn spec_after_update_price(old: &MenuBuilder, new: &MenuBuilder, price_level_id: EntityId, price: Seq<char>) -> bool {
    &&& prices_view(new.item_edit_state.prices) == spec_set_price(
        prices_view(old.item_edit_state.prices),
        price_level_id,
        price,
    )
    &&& new.item_edit_state@ == (EditStateModel { prices: new.item_edit_state@.prices, ..old.item_edit_state@ })
    &&& new.items == old.items
    &&& spec_same_tables(new, old)
    &&& spec_same_edits(new, old)
    &&& spec_untouched_except(old, new, Part::Items)
    &&& new.deletion_info == old.deletion_info
    &&& new.show_modal == old.show_modal
}

/// The state `start_edit_item` leaves.
pub open spec fn spec_after_start_edit_item(old: &MenuBuilder, new: &MenuBuilder, id: EntityId) -> bool {
    &&& new.draft_item_id == Some(id)
    &&& new.draft_item@ == old.items@[id]@
    &&& new.item_edit_state@ == spec_new_edit_state(old.items@[id]@)
    &&& new.screen == Screen::Items(Mode::Edit)
    &&& new.items == old.items
    &&& spec_same_tables(new, old)
    &&& spec_same_edits(new, old)
    &&& spec_untouched_except(old, new, Part::Items)
    &&& new.deletion_info == old.deletion_info
    &&& new.show_modal == old.show_modal
}

/// The prices under edit after one is set: the first pair for the level
/// takes the text, else the pair is added at the end.
fn set_edit_price(prices: Option<Vec<(EntityId, String)>>, price_level_id: EntityId, price: String) -> (r: Option<Vec<(EntityId, String)>>)
    ensures
        prices_view(r) == spec_set_price(prices_view(prices), price_level_id, price@),
{
    let ghost pv = price@;
    match prices {
        None => {
            let mut v: Vec<(EntityId, String)> = Vec::new();
            v.push((price_level_id, price));
            proof {
                assert(prices_view(Some(v))->0 =~= seq![(price_level_id, pv)]);
            }
            return Some(v);
        },
        Some(mut v) => {
            let ghost sv = v@.map_values(|q: (EntityId, String)| (q.0, q.1@));
            let mut i: usize = 0;
            while i < v.len() && v[i].0 != price_level_id
                invariant
                    i <= v@.len(),
                    sv == v@.map_values(|q: (EntityId, String)| (q.0, q.1@)),
                    forall|j: int| 0 <= j < i ==> (#[trigger] sv[j]).0 != price_level_id,
                decreases v.len() - i,
            {
                i += 1;
            }
            if i < v.len() {
                let ghost before = v@;
                v.set(i, (price_level_id, price));
                proof {
                    assert(sv[i as int].0 == price_level_id);
                    let k = choose|k: int| 0 <= k < sv.len() && sv[k].0 == price_level_id && forall|j: int| 0 <= j < k ==> (#[trigger] sv[j]).0 != price_level_id;
                    assert(k == i) by {
                        if k < i {
                            assert(sv[k].0 != price_level_id);
                        }
                        if k > i {
                            assert(sv[i as int].0 != price_level_id);
                        }
                    }
                    assert(v@.map_values(|q: (EntityId, String)| (q.0, q.1@)) =~= sv.update(i as int, (price_level_id, pv)));
                }
            } else {
                v.push((price_level_id, price));
                proof {
                    assert(v@.map_values(|q: (EntityId, String)| (q.0, q.1@)) =~= sv.push((price_level_id, pv)));
                }
            }
            return Some(v);
        },
    }
}

impl MenuBuilder {
    /// An empty catalogue with the given settings, showing the item list.
    pub fn new(settings: AppSettings) -> (r: Self)
        ensures
            r.items@ == Map::<EntityId, Item>::empty(),
            r.item_groups@ == Map::<EntityId, ItemGroup>::empty(),
            r.price_levels@ == Map::<EntityId, PriceLevel>::empty(),
            r.product_classes@ == Map::<EntityId, ProductClass>::empty(),
            r.tax_groups@ == Map::<EntityId, TaxGroup>::empty(),
            r.security_levels@ == Map::<EntityId, SecurityLevel>::empty(),
            r.revenue_categories@ == Map::<EntityId, RevenueCategory>::empty(),
            r.report_categories@ == Map::<EntityId, ReportCategory>::empty(),
            r.choice_groups@ == Map::<EntityId, ChoiceGroup>::empty(),
            r.printer_logicals@ == Map::<EntityId, PrinterLogical>::empty(),
            r.item_group_edit_state_vec@.len() == 0,
            r.price_level_edit_state_vec@.len() == 0,
            r.product_class_edit_state_vec@.len() == 0,
            r.tax_group_edit_state_vec@.len() == 0,
            r.security_level_edit_state_vec@.len() == 0,
            r.revenue_category_edit_state_vec@.len() == 0,
            r.report_category_edit_state_vec@.len() == 0,
            r.choice_group_edit_state_vec@.len() == 0,
            r.printer_logical_edit_state_vec@.len() == 0,
            r.screen == Screen::Items(Mode::View),
            r.settings == settings,
            !r.show_modal,
            !r.show_item_import_confirmation,
            r.error_message is None,
            r.draft_item@ == crate::items::spec_default_item(),
            r.draft_item_id is None,
            r.selected_item_id is None,
            r.item_edit_state@ == spec_blank_edit_state(),
            r.item_search@ == Seq::<char>::empty(),
            r.import_item_path@ == Seq::<char>::empty(),
            r.deletion_info.entity_type@ == Seq::<char>::empty(),
            r.deletion_info.entity_id == 1,
            r.deletion_info.affected_items@.len() == 0,
    {
        MenuBuilder {
            screen: Screen::Items(Mode::View),
            settings: settings,
            deletion_info: DeletionInfo::new(),
            show_modal: false,
            show_item_import_confirmation: false,
            error_message: None,
            items: BTreeMap::new(),
            draft_item: Item::default(),
            draft_item_id: None,
            selected_item_id: None,
            item_edit_state: ItemEditState::default(),
            item_search: String::new(),
            import_item_path: String::new(),
            item_groups: BTreeMap::new(),
            item_group_edit_state_vec: Vec::new(),
            price_levels: BTreeMap::new(),
            price_level_edit_state_vec: Vec::new(),
            product_classes: BTreeMap::new(),
            product_class_edit_state_vec: Vec::new(),
            tax_groups: BTreeMap::new(),
            tax_group_edit_state_vec: Vec::new(),
            security_levels: BTreeMap::new(),
            security_level_edit_state_vec: Vec::new(),
            revenue_categories: BTreeMap::new(),
            revenue_category_edit_state_vec: Vec::new(),
            report_categories: BTreeMap::new(),
            report_category_edit_state_vec: Vec::new(),
            choice_groups: BTreeMap::new(),
            choice_group_edit_state_vec: Vec::new(),
            printer_logicals: BTreeMap::new(),
            printer_logical_edit_state_vec: Vec::new(),
        }
    }

    /// Asks to delete an entity: records what is to be deleted and shows the
    /// confirmation.
    pub fn request_delete(&mut self, entity_type: &str, id: EntityId)
        ensures
            final(self).deletion_info.entity_type@ == entity_type@,
            final(self).deletion_info.entity_id == id,
            final(self).deletion_info.affected_items@.len() == 0,
            final(self).show_modal,
            final(self).items == old(self).items,
            spec_same_tables(&*final(self), &*old(self)),
            spec_same_edits(&*final(self), &*old(self)),
            final(self).screen == old(self).screen,
    {
        self.deletion_info = DeletionInfo {
            entity_type: text(entity_type),
            entity_id: id,
            affected_items: Vec::new(),
        };
        self.show_modal = true;
    }

    /// Drops the pending deletion and hides the confirmation.
    pub fn cancel_delete(&mut self)
        ensures
            final(self).deletion_info.entity_type@ == Seq::<char>::empty(),
            final(self).deletion_info.entity_id == 1,
            !final(self).show_modal,
            final(self).items == old(self).items,
            spec_same_tables(&*final(self), &*old(self)),
            spec_same_edits(&*final(self), &*old(self)),
            final(self).screen == old(self).screen,
    {
        self.deletion_info = DeletionInfo::new();
        self.show_modal = false;
    }

    /// Carries out a confirmed deletion: the entity leaves its table, every
    /// item stops naming it (a list that becomes empty is dropped), the
    /// screen shows the entity's list, and the confirmation closes. An item
    /// is simply removed; an unknown type name deletes nothing.
    #[verifier::rlimit(60)]
    pub fn confirm_delete(&mut self, info: &DeletionInfo) -> (r: Effect)
        ensures
            r == Effect::Save,
            ({
                let kind = spec_deleted_kind(info.entity_type@);
                let x = info.entity_id;
                &&& items_model(final(self).items@) == if kind == DeletedKind::Item {
                    items_model(old(self).items@.remove(x))
                } else {
                    items_model(old(self).items@).map_values(|it: ItemModel| spec_clean_item(it, kind, x))
                }
                &&& final(self).items@.dom() == if kind == DeletedKind::Item {
                    old(self).items@.dom().remove(x)
                } else {
                    old(self).items@.dom()
                }
                &&& forall|k: EntityId| #[trigger] final(self).items@.contains_key(k) ==> !spec_item_names(final(self).items@[k]@, kind, x)
                &&& final(self).choice_groups@ == spec_after_delete(old(self).choice_groups@, kind == DeletedKind::ChoiceGroup, x)
                &&& final(self).item_groups@ == spec_after_delete(old(self).item_groups@, kind == DeletedKind::ItemGroup, x)
                &&& final(self).price_levels@ == spec_after_delete(old(self).price_levels@, kind == DeletedKind::PriceLevel, x)
                &&& final(self).printer_logicals@ == spec_after_delete(old(self).printer_logicals@, kind == DeletedKind::PrinterLogical, x)
                &&& final(self).product_classes@ == spec_after_delete(old(self).product_classes@, kind == DeletedKind::ProductClass, x)
                &&& final(self).report_categories@ == spec_after_delete(old(self).report_categories@, kind == DeletedKind::ReportCategory, x)
                &&& final(self).revenue_categories@ == spec_after_delete(old(self).revenue_categories@, kind == DeletedKind::RevenueCategory, x)
                &&& final(self).security_levels@ == spec_after_delete(old(self).security_levels@, kind == DeletedKind::SecurityLevel, x)
                &&& final(self).tax_groups@ == spec_after_delete(old(self).tax_groups@, kind == DeletedKind::TaxGroup, x)
                &&& final(self).screen == spec_screen_after_delete(kind, old(self).screen)
            }),
            final(self).deletion_info.entity_type@ == Seq::<char>::empty(),
            final(self).deletion_info.entity_id == 1,
            final(self).deletion_info.affected_items@.len() == 0,
            !final(self).show_modal,
            final(self).settings == old(self).settings,
            final(self).error_message == old(self).error_message,
            final(self).show_item_import_confirmation == old(self).show_item_import_confirmation,
            final(self).import_item_path == old(self).import_item_path,
            spec_same_edits(&*final(self), &*old(self)),
            spec_same_item_view(&*final(self), &*old(self)),
    {
        let kind = deleted_kind(info.entity_type.as_str());
        let x = info.entity_id;
        match kind {
            DeletedKind::ChoiceGroup => {
                clean_items(&mut self.items, kind, x);
                self.choice_groups.remove(&x);
                self.screen = Screen::ChoiceGroups;
            },
            DeletedKind::ItemGroup => {
                clean_items(&mut self.items, kind, x);
                self.item_groups.remove(&x);
                self.screen = Screen::ItemGroups;
            },
            DeletedKind::Item => {
                if self.items.contains_key(&x) {
                    self.items.remove(&x);
                }
                proof {
                    assert(self.items@ =~= old(self).items@.remove(x));
                }
            },
            DeletedKind::PriceLevel => {
                clean_items(&mut self.items, kind, x);
                self.price_levels.remove(&x);
                self.screen = Screen::PriceLevels;
            },
            DeletedKind::PrinterLogical => {
                clean_items(&mut self.items, kind, x);
                self.printer_logicals.remove(&x);
                self.screen = Screen::PrinterLogicals;
            },
            DeletedKind::ProductClass => {
                clean_items(&mut self.items, kind, x);
                self.product_classes.remove(&x);
                self.screen = Screen::ProductClasses;
            },
            DeletedKind::ReportCategory => {
                clean_items(&mut self.items, kind, x);
                self.report_categories.remove(&x);
                self.screen = Screen::ReportCategories;
            },
            DeletedKind::RevenueCategory => {
                clean_items(&mut self.items, kind, x);
                self.revenue_categories.remove(&x);
                self.screen = Screen::RevenueCategories;
            },
            DeletedKind::SecurityLevel => {
                clean_items(&mut self.items, kind, x);
                self.security_levels.remove(&x);
                self.screen = Screen::SecurityLevels;
            },
            DeletedKind::TaxGroup => {
                clean_items(&mut self.items, kind, x);
                self.tax_groups.remove(&x);
                self.screen = Screen::TaxGroups;
            },
            DeletedKind::Unknown => {
                proof {
                    assert(items_model(self.items@) =~= items_model(old(self).items@).map_values(
                        |it: ItemModel| spec_clean_item(it, kind, x),
                    ));
                }
            },
        }
        proof {
            assert forall|k: EntityId| #[trigger] self.items@.contains_key(k) implies !spec_item_names(self.items@[k]@, kind, x) by {
                if kind != DeletedKind::Item && kind != DeletedKind::Unknown {
                    assert(items_model(self.items@)[k] == self.items@[k]@);
                    lemma_clean_item_drops_reference(old(self).items@[k]@, kind, x);
                }
            }
        }
        self.deletion_info = DeletionInfo::new();
        self.show_modal = false;
        Effect::Save
    }

    /// Saves an item: it takes the prices under edit (texts that are not
    /// decimals count as `0.00`); an item without an id (negative) gets the
    /// next free id, clears the draft and becomes selected; otherwise it
    /// replaces the item with its id. The list is shown.
    #[verifier::rlimit(100)]
    #[verifier::spinoff_prover]
    pub fn save_item(&mut self, item: Item) -> (r: (Effect, EntityId))
        requires
            crate::catalog::spec_ids_below_max(old(self).items@),
        ensures
            spec_after_save_item(&*old(self), &*final(self), item, r),
    {
        let mut item = item;
        let prices = saved_prices(&self.item_edit_state.prices);
        item.item_prices = Some(prices);
        let id = if item.id < 0 {
            let next = crate::entity_component::get_next_id(&self.items);
            item.id = next;
            let ghost iv = item@;
            self.items.insert(next, item);
            proof {
                assert(items_model(self.items@) =~= items_model(old(self).items@).insert(next, iv));
            }
            self.draft_item_id = None;
            self.draft_item = Item::default();
            next
        } else {
            let id = item.id;
            let ghost iv = item@;
            self.items.insert(id, item);
            proof {
                assert(items_model(self.items@) =~= items_model(old(self).items@).insert(id, iv));
            }
            id
        };
        self.selected_item_id = Some(id);
        self.screen = Screen::Items(Mode::View);
        (Effect::Save, id)
    }

    /// Adds an item under the next free id, drafts and selects it, and opens
    /// it for editing.
    pub fn create_new_item(&mut self, item: Item) -> (new_id: EntityId)
        requires
            crate::catalog::spec_ids_below_max(old(self).items@),
        ensures
            spec_after_create_new_item(&*old(self), &*final(self), item, new_id),
    {
        let mut item = item;
        let next = crate::entity_component::get_next_id(&self.items);
        item.id = next;
        let ghost iv = item@;
        self.items.insert(next, item.copy());
        proof {
            assert(items_model(self.items@) =~= items_model(old(self).items@).insert(next, iv));
        }
        self.draft_item = item;
        self.draft_item_id = Some(next);
        self.selected_item_id = Some(next);
        self.screen = Screen::Items(Mode::Edit);
        next
    }

    /// Copies item `id` under the next free id, its name followed by the new
    /// id in brackets; the copy is drafted, selected and opened for editing.
    pub fn copy_item(&mut self, id: EntityId) -> (new_id: EntityId)
        requires
            old(self).items@.contains_key(id),
            crate::catalog::spec_ids_below_max(old(self).items@),
        ensures
            spec_after_copy_item(&*old(self), &*final(self), id, new_id),
    {
        let next = crate::entity_component::get_next_id(&self.items);
        let source = self.items.get(&id).unwrap();
        let mut copy = source.copy();
        let mut name = text(source.name.as_str());
        crate::text::push_str(&mut name, "(");
        let n = crate::text::int_string(next);
        crate::text::push_str(&mut name, n.as_str());
        crate::text::push_str(&mut name, ")");
        copy.id = next;
        copy.name = name;
        let ghost cv = copy@;
        self.items.insert(next, copy.copy());
        proof {
            assert(items_model(self.items@) =~= items_model(old(self).items@).insert(next, cv));
        }
        self.draft_item = copy;
        self.draft_item_id = Some(next);
        self.selected_item_id = Some(next);
        self.screen = Screen::Items(Mode::Edit);
        next
    }

    /// Leaves item editing: a draft is dropped, and the list is shown.
    pub fn cancel_item_edit(&mut self)
        ensures
            spec_after_cancel_item_edit(&*old(self), &*final(self)),
    {
        if self.draft_item_id.is_some() {
            self.draft_item_id = None;
            self.draft_item = Item::default();
        }
        self.screen = Screen::Items(Mode::View);
    }

    /// Selects item `id` and shows the list.
    pub fn select_item(&mut self, id: EntityId)
        requires
            old(self).items@.contains_key(id),
        ensures
            spec_after_select_item(&*old(self), &*final(self), id),
    {
        self.selected_item_id = Some(id);
        self.screen = Screen::Items(Mode::View);
    }

    /// Sets a price under edit: the first pair for the level takes the text,
    /// else the pair is added at the end.
    pub fn update_price(&mut self, price_level_id: EntityId, price: String)
        ensures
            spec_after_update_price(&*old(self), &*final(self), price_level_id, price@),
    {
        let old_prices = self.item_edit_state.prices.take();
        self.item_edit_state.prices = set_edit_price(old_prices, price_level_id, price);
    }

    /// Starts editing item `id`: it becomes the draft, its prices are put
    /// under edit as texts, and the item opens for editing.
    pub fn start_edit_item(&mut self, id: EntityId)
        requires
            old(self).items@.contains_key(id),
            crate::superedit::spec_item_amounts_wf(old(self).items@[id]@),
        ensures
            spec_after_start_edit_item(&*old(self), &*final(self), id),
    {
        let item = self.items.get(&id).unwrap();
        let state = ItemEditState::new(item);
        self.draft_item = item.copy();
        self.draft_item_id = Some(id);
        self.item_edit_state = state;
        self.screen = Screen::Items(Mode::Edit);
    }

    /// Replaces the catalogue by the imported items: everything but the
    /// settings starts over as in a new menu builder, the items come in, and
    /// a default record is created for every entity they name and for
    /// nothing else; the import confirmation closes.
    #[verifier::rlimit(50)]
    pub fn import_items_overwrite_existing(&mut self, imported: Option<BTreeMap<EntityId, Item>>)
        ensures
            final(self).items@ == match imported {
                Some(m) => m@,
                None => Map::empty(),
            },
            final(self).settings == old(self).settings,
            spec_filled(Map::empty(), final(self).price_levels@, spec_refs(final(self).items@, ItemReference::PriceLevels), "Price Level "@),
            spec_filled(Map::empty(), final(self).product_classes@, spec_refs(final(self).items@, ItemReference::ProductClass), "Product Class "@),
            spec_filled(Map::empty(), final(self).revenue_categories@, spec_refs(final(self).items@, ItemReference::RevenueCategory), "Revenue Category "@),
            spec_filled(Map::empty(), final(self).tax_groups@, spec_refs(final(self).items@, ItemReference::TaxGroup), "Tax Group "@),
            spec_filled(Map::empty(), final(self).security_levels@, spec_refs(final(self).items@, ItemReference::SecurityLevel), "Security Level "@),
            spec_filled(Map::empty(), final(self).report_categories@, spec_refs(final(self).items@, ItemReference::ReportCategory), "Report Category "@),
            spec_filled(Map::empty(), final(self).item_groups@, spec_refs(final(self).items@, ItemReference::ItemGroup), "Item Group "@),
            spec_filled(Map::empty(), final(self).choice_groups@, spec_refs(final(self).items@, ItemReference::ChoiceGroups), "Item Group "@),
            spec_filled(Map::empty(), final(self).printer_logicals@, spec_refs(final(self).items@, ItemReference::PrinterLogicals), "Printer Logical "@),
            spec_refs_resolve(final(self).items@, ItemReference::PriceLevels, final(self).price_levels@),
            spec_refs_resolve(final(self).items@, ItemReference::ProductClass, final(self).product_classes@),
            spec_refs_resolve(final(self).items@, ItemReference::RevenueCategory, final(self).revenue_categories@),
            spec_refs_resolve(final(self).items@, ItemReference::TaxGroup, final(self).tax_groups@),
            spec_refs_resolve(final(self).items@, ItemReference::SecurityLevel, final(self).security_levels@),
            spec_refs_resolve(final(self).items@, ItemReference::ReportCategory, final(self).report_categories@),
            spec_refs_resolve(final(self).items@, ItemReference::ItemGroup, final(self).item_groups@),
            spec_refs_resolve(final(self).items@, ItemReference::ChoiceGroups, final(self).choice_groups@),
            spec_refs_resolve(final(self).items@, ItemReference::PrinterLogicals, final(self).printer_logicals@),
            final(self).item_group_edit_state_vec@.len() == 0,
            final(self).price_level_edit_state_vec@.len() == 0,
            final(self).product_class_edit_state_vec@.len() == 0,
            final(self).tax_group_edit_state_vec@.len() == 0,
            final(self).security_level_edit_state_vec@.len() == 0,
            final(self).revenue_category_edit_state_vec@.len() == 0,
            final(self).report_category_edit_state_vec@.len() == 0,
            final(self).choice_group_edit_state_vec@.len() == 0,
            final(self).printer_logical_edit_state_vec@.len() == 0,
            !final(self).show_modal,
            !final(self).show_item_import_confirmation,
            final(self).error_message is None,
            final(self).draft_item@ == crate::items::spec_default_item(),
            final(self).draft_item_id is None,
            final(self).selected_item_id is None,
            final(self).item_edit_state@ == spec_blank_edit_state(),
            final(self).item_search@ == Seq::<char>::empty(),
            final(self).import_item_path@ == Seq::<char>::empty(),
            final(self).deletion_info.entity_type@ == Seq::<char>::empty(),
            final(self).deletion_info.entity_id == 1,
            final(self).deletion_info.affected_items@.len() == 0,
            final(self).screen == Screen::Items(Mode::View),
    {
        let mut fresh = MenuBuilder::new(AppSettings::with_file_path(String::new()));
        std::mem::swap(&mut fresh.settings, &mut self.settings);
        match imported {
            Some(m) => fresh.items = m,
            None => {},
        }
        ensure_all_referenced_entities_exist(
            &fresh.items,
            &mut fresh.price_levels,
            &mut fresh.product_classes,
            &mut fresh.revenue_categories,
            &mut fresh.tax_groups,
            &mut fresh.security_levels,
            &mut fresh.report_categories,
            &mut fresh.item_groups,
            &mut fresh.choice_groups,
            &mut fresh.printer_logicals,
        );
        fresh.show_item_import_confirmation = false;
        *self = fresh;
    }
}

} // verus!
