use menu_builder::choice_groups::ChoiceGroup;
use menu_builder::data_types::ItemPrice;
use menu_builder::item_groups::ItemGroup;
use menu_builder::items::{Item, ViewContext};
use menu_builder::money::Amount;
use menu_builder::preview_changes::{
    get_choice_groups_string_with_names, get_prices_string_with_names, get_printer_logicals_string_with_names,
    list_diff, parse_list_string, preview_row, CellChange, CellValue, ColumnType, Row,
};
use menu_builder::price_levels::{PriceLevel, PriceLevelType};
use menu_builder::printer_logicals::PrinterLogical;
use std::collections::BTreeMap;

fn levels() -> BTreeMap<i32, PriceLevel> {
    let mut m = BTreeMap::new();
    m.insert(1, PriceLevel { id: 1, name: "Regular".to_string(), price: Amount::new(0, 0), level_type: PriceLevelType::Enterprise });
    m.insert(2, PriceLevel { id: 2, name: "Happy Hour".to_string(), price: Amount::new(0, 0), level_type: PriceLevelType::Store });
    m
}

fn context() -> ViewContext {
    let mut item_groups = BTreeMap::new();
    item_groups.insert(1, ItemGroup { id: 1, name: "Food".to_string(), id_range: 1..100 });
    let mut choice_groups = BTreeMap::new();
    choice_groups.insert(4, ChoiceGroup { id: 4, name: "Sides".to_string() });
    let mut printers = BTreeMap::new();
    printers.insert(1, PrinterLogical { id: 1, name: "Kitchen".to_string() });
    printers.insert(2, PrinterLogical { id: 2, name: "Bar".to_string() });
    ViewContext {
        available_items: BTreeMap::new(),
        available_item_groups: item_groups,
        available_tax_groups: BTreeMap::new(),
        available_security_levels: BTreeMap::new(),
        available_revenue_categories: BTreeMap::new(),
        available_report_categories: BTreeMap::new(),
        available_product_classes: BTreeMap::new(),
        available_choice_groups: choice_groups,
        available_printer_logicals: printers,
        available_price_levels: levels(),
    }
}

fn burger() -> Item {
    let mut it = Item::new();
    it.id = 5;
    it.name = "Burger".to_string();
    it.item_group = Some(1);
    it.default_price = Some(Amount::new(899, 2));
    it.item_prices = Some(vec![ItemPrice { price_level_id: 2, price: Amount::new(5, 0) }]);
    it.choice_groups = Some(vec![(4, 0), (9, 1)]);
    it.printer_logicals = Some(vec![(1, true), (2, false)]);
    it
}

#[test]
fn cell_values() {
    let c = CellValue::unchanged("a".to_string());
    assert_eq!(c.change_type, CellChange::Unchanged);
    assert_eq!(c.display(), "a");
    let m = CellValue::modified("a".to_string(), "b".to_string());
    assert_eq!(m.change_type, CellChange::Modified);
    assert_eq!(m.display(), "b");
    assert_eq!(m.original, "a");
}

#[test]
fn names_of_listed_entities() {
    let ctx = context();
    let it = burger();
    assert_eq!(get_choice_groups_string_with_names(it.choice_groups.as_ref(), &ctx.available_choice_groups), "[Sides]");
    assert_eq!(
        get_printer_logicals_string_with_names(it.printer_logicals.as_ref(), &ctx.available_printer_logicals),
        "[Kitchen, Bar]"
    );
    assert_eq!(get_choice_groups_string_with_names(None, &ctx.available_choice_groups), "[]");
    assert_eq!(get_choice_groups_string_with_names(Some(&vec![]), &ctx.available_choice_groups), "[]");
}

#[test]
fn prices_with_level_names() {
    let ps = vec![ItemPrice { price_level_id: 2, price: Amount::new(5, 0) }, ItemPrice { price_level_id: 7, price: Amount::new(125, 2) }];
    assert_eq!(
        get_prices_string_with_names(Some(Amount::new(899, 2)), Some(&ps), &levels()),
        "[Regular: $8.99, Happy Hour: $5.00, Level 7: $1.25]"
    );
    let empty: BTreeMap<i32, PriceLevel> = BTreeMap::new();
    assert_eq!(get_prices_string_with_names(None, None, &empty), "[Default: $0.00]");
}

#[test]
fn list_strings_read_back() {
    assert_eq!(parse_list_string("[Kitchen, Bar, Expo]"), vec!["Kitchen", "Bar", "Expo"]);
    assert_eq!(parse_list_string("[]"), Vec::<String>::new());
    assert_eq!(parse_list_string("plain"), vec!["plain"]);
    assert_eq!(parse_list_string("[a,b]"), vec!["a,b"]);
}

#[test]
fn list_diff_marks_kept_removed_and_added() {
    let d = list_diff("[Kitchen, Bar]", "[Bar, Expo]");
    assert_eq!(
        d,
        vec![
            ("Kitchen".to_string(), CellChange::Removed),
            ("Bar".to_string(), CellChange::Unchanged),
            ("Expo".to_string(), CellChange::Added),
        ]
    );
}

#[test]
fn rows_show_every_column() {
    let ctx = context();
    let it = burger();
    let row = Row::generate(&it, &ctx);
    assert_eq!(row.cell(ColumnType::Id).display(), "5");
    assert_eq!(row.cell(ColumnType::ItemGroup).display(), "Food");
    assert_eq!(row.cell(ColumnType::TaxGroup).display(), "None");
    assert_eq!(row.cell(ColumnType::CostAmount).display(), "0.00");
    assert_eq!(row.cell(ColumnType::AskPrice).display(), "false");
    assert_eq!(row.cell(ColumnType::PriceLevels).display(), "[Regular: $8.99, Happy Hour: $5.00]");
    assert_eq!(row.cell(ColumnType::PrinterLogicals).display(), "[Kitchen, Bar]");
    assert_eq!(ColumnType::all().len(), 36);
    assert_eq!(ColumnType::PriceLevels.display_name(), "Price Levels");
    assert!(!ColumnType::SKU.visible_by_default());
    assert!(ColumnType::Name.visible_by_default());
}

#[test]
fn diff_rows_mark_changed_cells() {
    let ctx = context();
    let before = burger();
    let mut after = burger();
    after.name = "Big Burger".to_string();
    after.id = 6;
    let row = Row::generate_with_diff(&before, &after, &ctx);
    let name = row.cell(ColumnType::Name);
    assert_eq!(name.change_type, CellChange::Modified);
    assert_eq!(name.original, "Burger");
    assert_eq!(name.display(), "Big Burger");
    assert_eq!(row.cell(ColumnType::Id).change_type, CellChange::Unchanged);
    assert_eq!(row.cell(ColumnType::Id).display(), "5");
    assert_eq!(row.cell(ColumnType::ItemGroup).change_type, CellChange::Unchanged);

    let mut modified = BTreeMap::new();
    modified.insert(5, after);
    let r = preview_row(5, &before, &modified, &ctx);
    assert_eq!(r.cell(ColumnType::Name).change_type, CellChange::Modified);
    let r = preview_row(8, &before, &modified, &ctx);
    assert_eq!(r.cell(ColumnType::Name).change_type, CellChange::Unchanged);
}
