use menu_builder::data_types::ItemPrice;
use menu_builder::export_items::{
    item_to_export_string, prepare_choice_groups, prepare_item_cost, prepare_item_export, prepare_item_prices,
    prepare_kitchen_printers,
};
use menu_builder::import_items::{
    collect_item_information, ensure_all_referenced_entities_exist, is_csv_or_txt, mask_braced_commas,
    parse_choice_groups, parse_item_prices, parse_printer_logicals, unmask_braced_commas, verify_csv_format,
    ImportError,
};
use menu_builder::items::Item;
use menu_builder::money::Amount;
use menu_builder::price_levels::PriceLevel;
use menu_builder::tax_groups::TaxGroup;
use std::collections::BTreeMap;

fn nuts() -> Item {
    let mut it = Item::new();
    it.id = 7400002;
    it.name = "Spiced Nuts".to_string();
    it.button1 = "Spiced".to_string();
    it.button2 = Some("Nuts".to_string());
    it.printer_text = "Spiced Nuts".to_string();
    it.default_price = Some(Amount::new(800, 2));
    it.item_prices = Some(vec![ItemPrice { price_level_id: 2, price: Amount::new(900, 2) }]);
    it.product_class = Some(103);
    it.revenue_category = Some(1);
    it.tax_group = Some(1);
    it.item_group = Some(125);
    it.print_on_check = true;
    it.discountable = true;
    it.voidable = true;
    it.allow_price_override = true;
    it.customer_receipt = "Spiced Nuts".to_string();
    it.kitchen_video = "Spiced Nuts".to_string();
    it.choice_groups = Some(vec![(4, 0), (7, 1)]);
    it.printer_logicals = Some(vec![(1, true), (20, false)]);
    it
}

#[test]
fn braced_commas_are_masked_and_restored() {
    let masked = mask_braced_commas("a,{1,2},b");
    assert_eq!(masked, "a,{1\u{241F}2},b");
    assert_eq!(unmask_braced_commas(&masked), "a,1,2,b");
}

#[test]
fn file_names_are_checked_by_extension() {
    assert!(is_csv_or_txt("/tmp/items.csv"));
    assert!(is_csv_or_txt("items.txt"));
    assert!(!is_csv_or_txt("items.json"));
    assert!(!is_csv_or_txt("items"));
}

#[test]
fn field_writers() {
    assert_eq!(prepare_item_cost(None), "$0.00");
    assert_eq!(prepare_item_cost(Some(Amount::new(125, 2))), "$1.25");
    assert_eq!(prepare_choice_groups(&None), "{}");
    assert_eq!(prepare_choice_groups(&Some(vec![(4, 0), (7, 1)])), "{4,0,7,1}");
    assert_eq!(prepare_kitchen_printers(&Some(vec![(1, true), (20, false)])), "{1,1,20,0}");
    assert_eq!(prepare_item_prices(Some(Amount::new(800, 2)), &None), "\"\"");
    assert_eq!(
        prepare_item_prices(Some(Amount::new(800, 2)), &Some(vec![ItemPrice { price_level_id: 2, price: Amount::new(900, 2) }])),
        "{1,$8.00,3,$9.00}"
    );
}

#[test]
fn field_readers() {
    let cg = parse_choice_groups("4\u{241F}0\u{241F}7\u{241F}1").unwrap();
    assert_eq!(cg, vec![(4, 0), (7, 1)]);
    let pl = parse_printer_logicals("1\u{241F}1\u{241F}20\u{241F}0").unwrap();
    assert_eq!(pl, vec![(1, true), (20, false)]);
    let ps = parse_item_prices("1\u{241F}$5.99\u{241F}2\u{241F}$6.99").unwrap();
    assert_eq!(ps.len(), 2);
    assert_eq!(ps[0].price_level_id, 1);
    assert_eq!(ps[0].price.mantissa, 599);
    assert_eq!(ps[1].price_level_id, 2);
}

#[test]
fn an_exported_item_reads_back() {
    let line = item_to_export_string(&nuts());
    assert!(line.starts_with("\"A\",7400002,\"Spiced Nuts\",\"Spiced\",\"Nuts\",\"Spiced Nuts\",{1,$8.00,3,$9.00},103,1,1,0,0,0,0,"));
    assert!(verify_csv_format(&line).is_ok());
    let items = collect_item_information(&line).unwrap();
    assert_eq!(items.len(), 1);
    let it = &items[&7400002];
    assert_eq!(it.name, "Spiced Nuts");
    assert_eq!(it.button2.as_deref(), Some("Nuts"));
    assert_eq!(it.product_class, Some(103));
    assert_eq!(it.item_group, Some(125));
    assert_eq!(it.choice_groups, Some(vec![(4, 0), (7, 1)]));
    assert_eq!(it.printer_logicals, Some(vec![(1, true), (20, false)]));
    assert!(it.print_on_check && it.discountable && it.voidable && it.allow_price_override);
}

#[test]
fn export_file_has_one_line_per_item() {
    let mut second = nuts();
    second.id = 7400003;
    let text = prepare_item_export(&[nuts(), second]);
    assert_eq!(text.lines().count(), 2);
    let items = collect_item_information(&text).unwrap();
    assert_eq!(items.len(), 2);
}

#[test]
fn import_errors() {
    match verify_csv_format("a,b,c") {
        Err(ImportError::UnexpectedFieldCount(3)) => {}
        other => panic!("unexpected {:?}", other),
    }
    match collect_item_information("a,b,c") {
        Err(ImportError::MissingFields(1, 3)) => {}
        other => panic!("unexpected {:?}", other),
    }
    let e = ImportError::MissingFields(1, 3);
    assert_eq!(e.to_display_string(), "record 1: found 3 fields, expected 42");
    assert_eq!(ImportError::NoValidItems.to_display_string(), "No valid items found in the file.");
}

#[test]
fn referenced_entities_are_created() {
    let mut items = BTreeMap::new();
    items.insert(7400002, nuts());
    let mut price_levels: BTreeMap<i32, PriceLevel> = BTreeMap::new();
    let mut product_classes = BTreeMap::new();
    let mut revenue_categories = BTreeMap::new();
    let mut tax_groups: BTreeMap<i32, TaxGroup> = BTreeMap::new();
    let mut security_levels = BTreeMap::new();
    let mut report_categories = BTreeMap::new();
    let mut item_groups = BTreeMap::new();
    let mut choice_groups = BTreeMap::new();
    let mut printer_logicals = BTreeMap::new();
    ensure_all_referenced_entities_exist(
        &items,
        &mut price_levels,
        &mut product_classes,
        &mut revenue_categories,
        &mut tax_groups,
        &mut security_levels,
        &mut report_categories,
        &mut item_groups,
        &mut choice_groups,
        &mut printer_logicals,
    );
    assert!(product_classes.contains_key(&103));
    assert!(item_groups.contains_key(&125));
    assert!(tax_groups.contains_key(&1));
    assert!(choice_groups.contains_key(&4) && choice_groups.contains_key(&7));
    assert!(printer_logicals.contains_key(&20));
    assert!(security_levels.is_empty());
    items.clear();
}

#[test]
fn security_levels_come_from_the_items_security_level() {
    let mut items = BTreeMap::new();
    let mut it = nuts();
    it.tax_group = None;
    it.security_level = Some(5);
    items.insert(7400002, it);
    let mut price_levels: BTreeMap<i32, PriceLevel> = BTreeMap::new();
    let mut product_classes = BTreeMap::new();
    let mut revenue_categories = BTreeMap::new();
    let mut tax_groups: BTreeMap<i32, TaxGroup> = BTreeMap::new();
    let mut security_levels = BTreeMap::new();
    let mut report_categories = BTreeMap::new();
    let mut item_groups = BTreeMap::new();
    let mut choice_groups = BTreeMap::new();
    let mut printer_logicals = BTreeMap::new();
    ensure_all_referenced_entities_exist(
        &items,
        &mut price_levels,
        &mut product_classes,
        &mut revenue_categories,
        &mut tax_groups,
        &mut security_levels,
        &mut report_categories,
        &mut item_groups,
        &mut choice_groups,
        &mut printer_logicals,
    );
    assert!(security_levels.contains_key(&5));
    assert_eq!(security_levels.len(), 1);
    assert!(tax_groups.is_empty());
}

#[test]
fn written_lists_read_back() {
    let groups = vec![(4, 0), (-7, 12)];
    let text = mask_braced_commas(&prepare_choice_groups(&Some(groups.clone())));
    assert_eq!(parse_choice_groups(&text), Some(groups));
    assert_eq!(parse_choice_groups(&mask_braced_commas(&prepare_choice_groups(&None))), None);
    assert_eq!(parse_choice_groups(&mask_braced_commas(&prepare_choice_groups(&Some(vec![])))), None);
    let printers = vec![(1, true), (20, false), (3, true)];
    let text = mask_braced_commas(&prepare_kitchen_printers(&Some(printers.clone())));
    assert_eq!(parse_printer_logicals(&text), Some(printers));
}
