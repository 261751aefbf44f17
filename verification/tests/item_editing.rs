use menu_builder::data_types::{ErrorKind, ItemPrice};
use menu_builder::item_edit::{EditState, Message as EditMessage};
use menu_builder::item_groups::ItemGroup;
use menu_builder::items::{matches_search, update, Item, Message, Operation, ViewContext, ViewMessage};
use menu_builder::money::{amount_text, Amount};
use menu_builder::tax_groups::TaxGroup;
use std::collections::BTreeMap;

fn burger() -> Item {
    let mut it = Item::new();
    it.id = 5;
    it.name = "Burger".to_string();
    it.button1 = "Burger".to_string();
    it.default_price = Some(Amount::new(899, 2));
    it.item_prices = Some(vec![ItemPrice { price_level_id: 2, price: Amount::new(5, 0) }]);
    it.price_levels = Some(vec![2]);
    it.kds_cooktime = 12;
    it
}

fn edit(it: &mut Item, st: &mut EditState, m: EditMessage) -> Option<Operation> {
    update(it, Message::Edit(m), st)
}

#[test]
fn the_form_opens_on_the_item() {
    let st = EditState::new(&burger());
    assert_eq!(st.name, "Burger");
    assert_eq!(st.id, "5");
    assert_eq!(st.kds_cooktime, "12");
    assert_eq!(st.cost_amount, "");
    assert_eq!(st.weight_amount, "0");
    assert_eq!(st.prices, Some(vec![(2, "5".to_string())]));
    assert_eq!(st.price_levels, vec![2]);
    assert!(st.validation_error.is_none());
}

#[test]
fn the_form_is_checked() {
    let group = ItemGroup { id: 1, name: "Food".to_string(), id_range: 1..100 };
    let mut st = EditState::new(&burger());
    assert!(st.validate(Some(&group)).is_ok());
    st.button1 = "A button text that is long".to_string();
    let e = st.validate(None).unwrap_err();
    assert_eq!(e.kind(), ErrorKind::InvalidValue);
    assert_eq!(e.message(), "Button 1 text exceeds 15 characters");
    st.button1 = "Ok".to_string();
    st.id = "500".to_string();
    assert_eq!(st.validate(Some(&group)).unwrap_err().message(), "ID must be within group range (1-100)");
    st.id = "x".to_string();
    assert_eq!(st.validate(Some(&group)).unwrap_err().message(), "Invalid ID format");
    assert!(st.validate(None).is_ok());
    st.covers = "many".to_string();
    assert_eq!(st.validate(None).unwrap_err().message(), "Invalid Covers format");
    st.name = " ".to_string();
    assert_eq!(st.validate(None).unwrap_err().kind(), ErrorKind::EmptyName);
}

#[test]
fn edits_change_the_item_or_report_why_not() {
    let mut it = burger();
    let mut st = EditState::new(&it);
    assert!(edit(&mut it, &mut st, EditMessage::UpdateButton1("Too long for a button".to_string())).is_none());
    assert_eq!(it.button1, "Burger");
    assert_eq!(st.validation_error.as_deref(), Some("Button 1 text cannot exceed 15 characters"));
    edit(&mut it, &mut st, EditMessage::UpdateButton1("Big".to_string()));
    assert_eq!(it.button1, "Big");
    assert!(st.validation_error.is_none());
    edit(&mut it, &mut st, EditMessage::UpdateKdsCooktime("soon".to_string()));
    assert_eq!(it.kds_cooktime, 12);
    assert_eq!(st.validation_error.as_deref(), Some("Invalid cook time format"));
    edit(&mut it, &mut st, EditMessage::UpdateKdsCooktime("15".to_string()));
    assert_eq!(it.kds_cooktime, 15);
    edit(&mut it, &mut st, EditMessage::UpdateCostAmount("".to_string()));
    assert!(it.cost_amount.is_none());
    edit(&mut it, &mut st, EditMessage::UpdateCostAmount("2.5".to_string()));
    assert_eq!(amount_text(it.cost_amount.unwrap()), "2.5");
    edit(&mut it, &mut st, EditMessage::UpdateSku("".to_string()));
    assert!(it.sku.is_none());
    edit(&mut it, &mut st, EditMessage::ToggleUseWeight(false));
    assert_eq!(amount_text(it.weight_amount), "0");
}

#[test]
fn list_edits() {
    let mut it = burger();
    let mut st = EditState::new(&it);
    edit(&mut it, &mut st, EditMessage::AddChoiceGroup(4));
    edit(&mut it, &mut st, EditMessage::AddChoiceGroup(7));
    edit(&mut it, &mut st, EditMessage::AddChoiceGroup(4));
    assert_eq!(it.choice_groups, Some(vec![(4, 0), (7, 1)]));
    edit(&mut it, &mut st, EditMessage::RemoveChoiceGroup(4));
    assert_eq!(it.choice_groups, Some(vec![(7, 1)]));
    edit(&mut it, &mut st, EditMessage::AddPrinterLogical(3));
    edit(&mut it, &mut st, EditMessage::AddPrinterLogical(8));
    assert_eq!(it.printer_logicals, Some(vec![(3, true), (8, false)]));
    edit(&mut it, &mut st, EditMessage::PriceLevelSelected(3));
    assert_eq!(it.price_levels, Some(vec![2, 3]));
    assert_eq!(it.item_prices.as_ref().unwrap().len(), 2);
    edit(&mut it, &mut st, EditMessage::RemovePriceLevel(2));
    assert_eq!(it.price_levels, Some(vec![3]));
    assert_eq!(it.item_prices.as_ref().unwrap()[0].price_level_id, 3);
    edit(&mut it, &mut st, EditMessage::RemovePriceLevel(3));
    assert!(it.price_levels.is_none());
    assert!(it.item_prices.is_none());
}

#[test]
fn price_edits_ask_the_menu_builder() {
    let mut it = burger();
    let mut st = EditState::new(&it);
    match edit(&mut it, &mut st, EditMessage::UpdatePrice(2, "6.50".to_string())) {
        Some(Operation::UpdatePrice(5, 2, p)) => assert_eq!(p, "6.50"),
        other => panic!("unexpected {:?}", other),
    }
    assert_eq!(amount_text(it.item_prices.as_ref().unwrap()[0].price), "6.50");
    match edit(&mut it, &mut st, EditMessage::Save) {
        Some(Operation::Save(saved)) => assert_eq!(saved.name, "Burger"),
        other => panic!("unexpected {:?}", other),
    }
    assert!(matches!(update(&mut it, Message::View(ViewMessage::Edit), &mut st), Some(Operation::StartEdit)));
    assert!(update(&mut it, Message::View(ViewMessage::ExportToCsv), &mut st).is_none());
    match update(&mut it, Message::CreateNew, &mut st) {
        Some(Operation::CreateNew(fresh)) => assert_eq!(fresh.id, Item::new().id),
        other => panic!("unexpected {:?}", other),
    }
}

#[test]
fn search_matches_names_of_the_item_and_its_references() {
    let mut tax_groups = BTreeMap::new();
    tax_groups.insert(1, TaxGroup { id: 1, name: "Liquor".to_string(), rate: Amount::new(10, 2) });
    let ctx = ViewContext {
        available_items: BTreeMap::new(),
        available_item_groups: BTreeMap::new(),
        available_tax_groups: tax_groups,
        available_security_levels: BTreeMap::new(),
        available_revenue_categories: BTreeMap::new(),
        available_report_categories: BTreeMap::new(),
        available_product_classes: BTreeMap::new(),
        available_choice_groups: BTreeMap::new(),
        available_printer_logicals: BTreeMap::new(),
        available_price_levels: BTreeMap::new(),
    };
    let mut it = burger();
    it.tax_group = Some(1);
    assert!(matches_search(&it, "  ", &ctx));
    assert!(matches_search(&it, "BURG", &ctx));
    assert!(matches_search(&it, "liq", &ctx));
    assert!(!matches_search(&it, "pizza", &ctx));
}
