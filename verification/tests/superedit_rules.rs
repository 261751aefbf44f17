use menu_builder::data_types::ItemPrice;
use menu_builder::item_groups::ItemGroup;
use menu_builder::items::{Item, ViewContext};
use menu_builder::money::{amount_text, Amount};
use menu_builder::superedit::{
    apply_actions, evaluate_condition, evaluate_id_field, evaluate_price_field, evaluate_string_field, ActionOperation,
    ConditionLogic,
    FilterAction, FilterCategory, FilterCondition, FilterOperator, SuperEdit,
};
use menu_builder::tax_groups::TaxGroup;
use std::collections::BTreeMap;

fn context() -> ViewContext {
    let mut item_groups = BTreeMap::new();
    item_groups.insert(1, ItemGroup { id: 1, name: "Food".to_string(), id_range: 1..100 });
    item_groups.insert(2, ItemGroup { id: 2, name: "Drinks".to_string(), id_range: 101..200 });
    let mut tax_groups = BTreeMap::new();
    tax_groups.insert(1, TaxGroup { id: 1, name: "Sales".to_string(), rate: Amount::new(8, 2) });
    ViewContext {
        available_items: BTreeMap::new(),
        available_item_groups: item_groups,
        available_tax_groups: tax_groups,
        available_security_levels: BTreeMap::new(),
        available_revenue_categories: BTreeMap::new(),
        available_report_categories: BTreeMap::new(),
        available_product_classes: BTreeMap::new(),
        available_choice_groups: BTreeMap::new(),
        available_printer_logicals: BTreeMap::new(),
        available_price_levels: BTreeMap::new(),
    }
}

fn burger() -> Item {
    let mut it = Item::new();
    it.id = 5;
    it.name = "Cheese Burger".to_string();
    it.item_group = Some(1);
    it.tax_group = Some(1);
    it.default_price = Some(Amount::new(899, 2));
    it.item_prices = Some(vec![ItemPrice { price_level_id: 2, price: Amount::new(999, 2) }]);
    it
}

fn condition(field: FilterCategory, operator: FilterOperator, value: &str) -> FilterCondition {
    FilterCondition { logic: ConditionLogic::And, field, operator, value: value.to_string(), entity_id: None }
}

#[test]
fn string_conditions_ignore_case() {
    assert!(evaluate_string_field("Cheese Burger", FilterOperator::Contains, "BURGER"));
    assert!(evaluate_string_field("Cheese Burger", FilterOperator::BeginsWith, "chee"));
    assert!(evaluate_string_field("Cheese Burger", FilterOperator::EndsWith, "ger"));
    assert!(!evaluate_string_field("Cheese Burger", FilterOperator::IsEmpty, ""));
    assert!(evaluate_string_field("", FilterOperator::IsEmpty, ""));
}

#[test]
fn id_conditions_compare_numbers() {
    assert!(!evaluate_id_field(5, FilterOperator::Equals, "5"));
    assert!(evaluate_id_field(5, FilterOperator::GreaterThan, "4"));
    assert!(!evaluate_id_field(5, FilterOperator::LessThan, "5"));
    assert!(evaluate_id_field(5, FilterOperator::Between, "1-9"));
    assert!(!evaluate_id_field(5, FilterOperator::Equals, "five"));
}

#[test]
fn entity_conditions_use_names_or_ids() {
    let ctx = context();
    let it = burger();
    assert!(evaluate_condition(&condition(FilterCategory::ItemGroup, FilterOperator::Equals, "food"), &it, &ctx));
    assert!(!evaluate_condition(&condition(FilterCategory::ItemGroup, FilterOperator::Equals, "drinks"), &it, &ctx));
    let mut by_id = condition(FilterCategory::ItemGroup, FilterOperator::Equals, "");
    by_id.entity_id = Some(1);
    assert!(evaluate_condition(&by_id, &it, &ctx));
    assert!(evaluate_condition(&condition(FilterCategory::Price, FilterOperator::GreaterThan, "9.50"), &it, &ctx));
    assert!(!evaluate_condition(&condition(FilterCategory::Price, FilterOperator::GreaterThan, "10"), &it, &ctx));
}

#[test]
fn price_actions_change_the_chosen_level() {
    let it = burger();
    let add = FilterAction {
        category: FilterCategory::Price,
        operation: ActionOperation::AddToPrice,
        value: "1.00".to_string(),
        entity_id: None,
        swap_from_id: None,
        price_level: None,
    };
    let out = apply_actions(&it, &vec![add]).unwrap();
    assert_eq!(amount_text(out.default_price.unwrap()), "9.99");
    let set = FilterAction {
        category: FilterCategory::Price,
        operation: ActionOperation::SetPrice,
        value: "5".to_string(),
        entity_id: None,
        swap_from_id: None,
        price_level: Some(2),
    };
    let out = apply_actions(&it, &vec![set]).unwrap();
    assert_eq!(amount_text(out.item_prices.unwrap()[0].price), "5");
    assert_eq!(amount_text(out.default_price.unwrap()), "8.99");
}

#[test]
fn swap_actions_move_references() {
    let it = burger();
    let swap = FilterAction {
        category: FilterCategory::ItemGroup,
        operation: ActionOperation::SwapTo,
        value: String::new(),
        entity_id: Some(2),
        swap_from_id: Some(1),
        price_level: None,
    };
    let out = apply_actions(&it, &vec![swap]).unwrap();
    assert_eq!(out.item_group, Some(2));
    assert_eq!(out.name, it.name);
}

#[test]
fn operators_offered_by_field() {
    let ops = FilterOperator::available_for_field(&FilterCategory::Name);
    assert_eq!(ops[0], FilterOperator::Contains);
    assert_eq!(ops.len(), 5);
    let acts = ActionOperation::available_for_category(&FilterCategory::Price);
    assert!(acts.contains(&ActionOperation::AddToPrice));
    assert_eq!(FilterOperator::GreaterOrEqual.to_display_string(), "greater or equal");
}

#[test]
fn preview_and_accept_change_the_selected_items() {
    let ctx = context();
    let mut items = BTreeMap::new();
    items.insert(5, burger());
    let mut cola = Item::new();
    cola.id = 101;
    cola.name = "Cola".to_string();
    cola.item_group = Some(2);
    items.insert(101, cola);

    let mut se = SuperEdit::new();
    se.conditions[0] = condition(FilterCategory::ItemGroup, FilterOperator::Equals, "Food");
    se.actions[0] = FilterAction {
        category: FilterCategory::ItemGroup,
        operation: ActionOperation::SwapTo,
        value: String::new(),
        entity_id: Some(2),
        swap_from_id: Some(1),
        price_level: None,
    };
    assert!(se.preview_changes(&items, &ctx));
    assert!(se.show_preview);
    assert_eq!(se.changed_item_ids, vec![5]);
    se.accept_changes(&mut items);
    assert_eq!(items[&5].item_group, Some(2));
    assert_eq!(items[&101].item_group, Some(2));
}

fn list_action(category: FilterCategory, operation: ActionOperation, id: i32) -> FilterAction {
    FilterAction {
        category,
        operation,
        value: String::new(),
        entity_id: Some(id),
        swap_from_id: None,
        price_level: None,
    }
}

#[test]
fn is_empty_on_prices_needs_no_price_at_all() {
    let mut it = Item::new();
    it.default_price = Some(Amount::new(500, 2));
    assert!(!evaluate_price_field(&it, FilterOperator::IsEmpty, ""));
    assert!(!evaluate_price_field(&burger(), FilterOperator::IsEmpty, ""));
    let mut bare = Item::new();
    bare.default_price = None;
    bare.item_prices = None;
    assert!(evaluate_price_field(&bare, FilterOperator::IsEmpty, ""));
    bare.item_prices = Some(vec![]);
    assert!(evaluate_price_field(&bare, FilterOperator::IsEmpty, "7"));
    bare.item_prices = Some(vec![ItemPrice { price_level_id: 2, price: Amount::new(1, 0) }]);
    assert!(!evaluate_price_field(&bare, FilterOperator::IsEmpty, ""));
}

#[test]
fn list_actions_add_and_remove_entries() {
    let mut it = burger();
    it.choice_groups = Some(vec![(4, 0), (7, 1), (4, 2)]);
    it.printer_logicals = Some(vec![(1, true), (20, false)]);
    it.price_levels = Some(vec![2, 3]);

    let out = apply_actions(&it, &vec![list_action(FilterCategory::ChoiceGroup, ActionOperation::Remove, 4)]).unwrap();
    assert_eq!(out.choice_groups, Some(vec![(7, 1)]));
    assert_eq!(out.printer_logicals, it.printer_logicals);
    assert_eq!(out.name, it.name);

    let out = apply_actions(&it, &vec![list_action(FilterCategory::ChoiceGroup, ActionOperation::Add, 9)]).unwrap();
    assert_eq!(out.choice_groups, Some(vec![(4, 0), (7, 1), (4, 2), (9, 3)]));
    let out = apply_actions(&it, &vec![list_action(FilterCategory::ChoiceGroup, ActionOperation::Add, 7)]).unwrap();
    assert_eq!(out.choice_groups, it.choice_groups);

    let out = apply_actions(&it, &vec![list_action(FilterCategory::PrinterLogical, ActionOperation::Remove, 1)]).unwrap();
    assert_eq!(out.printer_logicals, Some(vec![(20, false)]));
    let out = apply_actions(&it, &vec![list_action(FilterCategory::PrinterLogical, ActionOperation::Add, 5)]).unwrap();
    assert_eq!(out.printer_logicals, Some(vec![(1, true), (20, false), (5, false)]));

    let out = apply_actions(&it, &vec![list_action(FilterCategory::PriceLevel, ActionOperation::Remove, 2)]).unwrap();
    assert_eq!(out.price_levels, Some(vec![3]));
    assert!(out.item_prices.is_none());
    let out = apply_actions(&it, &vec![list_action(FilterCategory::PriceLevel, ActionOperation::Add, 8)]).unwrap();
    assert_eq!(out.price_levels, Some(vec![2, 3, 8]));
}

#[test]
fn preview_lists_changed_items_in_increasing_order() {
    let ctx = context();
    let mut items = BTreeMap::new();
    for id in [30, 4, 17] {
        let mut it = burger();
        it.id = id;
        items.insert(id, it);
    }
    let mut se = SuperEdit::new();
    se.conditions[0] = condition(FilterCategory::ItemGroup, FilterOperator::Equals, "Food");
    se.actions[0] = FilterAction {
        category: FilterCategory::ItemGroup,
        operation: ActionOperation::SwapTo,
        value: String::new(),
        entity_id: Some(2),
        swap_from_id: Some(1),
        price_level: None,
    };
    assert!(se.preview_changes(&items, &ctx));
    assert_eq!(se.changed_item_ids, vec![4, 17, 30]);
}

#[test]
fn the_editor_keeps_one_condition_and_one_action() {
    let mut se = SuperEdit::new();
    se.remove_condition(0);
    se.remove_action(0);
    assert_eq!(se.conditions.len(), 1);
    assert_eq!(se.actions.len(), 1);
    se.add_condition();
    se.remove_condition(0);
    se.remove_condition(0);
    assert_eq!(se.conditions.len(), 1);
}
