use menu_builder::item_edit::Message as EditMessage;
use menu_builder::items::{Item, Message as ItemMessage, Mode, Operation as ItemOperation};
use menu_builder::menu_builder::{Effect, MenuBuilder, Screen};
use menu_builder::operations::{Operation, TableOperation};
use menu_builder::product_classes::ProductClass;
use menu_builder::settings::{AppSettings, SettingsOperation, ThemeChoice};
use menu_builder::tax_groups::TaxGroup;
use menu_builder::money::{amount_text, Amount};
use menu_builder::data_types::ItemPrice;
use menu_builder::price_levels::{PriceLevel, PriceLevelType};
use std::collections::BTreeMap;

fn builder() -> MenuBuilder {
    MenuBuilder::new(AppSettings::with_file_path("/tmp/menu.ron".to_string()))
}

#[test]
fn a_new_builder_is_empty() {
    let mb = builder();
    assert!(mb.items.is_empty());
    assert!(matches!(mb.screen, Screen::Items(Mode::View)));
    assert!(!mb.show_modal);
    assert_eq!(mb.settings.file_path, "/tmp/menu.ron");
    assert!(mb.settings.auto_save);
}

#[test]
fn product_class_lifecycle() {
    let mut mb = builder();
    assert_eq!(mb.perform(Operation::ProductClasses(TableOperation::CreateNew)), Effect::Nothing);
    assert_eq!(mb.product_classes[&1].name, "");
    assert_eq!(mb.product_class_edit_state_vec.len(), 1);
    mb.perform(Operation::ProductClasses(TableOperation::UpdateName(1, "Food".to_string())));
    assert!(matches!(mb.screen, Screen::ProductClasses));
    assert_eq!(mb.perform(Operation::ProductClasses(TableOperation::SaveAll(1))), Effect::Save);
    assert_eq!(mb.product_classes[&1].name, "Food");
    assert!(mb.product_class_edit_state_vec.is_empty());
    mb.perform(Operation::ProductClasses(TableOperation::Copy(1)));
    assert_eq!(mb.product_classes[&2].name, "Food(2)");
    mb.perform(Operation::ProductClasses(TableOperation::RequestDelete(2)));
    assert!(mb.show_modal);
    assert_eq!(mb.deletion_info.entity_type, "ProductClass");
    assert_eq!(mb.deletion_info.entity_id, 2);
}

#[test]
fn cancelling_a_new_record_removes_it() {
    let mut mb = builder();
    mb.perform(Operation::ProductClasses(TableOperation::CreateNew));
    mb.perform(Operation::ProductClasses(TableOperation::CancelEdit(1)));
    assert!(mb.product_classes.is_empty());
    assert!(mb.product_class_edit_state_vec.is_empty());
}

#[test]
fn tax_group_rate_is_saved() {
    let mut mb = builder();
    mb.perform(Operation::TaxGroups(TableOperation::CreateNew));
    assert_eq!(mb.tax_group_edit_state_vec[0].rate, "0");
    mb.perform(Operation::TaxGroups(TableOperation::UpdateName(1, "Sales".to_string())));
    mb.perform(Operation::TaxGroups(TableOperation::UpdateTaxRate(1, "8.25".to_string())));
    mb.perform(Operation::TaxGroups(TableOperation::SaveAll(1)));
    let g: &TaxGroup = &mb.tax_groups[&1];
    assert_eq!(g.name, "Sales");
    assert_eq!(amount_text(g.rate), "0.0825");
}

#[test]
fn editing_a_tax_group_keeps_its_rate() {
    let mut mb = builder();
    mb.tax_groups.insert(4, TaxGroup { id: 4, name: "Sales".to_string(), rate: Amount::new(8, 2) });
    mb.perform(Operation::TaxGroups(TableOperation::Edit(4)));
    assert_eq!(mb.tax_group_edit_state_vec[0].rate, "8.00");
    mb.perform(Operation::TaxGroups(TableOperation::SaveAll(4)));
    let g: &TaxGroup = &mb.tax_groups[&4];
    assert_eq!(g.name, "Sales");
    assert_eq!(amount_text(g.rate), "0.0800");
    assert!(mb.tax_group_edit_state_vec.is_empty());
}

#[test]
fn a_rate_with_many_places_opens_for_editing() {
    let mut mb = builder();
    let rate = Amount { mantissa: 9999999999999999999999999999, scale: 28 };
    mb.tax_groups.insert(6, TaxGroup { id: 6, name: "Almost All".to_string(), rate });
    mb.perform(Operation::TaxGroups(TableOperation::Edit(6)));
    assert_eq!(mb.tax_group_edit_state_vec.len(), 1);
    assert_eq!(mb.tax_group_edit_state_vec[0].rate, "99.99999999999999999999999999");
}

#[test]
fn deleting_a_class_clears_it_from_items() {
    let mut mb = builder();
    mb.product_classes.insert(3, ProductClass { id: 3, name: "Food".to_string() });
    let mut it = Item::new();
    it.id = 10;
    it.name = "Fries".to_string();
    it.product_class = Some(3);
    mb.items.insert(10, it);
    mb.perform(Operation::ProductClasses(TableOperation::RequestDelete(3)));
    let info = mb.deletion_info.clone();
    assert_eq!(mb.confirm_delete(&info), Effect::Save);
    assert!(mb.product_classes.is_empty());
    assert_eq!(mb.items[&10].product_class, None);
    assert!(!mb.show_modal);
    assert!(matches!(mb.screen, Screen::ProductClasses));
}

#[test]
fn item_operations() {
    let mut mb = builder();
    let mut it = Item::new();
    it.name = "Soup".to_string();
    assert_eq!(mb.perform(Operation::Items(-1, ItemOperation::CreateNew(it))), Effect::Nothing);
    assert_eq!(mb.items[&1].name, "Soup");
    assert_eq!(mb.draft_item_id, Some(1));
    assert!(matches!(mb.screen, Screen::Items(Mode::Edit)));
    mb.perform(Operation::Items(1, ItemOperation::UpdatePrice(1, 2, "4.50".to_string())));
    let mut saved = mb.items[&1].clone();
    saved.name = "Tomato Soup".to_string();
    assert_eq!(mb.perform(Operation::Items(1, ItemOperation::Save(saved))), Effect::Save);
    assert_eq!(mb.items[&1].name, "Tomato Soup");
    let prices = mb.items[&1].item_prices.clone().unwrap();
    assert_eq!(prices.len(), 1);
    assert_eq!(prices[0].price_level_id, 2);
    assert_eq!(amount_text(prices[0].price), "4.50");
    mb.perform(Operation::Items(1, ItemOperation::CopyItem(1)));
    assert_eq!(mb.items[&2].name, "Tomato Soup(2)");
    mb.perform(Operation::Items(1, ItemOperation::UpdateSearchQuery("soup".to_string())));
    assert_eq!(mb.item_search, "soup");
    assert_eq!(mb.perform(Operation::Items(1, ItemOperation::LaunchMassItemEditWindow)), Effect::OpenMassEdit);
}

#[test]
fn settings_operations() {
    let mut mb = builder();
    let mut s = AppSettings::with_file_path("/data/menu.ron".to_string());
    s.auto_save = false;
    assert_eq!(mb.perform(Operation::Settings(SettingsOperation::Save(s))), Effect::Save);
    assert_eq!(mb.settings.file_path, "/data/menu.ron");
    assert!(matches!(&mb.screen, Screen::Settings(shown) if shown.file_path == "/data/menu.ron"));
    assert_eq!(
        mb.perform(Operation::Settings(SettingsOperation::ThemeChanged(ThemeChoice::Light))),
        Effect::SetTheme(ThemeChoice::Light)
    );
    mb.perform(Operation::Settings(SettingsOperation::ShowError("disk full".to_string())));
    assert_eq!(mb.error_message.as_deref(), Some("disk full"));
    mb.perform(Operation::Settings(SettingsOperation::Back));
    assert!(mb.error_message.is_none());
    assert!(matches!(mb.screen, Screen::Items(Mode::View)));
}

#[test]
fn importing_items_replaces_them_and_adds_references() {
    let mut mb = builder();
    let mut imported = BTreeMap::new();
    let mut it = Item::new();
    it.id = 7;
    it.name = "Tea".to_string();
    it.tax_group = Some(2);
    it.default_price = Some(Amount::new(150, 2));
    imported.insert(7, it);
    mb.tax_groups.insert(9, TaxGroup { id: 9, name: "Old".to_string(), rate: Amount::new(5, 2) });
    mb.product_classes.insert(3, ProductClass { id: 3, name: "Old".to_string() });
    mb.perform(Operation::ProductClasses(TableOperation::Edit(3)));
    mb.import_items_overwrite_existing(Some(imported));
    assert_eq!(mb.items.len(), 1);
    assert!(mb.tax_groups.contains_key(&2));
    assert_eq!(mb.tax_groups[&2].name, "Tax Group 2");
    assert_eq!(mb.tax_groups.len(), 1);
    assert!(mb.product_classes.is_empty());
    assert!(mb.product_class_edit_state_vec.is_empty());
    assert!(!mb.show_item_import_confirmation);
}

#[test]
fn deleting_a_price_level_drops_its_prices() {
    let mut mb = builder();
    mb.price_levels.insert(2, PriceLevel { id: 2, name: "Happy Hour".to_string(), price: Amount::new(0, 2), level_type: PriceLevelType::Enterprise });
    let mut it = Item::new();
    it.id = 10;
    it.name = "Beer".to_string();
    it.price_levels = Some(vec![1, 2]);
    it.item_prices = Some(vec![
        ItemPrice { price_level_id: 1, price: Amount::new(500, 2) },
        ItemPrice { price_level_id: 2, price: Amount::new(300, 2) },
    ]);
    mb.items.insert(10, it);
    let mut only = Item::new();
    only.id = 11;
    only.name = "Wine".to_string();
    only.item_prices = Some(vec![ItemPrice { price_level_id: 2, price: Amount::new(600, 2) }]);
    mb.items.insert(11, only);
    mb.perform(Operation::PriceLevels(TableOperation::RequestDelete(2)));
    let info = mb.deletion_info.clone();
    assert_eq!(mb.confirm_delete(&info), Effect::Save);
    assert!(mb.price_levels.is_empty());
    assert_eq!(mb.items[&10].price_levels, Some(vec![1]));
    let prices = mb.items[&10].item_prices.clone().unwrap();
    assert_eq!(prices.len(), 1);
    assert_eq!(prices[0].price_level_id, 1);
    assert!(mb.items[&11].item_prices.is_none());
}

#[test]
fn item_messages_go_to_the_item_they_name() {
    let mut mb = builder();
    let mut stored = Item::new();
    stored.id = 3;
    stored.name = "Salad".to_string();
    mb.items.insert(3, stored);
    mb.handle_item_message(3, ItemMessage::Edit(EditMessage::UpdateName("Green Salad".to_string())));
    assert_eq!(mb.items[&3].name, "Green Salad");
    mb.handle_item_message(-1, ItemMessage::Edit(EditMessage::UpdateName("Draft".to_string())));
    assert_eq!(mb.draft_item.name, "Draft");
    assert_eq!(mb.items[&3].name, "Green Salad");
    mb.handle_item_message(3, ItemMessage::Edit(EditMessage::UpdateButton1("Far too long a label".to_string())));
    assert_eq!(mb.item_edit_state.validation_error.as_deref(), Some("Button 1 text cannot exceed 15 characters"));
    mb.handle_item_message(3, ItemMessage::View(menu_builder::items::ViewMessage::Edit));
    assert_eq!(mb.draft_item_id, Some(3));
    assert_eq!(mb.item_edit_state.name, "Green Salad");
    assert!(matches!(mb.screen, Screen::Items(Mode::Edit)));
    mb.handle_item_message(3, ItemMessage::Edit(EditMessage::UpdateName("Caesar".to_string())));
    assert_eq!(mb.draft_item.name, "Caesar");
    assert_eq!(mb.items[&3].name, "Green Salad");
    mb.handle_item_message(3, ItemMessage::Edit(EditMessage::Save));
    assert_eq!(mb.items[&3].name, "Caesar");
}

#[test]
fn dropped_files_open_the_import_confirmation() {
    let mut mb = builder();
    mb.file_dropped("notes.json".to_string(), Some("a,b"));
    assert!(!mb.show_item_import_confirmation);
    mb.file_dropped("items.csv".to_string(), Some("a,b"));
    assert!(!mb.show_item_import_confirmation);
    assert_eq!(mb.import_item_path, "items.csv");
    let line = menu_builder::export_items::item_to_export_string(&{
        let mut it = Item::new();
        it.id = 9;
        it.name = "Tea".to_string();
        it
    });
    mb.file_dropped("items.csv".to_string(), Some(&line));
    assert!(mb.show_item_import_confirmation);
    mb.cancel_item_import();
    assert!(!mb.show_item_import_confirmation);
}
