//! Menu builder core: the data model of a point-of-sale menu database
//! (items and the entities they reference), its validation rules, the
//! item import/export text formats, the mass-edit rule engine and the
//! catalogue state transitions, all verified with Verus.

pub mod text;
pub mod money;
pub mod data_types;
pub mod entity_component;
pub mod choice_groups;
pub mod printer_logicals;
pub mod product_classes;
pub mod report_categories;
pub mod security_levels;
pub mod revenue_categories;
pub mod price_levels;
pub mod tax_groups;
pub mod item_groups;
pub mod items;
pub mod import_items;
pub mod export_items;
pub mod catalog;
pub mod settings;
pub mod menu_builder;
pub mod superedit;
pub mod preview_changes;
pub mod item_edit;
pub mod operations;
