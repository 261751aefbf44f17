//! Operations on the menu builder state: what each operation of every
//! screen does to the catalogue, the open edits, the item being drafted,
//! the settings, the screen shown and the pending deletion, and what the
//! caller must do afterwards.

use crate::catalog::{
    cancel_edit, cancel_item_group_edit, cancel_price_level_edit, cancel_tax_group_edit,
    copy_record, create_item_group, create_price_level, create_record, create_tax_group,
    save_edit, save_item_group, save_price_level, save_tax_group, spec_after_cancel_edit,
    spec_after_cancel_item_group_edit, spec_after_cancel_price_level_edit,
    spec_after_cancel_tax_group_edit, spec_after_copy_record, spec_after_create_item_group,
    spec_after_create_price_level, spec_after_create_record, spec_after_create_tax_group,
    spec_after_save_edit, spec_after_save_item_group, spec_after_save_price_level,
    spec_after_save_tax_group, spec_after_start_edit, spec_after_start_item_group_edit,
    spec_after_start_price_level_edit, spec_after_start_tax_group_edit,
    spec_after_update_item_group_name, spec_after_update_item_group_range_end,
    spec_after_update_item_group_range_start, spec_after_update_name,
    spec_after_update_price_level_name, spec_after_update_tax_group_name,
    spec_after_update_tax_rate, spec_edits_wf, spec_first_edit, spec_ids_below_max,
    spec_rate_showable, start_edit, start_item_group_edit, start_price_level_edit,
    start_tax_group_edit, update_item_group_name, update_item_group_range_end,
    update_item_group_range_start, update_name, update_price_level_name, update_tax_group_name,
    update_tax_rate,
};
use crate::choice_groups::ChoiceGroup;
use crate::data_types::{DeletionInfo, EntityId, text};
use crate::entity_component::{EditState, Entity};
use crate::superedit::spec_item_amounts_wf;
use crate::item_groups::{ItemGroup, ItemGroupEditState};
use crate::import_items::{is_csv_or_txt, spec_is_csv_or_txt, spec_verify_csv_format, verify_csv_format};
use crate::item_edit::{spec_edited_error, spec_edited_item, spec_edit_operation, spec_with_error};
use crate::item_edit::update_item;
use crate::items::{Message as ItemMessage, Mode, Operation as ItemOperation, ViewMessage, spec_item_operation, view_operation};
use crate::menu_builder::{
    Effect, MenuBuilder, Part, Screen, spec_after_cancel_item_edit, spec_after_copy_item,
    spec_after_create_new_item, spec_after_save_item, spec_after_select_item,
    spec_after_start_edit_item, spec_after_update_price, spec_untouched_except,
};
use crate::money::spec_parse;
use crate::price_levels::{PriceLevel, PriceLevelEditState};
use crate::printer_logicals::PrinterLogical;
use crate::product_classes::ProductClass;
use crate::report_categories::ReportCategory;
use crate::revenue_categories::RevenueCategory;
use crate::security_levels::SecurityLevel;
use crate::settings::{AppSettings, SettingsOperation, spec_same_settings};
use crate::tax_groups::{TaxGroup, TaxGroupEditState};
use vstd::prelude::*;

verus! {

/// An operation on a table of records (item groups, price levels, tax
/// groups and the tables of records with a name only). The rate belongs to
/// tax groups and the id range to item groups; on another table they only
/// show the table.
#[derive(Debug, Clone)]
pub enum TableOperation {
    RequestDelete(EntityId),
    Copy(EntityId),
    Edit(EntityId),
    SaveAll(EntityId),
    UpdateName(EntityId, String),
    UpdateTaxRate(EntityId, String),
    UpdateIdRangeStart(EntityId, String),
    UpdateIdRangeEnd(EntityId, String),
    CreateNew,
    CancelEdit(EntityId),
}

/// An operation of a screen of the menu builder.
#[derive(Debug, Clone)]
pub enum Operation {
    Settings(SettingsOperation),
    Items(EntityId, ItemOperation),
    ItemGroups(TableOperation),
    PriceLevels(TableOperation),
    ProductClasses(TableOperation),
    TaxGroups(TableOperation),
    SecurityLevels(TableOperation),
    RevenueCategories(TableOperation),
    ReportCategories(TableOperation),
    ChoiceGroups(TableOperation),
    PrinterLogicals(TableOperation),
}

/// A table operation on a table of records with a name only: the
/// table and its edit states after it, as the catalogue functions leave them.
pub open spec fn spec_simple_table_op<T: Entity>(
    old_map: Map<EntityId, T>,
    new_map: Map<EntityId, T>,
    old_edits: Seq<EditState>,
    new_edits: Seq<EditState>,
    op: TableOperation,
) -> bool {
    match op {
        TableOperation::Copy(id) => new_edits == old_edits && exists|n: EntityId| spec_after_copy_record(old_map, new_map, id, n),
        TableOperation::Edit(id) => new_map == old_map && spec_after_start_edit(old_map, old_edits, new_edits, id),
        TableOperation::SaveAll(id) => spec_after_save_edit(old_map, new_map, old_edits, new_edits, id),
        TableOperation::UpdateName(id, s) => new_map == old_map && spec_after_update_name(old_edits, new_edits, id, s@),
        TableOperation::CreateNew => exists|n: EntityId| spec_after_create_record(old_map, new_map, old_edits, new_edits, n),
        TableOperation::CancelEdit(id) => spec_after_cancel_edit(old_map, new_map, old_edits, new_edits, id),
        _ => new_map == old_map && new_edits == old_edits,
    }
}

/// A table operation on the tax groups: the
/// table and its edit states after it, as the catalogue functions leave them.
pub open spec fn spec_tax_table_op(
    old_map: Map<EntityId, TaxGroup>,
    new_map: Map<EntityId, TaxGroup>,
    old_edits: Seq<TaxGroupEditState>,
    new_edits: Seq<TaxGroupEditState>,
    op: TableOperation,
) -> bool {
    match op {
        TableOperation::Copy(id) => new_edits == old_edits && exists|n: EntityId| spec_after_copy_record(old_map, new_map, id, n),
        TableOperation::Edit(id) => new_map == old_map && spec_after_start_tax_group_edit(old_map, old_edits, new_edits, id),
        TableOperation::SaveAll(id) => spec_after_save_tax_group(old_map, new_map, old_edits, new_edits, id),
        TableOperation::UpdateName(id, s) => new_map == old_map && spec_after_update_tax_group_name(old_edits, new_edits, id, s@),
        TableOperation::UpdateTaxRate(id, s) => new_map == old_map && spec_after_update_tax_rate(old_edits, new_edits, id, s@),
        TableOperation::CreateNew => exists|n: EntityId| spec_after_create_tax_group(old_map, new_map, old_edits, new_edits, n),
        TableOperation::CancelEdit(id) => spec_after_cancel_tax_group_edit(old_map, new_map, old_edits, new_edits, id),
        _ => new_map == old_map && new_edits == old_edits,
    }
}

/// A table operation on the price levels: the
/// table and its edit states after it, as the catalogue functions leave them.
pub open spec fn spec_price_table_op(
    old_map: Map<EntityId, PriceLevel>,
    new_map: Map<EntityId, PriceLevel>,
    old_edits: Seq<PriceLevelEditState>,
    new_edits: Seq<PriceLevelEditState>,
    op: TableOperation,
) -> bool {
    match op {
        TableOperation::Copy(id) => new_edits == old_edits && exists|n: EntityId| spec_after_copy_record(old_map, new_map, id, n),
        TableOperation::Edit(id) => new_map == old_map && spec_after_start_price_level_edit(old_map, old_edits, new_edits, id),
        TableOperation::SaveAll(id) => spec_after_save_price_level(old_map, new_map, old_edits, new_edits, id),
        TableOperation::UpdateName(id, s) => new_map == old_map && spec_after_update_price_level_name(old_edits, new_edits, id, s@),
        TableOperation::CreateNew => exists|n: EntityId| spec_after_create_price_level(old_map, new_map, old_edits, new_edits, n),
        TableOperation::CancelEdit(id) => spec_after_cancel_price_level_edit(old_map, new_map, old_edits, new_edits, id),
        _ => new_map == old_map && new_edits == old_edits,
    }
}

/// A table operation on the item groups: the
/// table and its edit states after it, as the catalogue functions leave them.
pub open spec fn spec_group_table_op(
    old_map: Map<EntityId, ItemGroup>,
    new_map: Map<EntityId, ItemGroup>,
    old_edits: Seq<ItemGroupEditState>,
    new_edits: Seq<ItemGroupEditState>,
    op: TableOperation,
) -> bool {
    match op {
        TableOperation::Copy(id) => new_edits == old_edits && exists|n: EntityId| spec_after_copy_record(old_map, new_map, id, n),
        TableOperation::Edit(id) => new_map == old_map && spec_after_start_item_group_edit(old_map, old_edits, new_edits, id),
        TableOperation::SaveAll(id) => spec_after_save_item_group(old_map, new_map, old_edits, new_edits, id),
        TableOperation::UpdateName(id, s) => new_map == old_map && spec_after_update_item_group_name(old_edits, new_edits, id, s@),
        TableOperation::UpdateIdRangeStart(id, s) => new_map == old_map && spec_after_update_item_group_range_start(old_edits, new_edits, id, s@),
        TableOperation::UpdateIdRangeEnd(id, s) => new_map == old_map && spec_after_update_item_group_range_end(old_edits, new_edits, id, s@),
        TableOperation::CreateNew => exists|n: EntityId| spec_after_create_item_group(old_map, new_map, old_edits, new_edits, n),
        TableOperation::CancelEdit(id) => spec_after_cancel_item_group_edit(old_map, new_map, old_edits, new_edits, id),
        _ => new_map == old_map && new_edits == old_edits,
    }
}

/// What a table operation needs of the table: the record it copies or
/// closes exists, and ids leave room for one more.
pub open spec fn spec_table_op_allowed<T>(m: Map<EntityId, T>, edits_len: nat, op: TableOperation) -> bool {
    match op {
        TableOperation::Copy(id) => m.contains_key(id) && spec_ids_below_max(m),
        TableOperation::CreateNew => spec_ids_below_max(m) && edits_len < usize::MAX,
        TableOperation::Edit(_) => edits_len < usize::MAX,
        TableOperation::CancelEdit(id) => m.contains_key(id),
        _ => true,
    }
}

/// The screen and pending deletion after a table operation on the table
/// shown by `screen`, whose records are deleted under `kind`.
pub open spec fn spec_table_ui(old: &MenuBuilder, new: &MenuBuilder, op: TableOperation, screen: Screen, kind: Seq<char>) -> bool {
    match op {
        TableOperation::RequestDelete(id) => {
            &&& new.deletion_info.entity_type@ == kind
            &&& new.deletion_info.entity_id == id
            &&& new.deletion_info.affected_items@.len() == 0
            &&& new.show_modal
            &&& new.screen == old.screen
        },
        TableOperation::CreateNew => {
            &&& new.deletion_info == old.deletion_info
            &&& new.show_modal == old.show_modal
            &&& new.screen == old.screen
        },
        _ => {
            &&& new.deletion_info == old.deletion_info
            &&& new.show_modal == old.show_modal
            &&& new.screen == screen
        },
    }
}

/// The effect of a table operation: saving writes the data file.
pub open spec fn spec_table_effect(op: TableOperation) -> Effect {
    match op {
        TableOperation::SaveAll(_) => Effect::Save,
        _ => Effect::Nothing,
    }
}

/// What an operation needs of the state: the extra conditions of the
/// table operation, the record it names, and room for a new id.
pub open spec fn spec_perform_allowed(s: &MenuBuilder, op: Operation) -> bool {
    match op {
        Operation::Settings(_) => true,
        Operation::Items(id, io) => match io {
            ItemOperation::Save(_) => spec_ids_below_max(s.items@),
            ItemOperation::StartEdit => s.items@.contains_key(id) && spec_item_amounts_wf(s.items@[id]@),
            ItemOperation::CreateNew(_) => spec_ids_below_max(s.items@),
            ItemOperation::Select(x) => s.items@.contains_key(x),
            ItemOperation::CopyItem(x) => s.items@.contains_key(x) && spec_ids_below_max(s.items@),
            _ => true,
        },
        Operation::ItemGroups(top) => spec_table_op_allowed(s.item_groups@, s.item_group_edit_state_vec@.len(), top),
        Operation::PriceLevels(top) => spec_table_op_allowed(s.price_levels@, s.price_level_edit_state_vec@.len(), top) && (top matches TableOperation::Edit(id) ==> (s.price_levels@.contains_key(id) ==> s.price_levels@[id].price.wf())),
        Operation::ProductClasses(top) => spec_table_op_allowed(s.product_classes@, s.product_class_edit_state_vec@.len(), top),
        Operation::TaxGroups(top) => spec_table_op_allowed(s.tax_groups@, s.tax_group_edit_state_vec@.len(), top) && (top matches TableOperation::Edit(id) ==> (s.tax_groups@.contains_key(id) ==> spec_rate_showable(s.tax_groups@[id])))
            && (top matches TableOperation::SaveAll(id) ==> (s.tax_groups@.contains_key(id) ==> (spec_first_edit(s.tax_group_edit_state_vec@, id) matches Some(i) ==> spec_parse(s.tax_group_edit_state_vec@[i].rate@) is Some))),
        Operation::SecurityLevels(top) => spec_table_op_allowed(s.security_levels@, s.security_level_edit_state_vec@.len(), top),
        Operation::RevenueCategories(top) => spec_table_op_allowed(s.revenue_categories@, s.revenue_category_edit_state_vec@.len(), top),
        Operation::ReportCategories(top) => spec_table_op_allowed(s.report_categories@, s.report_category_edit_state_vec@.len(), top),
        Operation::ChoiceGroups(top) => spec_table_op_allowed(s.choice_groups@, s.choice_group_edit_state_vec@.len(), top),
        Operation::PrinterLogicals(top) => spec_table_op_allowed(s.printer_logicals@, s.printer_logical_edit_state_vec@.len(), top),
    }
}

/// Every list of open edit states reads back its ids.
pub open spec fn spec_edits_all_wf(s: &MenuBuilder) -> bool {
    &&& spec_edits_wf(s.item_group_edit_state_vec@)
    &&& spec_edits_wf(s.price_level_edit_state_vec@)
    &&& spec_edits_wf(s.product_class_edit_state_vec@)
    &&& spec_edits_wf(s.tax_group_edit_state_vec@)
    &&& spec_edits_wf(s.security_level_edit_state_vec@)
    &&& spec_edits_wf(s.revenue_category_edit_state_vec@)
    &&& spec_edits_wf(s.report_category_edit_state_vec@)
    &&& spec_edits_wf(s.choice_group_edit_state_vec@)
    &&& spec_edits_wf(s.printer_logical_edit_state_vec@)
}

/// The state after an operation of the items screen on item `id`.
pub open spec fn spec_item_op(old: &MenuBuilder, new: &MenuBuilder, id: EntityId, op: ItemOperation, r: Effect) -> bool {
    match op {
        ItemOperation::Save(item) => r == Effect::Save && exists|n: EntityId| spec_after_save_item(old, new, item, (Effect::Save, n)),
        ItemOperation::StartEdit => r == Effect::Nothing && spec_after_start_edit_item(old, new, id),
        ItemOperation::Cancel => r == Effect::Nothing && spec_after_cancel_item_edit(old, new),
        ItemOperation::CreateNew(item) => r == Effect::Nothing && exists|n: EntityId| spec_after_create_new_item(old, new, item, n),
        ItemOperation::Select(x) => r == Effect::Nothing && spec_after_select_item(old, new, x),
        ItemOperation::CopyItem(x) => r == Effect::Nothing && exists|n: EntityId| spec_after_copy_item(old, new, x, n),
        ItemOperation::UpdatePrice(_, level, price) => r == Effect::Nothing && spec_after_update_price(old, new, level, price@),
        _ => {
            &&& spec_untouched_except(old, new, Part::Items)
            &&& new.items == old.items
            &&& new.draft_item == old.draft_item
            &&& new.draft_item_id == old.draft_item_id
            &&& new.selected_item_id == old.selected_item_id
            &&& new.item_edit_state == old.item_edit_state
            &&& match op {
                ItemOperation::Back => {
                    &&& r == Effect::Nothing
                    &&& new.screen == Screen::Items(Mode::View)
                    &&& new.item_search == old.item_search
                    &&& new.deletion_info == old.deletion_info
                    &&& new.show_modal == old.show_modal
                },
                ItemOperation::UpdateSearchQuery(q) => {
                    &&& r == Effect::Nothing
                    &&& new.item_search@ == q@
                    &&& new.screen == old.screen
                    &&& new.deletion_info == old.deletion_info
                    &&& new.show_modal == old.show_modal
                },
                ItemOperation::RequestDelete(x) => {
                    &&& r == Effect::Nothing
                    &&& new.deletion_info.entity_type@ == "Item"@
                    &&& new.deletion_info.entity_id == x
                    &&& new.deletion_info.affected_items@.len() == 0
                    &&& new.show_modal
                    &&& new.screen == old.screen
                    &&& new.item_search == old.item_search
                },
                ItemOperation::HideModal => {
                    &&& r == Effect::Nothing
                    &&& !new.show_modal
                    &&& new.screen == old.screen
                    &&& new.item_search == old.item_search
                    &&& new.deletion_info == old.deletion_info
                },
                ItemOperation::ShowModal => {
                    &&& r == Effect::Nothing
                    &&& new.show_modal
                    &&& new.screen == old.screen
                    &&& new.item_search == old.item_search
                    &&& new.deletion_info == old.deletion_info
                },
                _ => {
                    &&& r == Effect::OpenMassEdit
                    &&& new.screen == old.screen
                    &&& new.item_search == old.item_search
                    &&& new.deletion_info == old.deletion_info
                    &&& new.show_modal == old.show_modal
                },
            }
        },
    }
}

/// A message of the items screen edits the draft when its id is negative
/// (a new item) or that of the draft, else the stored item with its id.
pub open spec fn spec_targets_draft(s: &MenuBuilder, id: EntityId) -> bool {
    id < 0 || s.draft_item_id == Some(id)
}

/// What a message of the items screen needs of the state: the item it
/// edits exists, and the operation it leads to is allowed.
pub open spec fn spec_item_message_allowed(s: &MenuBuilder, id: EntityId, msg: ItemMessage) -> bool {
    &&& spec_targets_draft(s, id) || s.items@.contains_key(id)
    &&& match msg {
        ItemMessage::Edit(m) => m is Save ==> spec_ids_below_max(s.items@),
        ItemMessage::View(v) => v == ViewMessage::Edit ==> s.items@.contains_key(id) && spec_item_amounts_wf(
            s.items@[id]@,
        ),
        ItemMessage::CreateNew => spec_ids_below_max(s.items@),
        ItemMessage::Select(x) => s.items@.contains_key(x),
        ItemMessage::CopyItem(x) => s.items@.contains_key(x) && spec_ids_below_max(s.items@),
        _ => true,
    }
}

/// The state between handling a message of the items screen and carrying
/// out the operation it leads to: an edit changes the item it targets and
/// the form's message, every other message changes nothing; `op` is the
/// operation the message leads to.
pub open spec fn spec_item_message_step(
    old: &MenuBuilder,
    mid: &MenuBuilder,
    id: EntityId,
    msg: ItemMessage,
    op: Option<ItemOperation>,
) -> bool {
    match msg {
        ItemMessage::Edit(m) => {
            let target = if spec_targets_draft(old, id) {
                old.draft_item@
            } else {
                old.items@[id]@
            };
            let edited = spec_edited_item(target, m);
            &&& if spec_targets_draft(old, id) {
                mid.draft_item@ == edited && mid.items == old.items
            } else {
                &&& mid.draft_item == old.draft_item
                &&& mid.items@.dom() == old.items@.dom()
                &&& mid.items@[id]@ == edited
                &&& forall|k: EntityId| k != id && old.items@.contains_key(k) ==> #[trigger] mid.items@[k] == old.items@[k]
            }
            &&& mid.item_edit_state@ == spec_with_error(
                old.item_edit_state@,
                spec_edited_error(old.item_edit_state@.validation_error, m),
            )
            &&& spec_edit_operation(target, m, edited, op)
            &&& mid.draft_item_id == old.draft_item_id
            &&& mid.selected_item_id == old.selected_item_id
            &&& mid.item_search == old.item_search
            &&& mid.screen == old.screen
            &&& mid.deletion_info == old.deletion_info
            &&& mid.show_modal == old.show_modal
            &&& spec_untouched_except(old, mid, Part::Items)
        },
        _ => *mid == *old && spec_item_operation(msg, op),
    }
}

/// The state after a message of the items screen: the step, then the
/// operation it leads to, if any.
pub open spec fn spec_item_message(old: &MenuBuilder, new: &MenuBuilder, id: EntityId, msg: ItemMessage, r: Effect) -> bool {
    exists|mid: MenuBuilder, op: Option<ItemOperation>|
        #[trigger] spec_item_message_step(old, &mid, id, msg, op) && match op {
            Some(o) => spec_perform(&mid, new, Operation::Items(id, o), r),
            None => *new == mid && r == Effect::Nothing,
        }
}

/// A dropped file is offered for import: it is a `.csv` or `.txt` file and
/// its text holds item records.
pub open spec fn spec_import_offered(path: Seq<char>, contents: Option<&str>) -> bool {
    match contents {
        Some(c) => spec_is_csv_or_txt(path) && spec_verify_csv_format(c@) is Ok,
        None => false,
    }
}

/// The state after an operation of the settings screen.
pub open spec fn spec_settings_op(old: &MenuBuilder, new: &MenuBuilder, op: SettingsOperation, r: Effect) -> bool {
    &&& spec_untouched_except(old, new, Part::Settings)
    &&& new.deletion_info == old.deletion_info
    &&& new.show_modal == old.show_modal
    &&& new.show_item_import_confirmation == old.show_item_import_confirmation
    &&& match op {
        SettingsOperation::Back => {
            &&& r == Effect::Nothing
            &&& new.screen == Screen::Items(Mode::View)
            &&& new.error_message is None
            &&& new.settings == old.settings
        },
        _ => {
            &&& new.screen matches Screen::Settings(shown) && spec_same_settings(shown, new.settings)
            &&& match op {
                SettingsOperation::Save(s) => r == Effect::Save && new.settings == s && new.error_message
                    == old.error_message,
                SettingsOperation::ShowError(e) => r == Effect::Nothing && new.settings == old.settings
                    && (new.error_message matches Some(m) && m@ == e@),
                SettingsOperation::ThemeChanged(t) => r == Effect::SetTheme(t) && new.settings == old.settings
                    && new.error_message == old.error_message,
                SettingsOperation::UpdateExportSuccess(b) => {
                    &&& r == Effect::Nothing
                    &&& new.error_message == old.error_message
                    &&& new.settings.export_success == b
                    &&& new.settings.file_path == old.settings.file_path
                    &&& new.settings.auto_save == old.settings.auto_save
                    &&& new.settings.create_backups == old.settings.create_backups
                    &&& new.settings.app_theme == old.settings.app_theme
                    &&& new.settings.export_message == old.settings.export_message
                },
                SettingsOperation::UpdateExportMessage(m) => {
                    &&& r == Effect::Nothing
                    &&& new.error_message == old.error_message
                    &&& new.settings.export_message@ == m@
                    &&& new.settings.file_path == old.settings.file_path
                    &&& new.settings.auto_save == old.settings.auto_save
                    &&& new.settings.create_backups == old.settings.create_backups
                    &&& new.settings.app_theme == old.settings.app_theme
                    &&& new.settings.export_success == old.settings.export_success
                },
                _ => true,
            }
        },
    }
}

/// The state after an operation.
pub open spec fn spec_perform(old: &MenuBuilder, new: &MenuBuilder, op: Operation, r: Effect) -> bool {
    match op {
        Operation::Settings(so) => spec_settings_op(old, new, so, r),
        Operation::Items(id, io) => spec_item_op(old, new, id, io, r),
        Operation::ItemGroups(top) => {
            &&& spec_group_table_op(old.item_groups@, new.item_groups@, old.item_group_edit_state_vec@, new.item_group_edit_state_vec@, top)
            &&& spec_untouched_except(old, new, Part::ItemGroups)
            &&& spec_table_ui(old, new, top, Screen::ItemGroups, "ItemGroup"@)
            &&& r == spec_table_effect(top)
        },
        Operation::PriceLevels(top) => {
            &&& spec_price_table_op(old.price_levels@, new.price_levels@, old.price_level_edit_state_vec@, new.price_level_edit_state_vec@, top)
            &&& spec_untouched_except(old, new, Part::PriceLevels)
            &&& spec_table_ui(old, new, top, Screen::PriceLevels, "PriceLevel"@)
            &&& r == spec_table_effect(top)
        },
        Operation::ProductClasses(top) => {
            &&& spec_simple_table_op(old.product_classes@, new.product_classes@, old.product_class_edit_state_vec@, new.product_class_edit_state_vec@, top)
            &&& spec_untouched_except(old, new, Part::ProductClasses)
            &&& spec_table_ui(old, new, top, Screen::ProductClasses, "ProductClass"@)
            &&& r == spec_table_effect(top)
        },
        Operation::TaxGroups(top) => {
            &&& spec_tax_table_op(old.tax_groups@, new.tax_groups@, old.tax_group_edit_state_vec@, new.tax_group_edit_state_vec@, top)
            &&& spec_untouched_except(old, new, Part::TaxGroups)
            &&& spec_table_ui(old, new, top, Screen::TaxGroups, "TaxGroup"@)
            &&& r == spec_table_effect(top)
        },
        Operation::SecurityLevels(top) => {
            &&& spec_simple_table_op(old.security_levels@, new.security_levels@, old.security_level_edit_state_vec@, new.security_level_edit_state_vec@, top)
            &&& spec_untouched_except(old, new, Part::SecurityLevels)
            &&& spec_table_ui(old, new, top, Screen::SecurityLevels, "SecurityLevel"@)
            &&& r == spec_table_effect(top)
        },
        Operation::RevenueCategories(top) => {
            &&& spec_simple_table_op(old.revenue_categories@, new.revenue_categories@, old.revenue_category_edit_state_vec@, new.revenue_category_edit_state_vec@, top)
            &&& spec_untouched_except(old, new, Part::RevenueCategories)
            &&& spec_table_ui(old, new, top, Screen::RevenueCategories, "RevenueCategory"@)
            &&& r == spec_table_effect(top)
        },
        Operation::ReportCategories(top) => {
            &&& spec_simple_table_op(old.report_categories@, new.report_categories@, old.report_category_edit_state_vec@, new.report_category_edit_state_vec@, top)
            &&& spec_untouched_except(old, new, Part::ReportCategories)
            &&& spec_table_ui(old, new, top, Screen::ReportCategories, "ReportCategory"@)
            &&& r == spec_table_effect(top)
        },
        Operation::ChoiceGroups(top) => {
            &&& spec_simple_table_op(old.choice_groups@, new.choice_groups@, old.choice_group_edit_state_vec@, new.choice_group_edit_state_vec@, top)
            &&& spec_untouched_except(old, new, Part::ChoiceGroups)
            &&& spec_table_ui(old, new, top, Screen::ChoiceGroups, "ChoiceGroup"@)
            &&& r == spec_table_effect(top)
        },
        Operation::PrinterLogicals(top) => {
            &&& spec_simple_table_op(old.printer_logicals@, new.printer_logicals@, old.printer_logical_edit_state_vec@, new.printer_logical_edit_state_vec@, top)
            &&& spec_untouched_except(old, new, Part::PrinterLogicals)
            &&& spec_table_ui(old, new, top, Screen::PrinterLogicals, "PrinterLogical"@)
            &&& r == spec_table_effect(top)
        },
    }
}

impl MenuBuilder {
    fn perform_item_groups(&mut self, op: TableOperation) -> (r: Effect)
        requires
            spec_edits_wf(old(self).item_group_edit_state_vec@),
            spec_table_op_allowed(old(self).item_groups@, old(self).item_group_edit_state_vec@.len(), op),
        ensures
            spec_edits_wf(final(self).item_group_edit_state_vec@),
            spec_group_table_op(old(self).item_groups@, final(self).item_groups@, old(self).item_group_edit_state_vec@, final(self).item_group_edit_state_vec@, op),
            spec_untouched_except(&*old(self), &*final(self), Part::ItemGroups),
            spec_table_ui(&*old(self), &*final(self), op, Screen::ItemGroups, "ItemGroup"@),
            r == spec_table_effect(op),
    {
        match op {
            TableOperation::RequestDelete(id) => {
                self.deletion_info = DeletionInfo {
                    entity_type: text("ItemGroup"),
                    entity_id: id,
                    affected_items: Vec::new(),
                };
                self.show_modal = true;
            },
            TableOperation::Copy(id) => {
                copy_record::<ItemGroup>(&mut self.item_groups, id);
                self.screen = Screen::ItemGroups;
            },
            TableOperation::Edit(id) => {
                start_item_group_edit(&self.item_groups, &mut self.item_group_edit_state_vec, id);
                self.screen = Screen::ItemGroups;
            },
            TableOperation::SaveAll(id) => {
                save_item_group(&mut self.item_groups, &mut self.item_group_edit_state_vec, id);
                self.screen = Screen::ItemGroups;
                return Effect::Save;
            },
            TableOperation::UpdateName(id, s) => {
                update_item_group_name(&mut self.item_group_edit_state_vec, id, s);
                self.screen = Screen::ItemGroups;
            },
            TableOperation::UpdateIdRangeStart(id, s) => {
                update_item_group_range_start(&mut self.item_group_edit_state_vec, id, s);
                self.screen = Screen::ItemGroups;
            },
            TableOperation::UpdateIdRangeEnd(id, s) => {
                update_item_group_range_end(&mut self.item_group_edit_state_vec, id, s);
                self.screen = Screen::ItemGroups;
            },
            TableOperation::CreateNew => {
                create_item_group(&mut self.item_groups, &mut self.item_group_edit_state_vec);
            },
            TableOperation::CancelEdit(id) => {
                cancel_item_group_edit(&mut self.item_groups, &mut self.item_group_edit_state_vec, id);
                self.screen = Screen::ItemGroups;
            },
            _ => {
                self.screen = Screen::ItemGroups;
            },
        }
        Effect::Nothing
    }

    fn perform_price_levels(&mut self, op: TableOperation) -> (r: Effect)
        requires
            spec_edits_wf(old(self).price_level_edit_state_vec@),
            spec_table_op_allowed(old(self).price_levels@, old(self).price_level_edit_state_vec@.len(), op),
            op matches TableOperation::Edit(id) ==> (old(self).price_levels@.contains_key(id) ==> old(self).price_levels@[id].price.wf()),
        ensures
            spec_edits_wf(final(self).price_level_edit_state_vec@),
            spec_price_table_op(old(self).price_levels@, final(self).price_levels@, old(self).price_level_edit_state_vec@, final(self).price_level_edit_state_vec@, op),
            spec_untouched_except(&*old(self), &*final(self), Part::PriceLevels),
            spec_table_ui(&*old(self), &*final(self), op, Screen::PriceLevels, "PriceLevel"@),
            r == spec_table_effect(op),
    {
        match op {
            TableOperation::RequestDelete(id) => {
                self.deletion_info = DeletionInfo {
                    entity_type: text("PriceLevel"),
                    entity_id: id,
                    affected_items: Vec::new(),
                };
                self.show_modal = true;
            },
            TableOperation::Copy(id) => {
                copy_record::<PriceLevel>(&mut self.price_levels, id);
                self.screen = Screen::PriceLevels;
            },
            TableOperation::Edit(id) => {
                start_price_level_edit(&self.price_levels, &mut self.price_level_edit_state_vec, id);
                self.screen = Screen::PriceLevels;
            },
            TableOperation::SaveAll(id) => {
                save_price_level(&mut self.price_levels, &mut self.price_level_edit_state_vec, id);
                self.screen = Screen::PriceLevels;
                return Effect::Save;
            },
            TableOperation::UpdateName(id, s) => {
                update_price_level_name(&mut self.price_level_edit_state_vec, id, s);
                self.screen = Screen::PriceLevels;
            },
            TableOperation::CreateNew => {
                create_price_level(&mut self.price_levels, &mut self.price_level_edit_state_vec);
            },
            TableOperation::CancelEdit(id) => {
                cancel_price_level_edit(&mut self.price_levels, &mut self.price_level_edit_state_vec, id);
                self.screen = Screen::PriceLevels;
            },
            _ => {
                self.screen = Screen::PriceLevels;
            },
        }
        Effect::Nothing
    }

    fn perform_product_classes(&mut self, op: TableOperation) -> (r: Effect)
        requires
            spec_edits_wf(old(self).product_class_edit_state_vec@),
            spec_table_op_allowed(old(self).product_classes@, old(self).product_class_edit_state_vec@.len(), op),
        ensures
            spec_edits_wf(final(self).product_class_edit_state_vec@),
            spec_simple_table_op(old(self).product_classes@, final(self).product_classes@, old(self).product_class_edit_state_vec@, final(self).product_class_edit_state_vec@, op),
            spec_untouched_except(&*old(self), &*final(self), Part::ProductClasses),
            spec_table_ui(&*old(self), &*final(self), op, Screen::ProductClasses, "ProductClass"@),
            r == spec_table_effect(op),
    {
        match op {
            TableOperation::RequestDelete(id) => {
                self.deletion_info = DeletionInfo {
                    entity_type: text("ProductClass"),
                    entity_id: id,
                    affected_items: Vec::new(),
                };
                self.show_modal = true;
            },
            TableOperation::Copy(id) => {
                copy_record::<ProductClass>(&mut self.product_classes, id);
                self.screen = Screen::ProductClasses;
            },
            TableOperation::Edit(id) => {
                start_edit(&self.product_classes, &mut self.product_class_edit_state_vec, id);
                self.screen = Screen::ProductClasses;
            },
            TableOperation::SaveAll(id) => {
                save_edit(&mut self.product_classes, &mut self.product_class_edit_state_vec, id);
                self.screen = Screen::ProductClasses;
                return Effect::Save;
            },
            TableOperation::UpdateName(id, s) => {
                update_name(&mut self.product_class_edit_state_vec, id, s);
                self.screen = Screen::ProductClasses;
            },
            TableOperation::CreateNew => {
                create_record(&mut self.product_classes, &mut self.product_class_edit_state_vec);
            },
            TableOperation::CancelEdit(id) => {
                cancel_edit(&mut self.product_classes, &mut self.product_class_edit_state_vec, id);
                self.screen = Screen::ProductClasses;
            },
            _ => {
                self.screen = Screen::ProductClasses;
            },
        }
        Effect::Nothing
    }

    fn perform_tax_groups(&mut self, op: TableOperation) -> (r: Effect)
        requires
            spec_edits_wf(old(self).tax_group_edit_state_vec@),
            spec_table_op_allowed(old(self).tax_groups@, old(self).tax_group_edit_state_vec@.len(), op),
            op matches TableOperation::Edit(id) ==> (old(self).tax_groups@.contains_key(id) ==> spec_rate_showable(old(self).tax_groups@[id])),
            op matches TableOperation::SaveAll(id) ==> (old(self).tax_groups@.contains_key(id) ==> (spec_first_edit(old(self).tax_group_edit_state_vec@, id) matches Some(i) ==> spec_parse(old(self).tax_group_edit_state_vec@[i].rate@) is Some)),
        ensures
            spec_edits_wf(final(self).tax_group_edit_state_vec@),
            spec_tax_table_op(old(self).tax_groups@, final(self).tax_groups@, old(self).tax_group_edit_state_vec@, final(self).tax_group_edit_state_vec@, op),
            spec_untouched_except(&*old(self), &*final(self), Part::TaxGroups),
            spec_table_ui(&*old(self), &*final(self), op, Screen::TaxGroups, "TaxGroup"@),
            r == spec_table_effect(op),
    {
        match op {
            TableOperation::RequestDelete(id) => {
                self.deletion_info = DeletionInfo {
                    entity_type: text("TaxGroup"),
                    entity_id: id,
                    affected_items: Vec::new(),
                };
                self.show_modal = true;
            },
            TableOperation::Copy(id) => {
                copy_record::<TaxGroup>(&mut self.tax_groups, id);
                self.screen = Screen::TaxGroups;
            },
            TableOperation::Edit(id) => {
                start_tax_group_edit(&self.tax_groups, &mut self.tax_group_edit_state_vec, id);
                self.screen = Screen::TaxGroups;
            },
            TableOperation::SaveAll(id) => {
                save_tax_group(&mut self.tax_groups, &mut self.tax_group_edit_state_vec, id);
                self.screen = Screen::TaxGroups;
                return Effect::Save;
            },
            TableOperation::UpdateName(id, s) => {
                update_tax_group_name(&mut self.tax_group_edit_state_vec, id, s);
                self.screen = Screen::TaxGroups;
            },
            TableOperation::UpdateTaxRate(id, s) => {
                update_tax_rate(&mut self.tax_group_edit_state_vec, id, s);
                self.screen = Screen::TaxGroups;
            },
            TableOperation::CreateNew => {
                create_tax_group(&mut self.tax_groups, &mut self.tax_group_edit_state_vec);
            },
            TableOperation::CancelEdit(id) => {
                cancel_tax_group_edit(&mut self.tax_groups, &mut self.tax_group_edit_state_vec, id);
                self.screen = Screen::TaxGroups;
            },
            _ => {
                self.screen = Screen::TaxGroups;
            },
        }
        Effect::Nothing
    }

    fn perform_security_levels(&mut self, op: TableOperation) -> (r: Effect)
        requires
            spec_edits_wf(old(self).security_level_edit_state_vec@),
            spec_table_op_allowed(old(self).security_levels@, old(self).security_level_edit_state_vec@.len(), op),
        ensures
            spec_edits_wf(final(self).security_level_edit_state_vec@),
            spec_simple_table_op(old(self).security_levels@, final(self).security_levels@, old(self).security_level_edit_state_vec@, final(self).security_level_edit_state_vec@, op),
            spec_untouched_except(&*old(self), &*final(self), Part::SecurityLevels),
            spec_table_ui(&*old(self), &*final(self), op, Screen::SecurityLevels, "SecurityLevel"@),
            r == spec_table_effect(op),
    {
        match op {
            TableOperation::RequestDelete(id) => {
                self.deletion_info = DeletionInfo {
                    entity_type: text("SecurityLevel"),
                    entity_id: id,
                    affected_items: Vec::new(),
                };
                self.show_modal = true;
            },
            TableOperation::Copy(id) => {
                copy_record::<SecurityLevel>(&mut self.security_levels, id);
                self.screen = Screen::SecurityLevels;
            },
            TableOperation::Edit(id) => {
                start_edit(&self.security_levels, &mut self.security_level_edit_state_vec, id);
                self.screen = Screen::SecurityLevels;
            },
            TableOperation::SaveAll(id) => {
                save_edit(&mut self.security_levels, &mut self.security_level_edit_state_vec, id);
                self.screen = Screen::SecurityLevels;
                return Effect::Save;
            },
            TableOperation::UpdateName(id, s) => {
                update_name(&mut self.security_level_edit_state_vec, id, s);
                self.screen = Screen::SecurityLevels;
            },
            TableOperation::CreateNew => {
                create_record(&mut self.security_levels, &mut self.security_level_edit_state_vec);
            },
            TableOperation::CancelEdit(id) => {
                cancel_edit(&mut self.security_levels, &mut self.security_level_edit_state_vec, id);
                self.screen = Screen::SecurityLevels;
            },
            _ => {
                self.screen = Screen::SecurityLevels;
            },
        }
        Effect::Nothing
    }

    fn perform_revenue_categories(&mut self, op: TableOperation) -> (r: Effect)
        requires
            spec_edits_wf(old(self).revenue_category_edit_state_vec@),
            spec_table_op_allowed(old(self).revenue_categories@, old(self).revenue_category_edit_state_vec@.len(), op),
        ensures
            spec_edits_wf(final(self).revenue_category_edit_state_vec@),
            spec_simple_table_op(old(self).revenue_categories@, final(self).revenue_categories@, old(self).revenue_category_edit_state_vec@, final(self).revenue_category_edit_state_vec@, op),
            spec_untouched_except(&*old(self), &*final(self), Part::RevenueCategories),
            spec_table_ui(&*old(self), &*final(self), op, Screen::RevenueCategories, "RevenueCategory"@),
            r == spec_table_effect(op),
    {
        match op {
            TableOperation::RequestDelete(id) => {
                self.deletion_info = DeletionInfo {
                    entity_type: text("RevenueCategory"),
                    entity_id: id,
                    affected_items: Vec::new(),
                };
                self.show_modal = true;
            },
            TableOperation::Copy(id) => {
                copy_record::<RevenueCategory>(&mut self.revenue_categories, id);
                self.screen = Screen::RevenueCategories;
            },
            TableOperation::Edit(id) => {
                start_edit(&self.revenue_categories, &mut self.revenue_category_edit_state_vec, id);
                self.screen = Screen::RevenueCategories;
            },
            TableOperation::SaveAll(id) => {
                save_edit(&mut self.revenue_categories, &mut self.revenue_category_edit_state_vec, id);
                self.screen = Screen::RevenueCategories;
                return Effect::Save;
            },
            TableOperation::UpdateName(id, s) => {
                update_name(&mut self.revenue_category_edit_state_vec, id, s);
                self.screen = Screen::RevenueCategories;
            },
            TableOperation::CreateNew => {
                create_record(&mut self.revenue_categories, &mut self.revenue_category_edit_state_vec);
            },
            TableOperation::CancelEdit(id) => {
                cancel_edit(&mut self.revenue_categories, &mut self.revenue_category_edit_state_vec, id);
                self.screen = Screen::RevenueCategories;
            },
            _ => {
                self.screen = Screen::RevenueCategories;
            },
        }
        Effect::Nothing
    }

    fn perform_report_categories(&mut self, op: TableOperation) -> (r: Effect)
        requires
            spec_edits_wf(old(self).report_category_edit_state_vec@),
            spec_table_op_allowed(old(self).report_categories@, old(self).report_category_edit_state_vec@.len(), op),
        ensures
            spec_edits_wf(final(self).report_category_edit_state_vec@),
            spec_simple_table_op(old(self).report_categories@, final(self).report_categories@, old(self).report_category_edit_state_vec@, final(self).report_category_edit_state_vec@, op),
            spec_untouched_except(&*old(self), &*final(self), Part::ReportCategories),
            spec_table_ui(&*old(self), &*final(self), op, Screen::ReportCategories, "ReportCategory"@),
            r == spec_table_effect(op),
    {
        match op {
            TableOperation::RequestDelete(id) => {
                self.deletion_info = DeletionInfo {
                    entity_type: text("ReportCategory"),
                    entity_id: id,
                    affected_items: Vec::new(),
                };
                self.show_modal = true;
            },
            TableOperation::Copy(id) => {
                copy_record::<ReportCategory>(&mut self.report_categories, id);
                self.screen = Screen::ReportCategories;
            },
            TableOperation::Edit(id) => {
                start_edit(&self.report_categories, &mut self.report_category_edit_state_vec, id);
                self.screen = Screen::ReportCategories;
            },
            TableOperation::SaveAll(id) => {
                save_edit(&mut self.report_categories, &mut self.report_category_edit_state_vec, id);
                self.screen = Screen::ReportCategories;
                return Effect::Save;
            },
            TableOperation::UpdateName(id, s) => {
                update_name(&mut self.report_category_edit_state_vec, id, s);
                self.screen = Screen::ReportCategories;
            },
            TableOperation::CreateNew => {
                create_record(&mut self.report_categories, &mut self.report_category_edit_state_vec);
            },
            TableOperation::CancelEdit(id) => {
                cancel_edit(&mut self.report_categories, &mut self.report_category_edit_state_vec, id);
                self.screen = Screen::ReportCategories;
            },
            _ => {
                self.screen = Screen::ReportCategories;
            },
        }
        Effect::Nothing
    }

    fn perform_choice_groups(&mut self, op: TableOperation) -> (r: Effect)
        requires
            spec_edits_wf(old(self).choice_group_edit_state_vec@),
            spec_table_op_allowed(old(self).choice_groups@, old(self).choice_group_edit_state_vec@.len(), op),
        ensures
            spec_edits_wf(final(self).choice_group_edit_state_vec@),
            spec_simple_table_op(old(self).choice_groups@, final(self).choice_groups@, old(self).choice_group_edit_state_vec@, final(self).choice_group_edit_state_vec@, op),
            spec_untouched_except(&*old(self), &*final(self), Part::ChoiceGroups),
            spec_table_ui(&*old(self), &*final(self), op, Screen::ChoiceGroups, "ChoiceGroup"@),
            r == spec_table_effect(op),
    {
        match op {
            TableOperation::RequestDelete(id) => {
                self.deletion_info = DeletionInfo {
                    entity_type: text("ChoiceGroup"),
                    entity_id: id,
                    affected_items: Vec::new(),
                };
                self.show_modal = true;
            },
            TableOperation::Copy(id) => {
                copy_record::<ChoiceGroup>(&mut self.choice_groups, id);
                self.screen = Screen::ChoiceGroups;
            },
            TableOperation::Edit(id) => {
                start_edit(&self.choice_groups, &mut self.choice_group_edit_state_vec, id);
                self.screen = Screen::ChoiceGroups;
            },
            TableOperation::SaveAll(id) => {
                save_edit(&mut self.choice_groups, &mut self.choice_group_edit_state_vec, id);
                self.screen = Screen::ChoiceGroups;
                return Effect::Save;
            },
            TableOperation::UpdateName(id, s) => {
                update_name(&mut self.choice_group_edit_state_vec, id, s);
                self.screen = Screen::ChoiceGroups;
            },
            TableOperation::CreateNew => {
                create_record(&mut self.choice_groups, &mut self.choice_group_edit_state_vec);
            },
            TableOperation::CancelEdit(id) => {
                cancel_edit(&mut self.choice_groups, &mut self.choice_group_edit_state_vec, id);
                self.screen = Screen::ChoiceGroups;
            },
            _ => {
                self.screen = Screen::ChoiceGroups;
            },
        }
        Effect::Nothing
    }

    fn perform_printer_logicals(&mut self, op: TableOperation) -> (r: Effect)
        requires
            spec_edits_wf(old(self).printer_logical_edit_state_vec@),
            spec_table_op_allowed(old(self).printer_logicals@, old(self).printer_logical_edit_state_vec@.len(), op),
        ensures
            spec_edits_wf(final(self).printer_logical_edit_state_vec@),
            spec_simple_table_op(old(self).printer_logicals@, final(self).printer_logicals@, old(self).printer_logical_edit_state_vec@, final(self).printer_logical_edit_state_vec@, op),
            spec_untouched_except(&*old(self), &*final(self), Part::PrinterLogicals),
            spec_table_ui(&*old(self), &*final(self), op, Screen::PrinterLogicals, "PrinterLogical"@),
            r == spec_table_effect(op),
    {
        match op {
            TableOperation::RequestDelete(id) => {
                self.deletion_info = DeletionInfo {
                    entity_type: text("PrinterLogical"),
                    entity_id: id,
                    affected_items: Vec::new(),
                };
                self.show_modal = true;
            },
            TableOperation::Copy(id) => {
                copy_record::<PrinterLogical>(&mut self.printer_logicals, id);
                self.screen = Screen::PrinterLogicals;
            },
            TableOperation::Edit(id) => {
                start_edit(&self.printer_logicals, &mut self.printer_logical_edit_state_vec, id);
                self.screen = Screen::PrinterLogicals;
            },
            TableOperation::SaveAll(id) => {
                save_edit(&mut self.printer_logicals, &mut self.printer_logical_edit_state_vec, id);
                self.screen = Screen::PrinterLogicals;
                return Effect::Save;
            },
            TableOperation::UpdateName(id, s) => {
                update_name(&mut self.printer_logical_edit_state_vec, id, s);
                self.screen = Screen::PrinterLogicals;
            },
            TableOperation::CreateNew => {
                create_record(&mut self.printer_logicals, &mut self.printer_logical_edit_state_vec);
            },
            TableOperation::CancelEdit(id) => {
                cancel_edit(&mut self.printer_logicals, &mut self.printer_logical_edit_state_vec, id);
                self.screen = Screen::PrinterLogicals;
            },
            _ => {
                self.screen = Screen::PrinterLogicals;
            },
        }
        Effect::Nothing
    }

    fn perform_items(&mut self, id: EntityId, op: ItemOperation) -> (r: Effect)
        requires
            spec_perform_allowed(&*old(self), Operation::Items(id, op)),
        ensures
            spec_item_op(&*old(self), &*final(self), id, op, r),
    {
        match op {
            ItemOperation::Save(item) => {
                let (e, _) = self.save_item(item);
                e
            },
            ItemOperation::StartEdit => {
                self.start_edit_item(id);
                Effect::Nothing
            },
            ItemOperation::Cancel => {
                self.cancel_item_edit();
                Effect::Nothing
            },
            ItemOperation::Back => {
                self.screen = Screen::Items(Mode::View);
                Effect::Nothing
            },
            ItemOperation::CreateNew(item) => {
                self.create_new_item(item);
                Effect::Nothing
            },
            ItemOperation::Select(x) => {
                self.select_item(x);
                Effect::Nothing
            },
            ItemOperation::UpdateSearchQuery(q) => {
                self.item_search = q;
                Effect::Nothing
            },
            ItemOperation::RequestDelete(x) => {
                self.deletion_info = DeletionInfo {
                    entity_type: text("Item"),
                    entity_id: x,
                    affected_items: Vec::new(),
                };
                self.show_modal = true;
                Effect::Nothing
            },
            ItemOperation::CopyItem(x) => {
                self.copy_item(x);
                Effect::Nothing
            },
            ItemOperation::HideModal => {
                self.show_modal = false;
                Effect::Nothing
            },
            ItemOperation::ShowModal => {
                self.show_modal = true;
                Effect::Nothing
            },
            ItemOperation::UpdatePrice(_, level, price) => {
                self.update_price(level, price);
                Effect::Nothing
            },
            ItemOperation::LaunchMassItemEditWindow => Effect::OpenMassEdit,
        }
    }

    fn perform_settings(&mut self, op: SettingsOperation) -> (r: Effect)
        ensures
            spec_settings_op(&*old(self), &*final(self), op, r),
    {
        let r = match op {
            SettingsOperation::Back => {
                self.screen = Screen::Items(Mode::View);
                self.error_message = None;
                return Effect::Nothing;
            },
            SettingsOperation::Save(s) => {
                self.settings = s;
                Effect::Save
            },
            SettingsOperation::ShowError(e) => {
                self.error_message = Some(e);
                Effect::Nothing
            },
            SettingsOperation::ThemeChanged(t) => Effect::SetTheme(t),
            SettingsOperation::UpdateExportSuccess(b) => {
                self.settings.export_success = b;
                Effect::Nothing
            },
            SettingsOperation::UpdateExportMessage(m) => {
                self.settings.export_message = m;
                Effect::Nothing
            },
        };
        self.screen = Screen::Settings(self.settings.copy());
        r
    }

    /// Handles a message of the items screen for item `id`: the message
    /// goes to the item it targets (the draft, or the stored item), and the
    /// operation it leads to is carried out.
    pub fn handle_item_message(&mut self, id: EntityId, msg: ItemMessage) -> (r: Effect)
        requires
            spec_edits_all_wf(&*old(self)),
            spec_item_message_allowed(&*old(self), id, msg),
        ensures
            spec_edits_all_wf(&*final(self)),
            spec_item_message(&*old(self), &*final(self), id, msg, r),
    {
        let ghost m0 = msg;
        let on_draft = id < 0 || match self.draft_item_id {
            Some(d) => d == id,
            None => false,
        };
        let op = match msg {
            ItemMessage::Edit(m) => {
                if on_draft {
                    update_item(&mut self.draft_item, m, &mut self.item_edit_state)
                } else {
                    let mut item = self.items.remove(&id).unwrap();
                    let op = update_item(&mut item, m, &mut self.item_edit_state);
                    self.items.insert(id, item);
                    proof {
                        assert(self.items@.dom() =~= old(self).items@.dom());
                    }
                    op
                }
            },
            other => view_operation(other),
        };
        let ghost mid = *self;
        proof {
            assert(spec_item_message_step(&*old(self), &mid, id, m0, op));
        }
        match op {
            Some(o) => {
                let r = self.perform(Operation::Items(id, o));
                proof {
                    assert(spec_item_message_step(&*old(self), &mid, id, m0, Some(o)));
                }
                r
            },
            None => Effect::Nothing,
        }
    }

    /// A file was dropped: it is remembered as the file to import, and when
    /// it is a `.csv` or `.txt` file whose text (`contents`, none when it
    /// could not be read) holds item records, the import confirmation opens.
    pub fn file_dropped(&mut self, path: String, contents: Option<&str>)
        ensures
            final(self).import_item_path@ == path@,
            final(self).show_item_import_confirmation == (old(self).show_item_import_confirmation
                || spec_import_offered(path@, contents)),
            final(self).items == old(self).items,
            final(self).settings == old(self).settings,
            final(self).screen == old(self).screen,
    {
        let wanted = is_csv_or_txt(path.as_str());
        self.import_item_path = path;
        if wanted {
            if let Some(c) = contents {
                if verify_csv_format(c).is_ok() {
                    self.show_item_import_confirmation = true;
                }
            }
        }
    }

    /// Closes the import confirmation without importing.
    pub fn cancel_item_import(&mut self)
        ensures
            !final(self).show_item_import_confirmation,
            final(self).items == old(self).items,
            final(self).settings == old(self).settings,
            final(self).screen == old(self).screen,
            final(self).import_item_path == old(self).import_item_path,
    {
        self.show_item_import_confirmation = false;
    }

    /// Carries out an operation of a screen: the catalogue, the open edits,
    /// the item draft, the settings, the screen and the pending deletion
    /// change as the operation says, every other part stays as it was, and
    /// every list of open edits keeps reading back its ids. Returns what the
    /// caller must do: write the data file, apply a theme, open the mass
    /// edit, or nothing.
    pub fn perform(&mut self, op: Operation) -> (r: Effect)
        requires
            spec_edits_all_wf(&*old(self)),
            spec_perform_allowed(&*old(self), op),
        ensures
            spec_edits_all_wf(&*final(self)),
            spec_perform(&*old(self), &*final(self), op, r),
    {
        match op {
            Operation::Settings(so) => self.perform_settings(so),
            Operation::Items(id, io) => self.perform_items(id, io),
            Operation::ItemGroups(top) => self.perform_item_groups(top),
            Operation::PriceLevels(top) => self.perform_price_levels(top),
            Operation::ProductClasses(top) => self.perform_product_classes(top),
            Operation::TaxGroups(top) => self.perform_tax_groups(top),
            Operation::SecurityLevels(top) => self.perform_security_levels(top),
            Operation::RevenueCategories(top) => self.perform_revenue_categories(top),
            Operation::ReportCategories(top) => self.perform_report_categories(top),
            Operation::ChoiceGroups(top) => self.perform_choice_groups(top),
            Operation::PrinterLogicals(top) => self.perform_printer_logicals(top),
        }
    }
}

} // verus!
