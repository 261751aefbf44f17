use menu_builder::catalog::{
    cancel_edit, copy_record, create_item_group, create_record, save_edit, save_item_group, start_edit,
    update_item_group_range_end, update_item_group_range_start, update_name,
};
use menu_builder::data_types::ErrorKind;
use menu_builder::entity_component::{get_next_id, ranges_overlap, EditState};
use menu_builder::item_groups::{ItemGroup, ItemGroupEditState};
use menu_builder::product_classes::ProductClass;
use std::collections::BTreeMap;

fn classes() -> BTreeMap<i32, ProductClass> {
    let mut m = BTreeMap::new();
    m.insert(1, ProductClass { id: 1, name: "Food".to_string() });
    m.insert(4, ProductClass { id: 4, name: "Drinks".to_string() });
    m
}

#[test]
fn next_id_is_one_past_the_largest() {
    assert_eq!(get_next_id(&classes()), 5);
    let empty: BTreeMap<i32, ProductClass> = BTreeMap::new();
    assert_eq!(get_next_id(&empty), 1);
}

#[test]
fn product_class_validation() {
    let c = ProductClass { id: 2, name: "Bar".to_string() };
    let other = ProductClass { id: 1, name: "Food".to_string() };
    assert!(c.validate(&[&other]).is_ok());
    let dup = ProductClass { id: 1, name: "Again".to_string() };
    let e = dup.validate(&[&other]).unwrap_err();
    assert_eq!(e.kind(), ErrorKind::DuplicateId);
    assert_eq!(e.message(), "Product class with ID 1 already exists");
    let out = ProductClass { id: 1000, name: "Far".to_string() };
    assert_eq!(out.validate(&[]).unwrap_err().kind(), ErrorKind::InvalidId);
    let blank = ProductClass { id: 3, name: "  ".to_string() };
    assert_eq!(blank.validate(&[]).unwrap_err().message(), "Product class name cannot be empty");
    let draft = ProductClass::new_draft();
    assert_eq!(draft.id, -1);
    assert_eq!(draft.name, "");
}

#[test]
fn copy_record_names_the_copy_after_its_id() {
    let mut m = classes();
    let n = copy_record(&mut m, 4);
    assert_eq!(n, 5);
    assert_eq!(m[&5].name, "Drinks(5)");
    assert_eq!(m[&5].id, 5);
    assert_eq!(m.len(), 3);
}

#[test]
fn edit_rename_save_and_cancel() {
    let mut m = classes();
    let mut edits: Vec<EditState> = Vec::new();
    start_edit(&m, &mut edits, 4);
    start_edit(&m, &mut edits, 4);
    assert_eq!(edits.len(), 1);
    assert_eq!(edits[0].id, "4");
    update_name(&mut edits, 4, "Cold Drinks".to_string());
    assert_eq!(edits[0].name, "Cold Drinks");
    update_name(&mut edits, 4, "A name far too long to keep".to_string());
    assert_eq!(edits[0].name, "Cold Drinks");
    assert_eq!(edits[0].name_validation_error.as_deref(), Some("Must be less than 16 characters"));
    save_edit(&mut m, &mut edits, 4);
    assert!(edits.is_empty());
    assert_eq!(m[&4].name, "Cold Drinks");

    let n = create_record(&mut m, &mut edits);
    assert_eq!(n, 5);
    assert_eq!(m[&5].name, "");
    assert_eq!(edits.len(), 1);
    cancel_edit(&mut m, &mut edits, 5);
    assert!(edits.is_empty());
    assert!(!m.contains_key(&5));
}

#[test]
fn ranges_overlap_inclusive() {
    assert!(ranges_overlap(1, 10, 10, 20));
    assert!(!ranges_overlap(1, 9, 10, 20));
    assert!(ranges_overlap(5, 6, 1, 100));
}

#[test]
fn item_group_save_refuses_an_overlapping_range() {
    let mut m: BTreeMap<i32, ItemGroup> = BTreeMap::new();
    m.insert(1, ItemGroup { id: 1, name: "Food".to_string(), id_range: 1..100 });
    let mut edits: Vec<ItemGroupEditState> = Vec::new();
    let n = create_item_group(&mut m, &mut edits);
    assert_eq!(n, 2);
    assert_eq!(edits[0].id_range_start, "0");
    menu_builder::catalog::update_item_group_name(&mut edits, 2, "Drinks".to_string());
    update_item_group_range_start(&mut edits, 2, "50".to_string());
    update_item_group_range_end(&mut edits, 2, "150".to_string());
    save_item_group(&mut m, &mut edits, 2);
    assert_eq!(m[&2].id_range, 0..0);
    assert_eq!(edits.len(), 1);
    assert_eq!(edits[0].range_validation_error.as_deref(), Some("Range overlaps with group 'Food'"));

    update_item_group_range_start(&mut edits, 2, "101".to_string());
    update_item_group_range_end(&mut edits, 2, "199".to_string());
    save_item_group(&mut m, &mut edits, 2);
    assert!(edits.is_empty());
    assert_eq!(m[&2].id_range, 101..199);
    assert_eq!(m[&2].name, "Drinks");
}
