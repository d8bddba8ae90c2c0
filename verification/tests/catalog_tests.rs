use lemon_tree_core::catalog::{
    filter_attribute_option_record, filter_attribute_record, filter_category_record,
    filter_product_attribute_record, AttributeOptionRecord, AttributeRecord, CategoryRecord,
    ProductAttributeRecord,
};

fn option_record(id: i32, label: &str) -> AttributeOptionRecord {
    AttributeOptionRecord {
        id,
        label: label.to_string(),
        content: format!("{}-content", label),
        attribute_id: 5,
    }
}

#[test]
fn attribute_option_projects_field_for_field() {
    let filtered = filter_attribute_option_record(&option_record(3, "size"));
    assert_eq!(filtered.id, 3);
    assert_eq!(filtered.label, "size");
    assert_eq!(filtered.content, "size-content");
    assert_eq!(filtered.attribute_id, 5);
}

#[test]
fn attribute_projects_with_its_options_in_order() {
    let attribute = AttributeRecord { id: 5, kind: "select".to_string(), label: "Size".to_string() };
    let options = vec![option_record(1, "s"), option_record(2, "m"), option_record(3, "l")];
    let filtered = filter_attribute_record(&attribute, options);
    assert_eq!(filtered.id, 5);
    assert_eq!(filtered.kind, "select");
    assert_eq!(filtered.label, "Size");
    assert_eq!(filtered.options.len(), 3);
    assert_eq!(filtered.options[0].label, "s");
    assert_eq!(filtered.options[1].label, "m");
    assert_eq!(filtered.options[2].label, "l");
}

#[test]
fn category_without_parent_reports_minus_one() {
    let root = CategoryRecord { id: 1, label: "Plants".to_string(), parent_id: None };
    let filtered = filter_category_record(&root);
    assert_eq!(filtered.id, 1);
    assert_eq!(filtered.label, "Plants");
    assert_eq!(filtered.parent_id, -1);

    let child = CategoryRecord { id: 2, label: "Trees".to_string(), parent_id: Some(1) };
    assert_eq!(filter_category_record(&child).parent_id, 1);
}

#[test]
fn product_attribute_merges_attribute_and_value() {
    let attribute = AttributeRecord { id: 9, kind: "text".to_string(), label: "Origin".to_string() };
    let value = ProductAttributeRecord { attribute_id: 9, content: "Sicily".to_string() };
    let filtered = filter_product_attribute_record(&value, &attribute);
    assert_eq!(filtered.id, 9);
    assert_eq!(filtered.kind, "text");
    assert_eq!(filtered.label, "Origin");
    assert_eq!(filtered.content, "Sicily");
}
