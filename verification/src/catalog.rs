//! Catalog-facing data shapes: the rows the product logic reads, the shapes
//! clients submit, and the public projections handed back, with the exact
//! field-for-field projection functions.

use vstd::prelude::*;

verus! {

/// An attribute-option row as the library models it.
#[derive(Debug)]
pub struct AttributeOptionRecord {
    pub id: i32,
    pub label: String,
    pub content: String,
    pub attribute_id: i32,
}

/// An attribute row as the library models it.
#[derive(Debug)]
pub struct AttributeRecord {
    pub id: i32,
    pub kind: String,
    pub label: String,
}

/// A category row as the library models it.
#[derive(Debug)]
pub struct CategoryRecord {
    pub id: i32,
    pub label: String,
    pub parent_id: Option<i32>,
}

/// A product-attribute row as the library models it.
#[derive(Debug)]
pub struct ProductAttributeRecord {
    pub attribute_id: i32,
    pub content: String,
}

/// A submitted attribute option.
#[derive(Debug)]
pub struct NewAttributeOption {
    pub label: String,
    pub content: String,
}

/// A submitted attribute with its options.
#[derive(Debug)]
pub struct NewAttribute {
    pub label: String,
    pub kind: String,
    pub options: Vec<NewAttributeOption>,
}

/// A submitted category.
#[derive(Debug)]
pub struct NewCategory {
    pub label: String,
    pub parent_id: Option<i32>,
}

/// The public projection of an attribute option.
#[derive(Debug)]
pub struct FilteredAttributeOption {
    pub id: i32,
    pub label: String,
    pub content: String,
    pub attribute_id: i32,
}

/// The public projection of an attribute with its options.
#[derive(Debug)]
pub struct FilteredAttribute {
    pub id: i32,
    pub kind: String,
    pub label: String,
    pub options: Vec<FilteredAttributeOption>,
}

/// The public projection of a category; a missing parent becomes `-1`.
#[derive(Debug)]
pub struct FilteredCategory {
    pub id: i32,
    pub label: String,
    pub parent_id: i32,
}

/// The public projection of one attribute value on a product.
#[derive(Debug)]
pub struct FilteredProductAttribute {
    pub id: i32,
    pub kind: String,
    pub label: String,
    pub content: String,
}

/// Pagination parameters of the product-grid query.
#[derive(Clone, Copy, Debug)]
pub struct Params {
    pub page: Option<u64>,
    pub posts_per_page: Option<u64>,
}

/// Pagination parameters of the product-listing query.
#[derive(Clone, Copy, Debug)]
pub struct ProductRetrievalParams {
    pub page: Option<u64>,
    pub posts_per_page: Option<u64>,
}

/// The query naming a static page by its slug.
#[derive(Debug)]
pub struct StaticPageQuery {
    pub slug: String,
}

/// The projection relation between an option row and its public shape.
pub open spec fn spec_option_filtered(
    f: FilteredAttributeOption,
    o: AttributeOptionRecord,
) -> bool {
    &&& f.id == o.id
    &&& f.label@ == o.label@
    &&& f.content@ == o.content@
    &&& f.attribute_id == o.attribute_id
}

/// Projects an attribute-option row to its public shape, field for field.
pub fn filter_attribute_option_record(attribute_option: &AttributeOptionRecord) -> (r:
    FilteredAttributeOption)
    ensures
        spec_option_filtered(r, *attribute_option),
{
    FilteredAttributeOption {
        id: attribute_option.id,
        label: attribute_option.label.clone(),
        content: attribute_option.content.clone(),
        attribute_id: attribute_option.attribute_id,
    }
}

/// Projects an attribute row and its option rows to the public shape: the
/// attribute's fields pass through and every option is projected in order.
pub fn filter_attribute_record(
    attribute: &AttributeRecord,
    attribute_options: Vec<AttributeOptionRecord>,
) -> (r: FilteredAttribute)
    ensures
        r.id == attribute.id,
        r.kind@ == attribute.kind@,
        r.label@ == attribute.label@,
        r.options@.len() == attribute_options@.len(),
        forall|i: int|
            0 <= i < attribute_options@.len() ==> spec_option_filtered(
                #[trigger] r.options@[i],
                attribute_options@[i],
            ),
{
    let mut options: Vec<FilteredAttributeOption> = Vec::new();
    let mut i: usize = 0;
    while i < attribute_options.len()
        invariant
            0 <= i <= attribute_options@.len(),
            options@.len() == i,
            forall|j: int|
                0 <= j < i ==> spec_option_filtered(
                    #[trigger] options@[j],
                    attribute_options@[j],
                ),
        decreases attribute_options@.len() - i,
    {
        options.push(filter_attribute_option_record(&attribute_options[i]));
        i = i + 1;
    }
    FilteredAttribute {
        id: attribute.id,
        kind: attribute.kind.clone(),
        label: attribute.label.clone(),
        options,
    }
}

/// Projects a category row to its public shape; a category without a parent
/// reports parent id `-1`.
pub fn filter_category_record(category: &CategoryRecord) -> (r: FilteredCategory)
    ensures
        r.id == category.id,
        r.label@ == category.label@,
        r.parent_id as int == match category.parent_id {
            Some(p) => p as int,
            None => -1int,
        },
{
    let parent_id: i32 = match category.parent_id {
        Some(p) => p,
        None => -1,
    };
    FilteredCategory { id: category.id, label: category.label.clone(), parent_id }
}

/// Projects one attribute value on a product: identity, kind and label come
/// from the attribute row, the content from the product's row.
pub fn filter_product_attribute_record(
    product_attribute: &ProductAttributeRecord,
    attribute: &AttributeRecord,
) -> (r: FilteredProductAttribute)
    ensures
        r.id == attribute.id,
        r.kind@ == attribute.kind@,
        r.label@ == attribute.label@,
        r.content@ == product_attribute.content@,
{
    FilteredProductAttribute {
        id: attribute.id,
        kind: attribute.kind.clone(),
        label: attribute.label.clone(),
        content: product_attribute.content.clone(),
    }
}

} // verus!
