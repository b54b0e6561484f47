//! Product data as the sample application's logic reads it, and the
//! packing of repository rows into the wire-level listing objects.

use vstd::prelude::*;

use crate::app_error::ErrorType;
use crate::error::FnError;
use crate::strings::decimal_u64;
use crate::strings::spec_decimal;

verus! {

/// A product row: the numeric key, the external identifier, and the
/// descriptive columns the listings read.
#[derive(Debug, Clone)]
pub struct Product {
    pub id: u64,
    pub product_uuid: u128,
    pub product_name: String,
    pub family: Option<String>,
    pub variant: String,
}

/// The attribute row joined to a product; listings read its first
/// image.
#[derive(Debug, Clone)]
pub struct ProductAttribute {
    pub image_one: Option<String>,
}

/// The category row joined to a product.
#[derive(Debug, Clone)]
pub struct Category {
    pub catogery_name: String,
}

/// A product joined with its attributes.
pub type ProductData = (Product, ProductAttribute);

/// A product joined with its category.
pub type ProductCategoryData = (Product, Category);

/// One product of a listing.
#[derive(Debug)]
pub struct ProductDTO {
    pub id: String,
    pub name: String,
    pub generic: String,
    pub variant: String,
    pub img_url: String,
}

/// A product listing.
#[derive(Debug)]
pub struct ProductListDTO {
    pub items: Vec<ProductDTO>,
}

/// One product of a filtered listing.
#[derive(Debug)]
pub struct ProductFilterDTO {
    pub id: String,
    pub name: String,
    pub generic: String,
    pub variant: String,
    pub category_name: String,
}

/// A filtered product listing.
#[derive(Debug)]
pub struct ProductFilterListDTO {
    pub product_filter_dto_list: Vec<ProductFilterDTO>,
}

/// The family column rendered for a listing: the value, or empty when
/// the column is null.
pub open spec fn spec_family_or_empty(family: Option<String>) -> Seq<char> {
    match family {
        Option::Some(f) => f@,
        Option::None => Seq::<char>::empty(),
    }
}

/// What one listing entry holds of its source row.
pub open spec fn spec_packed_product(w: ProductData, d: ProductDTO) -> bool {
    &&& d.id@ == spec_decimal(w.0.id as nat)
    &&& d.name@ == w.0.product_name@
    &&& d.generic@ == spec_family_or_empty(w.0.family)
    &&& d.variant@ == w.0.variant@
    &&& w.1.image_one matches Option::Some(img) && d.img_url@ == img@
}

/// Packs joined product rows into a listing: one entry per row, in
/// order, rendering the key in decimal and the null family as empty.
/// Every row must carry an image.
pub fn pack_product_data(product_list: Vec<ProductData>) -> (r: Result<
    ProductListDTO,
    FnError<ErrorType>,
>)
    requires
        forall|j: int|
            0 <= j < product_list@.len() ==> (#[trigger] product_list@[j]).1.image_one is Some,
    ensures
        r is Ok,
        r->Ok_0.items@.len() == product_list@.len(),
        forall|j: int|
            0 <= j < product_list@.len() ==> spec_packed_product(
                product_list@[j],
                #[trigger] r->Ok_0.items@[j],
            ),
{
    let ghost rows = product_list@;
    let mut items: Vec<ProductDTO> = Vec::new();
    let mut rest = product_list;
    while rest.len() > 0
        invariant
            rows == product_list@,
            rows.len() == items@.len() + rest@.len(),
            rest@ == rows.skip(items@.len() as int),
            forall|j: int| 0 <= j < rest@.len() ==> (#[trigger] rest@[j]).1.image_one is Some,
            forall|j: int|
                0 <= j < items@.len() ==> spec_packed_product(rows[j], #[trigger] items@[j]),
        decreases rest@.len(),
    {
        proof {
            assert(rest@[0] == rows[items@.len() as int]);
            assert(rest@.drop_first() =~= rows.skip(items@.len() as int + 1));
        }
        let w = rest.remove(0);
        let img_url = match w.1.image_one {
            Option::Some(img) => img,
            Option::None => {
                proof {
                    assert(false);
                }
                String::new()
            },
        };
        let generic = match w.0.family {
            Option::Some(f) => f,
            Option::None => String::new(),
        };
        let dto = ProductDTO {
            id: decimal_u64(w.0.id),
            name: w.0.product_name,
            generic,
            variant: w.0.variant,
            img_url,
        };
        items.push(dto);
    }
    Result::Ok(ProductListDTO { items })
}

/// What one filtered-listing entry holds of its source row.
pub open spec fn spec_packed_category(w: ProductCategoryData, d: ProductFilterDTO) -> bool {
    &&& d.id@ == spec_decimal(w.0.id as nat)
    &&& d.name@ == w.0.product_name@
    &&& d.generic@ == spec_family_or_empty(w.0.family)
    &&& d.variant@ == w.0.variant@
    &&& d.category_name@ == w.1.catogery_name@
}

/// Packs joined product/category rows into a filtered listing: one
/// entry per row, in order.
pub fn pack_product_category_data(product_list: Vec<ProductCategoryData>) -> (r: Result<
    ProductFilterListDTO,
    FnError<ErrorType>,
>)
    ensures
        r is Ok,
        r->Ok_0.product_filter_dto_list@.len() == product_list@.len(),
        forall|j: int|
            0 <= j < product_list@.len() ==> spec_packed_category(
                product_list@[j],
                #[trigger] r->Ok_0.product_filter_dto_list@[j],
            ),
{
    let ghost rows = product_list@;
    let mut items: Vec<ProductFilterDTO> = Vec::new();
    let mut rest = product_list;
    while rest.len() > 0
        invariant
            rows == product_list@,
            rows.len() == items@.len() + rest@.len(),
            rest@ == rows.skip(items@.len() as int),
            forall|j: int|
                0 <= j < items@.len() ==> spec_packed_category(rows[j], #[trigger] items@[j]),
        decreases rest@.len(),
    {
        proof {
            assert(rest@[0] == rows[items@.len() as int]);
            assert(rest@.drop_first() =~= rows.skip(items@.len() as int + 1));
        }
        let w = rest.remove(0);
        let generic = match w.0.family {
            Option::Some(f) => f,
            Option::None => String::new(),
        };
        let dto = ProductFilterDTO {
            id: decimal_u64(w.0.id),
            name: w.0.product_name,
            generic,
            variant: w.0.variant,
            category_name: w.1.catogery_name,
        };
        items.push(dto);
    }
    Result::Ok(ProductFilterListDTO { product_filter_dto_list: items })
}

} // verus!
