//! Products: lookup, and the updates that a seller makes to one.

use crate::decimal::{parse_i64_or_zero, spec_parse_i64_or_zero};
use crate::models::{Product, ProductView};
use crate::utils::generate_rnd;
use crate::utils::is_hex_text;
use vstd::prelude::*;

verus! {

/// The fields of a product that a request can write.
#[derive(Debug, Clone, Copy, PartialEq, Eq, Structural)]
pub enum UpdateType {
    InStock,
    Description,
    Name,
    Price,
    Quantity,
}

impl UpdateType {
    /// The number that selects the field in a request.
    pub open spec fn spec_value(self) -> i32 {
        match self {
            UpdateType::InStock => 0,
            UpdateType::Description => 1,
            UpdateType::Name => 2,
            UpdateType::Price => 3,
            UpdateType::Quantity => 4,
        }
    }

    pub fn value(&self) -> (r: i32)
        ensures
            r == self.spec_value(),
    {
        match *self {
            UpdateType::InStock => 0,
            UpdateType::Description => 1,
            UpdateType::Name => 2,
            UpdateType::Price => 3,
            UpdateType::Quantity => 4,
        }
    }
}

/// A fresh product of a seller: a random identifier of 64 hexadecimal
/// digits, out of stock, everything else empty.
pub fn create(v_id: String) -> (r: Product)
    ensures
        r@.pid.len() == 64,
        is_hex_text(r@.pid),
        r@ == (ProductView { pid: r@.pid, v_id: v_id@, ..ProductView::empty() }),
{
    let mut product: Product = Product::default();
    product.pid = generate_rnd();
    product.v_id = v_id;
    product
}

/// What a lookup comes to: the first product found, or the empty product
/// where none was found.
pub fn find(found: &Vec<Product>) -> (r: Product)
    ensures
        r@ == if found@.len() > 0 {
            found@[0]@
        } else {
            ProductView::empty()
        },
{
    if found.len() > 0 {
        found[0].clone()
    } else {
        Product::default()
    }
}

/// The product after an update. Marking a product as in stock needs no
/// value. Description and name are stored as given; price and quantity as
/// the number that the text writes, or zero where it writes none. A selector
/// that names no field gives the empty product.
pub open spec fn spec_modify(old: ProductView, data: Seq<char>, update_type: i32) -> ProductView {
    if update_type == UpdateType::InStock.spec_value() {
        ProductView { in_stock: true, ..old }
    } else if update_type == UpdateType::Description.spec_value() {
        ProductView { p_description: data, ..old }
    } else if update_type == UpdateType::Name.spec_value() {
        ProductView { p_name: data, ..old }
    } else if update_type == UpdateType::Price.spec_value() {
        ProductView { p_price: spec_parse_i64_or_zero(data), ..old }
    } else if update_type == UpdateType::Quantity.spec_value() {
        ProductView { qty: spec_parse_i64_or_zero(data), ..old }
    } else {
        ProductView::empty()
    }
}

/// Applies one update to a product.
pub fn modify(old: Product, data: String, update_type: i32) -> (r: Product)
    ensures
        r@ == spec_modify(old@, data@, update_type),
{
    let mut product: Product = old;
    if update_type == UpdateType::InStock.value() {
        product.in_stock = true;
        product
    } else if update_type == UpdateType::Description.value() {
        product.p_description = data;
        product
    } else if update_type == UpdateType::Name.value() {
        product.p_name = data;
        product
    } else if update_type == UpdateType::Price.value() {
        product.p_price = parse_i64_or_zero(data.as_str());
        product
    } else if update_type == UpdateType::Quantity.value() {
        product.qty = parse_i64_or_zero(data.as_str());
        product
    } else {
        Product::default()
    }
}

/// Those of the products that a seller offers, in the order given.
pub open spec fn products_of(products: Seq<Product>, v_id: Seq<char>) -> Seq<Product>
    decreases products.len(),
{
    if products.len() == 0 {
        Seq::empty()
    } else {
        let before = products_of(products.drop_last(), v_id);
        if products.last()@.v_id == v_id {
            before.push(products.last())
        } else {
            before
        }
    }
}

/// Picks the products of one seller.
pub fn find_all(products: &Vec<Product>, v_id: &String) -> (r: Vec<Product>)
    ensures
        r@ == products_of(products@, v_id@),
{
    let mut r: Vec<Product> = Vec::new();
    let mut i: usize = 0;
    while i < products.len()
        invariant
            i <= products@.len(),
            r@ == products_of(products@.take(i as int), v_id@),
        decreases products@.len() - i,
    {
        let product: &Product = &products[i];
        assert(products@.take(i + 1).drop_last() =~= products@.take(i as int));
        if product.v_id == *v_id {
            r.push(product.clone());
        }
        i = i + 1;
    }
    assert(products@.take(products@.len() as int) =~= products@);
    r
}

} // verus!
