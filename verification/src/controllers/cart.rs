//! Carts: adding products to a user's cart and reading it back.

use vstd::prelude::*;

use mongodb::bson::Document;

use crate::outcome::{DbError, Lookup};
use crate::reply::{Body, Reply, Status};

verus! {

/// One line of a request to add products to a cart.
#[derive(Clone, Debug, PartialEq)]
pub struct CartItem {
    pub product_id: String,
    pub quantity: u32,
}

/// A request to add products to the cart of the user with the given email.
#[derive(Clone, Debug, PartialEq)]
pub struct AddToCartRequest {
    pub email: String,
    pub products: Vec<CartItem>,
}

/// A request for the cart of the user with the given email.
#[derive(Clone, Debug, PartialEq)]
pub struct UserCartInfo {
    pub email: String,
}

/// A cart to store: the user's email and the cart's lines, in order.
#[derive(Clone, Debug, PartialEq)]
pub struct NewCart {
    pub email: String,
    pub products: Vec<CartItem>,
}

/// The line a cart stores for one requested product: its id and quantity.
pub open spec fn line_of(item: CartItem) -> (Seq<char>, u32) {
    (item.product_id@, item.quantity)
}

/// The lines a cart stores for the given products: one per product, each its
/// id and quantity, in the order of the products.
pub fn cart_lines(products: &Vec<CartItem>) -> (lines: Vec<(String, u32)>)
    ensures
        lines@.len() == products@.len(),
        forall|i: int|
            0 <= i < products@.len() ==> (#[trigger] lines@[i]).0@ == products@[i].product_id@
                && lines@[i].1 == products@[i].quantity,
        forall|i: int|
            0 <= i < products@.len() ==> (#[trigger] lines@[i]).0@ == line_of(products@[i]).0
                && lines@[i].1 == line_of(products@[i]).1,
{
    let mut lines: Vec<(String, u32)> = Vec::new();
    let mut i: usize = 0;
    while i < products.len()
        invariant
            i <= products@.len(),
            lines@.len() == i,
            forall|j: int|
                0 <= j < i ==> (#[trigger] lines@[j]).0@ == products@[j].product_id@
                    && lines@[j].1 == products@[j].quantity,
        decreases products@.len() - i,
    {
        let item = &products[i];
        lines.push((item.product_id.clone(), item.quantity));
        i = i + 1;
    }
    lines
}

/// What follows once the products were appended to an existing cart, if any.
#[derive(Debug, PartialEq)]
pub enum AddToCartStep {
    /// Reply at once.
    Respond(Reply),
    /// No cart matched: store this new cart.
    InsertCart(NewCart),
}

/// The reply when the products were stored.
pub open spec fn cart_stored() -> Reply {
    Reply { status: Status::Created, body: Body::SuccessFlag }
}

/// The reply when the database failed.
pub open spec fn cart_failure() -> Reply {
    Reply { status: Status::InternalServerError, body: Body::Empty }
}

/// Acts on the number of carts that appending the request's products, in
/// order, to the cart of the request's email matched: a new cart with that
/// email and those products, in the same order, is stored only when no cart
/// matched.
pub fn add_to_cart_after_update(request: AddToCartRequest, result: Result<u64, DbError>) -> (step:
    AddToCartStep)
    ensures
        result matches Ok(n) && n > 0 ==> step == AddToCartStep::Respond(cart_stored()),
        result matches Ok(n) && n == 0 ==> step == AddToCartStep::InsertCart(
            NewCart { email: request.email, products: request.products },
        ),
        result is Err ==> step == AddToCartStep::Respond(cart_failure()),
{
    match result {
        Ok(n) => if n > 0 {
            AddToCartStep::Respond(Reply { status: Status::Created, body: Body::SuccessFlag })
        } else {
            AddToCartStep::InsertCart(NewCart { email: request.email, products: request.products })
        },
        Err(_) => AddToCartStep::Respond(
            Reply { status: Status::InternalServerError, body: Body::Empty },
        ),
    }
}

/// Replies once a new cart was stored, or failed to be.
pub fn add_to_cart_after_insert(result: Result<(), DbError>) -> (r: Reply)
    ensures
        result is Ok ==> r == cart_stored(),
        result is Err ==> r == cart_failure(),
{
    match result {
        Ok(_) => Reply { status: Status::Created, body: Body::SuccessFlag },
        Err(_) => Reply { status: Status::InternalServerError, body: Body::Empty },
    }
}

/// Replies to a request for a cart with the cart record found, if any.
pub fn fetch_cart_details_reply(found: Lookup<Document>) -> (r: Reply)
    ensures
        found matches Lookup::Found(cart) ==> r == (Reply {
            status: Status::Success,
            body: Body::CartFound(cart),
        }),
        found is Missing ==> r == (Reply { status: Status::NotFound, body: Body::CartMissing }),
        found is Failed ==> r == cart_failure(),
{
    match found {
        Lookup::Found(cart) => Reply { status: Status::Success, body: Body::CartFound(cart) },
        Lookup::Missing => Reply { status: Status::NotFound, body: Body::CartMissing },
        Lookup::Failed => Reply { status: Status::InternalServerError, body: Body::Empty },
    }
}

} // verus!
