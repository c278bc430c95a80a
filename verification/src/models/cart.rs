//! The cart record: the products a user has put aside.

use vstd::prelude::*;

use crate::models::object_id::ObjectId;

verus! {

/// One line of a cart.
#[derive(Clone, Copy, Debug, PartialEq, Eq)]
pub struct CartItem {
    pub product_id: ObjectId,
    pub quantity: u32,
}

/// A user's cart.
#[derive(Clone, Debug, PartialEq)]
pub struct CartProduct {
    /// The cart's own identifier; none until the database assigns one.
    pub id: Option<ObjectId>,
    pub user_id: ObjectId,
    pub products: Vec<CartItem>,
}

impl CartProduct {
    /// A cart of the given user with the given lines, not yet stored.
    pub fn new(user_id: ObjectId, products: Vec<CartItem>) -> (cart: CartProduct)
        ensures
            cart.id is None,
            cart.user_id == user_id,
            cart.products@ == products@,
    {
        CartProduct { id: None, user_id, products }
    }
}

} // verus!
