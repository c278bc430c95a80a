//! The product record of the catalogue.

use vstd::prelude::*;

verus! {

/// A product as the catalogue describes it.
#[derive(Clone, Debug, PartialEq)]
pub struct Product {
    pub title: String,
    pub description: String,
    pub price: u32,
    pub quantity: u8,
    pub image: String,
}

} // verus!
