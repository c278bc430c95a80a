pub mod cart;
pub mod object_id;
pub mod product;
