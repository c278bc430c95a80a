pub mod auth;
pub mod cart;
pub mod product;
pub mod user_details;
