//! Request handling rules of a small shop backend: sign-up and log-in, the
//! product catalogue, carts and user profiles.
//!
//! Each handler of the service is split at the points where it waits on the
//! database: the functions here decide, from what was received and what the
//! database answered, what the service does next and which reply it sends.

pub mod controllers;
pub mod header;
pub mod models;
pub mod outcome;
pub mod reply;
