//! The replies that the handlers send.

use vstd::prelude::*;

use crate::controllers::product::Product;
use crate::controllers::user_details::User;

verus! {

/// The HTTP status of a reply.
#[derive(Clone, Copy, Debug, PartialEq, Eq)]
pub enum Status {
    Success,
    Created,
    NotModified,
    BadRequest,
    Unauthorized,
    NotFound,
    InternalServerError,
}

impl Status {
    /// The numeric HTTP status code.
    pub open spec fn http_code(self) -> u16 {
        match self {
            Status::Success => 200,
            Status::Created => 201,
            Status::NotModified => 304,
            Status::BadRequest => 400,
            Status::Unauthorized => 401,
            Status::NotFound => 404,
            Status::InternalServerError => 500,
        }
    }

    pub fn code(&self) -> (c: u16)
        ensures
            c == self.http_code(),
    {
        match self {
            Status::Success => 200,
            Status::Created => 201,
            Status::NotModified => 304,
            Status::BadRequest => 400,
            Status::Unauthorized => 401,
            Status::NotFound => 404,
            Status::InternalServerError => 500,
        }
    }
}

/// The plain-text messages that replies carry.
#[derive(Clone, Copy, Debug, PartialEq, Eq)]
pub enum Message {
    EmailInUse,
    PasswordTooShort,
    UserCreated,
    ErrorCreatingUser,
    InvalidCredentials,
    ProductAdded,
    ErrorAddingProduct,
    ErrorRetrievingProducts,
    InvalidProductId,
    ProductUpdated,
    ProductNotFound,
    ErrorUpdatingProduct,
    ProductDeleted,
    ErrorDeletingProduct,
    ProductConversionFailed,
    ErrorRetrievingProduct,
    InvalidToken,
    UserNotFound,
    InvalidAuthorizationFormat,
    MissingAuthorization,
    NoChangesMade,
    UserUpdated,
    ErrorUpdatingUser,
}

impl Message {
    /// The text that the reply body holds.
    pub open spec fn text_of(self) -> Seq<char> {
        match self {
            Message::EmailInUse => "Email already in use"@,
            Message::PasswordTooShort => "Password must be at least 8 characters long"@,
            Message::UserCreated => "User created successfully"@,
            Message::ErrorCreatingUser => "Error creating user"@,
            Message::InvalidCredentials => "Invalid credentials"@,
            Message::ProductAdded => "Product added successfully"@,
            Message::ErrorAddingProduct => "Error adding product"@,
            Message::ErrorRetrievingProducts => "Error retrieving products"@,
            Message::InvalidProductId => "Invalid product ID format"@,
            Message::ProductUpdated => "Product updated successfully"@,
            Message::ProductNotFound => "Product not found"@,
            Message::ErrorUpdatingProduct => "Error updating product"@,
            Message::ProductDeleted => "Product deleted successfully"@,
            Message::ErrorDeletingProduct => "Error deleting product"@,
            Message::ProductConversionFailed => "Failed to convert document to Product"@,
            Message::ErrorRetrievingProduct => "Error retrieving product"@,
            Message::InvalidToken => "Invalid token"@,
            Message::UserNotFound => "User not found"@,
            Message::InvalidAuthorizationFormat => "Invalid Authorization header format"@,
            Message::MissingAuthorization => "Missing Authorization header"@,
            Message::NoChangesMade => "No changes made"@,
            Message::UserUpdated => "User updated successfully"@,
            Message::ErrorUpdatingUser => "Error updating user"@,
        }
    }

    pub fn text(&self) -> (t: &'static str)
        ensures
            t@ == self.text_of(),
    {
        match self {
            Message::EmailInUse => "Email already in use",
            Message::PasswordTooShort => "Password must be at least 8 characters long",
            Message::UserCreated => "User created successfully",
            Message::ErrorCreatingUser => "Error creating user",
            Message::InvalidCredentials => "Invalid credentials",
            Message::ProductAdded => "Product added successfully",
            Message::ErrorAddingProduct => "Error adding product",
            Message::ErrorRetrievingProducts => "Error retrieving products",
            Message::InvalidProductId => "Invalid product ID format",
            Message::ProductUpdated => "Product updated successfully",
            Message::ProductNotFound => "Product not found",
            Message::ErrorUpdatingProduct => "Error updating product",
            Message::ProductDeleted => "Product deleted successfully",
            Message::ErrorDeletingProduct => "Error deleting product",
            Message::ProductConversionFailed => "Failed to convert document to Product",
            Message::ErrorRetrievingProduct => "Error retrieving product",
            Message::InvalidToken => "Invalid token",
            Message::UserNotFound => "User not found",
            Message::InvalidAuthorizationFormat => "Invalid Authorization header format",
            Message::MissingAuthorization => "Missing Authorization header",
            Message::NoChangesMade => "No changes made",
            Message::UserUpdated => "User updated successfully",
            Message::ErrorUpdatingUser => "Error updating user",
        }
    }
}

/// The body of a reply.
#[derive(Debug, PartialEq)]
pub enum Body {
    /// No body.
    Empty,
    /// A plain-text message.
    Text(Message),
    /// The JSON object `{"success": true}`.
    SuccessFlag,
    /// The JSON object `{"success": true, "cart": ..}` with the cart record that was found.
    CartFound(mongodb::bson::Document),
    /// The JSON object `{"success": false, "message": "Cart not found"}`.
    CartMissing,
    /// A JSON list of products.
    Products(Vec<Product>),
    /// One product as JSON.
    Product(Product),
    /// One user as JSON.
    User(User),
}

/// A reply: its status and its body.
#[derive(Debug, PartialEq)]
pub struct Reply {
    pub status: Status,
    pub body: Body,
}

/// The reply with the given status and plain-text message.
pub open spec fn text_reply(status: Status, message: Message) -> Reply {
    Reply { status, body: Body::Text(message) }
}

impl Reply {
    pub fn text(status: Status, message: Message) -> (r: Reply)
        ensures
            r == text_reply(status, message),
    {
        Reply { status, body: Body::Text(message) }
    }
}

} // verus!
