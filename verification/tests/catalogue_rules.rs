use shop_backend::controllers::product::{
    collect_product, delete_product_reply, get_product_reply, get_products_reply,
    parse_product_id, update_fields, update_product_reply, CursorItem, Product,
};
use shop_backend::models::cart::{CartItem, CartProduct};
use shop_backend::models::object_id::ObjectId;
use shop_backend::outcome::{DbError, Lookup};
use shop_backend::reply::{Body, Message, Reply, Status};

fn text(status: Status, message: Message) -> Reply {
    Reply { status, body: Body::Text(message) }
}

fn product(title: &str) -> Product {
    Product {
        id: None,
        title: title.to_string(),
        description: "a thing".to_string(),
        price: 250,
        quantity: 3,
        img: "thing.png".to_string(),
    }
}

#[test]
fn object_id_parses_hex_of_either_case() {
    let id = ObjectId::parse_str("507f1f77bcf86cd799439011").unwrap();
    assert_eq!(id.bytes, [0x50, 0x7f, 0x1f, 0x77, 0xbc, 0xf8, 0x6c, 0xd7, 0x99, 0x43, 0x90, 0x11]);
    let upper = ObjectId::parse_str("507F1F77BCF86CD799439011").unwrap();
    assert_eq!(upper, id);
}

#[test]
fn object_id_refuses_other_text() {
    assert_eq!(ObjectId::parse_str("507f1f77bcf86cd79943901"), None);
    assert_eq!(ObjectId::parse_str("507f1f77bcf86cd7994390111"), None);
    assert_eq!(ObjectId::parse_str("507f1f77bcf86cd79943901g"), None);
    assert_eq!(ObjectId::parse_str(""), None);
    assert_eq!(ObjectId::parse_str("507f1f77bcf86cd7994390é"), None);
}

#[test]
fn product_id_parse_replies() {
    assert_eq!(
        parse_product_id("xyz"),
        Err(text(Status::BadRequest, Message::InvalidProductId))
    );
    assert_eq!(
        parse_product_id("000000000000000000000001").map(|id| id.bytes),
        Ok([0, 0, 0, 0, 0, 0, 0, 0, 0, 0, 0, 1])
    );
}

#[test]
fn listing_keeps_only_converted_products() {
    let mut products = Vec::new();
    collect_product(&mut products, CursorItem::Converted(product("a")));
    assert_eq!(products.len(), 1);
    collect_product(&mut products, CursorItem::ConversionFailed);
    assert_eq!(products.len(), 1);
    collect_product(&mut products, CursorItem::RetrievalFailed);
    assert_eq!(products.len(), 1);
    collect_product(&mut products, CursorItem::Converted(product("b")));
    assert_eq!(products, vec![product("a"), product("b")]);
    assert_eq!(
        get_products_reply(Ok(products.clone())),
        Reply { status: Status::Success, body: Body::Products(products) }
    );
    assert_eq!(
        get_products_reply(Err(DbError)),
        text(Status::InternalServerError, Message::ErrorRetrievingProducts)
    );
}

#[test]
fn update_never_writes_the_id() {
    let mut p = product("lamp");
    p.id = ObjectId::parse_str("507f1f77bcf86cd799439011");
    let fields = update_fields(p);
    assert_eq!(fields, product("lamp"));
}

#[test]
fn change_and_removal_replies() {
    assert_eq!(update_product_reply(Ok(1)), text(Status::Success, Message::ProductUpdated));
    assert_eq!(update_product_reply(Ok(0)), text(Status::NotFound, Message::ProductNotFound));
    assert_eq!(
        update_product_reply(Err(DbError)),
        text(Status::InternalServerError, Message::ErrorUpdatingProduct)
    );
    assert_eq!(delete_product_reply(Ok(2)), text(Status::Success, Message::ProductDeleted));
    assert_eq!(delete_product_reply(Ok(0)), text(Status::NotFound, Message::ProductNotFound));
    assert_eq!(
        delete_product_reply(Err(DbError)),
        text(Status::InternalServerError, Message::ErrorDeletingProduct)
    );
}

#[test]
fn reading_one_product_replies() {
    assert_eq!(
        get_product_reply(Lookup::Found(Some(product("a")))),
        Reply { status: Status::Success, body: Body::Product(product("a")) }
    );
    assert_eq!(
        get_product_reply(Lookup::Found(None)),
        text(Status::InternalServerError, Message::ProductConversionFailed)
    );
    assert_eq!(get_product_reply(Lookup::Missing), text(Status::NotFound, Message::ProductNotFound));
    assert_eq!(
        get_product_reply(Lookup::Failed),
        text(Status::InternalServerError, Message::ErrorRetrievingProduct)
    );
}

#[test]
fn new_cart_has_no_id() {
    let user_id = ObjectId { bytes: [7; 12] };
    let line = CartItem { product_id: ObjectId { bytes: [1; 12] }, quantity: 2 };
    let cart = CartProduct::new(user_id, vec![line]);
    assert_eq!(cart.id, None);
    assert_eq!(cart.user_id, user_id);
    assert_eq!(cart.products, vec![line]);
}
