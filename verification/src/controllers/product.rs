//! The product catalogue: listing, reading, changing and removing products.

use vstd::prelude::*;

use crate::models::object_id::{is_object_id_text, object_id_bytes, ObjectId};
use crate::outcome::{DbError, Lookup};
use crate::reply::{text_reply, Body, Message, Reply, Status};

verus! {

/// A product of the catalogue.
#[derive(Clone, Debug, PartialEq)]
pub struct Product {
    /// The product's identifier; none until the database assigns one.
    pub id: Option<ObjectId>,
    pub title: String,
    pub description: String,
    pub price: u32,
    pub quantity: u8,
    pub img: String,
}

/// A request that names one product by its identifier's text.
#[derive(Clone, Debug, PartialEq)]
pub struct ProductRequest {
    pub product_id: String,
}

/// One item that the listing of all products yields.
#[derive(Clone, Debug, PartialEq)]
pub enum CursorItem {
    /// The database could not deliver the record.
    RetrievalFailed,
    /// The record could not be read as a product.
    ConversionFailed,
    /// The record, read as a product.
    Converted(Product),
}

/// The products that a sequence of listing items yields: those that were
/// read, in their order; the others are skipped.
pub open spec fn kept_products(items: Seq<CursorItem>) -> Seq<Product>
    decreases items.len(),
{
    if items.len() == 0 {
        Seq::empty()
    } else {
        let rest = kept_products(items.drop_last());
        match items.last() {
            CursorItem::Converted(p) => rest.push(p),
            _ => rest,
        }
    }
}

/// Takes one more item of the listing into the products collected so far.
pub fn collect_product(products: &mut Vec<Product>, item: CursorItem)
    ensures
        final(products)@ == old(products)@ + kept_products(seq![item]),
        item matches CursorItem::Converted(p) ==> final(products)@ == old(products)@.push(p),
        !(item is Converted) ==> final(products)@ == old(products)@,
{
    let ghost single = seq![item];
    assert(single.drop_last() =~= Seq::<CursorItem>::empty());
    assert(single.last() == item);
    assert(kept_products(Seq::<CursorItem>::empty()) == Seq::<Product>::empty());
    match item {
        CursorItem::Converted(p) => {
            products.push(p);
            assert(kept_products(single) == Seq::<Product>::empty().push(p));
        },
        CursorItem::ConversionFailed => {
            assert(old(products)@ + Seq::<Product>::empty() =~= old(products)@);
        },
        CursorItem::RetrievalFailed => {
            assert(old(products)@ + Seq::<Product>::empty() =~= old(products)@);
        },
    }
}

/// Replies to the listing of all products: an error if the listing could
/// not start, else the products collected.
pub fn get_products_reply(result: Result<Vec<Product>, DbError>) -> (r: Reply)
    ensures
        result matches Ok(ps) ==> r == (Reply { status: Status::Success, body: Body::Products(ps) }),
        result is Err ==> r == text_reply(
            Status::InternalServerError,
            Message::ErrorRetrievingProducts,
        ),
{
    match result {
        Ok(ps) => Reply { status: Status::Success, body: Body::Products(ps) },
        Err(_) => Reply::text(Status::InternalServerError, Message::ErrorRetrievingProducts),
    }
}

/// Reads the identifier of the product that a request names; a text that
/// is not 24 hexadecimal digits is refused.
pub fn parse_product_id(text: &str) -> (r: Result<ObjectId, Reply>)
    ensures
        r is Ok <==> is_object_id_text(text@),
        r matches Ok(id) ==> id.bytes@ == object_id_bytes(text@),
        r matches Err(reply) ==> reply == text_reply(Status::BadRequest, Message::InvalidProductId),
{
    match ObjectId::parse_str(text) {
        Some(id) => Ok(id),
        None => Err(Reply::text(Status::BadRequest, Message::InvalidProductId)),
    }
}

/// The fields that a change of a product writes: all of them but the
/// identifier, which the request body can never change.
pub fn update_fields(product: Product) -> (r: Product)
    ensures
        r.id is None,
        r.title == product.title,
        r.description == product.description,
        r.price == product.price,
        r.quantity == product.quantity,
        r.img == product.img,
{
    Product { id: None, ..product }
}

/// Replies to a change of a product from the number of records the update
/// matched.
pub fn update_product_reply(result: Result<u64, DbError>) -> (r: Reply)
    ensures
        result matches Ok(n) && n > 0 ==> r == text_reply(Status::Success, Message::ProductUpdated),
        result matches Ok(n) && n == 0 ==> r == text_reply(
            Status::NotFound,
            Message::ProductNotFound,
        ),
        result is Err ==> r == text_reply(
            Status::InternalServerError,
            Message::ErrorUpdatingProduct,
        ),
{
    match result {
        Ok(n) => if n > 0 {
            Reply::text(Status::Success, Message::ProductUpdated)
        } else {
            Reply::text(Status::NotFound, Message::ProductNotFound)
        },
        Err(_) => Reply::text(Status::InternalServerError, Message::ErrorUpdatingProduct),
    }
}

/// Replies to the removal of a product from the number of records removed.
pub fn delete_product_reply(result: Result<u64, DbError>) -> (r: Reply)
    ensures
        result matches Ok(n) && n > 0 ==> r == text_reply(Status::Success, Message::ProductDeleted),
        result matches Ok(n) && n == 0 ==> r == text_reply(
            Status::NotFound,
            Message::ProductNotFound,
        ),
        result is Err ==> r == text_reply(
            Status::InternalServerError,
            Message::ErrorDeletingProduct,
        ),
{
    match result {
        Ok(n) => if n > 0 {
            Reply::text(Status::Success, Message::ProductDeleted)
        } else {
            Reply::text(Status::NotFound, Message::ProductNotFound)
        },
        Err(_) => Reply::text(Status::InternalServerError, Message::ErrorDeletingProduct),
    }
}

/// Replies to the reading of one product: the record found, read as a
/// product (`None` when it could not be read as one).
pub fn get_product_reply(found: Lookup<Option<Product>>) -> (r: Reply)
    ensures
        found matches Lookup::Found(Some(p)) ==> r == (Reply {
            status: Status::Success,
            body: Body::Product(p),
        }),
        found matches Lookup::Found(None) ==> r == text_reply(
            Status::InternalServerError,
            Message::ProductConversionFailed,
        ),
        found is Missing ==> r == text_reply(Status::NotFound, Message::ProductNotFound),
        found is Failed ==> r == text_reply(
            Status::InternalServerError,
            Message::ErrorRetrievingProduct,
        ),
{
    match found {
        Lookup::Found(Some(p)) => Reply { status: Status::Success, body: Body::Product(p) },
        Lookup::Found(None) => Reply::text(
            Status::InternalServerError,
            Message::ProductConversionFailed,
        ),
        Lookup::Missing => Reply::text(Status::NotFound, Message::ProductNotFound),
        Lookup::Failed => Reply::text(Status::InternalServerError, Message::ErrorRetrievingProduct),
    }
}

/// The listing keeps every product that was read and nothing else, in
/// order: the products of two runs of items one after the other are the
/// products of the first run followed by those of the second.
pub proof fn lemma_kept_products_concat(a: Seq<CursorItem>, b: Seq<CursorItem>)
    ensures
        kept_products(a + b) == kept_products(a) + kept_products(b),
    decreases b.len(),
{
    if b.len() == 0 {
        assert(a + b =~= a);
        assert(kept_products(a) + kept_products(b) =~= kept_products(a));
    } else {
        lemma_kept_products_concat(a, b.drop_last());
        assert((a + b).drop_last() =~= a + b.drop_last());
        assert((a + b).last() == b.last());
        match b.last() {
            CursorItem::Converted(p) => {
                assert(kept_products(a) + kept_products(b.drop_last()).push(p) =~= (kept_products(a)
                    + kept_products(b.drop_last())).push(p));
            },
            _ => {},
        }
    }
}

/// The listing never yields more products than items.
pub proof fn lemma_kept_products_len(items: Seq<CursorItem>)
    ensures
        kept_products(items).len() <= items.len(),
    decreases items.len(),
{
    if items.len() > 0 {
        lemma_kept_products_len(items.drop_last());
    }
}

} // verus!
