use vstd::prelude::*;
use crate::text::same_text;

verus! {

/// The collection that a configuration key names when the environment sets none.
pub open spec fn default_collection_of(key: Seq<char>) -> Seq<char> {
    if key == "MONGO_PRODUCTS_COLLECTION"@ {
        "products"@
    } else if key == "MONGO_USERS_COLLECTION"@ {
        "users"@
    } else if key == "MONGO_ORDERS_COLLECTION"@ {
        "orders"@
    } else if key == "MONGO_CART_COLLECTION"@ {
        "cart"@
    } else if key == "MONGO_REVIEWS_COLLECTION"@ {
        "reviews"@
    } else {
        "default"@
    }
}

/// The collection that a configuration key names when the environment sets none.
pub fn default_collection_name(key: &str) -> (r: &'static str)
    ensures
        r@ == default_collection_of(key@),
{
    if same_text(key, "MONGO_PRODUCTS_COLLECTION") {
        "products"
    } else if same_text(key, "MONGO_USERS_COLLECTION") {
        "users"
    } else if same_text(key, "MONGO_ORDERS_COLLECTION") {
        "orders"
    } else if same_text(key, "MONGO_CART_COLLECTION") {
        "cart"
    } else if same_text(key, "MONGO_REVIEWS_COLLECTION") {
        "reviews"
    } else {
        "default"
    }
}

} // verus!
