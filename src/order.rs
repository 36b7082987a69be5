use vstd::prelude::*;

verus! {

/// A line of a shopper's cart. Prices are in minor currency units (cents).
pub struct CartItem {
    /// Hex form of the stored identifier; `None` until the line is stored.
    pub id: Option<String>,
    pub user_id: String,
    pub product_id: String,
    pub product_name: String,
    pub product_price: u64,
    pub quantity: i32,
}

/// A placed order. Amounts are in minor currency units (cents), times in
/// milliseconds since the Unix epoch.
pub struct Order {
    pub id: Option<String>,
    pub user_id: String,
    pub items: Vec<OrderItem>,
    pub total_amount: u64,
    /// `"paystack"`, `"opay"` or `"offline"`.
    pub payment_method: String,
    pub payment_reference: Option<String>,
    /// `"pending"`, `"completed"` or `"failed"`.
    pub payment_status: String,
    /// `"pending"`, `"processing"`, `"shipped"`, `"completed"` or `"cancelled"`.
    pub order_status: String,
    pub shipping_address: Option<String>,
    pub created_at: i64,
}

/// One product line of an order, at the price it was bought for.
pub struct OrderItem {
    pub product_id: String,
    pub product_name: String,
    pub quantity: i32,
    pub price: u64,
}

/// A request to put some quantity of a product in the cart.
pub struct AddToCartRequest {
    pub product_id: String,
    pub quantity: i32,
}

/// A request to turn the cart into an order.
pub struct CreateOrderRequest {
    pub payment_method: String,
    pub shipping_address: Option<String>,
}

} // verus!
