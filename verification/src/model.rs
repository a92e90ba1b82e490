//! The records the terminal stores locally and exchanges with the cloud.
//!
//! Amounts and quantities are single-precision floats in the wire format; the
//! library carries each one as the IEEE-754 bit pattern of that `f32`
//! ([`F32Bits`]) and never does arithmetic on it.

use vstd::prelude::*;

verus! {

/// The bit pattern of an `f32` (what `f32::to_bits` returns).
pub type F32Bits = u32;

/// The business account this terminal belongs to.
#[derive(Clone, Debug, PartialEq)]
pub struct Entity {
    pub _id: String,
    pub username: String,
    pub businessName: String,
    pub email: String,
    pub phone: String,
    pub message: String,
    pub password: String,
    pub address: String,
    pub terminal: String,
    pub createdAt: String,
    pub updatedAt: String,
    pub __v: i32,
    pub printSilently: bool,
    pub syncTime: i32,
    pub terminal_count: i32,
    pub paymentMethods: Option<Vec<PaymentMethod>>,
}

/// A way of paying that the business accepts.
#[derive(Clone, Debug, PartialEq)]
pub struct PaymentMethod {
    pub name: String,
    pub hidden: bool,
    pub _id: String,
}

/// A stock item.
#[derive(Clone, Debug, PartialEq)]
pub struct Product {
    pub _id: Option<String>,
    pub name: Option<String>,
    pub quantity: F32Bits,
    pub category: Option<String>,
    pub barcode: Option<String>,
    pub reorderLimit: Option<F32Bits>,
    pub sell_price: F32Bits,
    pub cost_price: F32Bits,
    pub expiry_date: Option<String>,
    pub total_profit: Option<F32Bits>,
    pub quantity_sold: Option<F32Bits>,
    pub refunded_quantity: Option<F32Bits>,
    pub refunded_amount: Option<F32Bits>,
    pub entityId: Option<String>,
    pub isArchived: bool,
    pub isBalanced: bool,
    pub createdAt: Option<String>,
    pub updatedAt: Option<String>,
}

/// What the cloud answers when a terminal is first registered.
#[derive(Clone, Debug, PartialEq)]
pub struct LoadEntity {
    pub entity: Entity,
    pub products: Vec<Product>,
}

/// A sale.
#[derive(Clone, Debug, PartialEq)]
pub struct Transaction {
    pub _id: Option<String>,
    pub createdAt: Option<String>,
    pub discount: F32Bits,
    pub entityId: String,
    pub invoiceNumber: String,
    pub items: Vec<Item>,
    pub mop: String,
    pub profit: F32Bits,
    pub staff: String,
    pub staffId: i32,
    pub terminal: String,
    pub total: F32Bits,
    pub change: F32Bits,
    pub transaction_id: Option<i32>,
    pub is_synced: Option<bool>,
    pub customer: Option<i32>,
    pub payments: Option<Vec<Payment>>,
}

/// One line of a sale.
#[derive(Clone, Debug, PartialEq)]
pub struct Item {
    pub quantity: F32Bits,
    pub item_id: Option<i32>,
    pub _id: Option<String>,
    pub name: String,
    pub discount: F32Bits,
    pub sell_price: F32Bits,
    pub profit: F32Bits,
    pub total: F32Bits,
    pub product: Option<Product>,
    pub product_id: String,
}

/// A member of staff who can sign in at the terminal.
#[derive(Clone, Debug, PartialEq)]
pub struct Staff {
    pub staffId: i32,
    pub username: String,
    pub name: String,
    pub surname: String,
    pub position: String,
}

/// A change to a stored collection.
#[derive(Clone, Debug, PartialEq)]
pub struct Update {
    pub update_Id: i32,
    pub collection: String,
    pub collection_Id: String,
    pub quantity: F32Bits,
    pub profit: F32Bits,
    pub is_refund: bool,
    pub terminal: i32,
    pub entity_id: String,
}

/// A change to a product, recorded locally or sent down by the cloud.
#[derive(Clone, Debug, PartialEq)]
pub struct ProductUpdate {
    pub entity_id: String,
    pub _id: Option<String>,
    pub change_type: Option<String>,
    pub origin: Option<String>,
    pub createdAt: Option<String>,
    pub updatedAt: Option<String>,
    pub update_id: Option<i32>,
    pub category: Option<String>,
    pub product_id: Option<String>,
    pub quantity: F32Bits,
    pub profit: Option<F32Bits>,
    pub total_profit: Option<F32Bits>,
    pub quantity_sold: Option<F32Bits>,
    pub reorderLimit: Option<F32Bits>,
    pub cost_price: Option<F32Bits>,
    pub sell_price: Option<F32Bits>,
    pub name: Option<String>,
    pub expiry_date: Option<String>,
    pub barcode: Option<String>,
    pub isArchived: Option<bool>,
}

/// A refund recorded locally, waiting to be sent to the cloud.
#[derive(Clone, Debug, PartialEq)]
pub struct TransactionUpdate {
    pub entity_id: String,
    pub id: i32,
    pub transaction_id: i32,
    pub origin: String,
    pub createdAt: String,
    pub cloud_id: String,
}

/// One line of a refunded sale.
#[derive(Clone, Debug, PartialEq)]
pub struct TransactionUpdateDetails {
    pub product_id: String,
    pub quantity: F32Bits,
    pub profit: F32Bits,
    pub discount: F32Bits,
    pub total: F32Bits,
}

/// What the terminal sends up when it synchronizes.
#[derive(Clone, Debug, PartialEq)]
pub struct SynchronizationStruct {
    pub productUpdates: Vec<ProductUpdate>,
    pub transactionUpdates: Vec<TransactionUpdate>,
    pub transactions: Vec<Transaction>,
    pub entity_id: String,
    pub terminal: String,
}

/// What the cloud sends down in answer to a synchronization.
#[derive(Clone, Debug, PartialEq)]
pub struct CloudStruct {
    pub productUpdates: Vec<ProductUpdate>,
    pub transactions: Vec<Transaction>,
    pub entity: Entity,
}

/// The outcome of a synchronization, shown to the user.
#[derive(Clone, Debug, PartialEq)]
pub struct SyncInfo {
    pub localUpdates: i32,
    pub cloudUpdates: i32,
    pub status: bool,
    pub message: String,
    pub entity: Entity,
}

/// A customer with a loyalty wallet.
#[derive(Clone, Debug, PartialEq)]
pub struct Customer {
    pub firstName: String,
    pub lastName: String,
    pub fullName: String,
    pub phone: String,
    pub customerId: i32,
    pub wallet: F32Bits,
    pub totalRevenue: F32Bits,
}

/// One payment towards a sale.
#[derive(Clone, Debug, PartialEq)]
pub struct Payment {
    pub name: String,
    pub value: F32Bits,
    pub transactionId: Option<i32>,
    pub payment_method_id: String,
}

/// The error answered to the user interface by the customer commands.
#[derive(Clone, Debug, PartialEq)]
pub struct ApiError {
    pub message: String,
}

} // verus!
