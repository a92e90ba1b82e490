//! Field-by-field copies of records, each proved equal to its original.
//!
//! A record that holds a list is compared by its view, in which each list is a
//! sequence; the others are compared as values.

use vstd::prelude::*;
use crate::loader::{transaction_views, TransactionView};
use crate::model::{CloudStruct, Entity, Item, Payment, PaymentMethod, Product, ProductUpdate, Transaction};

verus! {

/// The business account with its payment methods as a sequence.
pub struct EntityView {
    pub _id: String,
    pub username: String,
    pub businessName: String,
    pub email: String,
    pub phone: String,
    pub message: String,
    pub password: String,
    pub address: String,
    pub terminal: String,
    pub createdAt: String,
    pub updatedAt: String,
    pub __v: i32,
    pub printSilently: bool,
    pub syncTime: i32,
    pub terminal_count: i32,
    pub paymentMethods: Option<Seq<PaymentMethod>>,
}

impl View for Entity {
    type V = EntityView;

    open spec fn view(&self) -> EntityView {
        EntityView {
            _id: self._id,
            username: self.username,
            businessName: self.businessName,
            email: self.email,
            phone: self.phone,
            message: self.message,
            password: self.password,
            address: self.address,
            terminal: self.terminal,
            createdAt: self.createdAt,
            updatedAt: self.updatedAt,
            __v: self.__v,
            printSilently: self.printSilently,
            syncTime: self.syncTime,
            terminal_count: self.terminal_count,
            paymentMethods: match self.paymentMethods {
                Some(v) => Some(v@),
                None => None,
            },
        }
    }
}

/// The cloud's reply with every list in it as a sequence.
pub struct ReplyView {
    pub productUpdates: Seq<ProductUpdate>,
    pub transactions: Seq<TransactionView>,
    pub entity: EntityView,
}

pub open spec fn reply_view(c: CloudStruct) -> ReplyView {
    ReplyView {
        productUpdates: c.productUpdates@,
        transactions: transaction_views(c.transactions@),
        entity: c.entity@,
    }
}

pub fn copy_text(s: &Option<String>) -> (r: Option<String>)
    ensures
        r == *s,
{
    match s {
        Some(t) => Some(t.clone()),
        None => None,
    }
}

pub fn copy_payment_method(m: &PaymentMethod) -> (r: PaymentMethod)
    ensures
        r == *m,
{
    PaymentMethod { name: m.name.clone(), hidden: m.hidden, _id: m._id.clone() }
}

pub fn copy_payment(p: &Payment) -> (r: Payment)
    ensures
        r == *p,
{
    Payment {
        name: p.name.clone(),
        value: p.value,
        transactionId: p.transactionId,
        payment_method_id: p.payment_method_id.clone(),
    }
}

pub fn copy_product(p: &Product) -> (r: Product)
    ensures
        r == *p,
{
    Product {
        _id: copy_text(&p._id),
        name: copy_text(&p.name),
        quantity: p.quantity,
        category: copy_text(&p.category),
        barcode: copy_text(&p.barcode),
        reorderLimit: p.reorderLimit,
        sell_price: p.sell_price,
        cost_price: p.cost_price,
        expiry_date: copy_text(&p.expiry_date),
        total_profit: p.total_profit,
        quantity_sold: p.quantity_sold,
        refunded_quantity: p.refunded_quantity,
        refunded_amount: p.refunded_amount,
        entityId: copy_text(&p.entityId),
        isArchived: p.isArchived,
        isBalanced: p.isBalanced,
        createdAt: copy_text(&p.createdAt),
        updatedAt: copy_text(&p.updatedAt),
    }
}

pub fn copy_item(i: &Item) -> (r: Item)
    ensures
        r == *i,
{
    Item {
        quantity: i.quantity,
        item_id: i.item_id,
        _id: copy_text(&i._id),
        name: i.name.clone(),
        discount: i.discount,
        sell_price: i.sell_price,
        profit: i.profit,
        total: i.total,
        product: match &i.product {
            Some(p) => Some(copy_product(p)),
            None => None,
        },
        product_id: i.product_id.clone(),
    }
}

pub fn copy_product_update(u: &ProductUpdate) -> (r: ProductUpdate)
    ensures
        r == *u,
{
    ProductUpdate {
        entity_id: u.entity_id.clone(),
        _id: copy_text(&u._id),
        change_type: copy_text(&u.change_type),
        origin: copy_text(&u.origin),
        createdAt: copy_text(&u.createdAt),
        updatedAt: copy_text(&u.updatedAt),
        update_id: u.update_id,
        category: copy_text(&u.category),
        product_id: copy_text(&u.product_id),
        quantity: u.quantity,
        profit: u.profit,
        total_profit: u.total_profit,
        quantity_sold: u.quantity_sold,
        reorderLimit: u.reorderLimit,
        cost_price: u.cost_price,
        sell_price: u.sell_price,
        name: copy_text(&u.name),
        expiry_date: copy_text(&u.expiry_date),
        barcode: copy_text(&u.barcode),
        isArchived: u.isArchived,
    }
}

pub fn copy_payment_methods(v: &Vec<PaymentMethod>) -> (r: Vec<PaymentMethod>)
    ensures
        r@ == v@,
{
    let mut r: Vec<PaymentMethod> = Vec::new();
    for k in 0..v.len()
        invariant
            r@ == v@.subrange(0, k as int),
    {
        r.push(copy_payment_method(&v[k]));
    }
    r
}

pub fn copy_payments(v: &Vec<Payment>) -> (r: Vec<Payment>)
    ensures
        r@ == v@,
{
    let mut r: Vec<Payment> = Vec::new();
    for k in 0..v.len()
        invariant
            r@ == v@.subrange(0, k as int),
    {
        r.push(copy_payment(&v[k]));
    }
    r
}

pub fn copy_items(v: &Vec<Item>) -> (r: Vec<Item>)
    ensures
        r@ == v@,
{
    let mut r: Vec<Item> = Vec::new();
    for k in 0..v.len()
        invariant
            r@ == v@.subrange(0, k as int),
    {
        r.push(copy_item(&v[k]));
    }
    r
}

pub fn copy_product_updates(v: &Vec<ProductUpdate>) -> (r: Vec<ProductUpdate>)
    ensures
        r@ == v@,
{
    let mut r: Vec<ProductUpdate> = Vec::new();
    for k in 0..v.len()
        invariant
            r@ == v@.subrange(0, k as int),
    {
        r.push(copy_product_update(&v[k]));
    }
    r
}

pub fn copy_entity(e: &Entity) -> (r: Entity)
    ensures
        r@ == e@,
{
    Entity {
        _id: e._id.clone(),
        username: e.username.clone(),
        businessName: e.businessName.clone(),
        email: e.email.clone(),
        phone: e.phone.clone(),
        message: e.message.clone(),
        password: e.password.clone(),
        address: e.address.clone(),
        terminal: e.terminal.clone(),
        createdAt: e.createdAt.clone(),
        updatedAt: e.updatedAt.clone(),
        __v: e.__v,
        printSilently: e.printSilently,
        syncTime: e.syncTime,
        terminal_count: e.terminal_count,
        paymentMethods: match &e.paymentMethods {
            Some(v) => Some(copy_payment_methods(v)),
            None => None,
        },
    }
}

pub fn copy_transaction(t: &Transaction) -> (r: Transaction)
    ensures
        r@ == t@,
{
    Transaction {
        _id: copy_text(&t._id),
        createdAt: copy_text(&t.createdAt),
        discount: t.discount,
        entityId: t.entityId.clone(),
        invoiceNumber: t.invoiceNumber.clone(),
        items: copy_items(&t.items),
        mop: t.mop.clone(),
        profit: t.profit,
        staff: t.staff.clone(),
        staffId: t.staffId,
        terminal: t.terminal.clone(),
        total: t.total,
        change: t.change,
        transaction_id: t.transaction_id,
        is_synced: t.is_synced,
        customer: t.customer,
        payments: match &t.payments {
            Some(v) => Some(copy_payments(v)),
            None => None,
        },
    }
}

pub fn copy_transactions(v: &Vec<Transaction>) -> (r: Vec<Transaction>)
    ensures
        transaction_views(r@) == transaction_views(v@),
{
    let mut r: Vec<Transaction> = Vec::new();
    for k in 0..v.len()
        invariant
            r@.len() == k,
            forall|j: int| 0 <= j < k ==> (#[trigger] r@[j])@ == v@[j]@,
    {
        r.push(copy_transaction(&v[k]));
    }
    assert(transaction_views(r@) =~= transaction_views(v@));
    r
}

/// A copy of the cloud's reply, equal to it list by list.
pub fn copy_reply(c: &CloudStruct) -> (r: CloudStruct)
    ensures
        reply_view(r) == reply_view(*c),
{
    CloudStruct {
        productUpdates: copy_product_updates(&c.productUpdates),
        transactions: copy_transactions(&c.transactions),
        entity: copy_entity(&c.entity),
    }
}

} // verus!
