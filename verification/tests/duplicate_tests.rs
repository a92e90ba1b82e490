use pos_terminal::duplicate::{copy_entity, copy_reply, copy_transaction};
use pos_terminal::loader::{listing_query, Listing, SEARCH_TRANSACTIONS, SELECT_TRANSACTIONS_SINCE, SELECT_UNSYNCED_TRANSACTIONS};
use pos_terminal::model::{CloudStruct, Entity, Item, Payment, PaymentMethod, Product, ProductUpdate, Transaction};
use pos_terminal::sql::Param;

fn account() -> Entity {
    Entity {
        _id: "e1".to_string(),
        username: "shop".to_string(),
        businessName: "Corner Shop".to_string(),
        email: "shop@example.com".to_string(),
        phone: "555".to_string(),
        message: "Thanks".to_string(),
        password: "pw".to_string(),
        address: "1 Main St".to_string(),
        terminal: "T1".to_string(),
        createdAt: "2024-01-01".to_string(),
        updatedAt: "2024-02-01".to_string(),
        __v: 4,
        printSilently: false,
        syncTime: 30,
        terminal_count: 3,
        paymentMethods: Some(vec![
            PaymentMethod { name: "Cash".to_string(), hidden: false, _id: "pm1".to_string() },
            PaymentMethod { name: "Card".to_string(), hidden: true, _id: "pm2".to_string() },
        ]),
    }
}

fn stocked() -> Product {
    Product {
        _id: Some("p1".to_string()),
        name: Some("Cola".to_string()),
        quantity: 12.0f32.to_bits(),
        category: None,
        barcode: Some("123".to_string()),
        reorderLimit: Some(2.0f32.to_bits()),
        sell_price: 4.0f32.to_bits(),
        cost_price: 3.0f32.to_bits(),
        expiry_date: None,
        total_profit: Some(9.0f32.to_bits()),
        quantity_sold: Some(9.0f32.to_bits()),
        refunded_quantity: None,
        refunded_amount: None,
        entityId: Some("e1".to_string()),
        isArchived: false,
        isBalanced: true,
        createdAt: Some("2024-01-01".to_string()),
        updatedAt: None,
    }
}

fn full_sale() -> Transaction {
    Transaction {
        _id: Some("cloud-1".to_string()),
        createdAt: Some("2024-03-05 10:00:00".to_string()),
        discount: 0.5f32.to_bits(),
        entityId: "e1".to_string(),
        invoiceNumber: "INV-9".to_string(),
        items: vec![Item {
            quantity: 2.0f32.to_bits(),
            item_id: Some(4),
            _id: None,
            name: "Cola".to_string(),
            discount: 0,
            sell_price: 4.0f32.to_bits(),
            profit: 2.0f32.to_bits(),
            total: 8.0f32.to_bits(),
            product: Some(stocked()),
            product_id: "p1".to_string(),
        }],
        mop: "cash".to_string(),
        profit: 2.0f32.to_bits(),
        staff: "ann".to_string(),
        staffId: 2,
        terminal: "T1".to_string(),
        total: 8.0f32.to_bits(),
        change: 2.0f32.to_bits(),
        transaction_id: Some(9),
        is_synced: Some(true),
        customer: Some(5),
        payments: Some(vec![Payment {
            name: "Cash".to_string(),
            value: 10.0f32.to_bits(),
            transactionId: Some(9),
            payment_method_id: "pm1".to_string(),
        }]),
    }
}

fn update() -> ProductUpdate {
    ProductUpdate {
        entity_id: "e1".to_string(),
        _id: Some("u1".to_string()),
        change_type: Some("new".to_string()),
        origin: None,
        createdAt: Some("2024-03-05".to_string()),
        updatedAt: None,
        update_id: Some(7),
        category: None,
        product_id: Some("p1".to_string()),
        quantity: 1.0f32.to_bits(),
        profit: Some(0.5f32.to_bits()),
        total_profit: None,
        quantity_sold: None,
        reorderLimit: None,
        cost_price: None,
        sell_price: Some(4.0f32.to_bits()),
        name: Some("Cola".to_string()),
        expiry_date: None,
        barcode: None,
        isArchived: Some(false),
    }
}

#[test]
fn copied_account_equals_the_original() {
    let e = account();
    assert_eq!(copy_entity(&e), e);
    let mut bare = account();
    bare.paymentMethods = None;
    assert_eq!(copy_entity(&bare), bare);
}

#[test]
fn copied_sale_keeps_lines_products_and_payments() {
    let t = full_sale();
    let c = copy_transaction(&t);
    assert_eq!(c, t);
    assert_eq!(c.items[0].product, Some(stocked()));
}

#[test]
fn copied_reply_equals_the_reply() {
    let reply = CloudStruct { productUpdates: vec![update(), update()], transactions: vec![full_sale()], entity: account() };
    assert_eq!(copy_reply(&reply), reply);
    let empty = CloudStruct { productUpdates: vec![], transactions: vec![], entity: account() };
    assert_eq!(copy_reply(&empty), empty);
}

#[test]
fn listing_for_synchronization_loads_payments() {
    let (st, with_payments) = listing_query(&Listing::ForSynchronization);
    assert_eq!(st.sql, SELECT_UNSYNCED_TRANSACTIONS);
    assert!(st.params.is_empty());
    assert!(with_payments);
}

#[test]
fn listing_of_the_day_starts_at_midnight() {
    let (st, with_payments) = listing_query(&Listing::SinceMidnight { year: 2024, month: 3, day: 5 });
    assert_eq!(st.sql, SELECT_TRANSACTIONS_SINCE);
    assert_eq!(st.params, vec![Param::Text("2024-03-05 00:00:00".to_string())]);
    assert!(!with_payments);
}

#[test]
fn listing_by_search_matches_anywhere() {
    let (st, with_payments) = listing_query(&Listing::Matching("cola".to_string()));
    assert_eq!(st.sql, SEARCH_TRANSACTIONS);
    assert_eq!(st.params, vec![Param::Text("%cola%".to_string()), Param::Text("%cola%".to_string())]);
    assert!(!with_payments);
}
