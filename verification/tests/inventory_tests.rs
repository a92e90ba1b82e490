use pos_terminal::inventory::{
    clear_products, create_tables, force_update_url, register_entity, registration, store_payment_methods,
    store_product, store_products, CREATE_TABLES, DELETE_ALL_PRODUCTS, INSERT_ENTITY, INSERT_PAYMENT_METHOD,
    INSERT_PRODUCT, entity_lookup, visible_payment_methods, with_payment_methods, SELECT_ENTITY,
    SELECT_VISIBLE_PAYMENT_METHODS,
};
use pos_terminal::model::{Entity, PaymentMethod, Product};
use pos_terminal::sql::Param;

fn account() -> Entity {
    Entity {
        _id: "acc-9".to_string(),
        username: "shop".to_string(),
        businessName: "Corner Shop".to_string(),
        email: "shop@example.com".to_string(),
        phone: "555".to_string(),
        message: "".to_string(),
        password: "pw".to_string(),
        address: "1 Main St".to_string(),
        terminal: "T1".to_string(),
        createdAt: "c".to_string(),
        updatedAt: "u".to_string(),
        __v: 3,
        printSilently: false,
        syncTime: 10,
        terminal_count: 1,
        paymentMethods: None,
    }
}

fn stock(id: &str) -> Product {
    Product {
        _id: Some(id.to_string()),
        name: Some("Tea".to_string()),
        quantity: 5.0f32.to_bits(),
        category: None,
        barcode: Some("42".to_string()),
        reorderLimit: Some(1.0f32.to_bits()),
        sell_price: 2.0f32.to_bits(),
        cost_price: 1.0f32.to_bits(),
        expiry_date: None,
        total_profit: None,
        quantity_sold: Some(0.0f32.to_bits()),
        refunded_quantity: None,
        refunded_amount: None,
        entityId: Some("acc-9".to_string()),
        isArchived: false,
        isBalanced: true,
        createdAt: None,
        updatedAt: Some("u".to_string()),
    }
}

#[test]
fn account_row_binds_its_fields_in_order() {
    let st = register_entity(&account());
    assert_eq!(st.sql, INSERT_ENTITY);
    assert_eq!(
        st.params,
        vec![
            Param::Text("shop".to_string()),
            Param::Text("pw".to_string()),
            Param::Text("shop@example.com".to_string()),
            Param::Text("555".to_string()),
            Param::Text("1 Main St".to_string()),
            Param::Text("T1".to_string()),
            Param::Text("c".to_string()),
            Param::Text("u".to_string()),
            Param::Integer(3),
            Param::Bool(false),
            Param::Integer(10),
            Param::Text("acc-9".to_string()),
            Param::Text("Corner Shop".to_string()),
            Param::Integer(1),
        ]
    );
}

#[test]
fn product_row_binds_every_field() {
    let st = store_product(&stock("p1"));
    assert_eq!(st.sql, INSERT_PRODUCT);
    assert_eq!(
        st.params,
        vec![
            Param::Text("p1".to_string()),
            Param::Text("Tea".to_string()),
            Param::Real(5.0f32.to_bits()),
            Param::Null,
            Param::Text("42".to_string()),
            Param::Real(1.0f32.to_bits()),
            Param::Real(2.0f32.to_bits()),
            Param::Real(1.0f32.to_bits()),
            Param::Null,
            Param::Null,
            Param::Real(0.0f32.to_bits()),
            Param::Null,
            Param::Null,
            Param::Text("acc-9".to_string()),
            Param::Bool(false),
            Param::Bool(true),
            Param::Null,
            Param::Text("u".to_string()),
        ]
    );
}

#[test]
fn registration_stores_the_account_then_the_stock() {
    let plan = registration(&account(), &vec![stock("p1"), stock("p2")]);
    assert_eq!(plan.len(), 3);
    assert_eq!(plan[0].sql, INSERT_ENTITY);
    assert_eq!(plan[1], store_product(&stock("p1")));
    assert_eq!(plan[2], store_product(&stock("p2")));
    assert_eq!(store_products(&vec![]).len(), 0);
}

#[test]
fn payment_methods_are_stored_in_order() {
    let methods = vec![
        PaymentMethod { name: "Cash".to_string(), hidden: false, _id: "a".to_string() },
        PaymentMethod { name: "Voucher".to_string(), hidden: true, _id: "b".to_string() },
    ];
    let plan = store_payment_methods(&methods);
    assert_eq!(plan.len(), 2);
    assert_eq!(plan[1].sql, INSERT_PAYMENT_METHOD);
    assert_eq!(
        plan[1].params,
        vec![Param::Text("b".to_string()), Param::Text("Voucher".to_string()), Param::Bool(true)]
    );
}

#[test]
fn full_stock_comes_from_the_account_address() {
    assert_eq!(force_update_url(&account()), "http://localhost:8000/force_update/acc-9");
    let st = clear_products();
    assert_eq!(st.sql, DELETE_ALL_PRODUCTS);
    assert!(st.params.is_empty());
}

#[test]
fn schema_creates_every_table() {
    let st = create_tables();
    assert_eq!(st.sql, CREATE_TABLES);
    for table in ["entity", "product", "\"transaction\"", "item", "staff", "payment_method", "payment",
        "customer", "product_update", "transaction_update", "transaction_update_details"] {
        assert!(CREATE_TABLES.contains(&format!("CREATE TABLE IF NOT EXISTS {}", table)));
    }
}

#[test]
fn account_lookups_bind_nothing() {
    let st = entity_lookup();
    assert_eq!(st.sql, SELECT_ENTITY);
    assert!(st.params.is_empty());
    let st = visible_payment_methods();
    assert_eq!(st.sql, SELECT_VISIBLE_PAYMENT_METHODS);
    assert!(st.params.is_empty());
}

#[test]
fn account_takes_the_visible_payment_methods() {
    let mut stored = account();
    stored.paymentMethods = None;
    let visible = vec![PaymentMethod { name: "Card".to_string(), hidden: false, _id: "pm2".to_string() }];
    let e = with_payment_methods(stored.clone(), visible.clone());
    assert_eq!(e.paymentMethods, Some(visible));
    assert_eq!(e._id, stored._id);
    assert_eq!(e.businessName, stored.businessName);
}
