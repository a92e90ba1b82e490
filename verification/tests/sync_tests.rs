use pos_terminal::model::{CloudStruct, Entity, PaymentMethod, ProductUpdate, SyncInfo, Transaction};
use pos_terminal::sql::{Param, Statement};
use pos_terminal::sync::{
    failure_text, success_text, SyncAction, SyncEvent, SyncSession, SyncStep, SyncTransition,
    CLEAR_PRODUCT_UPDATES, CLOUD_DELETE_PRODUCT, CLOUD_INSERT_PAYMENT_METHOD, CLOUD_INSERT_PRODUCT,
    CLOUD_OVERWRITE_PRODUCT, CLOUD_UPDATE_ENTITY, MARK_TRANSACTION_SYNCED,
};

fn account(id: &str, terminal: &str, methods: Option<Vec<PaymentMethod>>) -> Entity {
    Entity {
        _id: id.to_string(),
        username: "shop".to_string(),
        businessName: "Corner Shop".to_string(),
        email: "shop@example.com".to_string(),
        phone: "555".to_string(),
        message: "Thanks".to_string(),
        password: "pw".to_string(),
        address: "1 Main St".to_string(),
        terminal: terminal.to_string(),
        createdAt: "2024-01-01".to_string(),
        updatedAt: "2024-02-01".to_string(),
        __v: 0,
        printSilently: true,
        syncTime: 15,
        terminal_count: 2,
        paymentMethods: methods,
    }
}

fn cash() -> PaymentMethod {
    PaymentMethod { name: "Cash".to_string(), hidden: false, _id: "pm1".to_string() }
}

fn change(kind: Option<&str>, id: &str) -> ProductUpdate {
    ProductUpdate {
        entity_id: "e1".to_string(),
        _id: Some(id.to_string()),
        change_type: kind.map(|k| k.to_string()),
        origin: Some("T1".to_string()),
        createdAt: None,
        updatedAt: None,
        update_id: Some(3),
        category: Some("drinks".to_string()),
        product_id: Some(format!("p-{}", id)),
        quantity: 2.5f32.to_bits(),
        profit: None,
        total_profit: Some(1.0f32.to_bits()),
        quantity_sold: None,
        reorderLimit: None,
        cost_price: Some(3.0f32.to_bits()),
        sell_price: Some(4.0f32.to_bits()),
        name: Some("Cola".to_string()),
        expiry_date: None,
        barcode: Some("123".to_string()),
        isArchived: Some(false),
    }
}

fn sale(cloud_id: &str, row: i32) -> Transaction {
    Transaction {
        _id: Some(cloud_id.to_string()),
        createdAt: None,
        discount: 0,
        entityId: "e1".to_string(),
        invoiceNumber: "INV-1".to_string(),
        items: vec![],
        mop: "cash".to_string(),
        profit: 0,
        staff: "admin".to_string(),
        staffId: 1,
        terminal: "T1".to_string(),
        total: 0,
        change: 0,
        transaction_id: Some(row),
        is_synced: Some(false),
        customer: None,
        payments: None,
    }
}

fn expect_continue(t: SyncTransition) -> (SyncSession, SyncAction) {
    match t {
        SyncTransition::Continue(s, a) => (s, a),
        _ => panic!("the exchange ended early"),
    }
}

fn expect_statement(a: SyncAction) -> Statement {
    match a {
        SyncAction::Execute(st) => st,
        _ => panic!("expected a statement"),
    }
}

fn expect_failure(t: SyncTransition) -> SyncInfo {
    match t {
        SyncTransition::Finished(Err(info)) => info,
        _ => panic!("expected a failed exchange"),
    }
}

fn started(local_updates: usize) -> SyncSession {
    let local: Vec<ProductUpdate> = (0..local_updates).map(|i| change(Some("sale"), &i.to_string())).collect();
    let (session, _) = SyncSession::begin(account("e1", "T1", None), local, vec![], vec![]);
    session
}

#[test]
fn upload_carries_the_local_changes() {
    let local = vec![change(Some("sale"), "a"), change(Some("refund"), "b")];
    let (session, upload) = SyncSession::begin(account("e1", "T7", None), local.clone(), vec![sale("c", 1)], vec![]);
    assert_eq!(upload.productUpdates, local);
    assert_eq!(upload.transactions.len(), 1);
    assert!(upload.transactionUpdates.is_empty());
    assert_eq!(upload.entity_id, "e1");
    assert_eq!(upload.terminal, "T7");
    assert_eq!(session.info.localUpdates, 2);
    assert_eq!(session.info.cloudUpdates, 0);
    assert!(!session.info.status);
    assert_eq!(session.info.message, "Update failed");
    assert!(matches!(session.step, SyncStep::AwaitPush));
}

#[test]
fn successful_exchange_applies_everything_in_order() {
    let session = started(2);
    let (session, action) = expect_continue(session.step(SyncEvent::Pushed(Ok(()))));
    assert!(matches!(action, SyncAction::OpenDatabase));
    let (session, action) = expect_continue(session.step(SyncEvent::DatabaseOpened(Ok(()))));
    assert!(matches!(action, SyncAction::ReadCloudReply));
    let cloud = CloudStruct {
        productUpdates: vec![change(Some("new"), "n"), change(Some("delete"), "d"), change(Some("price"), "o")],
        transactions: vec![sale("cloud-9", 9)],
        entity: account("e1", "T1", Some(vec![cash()])),
    };
    let (session, action) = expect_continue(session.step(SyncEvent::CloudReply(Ok(cloud.clone()))));
    match action {
        SyncAction::ClearAndConfirm(plan, reply) => {
            assert_eq!(reply, cloud);
            assert_eq!(plan.len(), 2);
            assert_eq!(plan[0].sql, CLEAR_PRODUCT_UPDATES);
            assert!(plan[0].params.is_empty());
            assert_eq!(plan[1].sql, MARK_TRANSACTION_SYNCED);
            assert_eq!(
                plan[1].params,
                vec![Param::Text("cloud-9".to_string()), Param::Integer(9), Param::Text("T1".to_string())]
            );
        },
        _ => panic!("expected the clearing and confirmation"),
    }
    assert_eq!(session.info.cloudUpdates, 3);
    let (session, action) = expect_continue(session.step(SyncEvent::Confirmed(Ok(()))));
    let st = expect_statement(action);
    assert_eq!(st.sql, CLOUD_INSERT_PRODUCT);
    assert_eq!(st.params.len(), 15);
    assert_eq!(st.params[0], Param::Text("n".to_string()));
    assert_eq!(st.params[2], Param::Real(2.5f32.to_bits()));
    assert_eq!(st.params[5], Param::Null);
    assert_eq!(st.params[11], Param::Text("e1".to_string()));
    assert_eq!(st.params[12], Param::Bool(false));
    assert!(session.info.status);
    let (session, action) = expect_continue(session.step(SyncEvent::Executed(Ok(()))));
    let st = expect_statement(action);
    assert_eq!(st.sql, CLOUD_DELETE_PRODUCT);
    assert_eq!(st.params, vec![Param::Text("d".to_string())]);
    let (session, action) = expect_continue(session.step(SyncEvent::Executed(Ok(()))));
    let st = expect_statement(action);
    assert_eq!(st.sql, CLOUD_OVERWRITE_PRODUCT);
    assert_eq!(st.params.len(), 11);
    assert_eq!(st.params[0], Param::Real(2.5f32.to_bits()));
    assert_eq!(st.params[5], Param::Text("Cola".to_string()));
    assert_eq!(st.params[10], Param::Text("p-o".to_string()));
    let (session, action) = expect_continue(session.step(SyncEvent::Executed(Ok(()))));
    let st = expect_statement(action);
    assert_eq!(st.sql, CLOUD_UPDATE_ENTITY);
    assert_eq!(st.params.len(), 12);
    assert_eq!(st.params[0], Param::Text("Corner Shop".to_string()));
    assert_eq!(st.params[9], Param::Bool(true));
    assert_eq!(st.params[10], Param::Integer(15));
    assert_eq!(st.params[11], Param::Text("e1".to_string()));
    let (session, action) = expect_continue(session.step(SyncEvent::Executed(Ok(()))));
    let st = expect_statement(action);
    assert_eq!(st.sql, CLOUD_INSERT_PAYMENT_METHOD);
    assert_eq!(
        st.params,
        vec![Param::Text("pm1".to_string()), Param::Text("Cash".to_string()), Param::Bool(false)]
    );
    match session.step(SyncEvent::Executed(Ok(()))) {
        SyncTransition::Finished(Ok(info)) => {
            assert!(info.status);
            assert_eq!(info.localUpdates, 2);
            assert_eq!(info.cloudUpdates, 3);
            assert_eq!(info.message, "Synchronization Successful\n3 cloud Updates\n2 Local Updates");
            assert_eq!(info.entity.paymentMethods, Some(vec![cash()]));
        },
        _ => panic!("expected success"),
    }
}

#[test]
fn empty_reply_goes_straight_to_the_account() {
    let session = started(0);
    let (session, _) = expect_continue(session.step(SyncEvent::Pushed(Ok(()))));
    let (session, _) = expect_continue(session.step(SyncEvent::DatabaseOpened(Ok(()))));
    let cloud = CloudStruct { productUpdates: vec![], transactions: vec![], entity: account("e1", "T1", Some(vec![])) };
    let (session, action) = expect_continue(session.step(SyncEvent::CloudReply(Ok(cloud))));
    match action {
        SyncAction::ClearAndConfirm(plan, _) => assert_eq!(plan.len(), 1),
        _ => panic!("expected the clearing and confirmation"),
    }
    let (session, action) = expect_continue(session.step(SyncEvent::Confirmed(Ok(()))));
    assert_eq!(expect_statement(action).sql, CLOUD_UPDATE_ENTITY);
    match session.step(SyncEvent::Executed(Ok(()))) {
        SyncTransition::Finished(Ok(info)) => {
            assert_eq!(info.message, "Synchronization Successful\n0 cloud Updates\n0 Local Updates");
        },
        _ => panic!("expected success"),
    }
}

#[test]
fn failed_upload_reports_the_error() {
    let info = expect_failure(started(4).step(SyncEvent::Pushed(Err("connection refused".to_string()))));
    assert_eq!(info.message, "Sync failed, connection refused");
    assert_eq!(info.localUpdates, 0);
    assert_eq!(info.cloudUpdates, 0);
    assert!(!info.status);
    assert_eq!(info.entity._id, "e1");
}

#[test]
fn failed_store_or_reply_reports_the_error() {
    let (s, _) = expect_continue(started(1).step(SyncEvent::Pushed(Ok(()))));
    let info = expect_failure(s.step(SyncEvent::DatabaseOpened(Err("locked".to_string()))));
    assert_eq!(info.message, "Sync failed, locked");
    let (s, _) = expect_continue(started(1).step(SyncEvent::Pushed(Ok(()))));
    let (s, _) = expect_continue(s.step(SyncEvent::DatabaseOpened(Ok(()))));
    let info = expect_failure(s.step(SyncEvent::CloudReply(Err("bad json".to_string()))));
    assert_eq!(info.message, "Sync failed, bad json");
    assert_eq!(info.localUpdates, 0);
}

#[test]
fn failure_after_confirmation_keeps_the_success_flag() {
    let (s, _) = expect_continue(started(1).step(SyncEvent::Pushed(Ok(()))));
    let (s, _) = expect_continue(s.step(SyncEvent::DatabaseOpened(Ok(()))));
    let cloud = CloudStruct {
        productUpdates: vec![change(Some("new"), "n")],
        transactions: vec![],
        entity: account("e2", "T1", Some(vec![])),
    };
    let (s, _) = expect_continue(s.step(SyncEvent::CloudReply(Ok(cloud))));
    let (s, _) = expect_continue(s.step(SyncEvent::Confirmed(Ok(()))));
    let info = expect_failure(s.step(SyncEvent::Executed(Err("constraint".to_string()))));
    assert!(info.status);
    assert_eq!(info.cloudUpdates, 0);
    assert_eq!(info.localUpdates, 0);
    assert_eq!(info.message, "Sync failed, constraint");
    assert_eq!(info.entity._id, "e2");
}

#[test]
fn failed_confirmation_reports_the_error() {
    let (s, _) = expect_continue(started(1).step(SyncEvent::Pushed(Ok(()))));
    let (s, _) = expect_continue(s.step(SyncEvent::DatabaseOpened(Ok(()))));
    let cloud = CloudStruct { productUpdates: vec![], transactions: vec![], entity: account("e2", "T1", None) };
    let (s, _) = expect_continue(s.step(SyncEvent::CloudReply(Ok(cloud))));
    let info = expect_failure(s.step(SyncEvent::Confirmed(Err("timeout".to_string()))));
    assert!(!info.status);
    assert_eq!(info.message, "Sync failed, timeout");
}

#[test]
fn update_without_change_type_stops_the_exchange() {
    let (s, _) = expect_continue(started(0).step(SyncEvent::Pushed(Ok(()))));
    let (s, _) = expect_continue(s.step(SyncEvent::DatabaseOpened(Ok(()))));
    let cloud = CloudStruct {
        productUpdates: vec![change(Some("new"), "n"), change(None, "x")],
        transactions: vec![],
        entity: account("e1", "T1", Some(vec![])),
    };
    let (s, _) = expect_continue(s.step(SyncEvent::CloudReply(Ok(cloud))));
    let (s, _) = expect_continue(s.step(SyncEvent::Confirmed(Ok(()))));
    assert!(matches!(s.step(SyncEvent::Executed(Ok(()))), SyncTransition::MissingChangeType));
}

#[test]
fn account_without_payment_methods_stops_the_exchange() {
    let (s, _) = expect_continue(started(0).step(SyncEvent::Pushed(Ok(()))));
    let (s, _) = expect_continue(s.step(SyncEvent::DatabaseOpened(Ok(()))));
    let cloud = CloudStruct { productUpdates: vec![], transactions: vec![], entity: account("e1", "T1", None) };
    let (s, _) = expect_continue(s.step(SyncEvent::CloudReply(Ok(cloud))));
    let (s, _) = expect_continue(s.step(SyncEvent::Confirmed(Ok(()))));
    assert!(matches!(s.step(SyncEvent::Executed(Ok(()))), SyncTransition::MissingPaymentMethods));
}

#[test]
fn messages_are_composed_exactly() {
    assert_eq!(success_text(-1, 12), "Synchronization Successful\n-1 cloud Updates\n12 Local Updates");
    assert_eq!(failure_text(&"x".to_string()), "Sync failed, x");
}
