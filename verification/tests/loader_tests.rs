use pos_terminal::loader::{
    keep_parsed, like_pattern, product_updates, require_all, search_transactions, transaction_updates,
    unsynced_transactions, LoadAction, LoadEvent, LoadStep, LoadTransition, TransactionLoader,
    SEARCH_TRANSACTIONS, SELECT_ITEMS, SELECT_PAYMENTS, SELECT_PRODUCT, SELECT_PRODUCT_UPDATES,
    SELECT_TRANSACTION_UPDATES, SELECT_UNSYNCED_TRANSACTIONS,
};
use pos_terminal::model::{Item, Payment, Product, Transaction};
use pos_terminal::sql::{Param, Statement};

fn sale(row: i32) -> Transaction {
    Transaction {
        _id: None,
        createdAt: None,
        discount: 0,
        entityId: "e1".to_string(),
        invoiceNumber: format!("INV-{}", row),
        items: vec![],
        mop: "cash".to_string(),
        profit: 0,
        staff: "ann".to_string(),
        staffId: 1,
        terminal: "T1".to_string(),
        total: 0,
        change: 0,
        transaction_id: Some(row),
        is_synced: Some(false),
        customer: None,
        payments: None,
    }
}

fn line(product: &str) -> Item {
    Item {
        quantity: 1.0f32.to_bits(),
        item_id: Some(1),
        _id: None,
        name: product.to_string(),
        discount: 0,
        sell_price: 0,
        profit: 0,
        total: 0,
        product: None,
        product_id: product.to_string(),
    }
}

fn goods(id: &str) -> Product {
    Product {
        _id: Some(id.to_string()),
        name: Some(id.to_string()),
        quantity: 0,
        category: None,
        barcode: None,
        reorderLimit: None,
        sell_price: 0,
        cost_price: 0,
        expiry_date: None,
        total_profit: None,
        quantity_sold: None,
        refunded_quantity: None,
        refunded_amount: None,
        entityId: None,
        isArchived: false,
        isBalanced: false,
        createdAt: None,
        updatedAt: None,
    }
}

fn cash(v: f32) -> Payment {
    Payment { name: "Cash".to_string(), value: v.to_bits(), transactionId: Some(1), payment_method_id: "pm".to_string() }
}

fn lookup(t: LoadTransition) -> (TransactionLoader, LoadAction) {
    match t {
        LoadTransition::Continue(l, a) => (l, a),
        LoadTransition::Done(_) => panic!("loading ended early"),
    }
}

fn statement_of(a: LoadAction) -> Statement {
    match a {
        LoadAction::FetchItems(s) | LoadAction::FetchProduct(s) | LoadAction::FetchPayments(s) => s,
    }
}

#[test]
fn unreadable_rows_are_skipped_in_order() {
    assert_eq!(keep_parsed(vec![Some(1), None, Some(3), None, Some(5)]), vec![1, 3, 5]);
    assert_eq!(keep_parsed::<i32>(vec![None, None]), Vec::<i32>::new());
    assert_eq!(keep_parsed::<i32>(vec![]), Vec::<i32>::new());
}

#[test]
fn all_rows_or_the_first_error() {
    assert_eq!(require_all::<i32>(vec![Ok(1), Ok(2)]), Ok(vec![1, 2]));
    assert_eq!(
        require_all::<i32>(vec![Ok(1), Err("first".to_string()), Err("second".to_string())]),
        Err("first".to_string())
    );
    assert_eq!(require_all::<i32>(vec![]), Ok(vec![]));
}

#[test]
fn no_sales_means_nothing_to_look_up() {
    match TransactionLoader::start(vec![None], true) {
        LoadTransition::Done(Some(ts)) => assert!(ts.is_empty()),
        _ => panic!("expected an empty listing"),
    }
}

#[test]
fn listing_completes_each_sale_with_lines_products_and_payments() {
    let (l, a) = lookup(TransactionLoader::start(vec![Some(sale(1)), None, Some(sale(2))], true));
    let st = statement_of(a);
    assert_eq!(st.sql, SELECT_ITEMS);
    assert_eq!(st.params, vec![Param::Integer(1)]);
    assert!(matches!(l.step, LoadStep::AwaitItems(0)));
    let (l, a) = lookup(l.step(LoadEvent::ItemsFetched(Some(vec![Some(line("p1")), None, Some(line("p2"))]))));
    let st = statement_of(a);
    assert_eq!(st.sql, SELECT_PRODUCT);
    assert_eq!(st.params, vec![Param::Text("p1".to_string())]);
    let (l, a) = lookup(l.step(LoadEvent::ProductFetched(Some(goods("p1")))));
    assert_eq!(statement_of(a).params, vec![Param::Text("p2".to_string())]);
    let (l, a) = lookup(l.step(LoadEvent::ProductFetched(Some(goods("p2")))));
    let st = statement_of(a);
    assert_eq!(st.sql, SELECT_PAYMENTS);
    assert_eq!(st.params, vec![Param::Integer(1)]);
    let (l, a) = lookup(l.step(LoadEvent::PaymentsFetched(Some(vec![cash(5.0)]))));
    assert_eq!(statement_of(a).params, vec![Param::Integer(2)]);
    let (l, a) = lookup(l.step(LoadEvent::ItemsFetched(Some(vec![]))));
    assert_eq!(statement_of(a).sql, SELECT_PAYMENTS);
    match l.step(LoadEvent::PaymentsFetched(Some(vec![]))) {
        LoadTransition::Done(Some(ts)) => {
            assert_eq!(ts.len(), 2);
            assert_eq!(ts[0].invoiceNumber, "INV-1");
            assert_eq!(ts[0].items.len(), 2);
            assert_eq!(ts[0].items[0].product, Some(goods("p1")));
            assert_eq!(ts[0].items[1].product, Some(goods("p2")));
            assert_eq!(ts[0].payments, Some(vec![cash(5.0)]));
            assert_eq!(ts[1].invoiceNumber, "INV-2");
            assert!(ts[1].items.is_empty());
            assert_eq!(ts[1].payments, Some(vec![]));
        },
        _ => panic!("expected a complete listing"),
    }
}

#[test]
fn listing_without_payments_keeps_them_as_read() {
    let (l, _) = lookup(TransactionLoader::start(vec![Some(sale(4))], false));
    let (l, _) = lookup(l.step(LoadEvent::ItemsFetched(Some(vec![Some(line("p9"))]))));
    match l.step(LoadEvent::ProductFetched(Some(goods("p9")))) {
        LoadTransition::Done(Some(ts)) => {
            assert_eq!(ts.len(), 1);
            assert_eq!(ts[0].items[0].product, Some(goods("p9")));
            assert_eq!(ts[0].payments, None);
        },
        _ => panic!("expected a complete listing"),
    }
}

#[test]
fn any_failed_lookup_fails_the_listing() {
    let (l, _) = lookup(TransactionLoader::start(vec![Some(sale(1))], true));
    assert!(matches!(l.step(LoadEvent::ItemsFetched(None)), LoadTransition::Done(None)));
    let (l, _) = lookup(TransactionLoader::start(vec![Some(sale(1))], true));
    let (l, _) = lookup(l.step(LoadEvent::ItemsFetched(Some(vec![Some(line("p1"))]))));
    assert!(matches!(l.step(LoadEvent::ProductFetched(None)), LoadTransition::Done(None)));
    let (l, _) = lookup(TransactionLoader::start(vec![Some(sale(1))], true));
    let (l, _) = lookup(l.step(LoadEvent::ItemsFetched(Some(vec![]))));
    assert!(matches!(l.step(LoadEvent::PaymentsFetched(None)), LoadTransition::Done(None)));
}

#[test]
fn listing_queries() {
    assert_eq!(like_pattern("cola"), "%cola%");
    assert_eq!(like_pattern(""), "%%");
    let st = search_transactions("INV");
    assert_eq!(st.sql, SEARCH_TRANSACTIONS);
    assert_eq!(st.params, vec![Param::Text("%INV%".to_string()), Param::Text("%INV%".to_string())]);
    assert_eq!(unsynced_transactions().sql, SELECT_UNSYNCED_TRANSACTIONS);
    assert_eq!(product_updates().sql, SELECT_PRODUCT_UPDATES);
    assert_eq!(transaction_updates().sql, SELECT_TRANSACTION_UPDATES);
}
