use pos_terminal::model::{Item, Payment, Transaction};
use pos_terminal::sale::{
    credit_customer, delete_sale, log_refund, record_payments, record_sale, refund_lines, refund_records,
    refund_plan, sale_lines, sale_plan, sale_records,
    CREDIT_CUSTOMER, DELETE_TRANSACTION, INSERT_ITEM, INSERT_PAYMENT, INSERT_TRANSACTION,
    LOG_PRODUCT_CHANGE, LOG_REFUND, LOYALTY_RATE, RESTORE_STOCK, SELL_STOCK,
};
use pos_terminal::sql::Param;

fn line(product: &str, quantity: f32, profit: f32) -> Item {
    Item {
        quantity: quantity.to_bits(),
        item_id: None,
        _id: None,
        name: format!("{} name", product),
        discount: 0.5f32.to_bits(),
        sell_price: 3.0f32.to_bits(),
        profit: profit.to_bits(),
        total: 6.0f32.to_bits(),
        product: None,
        product_id: product.to_string(),
    }
}

fn sale_with(items: Vec<Item>, customer: Option<i32>) -> Transaction {
    Transaction {
        _id: Some("cloud-1".to_string()),
        createdAt: None,
        discount: 1.0f32.to_bits(),
        entityId: "e1".to_string(),
        invoiceNumber: "INV-7".to_string(),
        items,
        mop: "cash".to_string(),
        profit: 2.0f32.to_bits(),
        staff: "ann".to_string(),
        staffId: 4,
        terminal: "T1".to_string(),
        total: 12.0f32.to_bits(),
        change: 0.25f32.to_bits(),
        transaction_id: Some(31),
        is_synced: None,
        customer,
        payments: None,
    }
}

#[test]
fn sale_row_binds_its_fields_in_order() {
    let st = record_sale(&sale_with(vec![], Some(8)));
    assert_eq!(st.sql, INSERT_TRANSACTION);
    assert_eq!(
        st.params,
        vec![
            Param::Text("ann".to_string()),
            Param::Integer(4),
            Param::Real(1.0f32.to_bits()),
            Param::Real(2.0f32.to_bits()),
            Param::Real(12.0f32.to_bits()),
            Param::Real(0.25f32.to_bits()),
            Param::Text("INV-7".to_string()),
            Param::Text("T1".to_string()),
            Param::Text("e1".to_string()),
            Param::Text("cash".to_string()),
            Param::Integer(8),
        ]
    );
}

#[test]
fn anonymous_sale_binds_no_customer() {
    let st = record_sale(&sale_with(vec![], None));
    assert_eq!(st.params[10], Param::Null);
}

#[test]
fn each_sold_line_takes_stock_records_and_logs() {
    let t = sale_with(vec![line("p1", 2.0, 1.5), line("p2", 1.0, 0.5)], None);
    let lines = sale_lines(&t, 77);
    assert_eq!(lines.len(), 2);
    let first = &lines[0];
    assert_eq!(first.take_stock.sql, SELL_STOCK);
    assert_eq!(
        first.take_stock.params,
        vec![Param::Real(2.0f32.to_bits()), Param::Real(1.5f32.to_bits()), Param::Text("p1".to_string())]
    );
    assert_eq!(first.record_item.sql, INSERT_ITEM);
    assert_eq!(
        first.record_item.params,
        vec![
            Param::Real(2.0f32.to_bits()),
            Param::Text("p1".to_string()),
            Param::Text("p1 name".to_string()),
            Param::Real(0.5f32.to_bits()),
            Param::Real(3.0f32.to_bits()),
            Param::Real(1.5f32.to_bits()),
            Param::Real(6.0f32.to_bits()),
            Param::Integer(77),
        ]
    );
    assert_eq!(first.log_change.sql, LOG_PRODUCT_CHANGE);
    assert_eq!(
        first.log_change.params,
        vec![
            Param::Text("sale".to_string()),
            Param::Text("T1".to_string()),
            Param::Real(2.0f32.to_bits()),
            Param::Real(1.5f32.to_bits()),
            Param::Text("e1".to_string()),
            Param::Text("p1".to_string()),
        ]
    );
    assert_eq!(lines[1].take_stock.params[2], Param::Text("p2".to_string()));
}

#[test]
fn sale_without_lines_has_no_line_statements() {
    assert!(sale_lines(&sale_with(vec![], None), 1).is_empty());
    assert!(refund_lines(&sale_with(vec![], None)).is_empty());
}

#[test]
fn customer_is_credited_a_quarter_percent() {
    assert_eq!(LOYALTY_RATE, 0.0025f32.to_bits());
    let st = credit_customer(&sale_with(vec![], Some(3)));
    assert_eq!(st.sql, CREDIT_CUSTOMER);
    assert_eq!(
        st.params,
        vec![
            Param::RealScaled { factor: 0.0025f32.to_bits(), value: 12.0f32.to_bits() },
            Param::Real(12.0f32.to_bits()),
            Param::Integer(3),
        ]
    );
}

#[test]
fn payments_are_recorded_against_the_new_row() {
    let payments = vec![
        Payment { name: "Cash".to_string(), value: 10.0f32.to_bits(), transactionId: None, payment_method_id: "pm1".to_string() },
        Payment { name: "Card".to_string(), value: 2.0f32.to_bits(), transactionId: None, payment_method_id: "pm2".to_string() },
    ];
    let plan = record_payments(&payments, 55);
    assert_eq!(plan.len(), 2);
    assert_eq!(plan[0].sql, INSERT_PAYMENT);
    assert_eq!(
        plan[1].params,
        vec![
            Param::Text("Card".to_string()),
            Param::Real(2.0f32.to_bits()),
            Param::Integer(55),
            Param::Text("pm2".to_string()),
        ]
    );
}

#[test]
fn refund_logs_then_deletes_the_sale() {
    let t = sale_with(vec![], None);
    let log = log_refund(&t);
    assert_eq!(log.sql, LOG_REFUND);
    assert_eq!(
        log.params,
        vec![
            Param::Integer(31),
            Param::Text("T1".to_string()),
            Param::Text("e1".to_string()),
            Param::Text("cloud-1".to_string()),
        ]
    );
    let del = delete_sale(&t);
    assert_eq!(del.sql, DELETE_TRANSACTION);
    assert_eq!(del.params, vec![Param::Integer(31)]);
}

#[test]
fn refund_mirrors_the_sale_line_by_line() {
    let t = sale_with(vec![line("p1", 2.0, 1.5), line("p2", 4.0, -0.5)], None);
    let sold = sale_lines(&t, 9);
    let refunded = refund_lines(&t);
    assert_eq!(sold.len(), refunded.len());
    for (s, r) in sold.iter().zip(refunded.iter()) {
        assert_eq!(s.take_stock.sql, SELL_STOCK);
        assert_eq!(r.restore_stock.sql, RESTORE_STOCK);
        assert_eq!(s.take_stock.params, r.restore_stock.params);
        assert_eq!(s.log_change.params[1..], r.log_change.params[1..]);
        assert_eq!(r.log_change.params[0], Param::Text("refund".to_string()));
    }
}

#[test]
fn sale_records_follow_the_lines_then_credit_then_payments() {
    let mut t = sale_with(vec![line("p1", 1.0, 0.5)], Some(2));
    t.payments = Some(vec![Payment {
        name: "Cash".to_string(),
        value: 12.0f32.to_bits(),
        transactionId: None,
        payment_method_id: "pm1".to_string(),
    }]);
    let r = sale_records(&t, 40);
    assert_eq!(r.lines.len(), 1);
    assert_eq!(r.lines[0].record_item.params[7], Param::Integer(40));
    assert_eq!(r.credit, credit_customer(&t));
    let payments = r.payments.expect("payments");
    assert_eq!(payments.len(), 1);
    assert_eq!(payments[0].params[2], Param::Integer(40));
}

#[test]
fn sale_without_payment_list_has_no_payment_records() {
    let r = sale_records(&sale_with(vec![], None), 1);
    assert!(r.payments.is_none());
    assert!(r.lines.is_empty());
}

#[test]
fn refund_records_log_delete_and_restore() {
    let t = sale_with(vec![line("p1", 1.0, 0.5), line("p2", 3.0, 0.25)], None);
    let r = refund_records(&t);
    assert_eq!(r.log, log_refund(&t));
    assert_eq!(r.delete, delete_sale(&t));
    assert_eq!(r.lines.len(), 2);
    assert_eq!(r.lines[1].restore_stock.params[0], Param::Real(3.0f32.to_bits()));
}

#[test]
fn sale_plan_runs_lines_then_credit_then_payments() {
    let mut t = sale_with(vec![line("p1", 2.0, 1.5), line("p2", 1.0, 0.5)], Some(3));
    t.payments = Some(vec![Payment {
        name: "Cash".to_string(),
        value: 12.0f32.to_bits(),
        transactionId: None,
        payment_method_id: "pm1".to_string(),
    }]);
    let plan = sale_plan(&t, Some(40));
    assert!(!plan.payments_missing);
    let sqls: Vec<&str> = plan.statements.iter().map(|st| st.sql).collect();
    assert_eq!(
        sqls,
        vec![
            SELL_STOCK, INSERT_ITEM, LOG_PRODUCT_CHANGE, SELL_STOCK, INSERT_ITEM, LOG_PRODUCT_CHANGE,
            CREDIT_CUSTOMER, INSERT_PAYMENT,
        ]
    );
    assert_eq!(plan.statements[3].params[2], Param::Text("p2".to_string()));
    assert_eq!(plan.statements[4].params[7], Param::Integer(40));
    assert_eq!(plan.statements[7].params[2], Param::Integer(40));
}

#[test]
fn sale_plan_without_payments_stops_after_the_credit() {
    let t = sale_with(vec![line("p1", 2.0, 1.5)], None);
    let plan = sale_plan(&t, Some(5));
    assert!(plan.payments_missing);
    assert_eq!(plan.statements.len(), 4);
    assert_eq!(plan.statements[3].sql, CREDIT_CUSTOMER);
}

#[test]
fn failed_sale_row_runs_nothing_more() {
    let t = sale_with(vec![line("p1", 2.0, 1.5)], None);
    let plan = sale_plan(&t, None);
    assert!(plan.statements.is_empty());
    assert!(!plan.payments_missing);
}

#[test]
fn refund_plan_restores_each_line_once_deleted() {
    let t = sale_with(vec![line("p1", 2.0, 1.5), line("p2", 1.0, 0.5)], None);
    let plan = refund_plan(&t, true);
    let sqls: Vec<&str> = plan.iter().map(|st| st.sql).collect();
    assert_eq!(sqls, vec![RESTORE_STOCK, LOG_PRODUCT_CHANGE, RESTORE_STOCK, LOG_PRODUCT_CHANGE]);
    assert_eq!(plan[1].params[0], Param::Text("refund".to_string()));
    assert_eq!(plan[2].params[2], Param::Text("p2".to_string()));
    assert!(refund_plan(&t, false).is_empty());
}
