//! Recording a sale and refunding it.
//!
//! A sale is one row in the `transaction` table; each of its lines takes its
//! quantity out of stock, is recorded as an item, and is logged as a product
//! change for the cloud; the customer, if any, is credited; each payment is
//! recorded. A refund logs the refund for the cloud, deletes the sale, and
//! for each line puts its quantity back into stock and logs the change.

use vstd::prelude::*;
use crate::model::{F32Bits, Item, Payment, Transaction};
use crate::sql::{
    integer, opt_int, opt_int_param, opt_text, opt_text_param, int_param, stmt, text, text_param,
    views, Param, ParamView, Statement, StatementView,
};

verus! {

/// Records a sale.
pub const INSERT_TRANSACTION: &'static str = "INSERT INTO \"transaction\" ( staff, staffId, discount, profit, total, change, invoiceNumber, terminal, entityId, mop,customer) \nVALUES ($1, $2, $3, $4, $5, $6, $7, $8, $9, $10,$11);";

/// Takes a sold quantity out of stock and adds the profit to the product.
pub const SELL_STOCK: &'static str = "\n                            UPDATE product\n                            SET \n                                quantity = quantity - $1,\n                                quantity_sold = quantity_sold + $1,\n                                total_profit = total_profit + $2\n                            WHERE\n                                _id = $3\n                            ";

/// Puts a refunded quantity back into stock and takes the profit back.
pub const RESTORE_STOCK: &'static str = "\n                            UPDATE product\n                            SET \n                                quantity = quantity + $1,\n                                quantity_sold = quantity_sold - $1,\n                                total_profit = total_profit - $2\n                            WHERE\n                                _id = $3\n                            ";

/// Records one line of a sale.
pub const INSERT_ITEM: &'static str = "INSERT INTO item ( quantity, product_id, product_name, discount, sell_price, profit, total, transaction_id)\n                        VALUES ($1, $2, $3, $4, $5, $6, $7, $8);";

/// Logs a change of stock for the cloud.
pub const LOG_PRODUCT_CHANGE: &'static str = "INSERT INTO product_update ( change_type, origin, quantity, profit,entity_id,product_id)\n                        VALUES ($1, $2, $3, $4, $5, $6);";

/// Credits a customer's wallet and revenue.
pub const CREDIT_CUSTOMER: &'static str = "   \n                            UPDATE customer\n                            SET \n                                wallet = wallet + $1,\n                                totalRevenue = totalRevenue + $2\n                                \n                            WHERE\n                                customerId = $3\n                            ";

/// Records one payment towards a sale.
pub const INSERT_PAYMENT: &'static str = "INSERT INTO payment (name,value,transactionId,payment_method_id) VALUES($1,$2,$3,$4);";

/// Logs a refund for the cloud.
pub const LOG_REFUND: &'static str = "INSERT INTO transaction_update (transaction_id, origin,entity_id,cloud_id) VALUES ($1, $2, $3, $4)";

/// Deletes a refunded sale.
pub const DELETE_TRANSACTION: &'static str = "DELETE FROM \"transaction\" WHERE transaction_id = $1;";

/// The share of a sale's total credited to the customer's wallet: the bit
/// pattern of the `f32` 0.0025.
pub const LOYALTY_RATE: F32Bits = 0x3b23d70au32;

/// The statements run for one line of a sale.
pub struct SoldLine {
    pub take_stock: Statement,
    pub record_item: Statement,
    pub log_change: Statement,
}

/// The statements run for one line of a refund.
pub struct RefundedLine {
    pub restore_stock: Statement,
    pub log_change: Statement,
}

/// The statement that records a sale.
pub open spec fn transaction_statement(t: Transaction) -> StatementView {
    stmt(INSERT_TRANSACTION, seq![
        text(t.staff), integer(t.staffId), ParamView::Real(t.discount), ParamView::Real(t.profit),
        ParamView::Real(t.total), ParamView::Real(t.change), text(t.invoiceNumber), text(t.terminal),
        text(t.entityId), text(t.mop), opt_int(t.customer),
    ])
}

/// A stock adjustment of the given direction for a line: its quantity, its
/// profit, its product.
pub open spec fn stock_statement(sql: &str, item: Item) -> StatementView {
    stmt(sql, seq![ParamView::Real(item.quantity), ParamView::Real(item.profit), text(item.product_id)])
}

/// The statement that records a line of the sale with the given row id.
pub open spec fn item_statement(item: Item, transaction_id: i64) -> StatementView {
    stmt(INSERT_ITEM, seq![
        ParamView::Real(item.quantity), text(item.product_id), text(item.name),
        ParamView::Real(item.discount), ParamView::Real(item.sell_price), ParamView::Real(item.profit),
        ParamView::Real(item.total), ParamView::Integer(transaction_id),
    ])
}

/// The product change logged for a line: its kind ("sale" or "refund"), the
/// terminal, the quantity and profit, the account, the product.
pub open spec fn change_log_statement(kind: Seq<char>, t: Transaction, item: Item) -> StatementView {
    stmt(LOG_PRODUCT_CHANGE, seq![
        ParamView::Text(kind), text(t.terminal), ParamView::Real(item.quantity),
        ParamView::Real(item.profit), text(t.entityId), text(item.product_id),
    ])
}

/// The statement that credits the customer with 0.0025 of the total and adds
/// the total to the customer's revenue.
pub open spec fn credit_statement(t: Transaction) -> StatementView {
    stmt(CREDIT_CUSTOMER, seq![
        ParamView::RealScaled { factor: LOYALTY_RATE, value: t.total }, ParamView::Real(t.total),
        opt_int(t.customer),
    ])
}

/// The statement that records a payment towards the sale with the given row id.
pub open spec fn payment_statement(p: Payment, transaction_id: i64) -> StatementView {
    stmt(INSERT_PAYMENT, seq![
        text(p.name), ParamView::Real(p.value), ParamView::Integer(transaction_id), text(p.payment_method_id),
    ])
}

/// The statement that logs a refund for the cloud.
pub open spec fn refund_log_statement(t: Transaction) -> StatementView {
    stmt(LOG_REFUND, seq![opt_int(t.transaction_id), text(t.terminal), text(t.entityId), opt_text(t._id)])
}

/// The statement that deletes a refunded sale.
pub open spec fn delete_statement(t: Transaction) -> StatementView {
    stmt(DELETE_TRANSACTION, seq![opt_int(t.transaction_id)])
}

/// The statements for a line of a sale.
pub open spec fn sold_line(line: SoldLine, t: Transaction, item: Item, transaction_id: i64) -> bool {
    &&& line.take_stock@ == stock_statement(SELL_STOCK, item)
    &&& line.record_item@ == item_statement(item, transaction_id)
    &&& line.log_change@ == change_log_statement("sale"@, t, item)
}

/// The statements for a line of a refund.
pub open spec fn refunded_line(line: RefundedLine, t: Transaction, item: Item) -> bool {
    &&& line.restore_stock@ == stock_statement(RESTORE_STOCK, item)
    &&& line.log_change@ == change_log_statement("refund"@, t, item)
}

/// Builds the statement that records a sale.
pub fn record_sale(t: &Transaction) -> (st: Statement)
    ensures
        st@ == transaction_statement(*t),
{
    let st = Statement {
        sql: INSERT_TRANSACTION,
        params: vec![
            text_param(&t.staff), int_param(t.staffId), Param::Real(t.discount), Param::Real(t.profit),
            Param::Real(t.total), Param::Real(t.change), text_param(&t.invoiceNumber),
            text_param(&t.terminal), text_param(&t.entityId), text_param(&t.mop),
            opt_int_param(t.customer),
        ],
    };
    assert(st@.params =~= transaction_statement(*t).params);
    st
}

fn stock_adjustment(sql: &'static str, item: &Item) -> (st: Statement)
    ensures
        st@ == stock_statement(sql, *item),
{
    let st = Statement {
        sql,
        params: vec![Param::Real(item.quantity), Param::Real(item.profit), text_param(&item.product_id)],
    };
    assert(st@.params =~= stock_statement(sql, *item).params);
    st
}

fn change_log(kind: &'static str, t: &Transaction, item: &Item) -> (st: Statement)
    ensures
        st@ == change_log_statement(kind@, *t, *item),
{
    let st = Statement {
        sql: LOG_PRODUCT_CHANGE,
        params: vec![
            Param::Text(kind.to_owned()), text_param(&t.terminal), Param::Real(item.quantity),
            Param::Real(item.profit), text_param(&t.entityId), text_param(&item.product_id),
        ],
    };
    assert(st@.params =~= change_log_statement(kind@, *t, *item).params);
    st
}

fn record_item(item: &Item, transaction_id: i64) -> (st: Statement)
    ensures
        st@ == item_statement(*item, transaction_id),
{
    let st = Statement {
        sql: INSERT_ITEM,
        params: vec![
            Param::Real(item.quantity), text_param(&item.product_id), text_param(&item.name),
            Param::Real(item.discount), Param::Real(item.sell_price), Param::Real(item.profit),
            Param::Real(item.total), Param::Integer(transaction_id),
        ],
    };
    assert(st@.params =~= item_statement(*item, transaction_id).params);
    st
}

/// Builds the statements for each line of a sale whose row id is
/// `transaction_id`, in the order of the lines.
pub fn sale_lines(t: &Transaction, transaction_id: i64) -> (lines: Vec<SoldLine>)
    ensures
        lines@.len() == t.items@.len(),
        forall|i: int| 0 <= i < lines@.len() ==> sold_line(#[trigger] lines@[i], *t, t.items@[i], transaction_id),
{
    let mut lines: Vec<SoldLine> = Vec::new();
    for i in 0..t.items.len()
        invariant
            lines@.len() == i,
            forall|k: int| 0 <= k < i ==> sold_line(#[trigger] lines@[k], *t, t.items@[k], transaction_id),
    {
        let item = &t.items[i];
        let line = SoldLine {
            take_stock: stock_adjustment(SELL_STOCK, item),
            record_item: record_item(item, transaction_id),
            log_change: change_log("sale", t, item),
        };
        lines.push(line);
    }
    lines
}

/// Builds the statement that credits the sale's customer.
pub fn credit_customer(t: &Transaction) -> (st: Statement)
    ensures
        st@ == credit_statement(*t),
{
    let st = Statement {
        sql: CREDIT_CUSTOMER,
        params: vec![
            Param::RealScaled { factor: LOYALTY_RATE, value: t.total }, Param::Real(t.total),
            opt_int_param(t.customer),
        ],
    };
    assert(st@.params =~= credit_statement(*t).params);
    st
}

/// Builds the statements that record the payments of the sale whose row id
/// is `transaction_id`, in order.
pub fn record_payments(payments: &Vec<Payment>, transaction_id: i64) -> (plan: Vec<Statement>)
    ensures
        views(plan@) == payments@.map_values(|p: Payment| payment_statement(p, transaction_id)),
{
    let mut plan: Vec<Statement> = Vec::new();
    for i in 0..payments.len()
        invariant
            views(plan@) == payments@.take(i as int).map_values(|p: Payment| payment_statement(p, transaction_id)),
    {
        let p = &payments[i];
        let st = Statement {
            sql: INSERT_PAYMENT,
            params: vec![
                text_param(&p.name), Param::Real(p.value), Param::Integer(transaction_id),
                text_param(&p.payment_method_id),
            ],
        };
        assert(st@.params =~= payment_statement(*p, transaction_id).params);
        let ghost before = plan@;
        plan.push(st);
        assert(views(plan@) =~= views(before).push(st@));
        assert(payments@.take(i + 1) =~= payments@.take(i as int).push(*p));
        assert(payments@.take(i + 1).map_values(|p: Payment| payment_statement(p, transaction_id))
            =~= payments@.take(i as int).map_values(|p: Payment| payment_statement(p, transaction_id)).push(payment_statement(*p, transaction_id)));
    }
    assert(payments@.take(payments.len() as int) =~= payments@);
    plan
}

/// Builds the statement that logs the refund of a sale for the cloud.
pub fn log_refund(t: &Transaction) -> (st: Statement)
    ensures
        st@ == refund_log_statement(*t),
{
    let st = Statement {
        sql: LOG_REFUND,
        params: vec![
            opt_int_param(t.transaction_id), text_param(&t.terminal), text_param(&t.entityId),
            opt_text_param(&t._id),
        ],
    };
    assert(st@.params =~= refund_log_statement(*t).params);
    st
}

/// Builds the statement that deletes a refunded sale.
pub fn delete_sale(t: &Transaction) -> (st: Statement)
    ensures
        st@ == delete_statement(*t),
{
    let st = Statement { sql: DELETE_TRANSACTION, params: vec![opt_int_param(t.transaction_id)] };
    assert(st@.params =~= delete_statement(*t).params);
    st
}

/// Builds the statements for each line of a refund, in the order of the lines.
pub fn refund_lines(t: &Transaction) -> (lines: Vec<RefundedLine>)
    ensures
        lines@.len() == t.items@.len(),
        forall|i: int| 0 <= i < lines@.len() ==> refunded_line(#[trigger] lines@[i], *t, t.items@[i]),
{
    let mut lines: Vec<RefundedLine> = Vec::new();
    for i in 0..t.items.len()
        invariant
            lines@.len() == i,
            forall|k: int| 0 <= k < i ==> refunded_line(#[trigger] lines@[k], *t, t.items@[k]),
    {
        let item = &t.items[i];
        let line = RefundedLine {
            restore_stock: stock_adjustment(RESTORE_STOCK, item),
            log_change: change_log("refund", t, item),
        };
        lines.push(line);
    }
    lines
}

/// Everything recorded once a sale's row exists, in the order it is run:
/// each line's three statements, line by line, then the customer's credit,
/// then the payments. `payments` is `None` when the sale carries no payment
/// list, in which case the sale cannot be completed after the credit.
pub struct SaleRecords {
    pub lines: Vec<SoldLine>,
    pub credit: Statement,
    pub payments: Option<Vec<Statement>>,
}

/// Everything a refund runs, in order: the log for the cloud, the deletion of
/// the sale, then (only if the deletion succeeded) each line's two statements.
pub struct RefundRecords {
    pub log: Statement,
    pub delete: Statement,
    pub lines: Vec<RefundedLine>,
}

/// Builds what is recorded once the row of sale `t` exists with the id
/// `transaction_id`.
pub fn sale_records(t: &Transaction, transaction_id: i64) -> (r: SaleRecords)
    ensures
        r.lines@.len() == t.items@.len(),
        forall|i: int| 0 <= i < r.lines@.len() ==> sold_line(#[trigger] r.lines@[i], *t, t.items@[i], transaction_id),
        r.credit@ == credit_statement(*t),
        r.payments.is_some() == t.payments.is_some(),
        t.payments matches Some(ps) ==> views(r.payments.unwrap()@)
            == ps@.map_values(|p: Payment| payment_statement(p, transaction_id)),
{
    let lines = sale_lines(t, transaction_id);
    let credit = credit_customer(t);
    let payments = match &t.payments {
        Some(ps) => Some(record_payments(ps, transaction_id)),
        None => None,
    };
    SaleRecords { lines, credit, payments }
}

/// Builds what refunding sale `t` runs.
pub fn refund_records(t: &Transaction) -> (r: RefundRecords)
    ensures
        r.log@ == refund_log_statement(*t),
        r.delete@ == delete_statement(*t),
        r.lines@.len() == t.items@.len(),
        forall|i: int| 0 <= i < r.lines@.len() ==> refunded_line(#[trigger] r.lines@[i], *t, t.items@[i]),
{
    RefundRecords { log: log_refund(t), delete: delete_sale(t), lines: refund_lines(t) }
}

/// The statements of the sale lines `items`, in order: for each line, the
/// stock taken out, the item recorded, the change logged.
pub open spec fn sold_lines_statements(t: Transaction, items: Seq<Item>, transaction_id: i64) -> Seq<StatementView>
    decreases items.len(),
{
    if items.len() == 0 {
        seq![]
    } else {
        let item = items.last();
        sold_lines_statements(t, items.drop_last(), transaction_id) + seq![
            stock_statement(SELL_STOCK, item),
            item_statement(item, transaction_id),
            change_log_statement("sale"@, t, item),
        ]
    }
}

/// The statements of the refund lines `items`, in order: for each line, the
/// stock put back, the change logged.
pub open spec fn refunded_lines_statements(t: Transaction, items: Seq<Item>) -> Seq<StatementView>
    decreases items.len(),
{
    if items.len() == 0 {
        seq![]
    } else {
        let item = items.last();
        refunded_lines_statements(t, items.drop_last()) + seq![
            stock_statement(RESTORE_STOCK, item),
            change_log_statement("refund"@, t, item),
        ]
    }
}

/// Everything saving sale `t` runs once its row exists with the id
/// `transaction_id`, in order: the lines, the customer's credit, the payments.
pub open spec fn sale_sequence(t: Transaction, transaction_id: i64) -> Seq<StatementView> {
    sold_lines_statements(t, t.items@, transaction_id) + seq![credit_statement(t)] + match t.payments {
        Some(ps) => ps@.map_values(|p: Payment| payment_statement(p, transaction_id)),
        None => seq![],
    }
}

/// What saving a sale runs after the insertion of its row was tried.
pub struct SalePlan {
    /// Run in order; a failure of one does not stop the others.
    pub statements: Vec<Statement>,
    /// The sale carries no payment list: once the statements have run, the
    /// sale cannot be completed.
    pub payments_missing: bool,
}

/// What saving sale `t` runs once the insertion of its row has been tried:
/// `inserted` is the new row's id, or `None` when the insertion failed, in
/// which case nothing more is run.
pub fn sale_plan(t: &Transaction, inserted: Option<i64>) -> (p: SalePlan)
    ensures
        match inserted {
            None => p.statements@.len() == 0 && !p.payments_missing,
            Some(id) => views(p.statements@) == sale_sequence(*t, id) && p.payments_missing == (t.payments is None),
        },
{
    match inserted {
        None => SalePlan { statements: Vec::new(), payments_missing: false },
        Some(id) => {
            let records = sale_records(t, id);
            let mut statements: Vec<Statement> = Vec::new();
            let mut lines = records.lines;
            let ghost sold = lines@;
            let n = lines.len();
            let mut i: usize = 0;
            while i < n
                invariant
                    n == sold.len(),
                    sold.len() == t.items@.len(),
                    i <= n,
                    lines@ == sold.subrange(i as int, n as int),
                    forall|k: int| 0 <= k < sold.len() ==> sold_line(#[trigger] sold[k], *t, t.items@[k], id),
                    views(statements@) == sold_lines_statements(*t, t.items@.subrange(0, i as int), id),
                decreases n - i,
            {
                let line = lines.remove(0);
                assert(line == sold[i as int]);
                assert(sold_line(sold[i as int], *t, t.items@[i as int], id));
                let ghost before = views(statements@);
                statements.push(line.take_stock);
                statements.push(line.record_item);
                statements.push(line.log_change);
                proof {
                    let prefix = t.items@.subrange(0, i + 1);
                    assert(prefix.drop_last() =~= t.items@.subrange(0, i as int));
                    assert(prefix.last() == t.items@[i as int]);
                    assert(views(statements@) =~= before + seq![
                        stock_statement(SELL_STOCK, t.items@[i as int]),
                        item_statement(t.items@[i as int], id),
                        change_log_statement("sale"@, *t, t.items@[i as int]),
                    ]);
                    assert(lines@ =~= sold.subrange(i + 1, n as int));
                }
                i = i + 1;
            }
            assert(t.items@.subrange(0, n as int) =~= t.items@);
            statements.push(records.credit);
            let payments_missing = match records.payments {
                Some(ps) => {
                    let ghost with_credit = views(statements@);
                    let mut ps = ps;
                    let ghost paid = views(ps@);
                    statements.append(&mut ps);
                    assert(views(statements@) =~= with_credit + paid);
                    false
                },
                None => true,
            };
            assert(views(statements@) =~= sale_sequence(*t, id));
            SalePlan { statements, payments_missing }
        },
    }
}

/// What a refund of sale `t` runs after the deletion of the sale was tried:
/// each line's two statements, in order, if the sale was deleted; nothing if
/// the deletion failed.
pub fn refund_plan(t: &Transaction, deleted: bool) -> (plan: Vec<Statement>)
    ensures
        views(plan@) == if deleted { refunded_lines_statements(*t, t.items@) } else { seq![] },
{
    let mut plan: Vec<Statement> = Vec::new();
    if !deleted {
        assert(views(plan@) =~= seq![]);
        return plan;
    }
    let n = t.items.len();
    for i in 0..n
        invariant
            n == t.items@.len(),
            views(plan@) == refunded_lines_statements(*t, t.items@.subrange(0, i as int)),
    {
        let item = &t.items[i];
        let ghost before = views(plan@);
        plan.push(stock_adjustment(RESTORE_STOCK, item));
        plan.push(change_log("refund", t, item));
        proof {
            let prefix = t.items@.subrange(0, i + 1);
            assert(prefix.drop_last() =~= t.items@.subrange(0, i as int));
            assert(prefix.last() == t.items@[i as int]);
            assert(views(plan@) =~= before + seq![
                stock_statement(RESTORE_STOCK, t.items@[i as int]),
                change_log_statement("refund"@, *t, t.items@[i as int]),
            ]);
        }
    }
    assert(t.items@.subrange(0, n as int) =~= t.items@);
    plan
}

/// A refund undoes the stock side of the sale it refunds: line by line, it
/// adjusts the same product by the same quantity and profit in the opposite
/// direction, and logs the same change for the cloud with the kind "refund"
/// in place of "sale".
pub proof fn lemma_refund_mirrors_sale(
    t: Transaction,
    transaction_id: i64,
    sold: Seq<SoldLine>,
    refunded: Seq<RefundedLine>,
)
    requires
        sold.len() == t.items@.len(),
        refunded.len() == t.items@.len(),
        forall|i: int| 0 <= i < sold.len() ==> sold_line(#[trigger] sold[i], t, t.items@[i], transaction_id),
        forall|i: int| 0 <= i < refunded.len() ==> refunded_line(#[trigger] refunded[i], t, t.items@[i]),
    ensures
        forall|i: int| 0 <= i < sold.len() ==> {
            &&& (#[trigger] sold[i]).take_stock@.sql == SELL_STOCK@
            &&& refunded[i].restore_stock@.sql == RESTORE_STOCK@
            &&& sold[i].take_stock@.params == refunded[i].restore_stock@.params
            &&& sold[i].log_change@.params.drop_first() == refunded[i].log_change@.params.drop_first()
            &&& sold[i].log_change@.sql == refunded[i].log_change@.sql
            &&& sold[i].log_change@.params[0] == ParamView::Text("sale"@)
            &&& refunded[i].log_change@.params[0] == ParamView::Text("refund"@)
        },
{
    assert forall|i: int| 0 <= i < sold.len() implies {
        &&& (#[trigger] sold[i]).take_stock@.sql == SELL_STOCK@
        &&& refunded[i].restore_stock@.sql == RESTORE_STOCK@
        &&& sold[i].take_stock@.params == refunded[i].restore_stock@.params
        &&& sold[i].log_change@.params.drop_first() == refunded[i].log_change@.params.drop_first()
        &&& sold[i].log_change@.sql == refunded[i].log_change@.sql
        &&& sold[i].log_change@.params[0] == ParamView::Text("sale"@)
        &&& refunded[i].log_change@.params[0] == ParamView::Text("refund"@)
    } by {
        assert(sold_line(sold[i], t, t.items@[i], transaction_id));
        assert(refunded_line(refunded[i], t, t.items@[i]));
        assert(sold[i].log_change@.params.drop_first() =~= refunded[i].log_change@.params.drop_first());
    }
}

/// The statement that takes line `item` of sale `t` out of stock, records it
/// and logs it, as bound column by column.
pub open spec fn sold_line_bound(t: Transaction, item: Item, transaction_id: i64, s: Seq<StatementView>, at: int) -> bool {
    &&& s[at].sql == SELL_STOCK@
    &&& s[at].params == seq![ParamView::Real(item.quantity), ParamView::Real(item.profit), ParamView::Text(item.product_id@)]
    &&& s[at + 1].sql == INSERT_ITEM@
    &&& s[at + 1].params == seq![
        ParamView::Real(item.quantity), ParamView::Text(item.product_id@), ParamView::Text(item.name@),
        ParamView::Real(item.discount), ParamView::Real(item.sell_price), ParamView::Real(item.profit),
        ParamView::Real(item.total), ParamView::Integer(transaction_id),
    ]
    &&& s[at + 2].sql == LOG_PRODUCT_CHANGE@
    &&& s[at + 2].params == seq![
        ParamView::Text("sale"@), ParamView::Text(t.terminal@), ParamView::Real(item.quantity),
        ParamView::Real(item.profit), ParamView::Text(t.entityId@), ParamView::Text(item.product_id@),
    ]
}

/// The statements that put line `item` of sale `t` back into stock and log
/// the refund, as bound column by column.
pub open spec fn refunded_line_bound(t: Transaction, item: Item, s: Seq<StatementView>, at: int) -> bool {
    &&& s[at].sql == RESTORE_STOCK@
    &&& s[at].params == seq![ParamView::Real(item.quantity), ParamView::Real(item.profit), ParamView::Text(item.product_id@)]
    &&& s[at + 1].sql == LOG_PRODUCT_CHANGE@
    &&& s[at + 1].params == seq![
        ParamView::Text("refund"@), ParamView::Text(t.terminal@), ParamView::Real(item.quantity),
        ParamView::Real(item.profit), ParamView::Text(t.entityId@), ParamView::Text(item.product_id@),
    ]
}

proof fn lemma_sold_lines(t: Transaction, items: Seq<Item>, transaction_id: i64)
    ensures
        sold_lines_statements(t, items, transaction_id).len() == 3 * items.len(),
        forall|k: int| 0 <= k < items.len() ==>
            sold_line_bound(t, #[trigger] items[k], transaction_id, sold_lines_statements(t, items, transaction_id), 3 * k),
    decreases items.len(),
{
    if items.len() > 0 {
        let front = items.drop_last();
        lemma_sold_lines(t, front, transaction_id);
        let s = sold_lines_statements(t, items, transaction_id);
        let sf = sold_lines_statements(t, front, transaction_id);
        assert forall|k: int| 0 <= k < items.len() implies
            sold_line_bound(t, #[trigger] items[k], transaction_id, s, 3 * k) by {
            if k < front.len() {
                assert(front[k] == items[k]);
                assert(sold_line_bound(t, front[k], transaction_id, sf, 3 * k));
                assert(s[3 * k] == sf[3 * k]);
                assert(s[3 * k + 1] == sf[3 * k + 1]);
                assert(s[3 * k + 2] == sf[3 * k + 2]);
            } else {
                let item = items.last();
                assert(s[3 * k].params =~= seq![ParamView::Real(item.quantity), ParamView::Real(item.profit), ParamView::Text(item.product_id@)]);
                assert(s[3 * k + 1].params =~= seq![
                    ParamView::Real(item.quantity), ParamView::Text(item.product_id@), ParamView::Text(item.name@),
                    ParamView::Real(item.discount), ParamView::Real(item.sell_price), ParamView::Real(item.profit),
                    ParamView::Real(item.total), ParamView::Integer(transaction_id),
                ]);
            }
        }
    }
}

proof fn lemma_refunded_lines(t: Transaction, items: Seq<Item>)
    ensures
        refunded_lines_statements(t, items).len() == 2 * items.len(),
        forall|k: int| 0 <= k < items.len() ==>
            refunded_line_bound(t, #[trigger] items[k], refunded_lines_statements(t, items), 2 * k),
    decreases items.len(),
{
    if items.len() > 0 {
        let front = items.drop_last();
        lemma_refunded_lines(t, front);
        let s = refunded_lines_statements(t, items);
        let sf = refunded_lines_statements(t, front);
        assert forall|k: int| 0 <= k < items.len() implies
            refunded_line_bound(t, #[trigger] items[k], s, 2 * k) by {
            if k < front.len() {
                assert(front[k] == items[k]);
                assert(refunded_line_bound(t, front[k], sf, 2 * k));
                assert(s[2 * k] == sf[2 * k]);
                assert(s[2 * k + 1] == sf[2 * k + 1]);
            } else {
                let item = items.last();
                assert(s[2 * k].params =~= seq![ParamView::Real(item.quantity), ParamView::Real(item.profit), ParamView::Text(item.product_id@)]);
            }
        }
    }
}

/// The sale's row binds `staff, staffId, discount, profit, total, change,
/// invoiceNumber, terminal, entityId, mop, customer` in that order.
pub proof fn lemma_sale_row_columns(t: Transaction)
    ensures
        transaction_statement(t).sql == INSERT_TRANSACTION@,
        transaction_statement(t).params == seq![
            ParamView::Text(t.staff@), ParamView::Integer(t.staffId as i64), ParamView::Real(t.discount),
            ParamView::Real(t.profit), ParamView::Real(t.total), ParamView::Real(t.change),
            ParamView::Text(t.invoiceNumber@), ParamView::Text(t.terminal@), ParamView::Text(t.entityId@),
            ParamView::Text(t.mop@), opt_int(t.customer),
        ],
{
    assert(transaction_statement(t).params =~= seq![
        ParamView::Text(t.staff@), ParamView::Integer(t.staffId as i64), ParamView::Real(t.discount),
        ParamView::Real(t.profit), ParamView::Real(t.total), ParamView::Real(t.change),
        ParamView::Text(t.invoiceNumber@), ParamView::Text(t.terminal@), ParamView::Text(t.entityId@),
        ParamView::Text(t.mop@), opt_int(t.customer),
    ]);
}

/// Once its row exists, saving a sale runs, for each line in order, the
/// stock taken out (the line's quantity and profit, for its product), the
/// line recorded under the sale's row id, and the change logged as "sale";
/// then the customer is credited 0.0025 of the total (the `f32` with bits
/// `0x3b23d70a`) in the wallet and the whole total in revenue; then each
/// payment is recorded, in order, under the sale's row id.
pub proof fn lemma_sale_run(t: Transaction, transaction_id: i64)
    ensures
        ({
            let s = sale_sequence(t, transaction_id);
            let n = t.items@.len() as int;
            let ps = match t.payments {
                Some(v) => v@,
                None => Seq::<Payment>::empty(),
            };
            &&& s.len() == 3 * n + 1 + ps.len()
            &&& forall|k: int| 0 <= k < n ==> sold_line_bound(t, #[trigger] t.items@[k], transaction_id, s, 3 * k)
            &&& s[3 * n].sql == CREDIT_CUSTOMER@
            &&& s[3 * n].params == seq![
                ParamView::RealScaled { factor: 0x3b23d70au32, value: t.total },
                ParamView::Real(t.total),
                opt_int(t.customer),
            ]
            &&& forall|j: int| 0 <= j < ps.len() ==> {
                &&& (#[trigger] s[3 * n + 1 + j]).sql == INSERT_PAYMENT@
                &&& s[3 * n + 1 + j].params == seq![
                    ParamView::Text(ps[j].name@), ParamView::Real(ps[j].value),
                    ParamView::Integer(transaction_id), ParamView::Text(ps[j].payment_method_id@),
                ]
            }
        }),
{
    let s = sale_sequence(t, transaction_id);
    let n = t.items@.len() as int;
    let lines = sold_lines_statements(t, t.items@, transaction_id);
    lemma_sold_lines(t, t.items@, transaction_id);
    let ps = match t.payments {
        Some(v) => v@,
        None => Seq::<Payment>::empty(),
    };
    let pays = match t.payments {
        Some(v) => v@.map_values(|p: Payment| payment_statement(p, transaction_id)),
        None => seq![],
    };
    assert(s == lines + seq![credit_statement(t)] + pays);
    assert(pays.len() == ps.len());
    assert forall|k: int| 0 <= k < n implies sold_line_bound(t, #[trigger] t.items@[k], transaction_id, s, 3 * k) by {
        assert(sold_line_bound(t, t.items@[k], transaction_id, lines, 3 * k));
        assert(s[3 * k] == lines[3 * k]);
        assert(s[3 * k + 1] == lines[3 * k + 1]);
        assert(s[3 * k + 2] == lines[3 * k + 2]);
    }
    assert(s[3 * n] == credit_statement(t));
    assert(s[3 * n].params =~= seq![
        ParamView::RealScaled { factor: 0x3b23d70au32, value: t.total },
        ParamView::Real(t.total),
        opt_int(t.customer),
    ]);
    assert forall|j: int| 0 <= j < ps.len() implies {
        &&& (#[trigger] s[3 * n + 1 + j]).sql == INSERT_PAYMENT@
        &&& s[3 * n + 1 + j].params == seq![
            ParamView::Text(ps[j].name@), ParamView::Real(ps[j].value),
            ParamView::Integer(transaction_id), ParamView::Text(ps[j].payment_method_id@),
        ]
    } by {
        assert(s[3 * n + 1 + j] == pays[j]);
        assert(pays[j] == payment_statement(ps[j], transaction_id));
        assert(pays[j].params =~= seq![
            ParamView::Text(ps[j].name@), ParamView::Real(ps[j].value),
            ParamView::Integer(transaction_id), ParamView::Text(ps[j].payment_method_id@),
        ]);
    }
}

/// A refund first logs, for the cloud, the sale's row id, terminal, account
/// and cloud id, then deletes the sale by its row id; once deleted, for each
/// line in order it puts the line's quantity back into stock and takes its
/// profit back, for its product, and logs the change as "refund". Each
/// restock binds exactly what the sale's stock statement for that line bound.
pub proof fn lemma_refund_run(t: Transaction, transaction_id: i64)
    ensures
        refund_log_statement(t).sql == LOG_REFUND@,
        refund_log_statement(t).params == seq![
            opt_int(t.transaction_id), ParamView::Text(t.terminal@), ParamView::Text(t.entityId@), opt_text(t._id),
        ],
        delete_statement(t).sql == DELETE_TRANSACTION@,
        delete_statement(t).params == seq![opt_int(t.transaction_id)],
        refunded_lines_statements(t, t.items@).len() == 2 * t.items@.len(),
        forall|k: int| 0 <= k < t.items@.len() ==>
            refunded_line_bound(t, #[trigger] t.items@[k], refunded_lines_statements(t, t.items@), 2 * k),
        forall|k: int| 0 <= k < t.items@.len() ==>
            (#[trigger] refunded_lines_statements(t, t.items@)[2 * k]).params
                == sale_sequence(t, transaction_id)[3 * k].params,
{
    lemma_refunded_lines(t, t.items@);
    lemma_sale_run(t, transaction_id);
    assert(refund_log_statement(t).params =~= seq![
        opt_int(t.transaction_id), ParamView::Text(t.terminal@), ParamView::Text(t.entityId@), opt_text(t._id),
    ]);
    assert(delete_statement(t).params =~= seq![opt_int(t.transaction_id)]);
    assert forall|k: int| 0 <= k < t.items@.len() implies
        (#[trigger] refunded_lines_statements(t, t.items@)[2 * k]).params
            == sale_sequence(t, transaction_id)[3 * k].params by {
        assert(refunded_line_bound(t, t.items@[k], refunded_lines_statements(t, t.items@), 2 * k));
        assert(sold_line_bound(t, t.items@[k], transaction_id, sale_sequence(t, transaction_id), 3 * k));
    }
}

} // verus!
