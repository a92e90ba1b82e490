//! Reading sales back from the local store.
//!
//! Rows that cannot be read as records are skipped when listing sales, items
//! and product changes; a sale is only returned whole, so any failing lookup
//! of its lines, their products or its payments fails the whole listing.
//! Lookups alternate with decisions, so loading sales is a state machine:
//! [`TransactionLoader::start`] takes the sale rows and asks for the first
//! lookup, [`TransactionLoader::step`] takes each lookup's outcome.

use vstd::prelude::*;
use crate::model::{Item, Payment, Product, Transaction, F32Bits};
use crate::sql::{opt_int, opt_int_param, stmt, text, text_param, ParamView, Statement, StatementView};
use crate::calendar::{midnight_text, sales_of_the_day, valid_date};

verus! {

/// The sales not yet sent to the cloud.
pub const SELECT_UNSYNCED_TRANSACTIONS: &'static str = "SELECT * FROM \"transaction\" where is_synced = false;";

/// The sales made after a moment, newest first.
pub const SELECT_TRANSACTIONS_SINCE: &'static str = "SELECT * FROM \"transaction\" where createdAt >?1 ORDER BY createdAt DESC;";

/// The sales with a line whose product name, or whose invoice number, matches.
pub const SEARCH_TRANSACTIONS: &'static str = "SELECT t.*,i.product_name,i.product_id FROM \"transaction\" t JOIN item i ON t.transaction_id = i.transaction_id WHERE product_name like ?1 OR t.invoiceNumber like ?2 GROUP by t.transaction_id ORDER BY t.createdAt DESC";

/// The lines of a sale.
pub const SELECT_ITEMS: &'static str = "SELECT * FROM item where transaction_id = $1";

/// A product by its id.
pub const SELECT_PRODUCT: &'static str = "SELECT * FROM product where _id = $1";

/// The payments of a sale.
pub const SELECT_PAYMENTS: &'static str = "SELECT value, payment_method_id, name, transactionId from payment where transactionId = $1";

/// The local product changes not yet sent to the cloud.
pub const SELECT_PRODUCT_UPDATES: &'static str = "SELECT * FROM product_update;";

/// The refunds not yet sent to the cloud.
pub const SELECT_TRANSACTION_UPDATES: &'static str = "SELECT * FROM transaction_update;";

// ---------------------------------------------------------------------------
// Rows read as records
// ---------------------------------------------------------------------------

/// The records of the rows that could be read, in order.
pub open spec fn parsed<T>(rows: Seq<Option<T>>) -> Seq<T>
    decreases rows.len(),
{
    if rows.len() == 0 {
        seq![]
    } else {
        match rows[0] {
            Some(x) => seq![x] + parsed(rows.drop_first()),
            None => parsed(rows.drop_first()),
        }
    }
}

/// Keeps the records of the rows that could be read, in order, and skips the
/// others.
pub fn keep_parsed<T>(rows: Vec<Option<T>>) -> (kept: Vec<T>)
    ensures
        kept@ == parsed(rows@),
{
    let ghost all = rows@;
    let mut rows = rows;
    let mut kept: Vec<T> = Vec::new();
    while rows.len() > 0
        invariant
            parsed(all) == kept@ + parsed(rows@),
        decreases rows.len(),
    {
        let ghost before = rows@;
        let row = rows.remove(0);
        assert(rows@ =~= before.drop_first());
        match row {
            Some(x) => {
                let ghost k = kept@;
                kept.push(x);
                assert(kept@ + parsed(rows@) =~= k + (seq![x] + parsed(rows@)));
            },
            None => {},
        }
    }
    assert(kept@ + parsed(rows@) =~= kept@);
    kept
}

/// The outcome of reading every row or none: the records in order, or the
/// first error met.
pub open spec fn all_or_first_error<T>(rows: Seq<Result<T, Seq<char>>>) -> Result<Seq<T>, Seq<char>>
    decreases rows.len(),
{
    if rows.len() == 0 {
        Ok(seq![])
    } else {
        match rows[0] {
            Err(e) => Err(e),
            Ok(x) => match all_or_first_error(rows.drop_first()) {
                Ok(rest) => Ok(seq![x] + rest),
                Err(e) => Err(e),
            },
        }
    }
}

pub open spec fn row_results<T>(rows: Seq<Result<T, String>>) -> Seq<Result<T, Seq<char>>> {
    rows.map_values(|r: Result<T, String>| match r {
        Ok(x) => Ok(x),
        Err(e) => Err(e@),
    })
}

/// Reads every row or none: the records in order if all rows could be read,
/// else the first error.
pub fn require_all<T>(rows: Vec<Result<T, String>>) -> (r: Result<Vec<T>, String>)
    ensures
        all_or_first_error(row_results(rows@)) matches Ok(xs) ==> r matches Ok(v) && v@ == xs,
        all_or_first_error(row_results(rows@)) matches Err(e) ==> r matches Err(m) && m@ == e,
{
    let ghost all = row_results(rows@);
    let mut pending = rows;
    let mut kept: Vec<T> = Vec::new();
    let mut failure: Option<String> = None;
    while pending.len() > 0 && failure.is_none()
        invariant
            failure matches Some(m) ==> all_or_first_error(all) == Err::<Seq<T>, Seq<char>>(m@),
            failure is None ==> all_or_first_error(all) == match all_or_first_error(row_results(pending@)) {
                Ok(rest) => Ok(kept@ + rest),
                Err(e) => Err(e),
            },
        decreases pending.len(),
    {
        let ghost before = pending@;
        let row = pending.remove(0);
        assert(row_results(pending@) =~= row_results(before).drop_first());
        match row {
            Ok(x) => {
                let ghost k = kept@;
                kept.push(x);
                assert(forall|rest: Seq<T>| #[trigger] (k + (seq![x] + rest)) =~= kept@ + rest);
            },
            Err(e) => {
                assert(row_results(before)[0] == Err::<T, Seq<char>>(e@));
                failure = Some(e);
            },
        }
    }
    match failure {
        Some(e) => Err(e),
        None => {
            assert(kept@ + seq![] =~= kept@);
            Ok(kept)
        },
    }
}

// ---------------------------------------------------------------------------
// Loading sales with their lines
// ---------------------------------------------------------------------------

/// A sale with its lists as sequences.
pub struct TransactionView {
    pub _id: Option<String>,
    pub createdAt: Option<String>,
    pub discount: F32Bits,
    pub entityId: String,
    pub invoiceNumber: String,
    pub items: Seq<Item>,
    pub mop: String,
    pub profit: F32Bits,
    pub staff: String,
    pub staffId: i32,
    pub terminal: String,
    pub total: F32Bits,
    pub change: F32Bits,
    pub transaction_id: Option<i32>,
    pub is_synced: Option<bool>,
    pub customer: Option<i32>,
    pub payments: Option<Seq<Payment>>,
}

pub open spec fn payments_view(p: Option<Vec<Payment>>) -> Option<Seq<Payment>> {
    match p {
        Some(v) => Some(v@),
        None => None,
    }
}

impl View for Transaction {
    type V = TransactionView;

    open spec fn view(&self) -> TransactionView {
        TransactionView {
            _id: self._id,
            createdAt: self.createdAt,
            discount: self.discount,
            entityId: self.entityId,
            invoiceNumber: self.invoiceNumber,
            items: self.items@,
            mop: self.mop,
            profit: self.profit,
            staff: self.staff,
            staffId: self.staffId,
            terminal: self.terminal,
            total: self.total,
            change: self.change,
            transaction_id: self.transaction_id,
            is_synced: self.is_synced,
            customer: self.customer,
            payments: payments_view(self.payments),
        }
    }
}

pub open spec fn transaction_views(ts: Seq<Transaction>) -> Seq<TransactionView> {
    ts.map_values(|t: Transaction| t@)
}

/// Which lookup a loader waits for.
#[derive(Clone, Copy)]
pub enum LoadStep {
    /// The lines of the sale at this index.
    AwaitItems(usize),
    /// The product of the line at the second index, for the sale at the first.
    AwaitProduct(usize, usize),
    /// The payments of the sale at this index.
    AwaitPayments(usize),
}

/// Sales being completed with their lines (and payments).
pub struct TransactionLoader {
    /// Whether each sale's payments are looked up too.
    pub with_payments: bool,
    /// The sales; those before the current one are complete.
    pub transactions: Vec<Transaction>,
    /// The lines of the current sale read so far.
    pub items: Vec<Item>,
    pub step: LoadStep,
}

pub struct LoaderView {
    pub with_payments: bool,
    pub transactions: Seq<TransactionView>,
    pub items: Seq<Item>,
    pub step: LoadStep,
}

impl View for TransactionLoader {
    type V = LoaderView;

    open spec fn view(&self) -> LoaderView {
        LoaderView {
            with_payments: self.with_payments,
            transactions: transaction_views(self.transactions@),
            items: self.items@,
            step: self.step,
        }
    }
}

/// The outcome of a lookup.
pub enum LoadEvent {
    /// The line rows of the sale (each read as an item, or not), or `None`
    /// when the lookup failed.
    ItemsFetched(Option<Vec<Option<Item>>>),
    /// The product, or `None` when it could not be looked up or read.
    ProductFetched(Option<Product>),
    /// The payments, or `None` when they could not be looked up or read.
    PaymentsFetched(Option<Vec<Payment>>),
}

pub enum LoadEventView {
    ItemsFetched(Option<Seq<Option<Item>>>),
    ProductFetched(Option<Product>),
    PaymentsFetched(Option<Seq<Payment>>),
}

impl View for LoadEvent {
    type V = LoadEventView;

    open spec fn view(&self) -> LoadEventView {
        match self {
            LoadEvent::ItemsFetched(Some(rows)) => LoadEventView::ItemsFetched(Some(rows@)),
            LoadEvent::ItemsFetched(None) => LoadEventView::ItemsFetched(None),
            LoadEvent::ProductFetched(p) => LoadEventView::ProductFetched(*p),
            LoadEvent::PaymentsFetched(Some(ps)) => LoadEventView::PaymentsFetched(Some(ps@)),
            LoadEvent::PaymentsFetched(None) => LoadEventView::PaymentsFetched(None),
        }
    }
}

/// A lookup the loader asks for.
pub enum LoadAction {
    FetchItems(Statement),
    FetchProduct(Statement),
    FetchPayments(Statement),
}

pub enum LoadActionView {
    FetchItems(StatementView),
    FetchProduct(StatementView),
    FetchPayments(StatementView),
}

impl View for LoadAction {
    type V = LoadActionView;

    open spec fn view(&self) -> LoadActionView {
        match self {
            LoadAction::FetchItems(s) => LoadActionView::FetchItems(s@),
            LoadAction::FetchProduct(s) => LoadActionView::FetchProduct(s@),
            LoadAction::FetchPayments(s) => LoadActionView::FetchPayments(s@),
        }
    }
}

/// What a loading step leads to.
pub enum LoadTransition {
    Continue(TransactionLoader, LoadAction),
    /// The complete sales, or `None` when a lookup failed.
    Done(Option<Vec<Transaction>>),
}

pub enum LoadTransitionView {
    Continue(LoaderView, LoadActionView),
    Done(Option<Seq<TransactionView>>),
}

impl View for LoadTransition {
    type V = LoadTransitionView;

    open spec fn view(&self) -> LoadTransitionView {
        match self {
            LoadTransition::Continue(l, a) => LoadTransitionView::Continue(l@, a@),
            LoadTransition::Done(Some(ts)) => LoadTransitionView::Done(Some(transaction_views(ts@))),
            LoadTransition::Done(None) => LoadTransitionView::Done(None),
        }
    }
}

/// The lookup of a sale's lines.
pub open spec fn items_query(t: TransactionView) -> StatementView {
    stmt(SELECT_ITEMS, seq![opt_int(t.transaction_id)])
}

/// The lookup of a line's product.
pub open spec fn product_query(item: Item) -> StatementView {
    stmt(SELECT_PRODUCT, seq![text(item.product_id)])
}

/// The lookup of a sale's payments.
pub open spec fn payments_query(t: TransactionView) -> StatementView {
    stmt(SELECT_PAYMENTS, seq![opt_int(t.transaction_id)])
}

/// Goes on with the sale at index `i`, or returns the sales after the last.
pub open spec fn open_sale(l: LoaderView, i: nat) -> LoadTransitionView {
    if i < l.transactions.len() {
        LoadTransitionView::Continue(
            LoaderView { items: seq![], step: LoadStep::AwaitItems(i as usize), ..l },
            LoadActionView::FetchItems(items_query(l.transactions[i as int])),
        )
    } else {
        LoadTransitionView::Done(Some(l.transactions))
    }
}

/// The sale at `i` with its lines and payments in place.
pub open spec fn completed(t: TransactionView, items: Seq<Item>, payments: Option<Seq<Payment>>) -> TransactionView {
    TransactionView { items, payments, ..t }
}

/// Puts the lines (and payments) in place in the sale at `i` and goes on with the next.
pub open spec fn complete_sale(l: LoaderView, i: nat, payments: Option<Seq<Payment>>) -> LoadTransitionView {
    open_sale(
        LoaderView {
            transactions: l.transactions.update(i as int, completed(l.transactions[i as int], l.items, payments)),
            ..l
        },
        i + 1,
    )
}

/// Once the lines of the sale at `i` have their products: looks up its
/// payments, or completes it keeping the payments it was read with.
pub open spec fn lines_done(l: LoaderView, i: nat) -> LoadTransitionView {
    if l.with_payments {
        LoadTransitionView::Continue(
            LoaderView { step: LoadStep::AwaitPayments(i as usize), ..l },
            LoadActionView::FetchPayments(payments_query(l.transactions[i as int])),
        )
    } else {
        complete_sale(l, i, l.transactions[i as int].payments)
    }
}

/// Looks up the product of the line at `j` of the sale at `i`, or moves on
/// after the last line.
pub open spec fn product_from(l: LoaderView, i: nat, j: nat) -> LoadTransitionView {
    if j < l.items.len() {
        LoadTransitionView::Continue(
            LoaderView { step: LoadStep::AwaitProduct(i as usize, j as usize), ..l },
            LoadActionView::FetchProduct(product_query(l.items[j as int])),
        )
    } else {
        lines_done(l, i)
    }
}

/// A line with its product in place.
pub open spec fn with_product(item: Item, p: Product) -> Item {
    Item { product: Some(p), ..item }
}

/// One loading step.
pub open spec fn load_next(l: LoaderView, e: LoadEventView) -> LoadTransitionView {
    match (l.step, e) {
        (LoadStep::AwaitItems(i), LoadEventView::ItemsFetched(Some(rows))) =>
            product_from(LoaderView { items: parsed(rows), ..l }, i as nat, 0),
        (LoadStep::AwaitProduct(i, j), LoadEventView::ProductFetched(Some(p))) =>
            product_from(LoaderView { items: l.items.update(j as int, with_product(l.items[j as int], p)), ..l }, i as nat, (j + 1) as nat),
        (LoadStep::AwaitPayments(i), LoadEventView::PaymentsFetched(Some(ps))) =>
            complete_sale(l, i as nat, Some(ps)),
        _ => LoadTransitionView::Done(None),
    }
}

/// Whether an event answers the lookup a loader waits for.
pub open spec fn load_accepts(step: LoadStep, e: LoadEventView) -> bool {
    match (step, e) {
        (LoadStep::AwaitItems(_), LoadEventView::ItemsFetched(_)) => true,
        (LoadStep::AwaitProduct(_, _), LoadEventView::ProductFetched(_)) => true,
        (LoadStep::AwaitPayments(_), LoadEventView::PaymentsFetched(_)) => true,
        _ => false,
    }
}

/// A loader's indices point into what they index.
pub open spec fn loader_wf(l: LoaderView) -> bool {
    match l.step {
        LoadStep::AwaitItems(i) => i < l.transactions.len(),
        LoadStep::AwaitProduct(i, j) => i < l.transactions.len() && j < l.items.len(),
        LoadStep::AwaitPayments(i) => i < l.transactions.len() && l.with_payments,
    }
}

/// Whether the event answers the lookup the loader waits for.
pub fn load_accepts_event(step: LoadStep, e: &LoadEvent) -> (b: bool)
    ensures
        b == load_accepts(step, e@),
{
    match (step, e) {
        (LoadStep::AwaitItems(_), LoadEvent::ItemsFetched(_)) => true,
        (LoadStep::AwaitProduct(_, _), LoadEvent::ProductFetched(_)) => true,
        (LoadStep::AwaitPayments(_), LoadEvent::PaymentsFetched(_)) => true,
        _ => false,
    }
}

fn items_lookup(t: &Transaction) -> (st: Statement)
    ensures
        st@ == items_query(t@),
{
    let st = Statement { sql: SELECT_ITEMS, params: vec![opt_int_param(t.transaction_id)] };
    assert(st@.params =~= items_query(t@).params);
    st
}

fn payments_lookup(t: &Transaction) -> (st: Statement)
    ensures
        st@ == payments_query(t@),
{
    let st = Statement { sql: SELECT_PAYMENTS, params: vec![opt_int_param(t.transaction_id)] };
    assert(st@.params =~= payments_query(t@).params);
    st
}

fn product_lookup(item: &Item) -> (st: Statement)
    ensures
        st@ == product_query(*item),
{
    let st = Statement { sql: SELECT_PRODUCT, params: vec![text_param(&item.product_id)] };
    assert(st@.params =~= product_query(*item).params);
    st
}

fn open_sale_exec(l: TransactionLoader, i: usize) -> (t: LoadTransition)
    ensures
        t@ == open_sale(l@, i as nat),
        t matches LoadTransition::Continue(l2, _) ==> loader_wf(l2@),
{
    let mut l = l;
    if i < l.transactions.len() {
        let st = items_lookup(&l.transactions[i]);
        l.items = Vec::new();
        l.step = LoadStep::AwaitItems(i);
        assert(l@.items =~= seq![]);
        LoadTransition::Continue(l, LoadAction::FetchItems(st))
    } else {
        LoadTransition::Done(Some(l.transactions))
    }
}

fn complete_sale_exec(l: TransactionLoader, i: usize, payments: Option<Vec<Payment>>, keep_payments: bool) -> (t: LoadTransition)
    requires
        i < l.transactions@.len(),
    ensures
        t@ == complete_sale(
            l@,
            i as nat,
            if keep_payments { l@.transactions[i as int].payments } else { payments_view(payments) },
        ),
        t matches LoadTransition::Continue(l2, _) ==> loader_wf(l2@),
{
    let TransactionLoader { with_payments, mut transactions, items, step } = l;
    let ghost before = transactions@;
    let ghost item_seq = items@;
    let mut sale = transactions.remove(i);
    let ghost kept = sale.payments;
    sale.items = items;
    if !keep_payments {
        sale.payments = payments;
    }
    let ghost new_payments = if keep_payments { payments_view(kept) } else { payments_view(payments) };
    transactions.insert(i, sale);
    assert(transaction_views(transactions@) =~= transaction_views(before).update(
        i as int,
        completed(before[i as int]@, item_seq, new_payments),
    ));
    let n = transactions.len();
    assert(i < n);
    let l2 = TransactionLoader { with_payments, transactions, items: Vec::new(), step };
    open_sale_exec(l2, i + 1)
}

fn lines_done_exec(l: TransactionLoader, i: usize) -> (t: LoadTransition)
    requires
        i < l.transactions@.len(),
    ensures
        t@ == lines_done(l@, i as nat),
        t matches LoadTransition::Continue(l2, _) ==> loader_wf(l2@),
{
    let mut l = l;
    if l.with_payments {
        let st = payments_lookup(&l.transactions[i]);
        l.step = LoadStep::AwaitPayments(i);
        LoadTransition::Continue(l, LoadAction::FetchPayments(st))
    } else {
        complete_sale_exec(l, i, None, true)
    }
}

fn product_from_exec(l: TransactionLoader, i: usize, j: usize) -> (t: LoadTransition)
    requires
        i < l.transactions@.len(),
        j <= l.items@.len(),
    ensures
        t@ == product_from(l@, i as nat, j as nat),
        t matches LoadTransition::Continue(l2, _) ==> loader_wf(l2@),
{
    let mut l = l;
    if j < l.items.len() {
        let st = product_lookup(&l.items[j]);
        l.step = LoadStep::AwaitProduct(i, j);
        LoadTransition::Continue(l, LoadAction::FetchProduct(st))
    } else {
        lines_done_exec(l, i)
    }
}

impl TransactionLoader {
    /// Whether the loader's indices point into what they index.
    pub fn is_consistent(&self) -> (b: bool)
        ensures
            b == loader_wf(self@),
    {
        match self.step {
            LoadStep::AwaitItems(i) => i < self.transactions.len(),
            LoadStep::AwaitProduct(i, j) => i < self.transactions.len() && j < self.items.len(),
            LoadStep::AwaitPayments(i) => i < self.transactions.len() && self.with_payments,
        }
    }

    /// Starts loading from the sale rows (each read as a sale, or not): the
    /// rows that could be read are kept, in order, and the lines of the first
    /// sale are looked up; with no sale, loading is over at once.
    pub fn start(rows: Vec<Option<Transaction>>, with_payments: bool) -> (t: LoadTransition)
        ensures
            t@ == open_sale(
                LoaderView {
                    with_payments,
                    transactions: transaction_views(parsed(rows@)),
                    items: seq![],
                    step: LoadStep::AwaitItems(0),
                },
                0,
            ),
            t matches LoadTransition::Continue(l2, _) ==> loader_wf(l2@),
    {
        let transactions = keep_parsed(rows);
        let l = TransactionLoader { with_payments, transactions, items: Vec::new(), step: LoadStep::AwaitItems(0) };
        assert(l@.items =~= seq![]);
        open_sale_exec(l, 0)
    }

    /// Takes the outcome of the lookup last asked for (see [`load_next`]).
    pub fn step(self, event: LoadEvent) -> (t: LoadTransition)
        requires
            loader_wf(self@),
            load_accepts(self@.step, event@),
        ensures
            t@ == load_next(self@, event@),
            t matches LoadTransition::Continue(l2, _) ==> loader_wf(l2@),
    {
        let mut l = self;
        match event {
            LoadEvent::ItemsFetched(Some(rows)) => {
                let i = match l.step {
                    LoadStep::AwaitItems(i) => i,
                    // Not reached: `load_accepts` pairs the event with this step.
                    _ => 0,
                };
                l.items = keep_parsed(rows);
                product_from_exec(l, i, 0)
            },
            LoadEvent::ProductFetched(Some(p)) => {
                let (i, j) = match l.step {
                    LoadStep::AwaitProduct(i, j) => (i, j),
                    // Not reached: `load_accepts` pairs the event with this step.
                    _ => (0, 0),
                };
                let ghost before = l.items@;
                let n = l.items.len();
                assert(j < n);
                let mut item = l.items.remove(j);
                item.product = Some(p);
                l.items.insert(j, item);
                assert(l.items@ =~= before.update(j as int, with_product(before[j as int], p)));
                product_from_exec(l, i, j + 1)
            },
            LoadEvent::PaymentsFetched(Some(ps)) => {
                let i = match l.step {
                    LoadStep::AwaitPayments(i) => i,
                    // Not reached: `load_accepts` pairs the event with this step.
                    _ => 0,
                };
                complete_sale_exec(l, i, Some(ps), false)
            },
            _ => LoadTransition::Done(None),
        }
    }
}

// ---------------------------------------------------------------------------
// Law of loading
// ---------------------------------------------------------------------------

/// A lookup that fails ends the listing at once, with nothing.
pub proof fn lemma_failed_lookup(l: LoaderView, e: LoadEventView)
    requires
        load_accepts(l.step, e),
        (e matches LoadEventView::ItemsFetched(None)) || (e matches LoadEventView::ProductFetched(None))
            || (e matches LoadEventView::PaymentsFetched(None)),
    ensures
        load_next(l, e) == LoadTransitionView::Done(None),
{
}

/// Feeding lookup outcomes to a loader one by one: how it stands afterwards.
pub open spec fn load_run(t: LoadTransitionView, events: Seq<LoadEventView>) -> LoadTransitionView
    decreases events.len(),
{
    match t {
        LoadTransitionView::Continue(l, _) => if events.len() > 0 {
            load_run(load_next(l, events[0]), events.drop_first())
        } else {
            t
        },
        _ => t,
    }
}

pub open spec fn fetched_products(products: Seq<Product>) -> Seq<LoadEventView> {
    products.map_values(|p: Product| LoadEventView::ProductFetched(Some(p)))
}

/// The successful lookups for one sale: its line rows, the product of each
/// readable line in order, and (when asked for) its payments.
pub open spec fn sale_events(
    with_payments: bool,
    rows: Seq<Option<Item>>,
    products: Seq<Product>,
    payments: Seq<Payment>,
) -> Seq<LoadEventView> {
    seq![LoadEventView::ItemsFetched(Some(rows))] + fetched_products(products) + if with_payments {
        seq![LoadEventView::PaymentsFetched(Some(payments))]
    } else {
        seq![]
    }
}

/// The successful lookups for the sales from index `from` on.
pub open spec fn listing_events(
    with_payments: bool,
    rows: Seq<Seq<Option<Item>>>,
    products: Seq<Seq<Product>>,
    payments: Seq<Seq<Payment>>,
    from: int,
) -> Seq<LoadEventView>
    decreases rows.len() - from,
{
    if 0 <= from < rows.len() {
        sale_events(with_payments, rows[from], products[from], payments[from])
            + listing_events(with_payments, rows, products, payments, from + 1)
    } else {
        seq![]
    }
}

/// The readable lines of a sale, each with the product looked up for it.
pub open spec fn lines(rows: Seq<Option<Item>>, products: Seq<Product>) -> Seq<Item> {
    Seq::new(parsed(rows).len(), |j: int| with_product(parsed(rows)[j], products[j]))
}

/// A sale completed with its lines and (when asked for) its payments.
pub open spec fn loaded_sale(
    with_payments: bool,
    t: TransactionView,
    rows: Seq<Option<Item>>,
    products: Seq<Product>,
    payments: Seq<Payment>,
) -> TransactionView {
    completed(t, lines(rows, products), if with_payments { Some(payments) } else { t.payments })
}

/// The sales completed from index `from` on, the earlier ones as given.
pub open spec fn loaded_from(
    with_payments: bool,
    ts: Seq<TransactionView>,
    rows: Seq<Seq<Option<Item>>>,
    products: Seq<Seq<Product>>,
    payments: Seq<Seq<Payment>>,
    done: int,
) -> Seq<TransactionView> {
    Seq::new(ts.len(), |k: int| if k < done {
        loaded_sale(with_payments, ts[k], rows[k], products[k], payments[k])
    } else {
        ts[k]
    })
}

/// The lookups of a listing all answer, for each sale in turn.
pub open spec fn listing_answers(
    ts: Seq<TransactionView>,
    rows: Seq<Seq<Option<Item>>>,
    products: Seq<Seq<Product>>,
    payments: Seq<Seq<Payment>>,
) -> bool {
    &&& rows.len() == ts.len()
    &&& products.len() == ts.len()
    &&& payments.len() == ts.len()
    &&& ts.len() <= usize::MAX
    &&& forall|k: int| 0 <= k < ts.len() ==> (#[trigger] products[k]).len() == parsed(rows[k]).len()
    &&& forall|k: int| 0 <= k < ts.len() ==> parsed(#[trigger] rows[k]).len() <= usize::MAX
}

proof fn lemma_run_step(l: LoaderView, a: LoadActionView, e: LoadEventView, rest: Seq<LoadEventView>)
    ensures
        load_run(LoadTransitionView::Continue(l, a), seq![e] + rest) == load_run(load_next(l, e), rest),
{
    assert((seq![e] + rest).drop_first() =~= rest);
}

proof fn lemma_products_run(
    l: LoaderView,
    i: nat,
    j: nat,
    rows: Seq<Option<Item>>,
    products: Seq<Product>,
    tail: Seq<LoadEventView>,
)
    requires
        i < l.transactions.len(),
        l.transactions.len() <= usize::MAX,
        parsed(rows).len() <= usize::MAX,
        products.len() == parsed(rows).len(),
        l.items.len() == parsed(rows).len(),
        j <= l.items.len(),
        forall|k: int| 0 <= k < j ==> #[trigger] l.items[k] == with_product(parsed(rows)[k], products[k]),
        forall|k: int| j <= k < l.items.len() ==> #[trigger] l.items[k] == parsed(rows)[k],
    ensures
        load_run(product_from(l, i, j), fetched_products(products.subrange(j as int, products.len() as int)) + tail)
            == load_run(lines_done(LoaderView { items: lines(rows, products), ..l }, i), tail),
    decreases l.items.len() - j,
{
    let n = l.items.len();
    if j == n {
        assert(l.items =~= lines(rows, products));
        assert(fetched_products(products.subrange(j as int, products.len() as int)) + tail =~= tail);
        assert(LoaderView { items: lines(rows, products), ..l } == l);
    } else {
        let l1 = LoaderView { step: LoadStep::AwaitProduct(i as usize, j as usize), ..l };
        let e = LoadEventView::ProductFetched(Some(products[j as int]));
        let rest = fetched_products(products.subrange((j + 1) as int, products.len() as int)) + tail;
        assert(fetched_products(products.subrange(j as int, products.len() as int)) + tail =~= seq![e] + rest);
        lemma_run_step(l1, LoadActionView::FetchProduct(product_query(l.items[j as int])), e, rest);
        let l2 = LoaderView { items: l1.items.update(j as int, with_product(l1.items[j as int], products[j as int])), ..l1 };
        assert(load_next(l1, e) == product_from(l2, i, j + 1));
        lemma_products_run(l2, i, j + 1, rows, products, tail);
        assert(LoaderView { items: lines(rows, products), ..l2 } == LoaderView { items: lines(rows, products), step: l1.step, ..l });
        assert(lines_done(LoaderView { items: lines(rows, products), ..l2 }, i)
            == lines_done(LoaderView { items: lines(rows, products), ..l }, i));
    }
}

proof fn lemma_sales_run(
    l: LoaderView,
    i: nat,
    ts: Seq<TransactionView>,
    rows: Seq<Seq<Option<Item>>>,
    products: Seq<Seq<Product>>,
    payments: Seq<Seq<Payment>>,
)
    requires
        listing_answers(ts, rows, products, payments),
        i <= ts.len(),
        l.transactions == loaded_from(l.with_payments, ts, rows, products, payments, i as int),
    ensures
        load_run(open_sale(l, i), listing_events(l.with_payments, rows, products, payments, i as int))
            == LoadTransitionView::Done(Some(loaded_from(l.with_payments, ts, rows, products, payments, ts.len() as int))),
    decreases ts.len() - i,
{
    let w = l.with_payments;
    if i == ts.len() {
        assert(loaded_from(w, ts, rows, products, payments, i as int)
            =~= loaded_from(w, ts, rows, products, payments, ts.len() as int));
    } else {
        let r = rows[i as int];
        let ps = products[i as int];
        let qs = payments[i as int];
        assert(ps.len() == parsed(r).len());
        assert(parsed(r).len() <= usize::MAX);
        let tail = listing_events(w, rows, products, payments, (i + 1) as int);
        let pay_events: Seq<LoadEventView> = if w { seq![LoadEventView::PaymentsFetched(Some(qs))] } else { seq![] };
        let l1 = LoaderView { items: seq![], step: LoadStep::AwaitItems(i as usize), ..l };
        let e = LoadEventView::ItemsFetched(Some(r));
        let rest = fetched_products(ps) + (pay_events + tail);
        assert(listing_events(w, rows, products, payments, i as int) =~= seq![e] + rest);
        lemma_run_step(l1, LoadActionView::FetchItems(items_query(l.transactions[i as int])), e, rest);
        let l2 = LoaderView { items: parsed(r), ..l1 };
        assert(load_next(l1, e) == product_from(l2, i, 0));
        assert(ps.subrange(0, ps.len() as int) =~= ps);
        lemma_products_run(l2, i, 0, r, ps, pay_events + tail);
        let l3 = LoaderView { items: lines(r, ps), ..l2 };
        let new_payments = if w { Some(qs) } else { l.transactions[i as int].payments };
        let l4 = LoaderView {
            transactions: l3.transactions.update(i as int, completed(l3.transactions[i as int], l3.items, new_payments)),
            ..l3
        };
        assert(l4.transactions =~= loaded_from(w, ts, rows, products, payments, (i + 1) as int));
        if w {
            let l5 = LoaderView { step: LoadStep::AwaitPayments(i as usize), ..l3 };
            let pe = LoadEventView::PaymentsFetched(Some(qs));
            lemma_run_step(l5, LoadActionView::FetchPayments(payments_query(l3.transactions[i as int])), pe, tail);
            assert(load_next(l5, pe) == complete_sale(l5, i, Some(qs)));
            assert(complete_sale(l5, i, Some(qs)) == open_sale(LoaderView { step: l5.step, ..l4 }, i + 1));
            lemma_sales_run(LoaderView { step: l5.step, ..l4 }, i + 1, ts, rows, products, payments);
        } else {
            assert(pay_events + tail =~= tail);
            lemma_sales_run(l4, i + 1, ts, rows, products, payments);
        }
    }
}

/// A listing in which every lookup answers returns every sale read, in
/// order, each with its readable lines in order, each line carrying the
/// product looked up for it, and, when payments are asked for, each sale
/// carrying the payments looked up for it.
pub proof fn lemma_complete_listing(
    with_payments: bool,
    ts: Seq<TransactionView>,
    rows: Seq<Seq<Option<Item>>>,
    products: Seq<Seq<Product>>,
    payments: Seq<Seq<Payment>>,
)
    requires
        listing_answers(ts, rows, products, payments),
    ensures
        load_run(
            open_sale(LoaderView { with_payments, transactions: ts, items: seq![], step: LoadStep::AwaitItems(0) }, 0),
            listing_events(with_payments, rows, products, payments, 0),
        ) == LoadTransitionView::Done(Some(
            Seq::new(ts.len(), |k: int| loaded_sale(with_payments, ts[k], rows[k], products[k], payments[k])),
        )),
{
    let l = LoaderView { with_payments, transactions: ts, items: seq![], step: LoadStep::AwaitItems(0) };
    assert(ts =~= loaded_from(with_payments, ts, rows, products, payments, 0));
    lemma_sales_run(l, 0, ts, rows, products, payments);
    assert(loaded_from(with_payments, ts, rows, products, payments, ts.len() as int)
        =~= Seq::new(ts.len(), |k: int| loaded_sale(with_payments, ts[k], rows[k], products[k], payments[k])));
}

// ---------------------------------------------------------------------------
// The listing queries
// ---------------------------------------------------------------------------

/// The pattern that matches any text containing `q`.
pub open spec fn contains_pattern(q: Seq<char>) -> Seq<char> {
    "%"@ + q + "%"@
}

/// Builds the pattern that matches any text containing `q`.
pub fn like_pattern(q: &str) -> (p: String)
    ensures
        p@ == contains_pattern(q@),
{
    let mut p = "%".to_owned();
    p.append(q);
    p.append("%");
    p
}

/// Builds the lookup of the sales not yet sent to the cloud.
pub fn unsynced_transactions() -> (st: Statement)
    ensures
        st@ == stmt(SELECT_UNSYNCED_TRANSACTIONS, seq![]),
{
    let st = Statement { sql: SELECT_UNSYNCED_TRANSACTIONS, params: Vec::new() };
    assert(st@.params =~= seq![]);
    st
}

/// Builds the lookup of the sales made after `moment`, newest first.
pub fn transactions_since(moment: &String) -> (st: Statement)
    ensures
        st@ == stmt(SELECT_TRANSACTIONS_SINCE, seq![text(*moment)]),
{
    let st = Statement { sql: SELECT_TRANSACTIONS_SINCE, params: vec![text_param(moment)] };
    assert(st@.params =~= seq![text(*moment)]);
    st
}

/// Builds the search of sales by product name or invoice number: both
/// placeholders get the pattern matching any text containing `q`.
pub fn search_transactions(q: &str) -> (st: Statement)
    ensures
        st@.sql == SEARCH_TRANSACTIONS@,
        st@.params.len() == 2,
        st@.params[0] == crate::sql::ParamView::Text(contains_pattern(q@)),
        st@.params[1] == crate::sql::ParamView::Text(contains_pattern(q@)),
{
    let st = Statement {
        sql: SEARCH_TRANSACTIONS,
        params: vec![crate::sql::Param::Text(like_pattern(q)), crate::sql::Param::Text(like_pattern(q))],
    };
    st
}

/// Builds the lookup of the local product changes.
pub fn product_updates() -> (st: Statement)
    ensures
        st@ == stmt(SELECT_PRODUCT_UPDATES, seq![]),
{
    let st = Statement { sql: SELECT_PRODUCT_UPDATES, params: Vec::new() };
    assert(st@.params =~= seq![]);
    st
}

/// Builds the lookup of the local refunds.
pub fn transaction_updates() -> (st: Statement)
    ensures
        st@ == stmt(SELECT_TRANSACTION_UPDATES, seq![]),
{
    let st = Statement { sql: SELECT_TRANSACTION_UPDATES, params: Vec::new() };
    assert(st@.params =~= seq![]);
    st
}

/// Which sales a listing shows.
pub enum Listing {
    /// The sales not yet sent to the cloud.
    ForSynchronization,
    /// The sales made since the start of a day.
    SinceMidnight { year: i32, month: u32, day: u32 },
    /// The sales with a line whose product name, or whose invoice number,
    /// contains the text.
    Matching(String),
}

/// The lookup a listing runs, and whether its sales are loaded with their
/// payments: only the sales bound for the cloud are.
pub fn listing_query(listing: &Listing) -> (r: (Statement, bool))
    requires
        listing matches Listing::SinceMidnight { year, month, day } ==> valid_date(*year, *month, *day),
    ensures
        match listing {
            Listing::ForSynchronization => r.0@ == stmt(SELECT_UNSYNCED_TRANSACTIONS, seq![]) && r.1,
            Listing::SinceMidnight { year, month, day } => {
                &&& r.0@ == stmt(SELECT_TRANSACTIONS_SINCE, seq![ParamView::Text(midnight_text(*year, *month, *day))])
                &&& !r.1
            },
            Listing::Matching(q) => {
                &&& r.0@ == stmt(
                    SEARCH_TRANSACTIONS,
                    seq![ParamView::Text(contains_pattern(q@)), ParamView::Text(contains_pattern(q@))],
                )
                &&& !r.1
            },
        },
{
    match listing {
        Listing::ForSynchronization => (unsynced_transactions(), true),
        Listing::SinceMidnight { year, month, day } => {
            let st = sales_of_the_day(*year, *month, *day);
            (st, false)
        },
        Listing::Matching(q) => {
            let st = search_transactions(q.as_str());
            assert(st@.params =~= seq![ParamView::Text(contains_pattern(q@)), ParamView::Text(contains_pattern(q@))]);
            (st, false)
        },
    }
}

/// Each lookup a loader asks for names its subject: a sale's lines and a
/// sale's payments are looked up by that sale's row id, a line's product by
/// the line's product id, where the sale and the line are the ones the
/// loader then waits on.
pub open spec fn asks_by_subject(t: LoadTransitionView) -> bool {
    match t {
        LoadTransitionView::Continue(l2, LoadActionView::FetchItems(st)) => {
            &&& l2.step matches LoadStep::AwaitItems(i) && i < l2.transactions.len()
                && st.params == seq![opt_int(l2.transactions[i as int].transaction_id)]
            &&& st.sql == SELECT_ITEMS@
        },
        LoadTransitionView::Continue(l2, LoadActionView::FetchProduct(st)) => {
            &&& l2.step matches LoadStep::AwaitProduct(i, j) && j < l2.items.len()
                && st.params == seq![ParamView::Text(l2.items[j as int].product_id@)]
            &&& st.sql == SELECT_PRODUCT@
        },
        LoadTransitionView::Continue(l2, LoadActionView::FetchPayments(st)) => {
            &&& l2.step matches LoadStep::AwaitPayments(i) && i < l2.transactions.len()
                && st.params == seq![opt_int(l2.transactions[i as int].transaction_id)]
            &&& st.sql == SELECT_PAYMENTS@
        },
        LoadTransitionView::Done(_) => true,
    }
}

proof fn lemma_open_sale_asks_by_subject(l: LoaderView, i: nat)
    requires
        l.transactions.len() <= usize::MAX,
    ensures
        asks_by_subject(open_sale(l, i)),
{
}

proof fn lemma_product_from_asks_by_subject(l: LoaderView, i: nat, j: nat)
    requires
        i < l.transactions.len() <= usize::MAX,
        l.items.len() <= usize::MAX,
    ensures
        asks_by_subject(product_from(l, i, j)),
{
    if j >= l.items.len() && !l.with_payments {
        let l2 = LoaderView {
            transactions: l.transactions.update(i as int, completed(l.transactions[i as int], l.items, l.transactions[i as int].payments)),
            ..l
        };
        lemma_open_sale_asks_by_subject(l2, i + 1);
    }
}

/// Starting a listing and every step of it ask for lookups by their
/// subject (see [`asks_by_subject`]). The lists involved fit in memory.
pub proof fn lemma_lookups_name_their_subject(l: LoaderView, e: LoadEventView)
    requires
        loader_wf(l),
        l.transactions.len() <= usize::MAX,
        l.items.len() <= usize::MAX,
        e matches LoadEventView::ItemsFetched(Some(rows)) ==> parsed(rows).len() <= usize::MAX,
    ensures
        asks_by_subject(open_sale(l, 0)),
        asks_by_subject(load_next(l, e)),
{
    lemma_open_sale_asks_by_subject(l, 0);
    match (l.step, e) {
        (LoadStep::AwaitItems(i), LoadEventView::ItemsFetched(Some(rows))) => {
            lemma_product_from_asks_by_subject(LoaderView { items: parsed(rows), ..l }, i as nat, 0);
        },
        (LoadStep::AwaitProduct(i, j), LoadEventView::ProductFetched(Some(p))) => {
            lemma_product_from_asks_by_subject(
                LoaderView { items: l.items.update(j as int, with_product(l.items[j as int], p)), ..l },
                i as nat,
                (j + 1) as nat,
            );
        },
        (LoadStep::AwaitPayments(i), LoadEventView::PaymentsFetched(Some(ps))) => {
            let l2 = LoaderView {
                transactions: l.transactions.update(i as int, completed(l.transactions[i as int], l.items, Some(ps))),
                ..l
            };
            lemma_open_sale_asks_by_subject(l2, (i + 1) as nat);
        },
        _ => {},
    }
}

/// Reading rows keeps what each row gave, in order, and nothing else: a row
/// read as `x` contributes `x`, an unreadable row contributes nothing, and
/// reading two runs of rows one after the other gives the records of the
/// first run followed by those of the second.
pub proof fn lemma_parsed_keeps_what_was_read<T>(a: Seq<Option<T>>, b: Seq<Option<T>>, x: T)
    ensures
        parsed(a + b) == parsed(a) + parsed(b),
        parsed(seq![Some(x)]) == seq![x],
        parsed(seq![None::<T>]) == Seq::<T>::empty(),
        parsed(Seq::<Option<T>>::empty()) == Seq::<T>::empty(),
        parsed(a).len() <= a.len(),
    decreases a.len(),
{
    assert(parsed(Seq::<Option<T>>::empty()) =~= Seq::<T>::empty());
    assert(seq![Some(x)].drop_first() =~= Seq::<Option<T>>::empty());
    assert(parsed(seq![Some(x)]) == seq![x] + parsed(seq![Some(x)].drop_first()));
    assert(parsed(seq![None::<T>]) == parsed(seq![None::<T>].drop_first()));
    assert(seq![None::<T>].drop_first() =~= Seq::<Option<T>>::empty());
    assert(seq![x] + Seq::<T>::empty() =~= seq![x]);
    if a.len() == 0 {
        assert(a + b =~= b);
        assert(parsed(a) + parsed(b) =~= parsed(b));
    } else {
        lemma_parsed_keeps_what_was_read(a.drop_first(), b, x);
        assert((a + b).drop_first() =~= a.drop_first() + b);
        assert((a + b)[0] == a[0]);
        match a[0] {
            Some(y) => {
                assert(seq![y] + (parsed(a.drop_first()) + parsed(b)) =~= (seq![y] + parsed(a.drop_first())) + parsed(b));
            },
            None => {},
        }
    }
}

/// Reading every row or none: when every row was read the records come back
/// in order; when some row failed, the error of the first failing row comes
/// back.
pub proof fn lemma_all_or_first_error<T>(rows: Seq<Result<T, Seq<char>>>)
    ensures
        (forall|k: int| 0 <= k < rows.len() ==> (#[trigger] rows[k]) is Ok) ==> (
            all_or_first_error(rows) matches Ok(xs) && xs.len() == rows.len()
            && forall|k: int| 0 <= k < rows.len() ==> rows[k] == Ok::<T, Seq<char>>(#[trigger] xs[k])
        ),
        forall|k: int| 0 <= k < rows.len() && (#[trigger] rows[k]) is Err
            && (forall|j: int| 0 <= j < k ==> rows[j] is Ok) ==> all_or_first_error(rows) == Err::<Seq<T>, Seq<char>>(rows[k]->Err_0),
    decreases rows.len(),
{
    if rows.len() > 0 {
        let rest = rows.drop_first();
        lemma_all_or_first_error(rest);
        assert forall|k: int| 0 <= k < rows.len() && (#[trigger] rows[k]) is Err
            && (forall|j: int| 0 <= j < k ==> rows[j] is Ok) implies all_or_first_error(rows) == Err::<Seq<T>, Seq<char>>(rows[k]->Err_0) by {
            if k > 0 {
                assert(rows[0] is Ok);
                assert(rest[k - 1] == rows[k]);
                assert forall|j: int| 0 <= j < k - 1 implies rest[j] is Ok by {
                    assert(rest[j] == rows[j + 1]);
                }
            }
        }
        if forall|k: int| 0 <= k < rows.len() ==> (#[trigger] rows[k]) is Ok {
            assert forall|k: int| 0 <= k < rest.len() implies (#[trigger] rest[k]) is Ok by {
                assert(rest[k] == rows[k + 1]);
            }
            assert(rows[0] is Ok);
            let xs = all_or_first_error(rows)->Ok_0;
            let ys = all_or_first_error(rest)->Ok_0;
            assert forall|k: int| 0 <= k < rows.len() implies rows[k] == Ok::<T, Seq<char>>(#[trigger] xs[k]) by {
                if k > 0 {
                    assert(rest[k - 1] == rows[k]);
                    assert(xs[k] == ys[k - 1]);
                }
            }
        }
    }
}

/// The search pattern for `q` is `q` with one '%' before and one after.
pub proof fn lemma_contains_pattern(q: Seq<char>)
    ensures
        contains_pattern(q).len() == q.len() + 2,
        contains_pattern(q)[0] == '%',
        contains_pattern(q)[q.len() as int + 1] == '%',
        contains_pattern(q).subrange(1, q.len() as int + 1) == q,
{
    reveal_strlit("%");
    assert(contains_pattern(q).subrange(1, q.len() as int + 1) =~= q);
}

} // verus!
