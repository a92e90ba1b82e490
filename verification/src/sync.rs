//! Synchronization with the cloud: what the terminal sends up, how it applies
//! what comes down, and what it reports.
//!
//! The exchange alternates network and database work with decisions, so it is
//! a state machine: [`SyncSession::begin`] builds the upload, and
//! [`SyncSession::step`] takes the outcome of each piece of outside work and
//! says what to do next.

use vstd::prelude::*;
use crate::model::{CloudStruct, Entity, PaymentMethod, ProductUpdate, SyncInfo, SynchronizationStruct, Transaction, TransactionUpdate};
use crate::sql::{
    integer, opt_bool, text, ParamView, opt_bool_param, opt_int, opt_int_param, opt_real, opt_real_param, opt_text,
    opt_text_param, int_param, stmt, text_param, views, Param, Statement, StatementView,
};
use crate::text::{i32_to_text, int_text};
use crate::duplicate::{copy_reply, reply_view, ReplyView};
use crate::loader::transaction_views;

verus! {

/// Inserts a product announced by the cloud.
pub const CLOUD_INSERT_PRODUCT: &'static str = "INSERT INTO product (_id,name,quantity,category,barcode,reorderLimit,sell_price,cost_price,expiry_date,total_profit,quantity_sold,entityId,is_archived,createdAt,updatedAt) VALUES($1,$2,$3,$4,$5,$6,$7,$8,$9,$10,$11,$12,$13,$14,$15);";

/// Deletes a product the cloud has removed.
pub const CLOUD_DELETE_PRODUCT: &'static str = "DELETE FROM product WHERE _id = $1";

/// Overwrites a product with the cloud's values.
pub const CLOUD_OVERWRITE_PRODUCT: &'static str = "UPDATE product
                        SET 
                            quantity = $1,
                            quantity_sold = $2,
                            total_profit = $3,
                            cost_price = $4,
                            sell_price = $5,
                            name = $6,
                            barcode = $7,
                            reorderLimit = $8,
                            expiry_date = $9,
                            is_archived = $10
                        WHERE
                            _id = $11";

/// Overwrites the stored business account with the cloud's copy.
pub const CLOUD_UPDATE_ENTITY: &'static str = "UPDATE entity  
                    Set
                     business_name = $1,
                     email = $2,
                     phone =  $3,
                     message =  $4,
                     password =  $5,
                     address =  $6,
                     terminal =  $7,
                     createdAt =  $8,
                     updatedAt =  $9,
                     printSilently = $10,
                     syncTime =  $11
                     WHERE _id = $12
                    ;";

/// Stores a payment method unless one with the same id is already stored.
pub const CLOUD_INSERT_PAYMENT_METHOD: &'static str = "INSERT OR IGNORE INTO payment_method(_id,name,hidden) VALUES(?1,?2,?3);";

/// Forgets the local product changes once the cloud has them.
pub const CLEAR_PRODUCT_UPDATES: &'static str = "DELETE FROM product_update;";

/// Marks a sale as known to the cloud, under the cloud's id.
pub const MARK_TRANSACTION_SYNCED: &'static str = "UPDATE \"transaction\" SET is_synced = true, _id = ?1 WHERE transaction_id = ?2 AND terminal = ?3;";

/// How a product update from the cloud is applied, by its change type.
pub enum ChangeKind {
    New,
    Delete,
    Overwrite,
}

/// "new" inserts, "delete" deletes, anything else overwrites.
pub open spec fn change_kind(change_type: Seq<char>) -> ChangeKind {
    if change_type == "new"@ {
        ChangeKind::New
    } else if change_type == "delete"@ {
        ChangeKind::Delete
    } else {
        ChangeKind::Overwrite
    }
}

/// The statement that applies a cloud product update of the given kind.
pub open spec fn cloud_product_statement(u: ProductUpdate, kind: ChangeKind) -> StatementView {
    match kind {
        ChangeKind::New => stmt(CLOUD_INSERT_PRODUCT, seq![
            opt_text(u._id), opt_text(u.name), ParamView::Real(u.quantity), opt_text(u.category),
            opt_text(u.barcode), opt_real(u.reorderLimit), opt_real(u.sell_price),
            opt_real(u.cost_price), opt_text(u.expiry_date), opt_real(u.total_profit),
            opt_real(u.quantity_sold), text(u.entity_id), opt_bool(u.isArchived),
            opt_text(u.createdAt), opt_text(u.updatedAt),
        ]),
        ChangeKind::Delete => stmt(CLOUD_DELETE_PRODUCT, seq![opt_text(u._id)]),
        ChangeKind::Overwrite => stmt(CLOUD_OVERWRITE_PRODUCT, seq![
            ParamView::Real(u.quantity), opt_real(u.quantity_sold), opt_real(u.total_profit),
            opt_real(u.cost_price), opt_real(u.sell_price), opt_text(u.name),
            opt_text(u.barcode), opt_real(u.reorderLimit), opt_text(u.expiry_date),
            opt_bool(u.isArchived), opt_text(u.product_id),
        ]),
    }
}

/// The statement that applies a cloud product update; `None` when the update
/// carries no change type.
pub open spec fn apply_update_statement(u: ProductUpdate) -> Option<StatementView> {
    match u.change_type {
        Some(t) => Some(cloud_product_statement(u, change_kind(t@))),
        None => None,
    }
}

/// The statement that overwrites the stored business account.
pub open spec fn entity_update_statement(e: Entity) -> StatementView {
    stmt(CLOUD_UPDATE_ENTITY, seq![
        text(e.businessName), text(e.email), text(e.phone),
        text(e.message), text(e.password), text(e.address),
        text(e.terminal), text(e.createdAt), text(e.updatedAt),
        ParamView::Bool(e.printSilently), integer(e.syncTime), text(e._id),
    ])
}

/// The statement that stores a payment method sent down by the cloud.
pub open spec fn payment_method_statement(m: PaymentMethod) -> StatementView {
    stmt(CLOUD_INSERT_PAYMENT_METHOD, seq![text(m._id), text(m.name), ParamView::Bool(m.hidden)])
}

/// The statement that marks a sale as synchronized.
pub open spec fn mark_synced_statement(t: Transaction) -> StatementView {
    stmt(MARK_TRANSACTION_SYNCED, seq![opt_text(t._id), opt_int(t.transaction_id), text(t.terminal)])
}

/// What is run once the cloud has answered: the local product changes are
/// dropped, then each sale the cloud returned is marked as synchronized.
pub open spec fn clear_plan(transactions: Seq<Transaction>) -> Seq<StatementView> {
    seq![stmt(CLEAR_PRODUCT_UPDATES, seq![])] + transactions.map_values(|t: Transaction| mark_synced_statement(t))
}

/// The message reported after a successful exchange.
pub open spec fn success_message(cloud: i32, local: i32) -> Seq<char> {
    "Synchronization Successful\n"@ + int_text(cloud as int) + " cloud Updates\n"@
        + int_text(local as int) + " Local Updates"@
}

/// The message reported when a step fails with the error text `error`.
pub open spec fn failure_message(error: Seq<char>) -> Seq<char> {
    "Sync failed, "@ + error
}

/// Classifies a change type.
pub fn classify_change(change_type: &String) -> (k: ChangeKind)
    ensures
        k == change_kind(change_type@),
{
    let new_kind = "new".to_owned();
    let delete_kind = "delete".to_owned();
    if *change_type == new_kind {
        ChangeKind::New
    } else if *change_type == delete_kind {
        ChangeKind::Delete
    } else {
        ChangeKind::Overwrite
    }
}

/// Builds the statement that applies a cloud product update, or `None` when
/// the update has no change type.
pub fn apply_update(u: &ProductUpdate) -> (st: Option<Statement>)
    ensures
        st.is_some() == apply_update_statement(*u).is_some(),
        st.is_some() ==> st.unwrap()@ == apply_update_statement(*u).unwrap(),
{
    match &u.change_type {
        None => None,
        Some(t) => {
            let kind = classify_change(t);
            let st = match kind {
                ChangeKind::New => Statement {
                    sql: CLOUD_INSERT_PRODUCT,
                    params: vec![
                        opt_text_param(&u._id), opt_text_param(&u.name), Param::Real(u.quantity),
                        opt_text_param(&u.category), opt_text_param(&u.barcode),
                        opt_real_param(u.reorderLimit), opt_real_param(u.sell_price),
                        opt_real_param(u.cost_price), opt_text_param(&u.expiry_date),
                        opt_real_param(u.total_profit), opt_real_param(u.quantity_sold),
                        text_param(&u.entity_id), opt_bool_param(u.isArchived),
                        opt_text_param(&u.createdAt), opt_text_param(&u.updatedAt),
                    ],
                },
                ChangeKind::Delete => Statement {
                    sql: CLOUD_DELETE_PRODUCT,
                    params: vec![opt_text_param(&u._id)],
                },
                ChangeKind::Overwrite => Statement {
                    sql: CLOUD_OVERWRITE_PRODUCT,
                    params: vec![
                        Param::Real(u.quantity), opt_real_param(u.quantity_sold),
                        opt_real_param(u.total_profit), opt_real_param(u.cost_price),
                        opt_real_param(u.sell_price), opt_text_param(&u.name),
                        opt_text_param(&u.barcode), opt_real_param(u.reorderLimit),
                        opt_text_param(&u.expiry_date), opt_bool_param(u.isArchived),
                        opt_text_param(&u.product_id),
                    ],
                },
            };
            assert(st@.params =~= cloud_product_statement(*u, kind).params);
            Some(st)
        },
    }
}

/// Builds the statement that overwrites the stored business account.
pub fn entity_update(e: &Entity) -> (st: Statement)
    ensures
        st@ == entity_update_statement(*e),
{
    let st = Statement {
        sql: CLOUD_UPDATE_ENTITY,
        params: vec![
            text_param(&e.businessName), text_param(&e.email), text_param(&e.phone),
            text_param(&e.message), text_param(&e.password), text_param(&e.address),
            text_param(&e.terminal), text_param(&e.createdAt), text_param(&e.updatedAt),
            Param::Bool(e.printSilently), int_param(e.syncTime), text_param(&e._id),
        ],
    };
    assert(st@.params =~= entity_update_statement(*e).params);
    st
}

/// Builds the statement that stores a payment method from the cloud.
pub fn store_payment_method(m: &PaymentMethod) -> (st: Statement)
    ensures
        st@ == payment_method_statement(*m),
{
    let st = Statement {
        sql: CLOUD_INSERT_PAYMENT_METHOD,
        params: vec![text_param(&m._id), text_param(&m.name), Param::Bool(m.hidden)],
    };
    assert(st@.params =~= payment_method_statement(*m).params);
    st
}

/// Builds the statements run once the cloud has answered (see [`clear_plan`]).
pub fn clear_updates(transactions: &Vec<Transaction>) -> (plan: Vec<Statement>)
    ensures
        views(plan@) == clear_plan(transactions@),
{
    let mut plan: Vec<Statement> = Vec::new();
    let first = Statement { sql: CLEAR_PRODUCT_UPDATES, params: Vec::new() };
    assert(first@.params =~= seq![]);
    plan.push(first);
    assert(views(plan@) =~= clear_plan(transactions@.take(0)));
    for i in 0..transactions.len()
        invariant
            views(plan@) == clear_plan(transactions@.take(i as int)),
    {
        let t = &transactions[i];
        let st = Statement {
            sql: MARK_TRANSACTION_SYNCED,
            params: vec![opt_text_param(&t._id), opt_int_param(t.transaction_id), text_param(&t.terminal)],
        };
        assert(st@.params =~= mark_synced_statement(*t).params);
        let ghost before = plan@;
        plan.push(st);
        assert(transactions@.take(i + 1) =~= transactions@.take(i as int).push(*t));
        assert(views(plan@) =~= views(before).push(st@));
        assert(clear_plan(transactions@.take(i + 1)) =~= clear_plan(transactions@.take(i as int)).push(mark_synced_statement(*t)));
    }
    assert(transactions@.take(transactions.len() as int) =~= transactions@);
    plan
}

/// The message reported after a successful exchange.
pub fn success_text(cloud: i32, local: i32) -> (s: String)
    ensures
        s@ == success_message(cloud, local),
{
    let mut s = "Synchronization Successful\n".to_owned();
    s.append(i32_to_text(cloud).as_str());
    s.append(" cloud Updates\n");
    s.append(i32_to_text(local).as_str());
    s.append(" Local Updates");
    s
}

/// The message reported when a step fails.
pub fn failure_text(error: &String) -> (s: String)
    ensures
        s@ == failure_message(error@),
{
    let mut s = "Sync failed, ".to_owned();
    s.append(error.as_str());
    s
}


// ---------------------------------------------------------------------------
// The exchange as a state machine
// ---------------------------------------------------------------------------

/// Where a synchronization stands: which outside result it waits for.
#[derive(Clone, Copy)]
pub enum SyncStep {
    /// The upload has been handed out; waits for the cloud to answer.
    AwaitPush,
    /// Waits for the local store to open.
    AwaitDatabase,
    /// Waits for the cloud's reply to be read.
    AwaitCloudReply,
    /// The reply has been taken in; waits for the confirmation to go through.
    AwaitConfirm,
    /// Waits for the statement applying the cloud product update at this index.
    ApplyProduct(usize),
    /// Waits for the business account to be overwritten.
    AwaitEntityUpdate,
    /// Waits for the payment method at this index to be stored.
    StorePaymentMethod(usize),
}

/// A synchronization in progress.
pub struct SyncSession {
    pub step: SyncStep,
    /// What is reported if the exchange ends now.
    pub info: SyncInfo,
    /// The product updates the cloud sent down (empty until it answers).
    pub cloud_updates: Vec<ProductUpdate>,
}

/// The outcome of one piece of outside work, handed back to the session.
pub enum SyncEvent {
    /// The upload was answered (`Ok`) or could not be sent (`Err` with the error text).
    Pushed(Result<(), String>),
    /// The local store was opened, or not.
    DatabaseOpened(Result<(), String>),
    /// The cloud's reply, or the error met reading it.
    CloudReply(Result<CloudStruct, String>),
    /// The confirmation of the reply went through, or not.
    Confirmed(Result<(), String>),
    /// The statement last handed out ran, or failed.
    Executed(Result<(), String>),
}

/// Outside work the session asks for.
pub enum SyncAction {
    /// Open the local store.
    OpenDatabase,
    /// Read the cloud's reply.
    ReadCloudReply,
    /// Run these statements on a connection of their own, ignoring their
    /// failures, then send this reply (the cloud's, unchanged) back to confirm it.
    ClearAndConfirm(Vec<Statement>, CloudStruct),
    /// Run this statement.
    Execute(Statement),
}

/// What a step leads to.
pub enum SyncTransition {
    /// The exchange goes on with this action.
    Continue(SyncSession, SyncAction),
    /// The exchange is over: `Ok` on success, `Err` on failure.
    Finished(Result<SyncInfo, SyncInfo>),
    /// A cloud product update carries no change type; the exchange cannot go on.
    MissingChangeType,
    /// The cloud's account carries no payment methods; the exchange cannot go on.
    MissingPaymentMethods,
}

pub struct SyncInfoView {
    pub localUpdates: i32,
    pub cloudUpdates: i32,
    pub status: bool,
    pub message: Seq<char>,
    pub entity: Entity,
}

impl View for SyncInfo {
    type V = SyncInfoView;

    open spec fn view(&self) -> SyncInfoView {
        SyncInfoView {
            localUpdates: self.localUpdates,
            cloudUpdates: self.cloudUpdates,
            status: self.status,
            message: self.message@,
            entity: self.entity,
        }
    }
}

pub struct SyncSessionView {
    pub step: SyncStep,
    pub info: SyncInfoView,
    pub cloud_updates: Seq<ProductUpdate>,
}

impl View for SyncSession {
    type V = SyncSessionView;

    open spec fn view(&self) -> SyncSessionView {
        SyncSessionView { step: self.step, info: self.info@, cloud_updates: self.cloud_updates@ }
    }
}

pub struct CloudView {
    pub productUpdates: Seq<ProductUpdate>,
    pub transactions: Seq<Transaction>,
    pub entity: Entity,
}

impl View for CloudStruct {
    type V = CloudView;

    open spec fn view(&self) -> CloudView {
        CloudView {
            productUpdates: self.productUpdates@,
            transactions: self.transactions@,
            entity: self.entity,
        }
    }
}

pub enum SyncEventView {
    Pushed(Result<(), Seq<char>>),
    DatabaseOpened(Result<(), Seq<char>>),
    CloudReply(Result<CloudView, Seq<char>>),
    Confirmed(Result<(), Seq<char>>),
    Executed(Result<(), Seq<char>>),
}

pub open spec fn done_view(r: Result<(), String>) -> Result<(), Seq<char>> {
    match r {
        Ok(u) => Ok(u),
        Err(e) => Err(e@),
    }
}

impl View for SyncEvent {
    type V = SyncEventView;

    open spec fn view(&self) -> SyncEventView {
        match self {
            SyncEvent::Pushed(r) => SyncEventView::Pushed(done_view(*r)),
            SyncEvent::DatabaseOpened(r) => SyncEventView::DatabaseOpened(done_view(*r)),
            SyncEvent::CloudReply(r) => SyncEventView::CloudReply(
                match r {
                    Ok(c) => Ok(c@),
                    Err(e) => Err(e@),
                },
            ),
            SyncEvent::Confirmed(r) => SyncEventView::Confirmed(done_view(*r)),
            SyncEvent::Executed(r) => SyncEventView::Executed(done_view(*r)),
        }
    }
}

pub enum SyncActionView {
    OpenDatabase,
    ReadCloudReply,
    ClearAndConfirm(Seq<StatementView>, ReplyView),
    Execute(StatementView),
}

impl View for SyncAction {
    type V = SyncActionView;

    open spec fn view(&self) -> SyncActionView {
        match self {
            SyncAction::OpenDatabase => SyncActionView::OpenDatabase,
            SyncAction::ReadCloudReply => SyncActionView::ReadCloudReply,
            SyncAction::ClearAndConfirm(plan, reply) => SyncActionView::ClearAndConfirm(
                views(plan@),
                reply_view(*reply),
            ),
            SyncAction::Execute(st) => SyncActionView::Execute(st@),
        }
    }
}

pub enum SyncTransitionView {
    Continue(SyncSessionView, SyncActionView),
    Finished(Result<SyncInfoView, SyncInfoView>),
    MissingChangeType,
    MissingPaymentMethods,
}

impl View for SyncTransition {
    type V = SyncTransitionView;

    open spec fn view(&self) -> SyncTransitionView {
        match self {
            SyncTransition::Continue(s, a) => SyncTransitionView::Continue(s@, a@),
            SyncTransition::Finished(Ok(i)) => SyncTransitionView::Finished(Ok(i@)),
            SyncTransition::Finished(Err(i)) => SyncTransitionView::Finished(Err(i@)),
            SyncTransition::MissingChangeType => SyncTransitionView::MissingChangeType,
            SyncTransition::MissingPaymentMethods => SyncTransitionView::MissingPaymentMethods,
        }
    }
}

/// The session right after the upload is built: nothing received yet, the
/// report counts the local product updates and says the update failed.
pub open spec fn begin_session(entity: Entity, local_updates: nat) -> SyncSessionView {
    SyncSessionView {
        step: SyncStep::AwaitPush,
        info: SyncInfoView {
            localUpdates: local_updates as i32,
            cloudUpdates: 0,
            status: false,
            message: "Update failed"@,
            entity,
        },
        cloud_updates: seq![],
    }
}

/// The report after a failure: both counts are zero and the message names
/// the error; the status and the account stay as they were.
pub open spec fn failed(info: SyncInfoView, error: Seq<char>) -> SyncInfoView {
    SyncInfoView { localUpdates: 0, cloudUpdates: 0, message: failure_message(error), ..info }
}

pub open spec fn fail(info: SyncInfoView, error: Seq<char>) -> SyncTransitionView {
    SyncTransitionView::Finished(Err(failed(info, error)))
}

/// Whether an event is the one a step waits for.
pub open spec fn accepts(step: SyncStep, e: SyncEventView) -> bool {
    match (step, e) {
        (SyncStep::AwaitPush, SyncEventView::Pushed(_)) => true,
        (SyncStep::AwaitDatabase, SyncEventView::DatabaseOpened(_)) => true,
        (SyncStep::AwaitCloudReply, SyncEventView::CloudReply(_)) => true,
        (SyncStep::AwaitConfirm, SyncEventView::Confirmed(_)) => true,
        (SyncStep::ApplyProduct(_), SyncEventView::Executed(_)) => true,
        (SyncStep::AwaitEntityUpdate, SyncEventView::Executed(_)) => true,
        (SyncStep::StorePaymentMethod(_), SyncEventView::Executed(_)) => true,
        _ => false,
    }
}

/// A session's indices point into what they index.
pub open spec fn session_wf(s: SyncSessionView) -> bool {
    match s.step {
        SyncStep::ApplyProduct(i) => i < s.cloud_updates.len(),
        SyncStep::StorePaymentMethod(j) => {
            &&& s.info.entity.paymentMethods is Some
            &&& j < s.info.entity.paymentMethods.unwrap()@.len()
        },
        _ => true,
    }
}

/// Applies the cloud product updates from index `from` on; after the last
/// one, the business account is overwritten.
pub open spec fn apply_from(s: SyncSessionView, from: nat) -> SyncTransitionView {
    if from < s.cloud_updates.len() {
        match apply_update_statement(s.cloud_updates[from as int]) {
            Some(st) => SyncTransitionView::Continue(
                SyncSessionView { step: SyncStep::ApplyProduct(from as usize), ..s },
                SyncActionView::Execute(st),
            ),
            None => SyncTransitionView::MissingChangeType,
        }
    } else {
        SyncTransitionView::Continue(
            SyncSessionView { step: SyncStep::AwaitEntityUpdate, ..s },
            SyncActionView::Execute(entity_update_statement(s.info.entity)),
        )
    }
}

/// Stores the cloud account's payment methods from index `from` on; after
/// the last one, the exchange has succeeded.
pub open spec fn store_from(s: SyncSessionView, from: nat) -> SyncTransitionView {
    match s.info.entity.paymentMethods {
        None => SyncTransitionView::MissingPaymentMethods,
        Some(methods) => if from < methods@.len() {
            SyncTransitionView::Continue(
                SyncSessionView { step: SyncStep::StorePaymentMethod(from as usize), ..s },
                SyncActionView::Execute(payment_method_statement(methods@[from as int])),
            )
        } else {
            SyncTransitionView::Finished(Ok(s.info))
        },
    }
}

/// The cloud's reply as it is sent back to confirm it.
pub open spec fn confirmation(c: CloudView) -> ReplyView {
    ReplyView {
        productUpdates: c.productUpdates,
        transactions: transaction_views(c.transactions),
        entity: c.entity@,
    }
}

/// The session with the cloud's reply taken in: the report now shows the
/// cloud's account and counts its product updates.
pub open spec fn with_reply(s: SyncSessionView, c: CloudView) -> SyncSessionView {
    SyncSessionView {
        step: SyncStep::AwaitConfirm,
        info: SyncInfoView {
            entity: c.entity,
            cloudUpdates: c.productUpdates.len() as i32,
            ..s.info
        },
        cloud_updates: c.productUpdates,
    }
}

/// The report once the cloud has confirmed: success, with both counts.
pub open spec fn confirmed(info: SyncInfoView) -> SyncInfoView {
    SyncInfoView {
        status: true,
        message: success_message(info.cloudUpdates, info.localUpdates),
        ..info
    }
}

/// One step of the exchange.
pub open spec fn next(s: SyncSessionView, e: SyncEventView) -> SyncTransitionView {
    match e {
        SyncEventView::Pushed(r) => match r {
            Err(msg) => fail(s.info, msg),
            Ok(_) => SyncTransitionView::Continue(
                SyncSessionView { step: SyncStep::AwaitDatabase, ..s },
                SyncActionView::OpenDatabase,
            ),
        },
        SyncEventView::DatabaseOpened(r) => match r {
            Err(msg) => fail(s.info, msg),
            Ok(_) => SyncTransitionView::Continue(
                SyncSessionView { step: SyncStep::AwaitCloudReply, ..s },
                SyncActionView::ReadCloudReply,
            ),
        },
        SyncEventView::CloudReply(r) => match r {
            Err(msg) => fail(s.info, msg),
            Ok(c) => SyncTransitionView::Continue(
                with_reply(s, c),
                SyncActionView::ClearAndConfirm(clear_plan(c.transactions), confirmation(c)),
            ),
        },
        SyncEventView::Confirmed(r) => match r {
            Err(msg) => fail(s.info, msg),
            Ok(_) => apply_from(SyncSessionView { info: confirmed(s.info), ..s }, 0),
        },
        SyncEventView::Executed(r) => match r {
            Err(msg) => fail(s.info, msg),
            Ok(_) => match s.step {
                SyncStep::ApplyProduct(i) => apply_from(s, (i + 1) as nat),
                SyncStep::AwaitEntityUpdate => store_from(s, 0),
                SyncStep::StorePaymentMethod(j) => store_from(s, (j + 1) as nat),
                // Not reached: `accepts` pairs `Executed` with the three steps above.
                _ => SyncTransitionView::Continue(s, SyncActionView::OpenDatabase),
            },
        },
    }
}

/// Whether the event is the one the session waits for.
pub fn accepts_event(step: SyncStep, e: &SyncEvent) -> (b: bool)
    ensures
        b == accepts(step, e@),
{
    match (step, e) {
        (SyncStep::AwaitPush, SyncEvent::Pushed(_)) => true,
        (SyncStep::AwaitDatabase, SyncEvent::DatabaseOpened(_)) => true,
        (SyncStep::AwaitCloudReply, SyncEvent::CloudReply(_)) => true,
        (SyncStep::AwaitConfirm, SyncEvent::Confirmed(_)) => true,
        (SyncStep::ApplyProduct(_), SyncEvent::Executed(_)) => true,
        (SyncStep::AwaitEntityUpdate, SyncEvent::Executed(_)) => true,
        (SyncStep::StorePaymentMethod(_), SyncEvent::Executed(_)) => true,
        _ => false,
    }
}

fn fail_with(info: SyncInfo, error: String) -> (t: SyncTransition)
    ensures
        t@ == fail(info@, error@),
{
    let mut info = info;
    info.cloudUpdates = 0;
    info.localUpdates = 0;
    info.message = failure_text(&error);
    SyncTransition::Finished(Err(info))
}

fn apply_from_exec(s: SyncSession, from: usize) -> (t: SyncTransition)
    requires
        from <= s.cloud_updates@.len(),
    ensures
        t@ == apply_from(s@, from as nat),
        t matches SyncTransition::Continue(s2, _) ==> session_wf(s2@),
{
    let mut s = s;
    if from < s.cloud_updates.len() {
        match apply_update(&s.cloud_updates[from]) {
            Some(st) => {
                s.step = SyncStep::ApplyProduct(from);
                SyncTransition::Continue(s, SyncAction::Execute(st))
            },
            None => SyncTransition::MissingChangeType,
        }
    } else {
        let st = entity_update(&s.info.entity);
        s.step = SyncStep::AwaitEntityUpdate;
        SyncTransition::Continue(s, SyncAction::Execute(st))
    }
}

fn store_from_exec(s: SyncSession, from: usize) -> (t: SyncTransition)
    requires
        s.info.entity.paymentMethods is Some ==> from <= s.info.entity.paymentMethods.unwrap()@.len(),
    ensures
        t@ == store_from(s@, from as nat),
        t matches SyncTransition::Continue(s2, _) ==> session_wf(s2@),
{
    let mut s = s;
    let next_statement = match &s.info.entity.paymentMethods {
        None => None,
        Some(methods) => if from < methods.len() {
            Some(store_payment_method(&methods[from]))
        } else {
            None
        },
    };
    match next_statement {
        Some(st) => {
            s.step = SyncStep::StorePaymentMethod(from);
            SyncTransition::Continue(s, SyncAction::Execute(st))
        },
        None => if s.info.entity.paymentMethods.is_none() {
            SyncTransition::MissingPaymentMethods
        } else {
            SyncTransition::Finished(Ok(s.info))
        },
    }
}

impl SyncSession {
    /// Whether the session's indices point into what they index.
    pub fn is_consistent(&self) -> (b: bool)
        ensures
            b == session_wf(self@),
    {
        match self.step {
            SyncStep::ApplyProduct(i) => i < self.cloud_updates.len(),
            SyncStep::StorePaymentMethod(j) => match &self.info.entity.paymentMethods {
                Some(methods) => j < methods.len(),
                None => false,
            },
            _ => true,
        }
    }

    /// Starts a synchronization from the stored account and the local
    /// changes: builds the upload (the local product updates, refunds and
    /// unsynchronized sales, with the account's id and terminal) and a session
    /// waiting for the cloud's answer to it.
    pub fn begin(
        entity: Entity,
        product_updates: Vec<ProductUpdate>,
        transactions: Vec<Transaction>,
        transaction_updates: Vec<TransactionUpdate>,
    ) -> (r: (SyncSession, SynchronizationStruct))
        ensures
            r.0@ == begin_session(entity, product_updates@.len()),
            r.1.productUpdates == product_updates,
            r.1.transactionUpdates == transaction_updates,
            r.1.transactions == transactions,
            r.1.entity_id == entity._id,
            r.1.terminal == entity.terminal,
    {
        let local_updates = #[verifier::truncate] (product_updates.len() as i32);
        let upload = SynchronizationStruct {
            productUpdates: product_updates,
            transactionUpdates: transaction_updates,
            transactions,
            entity_id: entity._id.clone(),
            terminal: entity.terminal.clone(),
        };
        let info = SyncInfo {
            localUpdates: local_updates,
            cloudUpdates: 0,
            status: false,
            message: "Update failed".to_owned(),
            entity,
        };
        let session = SyncSession { step: SyncStep::AwaitPush, info, cloud_updates: Vec::new() };
        assert(session@.cloud_updates =~= seq![]);
        (session, upload)
    }

    /// Takes the outcome of the outside work last asked for and says what
    /// comes next (see [`next`]).
    pub fn step(self, event: SyncEvent) -> (t: SyncTransition)
        requires
            session_wf(self@),
            accepts(self@.step, event@),
        ensures
            t@ == next(self@, event@),
            t matches SyncTransition::Continue(s2, _) ==> session_wf(s2@),
    {
        let mut s = self;
        match event {
            SyncEvent::Pushed(r) => match r {
                Err(msg) => fail_with(s.info, msg),
                Ok(_) => {
                    s.step = SyncStep::AwaitDatabase;
                    SyncTransition::Continue(s, SyncAction::OpenDatabase)
                },
            },
            SyncEvent::DatabaseOpened(r) => match r {
                Err(msg) => fail_with(s.info, msg),
                Ok(_) => {
                    s.step = SyncStep::AwaitCloudReply;
                    SyncTransition::Continue(s, SyncAction::ReadCloudReply)
                },
            },
            SyncEvent::CloudReply(r) => match r {
                Err(msg) => fail_with(s.info, msg),
                Ok(c) => {
                    let plan = clear_updates(&c.transactions);
                    let reply = copy_reply(&c);
                    s.info.cloudUpdates = #[verifier::truncate] (c.productUpdates.len() as i32);
                    s.info.entity = c.entity;
                    s.cloud_updates = c.productUpdates;
                    s.step = SyncStep::AwaitConfirm;
                    SyncTransition::Continue(s, SyncAction::ClearAndConfirm(plan, reply))
                },
            },
            SyncEvent::Confirmed(r) => match r {
                Err(msg) => fail_with(s.info, msg),
                Ok(_) => {
                    s.info.status = true;
                    s.info.message = success_text(s.info.cloudUpdates, s.info.localUpdates);
                    apply_from_exec(s, 0)
                },
            },
            SyncEvent::Executed(r) => match r {
                Err(msg) => fail_with(s.info, msg),
                Ok(_) => match s.step {
                    SyncStep::ApplyProduct(i) => {
                        let n = s.cloud_updates.len();
                        assert(i < n);
                        apply_from_exec(s, i + 1)
                    },
                    SyncStep::AwaitEntityUpdate => store_from_exec(s, 0),
                    SyncStep::StorePaymentMethod(j) => {
                        let n = match &s.info.entity.paymentMethods {
                            Some(methods) => methods.len(),
                            None => 0,
                        };
                        assert(j < n);
                        store_from_exec(s, j + 1)
                    },
                    // Not reached: `accepts` pairs `Executed` with the three steps above.
                    _ => SyncTransition::Continue(s, SyncAction::OpenDatabase),
                },
            },
        }
    }
}


// ---------------------------------------------------------------------------
// Laws of the exchange
// ---------------------------------------------------------------------------

/// The error text an event carries, if it reports a failure.
pub open spec fn event_error(e: SyncEventView) -> Option<Seq<char>> {
    match e {
        SyncEventView::Pushed(Err(m)) => Some(m),
        SyncEventView::DatabaseOpened(Err(m)) => Some(m),
        SyncEventView::CloudReply(Err(m)) => Some(m),
        SyncEventView::Confirmed(Err(m)) => Some(m),
        SyncEventView::Executed(Err(m)) => Some(m),
        _ => None,
    }
}

/// A failed step ends the exchange, and only a failed step ends it with
/// `Err`: the report then has both counts at zero and the message
/// "Sync failed, " followed by the error text, whatever step failed.
pub proof fn lemma_failure_report(s: SyncSessionView, e: SyncEventView)
    requires
        session_wf(s),
        accepts(s.step, e),
    ensures
        event_error(e) matches Some(msg) ==> next(s, e) == fail(s.info, msg),
        next(s, e) matches SyncTransitionView::Finished(Err(i)) ==> {
            &&& event_error(e) is Some
            &&& i.localUpdates == 0
            &&& i.cloudUpdates == 0
            &&& i.message == failure_message(event_error(e).unwrap())
        },
{
}

/// Feeding events to a session one by one: the actions it asks for, in
/// order, and how it ended (`None` while it still waits).
pub open spec fn run(s: SyncSessionView, events: Seq<SyncEventView>) -> (Seq<SyncActionView>, Option<SyncTransitionView>)
    decreases events.len(),
{
    if events.len() == 0 {
        (seq![], None)
    } else {
        match next(s, events[0]) {
            SyncTransitionView::Continue(s2, a) => {
                let r = run(s2, events.drop_first());
                (seq![a] + r.0, r.1)
            },
            t => (seq![], Some(t)),
        }
    }
}

/// `n` successful statement runs.
pub open spec fn executed_ok(n: nat) -> Seq<SyncEventView> {
    Seq::new(n, |i: int| SyncEventView::Executed(Ok(())))
}

pub open spec fn store_actions(methods: Seq<PaymentMethod>) -> Seq<SyncActionView> {
    methods.map_values(|m: PaymentMethod| SyncActionView::Execute(payment_method_statement(m)))
}

pub open spec fn apply_actions(updates: Seq<ProductUpdate>) -> Seq<SyncActionView> {
    updates.map_values(|u: ProductUpdate| SyncActionView::Execute(apply_update_statement(u).unwrap()))
}

/// Every product update carries a change type and the account carries its
/// payment methods: what the exchange needs to run to its end.
pub open spec fn complete_reply(c: CloudView) -> bool {
    &&& forall|i: int| 0 <= i < c.productUpdates.len() ==> (#[trigger] c.productUpdates[i]).change_type is Some
    &&& c.entity.paymentMethods is Some
}

pub open spec fn payment_methods_of(c: CloudView) -> Seq<PaymentMethod> {
    c.entity.paymentMethods.unwrap()@
}

/// Every outside step succeeding, the cloud answering `c`.
pub open spec fn successful_events(c: CloudView) -> Seq<SyncEventView> {
    seq![
        SyncEventView::Pushed(Ok(())),
        SyncEventView::DatabaseOpened(Ok(())),
        SyncEventView::CloudReply(Ok(c)),
        SyncEventView::Confirmed(Ok(())),
    ] + executed_ok(c.productUpdates.len() + 1 + payment_methods_of(c).len())
}

/// What a successful exchange asks for: open the store, read the reply,
/// clear the local changes and confirm by sending the reply back as it came,
/// apply each cloud product update in
/// order, overwrite the account, store each payment method in order.
pub open spec fn successful_actions(c: CloudView) -> Seq<SyncActionView> {
    seq![
        SyncActionView::OpenDatabase,
        SyncActionView::ReadCloudReply,
        SyncActionView::ClearAndConfirm(clear_plan(c.transactions), confirmation(c)),
    ] + apply_actions(c.productUpdates)
        + seq![SyncActionView::Execute(entity_update_statement(c.entity))]
        + store_actions(payment_methods_of(c))
}

/// What a successful exchange reports.
pub open spec fn successful_report(entity: Entity, local_updates: nat, c: CloudView) -> SyncInfoView {
    SyncInfoView {
        localUpdates: local_updates as i32,
        cloudUpdates: c.productUpdates.len() as i32,
        status: true,
        message: success_message(c.productUpdates.len() as i32, local_updates as i32),
        entity: c.entity,
    }
}

proof fn lemma_store_run(s: SyncSessionView, j: int)
    requires
        0 <= j,
        s.info.entity.paymentMethods is Some,
        s.info.entity.paymentMethods.unwrap()@.len() <= usize::MAX,
        j < s.info.entity.paymentMethods.unwrap()@.len(),
        s.step == SyncStep::StorePaymentMethod(j as usize),
    ensures
        ({
            let methods = s.info.entity.paymentMethods.unwrap()@;
            run(s, executed_ok((methods.len() - j) as nat))
                == (store_actions(methods.subrange(j + 1, methods.len() as int)), Some(SyncTransitionView::Finished(Ok(s.info))))
        }),
    decreases s.info.entity.paymentMethods.unwrap()@.len() - j,
{
    let methods = s.info.entity.paymentMethods.unwrap()@;
    let n = (methods.len() - j) as nat;
    let events = executed_ok(n);
    assert(events[0] == SyncEventView::Executed(Ok(())));
    if j + 1 == methods.len() {
        assert(store_actions(methods.subrange(j + 1, methods.len() as int)) =~= seq![]);
    } else {
        let s2 = SyncSessionView { step: SyncStep::StorePaymentMethod((j + 1) as usize), ..s };
        assert(events.drop_first() =~= executed_ok((n - 1) as nat));
        lemma_store_run(s2, j + 1);
        assert(store_actions(methods.subrange(j + 1, methods.len() as int)) =~= seq![
            SyncActionView::Execute(payment_method_statement(methods[j + 1]))
        ] + store_actions(methods.subrange(j + 2, methods.len() as int)));
    }
}

proof fn lemma_entity_run(s: SyncSessionView)
    requires
        s.info.entity.paymentMethods is Some,
        s.info.entity.paymentMethods.unwrap()@.len() <= usize::MAX,
        s.step == SyncStep::AwaitEntityUpdate,
    ensures
        ({
            let methods = s.info.entity.paymentMethods.unwrap()@;
            run(s, executed_ok(methods.len() + 1))
                == (store_actions(methods), Some(SyncTransitionView::Finished(Ok(s.info))))
        }),
{
    let methods = s.info.entity.paymentMethods.unwrap()@;
    let events = executed_ok(methods.len() + 1);
    assert(events[0] == SyncEventView::Executed(Ok(())));
    if methods.len() == 0 {
        assert(store_actions(methods) =~= seq![]);
    } else {
        let s2 = SyncSessionView { step: SyncStep::StorePaymentMethod(0), ..s };
        assert(events.drop_first() =~= executed_ok(methods.len()));
        lemma_store_run(s2, 0);
        assert(store_actions(methods) =~= seq![
            SyncActionView::Execute(payment_method_statement(methods[0]))
        ] + store_actions(methods.subrange(1, methods.len() as int)));
    }
}

proof fn lemma_apply_run(s: SyncSessionView, i: int)
    requires
        0 <= i,
        s.info.entity.paymentMethods is Some,
        s.info.entity.paymentMethods.unwrap()@.len() <= usize::MAX,
        s.cloud_updates.len() <= usize::MAX,
        i < s.cloud_updates.len(),
        s.step == SyncStep::ApplyProduct(i as usize),
        forall|k: int| 0 <= k < s.cloud_updates.len() ==> (#[trigger] s.cloud_updates[k]).change_type is Some,
    ensures
        ({
            let methods = s.info.entity.paymentMethods.unwrap()@;
            let us = s.cloud_updates;
            run(s, executed_ok((us.len() - i) as nat + 1 + methods.len()))
                == (apply_actions(us.subrange(i + 1, us.len() as int))
                        + seq![SyncActionView::Execute(entity_update_statement(s.info.entity))]
                        + store_actions(methods),
                    Some(SyncTransitionView::Finished(Ok(s.info))))
        }),
    decreases s.cloud_updates.len() - i,
{
    let methods = s.info.entity.paymentMethods.unwrap()@;
    let us = s.cloud_updates;
    let n = ((us.len() - i) + 1 + methods.len()) as nat;
    let events = executed_ok(n);
    assert(events[0] == SyncEventView::Executed(Ok(())));
    assert(events.drop_first() =~= executed_ok((n - 1) as nat));
    if i + 1 == us.len() {
        let s2 = SyncSessionView { step: SyncStep::AwaitEntityUpdate, ..s };
        lemma_entity_run(s2);
        assert(apply_actions(us.subrange(i + 1, us.len() as int)) =~= seq![]);
        assert(seq![SyncActionView::Execute(entity_update_statement(s.info.entity))] + store_actions(methods)
            =~= apply_actions(us.subrange(i + 1, us.len() as int))
                + seq![SyncActionView::Execute(entity_update_statement(s.info.entity))]
                + store_actions(methods));
    } else {
        let u = us[i + 1];
        assert(u.change_type is Some);
        let s2 = SyncSessionView { step: SyncStep::ApplyProduct((i + 1) as usize), ..s };
        lemma_apply_run(s2, i + 1);
        assert(apply_actions(us.subrange(i + 1, us.len() as int)) =~= seq![
            SyncActionView::Execute(apply_update_statement(u).unwrap())
        ] + apply_actions(us.subrange(i + 2, us.len() as int)));
        assert(seq![SyncActionView::Execute(apply_update_statement(u).unwrap())]
            + (apply_actions(us.subrange(i + 2, us.len() as int))
                + seq![SyncActionView::Execute(entity_update_statement(s.info.entity))]
                + store_actions(methods))
            =~= apply_actions(us.subrange(i + 1, us.len() as int))
                + seq![SyncActionView::Execute(entity_update_statement(s.info.entity))]
                + store_actions(methods));
    }
}

/// A synchronization in which every outside step succeeds confirms the
/// cloud's reply by sending it back unchanged, applies each product update the cloud sent exactly once and in order, then overwrites
/// the account, then stores each of its payment methods in order; it ends
/// with success, reporting the cloud's account, the number of local product
/// updates sent up and the number of cloud product updates applied.
pub proof fn lemma_successful_exchange(entity: Entity, local_updates: nat, c: CloudView)
    requires
        complete_reply(c),
        c.productUpdates.len() <= usize::MAX,
        payment_methods_of(c).len() <= usize::MAX,
    ensures
        run(begin_session(entity, local_updates), successful_events(c))
            == (successful_actions(c),
                Some(SyncTransitionView::Finished(Ok(successful_report(entity, local_updates, c))))),
{
    let s0 = begin_session(entity, local_updates);
    let events = successful_events(c);
    let methods = payment_methods_of(c);
    let n = c.productUpdates.len();
    let tail = executed_ok(n + 1 + methods.len());
    let s1 = SyncSessionView { step: SyncStep::AwaitDatabase, ..s0 };
    let s2 = SyncSessionView { step: SyncStep::AwaitCloudReply, ..s0 };
    let s3 = with_reply(s2, c);
    let s4 = SyncSessionView { info: confirmed(s3.info), ..s3 };
    assert(s4.info == successful_report(entity, local_updates, c));
    let e1 = events.drop_first();
    let e2 = e1.drop_first();
    let e3 = e2.drop_first();
    let e4 = e3.drop_first();
    assert(e1 =~= seq![
        SyncEventView::DatabaseOpened(Ok(())),
        SyncEventView::CloudReply(Ok(c)),
        SyncEventView::Confirmed(Ok(())),
    ] + tail);
    assert(e2 =~= seq![SyncEventView::CloudReply(Ok(c)), SyncEventView::Confirmed(Ok(()))] + tail);
    assert(e3 =~= seq![SyncEventView::Confirmed(Ok(()))] + tail);
    assert(e4 =~= tail);
    let rest = apply_actions(c.productUpdates) + seq![SyncActionView::Execute(entity_update_statement(c.entity))]
        + store_actions(methods);
    if n == 0 {
        let s5 = SyncSessionView { step: SyncStep::AwaitEntityUpdate, ..s4 };
        assert(next(s3, events[3]) == SyncTransitionView::Continue(s5, SyncActionView::Execute(entity_update_statement(c.entity))));
        lemma_entity_run(s5);
        assert(e4 =~= executed_ok(methods.len() + 1));
        assert(apply_actions(c.productUpdates) =~= seq![]);
        assert(run(s3, e3) == (rest, Some(SyncTransitionView::Finished(Ok(s4.info))))) by {
            assert(seq![SyncActionView::Execute(entity_update_statement(c.entity))] + store_actions(methods) =~= rest);
        }
    } else {
        let u = c.productUpdates[0];
        assert(u.change_type is Some);
        let s5 = SyncSessionView { step: SyncStep::ApplyProduct(0), ..s4 };
        lemma_apply_run(s5, 0);
        assert(e4 =~= executed_ok((n - 0) as nat + 1 + methods.len()));
        assert(apply_actions(c.productUpdates) =~= seq![
            SyncActionView::Execute(apply_update_statement(u).unwrap())
        ] + apply_actions(c.productUpdates.subrange(1, n as int)));
        assert(run(s3, e3) == (rest, Some(SyncTransitionView::Finished(Ok(s4.info))))) by {
            assert(seq![SyncActionView::Execute(apply_update_statement(u).unwrap())]
                + (apply_actions(c.productUpdates.subrange(1, n as int))
                    + seq![SyncActionView::Execute(entity_update_statement(c.entity))]
                    + store_actions(methods)) =~= rest);
        }
    }
    assert(events[0] == SyncEventView::Pushed(Ok(())));
    assert(e1[0] == SyncEventView::DatabaseOpened(Ok(())));
    assert(e2[0] == SyncEventView::CloudReply(Ok(c)));
    assert(next(s2, e2[0]) == SyncTransitionView::Continue(s3, SyncActionView::ClearAndConfirm(clear_plan(c.transactions), confirmation(c))));
    assert(run(s2, e2) == (seq![SyncActionView::ClearAndConfirm(clear_plan(c.transactions), confirmation(c))] + rest,
        Some(SyncTransitionView::Finished(Ok(s4.info)))));
    assert(next(s1, e1[0]) == SyncTransitionView::Continue(s2, SyncActionView::ReadCloudReply));
    assert(run(s1, e1) == (seq![SyncActionView::ReadCloudReply] + (seq![SyncActionView::ClearAndConfirm(clear_plan(c.transactions), confirmation(c))] + rest),
        Some(SyncTransitionView::Finished(Ok(s4.info)))));
    assert(next(s0, events[0]) == SyncTransitionView::Continue(s1, SyncActionView::OpenDatabase));
    assert(successful_actions(c) =~= seq![
        SyncActionView::OpenDatabase,
        SyncActionView::ReadCloudReply,
        SyncActionView::ClearAndConfirm(clear_plan(c.transactions), confirmation(c)),
    ] + rest);
    assert(successful_actions(c) =~= seq![SyncActionView::OpenDatabase] + (seq![SyncActionView::ReadCloudReply]
        + (seq![SyncActionView::ClearAndConfirm(clear_plan(c.transactions), confirmation(c))] + rest)));
}

/// Each event is the one the session then waits for (see [`accepts`]).
pub open spec fn accepted_run(s: SyncSessionView, events: Seq<SyncEventView>) -> bool
    decreases events.len(),
{
    if events.len() == 0 {
        true
    } else {
        &&& accepts(s.step, events[0])
        &&& match next(s, events[0]) {
            SyncTransitionView::Continue(s2, _) => accepted_run(s2, events.drop_first()),
            _ => true,
        }
    }
}

/// The event at `k` is the cloud's reply `c`.
pub open spec fn reply_at(events: Seq<SyncEventView>, k: int, c: CloudView) -> bool {
    0 <= k < events.len() && events[k] == SyncEventView::CloudReply(Ok(c))
}

/// Steps at which the cloud's reply has been taken in.
pub open spec fn replied(step: SyncStep) -> bool {
    match step {
        SyncStep::AwaitPush | SyncStep::AwaitDatabase | SyncStep::AwaitCloudReply => false,
        _ => true,
    }
}

/// The report states the success, with the counts it holds.
pub open spec fn success_reported(info: SyncInfoView) -> bool {
    info.status && info.message == success_message(info.cloudUpdates, info.localUpdates)
}

/// From a session that has the cloud's reply, a successful end reports what
/// the session holds, with the success message once confirmed.
proof fn lemma_replied_run(s: SyncSessionView, events: Seq<SyncEventView>)
    requires
        replied(s.step),
        s.step != SyncStep::AwaitConfirm ==> success_reported(s.info),
        accepted_run(s, events),
    ensures
        run(s, events).1 matches Some(SyncTransitionView::Finished(Ok(info))) ==> {
            &&& success_reported(info)
            &&& info.localUpdates == s.info.localUpdates
            &&& info.cloudUpdates == s.info.cloudUpdates
            &&& info.entity == s.info.entity
        },
    decreases events.len(),
{
    if events.len() > 0 {
        let e = events[0];
        match next(s, e) {
            SyncTransitionView::Continue(s2, _) => {
                lemma_replied_run(s2, events.drop_first());
            },
            _ => {},
        }
    }
}

/// From a session still waiting for the cloud, a successful end reports the
/// account and the count of product updates of a reply among the events.
proof fn lemma_waiting_run(s: SyncSessionView, events: Seq<SyncEventView>)
    requires
        !replied(s.step),
        accepted_run(s, events),
    ensures
        run(s, events).1 matches Some(SyncTransitionView::Finished(Ok(info))) ==> {
            &&& success_reported(info)
            &&& info.localUpdates == s.info.localUpdates
            &&& exists|k: int, c: CloudView| #[trigger] reply_at(events, k, c)
                && info.cloudUpdates == c.productUpdates.len() as i32 && info.entity == c.entity
        },
    decreases events.len(),
{
    if events.len() > 0 {
        let e = events[0];
        let rest = events.drop_first();
        match next(s, e) {
            SyncTransitionView::Continue(s2, _) => {
                if replied(s2.step) {
                    lemma_replied_run(s2, rest);
                    if let SyncEventView::CloudReply(Ok(c)) = e {
                        assert(reply_at(events, 0, c));
                    }
                } else {
                    lemma_waiting_run(s2, rest);
                    if let Some(SyncTransitionView::Finished(Ok(info))) = run(s, events).1 {
                        let (k, c) = choose|k: int, c: CloudView| #[trigger] reply_at(rest, k, c)
                            && info.cloudUpdates == c.productUpdates.len() as i32 && info.entity == c.entity;
                        assert(reply_at(events, k + 1, c));
                    }
                }
            },
            _ => {},
        }
    }
}

/// A synchronization that ends in success, its events taken in the order
/// the session asks for them, reports success with the message naming both
/// counts; the local count is the number of local product updates sent up,
/// and the cloud count and the account are those of the reply the cloud sent.
pub proof fn lemma_success_report(entity: Entity, local_updates: nat, events: Seq<SyncEventView>)
    requires
        accepted_run(begin_session(entity, local_updates), events),
    ensures
        run(begin_session(entity, local_updates), events).1 matches Some(SyncTransitionView::Finished(Ok(info)))
            ==> {
            &&& info.status
            &&& info.message == success_message(info.cloudUpdates, info.localUpdates)
            &&& info.localUpdates == local_updates as i32
            &&& exists|k: int, c: CloudView| #[trigger] reply_at(events, k, c)
                && info.cloudUpdates == c.productUpdates.len() as i32 && info.entity == c.entity
        },
{
    lemma_waiting_run(begin_session(entity, local_updates), events);
}

/// How a cloud product update is applied, column by column. An update
/// without a change type is not applied. "new" inserts the product with
/// `_id, name, quantity, category, barcode, reorderLimit, sell_price,
/// cost_price, expiry_date, total_profit, quantity_sold, entityId,
/// is_archived, createdAt, updatedAt` bound in that order to the update's
/// fields of those names; "delete" deletes the product with the update's
/// `_id`; any other change type overwrites `quantity, quantity_sold,
/// total_profit, cost_price, sell_price, name, barcode, reorderLimit,
/// expiry_date, is_archived` with the update's fields of those names, for
/// the product whose `_id` is the update's `product_id`.
pub proof fn lemma_cloud_update_columns(u: ProductUpdate)
    ensures
        u.change_type is None ==> apply_update_statement(u) is None,
        u.change_type matches Some(ct) ==> apply_update_statement(u) matches Some(st) && {
            if ct@ == "new"@ {
                &&& st.sql == CLOUD_INSERT_PRODUCT@
                &&& st.params.len() == 15
                &&& st.params[0] == opt_text(u._id)
                &&& st.params[1] == opt_text(u.name)
                &&& st.params[2] == ParamView::Real(u.quantity)
                &&& st.params[3] == opt_text(u.category)
                &&& st.params[4] == opt_text(u.barcode)
                &&& st.params[5] == opt_real(u.reorderLimit)
                &&& st.params[6] == opt_real(u.sell_price)
                &&& st.params[7] == opt_real(u.cost_price)
                &&& st.params[8] == opt_text(u.expiry_date)
                &&& st.params[9] == opt_real(u.total_profit)
                &&& st.params[10] == opt_real(u.quantity_sold)
                &&& st.params[11] == ParamView::Text(u.entity_id@)
                &&& st.params[12] == opt_bool(u.isArchived)
                &&& st.params[13] == opt_text(u.createdAt)
                &&& st.params[14] == opt_text(u.updatedAt)
            } else if ct@ == "delete"@ {
                &&& st.sql == CLOUD_DELETE_PRODUCT@
                &&& st.params.len() == 1
                &&& st.params[0] == opt_text(u._id)
            } else {
                &&& st.sql == CLOUD_OVERWRITE_PRODUCT@
                &&& st.params.len() == 11
                &&& st.params[0] == ParamView::Real(u.quantity)
                &&& st.params[1] == opt_real(u.quantity_sold)
                &&& st.params[2] == opt_real(u.total_profit)
                &&& st.params[3] == opt_real(u.cost_price)
                &&& st.params[4] == opt_real(u.sell_price)
                &&& st.params[5] == opt_text(u.name)
                &&& st.params[6] == opt_text(u.barcode)
                &&& st.params[7] == opt_real(u.reorderLimit)
                &&& st.params[8] == opt_text(u.expiry_date)
                &&& st.params[9] == opt_bool(u.isArchived)
                &&& st.params[10] == opt_text(u.product_id)
            }
        },
{
}

/// The account is overwritten with the cloud's `businessName, email, phone,
/// message, password, address, terminal, createdAt, updatedAt,
/// printSilently, syncTime`, in that order, for the account with its `_id`.
pub proof fn lemma_account_overwrite_columns(e: Entity)
    ensures
        entity_update_statement(e).sql == CLOUD_UPDATE_ENTITY@,
        entity_update_statement(e).params.len() == 12,
        entity_update_statement(e).params[0] == ParamView::Text(e.businessName@),
        entity_update_statement(e).params[1] == ParamView::Text(e.email@),
        entity_update_statement(e).params[2] == ParamView::Text(e.phone@),
        entity_update_statement(e).params[3] == ParamView::Text(e.message@),
        entity_update_statement(e).params[4] == ParamView::Text(e.password@),
        entity_update_statement(e).params[5] == ParamView::Text(e.address@),
        entity_update_statement(e).params[6] == ParamView::Text(e.terminal@),
        entity_update_statement(e).params[7] == ParamView::Text(e.createdAt@),
        entity_update_statement(e).params[8] == ParamView::Text(e.updatedAt@),
        entity_update_statement(e).params[9] == ParamView::Bool(e.printSilently),
        entity_update_statement(e).params[10] == ParamView::Integer(e.syncTime as i64),
        entity_update_statement(e).params[11] == ParamView::Text(e._id@),
{
}

/// A payment method from the cloud is stored as its `_id, name, hidden`.
pub proof fn lemma_cloud_payment_method_columns(m: PaymentMethod)
    ensures
        payment_method_statement(m).sql == CLOUD_INSERT_PAYMENT_METHOD@,
        payment_method_statement(m).params == seq![
            ParamView::Text(m._id@), ParamView::Text(m.name@), ParamView::Bool(m.hidden),
        ],
{
}

/// Once the cloud has answered, the local product changes are dropped first,
/// then each sale the cloud returned, in order, is marked synchronized under
/// the cloud's id, found by its own row id and terminal.
pub proof fn lemma_clear_plan_columns(transactions: Seq<Transaction>)
    ensures
        clear_plan(transactions).len() == transactions.len() + 1,
        clear_plan(transactions)[0].sql == CLEAR_PRODUCT_UPDATES@,
        clear_plan(transactions)[0].params.len() == 0,
        forall|k: int| 0 <= k < transactions.len() ==> {
            &&& (#[trigger] clear_plan(transactions)[k + 1]).sql == MARK_TRANSACTION_SYNCED@
            &&& clear_plan(transactions)[k + 1].params.len() == 3
            &&& clear_plan(transactions)[k + 1].params[0] == opt_text(transactions[k]._id)
            &&& clear_plan(transactions)[k + 1].params[1] == opt_int(transactions[k].transaction_id)
            &&& clear_plan(transactions)[k + 1].params[2] == ParamView::Text(transactions[k].terminal@)
        },
{
}

} // verus!
