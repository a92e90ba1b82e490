//! Registering the terminal's account and (re)filling its stock.

use vstd::prelude::*;
use crate::config::{endpoint, API};
use crate::model::{Entity, PaymentMethod, Product};
use crate::sql::{
    integer, opt_real, opt_real_param, opt_text, opt_text_param, int_param, stmt, text, text_param,
    views, Param, ParamView, Statement, StatementView,
};

verus! {

/// Creates every table the terminal uses, where it does not exist yet.
pub const CREATE_TABLES: &'static str = "
    CREATE TABLE IF NOT EXISTS entity
    (
        entity_id     INTEGER PRIMARY KEY AUTOINCREMENT,
        username     VARCHAR(255) NOT NULL,
        business_name     VARCHAR(255) ,
        _id     VARCHAR(255) NOT NULL,
        password     VARCHAR(255) NOT NULL,
        email     VARCHAR(255)  NOT NULL,
        phone     VARCHAR(255)    NOT NULL,
        message    VARCHAR(255)   ,
        address     VARCHAR(255)  ,
        terminal     VARCHAR(255) NOT NULL,
        terminal_count     INTEGER NOT NULL,
        createdAt     DATETIME   NOT NULL,
        updatedAt      DATETIME   NOT NULL,
        printSilently   BOOLEAN   NOT NULL DEFAULT 0,
        syncTime INTEGER NOT NULL,
        __v INTEGER
    );
    CREATE TABLE IF NOT EXISTS product
    (
        product_id      INTEGER PRIMARY KEY AUTOINCREMENT,
        name    VARCHAR(255),
        _id    VARCHAR(255) UNIQUE,
        quantity    FLOAT,
        category    VARCHAR(255),
        barcode    VARCHAR(255),
        reorderLimit    FLOAT,
        sell_price    FLOAT,
        cost_price    FLOAT,
        total_profit    FLOAT,
        quantity_sold    FLOAT,
        refunded_quantity    FLOAT DEFAULT 0,
        refunded_amount    FLOAT DEFAULT 0,
        entityId    VARCHAR(255),
        is_archived    BOOLEAN,
        isBalanced    BOOLEAN,
        updatedAt      DATETIME DEFAULT    (datetime('now','localtime')),
        createdAt      DATETIME DEFAULT    (datetime('now','localtime')),
        expiry_date      DATETIME DEFAULT    (datetime('now','localtime')) );

    CREATE TABLE IF NOT EXISTS \"transaction\"( 
        transaction_id INTEGER PRIMARY KEY AUTOINCREMENT,
      _id    VARCHAR(255),
        staff    VARCHAR(255),
        staffId    INTEGER,
        discount    FLOAT,
        profit    FLOAT,
        total    FLOAT,
        change FLOAT,
        invoiceNumber   VARCHAR(255),
        terminal     VARCHAR(255),
        __v    INTEGER,
        entityId    VARCHAR(255),
        mop    VARCHAR(255),      
        is_synced BOOLEAN DEFAULT false,
        customer INTEGER,
        createdAt      DATETIME DEFAULT    (datetime('now','localtime'))
   );
   PRAGMA foreign_keys = ON;
CREATE TABLE IF NOT EXISTS item (
    item_id INTEGER PRIMARY KEY AUTOINCREMENT,  
    _id VARCHAR(255),
    quantity FLOAT,
    product_id VARCHAR(255),
    product_name VARCHAR(255), 
    discount FLOAT,
    sell_price FLOAT,
    profit FLOAT,
    total FLOAT, 
    transaction_id INTEGER,
    FOREIGN KEY(product_id) REFERENCES product(_id) ON DELETE CASCADE ON UPDATE CASCADE,
    FOREIGN KEY(transaction_id) REFERENCES \"transaction\"(transaction_id) ON DELETE CASCADE ON UPDATE CASCADE
);
    CREATE TABLE IF NOT EXISTS staff
    (   
        staffId INTEGER PRIMARY KEY AUTOINCREMENT,
        username VARCHAR(255),
        password VARCHAR(255),
        name VARCHAR(255),
        surname VARCHAR(255),
        position VARCHAR(255)
    );


    CREATE TABLE IF NOT EXISTS payment_method
    (   
        sqlId INTEGER PRIMARY KEY AUTOINCREMENT,
        name VARCHAR(255),
        hidden BOOLEAN,
        _id VARCHAR(255) UNIQUE 
   
    );

    CREATE TABLE IF NOT EXISTS payment
    (   
        sqlId INTEGER PRIMARY KEY AUTOINCREMENT,
        name VARCHAR(255),
        transactionId INTEGER,  
        value REAL,
        payment_method_id VARCHAR(255),
        _id VARCHAR(255) ,  
        FOREIGN KEY(payment_method_id) REFERENCES payment_method(_id),
    FOREIGN KEY(transactionId) REFERENCES \"transaction\"(transaction_id) ON DELETE CASCADE ON UPDATE CASCADE );
    CREATE TABLE IF NOT EXISTS customer
    (   
        customerId INTEGER PRIMARY KEY AUTOINCREMENT,
        mongoId VARCHAR(255),
        firstName VARCHAR(255),
        fullName VARCHAR(255),
        lastName VARCHAR(255),
        phone VARCHAR(255),
        entityId VARCHAR(255),
        wallet REAL DEFAULT 0.0,
        totalRevenue REAL DEFAULT 0.0,
         createdAt  DATETIME DEFAULT    (datetime('now','localtime')),
        updatedAt  DATETIME DEFAULT    (datetime('now','localtime'))
    );

    CREATE TABLE IF NOT EXISTS product_update
    (   
        update_id INTEGER PRIMARY KEY AUTOINCREMENT,
        entity_id VARCHAR(255),
        _id VARCHAR(255),
        change_type VARCHAR(255),
        origin VARCHAR(255),
        createdAt  DATETIME DEFAULT    (datetime('now','localtime')),
        updatedAt  DATETIME DEFAULT    (datetime('now','localtime')),
        product_id VARCHAR(255),
        quantity FLOAT,
        profit FLOAT,
        total_profit FLOAT,
        quantity_sold FLOAT,
        cost_price FLOAT,
        sell_price FLOAT,
        name VARCHAR(255),
        expiry_date DATETIME,
        reorderLimit VARCHAR(255),
        is_archived    BOOLEAN,
        barcode VARCHAR(255),    category    VARCHAR(255)
    );
    CREATE TABLE IF NOT EXISTS transaction_update
    (   
        id INTEGER PRIMARY KEY AUTOINCREMENT,
        entity_id VARCHAR(255),
        cloud_id VARCHAR(255),
        transaction_id INTEGER,
        createdAt  DATETIME DEFAULT    (datetime('now','localtime')),
        origin VARCHAR(255)
    );
    CREATE TABLE IF NOT EXISTS transaction_update_details
    (   
        detail_id INTEGER PRIMARY KEY AUTOINCREMENT,
        product_id VARCHAR(255),
        quantity  FLOAT,
        profit  FLOAT,
        discount  FLOAT,
        total  FLOAT,
        transaction_id INTEGER,
        FOREIGN KEY(transaction_id) REFERENCES transaction_update(update_id) ON DELETE CASCADE ON UPDATE CASCADE
    ); ";

/// Stores the account and creates the default administrator.
pub const INSERT_ENTITY: &'static str = "INSERT INTO entity(username,password,email,phone,address,terminal,createdAt,updatedAt,__v,printSilently,syncTime,_id,business_name,terminal_count) VALUES($1,$2,$3,$4,$5,$6,$7,$8,$9,$10,$11,$12,$13,$14);\n    INSERT INTO staff(username,name,surname,position,password) VALUES('admin','admin','admin','ADMIN','admin');\n    ";

/// Stores a product with all its fields.
pub const INSERT_PRODUCT: &'static str = "INSERT INTO product (_id,name,quantity,category,barcode,reorderLimit,sell_price,cost_price,expiry_date,total_profit,quantity_sold,refunded_quantity,refunded_amount,entityId,is_archived,isBalanced,createdAt,updatedAt) VALUES($1,$2,$3,$4,$5,$6,$7,$8,$9,$10,$11,$12,$13,$14,$15,$16,$17,$18);";

/// Stores a payment method.
pub const INSERT_PAYMENT_METHOD: &'static str = "INSERT INTO payment_method(_id,name,hidden) VALUES(?1,?2,?3);";

/// Empties the stock before the cloud's copy is loaded.
pub const DELETE_ALL_PRODUCTS: &'static str = "DELETE FROM product";

/// Reads the stored account.
pub const SELECT_ENTITY: &'static str = "Select * From entity;";

/// Reads the payment methods offered at the till.
pub const SELECT_VISIBLE_PAYMENT_METHODS: &'static str = "Select * from payment_method WHERE hidden = FALSE;";

/// The statement that stores the account (and the default administrator).
pub open spec fn entity_statement(e: Entity) -> StatementView {
    stmt(INSERT_ENTITY, seq![
        text(e.username), text(e.password), text(e.email), text(e.phone), text(e.address),
        text(e.terminal), text(e.createdAt), text(e.updatedAt), integer(e.__v),
        ParamView::Bool(e.printSilently), integer(e.syncTime), text(e._id), text(e.businessName),
        integer(e.terminal_count),
    ])
}

/// The statement that stores a product: every field of it, in the order of
/// the columns.
pub open spec fn product_statement(p: Product) -> StatementView {
    stmt(INSERT_PRODUCT, seq![
        opt_text(p._id), opt_text(p.name), ParamView::Real(p.quantity), opt_text(p.category),
        opt_text(p.barcode), opt_real(p.reorderLimit), ParamView::Real(p.sell_price),
        ParamView::Real(p.cost_price), opt_text(p.expiry_date), opt_real(p.total_profit),
        opt_real(p.quantity_sold), opt_real(p.refunded_quantity), opt_real(p.refunded_amount),
        opt_text(p.entityId), ParamView::Bool(p.isArchived), ParamView::Bool(p.isBalanced),
        opt_text(p.createdAt), opt_text(p.updatedAt),
    ])
}

/// The statement that stores a payment method.
pub open spec fn payment_method_statement(m: PaymentMethod) -> StatementView {
    stmt(INSERT_PAYMENT_METHOD, seq![text(m._id), text(m.name), ParamView::Bool(m.hidden)])
}

/// Builds the statement that stores the account.
pub fn register_entity(e: &Entity) -> (st: Statement)
    ensures
        st@ == entity_statement(*e),
{
    let st = Statement {
        sql: INSERT_ENTITY,
        params: vec![
            text_param(&e.username), text_param(&e.password), text_param(&e.email),
            text_param(&e.phone), text_param(&e.address), text_param(&e.terminal),
            text_param(&e.createdAt), text_param(&e.updatedAt), int_param(e.__v),
            Param::Bool(e.printSilently), int_param(e.syncTime), text_param(&e._id),
            text_param(&e.businessName), int_param(e.terminal_count),
        ],
    };
    assert(st@.params =~= entity_statement(*e).params);
    st
}

/// Builds the statement that stores a product.
pub fn store_product(p: &Product) -> (st: Statement)
    ensures
        st@ == product_statement(*p),
{
    let st = Statement {
        sql: INSERT_PRODUCT,
        params: vec![
            opt_text_param(&p._id), opt_text_param(&p.name), Param::Real(p.quantity),
            opt_text_param(&p.category), opt_text_param(&p.barcode), opt_real_param(p.reorderLimit),
            Param::Real(p.sell_price), Param::Real(p.cost_price), opt_text_param(&p.expiry_date),
            opt_real_param(p.total_profit), opt_real_param(p.quantity_sold),
            opt_real_param(p.refunded_quantity), opt_real_param(p.refunded_amount),
            opt_text_param(&p.entityId), Param::Bool(p.isArchived), Param::Bool(p.isBalanced),
            opt_text_param(&p.createdAt), opt_text_param(&p.updatedAt),
        ],
    };
    assert(st@.params =~= product_statement(*p).params);
    st
}

/// Builds the statements that store each product, in order.
pub fn store_products(products: &Vec<Product>) -> (plan: Vec<Statement>)
    ensures
        views(plan@) == products@.map_values(|p: Product| product_statement(p)),
{
    let mut plan: Vec<Statement> = Vec::new();
    for i in 0..products.len()
        invariant
            views(plan@) == products@.take(i as int).map_values(|p: Product| product_statement(p)),
    {
        let st = store_product(&products[i]);
        let ghost before = plan@;
        plan.push(st);
        assert(views(plan@) =~= views(before).push(st@));
        assert(products@.take(i + 1) =~= products@.take(i as int).push(products@[i as int]));
        assert(products@.take(i + 1).map_values(|p: Product| product_statement(p))
            =~= products@.take(i as int).map_values(|p: Product| product_statement(p)).push(product_statement(products@[i as int])));
    }
    assert(products@.take(products.len() as int) =~= products@);
    plan
}

/// Builds the statements that store each payment method, in order.
pub fn store_payment_methods(methods: &Vec<PaymentMethod>) -> (plan: Vec<Statement>)
    ensures
        views(plan@) == methods@.map_values(|m: PaymentMethod| payment_method_statement(m)),
{
    let mut plan: Vec<Statement> = Vec::new();
    for i in 0..methods.len()
        invariant
            views(plan@) == methods@.take(i as int).map_values(|m: PaymentMethod| payment_method_statement(m)),
    {
        let m = &methods[i];
        let st = Statement {
            sql: INSERT_PAYMENT_METHOD,
            params: vec![text_param(&m._id), text_param(&m.name), Param::Bool(m.hidden)],
        };
        assert(st@.params =~= payment_method_statement(*m).params);
        let ghost before = plan@;
        plan.push(st);
        assert(views(plan@) =~= views(before).push(st@));
        assert(methods@.take(i + 1) =~= methods@.take(i as int).push(*m));
        assert(methods@.take(i + 1).map_values(|m: PaymentMethod| payment_method_statement(m))
            =~= methods@.take(i as int).map_values(|m: PaymentMethod| payment_method_statement(m)).push(payment_method_statement(*m)));
    }
    assert(methods@.take(methods.len() as int) =~= methods@);
    plan
}

/// Builds what registering the terminal stores before its payment methods:
/// the account, then each product the cloud sent, in order.
pub fn registration(e: &Entity, products: &Vec<Product>) -> (plan: Vec<Statement>)
    ensures
        views(plan@) == seq![entity_statement(*e)] + products@.map_values(|p: Product| product_statement(p)),
{
    let mut plan: Vec<Statement> = Vec::new();
    plan.push(register_entity(e));
    let mut rest = store_products(products);
    let ghost first = plan@;
    let ghost tail = rest@;
    plan.append(&mut rest);
    assert(plan@ =~= first + tail);
    assert(views(plan@) =~= views(first) + views(tail));
    plan
}

/// The address from which the cloud's full stock for the account is fetched.
pub fn force_update_url(e: &Entity) -> (url: String)
    ensures
        url@ == API@ + "force_update/"@ + e._id@,
{
    let mut url = endpoint("force_update/");
    url.append(e._id.as_str());
    url
}

/// Builds the statement that creates the tables.
pub fn create_tables() -> (st: Statement)
    ensures
        st@ == stmt(CREATE_TABLES, seq![]),
{
    let st = Statement { sql: CREATE_TABLES, params: Vec::new() };
    assert(st@.params =~= seq![]);
    st
}

/// Builds the statement that empties the stock.
pub fn clear_products() -> (st: Statement)
    ensures
        st@ == stmt(DELETE_ALL_PRODUCTS, seq![]),
{
    let st = Statement { sql: DELETE_ALL_PRODUCTS, params: Vec::new() };
    assert(st@.params =~= seq![]);
    st
}

/// Builds the lookup of the stored account.
pub fn entity_lookup() -> (st: Statement)
    ensures
        st@ == stmt(SELECT_ENTITY, seq![]),
{
    let st = Statement { sql: SELECT_ENTITY, params: Vec::new() };
    assert(st@.params =~= seq![]);
    st
}

/// Builds the lookup of the payment methods offered at the till.
pub fn visible_payment_methods() -> (st: Statement)
    ensures
        st@ == stmt(SELECT_VISIBLE_PAYMENT_METHODS, seq![]),
{
    let st = Statement { sql: SELECT_VISIBLE_PAYMENT_METHODS, params: Vec::new() };
    assert(st@.params =~= seq![]);
    st
}

/// The stored account as the till sees it: its payment methods are the
/// visible ones read from the store, whatever the account row held.
pub fn with_payment_methods(e: Entity, methods: Vec<PaymentMethod>) -> (r: Entity)
    ensures
        r == (Entity { paymentMethods: Some(methods), ..e }),
{
    let mut e = e;
    e.paymentMethods = Some(methods);
    e
}

/// A product is stored with `_id, name, quantity, category, barcode,
/// reorderLimit, sell_price, cost_price, expiry_date, total_profit,
/// quantity_sold, refunded_quantity, refunded_amount, entityId, is_archived,
/// isBalanced, createdAt, updatedAt` bound in that order to its fields of
/// those names.
pub proof fn lemma_product_columns(p: Product)
    ensures
        product_statement(p).sql == INSERT_PRODUCT@,
        product_statement(p).params.len() == 18,
        product_statement(p).params[0] == opt_text(p._id),
        product_statement(p).params[1] == opt_text(p.name),
        product_statement(p).params[2] == ParamView::Real(p.quantity),
        product_statement(p).params[3] == opt_text(p.category),
        product_statement(p).params[4] == opt_text(p.barcode),
        product_statement(p).params[5] == opt_real(p.reorderLimit),
        product_statement(p).params[6] == ParamView::Real(p.sell_price),
        product_statement(p).params[7] == ParamView::Real(p.cost_price),
        product_statement(p).params[8] == opt_text(p.expiry_date),
        product_statement(p).params[9] == opt_real(p.total_profit),
        product_statement(p).params[10] == opt_real(p.quantity_sold),
        product_statement(p).params[11] == opt_real(p.refunded_quantity),
        product_statement(p).params[12] == opt_real(p.refunded_amount),
        product_statement(p).params[13] == opt_text(p.entityId),
        product_statement(p).params[14] == ParamView::Bool(p.isArchived),
        product_statement(p).params[15] == ParamView::Bool(p.isBalanced),
        product_statement(p).params[16] == opt_text(p.createdAt),
        product_statement(p).params[17] == opt_text(p.updatedAt),
{
}

/// The account is stored with `username, password, email, phone, address,
/// terminal, createdAt, updatedAt, __v, printSilently, syncTime, _id,
/// business_name, terminal_count` bound in that order to its fields of
/// those names; a payment method with its `_id, name, hidden`.
pub proof fn lemma_account_columns(e: Entity, m: PaymentMethod)
    ensures
        entity_statement(e).sql == INSERT_ENTITY@,
        entity_statement(e).params == seq![
            ParamView::Text(e.username@), ParamView::Text(e.password@), ParamView::Text(e.email@),
            ParamView::Text(e.phone@), ParamView::Text(e.address@), ParamView::Text(e.terminal@),
            ParamView::Text(e.createdAt@), ParamView::Text(e.updatedAt@), ParamView::Integer(e.__v as i64),
            ParamView::Bool(e.printSilently), ParamView::Integer(e.syncTime as i64), ParamView::Text(e._id@),
            ParamView::Text(e.businessName@), ParamView::Integer(e.terminal_count as i64),
        ],
        payment_method_statement(m).sql == INSERT_PAYMENT_METHOD@,
        payment_method_statement(m).params == seq![ParamView::Text(m._id@), ParamView::Text(m.name@), ParamView::Bool(m.hidden)],
{
    assert(entity_statement(e).params =~= seq![
        ParamView::Text(e.username@), ParamView::Text(e.password@), ParamView::Text(e.email@),
        ParamView::Text(e.phone@), ParamView::Text(e.address@), ParamView::Text(e.terminal@),
        ParamView::Text(e.createdAt@), ParamView::Text(e.updatedAt@), ParamView::Integer(e.__v as i64),
        ParamView::Bool(e.printSilently), ParamView::Integer(e.syncTime as i64), ParamView::Text(e._id@),
        ParamView::Text(e.businessName@), ParamView::Integer(e.terminal_count as i64),
    ]);
}

/// Registering stores the account first, then each product the cloud sent,
/// in order, each one column by column (see [`lemma_product_columns`]).
pub proof fn lemma_registration_order(e: Entity, products: Seq<Product>)
    ensures
        ({
            let plan = seq![entity_statement(e)] + products.map_values(|p: Product| product_statement(p));
            &&& plan.len() == products.len() + 1
            &&& plan[0].sql == INSERT_ENTITY@
            &&& forall|k: int| 0 <= k < products.len() ==> {
                &&& (#[trigger] plan[k + 1]).sql == INSERT_PRODUCT@
                &&& plan[k + 1].params[0] == opt_text(products[k]._id)
                &&& plan[k + 1].params[5] == opt_real(products[k].reorderLimit)
                &&& plan[k + 1].params[6] == ParamView::Real(products[k].sell_price)
                &&& plan[k + 1].params[7] == ParamView::Real(products[k].cost_price)
            }
        }),
{
    let plan = seq![entity_statement(e)] + products.map_values(|p: Product| product_statement(p));
    assert forall|k: int| 0 <= k < products.len() implies {
        &&& (#[trigger] plan[k + 1]).sql == INSERT_PRODUCT@
        &&& plan[k + 1].params[0] == opt_text(products[k]._id)
        &&& plan[k + 1].params[5] == opt_real(products[k].reorderLimit)
        &&& plan[k + 1].params[6] == ParamView::Real(products[k].sell_price)
        &&& plan[k + 1].params[7] == ParamView::Real(products[k].cost_price)
    } by {
        assert(plan[k + 1] == product_statement(products[k]));
        lemma_product_columns(products[k]);
    }
}

} // verus!
