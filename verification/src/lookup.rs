//! Signing in, searching the stock, and keeping customers.

use vstd::prelude::*;
use crate::loader::{all_or_first_error, contains_pattern, like_pattern, require_all, row_results};
use crate::model::{ApiError, Product};
use crate::sql::{stmt, text, Param, ParamView, Statement, StatementView};

verus! {

/// Finds the member of staff with these credentials.
pub const SELECT_STAFF: &'static str = "Select * From staff WHERE username = $1 AND password = $2;";

/// Finds at most 30 products whose name matches, by name.
pub const SEARCH_PRODUCTS: &'static str = "SELECT * FROM product WHERE name LIKE ?1 ORDER BY name ASC LIMIT 30;";

/// Stores a customer and reads it back with its wallet and revenue.
pub const INSERT_CUSTOMER: &'static str = "INSERT INTO customer(firstName,lastName,phone,fullName) VALUES($1,$2,$3,$4) RETURNING *, CAST(wallet AS REAL) AS wallet,  CAST(totalRevenue AS REAL) AS totalRevenue;";

/// Finds the customers whose full name matches.
pub const SEARCH_CUSTOMERS: &'static str = "SELECT * FROM customer WHERE fullName LIKE ?1;";

/// Builds the lookup of the member of staff with these credentials.
pub fn staff_login(username: &str, password: &str) -> (st: Statement)
    ensures
        st@ == stmt(SELECT_STAFF, seq![ParamView::Text(username@), ParamView::Text(password@)]),
{
    let st = Statement {
        sql: SELECT_STAFF,
        params: vec![Param::Text(username.to_owned()), Param::Text(password.to_owned())],
    };
    assert(st@.params =~= seq![ParamView::Text(username@), ParamView::Text(password@)]);
    st
}

/// Builds the search of products whose name contains `q`.
pub fn product_search(q: &str) -> (st: Statement)
    ensures
        st@ == stmt(SEARCH_PRODUCTS, seq![ParamView::Text(contains_pattern(q@))]),
{
    let st = Statement { sql: SEARCH_PRODUCTS, params: vec![Param::Text(like_pattern(q))] };
    assert(st@.params =~= seq![ParamView::Text(contains_pattern(q@))]);
    st
}

/// The products found, from the rows of the search: all of them, in order,
/// when every row could be read as a product; else the first error.
pub fn products_found(rows: Vec<Result<Product, String>>) -> (r: Result<Option<Vec<Product>>, String>)
    ensures
        all_or_first_error(row_results(rows@)) matches Ok(ps) ==> r matches Ok(Some(v)) && v@ == ps,
        all_or_first_error(row_results(rows@)) matches Err(e) ==> r matches Err(m) && m@ == e,
{
    match require_all(rows) {
        Ok(products) => Ok(Some(products)),
        Err(e) => Err(e),
    }
}

/// A customer's full name: first name, a space, last name.
pub open spec fn full_name(first: Seq<char>, last: Seq<char>) -> Seq<char> {
    first + " "@ + last
}

/// Builds the statement that stores a new customer under its full name.
pub fn new_customer(first_name: &String, phone: String, last_name: &String) -> (st: Statement)
    ensures
        st@ == stmt(INSERT_CUSTOMER, seq![
            text(*first_name), text(*last_name), text(phone),
            ParamView::Text(full_name(first_name@, last_name@)),
        ]),
{
    let mut full = first_name.clone();
    full.append(" ");
    full.append(last_name.as_str());
    let st = Statement {
        sql: INSERT_CUSTOMER,
        params: vec![
            Param::Text(first_name.clone()), Param::Text(last_name.clone()), Param::Text(phone),
            Param::Text(full),
        ],
    };
    assert(st@.params =~= seq![
        text(*first_name), text(*last_name), text(phone),
        ParamView::Text(full_name(first_name@, last_name@)),
    ]);
    st
}

/// Builds the search of customers whose full name contains `q`.
pub fn customer_search(q: &str) -> (st: Statement)
    ensures
        st@ == stmt(SEARCH_CUSTOMERS, seq![ParamView::Text(contains_pattern(q@))]),
{
    let st = Statement { sql: SEARCH_CUSTOMERS, params: vec![Param::Text(like_pattern(q))] };
    assert(st@.params =~= seq![ParamView::Text(contains_pattern(q@))]);
    st
}

/// The error answered when the store cannot be reached.
pub fn connection_error(cause: &String) -> (e: ApiError)
    ensures
        e.message@ == "Failed to connect to the database: "@ + cause@,
{
    let mut message = "Failed to connect to the database: ".to_owned();
    message.append(cause.as_str());
    ApiError { message }
}

/// The error answered when a statement fails.
pub fn query_error(cause: &String) -> (e: ApiError)
    ensures
        e.message@ == "Failed to execute query: "@ + cause@,
{
    let mut message = "Failed to execute query: ".to_owned();
    message.append(cause.as_str());
    ApiError { message }
}

/// A full name is the first name, one space, then the last name.
pub proof fn lemma_full_name(first: Seq<char>, last: Seq<char>)
    ensures
        full_name(first, last).len() == first.len() + 1 + last.len(),
        full_name(first, last).subrange(0, first.len() as int) == first,
        full_name(first, last)[first.len() as int] == ' ',
        full_name(first, last).subrange(first.len() as int + 1, full_name(first, last).len() as int) == last,
{
    reveal_strlit(" ");
    assert(full_name(first, last).subrange(0, first.len() as int) =~= first);
    assert(full_name(first, last).subrange(first.len() as int + 1, full_name(first, last).len() as int) =~= last);
}

} // verus!
