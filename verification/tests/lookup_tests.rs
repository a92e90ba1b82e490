use pos_terminal::lookup::{
    connection_error, customer_search, new_customer, product_search, products_found, query_error, staff_login,
    INSERT_CUSTOMER, SEARCH_CUSTOMERS, SEARCH_PRODUCTS, SELECT_STAFF,
};
use pos_terminal::model::Product;
use pos_terminal::sql::Param;

fn goods(id: &str) -> Product {
    Product {
        _id: Some(id.to_string()),
        name: None,
        quantity: 0,
        category: None,
        barcode: None,
        reorderLimit: None,
        sell_price: 0,
        cost_price: 0,
        expiry_date: None,
        total_profit: None,
        quantity_sold: None,
        refunded_quantity: None,
        refunded_amount: None,
        entityId: None,
        isArchived: false,
        isBalanced: false,
        createdAt: None,
        updatedAt: None,
    }
}

#[test]
fn sign_in_binds_the_credentials() {
    let st = staff_login("admin", "secret");
    assert_eq!(st.sql, SELECT_STAFF);
    assert_eq!(st.params, vec![Param::Text("admin".to_string()), Param::Text("secret".to_string())]);
}

#[test]
fn product_search_matches_names_containing_the_query() {
    let st = product_search("tea");
    assert_eq!(st.sql, SEARCH_PRODUCTS);
    assert_eq!(st.params, vec![Param::Text("%tea%".to_string())]);
}

#[test]
fn product_search_needs_every_row() {
    assert_eq!(products_found(vec![Ok(goods("a")), Ok(goods("b"))]), Ok(Some(vec![goods("a"), goods("b")])));
    assert_eq!(products_found(vec![]), Ok(Some(vec![])));
    assert_eq!(
        products_found(vec![Ok(goods("a")), Err("bad column".to_string())]),
        Err("bad column".to_string())
    );
}

#[test]
fn new_customer_is_stored_under_the_full_name() {
    let st = new_customer(&"Ada".to_string(), "555".to_string(), &"Lovelace".to_string());
    assert_eq!(st.sql, INSERT_CUSTOMER);
    assert_eq!(
        st.params,
        vec![
            Param::Text("Ada".to_string()),
            Param::Text("Lovelace".to_string()),
            Param::Text("555".to_string()),
            Param::Text("Ada Lovelace".to_string()),
        ]
    );
}

#[test]
fn customer_search_matches_full_names() {
    let st = customer_search("Ada");
    assert_eq!(st.sql, SEARCH_CUSTOMERS);
    assert_eq!(st.params, vec![Param::Text("%Ada%".to_string())]);
}

#[test]
fn errors_name_their_cause() {
    assert_eq!(connection_error(&"no file".to_string()).message, "Failed to connect to the database: no file");
    assert_eq!(query_error(&"syntax".to_string()).message, "Failed to execute query: syntax");
}
