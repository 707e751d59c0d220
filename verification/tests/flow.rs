//! End-to-end tests: the handlers against a fresh store.

use bookstore::books::{create_book, get_price, Book};
use bookstore::customers::{create_customer, get_balance, update_address, update_balance, Customer};
use bookstore::orders::{
    check_affordability, create_order, get_shipped, get_status, ship_order, Order,
};
use bookstore::store::Store;

fn book(title: &str, author: &str, price: Option<&str>) -> Book {
    Book {
        id: None,
        title: Some(title.to_string()),
        author: Some(author.to_string()),
        price: price.map(|p| p.to_string()),
    }
}

fn customer(name: &str, address: &str, balance: Option<&str>) -> Customer {
    Customer {
        id: None,
        name: Some(name.to_string()),
        shipping_address: Some(address.to_string()),
        account_balance: balance.map(|b| b.to_string()),
    }
}

fn order(order_id: Option<i64>, customer_id: Option<i64>, book_id: Option<i64>) -> Order {
    Order { order_id, customer_id, book_id, shipped: None }
}

#[test]
fn create_book_then_read_price() {
    let mut store = Store::new();
    let r = create_book(&mut store, &book("Dune", "Herbert", Some("15.00")));
    assert!(r.is_ok());
    let r = get_price(&store, &book("Dune", "Herbert", None));
    assert_eq!(r.unwrap(), "Dune, with bookId 1, has price: $15.00");
}

#[test]
fn create_book_normalizes_fields() {
    let mut store = Store::new();
    create_book(&mut store, &book("  Dune   Messiah ", " Frank  Herbert ", Some("9.99")))
        .unwrap();
    let r = get_price(&store, &book("Dune Messiah", "Frank Herbert", None));
    assert_eq!(r.unwrap(), "Dune Messiah, with bookId 1, has price: $9.99");
}

#[test]
fn create_book_reports_missing_and_invalid_fields() {
    let mut store = Store::new();
    let b = Book { id: None, title: None, author: None, price: None };
    assert_eq!(create_book(&mut store, &b).unwrap_err(), "No title provided");
    let b = book("Dune", "Herbert", None);
    assert_eq!(create_book(&mut store, &b).unwrap_err(), "No price provided");
    let b = book("Dune<html>", "Herbert", Some("15.00"));
    assert_eq!(
        create_book(&mut store, &b).unwrap_err(),
        "Please input a valid title:\n\t Please use only alphabet and numeric values."
    );
    let b = book("Dune", "Herbert", Some("15.555"));
    assert_eq!(
        create_book(&mut store, &b).unwrap_err(),
        "Please input a valid price of form X.YY: 0 <= X <= 9999, 0 <= Y <= 9"
    );
}

#[test]
fn price_of_unknown_book_is_an_error() {
    let store = Store::new();
    let r = get_price(&store, &book("Dune", "Herbert", None));
    assert_eq!(r.unwrap_err(), "No book found with the given title and author");
}

#[test]
fn new_customer_has_default_balance() {
    let mut store = Store::new();
    create_customer(&mut store, &customer("Alice", "1 Main St", None)).unwrap();
    let r = get_balance(&store, &customer("Alice", "1 Main St", None));
    assert_eq!(r.unwrap(), "Customer Alice, with customerID 1, has balance: $5.00");
}

#[test]
fn update_address_moves_the_customer() {
    let mut store = Store::new();
    create_customer(&mut store, &customer("Alice", "1 Main St", None)).unwrap();
    let r = update_address(&mut store, &customer("Alice", "2 Oak Ave", None));
    assert_eq!(r.unwrap_err(), "No customer found with the given name and shipping address");
    let r = update_address(&mut store, &customer("Alice", "1 Main St", None));
    assert_eq!(r.unwrap(), "Successfully updated address for customer: Alice to 1 Main St");
}

#[test]
fn update_balance_rewrites_the_balance() {
    let mut store = Store::new();
    create_customer(&mut store, &customer("Bob", "3 Pine Rd", None)).unwrap();
    let r = update_balance(&mut store, &customer("Bob", "3 Pine Rd", Some("42.10")));
    assert_eq!(r.unwrap(), "Successfully updated balance for customer: Bob to $42.10");
    let r = get_balance(&store, &customer("Bob", "3 Pine Rd", None));
    assert_eq!(r.unwrap(), "Customer Bob, with customerID 1, has balance: $42.10");
    let r = update_balance(&mut store, &customer("Bob", "3 Pine Rd", Some("0.00")));
    assert_eq!(r.unwrap_err(), "Please give a positive value (>0) for balance");
}

#[test]
fn affordability_accepts_and_debits() {
    assert_eq!(check_affordability(500, 300).unwrap(), 200);
    let mut store = Store::new();
    create_customer(&mut store, &customer("Alice", "1 Main St", None)).unwrap();
    create_book(&mut store, &book("Dune", "Herbert", Some("3.00"))).unwrap();
    let r = create_order(&mut store, &order(None, Some(1), Some(1)));
    assert_eq!(
        r.unwrap(),
        "Successfully created order for Customer id: 1\n\t Your orderId is 1"
    );
    let r = get_balance(&store, &customer("Alice", "1 Main St", None));
    assert_eq!(r.unwrap(), "Customer Alice, with customerID 1, has balance: $2.00");
}

#[test]
fn affordability_rejects_with_both_amounts() {
    let r = check_affordability(300, 500);
    assert_eq!(
        r.unwrap_err(),
        "Insufficient funds. You have $3.00, the price of the book is $5.00"
    );
    let mut store = Store::new();
    create_customer(&mut store, &customer("Alice", "1 Main St", None)).unwrap();
    update_balance(&mut store, &customer("Alice", "1 Main St", Some("3.00"))).unwrap();
    create_book(&mut store, &book("Dune", "Herbert", Some("5.00"))).unwrap();
    let r = create_order(&mut store, &order(None, Some(1), Some(1)));
    let msg = r.unwrap_err();
    assert_eq!(msg, "Insufficient funds. You have $3.00, the price of the book is $5.00");
    assert!(msg.contains("3.00") && msg.contains("5.00"));
}

#[test]
fn create_order_reports_unknown_ids() {
    let mut store = Store::new();
    let r = create_order(&mut store, &order(None, None, Some(1)));
    assert_eq!(r.unwrap_err(), "No customer_id provided");
    let r = create_order(&mut store, &order(None, Some(1), None));
    assert_eq!(r.unwrap_err(), "No book_id provided");
    let r = create_order(&mut store, &order(None, Some(1), Some(1)));
    assert_eq!(r.unwrap_err(), "No customer found with the given customer id");
    create_customer(&mut store, &customer("Alice", "1 Main St", None)).unwrap();
    let r = create_order(&mut store, &order(None, Some(1), Some(9)));
    assert_eq!(r.unwrap_err(), "No book found with the given book id");
}

#[test]
fn shipment_lifecycle_is_one_way() {
    let mut store = Store::new();
    create_customer(&mut store, &customer("Alice", "1 Main St", None)).unwrap();
    create_book(&mut store, &book("Dune", "Herbert", Some("3.00"))).unwrap();
    create_order(&mut store, &order(None, Some(1), Some(1))).unwrap();

    // A new order reads as unshipped.
    let r = get_shipped(&store, &order(None, Some(1), Some(1)));
    assert_eq!(r.unwrap(), "The shipped of Order ID 1 is: Not Shipped");

    // One ship action moves it to shipped.
    let r = ship_order(&mut store, &order(Some(1), None, None));
    assert_eq!(r.unwrap(), "Successfully shipped your Order ID: 1!");
    let r = get_shipped(&store, &order(None, Some(1), Some(1)));
    assert_eq!(r.unwrap(), "The shipped of Order ID 1 is: Shipped");

    // A second ship action changes nothing.
    let r = ship_order(&mut store, &order(Some(1), None, None));
    assert_eq!(r.unwrap(), "Successfully shipped your Order ID: 1!");
    let r = get_shipped(&store, &order(None, Some(1), Some(1)));
    assert_eq!(r.unwrap(), "The shipped of Order ID 1 is: Shipped");
}

#[test]
fn status_report_lists_all_parts() {
    let mut store = Store::new();
    create_customer(&mut store, &customer("Alice", "1 Main St", None)).unwrap();
    create_book(&mut store, &book("Dune", "Herbert", Some("3.00"))).unwrap();
    create_order(&mut store, &order(None, Some(1), Some(1))).unwrap();
    let r = get_status(&store, &order(Some(1), Some(1), Some(1)));
    assert_eq!(
        r.unwrap(),
        "Order Status of Order ID: 1 is Not Shipped\n\t Book ID: 1\n\t Customer ID: 1\n\t Shipping Address: 1 Main St"
    );
    let r = get_status(&store, &order(Some(9), Some(1), Some(1)));
    assert_eq!(r.unwrap_err(), "No order found with the given order id");
    let r = get_status(&store, &order(Some(1), Some(9), Some(1)));
    assert_eq!(r.unwrap_err(), "No customer found with the given customer id");
}

#[test]
fn shipped_status_of_unknown_pair_is_an_error() {
    let store = Store::new();
    let r = get_shipped(&store, &order(None, Some(1), Some(1)));
    assert_eq!(r.unwrap_err(), "No order found with the given customer id and book id");
}
