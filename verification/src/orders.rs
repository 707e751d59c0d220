//! The purchase-order request handlers: create an order, read an order's
//! shipment status, ship an order, and read a full status report.
//!
//! Creating an order enforces the one cross-entity rule of the system: it
//! succeeds exactly when the customer's balance covers the book's price, and
//! then the debited balance and the new order row are written together,
//! under the same `&mut` borrow of the store.

use vstd::prelude::*;
use crate::numfmt::{i64_to_string, int_rep, money_rep, cents_to_string};
use crate::resp::resp_view;
use crate::store::{
    book_price_of, by_customer_id, customer_address_of, customer_balance_of, lemma_first_where,
    lookup_order_id, opt_id_view, set_balance, ship_orders, shipped_code, OrderV, ShipmentStatus,
    Store, StoreV,
};

verus! {

/// An order request: any field may be missing.
pub struct Order {
    pub order_id: Option<i64>,
    pub customer_id: Option<i64>,
    pub book_id: Option<i64>,
    pub shipped: Option<i64>,
}

/// The rejection message for an order whose price exceeds the balance: it
/// reports both amounts, rounded to two decimal places.
pub open spec fn msg_insufficient(balance: int, price: int) -> Seq<char> {
    "Insufficient funds. You have $"@ + money_rep(balance as nat)
        + ", the price of the book is $"@ + money_rep(price as nat)
}

/// The affordability rule: an order is allowed exactly when the balance
/// covers the price, and the balance after the order is the difference.
pub fn check_affordability(balance_cents: u64, price_cents: u64) -> (r: Result<u64, String>)
    ensures
        balance_cents >= price_cents ==> r is Ok && r->Ok_0 == balance_cents - price_cents,
        balance_cents < price_cents ==> r is Err && r->Err_0@ == msg_insufficient(
            balance_cents as int,
            price_cents as int,
        ),
{
    if balance_cents >= price_cents {
        Ok(balance_cents - price_cents)
    } else {
        let mut m = String::from_str("Insufficient funds. You have $");
        let b = cents_to_string(balance_cents);
        m.append(b.as_str());
        m.append(", the price of the book is $");
        let p = cents_to_string(price_cents);
        m.append(p.as_str());
        Err(m)
    }
}

/// The rejection message for an order lookup whose customer id is unknown.
pub open spec fn msg_order_customer_not_found() -> Seq<char> {
    "No customer found with the given customer id"@
}

/// The rejection message for an order lookup whose book id is unknown.
pub open spec fn msg_order_book_not_found() -> Seq<char> {
    "No book found with the given book id"@
}

/// The rejection message for a lookup that finds no order for a customer and
/// book pair.
pub open spec fn msg_order_pair_not_found() -> Seq<char> {
    "No order found with the given customer id and book id"@
}

/// The rejection message for a lookup that finds no order with an id.
pub open spec fn msg_order_not_found() -> Seq<char> {
    "No order found with the given order id"@
}

/// The confirmation message for a created order.
pub open spec fn msg_order_created(cid: int, oid: int) -> Seq<char> {
    "Successfully created order for Customer id: "@ + int_rep(cid) + "\n\t Your orderId is "@
        + int_rep(oid)
}

/// What creating an order does to the store, and what it answers: a missing
/// field is reported first, then the customer's balance and the book's price
/// are read; an affordable order debits the balance and adds an unshipped
/// order row in one step, and reports the id of the first order for the
/// pair, as the persistence layer does.
pub open spec fn create_order_spec(s0: StoreV, cid: Option<int>, bid: Option<int>) -> (
    StoreV,
    Result<Seq<char>, Seq<char>>,
) {
    if cid is None {
        (s0, Err("No customer_id provided"@))
    } else if bid is None {
        (s0, Err("No book_id provided"@))
    } else {
        let c = cid->Some_0;
        let b = bid->Some_0;
        match customer_balance_of(s0.customers, c) {
            None => (s0, Err(msg_order_customer_not_found())),
            Some(balance) => match book_price_of(s0.books, b) {
                None => (s0, Err(msg_order_book_not_found())),
                Some(price) => if balance < price {
                    (s0, Err(msg_insufficient(balance, price)))
                } else {
                    let s1 = StoreV {
                        books: s0.books,
                        customers: set_balance(s0.customers, c, balance - price),
                        orders: s0.orders.push(
                            OrderV {
                                id: s0.next_order_id,
                                customer_id: c,
                                book_id: b,
                                shipped: ShipmentStatus::Unshipped,
                            },
                        ),
                        next_book_id: s0.next_book_id,
                        next_customer_id: s0.next_customer_id,
                        next_order_id: s0.next_order_id + 1,
                    };
                    let oid = lookup_order_id(s1.orders, c, b)->Some_0;
                    (s1, Ok(msg_order_created(c, oid)))
                },
            },
        }
    }
}

/// Handle an order-creation request.
pub fn create_order(store: &mut Store, order: &Order) -> (r: Result<String, String>)
    requires
        old(store)@.wf(),
        old(store)@.next_order_id < i64::MAX,
    ensures
        final(store)@.wf(),
        final(store)@ == create_order_spec(
            old(store)@,
            opt_id_view(order.customer_id),
            opt_id_view(order.book_id),
        ).0,
        resp_view(r) == create_order_spec(
            old(store)@,
            opt_id_view(order.customer_id),
            opt_id_view(order.book_id),
        ).1,
{
    let cid = match order.customer_id {
        Some(c) => c,
        None => {
            return Err(String::from_str("No customer_id provided"));
        },
    };
    let bid = match order.book_id {
        Some(b) => b,
        None => {
            return Err(String::from_str("No book_id provided"));
        },
    };
    let balance = match store.get_customer_balance(cid) {
        Some(b) => b,
        None => {
            return Err(String::from_str("No customer found with the given customer id"));
        },
    };
    let price = match store.get_book_price(bid) {
        Some(p) => p,
        None => {
            return Err(String::from_str("No book found with the given book id"));
        },
    };
    let new_balance = match check_affordability(balance, price) {
        Ok(nb) => nb,
        Err(e) => {
            return Err(e);
        },
    };
    proof {
        lemma_first_where(store@.customers, by_customer_id(cid as int));
    }
    store.update_customer_balance(cid, new_balance);
    let oid = store.create_purchase_order(cid, bid);
    proof {
        assert(store@ =~= create_order_spec(
            old(store)@,
            opt_id_view(order.customer_id),
            opt_id_view(order.book_id),
        ).0);
    }
    let mut m = String::from_str("Successfully created order for Customer id: ");
    let cid_str = i64_to_string(cid);
    m.append(cid_str.as_str());
    m.append("\n\t Your orderId is ");
    let oid_str = i64_to_string(oid);
    m.append(oid_str.as_str());
    Ok(m)
}

/// The shipment-report message: the order id and its state, written
/// `Shipped` or `Not Shipped`.
pub open spec fn msg_shipped_status(oid: int, code: int) -> Seq<char> {
    "The shipped of Order ID "@ + int_rep(oid) + " is: "@ + (if code == 1 {
        "Shipped"@
    } else {
        "Not Shipped"@
    })
}

/// What reading an order's shipment status answers: a missing field is
/// reported first, then the order is looked up by customer and book and its
/// state read back by its id.
pub open spec fn get_shipped_spec(s0: StoreV, cid: Option<int>, bid: Option<int>) -> Result<
    Seq<char>,
    Seq<char>,
> {
    if cid is None {
        Err("No customer_id provided"@)
    } else if bid is None {
        Err("No book_id provided"@)
    } else {
        match lookup_order_id(s0.orders, cid->Some_0, bid->Some_0) {
            None => Err(msg_order_pair_not_found()),
            Some(oid) => match shipped_code(s0.orders, oid) {
                None => Err(msg_order_pair_not_found()),
                Some(code) => Ok(msg_shipped_status(oid, code)),
            },
        }
    }
}

/// Handle a shipment-status request.
pub fn get_shipped(store: &Store, order: &Order) -> (r: Result<String, String>)
    ensures
        resp_view(r) == get_shipped_spec(
            store@,
            opt_id_view(order.customer_id),
            opt_id_view(order.book_id),
        ),
{
    let cid = match order.customer_id {
        Some(c) => c,
        None => {
            return Err(String::from_str("No customer_id provided"));
        },
    };
    let bid = match order.book_id {
        Some(b) => b,
        None => {
            return Err(String::from_str("No book_id provided"));
        },
    };
    let oid = match store.get_purchase_order_id(cid, bid) {
        Some(o) => o,
        None => {
            return Err(String::from_str("No order found with the given customer id and book id"));
        },
    };
    let code = match store.is_po_shipped(oid) {
        Some(c) => c,
        None => {
            return Err(String::from_str("No order found with the given customer id and book id"));
        },
    };
    let mut m = String::from_str("The shipped of Order ID ");
    let oid_str = i64_to_string(oid);
    m.append(oid_str.as_str());
    m.append(" is: ");
    if code == 1 {
        m.append("Shipped");
    } else {
        m.append("Not Shipped");
    }
    Ok(m)
}

/// The confirmation message for a ship action.
pub open spec fn msg_order_shipped(oid: int) -> Seq<char> {
    "Successfully shipped your Order ID: "@ + int_rep(oid) + "!"@
}

/// What shipping an order does to the store, and what it answers: a missing
/// field is reported; otherwise the order with the given id, if any, becomes
/// shipped, and the action is confirmed either way, as the persistence
/// layer's update is.
pub open spec fn ship_order_spec(s0: StoreV, oid: Option<int>) -> (
    StoreV,
    Result<Seq<char>, Seq<char>>,
) {
    if oid is None {
        (s0, Err("No order_id provided"@))
    } else {
        (
            StoreV {
                books: s0.books,
                customers: s0.customers,
                orders: ship_orders(s0.orders, oid->Some_0),
                next_book_id: s0.next_book_id,
                next_customer_id: s0.next_customer_id,
                next_order_id: s0.next_order_id,
            },
            Ok(msg_order_shipped(oid->Some_0)),
        )
    }
}

/// Handle a ship request.
pub fn ship_order(store: &mut Store, order: &Order) -> (r: Result<String, String>)
    requires
        old(store)@.wf(),
    ensures
        final(store)@.wf(),
        final(store)@ == ship_order_spec(old(store)@, opt_id_view(order.order_id)).0,
        resp_view(r) == ship_order_spec(old(store)@, opt_id_view(order.order_id)).1,
{
    let oid = match order.order_id {
        Some(o) => o,
        None => {
            return Err(String::from_str("No order_id provided"));
        },
    };
    store.ship_po(oid);
    proof {
        assert(store@ =~= ship_order_spec(old(store)@, opt_id_view(order.order_id)).0);
    }
    let mut m = String::from_str("Successfully shipped your Order ID: ");
    let oid_str = i64_to_string(oid);
    m.append(oid_str.as_str());
    m.append("!");
    Ok(m)
}

/// The full status report: the order id and state, the book id, the
/// customer id, and the customer's shipping address.
pub open spec fn msg_status(oid: int, code: int, bid: int, cid: int, addr: Seq<char>) -> Seq<
    char,
> {
    "Order Status of Order ID: "@ + int_rep(oid) + " is "@ + (if code == 1 {
        "Shipped"@
    } else {
        "Not Shipped"@
    }) + "\n\t Book ID: "@ + int_rep(bid) + "\n\t Customer ID: "@ + int_rep(cid)
        + "\n\t Shipping Address: "@ + addr
}

/// What reading a full status answers: each missing field is reported in
/// order, then the customer's address and the order's state are read back.
pub open spec fn get_status_spec(
    s0: StoreV,
    oid: Option<int>,
    cid: Option<int>,
    bid: Option<int>,
) -> Result<Seq<char>, Seq<char>> {
    if oid is None {
        Err("No order_id provided"@)
    } else if cid is None {
        Err("No customer_id provided"@)
    } else if bid is None {
        Err("No book_id provided"@)
    } else {
        match customer_address_of(s0.customers, cid->Some_0) {
            None => Err(msg_order_customer_not_found()),
            Some(addr) => match shipped_code(s0.orders, oid->Some_0) {
                None => Err(msg_order_not_found()),
                Some(code) => Ok(msg_status(oid->Some_0, code, bid->Some_0, cid->Some_0, addr)),
            },
        }
    }
}

/// Handle a full status request.
pub fn get_status(store: &Store, order: &Order) -> (r: Result<String, String>)
    ensures
        resp_view(r) == get_status_spec(
            store@,
            opt_id_view(order.order_id),
            opt_id_view(order.customer_id),
            opt_id_view(order.book_id),
        ),
{
    let oid = match order.order_id {
        Some(o) => o,
        None => {
            return Err(String::from_str("No order_id provided"));
        },
    };
    let cid = match order.customer_id {
        Some(c) => c,
        None => {
            return Err(String::from_str("No customer_id provided"));
        },
    };
    let bid = match order.book_id {
        Some(b) => b,
        None => {
            return Err(String::from_str("No book_id provided"));
        },
    };
    let addr = match store.get_customer_address(cid) {
        Some(a) => a,
        None => {
            return Err(String::from_str("No customer found with the given customer id"));
        },
    };
    let code = match store.is_po_shipped(oid) {
        Some(c) => c,
        None => {
            return Err(String::from_str("No order found with the given order id"));
        },
    };
    let mut m = String::from_str("Order Status of Order ID: ");
    let oid_str = i64_to_string(oid);
    m.append(oid_str.as_str());
    m.append(" is ");
    if code == 1 {
        m.append("Shipped");
    } else {
        m.append("Not Shipped");
    }
    m.append("\n\t Book ID: ");
    let bid_str = i64_to_string(bid);
    m.append(bid_str.as_str());
    m.append("\n\t Customer ID: ");
    let cid_str = i64_to_string(cid);
    m.append(cid_str.as_str());
    m.append("\n\t Shipping Address: ");
    m.append(addr.as_str());
    Ok(m)
}

} // verus!
