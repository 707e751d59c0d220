//! The customer request handlers: create a customer, update the address or
//! the balance, and read the balance.
//!
//! A handler receives the request's fields, each optional, exactly as they
//! were found in the request body; it reports a missing field, normalizes and
//! validates the present ones, and only then touches the store.

use vstd::prelude::*;
use crate::money::{validate_money, validate_money_spec};
use crate::numfmt::{cents_to_string, i64_to_string, int_rep, money_rep};
use crate::resp::resp_view;
use crate::store::{
    customer_balance_of, default_balance_cents, lookup_customer_id, opt_str_view, set_address,
    set_balance, CustomerV, Store, StoreV,
};
use crate::text::{
    fix_whitespace, normalize, res_view, validate_name_and_address, validate_pair_spec,
};

verus! {

/// A customer request: any field may be missing. The balance is the decimal
/// rendering of the requested balance.
pub struct Customer {
    pub id: Option<i64>,
    pub name: Option<String>,
    pub shipping_address: Option<String>,
    pub account_balance: Option<String>,
}

/// The rejection message for a lookup whose customer is unknown.
pub open spec fn msg_customer_not_found() -> Seq<char> {
    "No customer found with the given name and shipping address"@
}

/// What creating a customer does to the store, and what it answers: a
/// missing field is reported first, then the name and address are normalized
/// and validated; a valid request adds a customer row with the default
/// balance.
pub open spec fn create_customer_spec(
    s0: StoreV,
    name: Option<Seq<char>>,
    address: Option<Seq<char>>,
) -> (StoreV, Result<(), Seq<char>>) {
    if name is None {
        (s0, Err("No name provided"@))
    } else if address is None {
        (s0, Err("No shipping_address provided"@))
    } else {
        let n = normalize(name->Some_0);
        let a = normalize(address->Some_0);
        let v = validate_pair_spec(n, "name"@, a, "address"@);
        if v is Err {
            (s0, Err(v->Err_0))
        } else {
            (
                StoreV {
                    books: s0.books,
                    customers: s0.customers.push(
                        CustomerV {
                            id: s0.next_customer_id,
                            name: n,
                            shipping_address: a,
                            balance_cents: default_balance_cents(),
                        },
                    ),
                    orders: s0.orders,
                    next_book_id: s0.next_book_id,
                    next_customer_id: s0.next_customer_id + 1,
                    next_order_id: s0.next_order_id,
                },
                Ok(()),
            )
        }
    }
}

/// Handle a customer-creation request.
pub fn create_customer(store: &mut Store, customer: &Customer) -> (r: Result<(), String>)
    requires
        old(store)@.wf(),
        old(store)@.next_customer_id < i64::MAX,
    ensures
        final(store)@.wf(),
        final(store)@ == create_customer_spec(
            old(store)@,
            opt_str_view(customer.name),
            opt_str_view(customer.shipping_address),
        ).0,
        res_view(r) == create_customer_spec(
            old(store)@,
            opt_str_view(customer.name),
            opt_str_view(customer.shipping_address),
        ).1,
{
    let name = match &customer.name {
        Some(n) => n.clone(),
        None => {
            return Err(String::from_str("No name provided"));
        },
    };
    let address = match &customer.shipping_address {
        Some(a) => a.clone(),
        None => {
            return Err(String::from_str("No shipping_address provided"));
        },
    };
    let name = fix_whitespace(name);
    let address = fix_whitespace(address);
    match validate_name_and_address(name.as_str(), address.as_str()) {
        Ok(_) => {},
        Err(e) => {
            return Err(e);
        },
    }
    store.create_customer(name, address);
    proof {
        assert(store@ =~= create_customer_spec(
            old(store)@,
            opt_str_view(customer.name),
            opt_str_view(customer.shipping_address),
        ).0);
    }
    Ok(())
}

/// The confirmation message for an address update.
pub open spec fn msg_address_updated(n: Seq<char>, a: Seq<char>) -> Seq<char> {
    "Successfully updated address for customer: "@ + n + " to "@ + a
}

/// What updating an address does to the store, and what it answers: a
/// missing field is reported first, then the name and address are normalized
/// and validated, then the customer is looked up by name and old address;
/// found, its address becomes the new one.
pub open spec fn update_address_spec(
    s0: StoreV,
    name: Option<Seq<char>>,
    address: Option<Seq<char>>,
) -> (StoreV, Result<Seq<char>, Seq<char>>) {
    if name is None {
        (s0, Err("No name provided"@))
    } else if address is None {
        (s0, Err("No shipping_address provided"@))
    } else {
        let n = normalize(name->Some_0);
        let a = normalize(address->Some_0);
        let v = validate_pair_spec(n, "name"@, a, "address"@);
        if v is Err {
            (s0, Err(v->Err_0))
        } else {
            match lookup_customer_id(s0.customers, n, a) {
                None => (s0, Err(msg_customer_not_found())),
                Some(cid) => (
                    StoreV {
                        books: s0.books,
                        customers: set_address(s0.customers, cid, a),
                        orders: s0.orders,
                        next_book_id: s0.next_book_id,
                        next_customer_id: s0.next_customer_id,
                        next_order_id: s0.next_order_id,
                    },
                    Ok(msg_address_updated(n, a)),
                ),
            }
        }
    }
}

/// Handle an address-update request.
pub fn update_address(store: &mut Store, customer: &Customer) -> (r: Result<String, String>)
    requires
        old(store)@.wf(),
    ensures
        final(store)@.wf(),
        final(store)@ == update_address_spec(
            old(store)@,
            opt_str_view(customer.name),
            opt_str_view(customer.shipping_address),
        ).0,
        resp_view(r) == update_address_spec(
            old(store)@,
            opt_str_view(customer.name),
            opt_str_view(customer.shipping_address),
        ).1,
{
    let name = match &customer.name {
        Some(n) => n.clone(),
        None => {
            return Err(String::from_str("No name provided"));
        },
    };
    let address = match &customer.shipping_address {
        Some(a) => a.clone(),
        None => {
            return Err(String::from_str("No shipping_address provided"));
        },
    };
    let name = fix_whitespace(name);
    let address = fix_whitespace(address);
    match validate_name_and_address(name.as_str(), address.as_str()) {
        Ok(_) => {},
        Err(e) => {
            return Err(e);
        },
    }
    let cid = match store.get_customer_id(name.clone(), address.clone()) {
        Some(c) => c,
        None => {
            return Err(
                String::from_str("No customer found with the given name and shipping address"),
            );
        },
    };
    store.update_customer_address(cid, address.clone());
    proof {
        assert(store@ =~= update_address_spec(
            old(store)@,
            opt_str_view(customer.name),
            opt_str_view(customer.shipping_address),
        ).0);
    }
    let mut m = String::from_str("Successfully updated address for customer: ");
    m.append(name.as_str());
    m.append(" to ");
    m.append(address.as_str());
    Ok(m)
}

/// The balance-report message: the name, the customer id, and the balance.
pub open spec fn msg_balance(n: Seq<char>, cid: int, cents: int) -> Seq<char> {
    "Customer "@ + n + ", with customerID "@ + int_rep(cid) + ", has balance: $"@ + money_rep(
        cents as nat,
    )
}

/// What reading a balance answers: a missing field is reported first, then
/// the name and address are normalized and validated, then the customer is
/// looked up by name and address and its balance read back by its id.
pub open spec fn get_balance_spec(
    s0: StoreV,
    name: Option<Seq<char>>,
    address: Option<Seq<char>>,
) -> Result<Seq<char>, Seq<char>> {
    if name is None {
        Err("No name provided"@)
    } else if address is None {
        Err("No shipping_address provided"@)
    } else {
        let n = normalize(name->Some_0);
        let a = normalize(address->Some_0);
        let v = validate_pair_spec(n, "name"@, a, "address"@);
        if v is Err {
            Err(v->Err_0)
        } else {
            match lookup_customer_id(s0.customers, n, a) {
                None => Err(msg_customer_not_found()),
                Some(cid) => match customer_balance_of(s0.customers, cid) {
                    None => Err(msg_customer_not_found()),
                    Some(cents) => Ok(msg_balance(n, cid, cents)),
                },
            }
        }
    }
}

/// Handle a balance request.
pub fn get_balance(store: &Store, customer: &Customer) -> (r: Result<String, String>)
    ensures
        resp_view(r) == get_balance_spec(
            store@,
            opt_str_view(customer.name),
            opt_str_view(customer.shipping_address),
        ),
{
    let name = match &customer.name {
        Some(n) => n.clone(),
        None => {
            return Err(String::from_str("No name provided"));
        },
    };
    let address = match &customer.shipping_address {
        Some(a) => a.clone(),
        None => {
            return Err(String::from_str("No shipping_address provided"));
        },
    };
    let name = fix_whitespace(name);
    let address = fix_whitespace(address);
    match validate_name_and_address(name.as_str(), address.as_str()) {
        Ok(_) => {},
        Err(e) => {
            return Err(e);
        },
    }
    let cid = match store.get_customer_id(name.clone(), address) {
        Some(c) => c,
        None => {
            return Err(
                String::from_str("No customer found with the given name and shipping address"),
            );
        },
    };
    let cents = match store.get_customer_balance(cid) {
        Some(b) => b,
        None => {
            return Err(
                String::from_str("No customer found with the given name and shipping address"),
            );
        },
    };
    let mut m = String::from_str("Customer ");
    m.append(name.as_str());
    m.append(", with customerID ");
    let cid_str = i64_to_string(cid);
    m.append(cid_str.as_str());
    m.append(", has balance: $");
    let cents_str = cents_to_string(cents);
    m.append(cents_str.as_str());
    Ok(m)
}

/// The confirmation message for a balance update.
pub open spec fn msg_balance_updated(n: Seq<char>, cents: int) -> Seq<char> {
    "Successfully updated balance for customer: "@ + n + " to $"@ + money_rep(cents as nat)
}

/// What updating a balance does to the store, and what it answers: a missing
/// field is reported first, then the name and address are normalized and
/// validated, then the new balance is validated, then the customer is looked
/// up; found, its balance becomes the new one.
pub open spec fn update_balance_spec(
    s0: StoreV,
    name: Option<Seq<char>>,
    address: Option<Seq<char>>,
    balance: Option<Seq<char>>,
) -> (StoreV, Result<Seq<char>, Seq<char>>) {
    if name is None {
        (s0, Err("No name provided"@))
    } else if address is None {
        (s0, Err("No shipping_address provided"@))
    } else {
        let n = normalize(name->Some_0);
        let a = normalize(address->Some_0);
        let v = validate_pair_spec(n, "name"@, a, "address"@);
        if v is Err {
            (s0, Err(v->Err_0))
        } else if balance is None {
            (s0, Err("No account_balance provided"@))
        } else {
            match validate_money_spec(balance->Some_0, "balance"@) {
                Err(m) => (s0, Err(m)),
                Ok(cents) => match lookup_customer_id(s0.customers, n, a) {
                    None => (s0, Err(msg_customer_not_found())),
                    Some(cid) => (
                        StoreV {
                            books: s0.books,
                            customers: set_balance(s0.customers, cid, cents),
                            orders: s0.orders,
                            next_book_id: s0.next_book_id,
                            next_customer_id: s0.next_customer_id,
                            next_order_id: s0.next_order_id,
                        },
                        Ok(msg_balance_updated(n, cents)),
                    ),
                },
            }
        }
    }
}

/// Handle a balance-update request.
pub fn update_balance(store: &mut Store, customer: &Customer) -> (r: Result<String, String>)
    requires
        old(store)@.wf(),
    ensures
        final(store)@.wf(),
        final(store)@ == update_balance_spec(
            old(store)@,
            opt_str_view(customer.name),
            opt_str_view(customer.shipping_address),
            opt_str_view(customer.account_balance),
        ).0,
        resp_view(r) == update_balance_spec(
            old(store)@,
            opt_str_view(customer.name),
            opt_str_view(customer.shipping_address),
            opt_str_view(customer.account_balance),
        ).1,
{
    let name = match &customer.name {
        Some(n) => n.clone(),
        None => {
            return Err(String::from_str("No name provided"));
        },
    };
    let address = match &customer.shipping_address {
        Some(a) => a.clone(),
        None => {
            return Err(String::from_str("No shipping_address provided"));
        },
    };
    let name = fix_whitespace(name);
    let address = fix_whitespace(address);
    match validate_name_and_address(name.as_str(), address.as_str()) {
        Ok(_) => {},
        Err(e) => {
            return Err(e);
        },
    }
    let balance = match &customer.account_balance {
        Some(b) => b.clone(),
        None => {
            return Err(String::from_str("No account_balance provided"));
        },
    };
    let cents = match validate_money(balance.as_str(), "balance") {
        Ok(c) => c,
        Err(e) => {
            return Err(e);
        },
    };
    proof {
        crate::money::lemma_money_cents_bound(balance@);
    }
    let cid = match store.get_customer_id(name.clone(), address) {
        Some(c) => c,
        None => {
            return Err(
                String::from_str("No customer found with the given name and shipping address"),
            );
        },
    };
    store.update_customer_balance(cid, cents);
    proof {
        assert(store@ =~= update_balance_spec(
            old(store)@,
            opt_str_view(customer.name),
            opt_str_view(customer.shipping_address),
            opt_str_view(customer.account_balance),
        ).0);
    }
    let mut m = String::from_str("Successfully updated balance for customer: ");
    m.append(name.as_str());
    m.append(" to $");
    let cents_str = cents_to_string(cents);
    m.append(cents_str.as_str());
    Ok(m)
}

} // verus!
