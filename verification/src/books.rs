//! The book request handlers: create a book, and read a book's price.
//!
//! A handler receives the request's fields, each optional, exactly as they
//! were found in the request body; it reports a missing field, normalizes and
//! validates the present ones, and only then touches the store.

use vstd::prelude::*;
use crate::money::{validate_money, validate_money_spec};
use crate::numfmt::{cents_to_string, i64_to_string, int_rep, money_rep};
use crate::resp::resp_view;
use crate::store::{lookup_book_id, book_price_of, opt_str_view, BookV, Store, StoreV};
use crate::text::{
    fix_whitespace, normalize, res_view, validate_pair_spec, validate_title_and_author,
};

verus! {

/// A book request: any field may be missing. The price is the decimal
/// rendering of the requested price.
pub struct Book {
    pub id: Option<i64>,
    pub title: Option<String>,
    pub author: Option<String>,
    pub price: Option<String>,
}

/// What creating a book does to the store, and what it answers: a missing
/// field is reported first, then the title and author are normalized and
/// validated, then the price; only a fully valid request adds a book row.
pub open spec fn create_book_spec(
    s0: StoreV,
    title: Option<Seq<char>>,
    author: Option<Seq<char>>,
    price: Option<Seq<char>>,
) -> (StoreV, Result<(), Seq<char>>) {
    if title is None {
        (s0, Err("No title provided"@))
    } else if author is None {
        (s0, Err("No author provided"@))
    } else {
        let t = normalize(title->Some_0);
        let a = normalize(author->Some_0);
        let v = validate_pair_spec(t, "title"@, a, "author"@);
        if v is Err {
            (s0, Err(v->Err_0))
        } else if price is None {
            (s0, Err("No price provided"@))
        } else {
            match validate_money_spec(price->Some_0, "price"@) {
                Err(m) => (s0, Err(m)),
                Ok(cents) => (
                    StoreV {
                        books: s0.books.push(
                            BookV { id: s0.next_book_id, title: t, author: a, price_cents: cents },
                        ),
                        customers: s0.customers,
                        orders: s0.orders,
                        next_book_id: s0.next_book_id + 1,
                        next_customer_id: s0.next_customer_id,
                        next_order_id: s0.next_order_id,
                    },
                    Ok(()),
                ),
            }
        }
    }
}

/// Handle a book-creation request.
pub fn create_book(store: &mut Store, book: &Book) -> (r: Result<(), String>)
    requires
        old(store)@.wf(),
        old(store)@.next_book_id < i64::MAX,
    ensures
        final(store)@.wf(),
        final(store)@ == create_book_spec(
            old(store)@,
            opt_str_view(book.title),
            opt_str_view(book.author),
            opt_str_view(book.price),
        ).0,
        res_view(r) == create_book_spec(
            old(store)@,
            opt_str_view(book.title),
            opt_str_view(book.author),
            opt_str_view(book.price),
        ).1,
{
    let title = match &book.title {
        Some(t) => t.clone(),
        None => {
            return Err(String::from_str("No title provided"));
        },
    };
    let author = match &book.author {
        Some(a) => a.clone(),
        None => {
            return Err(String::from_str("No author provided"));
        },
    };
    let title = fix_whitespace(title);
    let author = fix_whitespace(author);
    match validate_title_and_author(title.as_str(), author.as_str()) {
        Ok(_) => {},
        Err(e) => {
            return Err(e);
        },
    }
    let price = match &book.price {
        Some(p) => p.clone(),
        None => {
            return Err(String::from_str("No price provided"));
        },
    };
    let cents = match validate_money(price.as_str(), "price") {
        Ok(c) => c,
        Err(e) => {
            return Err(e);
        },
    };
    proof {
        crate::money::lemma_money_positive(price@);
        crate::money::lemma_money_cents_bound(price@);
    }
    store.create_book(title, author, cents);
    proof {
        assert(store@ =~= create_book_spec(
            old(store)@,
            opt_str_view(book.title),
            opt_str_view(book.author),
            opt_str_view(book.price),
        ).0);
    }
    Ok(())
}

/// The rejection message for a price lookup whose book is unknown.
pub open spec fn msg_book_not_found() -> Seq<char> {
    "No book found with the given title and author"@
}

/// The price-report message: the title, the book id, and the price.
pub open spec fn msg_price(t: Seq<char>, bid: int, cents: int) -> Seq<char> {
    t + ", with bookId "@ + int_rep(bid) + ", has price: $"@ + money_rep(cents as nat)
}

/// What reading a book's price answers: a missing field is reported first,
/// then the title and author are normalized and validated, then the book is
/// looked up by title and author and its price read back by its id.
pub open spec fn get_price_spec(
    s0: StoreV,
    title: Option<Seq<char>>,
    author: Option<Seq<char>>,
) -> Result<Seq<char>, Seq<char>> {
    if title is None {
        Err("No title provided"@)
    } else if author is None {
        Err("No author provided"@)
    } else {
        let t = normalize(title->Some_0);
        let a = normalize(author->Some_0);
        let v = validate_pair_spec(t, "title"@, a, "author"@);
        if v is Err {
            Err(v->Err_0)
        } else {
            match lookup_book_id(s0.books, t, a) {
                None => Err(msg_book_not_found()),
                Some(bid) => match book_price_of(s0.books, bid) {
                    None => Err(msg_book_not_found()),
                    Some(cents) => Ok(msg_price(t, bid, cents)),
                },
            }
        }
    }
}

/// Handle a price request.
pub fn get_price(store: &Store, book: &Book) -> (r: Result<String, String>)
    ensures
        resp_view(r) == get_price_spec(
            store@,
            opt_str_view(book.title),
            opt_str_view(book.author),
        ),
{
    let title = match &book.title {
        Some(t) => t.clone(),
        None => {
            return Err(String::from_str("No title provided"));
        },
    };
    let author = match &book.author {
        Some(a) => a.clone(),
        None => {
            return Err(String::from_str("No author provided"));
        },
    };
    let title = fix_whitespace(title);
    let author = fix_whitespace(author);
    match validate_title_and_author(title.as_str(), author.as_str()) {
        Ok(_) => {},
        Err(e) => {
            return Err(e);
        },
    }
    let bid = match store.get_book_id(title.clone(), author) {
        Some(b) => b,
        None => {
            return Err(String::from_str("No book found with the given title and author"));
        },
    };
    let cents = match store.get_book_price(bid) {
        Some(p) => p,
        None => {
            return Err(String::from_str("No book found with the given title and author"));
        },
    };
    let mut m = title;
    m.append(", with bookId ");
    let bid_str = i64_to_string(bid);
    m.append(bid_str.as_str());
    m.append(", has price: $");
    let cents_str = cents_to_string(cents);
    m.append(cents_str.as_str());
    Ok(m)
}

} // verus!
