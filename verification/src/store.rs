//! The record store: books, customers and purchase orders.
//!
//! One [`Store`] value stands for the three tables of the persistence layer.
//! Ids are assigned by the store, counting up from one; a lookup returns the
//! first matching row. A purchase order carries a two-state shipment
//! lifecycle: it is created unshipped, one explicit ship action makes it
//! shipped, and no action moves it back.
//!
//! Reading a balance, checking it and writing the debited balance happen
//! under one `&mut` borrow of the store, so an order can never overspend a
//! balance through interleaved requests.

use vstd::prelude::*;

verus! {

/// The shipment state of a purchase order.
#[derive(Clone, Copy, PartialEq, Eq, Structural, Debug)]
pub enum ShipmentStatus {
    Unshipped,
    Shipped,
}

impl ShipmentStatus {
    /// The 0/1 wire representation of the state.
    pub open spec fn spec_code(self) -> int {
        if self is Shipped {
            1
        } else {
            0
        }
    }

    /// The 0/1 wire representation, at run time.
    pub fn code(self) -> (c: i64)
        ensures
            c == self.spec_code(),
    {
        match self {
            ShipmentStatus::Unshipped => 0,
            ShipmentStatus::Shipped => 1,
        }
    }
}

/// A book row: title, author and a price in cents.
pub struct BookRow {
    pub id: i64,
    pub title: String,
    pub author: String,
    pub price_cents: u64,
}

/// The mathematical value of a book row.
#[verifier::ext_equal]
pub struct BookV {
    pub id: int,
    pub title: Seq<char>,
    pub author: Seq<char>,
    pub price_cents: int,
}

impl View for BookRow {
    type V = BookV;

    open spec fn view(&self) -> BookV {
        BookV {
            id: self.id as int,
            title: self.title@,
            author: self.author@,
            price_cents: self.price_cents as int,
        }
    }
}

impl DeepView for BookRow {
    type V = BookV;

    open spec fn deep_view(&self) -> BookV {
        self.view()
    }
}

/// A customer row: name, shipping address and an account balance in cents.
pub struct CustomerRow {
    pub id: i64,
    pub name: String,
    pub shipping_address: String,
    pub balance_cents: u64,
}

/// The mathematical value of a customer row.
#[verifier::ext_equal]
pub struct CustomerV {
    pub id: int,
    pub name: Seq<char>,
    pub shipping_address: Seq<char>,
    pub balance_cents: int,
}

impl View for CustomerRow {
    type V = CustomerV;

    open spec fn view(&self) -> CustomerV {
        CustomerV {
            id: self.id as int,
            name: self.name@,
            shipping_address: self.shipping_address@,
            balance_cents: self.balance_cents as int,
        }
    }
}

impl DeepView for CustomerRow {
    type V = CustomerV;

    open spec fn deep_view(&self) -> CustomerV {
        self.view()
    }
}

/// A purchase-order row: the ordering customer, the ordered book and the
/// shipment state.
pub struct OrderRow {
    pub id: i64,
    pub customer_id: i64,
    pub book_id: i64,
    pub shipped: ShipmentStatus,
}

/// The mathematical value of a purchase-order row.
#[verifier::ext_equal]
pub struct OrderV {
    pub id: int,
    pub customer_id: int,
    pub book_id: int,
    pub shipped: ShipmentStatus,
}

impl View for OrderRow {
    type V = OrderV;

    open spec fn view(&self) -> OrderV {
        OrderV {
            id: self.id as int,
            customer_id: self.customer_id as int,
            book_id: self.book_id as int,
            shipped: self.shipped,
        }
    }
}

impl DeepView for OrderRow {
    type V = OrderV;

    open spec fn deep_view(&self) -> OrderV {
        self.view()
    }
}

/// The store: the three tables, and the next id each will assign.
pub struct Store {
    pub books: Vec<BookRow>,
    pub customers: Vec<CustomerRow>,
    pub orders: Vec<OrderRow>,
    pub next_book_id: i64,
    pub next_customer_id: i64,
    pub next_order_id: i64,
}

/// The mathematical value of the store.
#[verifier::ext_equal]
pub struct StoreV {
    pub books: Seq<BookV>,
    pub customers: Seq<CustomerV>,
    pub orders: Seq<OrderV>,
    pub next_book_id: int,
    pub next_customer_id: int,
    pub next_order_id: int,
}

impl View for Store {
    type V = StoreV;

    open spec fn view(&self) -> StoreV {
        StoreV {
            books: self.books.deep_view(),
            customers: self.customers.deep_view(),
            orders: self.orders.deep_view(),
            next_book_id: self.next_book_id as int,
            next_customer_id: self.next_customer_id as int,
            next_order_id: self.next_order_id as int,
        }
    }
}

/// The upper bound on a stored cent amount: below a million cents, as every
/// amount of the accepted `X.YY` shape is.
pub open spec fn cents_bound() -> int {
    1000000
}

impl StoreV {
    /// Well-formedness: every id was assigned by the store, so ids are unique
    /// per table and below the table's next id; prices are positive, and all
    /// cent amounts lie below [`cents_bound`].
    pub open spec fn wf(self) -> bool {
        &&& 1 <= self.next_book_id <= i64::MAX
        &&& 1 <= self.next_customer_id <= i64::MAX
        &&& 1 <= self.next_order_id <= i64::MAX
        &&& forall|i: int, j: int|
            #![trigger self.books[i], self.books[j]]
            0 <= i < j < self.books.len() ==> self.books[i].id != self.books[j].id
        &&& forall|i: int|
            0 <= i < self.books.len() ==> 1 <= (#[trigger] self.books[i]).id < self.next_book_id
        &&& forall|i: int|
            0 <= i < self.books.len() ==> 1 <= (#[trigger] self.books[i]).price_cents
                < cents_bound()
        &&& forall|i: int, j: int|
            #![trigger self.customers[i], self.customers[j]]
            0 <= i < j < self.customers.len() ==> self.customers[i].id != self.customers[j].id
        &&& forall|i: int|
            0 <= i < self.customers.len() ==> 1 <= (#[trigger] self.customers[i]).id
                < self.next_customer_id
        &&& forall|i: int|
            0 <= i < self.customers.len() ==> 0 <= (#[trigger] self.customers[i]).balance_cents
                < cents_bound()
        &&& forall|i: int, j: int|
            #![trigger self.orders[i], self.orders[j]]
            0 <= i < j < self.orders.len() ==> self.orders[i].id != self.orders[j].id
        &&& forall|i: int|
            0 <= i < self.orders.len() ==> 1 <= (#[trigger] self.orders[i]).id
                < self.next_order_id
    }
}

/// The index of the first element of `s` satisfying `p`, or `s.len()` if
/// there is none.
pub open spec fn first_where<T>(s: Seq<T>, p: spec_fn(T) -> bool) -> int
    decreases s.len(),
{
    if s.len() == 0 {
        0
    } else if p(s[0]) {
        0
    } else {
        1 + first_where(s.skip(1), p)
    }
}

/// What characterizes [`first_where`]: nothing before it satisfies `p`, and
/// the element at it does unless nothing at all does.
pub proof fn lemma_first_where<T>(s: Seq<T>, p: spec_fn(T) -> bool)
    ensures
        0 <= first_where(s, p) <= s.len(),
        first_where(s, p) < s.len() ==> p(s[first_where(s, p)]),
        forall|j: int| 0 <= j < first_where(s, p) ==> !p(#[trigger] s[j]),
    decreases s.len(),
{
    if s.len() > 0 && !p(s[0]) {
        lemma_first_where(s.skip(1), p);
        assert forall|j: int| 0 <= j < first_where(s, p) implies !p(#[trigger] s[j]) by {
            if j > 0 {
                assert(s.skip(1)[j - 1] == s[j]);
            }
        }
    }
}

/// Any position with nothing satisfying `p` before it, and `p` at it (or the
/// length, when nothing satisfies `p` at all), is [`first_where`].
pub proof fn lemma_first_where_unique<T>(s: Seq<T>, p: spec_fn(T) -> bool, k: int)
    requires
        0 <= k <= s.len(),
        k < s.len() ==> p(s[k]),
        forall|j: int| 0 <= j < k ==> !p(#[trigger] s[j]),
    ensures
        k == first_where(s, p),
    decreases s.len(),
{
    if s.len() > 0 && !p(s[0]) {
        assert(k > 0);
        assert forall|j: int| 0 <= j < k - 1 implies !p(#[trigger] s.skip(1)[j]) by {
            assert(s.skip(1)[j] == s[j + 1]);
        }
        assert(k - 1 < s.skip(1).len() ==> p(s.skip(1)[k - 1]));
        lemma_first_where_unique(s.skip(1), p, k - 1);
    }
}

/// The books with a given title and author.
pub open spec fn by_title_author(t: Seq<char>, a: Seq<char>) -> spec_fn(BookV) -> bool {
    |b: BookV| b.title == t && b.author == a
}

/// The books with a given id.
pub open spec fn by_book_id(bid: int) -> spec_fn(BookV) -> bool {
    |b: BookV| b.id == bid
}

/// The customers with a given name and shipping address.
pub open spec fn by_name_address(n: Seq<char>, a: Seq<char>) -> spec_fn(CustomerV) -> bool {
    |c: CustomerV| c.name == n && c.shipping_address == a
}

/// The customers with a given id.
pub open spec fn by_customer_id(cid: int) -> spec_fn(CustomerV) -> bool {
    |c: CustomerV| c.id == cid
}

/// The orders by a given customer for a given book.
pub open spec fn by_order_pair(cid: int, bid: int) -> spec_fn(OrderV) -> bool {
    |o: OrderV| o.customer_id == cid && o.book_id == bid
}

/// The orders with a given id.
pub open spec fn by_order_id(oid: int) -> spec_fn(OrderV) -> bool {
    |o: OrderV| o.id == oid
}

/// The id of the first book with the given title and author, if any.
pub open spec fn lookup_book_id(books: Seq<BookV>, t: Seq<char>, a: Seq<char>) -> Option<int> {
    let k = first_where(books, by_title_author(t, a));
    if k < books.len() {
        Some(books[k].id)
    } else {
        None
    }
}

/// The price of the first book with the given id, if any.
pub open spec fn book_price_of(books: Seq<BookV>, bid: int) -> Option<int> {
    let k = first_where(books, by_book_id(bid));
    if k < books.len() {
        Some(books[k].price_cents)
    } else {
        None
    }
}

/// The id of the first customer with the given name and address, if any.
pub open spec fn lookup_customer_id(
    customers: Seq<CustomerV>,
    n: Seq<char>,
    a: Seq<char>,
) -> Option<int> {
    let k = first_where(customers, by_name_address(n, a));
    if k < customers.len() {
        Some(customers[k].id)
    } else {
        None
    }
}

/// The address of the first customer with the given id, if any.
pub open spec fn customer_address_of(customers: Seq<CustomerV>, cid: int) -> Option<Seq<char>> {
    let k = first_where(customers, by_customer_id(cid));
    if k < customers.len() {
        Some(customers[k].shipping_address)
    } else {
        None
    }
}

/// The balance of the first customer with the given id, if any.
pub open spec fn customer_balance_of(customers: Seq<CustomerV>, cid: int) -> Option<int> {
    let k = first_where(customers, by_customer_id(cid));
    if k < customers.len() {
        Some(customers[k].balance_cents)
    } else {
        None
    }
}

/// The id of the first order by `cid` for `bid`, if any.
pub open spec fn lookup_order_id(orders: Seq<OrderV>, cid: int, bid: int) -> Option<int> {
    let k = first_where(orders, by_order_pair(cid, bid));
    if k < orders.len() {
        Some(orders[k].id)
    } else {
        None
    }
}

/// The 0/1 shipment code of the first order with the given id, if any.
pub open spec fn shipped_code(orders: Seq<OrderV>, oid: int) -> Option<int> {
    let k = first_where(orders, by_order_id(oid));
    if k < orders.len() {
        Some(orders[k].shipped.spec_code())
    } else {
        None
    }
}

/// An `Option<i64>` result, with the id widened.
pub open spec fn opt_id_view(r: Option<i64>) -> Option<int> {
    match r {
        Some(x) => Some(x as int),
        None => None,
    }
}

/// An `Option<u64>` result, with the cent amount widened.
pub open spec fn opt_cents_view(r: Option<u64>) -> Option<int> {
    match r {
        Some(x) => Some(x as int),
        None => None,
    }
}

/// An `Option<String>` result, with the string read as a character sequence.
pub open spec fn opt_str_view(r: Option<String>) -> Option<Seq<char>> {
    match r {
        Some(s) => Some(s@),
        None => None,
    }
}

/// The account balance a new customer starts with: five whole units.
pub open spec fn default_balance_cents() -> int {
    500
}

impl Store {
    /// An empty store.
    pub fn new() -> (s: Store)
        ensures
            s@.wf(),
            s@.books == Seq::<BookV>::empty(),
            s@.customers == Seq::<CustomerV>::empty(),
            s@.orders == Seq::<OrderV>::empty(),
            s@.next_book_id == 1,
            s@.next_customer_id == 1,
            s@.next_order_id == 1,
    {
        let s = Store {
            books: Vec::new(),
            customers: Vec::new(),
            orders: Vec::new(),
            next_book_id: 1,
            next_customer_id: 1,
            next_order_id: 1,
        };
        proof {
            assert(s@.books =~= Seq::<BookV>::empty());
            assert(s@.customers =~= Seq::<CustomerV>::empty());
            assert(s@.orders =~= Seq::<OrderV>::empty());
        }
        s
    }

    /// Insert a book row; the store assigns the id.
    pub fn create_book(&mut self, title: String, author: String, price_cents: u64)
        requires
            old(self)@.wf(),
            1 <= price_cents < cents_bound(),
            old(self)@.next_book_id < i64::MAX,
        ensures
            final(self)@.wf(),
            final(self)@.books == old(self)@.books.push(
                BookV {
                    id: old(self)@.next_book_id,
                    title: title@,
                    author: author@,
                    price_cents: price_cents as int,
                },
            ),
            final(self)@.customers == old(self)@.customers,
            final(self)@.orders == old(self)@.orders,
            final(self)@.next_book_id == old(self)@.next_book_id + 1,
            final(self)@.next_customer_id == old(self)@.next_customer_id,
            final(self)@.next_order_id == old(self)@.next_order_id,
    {
        let id = self.next_book_id;
        self.books.push(BookRow { id, title, author, price_cents });
        self.next_book_id = self.next_book_id + 1;
        proof {
            assert(self@.books =~= old(self)@.books.push(
                BookV {
                    id: old(self)@.next_book_id,
                    title: title@,
                    author: author@,
                    price_cents: price_cents as int,
                },
            ));
            assert(self@.customers =~= old(self)@.customers);
            assert(self@.orders =~= old(self)@.orders);
        }
    }

    /// The id of the first book with the given title and author.
    #[verifier::loop_isolation(false)]
    pub fn get_book_id(&self, title: String, author: String) -> (r: Option<i64>)
        ensures
            opt_id_view(r) == lookup_book_id(self@.books, title@, author@),
    {
        let ghost p = by_title_author(title@, author@);
        let n = self.books.len();
        let mut i: usize = 0;
        while i < n
            invariant
                i <= n,
                n == self@.books.len(),
                forall|j: int| 0 <= j < i ==> !p(#[trigger] self@.books[j]),
            decreases n - i,
        {
            if self.books[i].title == title && self.books[i].author == author {
                proof {
                    assert(p(self@.books[i as int]));
                    lemma_first_where_unique(self@.books, p, i as int);
                }
                return Some(self.books[i].id);
            }
            i += 1;
        }
        proof {
            lemma_first_where_unique(self@.books, p, n as int);
        }
        None
    }

    /// The price, in cents, of the first book with the given id.
    #[verifier::loop_isolation(false)]
    pub fn get_book_price(&self, bid: i64) -> (r: Option<u64>)
        ensures
            opt_cents_view(r) == book_price_of(self@.books, bid as int),
    {
        let ghost p = by_book_id(bid as int);
        let n = self.books.len();
        let mut i: usize = 0;
        while i < n
            invariant
                i <= n,
                n == self@.books.len(),
                forall|j: int| 0 <= j < i ==> !p(#[trigger] self@.books[j]),
            decreases n - i,
        {
            if self.books[i].id == bid {
                proof {
                    lemma_first_where_unique(self@.books, p, i as int);
                }
                return Some(self.books[i].price_cents);
            }
            i += 1;
        }
        proof {
            lemma_first_where_unique(self@.books, p, n as int);
        }
        None
    }

    /// Insert a customer row with the default balance; the store assigns the
    /// id.
    pub fn create_customer(&mut self, name: String, address: String)
        requires
            old(self)@.wf(),
            old(self)@.next_customer_id < i64::MAX,
        ensures
            final(self)@.wf(),
            final(self)@.customers == old(self)@.customers.push(
                CustomerV {
                    id: old(self)@.next_customer_id,
                    name: name@,
                    shipping_address: address@,
                    balance_cents: default_balance_cents(),
                },
            ),
            final(self)@.books == old(self)@.books,
            final(self)@.orders == old(self)@.orders,
            final(self)@.next_customer_id == old(self)@.next_customer_id + 1,
            final(self)@.next_book_id == old(self)@.next_book_id,
            final(self)@.next_order_id == old(self)@.next_order_id,
    {
        let id = self.next_customer_id;
        self.customers.push(
            CustomerRow { id, name, shipping_address: address, balance_cents: 500 },
        );
        self.next_customer_id = self.next_customer_id + 1;
        proof {
            assert(self@.customers =~= old(self)@.customers.push(
                CustomerV {
                    id: old(self)@.next_customer_id,
                    name: name@,
                    shipping_address: address@,
                    balance_cents: default_balance_cents(),
                },
            ));
            assert(self@.books =~= old(self)@.books);
            assert(self@.orders =~= old(self)@.orders);
        }
    }

    /// The id of the first customer with the given name and address.
    #[verifier::loop_isolation(false)]
    pub fn get_customer_id(&self, name: String, address: String) -> (r: Option<i64>)
        ensures
            opt_id_view(r) == lookup_customer_id(self@.customers, name@, address@),
    {
        let ghost p = by_name_address(name@, address@);
        let n = self.customers.len();
        let mut i: usize = 0;
        while i < n
            invariant
                i <= n,
                n == self@.customers.len(),
                forall|j: int| 0 <= j < i ==> !p(#[trigger] self@.customers[j]),
            decreases n - i,
        {
            if self.customers[i].name == name && self.customers[i].shipping_address == address {
                proof {
                    lemma_first_where_unique(self@.customers, p, i as int);
                }
                return Some(self.customers[i].id);
            }
            i += 1;
        }
        proof {
            lemma_first_where_unique(self@.customers, p, n as int);
        }
        None
    }

    /// The shipping address of the first customer with the given id.
    #[verifier::loop_isolation(false)]
    pub fn get_customer_address(&self, cid: i64) -> (r: Option<String>)
        ensures
            opt_str_view(r) == customer_address_of(self@.customers, cid as int),
    {
        let ghost p = by_customer_id(cid as int);
        let n = self.customers.len();
        let mut i: usize = 0;
        while i < n
            invariant
                i <= n,
                n == self@.customers.len(),
                forall|j: int| 0 <= j < i ==> !p(#[trigger] self@.customers[j]),
            decreases n - i,
        {
            if self.customers[i].id == cid {
                proof {
                    lemma_first_where_unique(self@.customers, p, i as int);
                }
                return Some(self.customers[i].shipping_address.clone());
            }
            i += 1;
        }
        proof {
            lemma_first_where_unique(self@.customers, p, n as int);
        }
        None
    }

    /// The balance, in cents, of the first customer with the given id.
    #[verifier::loop_isolation(false)]
    pub fn get_customer_balance(&self, cid: i64) -> (r: Option<u64>)
        ensures
            opt_cents_view(r) == customer_balance_of(self@.customers, cid as int),
    {
        let ghost p = by_customer_id(cid as int);
        let n = self.customers.len();
        let mut i: usize = 0;
        while i < n
            invariant
                i <= n,
                n == self@.customers.len(),
                forall|j: int| 0 <= j < i ==> !p(#[trigger] self@.customers[j]),
            decreases n - i,
        {
            if self.customers[i].id == cid {
                proof {
                    lemma_first_where_unique(self@.customers, p, i as int);
                }
                return Some(self.customers[i].balance_cents);
            }
            i += 1;
        }
        proof {
            lemma_first_where_unique(self@.customers, p, n as int);
        }
        None
    }

    /// Set the shipping address of the customer with the given id; without
    /// such a customer, change nothing.
    #[verifier::loop_isolation(false)]
    pub fn update_customer_address(&mut self, cid: i64, address: String)
        requires
            old(self)@.wf(),
        ensures
            final(self)@.wf(),
            final(self)@.customers == set_address(old(self)@.customers, cid as int, address@),
            final(self)@.books == old(self)@.books,
            final(self)@.orders == old(self)@.orders,
            final(self)@.next_book_id == old(self)@.next_book_id,
            final(self)@.next_customer_id == old(self)@.next_customer_id,
            final(self)@.next_order_id == old(self)@.next_order_id,
    {
        let n = self.customers.len();
        let mut i: usize = 0;
        while i < n
            invariant
                i <= n,
                n == self@.customers.len(),
                self@ == old(self)@,
                old(self)@.wf(),
                forall|j: int| 0 <= j < i ==> #[trigger] old(self)@.customers[j].id != cid as int,
            decreases n - i,
        {
            if self.customers[i].id == cid {
                self.customers[i].shipping_address = address;
                proof {
                    assert(self@.customers =~= old(self)@.customers.update(
                        i as int,
                        CustomerV {
                            id: old(self)@.customers[i as int].id,
                            name: old(self)@.customers[i as int].name,
                            shipping_address: address@,
                            balance_cents: old(self)@.customers[i as int].balance_cents,
                        },
                    ));
                    assert(self@.books =~= old(self)@.books);
                    assert(self@.orders =~= old(self)@.orders);
                    assert(self@.customers =~= set_address(
                        old(self)@.customers,
                        cid as int,
                        address@,
                    ));
                }
                return ;
            }
            i += 1;
        }
        proof {
            assert(self@.customers =~= set_address(old(self)@.customers, cid as int, address@));
        }
    }

    /// Set the balance of the customer with the given id; without such a
    /// customer, change nothing.
    #[verifier::loop_isolation(false)]
    pub fn update_customer_balance(&mut self, cid: i64, balance_cents: u64)
        requires
            old(self)@.wf(),
            balance_cents < cents_bound(),
        ensures
            final(self)@.wf(),
            final(self)@.customers == set_balance(
                old(self)@.customers,
                cid as int,
                balance_cents as int,
            ),
            final(self)@.books == old(self)@.books,
            final(self)@.orders == old(self)@.orders,
            final(self)@.next_book_id == old(self)@.next_book_id,
            final(self)@.next_customer_id == old(self)@.next_customer_id,
            final(self)@.next_order_id == old(self)@.next_order_id,
    {
        let n = self.customers.len();
        let mut i: usize = 0;
        while i < n
            invariant
                i <= n,
                n == self@.customers.len(),
                self@ == old(self)@,
                old(self)@.wf(),
                forall|j: int| 0 <= j < i ==> #[trigger] old(self)@.customers[j].id != cid as int,
            decreases n - i,
        {
            if self.customers[i].id == cid {
                self.customers[i].balance_cents = balance_cents;
                proof {
                    assert(self@.customers =~= old(self)@.customers.update(
                        i as int,
                        CustomerV {
                            id: old(self)@.customers[i as int].id,
                            name: old(self)@.customers[i as int].name,
                            shipping_address: old(self)@.customers[i as int].shipping_address,
                            balance_cents: balance_cents as int,
                        },
                    ));
                    assert(self@.books =~= old(self)@.books);
                    assert(self@.orders =~= old(self)@.orders);
                    assert(self@.customers =~= set_balance(
                        old(self)@.customers,
                        cid as int,
                        balance_cents as int,
                    ));
                }
                return ;
            }
            i += 1;
        }
        proof {
            assert(self@.customers =~= set_balance(
                old(self)@.customers,
                cid as int,
                balance_cents as int,
            ));
        }
    }
}

/// `c` with its shipping address set to `a` when its id is `cid`.
pub open spec fn address_mark(c: CustomerV, cid: int, a: Seq<char>) -> CustomerV {
    if c.id == cid {
        CustomerV { id: c.id, name: c.name, shipping_address: a, balance_cents: c.balance_cents }
    } else {
        c
    }
}

/// The customer table after setting the address of customer `cid` to `a`.
pub open spec fn set_address(customers: Seq<CustomerV>, cid: int, a: Seq<char>) -> Seq<CustomerV> {
    customers.map_values(|c: CustomerV| address_mark(c, cid, a))
}

/// `c` with its balance set to `b` when its id is `cid`.
pub open spec fn balance_mark(c: CustomerV, cid: int, b: int) -> CustomerV {
    if c.id == cid {
        CustomerV { id: c.id, name: c.name, shipping_address: c.shipping_address, balance_cents: b }
    } else {
        c
    }
}

/// The customer table after setting the balance of customer `cid` to `b`.
pub open spec fn set_balance(customers: Seq<CustomerV>, cid: int, b: int) -> Seq<CustomerV> {
    customers.map_values(|c: CustomerV| balance_mark(c, cid, b))
}

/// `o` with its shipment state set to shipped when its id is `oid`.
pub open spec fn ship_mark(o: OrderV, oid: int) -> OrderV {
    if o.id == oid {
        OrderV {
            id: o.id,
            customer_id: o.customer_id,
            book_id: o.book_id,
            shipped: ShipmentStatus::Shipped,
        }
    } else {
        o
    }
}

/// The order table after the ship action for `oid`.
pub open spec fn ship_orders(orders: Seq<OrderV>, oid: int) -> Seq<OrderV> {
    orders.map_values(|o: OrderV| ship_mark(o, oid))
}

impl Store {
    /// Insert a purchase order for `cid` and `bid`, unshipped; the store
    /// assigns the id. As the persistence layer does, the returned id is that
    /// of the first order matching the pair, which is the new one unless the
    /// customer had already ordered the same book.
    pub fn create_purchase_order(&mut self, cid: i64, bid: i64) -> (oid: i64)
        requires
            old(self)@.wf(),
            old(self)@.next_order_id < i64::MAX,
        ensures
            final(self)@.wf(),
            final(self)@.orders == old(self)@.orders.push(
                OrderV {
                    id: old(self)@.next_order_id,
                    customer_id: cid as int,
                    book_id: bid as int,
                    shipped: ShipmentStatus::Unshipped,
                },
            ),
            final(self)@.books == old(self)@.books,
            final(self)@.customers == old(self)@.customers,
            final(self)@.next_order_id == old(self)@.next_order_id + 1,
            final(self)@.next_book_id == old(self)@.next_book_id,
            final(self)@.next_customer_id == old(self)@.next_customer_id,
            lookup_order_id(final(self)@.orders, cid as int, bid as int) == Some(oid as int),
    {
        let id = self.next_order_id;
        self.orders.push(
            OrderRow { id, customer_id: cid, book_id: bid, shipped: ShipmentStatus::Unshipped },
        );
        self.next_order_id = self.next_order_id + 1;
        proof {
            assert(self@.orders =~= old(self)@.orders.push(
                OrderV {
                    id: old(self)@.next_order_id,
                    customer_id: cid as int,
                    book_id: bid as int,
                    shipped: ShipmentStatus::Unshipped,
                },
            ));
            assert(self@.books =~= old(self)@.books);
            assert(self@.customers =~= old(self)@.customers);
        }
        let r = self.get_purchase_order_id(cid, bid);
        match r {
            Some(oid) => oid,
            None => {
                proof {
                    let os = self@.orders;
                    lemma_first_where(os, by_order_pair(cid as int, bid as int));
                    assert(by_order_pair(cid as int, bid as int)(os[os.len() - 1]));
                    assert(false);
                }
                0
            },
        }
    }

    /// The id of the first order by `cid` for `bid`.
    #[verifier::loop_isolation(false)]
    pub fn get_purchase_order_id(&self, cid: i64, bid: i64) -> (r: Option<i64>)
        ensures
            opt_id_view(r) == lookup_order_id(self@.orders, cid as int, bid as int),
    {
        let ghost p = by_order_pair(cid as int, bid as int);
        let n = self.orders.len();
        let mut i: usize = 0;
        while i < n
            invariant
                i <= n,
                forall|j: int| 0 <= j < i ==> !p(#[trigger] self@.orders[j]),
            decreases n - i,
        {
            if self.orders[i].customer_id == cid && self.orders[i].book_id == bid {
                proof {
                    lemma_first_where_unique(self@.orders, p, i as int);
                }
                return Some(self.orders[i].id);
            }
            i += 1;
        }
        proof {
            lemma_first_where_unique(self@.orders, p, n as int);
        }
        None
    }

    /// The 0/1 shipment code of the first order with the given id.
    #[verifier::loop_isolation(false)]
    pub fn is_po_shipped(&self, poid: i64) -> (r: Option<i64>)
        ensures
            opt_id_view(r) == shipped_code(self@.orders, poid as int),
    {
        let ghost p = by_order_id(poid as int);
        let n = self.orders.len();
        let mut i: usize = 0;
        while i < n
            invariant
                i <= n,
                forall|j: int| 0 <= j < i ==> !p(#[trigger] self@.orders[j]),
            decreases n - i,
        {
            if self.orders[i].id == poid {
                proof {
                    lemma_first_where_unique(self@.orders, p, i as int);
                }
                return Some(self.orders[i].shipped.code());
            }
            i += 1;
        }
        proof {
            lemma_first_where_unique(self@.orders, p, n as int);
        }
        None
    }

    /// Mark the order with the given id shipped; without such an order,
    /// change nothing. Shipping an already-shipped order leaves it shipped.
    #[verifier::loop_isolation(false)]
    pub fn ship_po(&mut self, poid: i64)
        requires
            old(self)@.wf(),
        ensures
            final(self)@.wf(),
            final(self)@.orders == ship_orders(old(self)@.orders, poid as int),
            final(self)@.books == old(self)@.books,
            final(self)@.customers == old(self)@.customers,
            final(self)@.next_book_id == old(self)@.next_book_id,
            final(self)@.next_customer_id == old(self)@.next_customer_id,
            final(self)@.next_order_id == old(self)@.next_order_id,
    {
        let n = self.orders.len();
        let mut i: usize = 0;
        while i < n
            invariant
                i <= n,
                n == self@.orders.len(),
                self@.books == old(self)@.books,
                self@.customers == old(self)@.customers,
                self@.next_book_id == old(self)@.next_book_id,
                self@.next_customer_id == old(self)@.next_customer_id,
                self@.next_order_id == old(self)@.next_order_id,
                forall|j: int|
                    0 <= j < i ==> #[trigger] self@.orders[j] == ship_mark(
                        old(self)@.orders[j],
                        poid as int,
                    ),
                forall|j: int| i <= j < n ==> #[trigger] self@.orders[j] == old(self)@.orders[j],
            decreases n - i,
        {
            let ghost pre = self@.orders;
            if self.orders[i].id == poid {
                self.orders[i].shipped = ShipmentStatus::Shipped;
                proof {
                    assert forall|j: int| 0 <= j < n && j != i implies #[trigger] self@.orders[j]
                        == pre[j] by {
                        assert(self.orders@[j].deep_view() == pre[j]);
                    }
                    assert(pre[i as int] == old(self)@.orders[i as int]);
                    assert(self@.orders[i as int] == ship_mark(
                        old(self)@.orders[i as int],
                        poid as int,
                    ));
                }
            } else {
                proof {
                    assert(self@.orders[i as int] == ship_mark(
                        old(self)@.orders[i as int],
                        poid as int,
                    ));
                }
            }
            i += 1;
        }
        proof {
            assert(self@.orders =~= ship_orders(old(self)@.orders, poid as int));
        }
    }
}

/// A newly created order reads back as unshipped: pushing an order row whose
/// id no other row carries, and asking for that id's shipment code, yields
/// the unshipped code.
pub proof fn lemma_new_order_unshipped(orders: Seq<OrderV>, o: OrderV)
    requires
        o.shipped is Unshipped,
        forall|j: int| 0 <= j < orders.len() ==> (#[trigger] orders[j]).id != o.id,
    ensures
        shipped_code(orders.push(o), o.id) == Some(0int),
{
    let p = by_order_id(o.id);
    let os = orders.push(o);
    assert(forall|j: int| 0 <= j < orders.len() ==> !p(#[trigger] os[j]));
    lemma_first_where_unique(os, p, orders.len() as int);
}

/// After the ship action for an id the store holds, that id reads back as
/// shipped.
pub proof fn lemma_ship_then_read(orders: Seq<OrderV>, oid: int)
    requires
        exists|j: int| 0 <= j < orders.len() && (#[trigger] orders[j]).id == oid,
    ensures
        shipped_code(ship_orders(orders, oid), oid) == Some(1int),
{
    let p = by_order_id(oid);
    let shipped = ship_orders(orders, oid);
    let w = choose|j: int| 0 <= j < orders.len() && (#[trigger] orders[j]).id == oid;
    assert(p(shipped[w]));
    lemma_first_where(shipped, p);
    let k = first_where(shipped, p);
    assert(k <= w);
    assert(shipped[k].shipped is Shipped);
}

/// A second ship action for the same id is a no-op: the state remains
/// shipped and no other row changes.
pub proof fn lemma_ship_idempotent(orders: Seq<OrderV>, oid: int)
    ensures
        ship_orders(ship_orders(orders, oid), oid) == ship_orders(orders, oid),
{
    assert(ship_orders(ship_orders(orders, oid), oid) =~= ship_orders(orders, oid));
}

} // verus!
