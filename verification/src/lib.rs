//! A small bookstore back end: books, customers and purchase orders kept in an
//! in-memory store, with the field-validation and business-rule layer fully
//! specified and proved.

pub mod books;
pub mod customers;
pub mod money;
pub mod numfmt;
pub mod orders;
pub mod resp;
pub mod store;
pub mod text;
