//! Type definitions useful both on the client and on the server.

use vstd::prelude::*;

pub mod auth;
pub mod books;
pub mod session;

verus! {

/// An integer as the database stores it.
pub type Integer = i64;

/// A text as the database stores it.
pub type Text = String;

/// The `kind` of an account that may browse the catalogue and borrow books.
pub const NORMAL_USER: i64 = 1;

/// The `kind` of an account that may also manage the catalogue, the accounts
/// and every loan.
pub const LIBRARIAN: i64 = 2;

} // verus!
