//! A verified core for a lending library: the catalogue of books and authors,
//! the accounts of its readers and librarians, and the loans between them.
//!
//! * [`schema`] holds the records that travel between a client and the server.
//! * [`server`] holds the tables and every operation the server offers on them.
//! * [`client`] holds the decisions a client makes about what it shows.

pub mod client;
pub mod schema;
pub mod server;
