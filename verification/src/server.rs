//! The server's state and the operations it offers on it.

pub mod auth;
pub mod books;
pub mod clock;
pub mod database;
pub mod error;
pub mod laws;
pub mod password;
pub mod rows;
pub mod utils;
