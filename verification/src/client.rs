//! What a client decides about what it asks for and what it shows.

pub mod book_details;
pub mod confirmation_dialog;
pub mod edit_author_details;
pub mod edit_book_details;
pub mod http;
pub mod librarian_view;
pub mod login_page;
pub mod text;
pub mod time;
pub mod user_view;
pub mod window;
