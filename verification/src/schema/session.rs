use vstd::prelude::*;

verus! {

/// The credentials a client sends along with each request: who it claims to
/// be, and the password it logged in with.
#[derive(Debug, Clone, Default, PartialEq, Eq)]
pub struct Cookie {
    pub id: i64,
    pub password: String,
}

} // verus!
