//! Accounts: signing up, logging in, and what librarians may do to them.

use vstd::prelude::*;

use crate::schema::auth::{
    CreateAccount, DeleteUserReply, DeleteUserRequest, GetAllUsersRequest, Login, LoginReply,
    PromoteUserRequest, User, UserView,
};
use crate::schema::{LIBRARIAN, NORMAL_USER};
use crate::server::database::{
    lemma_next_id_is_fresh, next_id, user_emails, user_ids, fresh_id, Database, DatabaseView,
    UserRecord, UserRow,
};
use crate::server::error::RouteError;
use crate::server::password::{
    fresh_salt, hash_with_salt, is_password_hash, parses_as_hash, password_matches,
    verifies_against,
};
use crate::server::rows::lemma_index_of_first;
use crate::server::utils::verify_user_is_librarian;

verus! {

/// The verdict on a password held against a stored hash.
#[derive(Debug, Clone, Copy, PartialEq, Eq, Structural)]
pub enum PasswordCheck {
    /// What is stored is no hash at all.
    Malformed,
    /// The password is not the one that was hashed.
    Rejected,
    /// The password is the one that was hashed.
    Accepted,
}

/// The verdict on `password` against `stored`.
pub open spec fn password_check(password: Seq<char>, stored: Seq<char>) -> PasswordCheck {
    if !is_password_hash(stored) {
        PasswordCheck::Malformed
    } else if password_matches(password, stored) {
        PasswordCheck::Accepted
    } else {
        PasswordCheck::Rejected
    }
}

/// Holds a password against a stored hash.
pub fn check_password(password: &str, stored: &str) -> (check: PasswordCheck)
    ensures
        check == password_check(password@, stored@),
{
    if !parses_as_hash(stored) {
        PasswordCheck::Malformed
    } else if verifies_against(password, stored) {
        PasswordCheck::Accepted
    } else {
        PasswordCheck::Rejected
    }
}

/// What a login answers once the account is found and its password checked.
pub open spec fn login_outcome(user_id: i64, kind: i64, check: PasswordCheck) -> Result<
    LoginReply,
    RouteError,
> {
    match check {
        PasswordCheck::Malformed => Err(RouteError::Internal),
        PasswordCheck::Rejected => Err(RouteError::Unauthorized),
        PasswordCheck::Accepted => Ok(LoginReply { id: user_id, kind }),
    }
}

/// What a login answers once the account is found and its password checked:
/// the account's id and kind where the password was accepted.
pub fn login_reply(user_id: i64, kind: i64, check: PasswordCheck) -> (reply: Result<
    LoginReply,
    RouteError,
>)
    ensures
        reply == login_outcome(user_id, kind, check),
{
    match check {
        PasswordCheck::Malformed => Err(RouteError::Internal),
        PasswordCheck::Rejected => Err(RouteError::new_unauthorized()),
        PasswordCheck::Accepted => Ok(LoginReply { id: user_id, kind }),
    }
}

/// As many as `count`, as far as an `i64` can tell.
pub open spec fn clip(count: nat) -> i64 {
    if count > i64::MAX {
        i64::MAX
    } else {
        count as i64
    }
}

fn clip_count(count: usize) -> (clipped: i64)
    ensures
        clipped == clip(count as nat),
{
    if count as u64 > i64::MAX as u64 {
        i64::MAX
    } else {
        count as i64
    }
}

/// The text that is there, if any is.
pub open spec fn text_of(text: Option<String>) -> Option<Seq<char>> {
    match text {
        Some(text) => Some(text@),
        None => None,
    }
}

/// The accounts of a listing, as mathematics.
pub open spec fn users_view(users: Seq<User>) -> Seq<UserView> {
    users.map_values(|u: User| u@)
}

impl DatabaseView {
    /// What a login with this e-mail address and password answers: no such
    /// account, or the verdict on the password.
    pub open spec fn login(self, email: Seq<char>, password: Seq<char>) -> Result<
        LoginReply,
        RouteError,
    > {
        match self.user_by_email(email) {
            None => Err(RouteError::NotFound),
            Some(user) => login_outcome(
                user.user_id,
                user.kind,
                password_check(password, user.password),
            ),
        }
    }

    /// The row that a new account gets.
    pub open spec fn new_user(
        self,
        name: Seq<char>,
        email: Seq<char>,
        password_hash: Seq<char>,
    ) -> UserRecord {
        UserRecord {
            user_id: next_id(user_ids(self.users)) as i64,
            name,
            email,
            password: password_hash,
            kind: NORMAL_USER,
        }
    }

    /// What a sign-up does to the tables and what it answers, where `hashed`
    /// is the hash of the password (`None`: it could not be hashed).
    ///
    /// An empty field is refused before anything else. An address that is
    /// taken is a conflict. Otherwise the account is recorded as a normal
    /// user under the next id.
    pub open spec fn create_account_with(
        self,
        name: Seq<char>,
        email: Seq<char>,
        password: Seq<char>,
        hashed: Option<Seq<char>>,
    ) -> (DatabaseView, Result<LoginReply, RouteError>) {
        if email.len() == 0 || name.len() == 0 || password.len() == 0 {
            (self, Err(RouteError::BadRequest))
        } else if hashed is None {
            (self, Err(RouteError::Internal))
        } else if self.user_by_email(email) is Some {
            (self, Err(RouteError::Conflict))
        } else if next_id(user_ids(self.users)) > i64::MAX {
            (self, Err(RouteError::Internal))
        } else {
            (
                self.with_user(self.new_user(name, email, hashed.unwrap())),
                Ok(LoginReply { id: next_id(user_ids(self.users)) as i64, kind: NORMAL_USER }),
            )
        }
    }

    /// One account as a librarian's listing shows it.
    pub open spec fn user_entry(self, user: UserRecord) -> UserView {
        UserView {
            id: user.user_id,
            name: user.name,
            email: user.email,
            kind: user.kind,
            borrowed_book_count: clip(self.borrows_of_user(user.user_id).len()) as int,
        }
    }

    /// Every account, in table order, each with the number of its active
    /// loans.
    pub open spec fn all_users(self) -> Seq<UserView> {
        Seq::new(self.users.len(), |i: int| self.user_entry(self.users[i]))
    }

    /// What a request for the list of accounts answers.
    pub open spec fn get_all_users(self, requester: i64) -> Result<Seq<UserView>, RouteError> {
        match self.require_librarian(requester) {
            Err(e) => Err(e),
            Ok(_) => Ok(self.all_users()),
        }
    }

    /// The tables with the account `user_id` made a `kind`.
    pub open spec fn with_kind(self, user_id: i64, kind: i64) -> DatabaseView {
        match user_ids(self.users).index_of_first(user_id) {
            Some(i) => DatabaseView {
                users: self.users.update(i, UserRecord { kind, ..self.users[i] }),
                ..self
            },
            None => self,
        }
    }

    /// What a request to promote `target` does to the tables and what it
    /// answers: for a librarian, `target` becomes a librarian whatever it was
    /// before.
    pub open spec fn promote_user(self, requester: i64, target: i64) -> (
        DatabaseView,
        Result<(), RouteError>,
    ) {
        match self.require_librarian(requester) {
            Err(e) => (self, Err(e)),
            Ok(_) => (self.with_kind(target, LIBRARIAN), Ok(())),
        }
    }

    /// The tables without the account `user_id`.
    pub open spec fn without_user(self, user_id: i64) -> DatabaseView {
        match user_ids(self.users).index_of_first(user_id) {
            Some(i) => DatabaseView { users: self.users.remove(i), ..self },
            None => self,
        }
    }

    /// What a request to delete `target` does to the tables and what it
    /// answers: a librarian cannot delete their own account, nor one that
    /// still holds books.
    pub open spec fn delete_user(self, requester: i64, target: i64) -> (
        DatabaseView,
        Result<DeleteUserReply, RouteError>,
    ) {
        match self.require_librarian(requester) {
            Err(e) => (self, Err(e)),
            Ok(_) => if target == requester {
                (self, Ok(DeleteUserReply::CannotDeleteSelf))
            } else if self.borrows_of_user(target).len() > 0 {
                (self, Ok(DeleteUserReply::UsersStillHadBooks))
            } else {
                (self.without_user(target), Ok(DeleteUserReply::Deleted))
            },
        }
    }
}

/// Logs in: finds the account by its e-mail address and checks the password
/// against the stored hash.
pub fn login(db: &Database, data: Login) -> (reply: Result<LoginReply, RouteError>)
    ensures
        reply == db@.login(data.email@, data.password@),
{
    match db.find_user_by_email(&data.email) {
        None => Err(RouteError::new_not_found()),
        Some(i) => {
            let user = &db.users[i];
            let check = check_password(data.password.as_str(), user.password.as_str());
            login_reply(user.user_id, user.kind, check)
        },
    }
}

/// Signs up with a password that is already hashed; see
/// [`DatabaseView::create_account_with`].
pub fn create_account_with(
    db: &mut Database,
    data: CreateAccount,
    hashed: Option<String>,
) -> (reply: Result<LoginReply, RouteError>)
    requires
        old(db)@.wf(),
    ensures
        final(db)@.wf(),
        final(db)@ == old(db)@.create_account_with(
            data.name@,
            data.email@,
            data.password@,
            text_of(hashed),
        ).0,
        reply == old(db)@.create_account_with(
            data.name@,
            data.email@,
            data.password@,
            text_of(hashed),
        ).1,
{
    if data.email.as_str().is_empty() || data.name.as_str().is_empty()
        || data.password.as_str().is_empty() {
        return Err(RouteError::new_bad_request());
    }
    let password = match hashed {
        None => { return Err(RouteError::Internal); },
        Some(text) => text,
    };
    proof {
        lemma_index_of_first(user_emails(db@.users), data.email@);
    }
    if db.find_user_by_email(&data.email).is_some() {
        return Err(RouteError::Conflict);
    }
    let ids = db.user_id_list();
    let user_id = match fresh_id(&ids) {
        None => { return Err(RouteError::Internal); },
        Some(id) => id,
    };
    let row = UserRow {
        user_id,
        name: data.name,
        email: data.email,
        password,
        kind: NORMAL_USER,
    };
    proof {
        lemma_next_id_is_fresh(user_ids(db@.users));
        db@.lemma_with_user_wf(row@);
        assert(db.users@.push(row).map_values(|r: UserRow| r@) =~= db@.users.push(row@));
    }
    db.users.push(row);
    Ok(LoginReply { id: user_id, kind: NORMAL_USER })
}

/// Signs up: refuses empty fields, hashes the password with a fresh salt and
/// records the account. The salt is drawn at random, so all that is known of
/// the outcome is that it is the one [`create_account_with`] gives for some
/// hash, against which the password verifies.
pub fn create_account(db: &mut Database, data: CreateAccount) -> (reply: Result<
    LoginReply,
    RouteError,
>)
    requires
        old(db)@.wf(),
    ensures
        final(db)@.wf(),
        exists|hashed: Option<Seq<char>>|
            {
                &&& hashed matches Some(text) ==> is_password_hash(text) && password_matches(
                    data.password@,
                    text,
                )
                &&& final(db)@ == (#[trigger] old(db)@.create_account_with(
                    data.name@,
                    data.email@,
                    data.password@,
                    hashed,
                )).0
                &&& reply == old(db)@.create_account_with(
                    data.name@,
                    data.email@,
                    data.password@,
                    hashed,
                ).1
            },
{
    if data.email.as_str().is_empty() || data.name.as_str().is_empty()
        || data.password.as_str().is_empty() {
        assert(old(db)@.create_account_with(data.name@, data.email@, data.password@, None).1
            == Err::<LoginReply, RouteError>(RouteError::BadRequest));
        return Err(RouteError::new_bad_request());
    }
    let salt = fresh_salt();
    let hashed = hash_with_salt(data.password.as_str(), &salt);
    let ghost witness = text_of(hashed);
    let reply = create_account_with(db, data, hashed);
    assert(reply == old(db)@.create_account_with(
        data.name@,
        data.email@,
        data.password@,
        witness,
    ).1);
    reply
}

/// How many books the account `user_id` holds right now.
pub fn count_books_borrowed_by(db: &Database, user_id: i64) -> (count: u64)
    ensures
        count == db@.borrows_of_user(user_id).len(),
{
    db.count_borrows_of_user(user_id) as u64
}

/// Lists every account with the number of books it holds. Only a librarian
/// may ask.
pub fn get_all_users(db: &Database, data: GetAllUsersRequest) -> (reply: Result<
    Vec<User>,
    RouteError,
>)
    ensures
        match reply {
            Ok(users) => db@.get_all_users(data.cookie.id) == Ok::<Seq<UserView>, RouteError>(
                users_view(users@),
            ),
            Err(e) => db@.get_all_users(data.cookie.id) == Err::<Seq<UserView>, RouteError>(e),
        },
{
    match verify_user_is_librarian(db, &data.cookie) {
        Err(e) => { return Err(e); },
        Ok(_) => {},
    }
    let mut users: Vec<User> = Vec::new();
    let mut i: usize = 0;
    while i < db.users.len()
        invariant
            i <= db.users.len(),
            users@.len() == i,
            forall|k: int| 0 <= k < i ==> (#[trigger] users@[k])@ == db@.user_entry(db@.users[k]),
        decreases db.users.len() - i,
    {
        let row = &db.users[i];
        let count = db.count_borrows_of_user(row.user_id);
        users.push(
            User {
                id: row.user_id,
                name: row.name.clone(),
                email: row.email.clone(),
                kind: row.kind,
                borrowed_book_count: clip_count(count),
            },
        );
        i += 1;
    }
    assert(users_view(users@) =~= db@.all_users());
    Ok(users)
}

/// Makes an account a librarian. Only a librarian may ask; an account that is
/// one already stays one, and the request still succeeds.
pub fn promote_user(db: &mut Database, data: PromoteUserRequest) -> (reply: Result<(), RouteError>)
    requires
        old(db)@.wf(),
    ensures
        final(db)@.wf(),
        final(db)@ == old(db)@.promote_user(data.cookie.id, data.user_to_be_promoted).0,
        reply == old(db)@.promote_user(data.cookie.id, data.user_to_be_promoted).1,
{
    match verify_user_is_librarian(db, &data.cookie) {
        Err(e) => { return Err(e); },
        Ok(_) => {},
    }
    match db.find_user(data.user_to_be_promoted) {
        None => {},
        Some(i) => {
            let old_row = &db.users[i];
            let row = UserRow {
                user_id: old_row.user_id,
                name: old_row.name.clone(),
                email: old_row.email.clone(),
                password: old_row.password.clone(),
                kind: LIBRARIAN,
            };
            proof {
                db@.lemma_update_user_wf(i as int, row@);
                assert(db.users@.update(i as int, row).map_values(|r: UserRow| r@)
                    =~= db@.users.update(i as int, row@));
            }
            db.users.set(i, row);
        },
    }
    Ok(())
}

/// Deletes an account. Only a librarian may ask, never for their own
/// account, and not for one that still holds books; the last two are
/// answers, not errors.
pub fn delete_user(db: &mut Database, data: DeleteUserRequest) -> (reply: Result<
    DeleteUserReply,
    RouteError,
>)
    requires
        old(db)@.wf(),
    ensures
        final(db)@.wf(),
        final(db)@ == old(db)@.delete_user(data.cookie.id, data.user_to_be_deleted).0,
        reply == old(db)@.delete_user(data.cookie.id, data.user_to_be_deleted).1,
{
    match verify_user_is_librarian(db, &data.cookie) {
        Err(e) => { return Err(e); },
        Ok(_) => {},
    }
    if data.user_to_be_deleted == data.cookie.id {
        return Ok(DeleteUserReply::CannotDeleteSelf);
    }
    let count = count_books_borrowed_by(db, data.user_to_be_deleted);
    if count > 0 {
        return Ok(DeleteUserReply::UsersStillHadBooks);
    }
    match db.find_user(data.user_to_be_deleted) {
        None => {},
        Some(i) => {
            proof {
                lemma_index_of_first(user_ids(db@.users), data.user_to_be_deleted);
                db@.lemma_remove_user_wf(i as int);
                assert(db.users@.remove(i as int).map_values(|r: UserRow| r@)
                    =~= db@.users.remove(i as int));
            }
            db.users.remove(i);
        },
    }
    Ok(DeleteUserReply::Deleted)
}

} // verus!
