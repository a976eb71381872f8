//! The stored users as the handlers see them: one row per user, the faults
//! that a query can end in, and a model of the table by which the handlers'
//! decisions can be followed through a run of requests.

use vstd::prelude::*;

verus! {

/// One row of the users table. The two times are seconds since 1970.
#[derive(Debug, Clone, PartialEq, Eq)]
pub struct User {
    pub id: u64,
    pub username: String,
    pub avatar_url: String,
    pub email: String,
    pub status: i8,
    pub password: String,
    pub created_at: i64,
    pub updated_at: i64,
}

/// A row with its texts as sequences of characters.
pub struct UserView {
    pub id: u64,
    pub username: Seq<char>,
    pub avatar_url: Seq<char>,
    pub email: Seq<char>,
    pub status: i8,
    pub password: Seq<char>,
    pub created_at: i64,
    pub updated_at: i64,
}

impl View for User {
    type V = UserView;

    open spec fn view(&self) -> UserView {
        UserView {
            id: self.id,
            username: self.username@,
            avatar_url: self.avatar_url@,
            email: self.email@,
            status: self.status,
            password: self.password@,
            created_at: self.created_at,
            updated_at: self.updated_at,
        }
    }
}

/// Whether a query failed because no row matched, or for another reason.
#[derive(Clone, Copy, Debug, PartialEq, Eq, Structural)]
pub enum StorageFault {
    RowNotFound,
    Other,
}

/// A query that failed: why, and storage's own description of the fault.
#[derive(Debug, Clone, PartialEq, Eq)]
pub struct StorageError {
    pub fault: StorageFault,
    pub message: String,
}

/// A `StorageError` with its description as a sequence of characters.
pub struct StorageErrorView {
    pub fault: StorageFault,
    pub message: Seq<char>,
}

impl View for StorageError {
    type V = StorageErrorView;

    open spec fn view(&self) -> StorageErrorView {
        StorageErrorView { fault: self.fault, message: self.message@ }
    }
}

/// Whether a row of `users` has the address `email`.
pub open spec fn email_registered(users: Seq<UserView>, email: Seq<char>) -> bool {
    exists|i: int| 0 <= i < users.len() && (#[trigger] users[i]).email == email
}

/// Whether no two rows of `users` share an address.
pub open spec fn emails_unique(users: Seq<UserView>) -> bool {
    forall|i: int, j: int|
        0 <= i < j < users.len() ==> (#[trigger] users[i]).email != (#[trigger] users[j]).email
}

/// Whether the row at `i` has this address and this password.
pub open spec fn credentials_match(
    users: Seq<UserView>,
    i: int,
    email: Seq<char>,
    password: Seq<char>,
) -> bool {
    0 <= i < users.len() && users[i].email == email && users[i].password == password
}

/// Whether some row of `users` has this address and this password.
pub open spec fn credentials_known(
    users: Seq<UserView>,
    email: Seq<char>,
    password: Seq<char>,
) -> bool {
    exists|i: int| #[trigger] credentials_match(users, i, email, password)
}

/// The table after a user was added under the identifier `id` at the time
/// `now`, with an empty picture address and the status zero.
pub open spec fn with_user(
    users: Seq<UserView>,
    id: u64,
    username: Seq<char>,
    email: Seq<char>,
    password: Seq<char>,
    now: i64,
) -> Seq<UserView> {
    users.push(
        UserView {
            id,
            username,
            avatar_url: Seq::empty(),
            email,
            status: 0,
            password,
            created_at: now,
            updated_at: now,
        },
    )
}

} // verus!
