//! User rows: the smallest table of the store, created alongside the
//! others and filled by the user-creation endpoint.

use vstd::prelude::*;

verus! {

/// The mathematical value of one user row.
#[verifier::ext_equal]
pub ghost struct UserView {
    pub id: int,
    pub username: Seq<char>,
}

/// One row of the user table.
#[derive(Clone, Debug, PartialEq, Eq)]
pub struct User {
    pub id: i64,
    pub username: String,
}

impl View for User {
    type V = UserView;

    open spec fn view(&self) -> UserView {
        UserView { id: self.id as int, username: self.username@ }
    }
}

impl DeepView for User {
    type V = UserView;

    open spec fn deep_view(&self) -> UserView {
        self.view()
    }
}

/// Decoded request body for creating a user.
#[derive(Clone, Debug, PartialEq, Eq)]
pub struct CreateUser {
    pub username: String,
}

/// Builds the view of a user row, for use in contracts.
pub open spec fn user_view(id: int, username: Seq<char>) -> UserView {
    UserView { id, username }
}

/// User ids are strictly increasing along the table.
pub open spec fn user_ids_increasing(s: Seq<UserView>) -> bool {
    forall|i: int, j: int| #![trigger s[i].id, s[j].id] 0 <= i < j < s.len() ==> s[i].id < s[j].id
}

/// Every user id is at least 1 and below the id counter.
pub open spec fn user_ids_below(s: Seq<UserView>, next_id: int) -> bool {
    forall|i: int| 0 <= i < s.len() ==> 1 <= #[trigger] s[i].id < next_id
}

/// A well-formed user table under a given id counter.
pub open spec fn users_wf(s: Seq<UserView>, next_id: int) -> bool {
    &&& user_ids_increasing(s)
    &&& user_ids_below(s, next_id)
    &&& 1 <= next_id
}

} // verus!
