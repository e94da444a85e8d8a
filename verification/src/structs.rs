//! A user account and how one is opened.
use vstd::prelude::*;

verus! {

/// A user account.
pub struct User {
    pub active: bool,
    pub username: String,
    pub email: String,
    pub sign_in_count: u64,
}

/// The mathematical content of a user account.
pub struct UserView {
    pub active: bool,
    pub username: Seq<char>,
    pub email: Seq<char>,
    pub sign_in_count: u64,
}

impl View for User {
    type V = UserView;

    open spec fn view(&self) -> UserView {
        UserView {
            active: self.active,
            username: self.username@,
            email: self.email@,
            sign_in_count: self.sign_in_count,
        }
    }
}

/// A color by its three channels.
#[derive(Clone, Copy, Debug, PartialEq, Eq, Structural)]
pub struct Color(pub i32, pub i32, pub i32);

/// A point in space.
#[derive(Clone, Copy, Debug, PartialEq, Eq, Structural)]
pub struct Point(pub i32, pub i32, pub i32);

/// A new account: active, and signed in once.
pub fn build_user(email: String, username: String) -> (user: User)
    ensures
        user@ == (UserView {
            active: true,
            username: username@,
            email: email@,
            sign_in_count: 1,
        }),
{
    User { active: true, username, email, sign_in_count: 1 }
}

/// The account `user` under another address, with everything else kept.
pub fn with_email(user: User, email: String) -> (updated: User)
    ensures
        updated@ == (UserView { email: email@, ..user@ }),
{
    User { email, ..user }
}

} // verus!
