use vstd::prelude::*;

verus! {

/// An account as the persistence layer stores it.
#[derive(Debug, Clone, PartialEq, Eq)]
pub struct User {
    pub id: i64,
    pub name: String,
    pub email: String,
    pub password_hash: String,
}

/// `User` with its texts as sequences.
pub struct UserView {
    pub id: i64,
    pub name: Seq<char>,
    pub email: Seq<char>,
    pub password_hash: Seq<char>,
}

impl View for User {
    type V = UserView;

    open spec fn view(&self) -> UserView {
        UserView {
            id: self.id,
            name: self.name@,
            email: self.email@,
            password_hash: self.password_hash@,
        }
    }
}

impl Default for User {
    /// The empty account: id 0 and no text.
    fn default() -> (user: User)
        ensures
            user@ == (UserView {
                id: 0,
                name: Seq::empty(),
                email: Seq::empty(),
                password_hash: Seq::empty(),
            }),
    {
        User { id: 0, name: String::new(), email: String::new(), password_hash: String::new() }
    }
}

} // verus!
