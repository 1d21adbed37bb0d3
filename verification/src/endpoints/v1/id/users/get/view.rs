use vstd::prelude::*;

verus! {

/// A member of a chat, by their Core API id.
#[derive(Debug, Clone, Copy)]
pub struct User {
    id: u64,
}

impl User {
    pub closed spec fn id_view(self) -> u64 {
        self.id
    }

    pub fn new(id: u64) -> (u: Self)
        ensures
            u.id_view() == id,
    {
        Self { id }
    }

    pub fn id(&self) -> (id: u64)
        ensures
            id == self.id_view(),
    {
        self.id
    }
}

/// The members of a chat.
#[derive(Debug)]
pub struct GetUsersView {
    users: Vec<User>,
}

impl GetUsersView {
    pub closed spec fn users_view(self) -> Seq<User> {
        self.users@
    }

    pub fn new(users: Vec<User>) -> (v: Self)
        ensures
            v.users_view() == users@,
    {
        Self { users }
    }

    pub fn users(&self) -> (u: &[User])
        ensures
            u@ == self.users_view(),
    {
        self.users.as_slice()
    }
}

} // verus!
