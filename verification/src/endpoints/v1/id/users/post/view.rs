use vstd::prelude::*;

verus! {

/// Users to make members of the chat of the path, in one request.
#[derive(Debug)]
pub struct AddUsersToChat {
    /// Core API ids of the users to add.
    pub users_id: Vec<u64>,
}

impl AddUsersToChat {
    pub fn new(users_id: Vec<u64>) -> (v: Self)
        ensures
            v.users_id@ == users_id@,
    {
        Self { users_id }
    }

    pub fn users_id(&self) -> (ids: &[u64])
        ensures
            ids@ == self.users_id@,
    {
        self.users_id.as_slice()
    }
}

/// The users made members of the chat.
#[derive(Debug)]
pub struct AddUsersToChatResultView {
    chat_id: u64,
    added: Vec<u64>,
}

impl AddUsersToChatResultView {
    pub closed spec fn chat_id_view(self) -> u64 {
        self.chat_id
    }

    pub closed spec fn added_view(self) -> Seq<u64> {
        self.added@
    }

    pub fn new(chat_id: u64, added: Vec<u64>) -> (v: Self)
        ensures
            v.chat_id_view() == chat_id,
            v.added_view() == added@,
    {
        Self { chat_id, added }
    }

    /// The chat concerned.
    pub fn chat_id(&self) -> (id: u64)
        ensures
            id == self.chat_id_view(),
    {
        self.chat_id
    }

    /// The ids made members.
    pub fn added(&self) -> (ids: &[u64])
        ensures
            ids@ == self.added_view(),
    {
        self.added.as_slice()
    }
}

} // verus!
