use vstd::prelude::*;

use crate::database::chats::get_chats::view::GetChatsQueryResultView;

verus! {

/// A chat of the caller, with their number of unread messages.
#[derive(Debug)]
pub struct ChatView {
    id: u64,
    /// Empty when the chat has no title, never absent.
    name: String,
    unread_count: i32,
}

impl ChatView {
    pub closed spec fn id_view(self) -> u64 {
        self.id
    }

    pub closed spec fn name_view(self) -> Seq<char> {
        self.name@
    }

    pub closed spec fn unread_count_view(self) -> i32 {
        self.unread_count
    }

    /// `self` shows chat `row` of the database: its id read as a `u64`, its title or the empty
    /// text.
    pub open spec fn shows(self, row: GetChatsQueryResultView) -> bool {
        &&& self.id_view() == row.id as u64
        &&& self.name_view() == match row.title {
            Some(t) => t@,
            None => Seq::<char>::empty(),
        }
        &&& self.unread_count_view() == row.unread_count
    }

    pub fn new(id: u64, name: String, unread_count: i32) -> (v: Self)
        ensures
            v.id_view() == id,
            v.name_view() == name@,
            v.unread_count_view() == unread_count,
    {
        Self { id, name, unread_count }
    }

    pub fn id(&self) -> (id: u64)
        ensures
            id == self.id_view(),
    {
        self.id
    }

    pub fn name(&self) -> (s: &str)
        ensures
            s@ == self.name_view(),
    {
        self.name.as_str()
    }

    pub fn unread_count(&self) -> (n: i32)
        ensures
            n == self.unread_count_view(),
    {
        self.unread_count
    }

    /// The chat of the database as the API shows it.
    pub fn from(result: GetChatsQueryResultView) -> (v: Self)
        ensures
            v.shows(result),
            v.id_view() == result.id as u64,
            v.name_view() == match result.title {
                Some(t) => t@,
                None => Seq::<char>::empty(),
            },
            v.unread_count_view() == result.unread_count,
    {
        let name = match result.title {
            Some(title) => title,
            None => String::new(),
        };
        Self::new(result.id as u64, name, result.unread_count)
    }
}

/// A chat is listed under its whole title, unchanged (the empty text when it has none), with its
/// id and its unread counter.
pub proof fn listed_chat_is_the_stored_one(v: ChatView, row: GetChatsQueryResultView)
    requires
        v.shows(row),
    ensures
        row.title matches Some(t) ==> v.name_view() == t@ && v.name_view().len() == t@.len(),
        row.title is None ==> v.name_view().len() == 0,
        v.id_view() == row.id as u64,
        v.unread_count_view() == row.unread_count,
{
}

/// The chats of the caller.
#[derive(Debug)]
pub struct GetChatsResultView {
    chats: Vec<ChatView>,
}

impl GetChatsResultView {
    pub closed spec fn chats_view(self) -> Seq<ChatView> {
        self.chats@
    }

    pub fn new(chats: Vec<ChatView>) -> (v: Self)
        ensures
            v.chats_view() == chats@,
    {
        Self { chats }
    }

    pub fn chats(&self) -> (c: &[ChatView])
        ensures
            c@ == self.chats_view(),
    {
        self.chats.as_slice()
    }

    /// The chats of the database, in the same order, as the API shows them.
    pub fn from(results: Vec<GetChatsQueryResultView>) -> (v: Self)
        ensures
            v.chats_view().len() == results@.len(),
            forall|i: int|
                0 <= i < results@.len() ==> #[trigger] v.chats_view()[i].shows(results@[i]),
            forall|i: int|
                0 <= i < results@.len() ==> (#[trigger] v.chats_view()[i]).name_view() == match results@[
                    i].title {
                    Some(t) => t@,
                    None => Seq::<char>::empty(),
                } && v.chats_view()[i].id_view() == results@[i].id as u64
                    && v.chats_view()[i].unread_count_view() == results@[i].unread_count,
    {
        let mut chats: Vec<ChatView> = Vec::new();
        for i in 0..results.len()
            invariant
                chats@.len() == i,
                forall|k: int| 0 <= k < i ==> #[trigger] chats@[k].shows(results@[k]),
        {
            let row = &results[i];
            let name = match &row.title {
                Some(title) => title.clone(),
                None => String::new(),
            };
            chats.push(ChatView::new(row.id as u64, name, row.unread_count));
        }
        assert forall|i: int| 0 <= i < results@.len() implies (#[trigger] chats@[i]).name_view()
            == match results@[i].title {
            Some(t) => t@,
            None => Seq::<char>::empty(),
        } && chats@[i].id_view() == results@[i].id as u64 && chats@[i].unread_count_view()
            == results@[i].unread_count by {
            assert(chats@[i].shows(results@[i]));
        }
        Self::new(chats)
    }
}

} // verus!
