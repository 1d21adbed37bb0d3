use vstd::prelude::*;

use crate::database::chats::get_chat::view::{Message, Timestamp};

verus! {

/// A message as the API shows it.
#[derive(Debug, Clone)]
pub struct MessageView {
    id: u64,
    content: String,
    sender_id: u64,
    created_at: Timestamp,
    /// The message this one answers; not read back from the database yet, so always `None`.
    sitation: Option<u64>,
}

impl MessageView {
    pub closed spec fn id_view(self) -> u64 {
        self.id
    }

    pub closed spec fn content_view(self) -> Seq<char> {
        self.content@
    }

    pub closed spec fn sender_id_view(self) -> u64 {
        self.sender_id
    }

    pub closed spec fn created_at_view(self) -> Timestamp {
        self.created_at
    }

    pub closed spec fn sitation_view(self) -> Option<u64> {
        self.sitation
    }

    /// `self` shows message `m` of the database: its id and author read as `u64`, no sitation.
    pub open spec fn shows(self, m: Message) -> bool {
        &&& self.id_view() == m.id as u64
        &&& self.content_view() == m.content@
        &&& self.sender_id_view() == m.owner_id as u64
        &&& self.created_at_view() == m.created_at
        &&& self.sitation_view() is None
    }

    pub fn new(
        id: u64,
        content: &str,
        sender_id: u64,
        created_at: Timestamp,
        sitation: Option<u64>,
    ) -> (v: Self)
        ensures
            v.id_view() == id,
            v.content_view() == content@,
            v.sender_id_view() == sender_id,
            v.created_at_view() == created_at,
            v.sitation_view() == sitation,
    {
        Self { id, content: String::from_str(content), sender_id, created_at, sitation }
    }

    pub fn id(&self) -> (id: u64)
        ensures
            id == self.id_view(),
    {
        self.id
    }

    pub fn content(&self) -> (s: &str)
        ensures
            s@ == self.content_view(),
    {
        self.content.as_str()
    }

    pub fn sender_id(&self) -> (id: u64)
        ensures
            id == self.sender_id_view(),
    {
        self.sender_id
    }

    pub fn created_at(&self) -> (t: &Timestamp)
        ensures
            *t == self.created_at_view(),
    {
        &self.created_at
    }

    pub fn sitation(&self) -> (s: Option<u64>)
        ensures
            s == self.sitation_view(),
    {
        self.sitation
    }

    /// The message of the database as the API shows it.
    pub fn from(message: Message) -> (v: Self)
        ensures
            v.shows(message),
            v.id_view() == message.id as u64,
            v.content_view() == message.content@,
            v.sender_id_view() == message.owner_id as u64,
            v.created_at_view() == message.created_at,
            v.sitation_view() is None,
    {
        Self::new(
            message.id as u64,
            message.content.as_str(),
            message.owner_id as u64,
            message.created_at,
            None,
        )
    }
}

/// A message is shown as it is stored: its whole text, unchanged, its id, its author and its
/// date, and no citation.
pub proof fn shown_message_is_the_stored_one(v: MessageView, m: Message)
    requires
        v.shows(m),
    ensures
        v.content_view() == m.content@,
        v.content_view().len() == m.content@.len(),
        v.id_view() == m.id as u64,
        v.sender_id_view() == m.owner_id as u64,
        v.created_at_view() == m.created_at,
        v.sitation_view() is None,
{
}

/// The messages of a chat.
#[derive(Debug, Clone)]
pub struct GetChatResultView {
    messages: Vec<MessageView>,
}

impl GetChatResultView {
    pub closed spec fn messages_view(self) -> Seq<MessageView> {
        self.messages@
    }

    pub fn new(messages: Vec<MessageView>) -> (v: Self)
        ensures
            v.messages_view() == messages@,
    {
        Self { messages }
    }

    pub fn messages(&self) -> (m: &[MessageView])
        ensures
            m@ == self.messages_view(),
    {
        self.messages.as_slice()
    }

    /// The messages of the database, in the same order, as the API shows them.
    pub fn from(messages: Vec<Message>) -> (v: Self)
        ensures
            v.messages_view().len() == messages@.len(),
            forall|i: int|
                0 <= i < messages@.len() ==> #[trigger] v.messages_view()[i].shows(messages@[i]),
            forall|i: int|
                0 <= i < messages@.len() ==> (#[trigger] v.messages_view()[i]).content_view()
                    == messages@[i].content@ && v.messages_view()[i].id_view() == messages@[i].id
                    as u64 && v.messages_view()[i].sender_id_view() == messages@[i].owner_id as u64,
    {
        let mut shown: Vec<MessageView> = Vec::new();
        for i in 0..messages.len()
            invariant
                shown@.len() == i,
                forall|k: int| 0 <= k < i ==> #[trigger] shown@[k].shows(messages@[k]),
        {
            let m = &messages[i];
            shown.push(
                MessageView::new(m.id as u64, m.content.as_str(), m.owner_id as u64, m.created_at, None),
            );
        }
        assert forall|i: int| 0 <= i < messages@.len() implies (#[trigger] shown@[i]).content_view()
            == messages@[i].content@ && shown@[i].id_view() == messages@[i].id as u64
            && shown@[i].sender_id_view() == messages@[i].owner_id as u64 by {
            assert(shown@[i].shows(messages@[i]));
        }
        Self::new(shown)
    }
}

} // verus!
