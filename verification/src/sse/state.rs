//! What the real-time channel carries, and to whom.
use vstd::prelude::*;

verus! {

/// Something happened in chat `chat_id`: user `sender_id` posted `message`. The HTTP layer
/// broadcasts it on the internal bus that feeds the SSE streams.
#[derive(Debug, Clone)]
pub struct ChatEvent {
    pub chat_id: u64,
    pub sender_id: u64,
    pub message: String,
}

/// What a connected member receives for an event: only that something happened in chat
/// `chat_id`, not the message itself; the client then reloads the chat.
#[derive(Debug, Clone, Copy, PartialEq, Eq, Structural)]
pub struct ChatSignal {
    pub chat_id: u64,
}

/// The users to signal, among the connected users `online` taken in their order: those who are
/// members of the chat.
pub open spec fn recipients(members: Seq<u64>, online: Seq<u64>) -> Seq<u64>
    decreases online.len(),
{
    if online.len() == 0 {
        Seq::empty()
    } else {
        let rest = recipients(members, online.drop_last());
        if members.contains(online.last()) {
            rest.push(online.last())
        } else {
            rest
        }
    }
}

proof fn lemma_push_contains(s: Seq<u64>, x: u64, u: u64)
    ensures
        s.push(x).contains(u) <==> (s.contains(u) || u == x),
{
    if s.push(x).contains(u) {
        let k = choose|k: int| 0 <= k < s.push(x).len() && s.push(x)[k] == u;
        if k < s.len() {
            assert(s[k] == u);
        }
    }
    if s.contains(u) {
        let k = choose|k: int| 0 <= k < s.len() && s[k] == u;
        assert(s.push(x)[k] == u);
    }
    if u == x {
        assert(s.push(x)[s.len() as int] == u);
    }
}

/// A user is signalled exactly when they are connected and a member of the chat.
pub proof fn recipients_are_the_connected_members(members: Seq<u64>, online: Seq<u64>)
    ensures
        forall|u: u64| #[trigger]
            recipients(members, online).contains(u) <==> (online.contains(u) && members.contains(
                u,
            )),
    decreases online.len(),
{
    if online.len() > 0 {
        let front = online.drop_last();
        let last = online.last();
        recipients_are_the_connected_members(members, front);
        assert(online == front.push(last));
        assert forall|u: u64| #[trigger]
            recipients(members, online).contains(u) <==> (online.contains(u) && members.contains(
                u,
            )) by {
            lemma_push_contains(front, last, u);
            lemma_push_contains(recipients(members, front), last, u);
        }
    }
}

fn is_member(members: &[u64], user_id: u64) -> (r: bool)
    ensures
        r == members@.contains(user_id),
{
    for i in 0..members.len()
        invariant
            forall|k: int| 0 <= k < i ==> members@[k] != user_id,
    {
        if members[i] == user_id {
            assert(members@[i as int] == user_id);
            return true;
        }
    }
    false
}

/// The signals to send for `event`: one per connected user (`online`) who is a member of the
/// chat (`members`), in the order of `online`, each carrying the event's chat.
pub fn chat_signals(event: &ChatEvent, members: &[u64], online: &[u64]) -> (out: Vec<
    (u64, ChatSignal),
>)
    ensures
        out@.len() == recipients(members@, online@).len(),
        forall|i: int|
            0 <= i < out@.len() ==> (#[trigger] out@[i]).0 == recipients(members@, online@)[i]
                && out@[i].1.chat_id == event.chat_id,
{
    let mut out: Vec<(u64, ChatSignal)> = Vec::new();
    assert(recipients(members@, online@.take(0)) == Seq::<u64>::empty());
    let mut i: usize = 0;
    while i < online.len()
        invariant
            i <= online@.len(),
            out@.len() == recipients(members@, online@.take(i as int)).len(),
            forall|k: int|
                0 <= k < out@.len() ==> (#[trigger] out@[k]).0 == recipients(
                    members@,
                    online@.take(i as int),
                )[k] && out@[k].1.chat_id == event.chat_id,
        decreases online@.len() - i,
    {
        let ghost before = recipients(members@, online@.take(i as int));
        assert(online@.take(i + 1).drop_last() == online@.take(i as int));
        assert(online@.take(i + 1).last() == online@[i as int]);
        let user_id = online[i];
        if is_member(members, user_id) {
            assert(recipients(members@, online@.take(i + 1)) == before.push(user_id));
            out.push((user_id, ChatSignal { chat_id: event.chat_id }));
        } else {
            assert(recipients(members@, online@.take(i + 1)) == before);
        }
        i = i + 1;
    }
    assert(online@.take(i as int) == online@);
    out
}

} // verus!
