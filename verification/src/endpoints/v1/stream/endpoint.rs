//! `GET /api/v1/stream`: the SSE channel that each client keeps open. The caller is registered
//! as online; a `: ping` comment every 15 seconds keeps the connection open through the
//! proxies, and the first ping that cannot be delivered unregisters the caller and ends the
//! keep-alive.
use vstd::prelude::*;

verus! {

/// Seconds between two keep-alive comments.
pub const PING_INTERVAL_SECS: u64 = 15;

/// What the keep-alive of a stream does next.
#[derive(Debug, Clone, Copy, PartialEq, Eq, Structural)]
pub enum KeepAliveStep {
    /// Wait this many seconds.
    Wait(u64),
    /// Hand the comment to the stream without waiting for room in it.
    Ping,
    /// Forget that the user of this id is online: their stream is gone.
    Unregister(u64),
    /// End the keep-alive.
    Stop,
}

/// The comment sent to keep a stream open; SSE clients ignore it.
pub fn ping_comment() -> (s: &'static str)
    ensures
        s@ == ": ping\n\n"@,
{
    ": ping\n\n"
}

/// The keep-alive starts by waiting a whole interval: the stream was just opened.
pub fn keep_alive_start() -> (step: KeepAliveStep)
    ensures
        step == KeepAliveStep::Wait(PING_INTERVAL_SECS),
{
    KeepAliveStep::Wait(PING_INTERVAL_SECS)
}

/// After a wait: the ping.
pub fn keep_alive_after_wait() -> (step: KeepAliveStep)
    ensures
        step == KeepAliveStep::Ping,
{
    KeepAliveStep::Ping
}

/// After a ping to the stream of `user_id`: another interval when it was delivered, else the
/// user is no longer online.
pub fn keep_alive_after_ping(user_id: u64, delivered: bool) -> (step: KeepAliveStep)
    ensures
        step == if delivered {
            KeepAliveStep::Wait(PING_INTERVAL_SECS)
        } else {
            KeepAliveStep::Unregister(user_id)
        },
{
    if delivered {
        KeepAliveStep::Wait(PING_INTERVAL_SECS)
    } else {
        KeepAliveStep::Unregister(user_id)
    }
}

/// After the user was unregistered: the end.
pub fn keep_alive_after_unregister() -> (step: KeepAliveStep)
    ensures
        step == KeepAliveStep::Stop,
{
    KeepAliveStep::Stop
}

} // verus!
