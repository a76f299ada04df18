//! The Twitch chat source: connecting with a bounded number of attempts,
//! joining a channel, and the events that its messages become.

use vstd::prelude::*;
use crate::event::{chat_event, is_chat_from, ChatSource, Event, EventView};

verus! {

/// How many failed connection attempts are retried; the next failure ends
/// the source.
pub const MAX_RETRIES: u32 = 5;

/// What to do after a connection attempt failed.
#[derive(Clone, Copy, Debug, PartialEq, Eq, Structural)]
pub enum ConnectDecision {
    Retry,
    GiveUp,
}

/// The decision after the `failures`-th failed attempt in a row.
pub open spec fn spec_decision(failures: nat) -> ConnectDecision {
    if failures > MAX_RETRIES {
        ConnectDecision::GiveUp
    } else {
        ConnectDecision::Retry
    }
}

/// Counts the failed attempts to connect to Twitch.
#[derive(Clone, Copy, Debug, PartialEq, Eq, Structural)]
pub struct ConnectRetry {
    pub retries: u32,
}

impl ConnectRetry {
    /// Before the first attempt.
    pub fn new() -> (r: Self)
        ensures
            r.retries == 0,
    {
        ConnectRetry { retries: 0 }
    }

    /// Records one more failed attempt and decides whether to try again.
    /// After a `GiveUp` the source has ended, so no attempt follows it.
    pub fn on_failure(&mut self) -> (d: ConnectDecision)
        requires
            old(self).retries <= MAX_RETRIES,
        ensures
            final(self).retries == old(self).retries + 1,
            d == spec_decision(final(self).retries as nat),
    {
        self.retries = self.retries + 1;
        if self.retries > MAX_RETRIES {
            ConnectDecision::GiveUp
        } else {
            ConnectDecision::Retry
        }
    }
}

/// Starting afresh, the `k`-th failed attempt in a row is retried for `k`
/// up to five, and the sixth ends the source: at most six attempts are made.
pub proof fn lemma_at_most_six_attempts(k: nat)
    requires
        1 <= k <= MAX_RETRIES + 1,
    ensures
        (spec_decision(k) == ConnectDecision::GiveUp) <==> k == MAX_RETRIES + 1,
{
}

/// The Twitch source for one channel.
pub struct TwitchSource {
    pub channel: String,
}

/// A message that Twitch sends: a chat message with its sender's name and
/// text, or anything else.
#[derive(Clone, Debug, PartialEq)]
pub enum TwitchMessage {
    Privmsg { name: String, data: String },
    Other,
}

impl TwitchSource {
    /// The source for `channel`.
    pub fn new(channel: String) -> (r: Self)
        ensures
            r.channel@ == channel@,
    {
        TwitchSource { channel }
    }

    /// The notice that the source has joined its channel.
    pub fn joined_event(&self) -> (e: Event)
        ensures
            e@ == (EventView::Info {
                msg: "joined channel "@ + self.channel@,
                src: Some(ChatSource::Twitch),
            }),
    {
        let mut msg = String::from_str("joined channel ");
        msg.append(self.channel.as_str());
        Event::Info { msg, src: Some(ChatSource::Twitch) }
    }
}

/// The event for a Twitch message: a chat message from Twitch for a chat
/// message, nothing for anything else.
pub fn handle_message(msg: TwitchMessage) -> (r: Option<Event>)
    ensures
        match msg {
            TwitchMessage::Privmsg { name, data } => r is Some && is_chat_from(
                r->0@,
                ChatSource::Twitch,
                name@,
                data@,
            ) && r->0@->chat.ts.secs >= 0 && r->0@->chat.ts.nanos < 1_000_000_000,
            TwitchMessage::Other => r is None,
        },
{
    match msg {
        TwitchMessage::Privmsg { name, data } => Some(chat_event(ChatSource::Twitch, name, data)),
        TwitchMessage::Other => None,
    }
}

} // verus!
