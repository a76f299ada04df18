//! The sources that need no network: a dummy that repeats one message, and
//! the lines typed on standard input.

use vstd::prelude::*;
use crate::event::{chat_event, is_chat_from, ChatSource, Event};
use crate::text::{trim, trim_str};

verus! {

/// The message that the dummy source sends again and again.
pub fn dummy_event() -> (e: Event)
    ensures
        is_chat_from(e@, ChatSource::Dummy, "Tiim"@, "Dummy message!!!"@),
        e@->chat.ts.secs >= 0,
        e@->chat.ts.nanos < 1_000_000_000,
{
    chat_event(ChatSource::Dummy, String::from_str("Tiim"), String::from_str("Dummy message!!!"))
}

/// The chat message for a line typed on standard input: the line without
/// surrounding whitespace.
pub fn stdin_event(line: &str) -> (e: Event)
    ensures
        is_chat_from(e@, ChatSource::Stdin, "Tiim"@, trim(line@)),
        e@->chat.ts.secs >= 0,
        e@->chat.ts.nanos < 1_000_000_000,
{
    chat_event(ChatSource::Stdin, String::from_str("Tiim"), String::from_str(trim_str(line)))
}

} // verus!
