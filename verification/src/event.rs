//! The events that flow from chat sources to destinations.

use vstd::prelude::*;

verus! {

/// The chat system an event comes from.
#[derive(Clone, Copy, Debug, PartialEq, Eq, Structural)]
pub enum ChatSource {
    YoutubeLive,
    Twitch,
    IRC,
    Dummy,
    Stdin,
}

/// A point in time: whole seconds since the Unix epoch and the nanoseconds
/// past that second.
#[derive(Clone, Copy, Debug, PartialEq, Eq, Structural)]
pub struct Timestamp {
    pub secs: i64,
    pub nanos: u32,
}

/// One chat message, as a source received it.
#[derive(Clone, Debug, PartialEq)]
pub struct ChatEvent {
    pub src: ChatSource,
    pub ts: Timestamp,
    pub author: String,
    pub message: String,
}

/// A command that a chat message asked for.
#[derive(Clone, Debug, PartialEq)]
pub enum Command {
    /// Read the text aloud.
    TTS(String),
}

/// Everything that travels between the modules.
#[derive(Clone, Debug, PartialEq)]
pub enum Event {
    Chat { chat: ChatEvent },
    Info { msg: String, src: Option<ChatSource> },
    Error { err: String },
    Command { cmd: Command },
}

/// A chat message with its strings as character sequences.
pub struct ChatEventView {
    pub src: ChatSource,
    pub ts: Timestamp,
    pub author: Seq<char>,
    pub message: Seq<char>,
}

/// The mathematical model of a command.
pub enum CommandView {
    TTS(Seq<char>),
}

/// The mathematical model of an event.
pub enum EventView {
    Chat { chat: ChatEventView },
    Info { msg: Seq<char>, src: Option<ChatSource> },
    Error { err: Seq<char> },
    Command { cmd: CommandView },
}

impl View for ChatEvent {
    type V = ChatEventView;

    open spec fn view(&self) -> ChatEventView {
        ChatEventView { src: self.src, ts: self.ts, author: self.author@, message: self.message@ }
    }
}

impl View for Command {
    type V = CommandView;

    open spec fn view(&self) -> CommandView {
        match self {
            Command::TTS(s) => CommandView::TTS(s@),
        }
    }
}

impl View for Event {
    type V = EventView;

    open spec fn view(&self) -> EventView {
        match self {
            Event::Chat { chat } => EventView::Chat { chat: chat@ },
            Event::Info { msg, src } => EventView::Info { msg: msg@, src: *src },
            Event::Error { err } => EventView::Error { err: err@ },
            Event::Command { cmd } => EventView::Command { cmd: cmd@ },
        }
    }
}

/// `e` is a chat message from `src` by `author` that reads `message`
/// (whatever its time stamp).
pub open spec fn is_chat_from(e: EventView, src: ChatSource, author: Seq<char>, message: Seq<char>) -> bool {
    &&& e is Chat
    &&& e->chat.src == src
    &&& e->chat.author == author
    &&& e->chat.message == message
}

/// The current time (`chrono::Utc::now`), as seconds and nanoseconds since
/// the Unix epoch. chrono builds it from the system clock's distance to the
/// epoch, so the seconds are not negative and the nanoseconds stay below one
/// second; which instant it is, nothing states. chrono panics when the
/// system clock stands before 1970.
#[verifier::external_body]
pub(crate) fn now() -> (t: Timestamp)
    ensures
        t.secs >= 0,
        t.nanos < 1_000_000_000,
{
    let now = chrono::Utc::now();
    Timestamp { secs: now.timestamp(), nanos: now.timestamp_subsec_nanos() }
}

/// A chat message from `src` stamped with `ts`.
pub fn chat_event_at(src: ChatSource, ts: Timestamp, author: String, message: String) -> (e: Event)
    ensures
        is_chat_from(e@, src, author@, message@),
        e@->chat.ts == ts,
{
    Event::Chat { chat: ChatEvent { src, ts, author, message } }
}

/// A chat message from `src`, stamped with the current time.
pub fn chat_event(src: ChatSource, author: String, message: String) -> (e: Event)
    ensures
        is_chat_from(e@, src, author@, message@),
        e@->chat.ts.secs >= 0,
        e@->chat.ts.nanos < 1_000_000_000,
{
    chat_event_at(src, now(), author, message)
}

} // verus!
