//! How the console shows events.

use vstd::prelude::*;
use crate::event::{ChatEvent, ChatSource, Event, EventView};

verus! {

/// Where a console line goes.
#[derive(Clone, Copy, Debug, PartialEq, Eq, Structural)]
pub enum Stream {
    Stdout,
    Stderr,
}

/// One line for the console.
#[derive(Clone, Debug, PartialEq)]
pub struct ConsoleLine {
    pub stream: Stream,
    pub text: String,
}

/// The three-letter label of a source in a chat line.
pub open spec fn spec_source_label(s: ChatSource) -> Seq<char> {
    match s {
        ChatSource::YoutubeLive => "Yt "@,
        ChatSource::Twitch => "TTv"@,
        ChatSource::IRC => "IRC"@,
        ChatSource::Dummy => "DMY"@,
        ChatSource::Stdin => "STD"@,
    }
}

/// The name of a source as its `Debug` form prints it.
pub open spec fn spec_debug_name(s: ChatSource) -> Seq<char> {
    match s {
        ChatSource::YoutubeLive => "YoutubeLive"@,
        ChatSource::Twitch => "Twitch"@,
        ChatSource::IRC => "IRC"@,
        ChatSource::Dummy => "Dummy"@,
        ChatSource::Stdin => "Stdin"@,
    }
}

/// The console line of a chat message: label, author in angle brackets,
/// message.
pub open spec fn spec_chat_line(src: ChatSource, author: Seq<char>, message: Seq<char>) -> Seq<char> {
    spec_source_label(src) + " <"@ + author + "> "@ + message
}

/// The console line of a notice: its source's name in angle brackets (empty
/// without a source), then the notice.
pub open spec fn spec_info_line(msg: Seq<char>, src: Option<ChatSource>) -> Seq<char> {
    "<"@ + match src {
        Some(s) => spec_debug_name(s),
        None => Seq::empty(),
    } + "> "@ + msg
}

/// A chat line holds the whole author: three letters of label, ` <`, the
/// author character for character whatever its length, `> `, then the
/// message.
pub proof fn lemma_chat_line_holds_author(src: ChatSource, author: Seq<char>, message: Seq<char>)
    ensures
        spec_chat_line(src, author, message).len() == author.len() + message.len() + 7,
        spec_chat_line(src, author, message).subrange(0, 3) == spec_source_label(src),
        spec_chat_line(src, author, message).subrange(3, 5) == " <"@,
        spec_chat_line(src, author, message).subrange(5, 5 + author.len() as int) == author,
        spec_chat_line(src, author, message).subrange(5 + author.len() as int, 7 + author.len() as int) == "> "@,
        spec_chat_line(src, author, message).skip(7 + author.len() as int) == message,
{
    reveal_strlit("Yt ");
    reveal_strlit("TTv");
    reveal_strlit("IRC");
    reveal_strlit("DMY");
    reveal_strlit("STD");
    reveal_strlit(" <");
    reveal_strlit("> ");
    let lab = spec_source_label(src);
    assert(lab.len() == 3);
    let l = spec_chat_line(src, author, message);
    let a = author.len() as int;
    assert(l == lab + " <"@ + author + "> "@ + message);
    assert(l.subrange(0, 3) == lab);
    assert(l.subrange(3, 5) == " <"@);
    assert(l.subrange(5, 5 + a) == author);
    assert(l.subrange(5 + a, 7 + a) == "> "@);
    assert(l.skip(7 + a) == message);
}

impl ChatSource {
    /// The label of the source in a chat line.
    pub fn label(&self) -> (r: &'static str)
        ensures
            r@ == spec_source_label(*self),
    {
        match self {
            ChatSource::YoutubeLive => "Yt ",
            ChatSource::Twitch => "TTv",
            ChatSource::IRC => "IRC",
            ChatSource::Dummy => "DMY",
            ChatSource::Stdin => "STD",
        }
    }

    /// The name of the source, as `{:?}` prints it.
    pub fn debug_name(&self) -> (r: &'static str)
        ensures
            r@ == spec_debug_name(*self),
    {
        match self {
            ChatSource::YoutubeLive => "YoutubeLive",
            ChatSource::Twitch => "Twitch",
            ChatSource::IRC => "IRC",
            ChatSource::Dummy => "Dummy",
            ChatSource::Stdin => "Stdin",
        }
    }
}

/// The console text of a chat message.
pub fn format_chat(ce: &ChatEvent) -> (r: String)
    ensures
        r@ == spec_chat_line(ce.src, ce.author@, ce.message@),
{
    let mut r = String::from_str(ce.src.label());
    r.append(" <");
    r.append(ce.author.as_str());
    r.append("> ");
    r.append(ce.message.as_str());
    r
}

/// What the console shows for an event: chat messages and errors on
/// standard output, notices on standard error, nothing for commands.
pub fn console_line(event: &Event) -> (r: Option<ConsoleLine>)
    ensures
        match event@ {
            EventView::Chat { chat } => r is Some && r->0.stream == Stream::Stdout
                && r->0.text@ == spec_chat_line(chat.src, chat.author, chat.message),
            EventView::Error { err } => r is Some && r->0.stream == Stream::Stdout
                && r->0.text@ == err,
            EventView::Info { msg, src } => r is Some && r->0.stream == Stream::Stderr
                && r->0.text@ == spec_info_line(msg, src),
            EventView::Command { .. } => r is None,
        },
{
    match event {
        Event::Chat { chat } => Some(ConsoleLine { stream: Stream::Stdout, text: format_chat(chat) }),
        Event::Error { err } => Some(ConsoleLine { stream: Stream::Stdout, text: err.clone() }),
        Event::Info { msg, src } => {
            let mut t = String::from_str("<");
            match src {
                Some(s) => t.append(s.debug_name()),
                None => {},
            }
            t.append("> ");
            t.append(msg.as_str());
            Some(ConsoleLine { stream: Stream::Stderr, text: t })
        },
        Event::Command { .. } => None,
    }
}

} // verus!
