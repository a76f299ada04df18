//! The IRC source: the events that IRC messages become.

use vstd::prelude::*;
use crate::event::{chat_event, is_chat_from, ChatSource, Event, EventView};

verus! {

/// The command of an IRC message, as far as the source reads it.
#[derive(Clone, Debug, PartialEq)]
pub enum IrcCommand {
    /// A message `text` to `target`.
    Privmsg { target: String, text: String },
    /// Someone joined the channels `chanlist`.
    Join { chanlist: String, chankeys: Option<String>, real_name: Option<String> },
    Other,
}

/// An IRC message: the nickname of its sender, if any, and its command.
#[derive(Clone, Debug, PartialEq)]
pub struct IrcMessage {
    pub source_nickname: Option<String>,
    pub command: IrcCommand,
}

/// The author of an IRC message: its sender's nickname, or `anon`.
pub open spec fn spec_irc_author(msg: IrcMessage) -> Seq<char> {
    match msg.source_nickname {
        Some(n) => n@,
        None => "anon"@,
    }
}

/// The author of an IRC chat message is the sender's nickname exactly,
/// whatever its length; only a missing nickname gives `anon`.
pub proof fn lemma_irc_author_is_nickname(msg: IrcMessage)
    ensures
        msg.source_nickname is Some ==> spec_irc_author(msg) == msg.source_nickname->0@,
        msg.source_nickname is None ==> spec_irc_author(msg) == "anon"@,
{
}

/// The event for an IRC message: a chat message from IRC for a message to
/// a channel, a notice for a join (naming the real name when there is one,
/// else the channels), nothing for anything else.
pub fn irc_event(msg: IrcMessage) -> (r: Option<Event>)
    ensures
        match msg.command {
            IrcCommand::Privmsg { target, text } => r is Some && is_chat_from(
                r->0@,
                ChatSource::IRC,
                spec_irc_author(msg),
                text@,
            ) && r->0@->chat.ts.secs >= 0 && r->0@->chat.ts.nanos < 1_000_000_000,
            IrcCommand::Join { chanlist, chankeys, real_name } => r is Some && r->0@ == (
            EventView::Info {
                msg: "joined channel "@ + match real_name {
                    Some(n) => n@,
                    None => chanlist@,
                },
                src: Some(ChatSource::IRC),
            }),
            IrcCommand::Other => r is None,
        },
{
    let author = match &msg.source_nickname {
        Some(n) => n.clone(),
        None => String::from_str("anon"),
    };
    match msg.command {
        IrcCommand::Privmsg { target, text } => Some(chat_event(ChatSource::IRC, author, text)),
        IrcCommand::Join { chanlist, chankeys, real_name } => {
            let mut m = String::from_str("joined channel ");
            match real_name {
                Some(n) => m.append(n.as_str()),
                None => m.append(chanlist.as_str()),
            }
            Some(Event::Info { msg: m, src: Some(ChatSource::IRC) })
        },
        IrcCommand::Other => None,
    }
}

} // verus!
