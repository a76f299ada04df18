//! Chat commands: which ones are switched on, and how a chat message asks
//! for one.

use vstd::prelude::*;
use crate::event::{Command, CommandView, Event, EventView};
use crate::text::{is_prefix, starts_with, trim, trim_str, utf8_len, utf8_len_at_most};

verus! {

/// A command that the configuration switches on, with its settings.
#[derive(Clone, Copy, Debug, PartialEq, Eq, Structural)]
pub enum ActivatedCommands {
    /// Text to speech, for texts of at most `max_length` bytes.
    TTS { max_length: usize },
}

/// The text that introduces the command in a chat message.
pub open spec fn spec_prefix(c: ActivatedCommands) -> Seq<char> {
    match c {
        ActivatedCommands::TTS { .. } => "!tts "@,
    }
}

/// The command that `args` (the text after the prefix) makes of `c`:
/// a text to speech command when its UTF-8 encoding fits in `max_length`
/// bytes, none otherwise.
pub open spec fn spec_get_command(c: ActivatedCommands, args: Seq<char>) -> Option<CommandView> {
    match c {
        ActivatedCommands::TTS { max_length } => if utf8_len(args) <= max_length {
            Some(CommandView::TTS(args))
        } else {
            None
        },
    }
}

/// The command of the first of `cmds` whose prefix starts `t`; none when no
/// prefix does.
pub open spec fn first_match(cmds: Seq<ActivatedCommands>, t: Seq<char>) -> Option<CommandView>
    decreases cmds.len(),
{
    if cmds.len() == 0 {
        None
    } else if is_prefix(spec_prefix(cmds[0]), t) {
        spec_get_command(cmds[0], t.skip(spec_prefix(cmds[0]).len() as int))
    } else {
        first_match(cmds.drop_first(), t)
    }
}

/// What `parse_commands` makes of the message `s`: the message is trimmed,
/// then matched against the prefixes of `cmds` in order.
pub open spec fn spec_parse_commands(cmds: Seq<ActivatedCommands>, s: Seq<char>) -> Option<CommandView> {
    first_match(cmds, trim(s))
}

/// The model of an optional command.
pub open spec fn opt_command_view(c: Option<Command>) -> Option<CommandView> {
    match c {
        Some(c) => Some(c@),
        None => None,
    }
}

/// A text to speech command never carries more bytes than the limit of the
/// activated command that recognised it, and its text is what follows that
/// command's prefix in the trimmed message.
pub proof fn lemma_command_within_limit(cmds: Seq<ActivatedCommands>, s: Seq<char>, text: Seq<char>)
    requires
        spec_parse_commands(cmds, s) == Some(CommandView::TTS(text)),
    ensures
        exists|i: int|
            #![trigger cmds[i]]
            0 <= i < cmds.len() && utf8_len(text) <= cmds[i]->max_length && trim(s)
                == spec_prefix(cmds[i]) + text,
{
    lemma_first_match_within_limit(cmds, trim(s), text);
}

proof fn lemma_first_match_within_limit(cmds: Seq<ActivatedCommands>, t: Seq<char>, text: Seq<char>)
    requires
        first_match(cmds, t) == Some(CommandView::TTS(text)),
    ensures
        exists|i: int|
            #![trigger cmds[i]]
            0 <= i < cmds.len() && utf8_len(text) <= cmds[i]->max_length && t == spec_prefix(cmds[i])
                + text,
    decreases cmds.len(),
{
    if is_prefix(spec_prefix(cmds[0]), t) {
        let p = spec_prefix(cmds[0]);
        assert(t == p + t.skip(p.len() as int));
        assert(0 <= 0 < cmds.len() && utf8_len(text) <= cmds[0]->max_length && t == spec_prefix(cmds[0]) + text);
    } else {
        let rest = cmds.drop_first();
        lemma_first_match_within_limit(rest, t, text);
        let j = choose|j: int|
            #![trigger rest[j]]
            0 <= j < rest.len() && utf8_len(text) <= rest[j]->max_length && t == spec_prefix(rest[j]) + text;
        assert(cmds[j + 1] == rest[j]);
    }
}

/// Whitespace around a chat message does not change the command it asks
/// for.
pub proof fn lemma_parse_ignores_surrounding_whitespace(cmds: Seq<ActivatedCommands>, s: Seq<char>)
    ensures
        spec_parse_commands(cmds, trim(s)) == spec_parse_commands(cmds, s),
{
    crate::text::lemma_trim_idempotent(s);
}

/// A message written as the text to speech prefix followed by a text that
/// fits the limit, and that does not end in whitespace, is recognised as
/// that very text.
pub proof fn lemma_compose_then_parse(max_length: usize, text: Seq<char>)
    requires
        utf8_len(text) <= max_length,
        text.len() > 0,
        !crate::text::is_ws(text.last()),
    ensures
        spec_parse_commands(seq![ActivatedCommands::TTS { max_length }], "!tts "@ + text) == Some(
            CommandView::TTS(text),
        ),
{
    reveal_strlit("!tts ");
    let p = "!tts "@;
    let m = p + text;
    let cmds = seq![ActivatedCommands::TTS { max_length }];
    assert(m[0] == '!');
    assert(m.last() == text.last());
    assert(crate::text::trim_start(m) == m);
    assert(crate::text::trim_end(m) == m);
    assert(m.subrange(0, p.len() as int) == p);
    assert(m.skip(p.len() as int) == text);
    assert(cmds[0] == ActivatedCommands::TTS { max_length });
}

impl ActivatedCommands {
    /// The text that introduces this command in a chat message.
    pub fn prefix(&self) -> (r: &'static str)
        ensures
            r@ == spec_prefix(*self),
    {
        match self {
            ActivatedCommands::TTS { .. } => "!tts ",
        }
    }

    /// The command that `args`, the text after the prefix, asks for.
    pub fn get_command(&self, args: String) -> (r: Option<Command>)
        ensures
            opt_command_view(r) == spec_get_command(*self, args@),
    {
        match self {
            ActivatedCommands::TTS { max_length } => {
                if utf8_len_at_most(args.as_str(), *max_length) {
                    Some(Command::TTS(args))
                } else {
                    None
                }
            },
        }
    }
}

/// The command that the chat message `str` asks for, if any: the message is
/// trimmed, and the first command of `cmds` whose prefix starts it decides;
/// later commands are not tried.
pub fn parse_commands(cmds: &Vec<ActivatedCommands>, str: &str) -> (r: Option<Command>)
    ensures
        opt_command_view(r) == spec_parse_commands(cmds@, str@),
{
    let str_trim = trim_str(str);
    let ghost t = str_trim@;
    let mut i: usize = 0;
    assert(cmds@.skip(0) == cmds@);
    while i < cmds.len()
        invariant
            t == trim(str@),
            t == str_trim@,
            i <= cmds.len(),
            first_match(cmds@, t) == first_match(cmds@.skip(i as int), t),
        decreases cmds.len() - i,
    {
        let cmd = &cmds[i];
        let prefix = cmd.prefix();
        let ghost rest_cmds = cmds@.skip(i as int);
        assert(rest_cmds[0] == cmds@[i as int]);
        assert(rest_cmds.drop_first() == cmds@.skip(i + 1));
        if starts_with(str_trim, prefix) {
            let k = prefix.unicode_len();
            let n = str_trim.unicode_len();
            let rest = str_trim.substring_char(k, n);
            assert(t.subrange(k as int, n as int) == t.skip(k as int));
            return cmd.get_command(rest.to_owned());
        }
        i = i + 1;
    }
    assert(cmds@.skip(i as int).len() == 0);
    None
}

/// Turns chat messages into the commands that they ask for.
pub struct CommandMiddleware {
    pub cmds: Vec<ActivatedCommands>,
}

impl CommandMiddleware {
    /// A middleware that recognises the commands `cmds`.
    pub fn new(cmds: Vec<ActivatedCommands>) -> (r: Self)
        ensures
            r.cmds@ == cmds@,
    {
        CommandMiddleware { cmds }
    }

    /// What the middleware sends on when `event` arrives: for a chat message
    /// that asks for a command, that command; for anything else, nothing.
    pub fn on_event(&self, event: &Event) -> (r: Option<Event>)
        ensures
            event@ is Chat ==> match spec_parse_commands(self.cmds@, event@->chat.message) {
                Some(c) => r is Some && r->0@ == (EventView::Command { cmd: c }),
                None => r is None,
            },
            !(event@ is Chat) ==> r is None,
    {
        match event {
            Event::Chat { chat } => match parse_commands(&self.cmds, chat.message.as_str()) {
                Some(cmd) => Some(Event::Command { cmd }),
                None => None,
            },
            _ => None,
        }
    }
}

} // verus!
