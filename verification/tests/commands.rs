use stream_chat::commands::{parse_commands, ActivatedCommands, CommandMiddleware};
use stream_chat::event::{ChatEvent, ChatSource, Command, Event, Timestamp};

fn tts(n: usize) -> Vec<ActivatedCommands> {
    vec![ActivatedCommands::TTS { max_length: n }]
}

fn chat(message: &str) -> Event {
    Event::Chat {
        chat: ChatEvent {
            src: ChatSource::Twitch,
            ts: Timestamp { secs: 1, nanos: 2 },
            author: "someone".to_string(),
            message: message.to_string(),
        },
    }
}

#[test]
fn prefix_of_tts() {
    assert_eq!(ActivatedCommands::TTS { max_length: 3 }.prefix(), "!tts ");
}

#[test]
fn get_command_respects_byte_limit() {
    let c = ActivatedCommands::TTS { max_length: 4 };
    assert_eq!(c.get_command("abcd".to_string()), Some(Command::TTS("abcd".to_string())));
    assert_eq!(c.get_command("abcde".to_string()), None);
    // "éé" is four bytes, "ééé" six.
    assert_eq!(c.get_command("éé".to_string()), Some(Command::TTS("éé".to_string())));
    assert_eq!(c.get_command("ééé".to_string()), None);
    assert_eq!(c.get_command(String::new()), Some(Command::TTS(String::new())));
}

#[test]
fn parse_plain_command() {
    assert_eq!(parse_commands(&tts(600), "!tts hello"), Some(Command::TTS("hello".to_string())));
}

#[test]
fn parse_trims_message() {
    assert_eq!(
        parse_commands(&tts(600), " \t!tts hello world \n"),
        Some(Command::TTS("hello world".to_string()))
    );
}

#[test]
fn parse_without_prefix() {
    assert_eq!(parse_commands(&tts(600), "hello !tts x"), None);
    assert_eq!(parse_commands(&tts(600), "!ttshello"), None);
    assert_eq!(parse_commands(&tts(600), "!tts"), None);
    assert_eq!(parse_commands(&tts(600), ""), None);
}

#[test]
fn parse_prefix_only_gives_empty_text() {
    // the trimmed message "!tts" lacks the space, "!tts  x" keeps inner space
    assert_eq!(parse_commands(&tts(600), "!tts  x"), Some(Command::TTS(" x".to_string())));
}

#[test]
fn parse_limit_in_bytes() {
    let ok = format!("!tts {}", "é".repeat(300));
    let long = format!("!tts {}", "é".repeat(301));
    assert_eq!(parse_commands(&tts(600), &ok), Some(Command::TTS("é".repeat(300))));
    assert_eq!(parse_commands(&tts(600), &long), None);
    let ascii_ok = format!("!tts {}", "a".repeat(600));
    let ascii_long = format!("!tts {}", "a".repeat(601));
    assert!(parse_commands(&tts(600), &ascii_ok).is_some());
    assert!(parse_commands(&tts(600), &ascii_long).is_none());
}

#[test]
fn parse_no_commands() {
    assert_eq!(parse_commands(&vec![], "!tts hello"), None);
}

#[test]
fn parse_first_matching_command_decides() {
    let cmds = vec![ActivatedCommands::TTS { max_length: 1 }, ActivatedCommands::TTS { max_length: 100 }];
    assert_eq!(parse_commands(&cmds, "!tts hello"), None);
    let cmds = vec![ActivatedCommands::TTS { max_length: 100 }, ActivatedCommands::TTS { max_length: 1 }];
    assert_eq!(parse_commands(&cmds, "!tts hello"), Some(Command::TTS("hello".to_string())));
}

#[test]
fn parse_text_within_limit_of_matching_command() {
    let cmds = vec![ActivatedCommands::TTS { max_length: 8 }];
    for msg in ["!tts a", "!tts abcdefgh", "!tts abcdefghi", "  !tts ééé  ", "!tts éééé", "!tts éééé!"] {
        if let Some(Command::TTS(t)) = parse_commands(&cmds, msg) {
            assert!(t.len() <= 8);
            assert_eq!(format!("!tts {}", t), msg.trim());
        }
    }
}

#[test]
fn parse_ignores_surrounding_whitespace() {
    let cmds = tts(10);
    for msg in ["  !tts hi  ", "\u{3000}!tts yo\u{2028}", "x", " !tts  toolongtoolong "] {
        assert_eq!(parse_commands(&cmds, msg), parse_commands(&cmds, msg.trim()));
    }
}

#[test]
fn middleware_turns_chat_into_command() {
    let mw = CommandMiddleware::new(tts(600));
    assert_eq!(
        mw.on_event(&chat(" !tts read this")),
        Some(Event::Command { cmd: Command::TTS("read this".to_string()) })
    );
    assert_eq!(mw.on_event(&chat("just chatting")), None);
}

#[test]
fn middleware_ignores_other_events() {
    let mw = CommandMiddleware::new(tts(600));
    let info = Event::Info { msg: "!tts hi".to_string(), src: None };
    let err = Event::Error { err: "!tts hi".to_string() };
    let cmd = Event::Command { cmd: Command::TTS("hi".to_string()) };
    assert_eq!(mw.on_event(&info), None);
    assert_eq!(mw.on_event(&err), None);
    assert_eq!(mw.on_event(&cmd), None);
}

#[test]
fn compose_then_parse() {
    for (limit, text) in [(600usize, "hello"), (5, "hello"), (4, "éé"), (100, "  spaced  out"), (10, "a\tb")] {
        let msg = format!("!tts {}", text);
        assert_eq!(
            parse_commands(&tts(limit), &msg),
            Some(Command::TTS(text.to_string())),
            "{:?}",
            msg
        );
    }
}
