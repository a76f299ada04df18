use stream_chat::commands::ActivatedCommands;
use stream_chat::config::{default_config, ModuleConfig};
use stream_chat::console::{console_line, format_chat, ConsoleLine, Stream};
use stream_chat::event::{ChatEvent, ChatSource, Command, Event, Timestamp};
use stream_chat::web::{database_url, SseFeed};

fn chat(src: ChatSource) -> ChatEvent {
    ChatEvent { src, ts: Timestamp { secs: 0, nanos: 0 }, author: "ann".to_string(), message: "hi there".to_string() }
}

#[test]
fn chat_lines_carry_source_labels() {
    let expected = [
        (ChatSource::YoutubeLive, "Yt  <ann> hi there"),
        (ChatSource::Twitch, "TTv <ann> hi there"),
        (ChatSource::IRC, "IRC <ann> hi there"),
        (ChatSource::Dummy, "DMY <ann> hi there"),
        (ChatSource::Stdin, "STD <ann> hi there"),
    ];
    for (src, line) in expected {
        assert_eq!(format_chat(&chat(src)), line);
        assert_eq!(
            console_line(&Event::Chat { chat: chat(src) }),
            Some(ConsoleLine { stream: Stream::Stdout, text: line.to_string() })
        );
    }
}

#[test]
fn errors_and_notices_on_the_console() {
    assert_eq!(
        console_line(&Event::Error { err: "boom".to_string() }),
        Some(ConsoleLine { stream: Stream::Stdout, text: "boom".to_string() })
    );
    assert_eq!(
        console_line(&Event::Info { msg: "joined channel x".to_string(), src: Some(ChatSource::Twitch) }),
        Some(ConsoleLine { stream: Stream::Stderr, text: "<Twitch> joined channel x".to_string() })
    );
    assert_eq!(
        console_line(&Event::Info { msg: "Connected".to_string(), src: None }),
        Some(ConsoleLine { stream: Stream::Stderr, text: "<> Connected".to_string() })
    );
}

#[test]
fn debug_names_match_debug() {
    for s in [ChatSource::YoutubeLive, ChatSource::Twitch, ChatSource::IRC, ChatSource::Dummy, ChatSource::Stdin] {
        assert_eq!(s.debug_name(), format!("{:?}", s));
    }
}

#[test]
fn commands_not_shown() {
    assert_eq!(console_line(&Event::Command { cmd: Command::TTS("hi".to_string()) }), None);
}

#[test]
fn feed_greets_once() {
    let mut f = SseFeed::new();
    assert_eq!(f.greeting(), Some(Event::Info { msg: "Connected".to_string(), src: None }));
    assert_eq!(f.greeting(), None);
    assert_eq!(f.greeting(), None);
}

#[test]
fn database_url_of_file() {
    assert_eq!(database_url("/tmp/data.db"), "sqlite:///tmp/data.db");
}

#[test]
fn default_configuration() {
    let c = default_config();
    assert_eq!(
        c,
        vec![
            ModuleConfig::IrcSource {
                nick_name: "stream-chat".to_string(),
                server: "irc.libera.chat".to_string(),
                channel: "##tiim".to_string(),
            },
            ModuleConfig::TwitchSource("tiim_b".to_string()),
            ModuleConfig::WebDest { interface: "127.0.0.1".to_string(), port: 10888 },
            ModuleConfig::ConsoleDest,
            ModuleConfig::SqliteDest,
            ModuleConfig::CommandMiddleware(vec![ActivatedCommands::TTS { max_length: 600 }]),
        ]
    );
}

#[test]
fn module_names() {
    let all = [
        (ModuleConfig::YoutubeSource("@x".to_string()), "YoutubeSource"),
        (ModuleConfig::TwitchSource("x".to_string()), "TwitchSource"),
        (ModuleConfig::IrcSource { nick_name: "n".to_string(), server: "s".to_string(), channel: "c".to_string() }, "IrcSource"),
        (ModuleConfig::DummySource, "DummySource"),
        (ModuleConfig::StdinSource, "StdinSource"),
        (ModuleConfig::ConsoleDest, "ConsoleDest"),
        (ModuleConfig::WebDest { interface: "127.0.0.1".to_string(), port: 1 }, "WebDest"),
        (ModuleConfig::SqliteDest, "SqliteDest"),
        (ModuleConfig::CommandMiddleware(vec![]), "CommandMiddleware"),
    ];
    for (c, n) in all {
        assert_eq!(c.name(), n);
    }
}
