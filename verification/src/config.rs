//! The configuration: which modules run, and with which settings.

use vstd::prelude::*;
use crate::commands::ActivatedCommands;

verus! {

/// One module of the program and its settings.
#[derive(Clone, Debug, PartialEq)]
pub enum ModuleConfig {
    YoutubeSource(String),
    TwitchSource(String),
    IrcSource { nick_name: String, server: String, channel: String },
    DummySource,
    StdinSource,
    ConsoleDest,
    WebDest { interface: String, port: u16 },
    SqliteDest,
    CommandMiddleware(Vec<ActivatedCommands>),
}

/// The mathematical model of a module's configuration.
pub enum ModuleConfigView {
    YoutubeSource(Seq<char>),
    TwitchSource(Seq<char>),
    IrcSource { nick_name: Seq<char>, server: Seq<char>, channel: Seq<char> },
    DummySource,
    StdinSource,
    ConsoleDest,
    WebDest { interface: Seq<char>, port: u16 },
    SqliteDest,
    CommandMiddleware(Seq<ActivatedCommands>),
}

impl View for ModuleConfig {
    type V = ModuleConfigView;

    open spec fn view(&self) -> ModuleConfigView {
        match self {
            ModuleConfig::YoutubeSource(c) => ModuleConfigView::YoutubeSource(c@),
            ModuleConfig::TwitchSource(c) => ModuleConfigView::TwitchSource(c@),
            ModuleConfig::IrcSource { nick_name, server, channel } => ModuleConfigView::IrcSource {
                nick_name: nick_name@,
                server: server@,
                channel: channel@,
            },
            ModuleConfig::DummySource => ModuleConfigView::DummySource,
            ModuleConfig::StdinSource => ModuleConfigView::StdinSource,
            ModuleConfig::ConsoleDest => ModuleConfigView::ConsoleDest,
            ModuleConfig::WebDest { interface, port } => ModuleConfigView::WebDest {
                interface: interface@,
                port: *port,
            },
            ModuleConfig::SqliteDest => ModuleConfigView::SqliteDest,
            ModuleConfig::CommandMiddleware(cmds) => ModuleConfigView::CommandMiddleware(cmds@),
        }
    }
}

/// The name of a module, which is the name of its configuration variant.
pub open spec fn spec_module_name(c: ModuleConfigView) -> Seq<char> {
    match c {
        ModuleConfigView::YoutubeSource(_) => "YoutubeSource"@,
        ModuleConfigView::TwitchSource(_) => "TwitchSource"@,
        ModuleConfigView::IrcSource { .. } => "IrcSource"@,
        ModuleConfigView::DummySource => "DummySource"@,
        ModuleConfigView::StdinSource => "StdinSource"@,
        ModuleConfigView::ConsoleDest => "ConsoleDest"@,
        ModuleConfigView::WebDest { .. } => "WebDest"@,
        ModuleConfigView::SqliteDest => "SqliteDest"@,
        ModuleConfigView::CommandMiddleware(_) => "CommandMiddleware"@,
    }
}

/// The configuration that the `init` subcommand writes: an IRC source, a
/// Twitch source, the web page, the console, the database and text to
/// speech for texts of up to 600 bytes.
pub open spec fn spec_default_config() -> Seq<ModuleConfigView> {
    seq![
        ModuleConfigView::IrcSource {
            nick_name: "stream-chat"@,
            server: "irc.libera.chat"@,
            channel: "##tiim"@,
        },
        ModuleConfigView::TwitchSource("tiim_b"@),
        ModuleConfigView::WebDest { interface: "127.0.0.1"@, port: 10888 },
        ModuleConfigView::ConsoleDest,
        ModuleConfigView::SqliteDest,
        ModuleConfigView::CommandMiddleware(seq![ActivatedCommands::TTS { max_length: 600 }]),
    ]
}

impl ModuleConfig {
    /// The name of the module, as the log of loaded modules shows it.
    pub fn name(&self) -> (r: &'static str)
        ensures
            r@ == spec_module_name(self@),
    {
        match self {
            ModuleConfig::YoutubeSource(_) => "YoutubeSource",
            ModuleConfig::TwitchSource(_) => "TwitchSource",
            ModuleConfig::IrcSource { .. } => "IrcSource",
            ModuleConfig::DummySource => "DummySource",
            ModuleConfig::StdinSource => "StdinSource",
            ModuleConfig::ConsoleDest => "ConsoleDest",
            ModuleConfig::WebDest { .. } => "WebDest",
            ModuleConfig::SqliteDest => "SqliteDest",
            ModuleConfig::CommandMiddleware(_) => "CommandMiddleware",
        }
    }
}

/// The configuration that `init` writes to a fresh configuration file.
pub fn default_config() -> (r: Vec<ModuleConfig>)
    ensures
        r@.len() == spec_default_config().len(),
        forall|i: int| 0 <= i < r@.len() ==> #[trigger] r@[i]@ == spec_default_config()[i],
{
    let mut r: Vec<ModuleConfig> = Vec::new();
    r.push(ModuleConfig::IrcSource {
        nick_name: String::from_str("stream-chat"),
        server: String::from_str("irc.libera.chat"),
        channel: String::from_str("##tiim"),
    });
    r.push(ModuleConfig::TwitchSource(String::from_str("tiim_b")));
    r.push(ModuleConfig::WebDest { interface: String::from_str("127.0.0.1"), port: 10888 });
    r.push(ModuleConfig::ConsoleDest);
    r.push(ModuleConfig::SqliteDest);
    let mut cmds: Vec<ActivatedCommands> = Vec::new();
    cmds.push(ActivatedCommands::TTS { max_length: 600 });
    assert(cmds@ == seq![ActivatedCommands::TTS { max_length: 600 }]);
    r.push(ModuleConfig::CommandMiddleware(cmds));
    r
}

} // verus!
