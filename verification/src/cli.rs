//! The command line of the command-line client:
//! `rutify-cli [--server <URL>] <COMMAND> [ARGS]`.

use crate::args::{
    is_option_like, lex, line_view, looks_like_option, read_word, CliError, CliErrorView, Word,
    WordView,
};
use crate::text::{optional_text, text_eq};
use vstd::prelude::*;

verus! {

/// The server that is addressed where none is named.
pub const DEFAULT_SERVER: &'static str = "http://127.0.0.1:3000";

/// What the client is asked to do.
#[derive(Debug, Clone, PartialEq, Eq)]
pub enum Commands {
    /// Get all notifications.
    Notifies,
    /// Get server statistics.
    Stats,
    /// Send a notification.
    Send { message: String, title: Option<String>, device: Option<String> },
    /// Listen for notifications.
    Listen,
    /// Send a notification and listen for the response.
    SendAndListen { message: String, title: Option<String>, device: Option<String> },
    /// List available devices.
    Devices,
    /// Server health check.
    Health,
}

/// `Commands` over sequences of characters.
pub enum CommandsView {
    Notifies,
    Stats,
    Send { message: Seq<char>, title: Option<Seq<char>>, device: Option<Seq<char>> },
    Listen,
    SendAndListen { message: Seq<char>, title: Option<Seq<char>>, device: Option<Seq<char>> },
    Devices,
    Health,
}

impl View for Commands {
    type V = CommandsView;

    open spec fn view(&self) -> CommandsView {
        match self {
            Commands::Notifies => CommandsView::Notifies,
            Commands::Stats => CommandsView::Stats,
            Commands::Send { message, title, device } => CommandsView::Send {
                message: message@,
                title: optional_text(*title),
                device: optional_text(*device),
            },
            Commands::Listen => CommandsView::Listen,
            Commands::SendAndListen { message, title, device } => CommandsView::SendAndListen {
                message: message@,
                title: optional_text(*title),
                device: optional_text(*device),
            },
            Commands::Devices => CommandsView::Devices,
            Commands::Health => CommandsView::Health,
        }
    }
}

/// A command line that was understood.
#[derive(Debug, Clone, PartialEq, Eq)]
pub struct Cli {
    pub server: String,
    pub command: Commands,
}

/// `Cli` over sequences of characters.
pub struct CliView {
    pub server: Seq<char>,
    pub command: CommandsView,
}

impl View for Cli {
    type V = CliView;

    open spec fn view(&self) -> CliView {
        CliView { server: self.server@, command: self.command@ }
    }
}

/// The name of a command.
#[derive(Debug, Clone, Copy, PartialEq, Eq, Structural)]
pub enum Verb {
    Notifies,
    Stats,
    Send,
    Listen,
    SendAndListen,
    Devices,
    Health,
}

/// A value that an option or a position fills.
#[derive(Debug, Clone, Copy, PartialEq, Eq, Structural)]
pub enum Slot {
    Server,
    Message,
    Title,
    Device,
}

/// The command that a word names.
pub open spec fn verb_named(name: Seq<char>) -> Option<Verb> {
    if name == "notifies"@ {
        Some(Verb::Notifies)
    } else if name == "stats"@ {
        Some(Verb::Stats)
    } else if name == "send"@ {
        Some(Verb::Send)
    } else if name == "listen"@ {
        Some(Verb::Listen)
    } else if name == "send-and-listen"@ {
        Some(Verb::SendAndListen)
    } else if name == "devices"@ {
        Some(Verb::Devices)
    } else if name == "health"@ {
        Some(Verb::Health)
    } else {
        None
    }
}

/// The name under which a slot is reported.
pub open spec fn slot_name(slot: Slot) -> Seq<char> {
    match slot {
        Slot::Server => "server"@,
        Slot::Message => "message"@,
        Slot::Title => "title"@,
        Slot::Device => "device"@,
    }
}

/// The slot of a long option, where the option is known: `--server` before
/// the command, `--title` and `--device` after `send` and `send-and-listen`,
/// `--message` after `send-and-listen`.
pub open spec fn long_slot(verb: Option<Verb>, name: Seq<char>) -> Option<Slot> {
    match verb {
        None => if name == "server"@ {
            Some(Slot::Server)
        } else {
            None
        },
        Some(Verb::Send) => if name == "title"@ {
            Some(Slot::Title)
        } else if name == "device"@ {
            Some(Slot::Device)
        } else {
            None
        },
        Some(Verb::SendAndListen) => if name == "message"@ {
            Some(Slot::Message)
        } else if name == "title"@ {
            Some(Slot::Title)
        } else if name == "device"@ {
            Some(Slot::Device)
        } else {
            None
        },
        Some(_) => None,
    }
}

/// The slot of a short option, where the option is known: `-s` before the command.
pub open spec fn short_slot(verb: Option<Verb>, flag: char) -> Option<Slot> {
    if verb is None && flag == 's' {
        Some(Slot::Server)
    } else {
        None
    }
}

/// What has been understood of a command line so far.
pub struct Parsing {
    pub error: Option<CliError>,
    /// `--` has been read: every further word is a value.
    pub literal: bool,
    /// The option whose value comes next.
    pub pending: Option<Slot>,
    pub verb: Option<Verb>,
    pub server: Option<String>,
    pub message: Option<String>,
    pub title: Option<String>,
    pub device: Option<String>,
}

/// `Parsing` over sequences of characters.
pub struct ParsingView {
    pub error: Option<CliErrorView>,
    pub literal: bool,
    pub pending: Option<Slot>,
    pub verb: Option<Verb>,
    pub server: Option<Seq<char>>,
    pub message: Option<Seq<char>>,
    pub title: Option<Seq<char>>,
    pub device: Option<Seq<char>>,
}

impl View for Parsing {
    type V = ParsingView;

    open spec fn view(&self) -> ParsingView {
        ParsingView {
            error: match self.error {
                Some(error) => Some(error@),
                None => None,
            },
            literal: self.literal,
            pending: self.pending,
            verb: self.verb,
            server: optional_text(self.server),
            message: optional_text(self.message),
            title: optional_text(self.title),
            device: optional_text(self.device),
        }
    }
}

/// Nothing has been read.
pub open spec fn nothing_read() -> ParsingView {
    ParsingView {
        error: None,
        literal: false,
        pending: None,
        verb: None,
        server: None,
        message: None,
        title: None,
        device: None,
    }
}

/// The value in a slot.
pub open spec fn slot_value(state: ParsingView, slot: Slot) -> Option<Seq<char>> {
    match slot {
        Slot::Server => state.server,
        Slot::Message => state.message,
        Slot::Title => state.title,
        Slot::Device => state.device,
    }
}

/// A value is put into a slot. A slot takes one value only.
pub open spec fn fill(state: ParsingView, slot: Slot, value: Seq<char>) -> ParsingView {
    if slot_value(state, slot) is Some {
        ParsingView { error: Some(CliErrorView::DuplicateArgument(slot_name(slot))), ..state }
    } else {
        match slot {
            Slot::Server => ParsingView { server: Some(value), ..state },
            Slot::Message => ParsingView { message: Some(value), ..state },
            Slot::Title => ParsingView { title: Some(value), ..state },
            Slot::Device => ParsingView { device: Some(value), ..state },
        }
    }
}

/// A value that stands by its position: the first names the command; after
/// `send` one more is the message; any other is one too many.
pub open spec fn place(state: ParsingView, value: Seq<char>) -> ParsingView {
    match state.verb {
        None => match verb_named(value) {
            Some(verb) => ParsingView { verb: Some(verb), ..state },
            None => ParsingView {
                error: Some(CliErrorView::UnknownSubcommand(value)),
                ..state
            },
        },
        Some(Verb::Send) => if state.message is None {
            ParsingView { message: Some(value), ..state }
        } else {
            ParsingView { error: Some(CliErrorView::UnexpectedValue(value)), ..state }
        },
        Some(_) => ParsingView { error: Some(CliErrorView::UnexpectedValue(value)), ..state },
    }
}

/// An option is taken: with its value where the word holds one, else the
/// next word is waited for.
pub open spec fn take_option(
    state: ParsingView,
    slot: Option<Slot>,
    value: Option<Seq<char>>,
    word: Seq<char>,
) -> ParsingView {
    match slot {
        None => ParsingView { error: Some(CliErrorView::UnknownArgument(word)), ..state },
        Some(slot) => match value {
            Some(value) => fill(state, slot, value),
            None => ParsingView { pending: Some(slot), ..state },
        },
    }
}

/// One more word is read. After the first error nothing changes.
pub open spec fn step(state: ParsingView, word: Seq<char>) -> ParsingView {
    if state.error is Some {
        state
    } else {
        match state.pending {
            Some(slot) => if looks_like_option(word) {
                ParsingView { error: Some(CliErrorView::MissingValue(slot_name(slot))), ..state }
            } else {
                fill(ParsingView { pending: None, ..state }, slot, word)
            },
            None => if state.literal {
                place(state, word)
            } else {
                match read_word(word) {
                    WordView::Positional(value) => place(state, value),
                    WordView::EndOfOptions => ParsingView { literal: true, ..state },
                    WordView::Long { name, value } => if name == "help"@ {
                        ParsingView { error: Some(CliErrorView::HelpRequested), ..state }
                    } else {
                        take_option(state, long_slot(state.verb, name), value, word)
                    },
                    WordView::Short { flag, value } => if flag == 'h' {
                        ParsingView { error: Some(CliErrorView::HelpRequested), ..state }
                    } else {
                        take_option(state, short_slot(state.verb, flag), value, word)
                    },
                }
            },
        }
    }
}

/// All words are read, one after the other.
pub open spec fn read_all(words: Seq<Seq<char>>) -> ParsingView
    decreases words.len(),
{
    if words.len() == 0 {
        nothing_read()
    } else {
        step(read_all(words.drop_last()), words.last())
    }
}

/// What the words that were read amount to.
pub open spec fn conclude(state: ParsingView) -> Result<CliView, CliErrorView> {
    let server = match state.server {
        Some(server) => server,
        None => DEFAULT_SERVER@,
    };
    match state.error {
        Some(error) => Err(error),
        None => match state.pending {
            Some(slot) => Err(CliErrorView::MissingValue(slot_name(slot))),
            None => match state.verb {
                None => Err(CliErrorView::MissingSubcommand),
                Some(Verb::Notifies) => Ok(CliView { server, command: CommandsView::Notifies }),
                Some(Verb::Stats) => Ok(CliView { server, command: CommandsView::Stats }),
                Some(Verb::Listen) => Ok(CliView { server, command: CommandsView::Listen }),
                Some(Verb::Devices) => Ok(CliView { server, command: CommandsView::Devices }),
                Some(Verb::Health) => Ok(CliView { server, command: CommandsView::Health }),
                Some(Verb::Send) => match state.message {
                    Some(message) => Ok(
                        CliView {
                            server,
                            command: CommandsView::Send {
                                message,
                                title: state.title,
                                device: state.device,
                            },
                        },
                    ),
                    None => Err(CliErrorView::MissingRequired("message"@)),
                },
                Some(Verb::SendAndListen) => match state.message {
                    Some(message) => Ok(
                        CliView {
                            server,
                            command: CommandsView::SendAndListen {
                                message,
                                title: state.title,
                                device: state.device,
                            },
                        },
                    ),
                    None => Err(CliErrorView::MissingRequired("message"@)),
                },
            },
        },
    }
}

/// What a command line means. Its first word is the program's name.
pub open spec fn parse(line: Seq<Seq<char>>) -> Result<CliView, CliErrorView> {
    if line.len() == 0 {
        conclude(nothing_read())
    } else {
        conclude(read_all(line.skip(1)))
    }
}

/// The view of the outcome of parsing.
pub open spec fn outcome_view(outcome: Result<Cli, CliError>) -> Result<CliView, CliErrorView> {
    match outcome {
        Ok(cli) => Ok(cli@),
        Err(error) => Err(error@),
    }
}

/// The command that a word names.
pub fn find_verb(name: &str) -> (verb: Option<Verb>)
    ensures
        verb == verb_named(name@),
{
    if text_eq(name, "notifies") {
        Some(Verb::Notifies)
    } else if text_eq(name, "stats") {
        Some(Verb::Stats)
    } else if text_eq(name, "send") {
        Some(Verb::Send)
    } else if text_eq(name, "listen") {
        Some(Verb::Listen)
    } else if text_eq(name, "send-and-listen") {
        Some(Verb::SendAndListen)
    } else if text_eq(name, "devices") {
        Some(Verb::Devices)
    } else if text_eq(name, "health") {
        Some(Verb::Health)
    } else {
        None
    }
}

/// The name under which a slot is reported.
pub fn name_of_slot(slot: Slot) -> (name: &'static str)
    ensures
        name@ == slot_name(slot),
{
    match slot {
        Slot::Server => "server",
        Slot::Message => "message",
        Slot::Title => "title",
        Slot::Device => "device",
    }
}

/// The slot of a long option, where the option is known.
pub fn find_long_slot(verb: Option<Verb>, name: &str) -> (slot: Option<Slot>)
    ensures
        slot == long_slot(verb, name@),
{
    match verb {
        None => if text_eq(name, "server") {
            Some(Slot::Server)
        } else {
            None
        },
        Some(Verb::Send) => if text_eq(name, "title") {
            Some(Slot::Title)
        } else if text_eq(name, "device") {
            Some(Slot::Device)
        } else {
            None
        },
        Some(Verb::SendAndListen) => if text_eq(name, "message") {
            Some(Slot::Message)
        } else if text_eq(name, "title") {
            Some(Slot::Title)
        } else if text_eq(name, "device") {
            Some(Slot::Device)
        } else {
            None
        },
        Some(_) => None,
    }
}

/// The slot of a short option, where the option is known.
pub fn find_short_slot(verb: Option<Verb>, flag: char) -> (slot: Option<Slot>)
    ensures
        slot == short_slot(verb, flag),
{
    if verb.is_none() && flag == 's' {
        Some(Slot::Server)
    } else {
        None
    }
}

impl Parsing {
    /// Nothing has been read.
    pub fn new() -> (state: Parsing)
        ensures
            state@ == nothing_read(),
    {
        Parsing {
            error: None,
            literal: false,
            pending: None,
            verb: None,
            server: None,
            message: None,
            title: None,
            device: None,
        }
    }

    /// Stops with an error.
    fn fail(self, error: CliError) -> (state: Parsing)
        ensures
            state@ == (ParsingView { error: Some(error@), ..self@ }),
    {
        Parsing { error: Some(error), ..self }
    }

    /// Puts a value into a slot.
    fn fill(self, slot: Slot, value: &str) -> (state: Parsing)
        ensures
            state@ == fill(self@, slot, value@),
    {
        let taken = match slot {
            Slot::Server => self.server.is_some(),
            Slot::Message => self.message.is_some(),
            Slot::Title => self.title.is_some(),
            Slot::Device => self.device.is_some(),
        };
        if taken {
            return self.fail(CliError::DuplicateArgument(String::from_str(name_of_slot(slot))));
        }
        let value = String::from_str(value);
        match slot {
            Slot::Server => Parsing { server: Some(value), ..self },
            Slot::Message => Parsing { message: Some(value), ..self },
            Slot::Title => Parsing { title: Some(value), ..self },
            Slot::Device => Parsing { device: Some(value), ..self },
        }
    }

    /// Takes a value that stands by its position.
    fn place(self, value: &str) -> (state: Parsing)
        ensures
            state@ == place(self@, value@),
    {
        match self.verb {
            None => match find_verb(value) {
                Some(verb) => Parsing { verb: Some(verb), ..self },
                None => self.fail(CliError::UnknownSubcommand(String::from_str(value))),
            },
            Some(Verb::Send) => if self.message.is_none() {
                Parsing { message: Some(String::from_str(value)), ..self }
            } else {
                self.fail(CliError::UnexpectedValue(String::from_str(value)))
            },
            Some(_) => self.fail(CliError::UnexpectedValue(String::from_str(value))),
        }
    }

    /// Takes an option.
    fn take_option(self, slot: Option<Slot>, value: &Option<String>, word: &str) -> (state: Parsing)
        ensures
            state@ == take_option(self@, slot, optional_text(*value), word@),
    {
        match slot {
            None => self.fail(CliError::UnknownArgument(String::from_str(word))),
            Some(slot) => match value {
                Some(value) => self.fill(slot, value.as_str()),
                None => Parsing { pending: Some(slot), ..self },
            },
        }
    }

    /// Reads one more word.
    pub fn step(self, word: &str) -> (state: Parsing)
        ensures
            state@ == step(self@, word@),
    {
        if self.error.is_some() {
            return self;
        }
        match self.pending {
            Some(slot) => {
                if is_option_like(word) {
                    self.fail(CliError::MissingValue(String::from_str(name_of_slot(slot))))
                } else {
                    let cleared = Parsing { pending: None, ..self };
                    cleared.fill(slot, word)
                }
            },
            None => {
                if self.literal {
                    return self.place(word);
                }
                match lex(word) {
                    Word::Positional(value) => self.place(value.as_str()),
                    Word::EndOfOptions => Parsing { literal: true, ..self },
                    Word::Long { name, value } => {
                        if text_eq(name.as_str(), "help") {
                            self.fail(CliError::HelpRequested)
                        } else {
                            let slot = find_long_slot(self.verb, name.as_str());
                            self.take_option(slot, &value, word)
                        }
                    },
                    Word::Short { flag, value } => {
                        if flag == 'h' {
                            self.fail(CliError::HelpRequested)
                        } else {
                            let slot = find_short_slot(self.verb, flag);
                            self.take_option(slot, &value, word)
                        }
                    },
                }
            },
        }
    }

    /// Says what the words that were read amount to.
    pub fn conclude(self) -> (outcome: Result<Cli, CliError>)
        ensures
            outcome_view(outcome) == conclude(self@),
    {
        if let Some(error) = self.error {
            return Err(error);
        }
        if let Some(slot) = self.pending {
            return Err(CliError::MissingValue(String::from_str(name_of_slot(slot))));
        }
        let server = match self.server {
            Some(server) => server,
            None => String::from_str(DEFAULT_SERVER),
        };
        match self.verb {
            None => Err(CliError::MissingSubcommand),
            Some(Verb::Notifies) => Ok(Cli { server, command: Commands::Notifies }),
            Some(Verb::Stats) => Ok(Cli { server, command: Commands::Stats }),
            Some(Verb::Listen) => Ok(Cli { server, command: Commands::Listen }),
            Some(Verb::Devices) => Ok(Cli { server, command: Commands::Devices }),
            Some(Verb::Health) => Ok(Cli { server, command: Commands::Health }),
            Some(Verb::Send) => match self.message {
                Some(message) => Ok(
                    Cli {
                        server,
                        command: Commands::Send {
                            message,
                            title: self.title,
                            device: self.device,
                        },
                    },
                ),
                None => Err(CliError::MissingRequired(String::from_str("message"))),
            },
            Some(Verb::SendAndListen) => match self.message {
                Some(message) => Ok(
                    Cli {
                        server,
                        command: Commands::SendAndListen {
                            message,
                            title: self.title,
                            device: self.device,
                        },
                    },
                ),
                None => Err(CliError::MissingRequired(String::from_str("message"))),
            },
        }
    }
}

impl Cli {
    /// Reads a command line, whose first word is the program's name.
    pub fn try_parse_from(args: Vec<&str>) -> (outcome: Result<Cli, CliError>)
        ensures
            outcome_view(outcome) == parse(line_view(args@)),
    {
        let mut state = Parsing::new();
        let mut i: usize = 1;
        let ghost words = line_view(args@).skip(1);
        if args.len() == 0 {
            return state.conclude();
        }
        while i < args.len()
            invariant
                1 <= i <= args.len(),
                words == line_view(args@).skip(1),
                state@ == read_all(words.take(i - 1)),
            decreases args.len() - i,
        {
            proof {
                assert(words.take(i as int).drop_last() =~= words.take(i - 1));
            }
            state = state.step(args[i]);
            i += 1;
        }
        assert(words.take(i - 1) =~= words);
        state.conclude()
    }
}

} // verus!
