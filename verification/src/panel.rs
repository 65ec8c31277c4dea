//! The management panel: its command line, and the state that it shows.

use crate::args::{
    is_option_like, lex, line_view, looks_like_option, read_word, CliError, CliErrorView, Word,
    WordView,
};
use crate::model::{
    DeviceInfo, NotifyEvent, NotifyEventView, NotifyItem, NotifyItemView, Stats, TokenItem,
};
use crate::sdk::client::RutifyClient;
use crate::text::{decimal_text, join3, optional_text, text_eq, u64_text};
use vstd::prelude::*;

verus! {

/// The server that the panel addresses where none is named.
pub const DEFAULT_SERVER: &'static str = "http://localhost:8080";

/// The command line of the panel: `rutify-panel [--server <URL>]`.
#[derive(Debug, Clone, PartialEq, Eq)]
pub struct Cli {
    pub server: String,
}

/// What has been understood of the panel's command line so far.
pub struct Parsing {
    pub error: Option<CliError>,
    /// `--` has been read: every further word is a value.
    pub literal: bool,
    /// The value of `--server` comes next.
    pub pending: bool,
    pub server: Option<String>,
}

/// `Parsing` over sequences of characters.
pub struct ParsingView {
    pub error: Option<CliErrorView>,
    pub literal: bool,
    pub pending: bool,
    pub server: Option<Seq<char>>,
}

impl View for Parsing {
    type V = ParsingView;

    open spec fn view(&self) -> ParsingView {
        ParsingView {
            error: match self.error {
                Some(error) => Some(error@),
                None => None,
            },
            literal: self.literal,
            pending: self.pending,
            server: optional_text(self.server),
        }
    }
}

/// Nothing has been read.
pub open spec fn nothing_read() -> ParsingView {
    ParsingView { error: None, literal: false, pending: false, server: None }
}

/// The server is named. It can be named once only.
pub open spec fn name_server(state: ParsingView, value: Seq<char>) -> ParsingView {
    if state.server is Some {
        ParsingView { error: Some(CliErrorView::DuplicateArgument("server"@)), ..state }
    } else {
        ParsingView { server: Some(value), ..state }
    }
}

/// An option is taken: `--server` or `-s`, with its value where the word
/// holds one; any other option is unknown.
pub open spec fn take_option(
    state: ParsingView,
    known: bool,
    value: Option<Seq<char>>,
    word: Seq<char>,
) -> ParsingView {
    if !known {
        ParsingView { error: Some(CliErrorView::UnknownArgument(word)), ..state }
    } else {
        match value {
            Some(value) => name_server(state, value),
            None => ParsingView { pending: true, ..state },
        }
    }
}

/// One more word is read. After the first error nothing changes. The panel
/// takes no value that stands by its position.
pub open spec fn step(state: ParsingView, word: Seq<char>) -> ParsingView {
    if state.error is Some {
        state
    } else if state.pending {
        if looks_like_option(word) {
            ParsingView { error: Some(CliErrorView::MissingValue("server"@)), ..state }
        } else {
            name_server(ParsingView { pending: false, ..state }, word)
        }
    } else if state.literal {
        ParsingView { error: Some(CliErrorView::UnexpectedValue(word)), ..state }
    } else {
        match read_word(word) {
            WordView::Positional(value) => ParsingView {
                error: Some(CliErrorView::UnexpectedValue(value)),
                ..state
            },
            WordView::EndOfOptions => ParsingView { literal: true, ..state },
            WordView::Long { name, value } => if name == "help"@ {
                ParsingView { error: Some(CliErrorView::HelpRequested), ..state }
            } else {
                take_option(state, name == "server"@, value, word)
            },
            WordView::Short { flag, value } => if flag == 'h' {
                ParsingView { error: Some(CliErrorView::HelpRequested), ..state }
            } else {
                take_option(state, flag == 's', value, word)
            },
        }
    }
}

/// All words are read, one after the other.
pub open spec fn read_all(words: Seq<Seq<char>>) -> ParsingView
    decreases words.len(),
{
    if words.len() == 0 {
        nothing_read()
    } else {
        step(read_all(words.drop_last()), words.last())
    }
}

/// What the words that were read amount to.
pub open spec fn conclude(state: ParsingView) -> Result<Seq<char>, CliErrorView> {
    match state.error {
        Some(error) => Err(error),
        None => if state.pending {
            Err(CliErrorView::MissingValue("server"@))
        } else {
            match state.server {
                Some(server) => Ok(server),
                None => Ok(DEFAULT_SERVER@),
            }
        },
    }
}

/// The server that a command line names. Its first word is the program's name.
pub open spec fn parse(line: Seq<Seq<char>>) -> Result<Seq<char>, CliErrorView> {
    if line.len() == 0 {
        conclude(nothing_read())
    } else {
        conclude(read_all(line.skip(1)))
    }
}

impl Parsing {
    /// Nothing has been read.
    pub fn new() -> (state: Parsing)
        ensures
            state@ == nothing_read(),
    {
        Parsing { error: None, literal: false, pending: false, server: None }
    }

    /// Stops with an error.
    fn fail(self, error: CliError) -> (state: Parsing)
        ensures
            state@ == (ParsingView { error: Some(error@), ..self@ }),
    {
        Parsing { error: Some(error), ..self }
    }

    /// Names the server.
    fn name_server(self, value: &str) -> (state: Parsing)
        ensures
            state@ == name_server(self@, value@),
    {
        if self.server.is_some() {
            self.fail(CliError::DuplicateArgument(String::from_str("server")))
        } else {
            Parsing { server: Some(String::from_str(value)), ..self }
        }
    }

    /// Takes an option.
    fn take_option(self, known: bool, value: &Option<String>, word: &str) -> (state: Parsing)
        ensures
            state@ == take_option(self@, known, optional_text(*value), word@),
    {
        if !known {
            self.fail(CliError::UnknownArgument(String::from_str(word)))
        } else {
            match value {
                Some(value) => self.name_server(value.as_str()),
                None => Parsing { pending: true, ..self },
            }
        }
    }

    /// Reads one more word.
    pub fn step(self, word: &str) -> (state: Parsing)
        ensures
            state@ == step(self@, word@),
    {
        if self.error.is_some() {
            return self;
        }
        if self.pending {
            if is_option_like(word) {
                return self.fail(CliError::MissingValue(String::from_str("server")));
            }
            let cleared = Parsing { pending: false, ..self };
            return cleared.name_server(word);
        }
        if self.literal {
            return self.fail(CliError::UnexpectedValue(String::from_str(word)));
        }
        match lex(word) {
            Word::Positional(value) => self.fail(CliError::UnexpectedValue(value)),
            Word::EndOfOptions => Parsing { literal: true, ..self },
            Word::Long { name, value } => {
                if text_eq(name.as_str(), "help") {
                    self.fail(CliError::HelpRequested)
                } else {
                    let known = text_eq(name.as_str(), "server");
                    self.take_option(known, &value, word)
                }
            },
            Word::Short { flag, value } => {
                if flag == 'h' {
                    self.fail(CliError::HelpRequested)
                } else {
                    self.take_option(flag == 's', &value, word)
                }
            },
        }
    }

    /// Says what the words that were read amount to.
    pub fn conclude(self) -> (outcome: Result<Cli, CliError>)
        ensures
            match outcome {
                Ok(cli) => conclude(self@) == Ok::<Seq<char>, CliErrorView>(cli.server@),
                Err(error) => conclude(self@) == Err::<Seq<char>, CliErrorView>(error@),
            },
    {
        if let Some(error) = self.error {
            return Err(error);
        }
        if self.pending {
            return Err(CliError::MissingValue(String::from_str("server")));
        }
        match self.server {
            Some(server) => Ok(Cli { server }),
            None => Ok(Cli { server: String::from_str(DEFAULT_SERVER) }),
        }
    }
}

impl Cli {
    /// Reads a command line, whose first word is the program's name.
    pub fn try_parse_from(args: Vec<&str>) -> (outcome: Result<Cli, CliError>)
        ensures
            match outcome {
                Ok(cli) => parse(line_view(args@)) == Ok::<Seq<char>, CliErrorView>(cli.server@),
                Err(error) => parse(line_view(args@)) == Err::<Seq<char>, CliErrorView>(error@),
            },
    {
        let mut state = Parsing::new();
        let mut i: usize = 1;
        let ghost words = line_view(args@).skip(1);
        if args.len() == 0 {
            return state.conclude();
        }
        while i < args.len()
            invariant
                1 <= i <= args.len(),
                words == line_view(args@).skip(1),
                state@ == read_all(words.take(i - 1)),
            decreases args.len() - i,
        {
            proof {
                assert(words.take(i as int).drop_last() =~= words.take(i - 1));
            }
            state = state.step(args[i]);
            i += 1;
        }
        assert(words.take(i - 1) =~= words);
        state.conclude()
    }
}

/// What the panel shows of the statistics.
#[derive(Debug, Clone, PartialEq, Eq)]
pub struct StatsPanel {
    pub today_count: i32,
    pub total_count: i32,
    pub device_count: i32,
    pub server_status: String,
    pub uptime: String,
}

/// The status line for a number of loaded notifications.
pub open spec fn loaded_line(count: nat) -> Seq<char> {
    "Loaded "@ + decimal_text(count as int) + " notifications"@
}

/// The word for whether the server runs.
pub open spec fn status_word(is_running: bool) -> Seq<char> {
    if is_running {
        "Running"@
    } else {
        "Stopped"@
    }
}

/// The status line that the panel shows for the notifications it holds.
pub fn update_notifications_ui(notifications: &Vec<NotifyItem>) -> (status: String)
    ensures
        status@ == loaded_line(notifications@.len()),
{
    let count = u64_text(notifications.len() as u64);
    join3("Loaded ", count.as_str(), " notifications")
}

/// What the panel shows of the statistics it holds; nothing where it holds none.
pub fn update_stats_ui(stats: &Option<Stats>) -> (shown: Option<StatsPanel>)
    ensures
        match shown {
            Some(panel) => stats matches Some(held) && panel.today_count == held.today_count
                && panel.total_count == held.total_count && panel.device_count
                == held.device_count && panel.server_status@ == status_word(held.is_running)
                && panel.uptime@ == "Unknown"@,
            None => stats is None,
        },
{
    match stats {
        Some(held) => Some(
            StatsPanel {
                today_count: held.today_count,
                total_count: held.total_count,
                device_count: held.device_count,
                server_status: String::from_str(
                    if held.is_running {
                        "Running"
                    } else {
                        "Stopped"
                    },
                ),
                uptime: String::from_str("Unknown"),
            },
        ),
        None => None,
    }
}

/// The listed form of an event that has just arrived: its id is not known yet.
pub open spec fn arrived_item(event: NotifyEventView) -> NotifyItemView {
    NotifyItemView {
        id: 0,
        title: event.data.title,
        notify: event.data.notify,
        device: event.data.device,
        received_at: event.timestamp,
    }
}

/// The listed form of an event that has just arrived.
pub fn item_of_event(event: &NotifyEvent) -> (item: NotifyItem)
    ensures
        item@ == arrived_item(event@),
{
    NotifyItem {
        id: 0,
        title: event.data.title.clone(),
        notify: event.data.notify.clone(),
        device: event.data.device.clone(),
        received_at: event.timestamp,
    }
}

/// What the management panel holds.
pub struct ManagementState {
    pub client: RutifyClient,
    pub notifications: Vec<NotifyItem>,
    pub stats: Option<Stats>,
    pub tokens: Vec<TokenItem>,
    pub devices: Vec<DeviceInfo>,
}

impl ManagementState {
    /// The state of a panel that has loaded nothing yet.
    pub fn new(server_url: &str) -> (state: ManagementState)
        ensures
            state.client@ == RutifyClient::fresh(server_url@),
            state.notifications@.len() == 0,
            state.stats is None,
            state.tokens@.len() == 0,
            state.devices@.len() == 0,
    {
        ManagementState {
            client: RutifyClient::new(server_url),
            notifications: Vec::new(),
            stats: None,
            tokens: Vec::new(),
            devices: Vec::new(),
        }
    }

    /// Takes in an event from the connection: it goes to the head of the
    /// notifications, before every older one.
    pub fn push_event(&mut self, event: &NotifyEvent)
        ensures
            final(self).notifications@.len() == old(self).notifications@.len() + 1,
            final(self).notifications@[0]@ == arrived_item(event@),
            forall|i: int|
                0 <= i < old(self).notifications@.len() ==> final(self).notifications@[i + 1]
                    == old(self).notifications@[i],
            final(self).stats == old(self).stats,
            final(self).client == old(self).client,
            final(self).tokens == old(self).tokens,
            final(self).devices == old(self).devices,
    {
        self.notifications.insert(0, item_of_event(event));
    }
}

} // verus!
