//! Command-line words: how one word of a command line is read.

use crate::text::{find_char, first_index, has_prefix, starts_with, text_eq};
use vstd::prelude::*;

verus! {

/// One word of a command line.
#[derive(Debug, Clone, PartialEq, Eq)]
pub enum Word {
    /// A value that stands by its position.
    Positional(String),
    /// The word `--`: every word after it is a value.
    EndOfOptions,
    /// `--name` or `--name=value`.
    Long { name: String, value: Option<String> },
    /// `-f`, `-fvalue` or `-f=value`.
    Short { flag: char, value: Option<String> },
}

/// `Word` over sequences of characters.
pub enum WordView {
    Positional(Seq<char>),
    EndOfOptions,
    Long { name: Seq<char>, value: Option<Seq<char>> },
    Short { flag: char, value: Option<Seq<char>> },
}

impl View for Word {
    type V = WordView;

    open spec fn view(&self) -> WordView {
        match self {
            Word::Positional(text) => WordView::Positional(text@),
            Word::EndOfOptions => WordView::EndOfOptions,
            Word::Long { name, value } => WordView::Long {
                name: name@,
                value: crate::text::optional_text(*value),
            },
            Word::Short { flag, value } => WordView::Short {
                flag: *flag,
                value: crate::text::optional_text(*value),
            },
        }
    }
}

/// Whether a word looks like an option: it begins with a dash and is more
/// than the dash alone.
pub open spec fn looks_like_option(word: Seq<char>) -> bool {
    word.len() >= 2 && word[0] == '-'
}

/// How a word reads where options are still accepted.
pub open spec fn read_word(word: Seq<char>) -> WordView {
    if word == "--"@ {
        WordView::EndOfOptions
    } else if has_prefix(word, "--"@) {
        let body = word.skip(2);
        match first_index(body, '=') {
            Some(at) => WordView::Long { name: body.take(at), value: Some(body.skip(at + 1)) },
            None => WordView::Long { name: body, value: None },
        }
    } else if looks_like_option(word) {
        let rest = word.skip(2);
        WordView::Short {
            flag: word[1],
            value: if rest.len() == 0 {
                None
            } else if rest[0] == '=' {
                Some(rest.skip(1))
            } else {
                Some(rest)
            },
        }
    } else {
        WordView::Positional(word)
    }
}

/// Whether a word looks like an option.
pub fn is_option_like(word: &str) -> (like: bool)
    ensures
        like == looks_like_option(word@),
{
    word.unicode_len() >= 2 && word.get_char(0) == '-'
}

/// Reads a word where options are still accepted.
pub fn lex(word: &str) -> (read: Word)
    ensures
        read@ == read_word(word@),
{
    proof {
        reveal_strlit("--");
    }
    let length = word.unicode_len();
    if text_eq(word, "--") {
        Word::EndOfOptions
    } else if starts_with(word, "--") {
        let body = word.substring_char(2, length);
        match find_char(body, '=') {
            Some(at) => {
                let name = body.substring_char(0, at);
                let value = body.substring_char(at + 1, length - 2);
                Word::Long { name: String::from_str(name), value: Some(String::from_str(value)) }
            },
            None => Word::Long { name: String::from_str(body), value: None },
        }
    } else if is_option_like(word) {
        let rest = word.substring_char(2, length);
        let flag = word.get_char(1);
        let value = if length == 2 {
            None
        } else if rest.get_char(0) == '=' {
            let after = rest.substring_char(1, length - 2);
            Some(String::from_str(after))
        } else {
            Some(String::from_str(rest))
        };
        Word::Short { flag, value }
    } else {
        Word::Positional(String::from_str(word))
    }
}

/// The views of the words of a command line.
pub open spec fn line_view(words: Seq<&str>) -> Seq<Seq<char>> {
    Seq::new(words.len(), |i: int| words[i]@)
}

/// Why a command line was not understood.
#[derive(Debug, Clone, PartialEq, Eq)]
pub enum CliError {
    /// Help was asked for.
    HelpRequested,
    /// No command was named.
    MissingSubcommand,
    /// The named command does not exist.
    UnknownSubcommand(String),
    /// An option that is not known where it stands.
    UnknownArgument(String),
    /// An option that needs a value stands without one.
    MissingValue(String),
    /// A value that must be given was left out.
    MissingRequired(String),
    /// An option was given more than once.
    DuplicateArgument(String),
    /// A value stands where none is expected.
    UnexpectedValue(String),
}

/// `CliError` over sequences of characters.
pub enum CliErrorView {
    HelpRequested,
    MissingSubcommand,
    UnknownSubcommand(Seq<char>),
    UnknownArgument(Seq<char>),
    MissingValue(Seq<char>),
    MissingRequired(Seq<char>),
    DuplicateArgument(Seq<char>),
    UnexpectedValue(Seq<char>),
}

impl View for CliError {
    type V = CliErrorView;

    open spec fn view(&self) -> CliErrorView {
        match self {
            CliError::HelpRequested => CliErrorView::HelpRequested,
            CliError::MissingSubcommand => CliErrorView::MissingSubcommand,
            CliError::UnknownSubcommand(name) => CliErrorView::UnknownSubcommand(name@),
            CliError::UnknownArgument(word) => CliErrorView::UnknownArgument(word@),
            CliError::MissingValue(name) => CliErrorView::MissingValue(name@),
            CliError::MissingRequired(name) => CliErrorView::MissingRequired(name@),
            CliError::DuplicateArgument(name) => CliErrorView::DuplicateArgument(name@),
            CliError::UnexpectedValue(word) => CliErrorView::UnexpectedValue(word@),
        }
    }
}

} // verus!
