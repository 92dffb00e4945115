//! From a line of operator input to what the loop does with it: the line
//! falls into a command name and its arguments, and the name decides.

use crate::calls::{delete_item, get_item, ping, set_item};
use crate::messages::{Request, RequestView};
use crate::text::same_text;
use crate::words::{
    is_word, join_words, joined, law_joined_words_split_back, law_trimming_keeps_words,
    split_words, trimmed, words,
};
use vstd::prelude::*;
use vstd::string::StringExecFns;

verus! {

/// One line of input, taken apart: the first word names the command, the
/// words behind it are its arguments, in order.
#[derive(Debug, Clone, PartialEq, Eq)]
pub struct CommandLine {
    pub command: String,
    pub arguments: Vec<String>,
}

/// What the loop does with one line.
#[derive(Debug, Clone, PartialEq, Eq)]
pub enum Turn {
    /// Nothing was entered: prompt again.
    Skip,
    /// Make this call, and print the response that its wrapper returns.
    Call(Request),
    /// Print this text, and go on.
    Report(String),
    /// Leave the loop.
    Stop,
}

/// A command line as contracts speak of it.
pub struct CommandLineView {
    pub command: Seq<char>,
    pub arguments: Seq<Seq<char>>,
}

/// A turn as contracts speak of it.
pub enum TurnView {
    Skip,
    Call(RequestView),
    Report(Seq<char>),
    Stop,
}

impl View for CommandLine {
    type V = CommandLineView;

    open spec fn view(&self) -> CommandLineView {
        CommandLineView { command: self.command@, arguments: self.arguments.deep_view() }
    }
}

impl View for Turn {
    type V = TurnView;

    open spec fn view(&self) -> TurnView {
        match *self {
            Turn::Skip => TurnView::Skip,
            Turn::Call(request) => TurnView::Call(request@),
            Turn::Report(text) => TurnView::Report(text@),
            Turn::Stop => TurnView::Stop,
        }
    }
}

/// The command line that `input` holds, if it holds a word at all.
pub open spec fn command_line(input: Seq<char>) -> Option<CommandLineView> {
    let all = words(input);
    if all.len() == 0 {
        None
    } else {
        Some(CommandLineView { command: all[0], arguments: all.skip(1) })
    }
}

/// What is reported for a command name that is none of the five.
pub open spec fn unknown_command(name: Seq<char>) -> Seq<char> {
    "unknown command: "@ + name
}

/// What is reported for a `get` that does not come with exactly one key.
pub open spec fn get_usage() -> Seq<char> {
    "usage: get <key>"@
}

/// What is reported for a `set` that does not come with exactly one key and
/// one value.
pub open spec fn set_usage() -> Seq<char> {
    "usage: set <key> <value>"@
}

/// The turn that a command line asks for. The command name is matched
/// exactly, case included.
pub open spec fn dispatched(line: CommandLineView) -> TurnView {
    let arguments = line.arguments;
    if line.command == "get"@ {
        if arguments.len() == 1 {
            TurnView::Call(RequestView::GetItem { key: arguments[0] })
        } else {
            TurnView::Report(get_usage())
        }
    } else if line.command == "set"@ {
        if arguments.len() == 2 {
            TurnView::Call(RequestView::SetItem { key: arguments[0], value: arguments[1] })
        } else {
            TurnView::Report(set_usage())
        }
    } else if line.command == "delete"@ {
        TurnView::Call(RequestView::DeleteItem { keys: arguments })
    } else if line.command == "ping"@ {
        if arguments.len() == 0 {
            TurnView::Call(RequestView::Ping { message: None })
        } else {
            TurnView::Call(RequestView::Ping { message: Some(joined(arguments)) })
        }
    } else if line.command == "exit"@ {
        TurnView::Stop
    } else {
        TurnView::Report(unknown_command(line.command))
    }
}

/// The turn that a line of input asks for: none for a line without a word.
pub open spec fn turn_of(input: Seq<char>) -> TurnView {
    match command_line(input) {
        None => TurnView::Skip,
        Some(line) => dispatched(line),
    }
}

/// Takes a line of input apart. A line that is empty once the whitespace
/// around it is gone holds no command.
pub fn read_command_line(input: &str) -> (line: Option<CommandLine>)
    ensures
        line is None <==> trimmed(input@).len() == 0,
        match line {
            Some(l) => command_line(input@) == Some(l@),
            None => command_line(input@) is None,
        },
{
    proof {
        law_trimming_keeps_words(input@);
    }
    let mut all = split_words(input);
    if all.len() == 0 {
        return None;
    }
    let ghost whole = all.deep_view();
    let command = all.remove(0);
    assert(all.deep_view() == whole.skip(1));
    Some(CommandLine { command, arguments: all })
}

/// Decides what a command line asks for.
pub fn dispatch(line: CommandLine) -> (turn: Turn)
    ensures
        turn@ == dispatched(line@),
{
    let CommandLine { command, arguments } = line;
    let mut arguments = arguments;
    let name = command.as_str();
    if same_text(name, "get") {
        if arguments.len() == 1 {
            let key = arguments.remove(0);
            Turn::Call(get_item(key))
        } else {
            Turn::Report(String::from_str("usage: get <key>"))
        }
    } else if same_text(name, "set") {
        if arguments.len() == 2 {
            let key = arguments.remove(0);
            let value = arguments.remove(0);
            Turn::Call(set_item(key, value))
        } else {
            Turn::Report(String::from_str("usage: set <key> <value>"))
        }
    } else if same_text(name, "delete") {
        Turn::Call(delete_item(arguments))
    } else if same_text(name, "ping") {
        if arguments.len() == 0 {
            Turn::Call(ping(None))
        } else {
            let message = join_words(&arguments);
            Turn::Call(ping(Some(message)))
        }
    } else if same_text(name, "exit") {
        Turn::Stop
    } else {
        let mut text = String::from_str("unknown command: ");
        text.append(name);
        Turn::Report(text)
    }
}

/// Decides what a line of input asks for. A line that is empty once the
/// whitespace around it is gone is skipped, and no other line is.
pub fn read_turn(input: &str) -> (turn: Turn)
    ensures
        turn@ == turn_of(input@),
        turn is Skip <==> trimmed(input@).len() == 0,
{
    match read_command_line(input) {
        None => Turn::Skip,
        Some(line) => dispatch(line),
    }
}

/// A line made of words with single spaces between them holds the first
/// word as its command and the others as its arguments.
pub proof fn law_words_make_a_command_line(list: Seq<Seq<char>>)
    requires
        list.len() > 0,
        forall|i: int| 0 <= i < list.len() ==> is_word(#[trigger] list[i]),
    ensures
        command_line(joined(list)) == Some(
            CommandLineView { command: list[0], arguments: list.skip(1) },
        ),
{
    law_joined_words_split_back(list);
}

/// A line whose first word is none of the five command names is answered
/// with the report of an unknown command, which names that word.
pub proof fn law_unknown_command_is_reported(input: Seq<char>)
    requires
        command_line(input) matches Some(line) && line.command != "get"@ && line.command != "set"@
            && line.command != "delete"@ && line.command != "ping"@ && line.command != "exit"@,
    ensures
        turn_of(input) == TurnView::Report("unknown command: "@ + command_line(input)->0.command),
{
}

} // verus!
