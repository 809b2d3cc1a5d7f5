//! The one-shot command line: one command in, one line of text out.

use vstd::prelude::*;
use crate::shared::{bumped, count_text, echo_text, hello_text, SharedLogic};
use crate::text::texts;

verus! {

/// A command given on the command line.
#[derive(Debug, PartialEq, Eq)]
pub enum Commands {
    /// Say hello, to `name` if one is given.
    Hello { name: Option<String> },
    /// Increment and show the counter.
    Count,
    /// Echo back the words of `text`.
    Echo { text: Vec<String> },
}

/// The parsed command line.
#[derive(Debug, PartialEq, Eq)]
pub struct Cli {
    /// The command to run, if one was given.
    pub command: Option<Commands>,
    /// Whether the interactive session was asked for.
    pub interactive: bool,
}

impl Cli {
    /// Whether this command line starts the interactive session: it asks
    /// for it, or it names no command.
    pub fn wants_session(&self) -> (b: bool)
        ensures
            b == (self.interactive || self.command is None),
    {
        self.interactive || self.command.is_none()
    }
}

/// The text of an optional string.
pub open spec fn text_of(name: Option<String>) -> Option<Seq<char>> {
    match name {
        Some(n) => Some(n@),
        None => None,
    }
}

/// What the command line prints for `cmd` when the counter stands at `counter`.
pub open spec fn command_reply(counter: u32, cmd: Commands) -> Seq<char> {
    match cmd {
        Commands::Hello { name } => hello_text(text_of(name)),
        Commands::Count => count_text(bumped(counter)),
        Commands::Echo { text } => echo_text(texts(text@)),
    }
}

/// What the command line prints when no command is given.
pub open spec fn no_command_text() -> Seq<char> {
    "No command provided. Use --help or --interactive"@
}

/// Runs commands given on the command line.
#[derive(Debug)]
pub struct CliHandler {
    shared: SharedLogic,
}

impl CliHandler {
    /// The counter of the handler's session.
    pub closed spec fn counter(&self) -> u32 {
        self.shared.state.counter
    }

    /// A handler over a fresh session.
    pub fn new() -> (handler: Self)
        ensures
            handler.counter() == 0,
    {
        CliHandler { shared: SharedLogic::new() }
    }

    /// Runs the command of `cli`, if it has one, and returns the line to
    /// print: the command's answer, or a hint when there is no command.
    pub fn run(&mut self, cli: Cli) -> (out: String)
        ensures
            out@ == (match cli.command {
                Some(cmd) => command_reply(old(self).counter(), cmd),
                None => no_command_text(),
            }),
            final(self).counter() == (match cli.command {
                Some(Commands::Count) => bumped(old(self).counter()),
                _ => old(self).counter(),
            }),
    {
        match cli.command {
            Some(cmd) => self.handle_command(cmd),
            None => "No command provided. Use --help or --interactive".to_string(),
        }
    }

    /// Runs `cmd` and returns its answer. Only `Count` changes the session.
    pub fn handle_command(&mut self, cmd: Commands) -> (out: String)
        ensures
            out@ == command_reply(old(self).counter(), cmd),
            final(self).counter() == (match cmd {
                Commands::Count => bumped(old(self).counter()),
                _ => old(self).counter(),
            }),
    {
        match cmd {
            Commands::Hello { name } => match &name {
                Some(n) => self.shared.process_hello(Some(n.as_str())),
                None => self.shared.process_hello(None),
            },
            Commands::Count => self.shared.process_count(),
            Commands::Echo { text } => self.shared.process_echo(text.as_slice()),
        }
    }
}

} // verus!
