//! Session state, the command registry and the dispatcher.

use vstd::prelude::*;
use crate::text::{decimal, join, joined, push_decimal, same_text, split_whitespace, texts, tokens};

verus! {

/// The mutable state of one session: a single counter.
#[derive(Debug)]
pub struct AppState {
    pub counter: u32,
}

/// The counter after one more increment: one higher, or unchanged at `u32::MAX`.
pub open spec fn bumped(counter: u32) -> u32 {
    if counter < u32::MAX {
        (counter + 1) as u32
    } else {
        counter
    }
}

impl AppState {
    /// A fresh session state, with the counter at zero.
    pub fn new() -> (state: Self)
        ensures
            state.counter == 0,
    {
        AppState { counter: 0 }
    }

    /// Adds one to the counter; at `u32::MAX` the counter stays where it is.
    pub fn increment(&mut self)
        ensures
            final(self).counter == bumped(old(self).counter),
    {
        if self.counter < u32::MAX {
            self.counter = self.counter + 1;
        }
    }
}

impl Default for AppState {
    fn default() -> (state: Self)
        ensures
            state.counter == 0,
    {
        AppState::new()
    }
}

/// The greeting for `name`, or for the world when no name is given.
pub open spec fn hello_text(name: Option<Seq<char>>) -> Seq<char> {
    match name {
        Some(n) => "Hello, "@ + n + "!"@,
        None => "Hello, World!"@,
    }
}

/// The report of a counter value.
pub open spec fn count_text(counter: u32) -> Seq<char> {
    "Counter is now: "@ + decimal(counter as nat)
}

/// The arguments joined by single spaces, or a placeholder when there are none.
pub open spec fn echo_text(args: Seq<Seq<char>>) -> Seq<char> {
    if args.len() == 0 {
        "(empty)"@
    } else {
        joined(args)
    }
}

/// The usage line.
pub open spec fn help_text() -> Seq<char> {
    "Available commands: hello [name], count, echo <text>, help"@
}

/// The answer to a command name that the registry does not know.
pub open spec fn unknown_text(name: Seq<char>) -> Seq<char> {
    "Unknown command: '"@ + name + "'. Type 'help' for available commands."@
}

/// Whether `name` is one of the registry's commands. Names are case-sensitive.
pub open spec fn is_known(name: Seq<char>) -> bool {
    name == "hello"@ || name == "count"@ || name == "echo"@ || name == "help"@
}

/// The first argument, if there is one.
pub open spec fn first_arg(args: Seq<Seq<char>>) -> Option<Seq<char>> {
    if args.len() > 0 {
        Some(args[0])
    } else {
        None
    }
}

/// The counter after the command `name` has run: only `count` changes it.
pub open spec fn counter_after(counter: u32, name: Seq<char>) -> u32 {
    if name == "count"@ {
        bumped(counter)
    } else {
        counter
    }
}

/// What the registry answers to the command `name` with `args`, in a session
/// whose counter stands at `counter` before the command runs.
pub open spec fn reply(counter: u32, name: Seq<char>, args: Seq<Seq<char>>) -> Seq<char> {
    if name == "hello"@ {
        hello_text(first_arg(args))
    } else if name == "count"@ {
        count_text(bumped(counter))
    } else if name == "echo"@ {
        echo_text(args)
    } else if name == "help"@ {
        help_text()
    } else {
        unknown_text(name)
    }
}

/// No command lowers the counter, and none but `count` changes it; a name
/// that the registry does not know is answered with that name, verbatim.
pub proof fn lemma_registry(counter: u32, name: Seq<char>, args: Seq<Seq<char>>)
    ensures
        counter_after(counter, name) >= counter,
        name != "count"@ ==> counter_after(counter, name) == counter,
        !is_known(name) ==> reply(counter, name, args) == unknown_text(name),
{
}

/// A handler of named commands with positional arguments.
pub trait CommandHandler {
    /// Runs the command `command` with `args` and returns its answer.
    fn handle_command(&mut self, command: &str, args: Vec<String>) -> String;
}

/// The command registry together with the state its commands work on.
#[derive(Debug)]
pub struct SharedLogic {
    pub state: AppState,
}

impl Default for SharedLogic {
    fn default() -> (logic: Self)
        ensures
            logic.state.counter == 0,
    {
        SharedLogic::new()
    }
}

impl SharedLogic {
    /// A registry over a fresh session state.
    pub fn new() -> (logic: Self)
        ensures
            logic.state.counter == 0,
    {
        SharedLogic { state: AppState::new() }
    }

    /// Greets `name`, or the world when no name is given.
    pub fn process_hello(&self, name: Option<&str>) -> (out: String)
        ensures
            out@ == hello_text(
                match name {
                    Some(n) => Some(n@),
                    None => None,
                },
            ),
    {
        match name {
            Some(n) => {
                let mut out = "Hello, ".to_string();
                out.append(n);
                out.append("!");
                out
            },
            None => "Hello, World!".to_string(),
        }
    }

    /// Increments the counter, saturating at `u32::MAX`, and reports its new value.
    pub fn process_count(&mut self) -> (out: String)
        ensures
            final(self).state.counter == bumped(old(self).state.counter),
            out@ == count_text(final(self).state.counter),
    {
        self.state.increment();
        let mut out = "Counter is now: ".to_string();
        push_decimal(&mut out, self.state.counter);
        out
    }

    /// Joins the arguments with single spaces; without arguments, says so.
    pub fn process_echo(&self, args: &[String]) -> (out: String)
        ensures
            out@ == echo_text(texts(args@)),
    {
        if args.len() == 0 {
            "(empty)".to_string()
        } else {
            join(args)
        }
    }

    /// Splits `line` on whitespace into a command name and its arguments and
    /// runs the command. A blank line runs nothing and leaves the state as it is.
    pub fn dispatch(&mut self, line: &str) -> (out: Option<String>)
        ensures
            tokens(line@).len() == 0 ==> out is None && *final(self) == *old(self),
            tokens(line@).len() > 0 ==> out is Some && out->0@ == reply(
                old(self).state.counter,
                tokens(line@)[0],
                tokens(line@).skip(1),
            ) && final(self).state.counter == counter_after(
                old(self).state.counter,
                tokens(line@)[0],
            ),
            tokens(line@).len() > 0 && !is_known(tokens(line@)[0]) ==> out->0@ == unknown_text(
                tokens(line@)[0],
            ) && *final(self) == *old(self),
    {
        let mut words = split_whitespace(line);
        if words.len() == 0 {
            return None;
        }
        let ghost all = texts(words@);
        let name = words.remove(0);
        proof {
            assert(texts(words@) =~= all.skip(1));
        }
        let out = self.handle_command(name.as_str(), words);
        Some(out)
    }
}

impl CommandHandler for SharedLogic {
    /// Looks `command` up by exact match and runs it. An unknown name is
    /// answered with an explanation; only `count` changes the state.
    fn handle_command(&mut self, command: &str, args: Vec<String>) -> (out: String)
        ensures
            out@ == reply(old(self).state.counter, command@, texts(args@)),
            final(self).state.counter == counter_after(old(self).state.counter, command@),
            !is_known(command@) ==> out@ == unknown_text(command@) && *final(self) == *old(self),
    {
        proof {
            reveal_strlit("hello");
            reveal_strlit("count");
            assert("hello"@[0] != "count"@[0]);
        }
        if same_text(command, "hello") {
            if args.len() > 0 {
                self.process_hello(Some(args[0].as_str()))
            } else {
                self.process_hello(None)
            }
        } else if same_text(command, "count") {
            self.process_count()
        } else if same_text(command, "echo") {
            self.process_echo(args.as_slice())
        } else if same_text(command, "help") {
            "Available commands: hello [name], count, echo <text>, help".to_string()
        } else {
            let mut out = "Unknown command: '".to_string();
            out.append(command);
            out.append("'. Type 'help' for available commands.");
            out
        }
    }
}

} // verus!
