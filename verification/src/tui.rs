//! The interactive session: a two-mode input controller over the command
//! registry and the session log, and what a display layer shows of it.

use vstd::prelude::*;
use crate::log::{appended, keep_last, SessionLog, LOG_CAPACITY};
use crate::shared::{counter_after, reply, SharedLogic};
use crate::text::{
    is_blank, lemma_trimmed, lemma_trimmed_has_word, pop_char, push_char, texts, tokens, trim,
    trimmed,
};

verus! {

/// The input mode of a session. Exactly one is active at a time.
#[derive(Debug, Clone, Copy, PartialEq, Eq, Structural)]
pub enum Mode {
    /// Passive viewing; the initial mode.
    Normal,
    /// Editing a command line.
    Command,
}

impl Default for Mode {
    fn default() -> (mode: Self)
        ensures
            mode == Mode::Normal,
    {
        Mode::Normal
    }
}

/// A key, as far as the session tells keys apart.
#[derive(Debug, Clone, Copy, PartialEq, Eq, Structural)]
pub enum Key {
    Char(char),
    Enter,
    Esc,
    Backspace,
    Other,
}

/// A key event: the key, whether Control and no other modifier was held
/// with it, and whether the event is a press rather than a release or repeat.
#[derive(Debug, Clone, Copy, PartialEq, Eq, Structural)]
pub struct KeyInput {
    pub key: Key,
    pub control: bool,
    pub pressed: bool,
}

/// An input event: a key event, or anything else the terminal reports.
#[derive(Debug, Clone, Copy, PartialEq, Eq, Structural)]
pub enum InputEvent {
    Key(KeyInput),
    Other,
}

/// A colour that the display layer uses to set a mode apart.
#[derive(Debug, Clone, Copy, PartialEq, Eq, Structural)]
pub enum Accent {
    Cyan,
    Yellow,
    Green,
}

/// What the main panel shows.
#[derive(Debug, PartialEq, Eq)]
pub struct MainView {
    /// The panel's title.
    pub title: String,
    /// The colour of the title.
    pub accent: Accent,
    /// The log lines that fit, oldest first.
    pub lines: Vec<String>,
    /// The command line being edited, with its prompt; `None` while viewing.
    pub prompt: Option<String>,
}

/// What the status bar shows of the mode.
#[derive(Debug, PartialEq, Eq)]
pub struct StatusView {
    /// The mode's name, padded with one space on either side.
    pub label: String,
    /// The colour behind the label.
    pub accent: Accent,
}

/// An interactive session.
#[derive(Debug)]
pub struct App {
    pub mode: Mode,
    pub running: bool,
    pub command_input: String,
    pub output_log: SessionLog,
    pub shared: SharedLogic,
}

/// The mathematical model of a session.
pub struct Session {
    pub mode: Mode,
    pub running: bool,
    /// The command line being edited.
    pub input: Seq<char>,
    /// The retained log lines, oldest first.
    pub log: Seq<Seq<char>>,
    /// The session counter.
    pub counter: u32,
}

impl View for App {
    type V = Session;

    open spec fn view(&self) -> Session {
        Session {
            mode: self.mode,
            running: self.running,
            input: self.command_input@,
            log: self.output_log@,
            counter: self.shared.state.counter,
        }
    }
}

/// The first line that a new session logs.
pub open spec fn welcome_text() -> Seq<char> {
    "Welcome! Press ':' for command mode, 'q' to quit."@
}

/// The second line that a new session logs.
pub open spec fn commands_text() -> Seq<char> {
    "Commands: hello [name], count, echo <text>, help"@
}

/// The session after `line` is logged.
pub open spec fn logged(s: Session, line: Seq<char>) -> Session {
    Session { log: appended(s.log, line), ..s }
}

/// The session after a request to edit: viewing turns into editing an empty
/// line; while editing, nothing changes.
pub open spec fn entered(s: Session) -> Session {
    match s.mode {
        Mode::Normal => Session { mode: Mode::Command, input: Seq::empty(), ..s },
        Mode::Command => s,
    }
}

/// The session after a cancel: editing turns into viewing and the line is
/// discarded; while viewing, nothing changes.
pub open spec fn cancelled(s: Session) -> Session {
    match s.mode {
        Mode::Normal => s,
        Mode::Command => Session { mode: Mode::Normal, input: Seq::empty(), ..s },
    }
}

/// The session after `c` is typed: while editing, `c` joins the line.
pub open spec fn typed(s: Session, c: char) -> Session {
    match s.mode {
        Mode::Normal => s,
        Mode::Command => Session { input: s.input.push(c), ..s },
    }
}

/// The session after a backspace: while editing, the line loses its last
/// character, if it has one.
pub open spec fn erased(s: Session) -> Session {
    match s.mode {
        Mode::Normal => s,
        Mode::Command => if s.input.len() > 0 {
            Session { input: s.input.drop_last(), ..s }
        } else {
            s
        },
    }
}

/// The session after a request to quit, which counts only while viewing.
pub open spec fn quitted(s: Session) -> Session {
    match s.mode {
        Mode::Normal => Session { running: false, ..s },
        Mode::Command => s,
    }
}

/// The line that echoes a submitted command in the log.
pub open spec fn echo_line(line: Seq<char>) -> Seq<char> {
    "> "@ + line
}

/// What a submit answers: the command's reply, or nothing while viewing and
/// for a blank line.
pub open spec fn submit_result(s: Session) -> Option<Seq<char>> {
    let line = trimmed(s.input);
    if s.mode is Command && line.len() > 0 {
        Some(reply(s.counter, tokens(line)[0], tokens(line).skip(1)))
    } else {
        None
    }
}

/// The session after a submit. While editing, the session returns to viewing
/// with an empty line; unless the trimmed line is blank, the log gains its
/// echo and the command's reply, and the command has run.
pub open spec fn submitted(s: Session) -> Session {
    let line = trimmed(s.input);
    match s.mode {
        Mode::Normal => s,
        Mode::Command => if line.len() == 0 {
            Session { mode: Mode::Normal, input: Seq::empty(), ..s }
        } else {
            Session {
                mode: Mode::Normal,
                input: Seq::empty(),
                log: appended(appended(s.log, echo_line(line)), submit_result(s)->0),
                counter: counter_after(s.counter, tokens(line)[0]),
                ..s
            }
        },
    }
}

/// The session after a key while viewing: `q`, or `c` with Control, quits;
/// `:` starts editing; other keys do nothing.
pub open spec fn normal_keyed(s: Session, input: KeyInput) -> Session {
    match input.key {
        Key::Char(c) => if c == 'q' || (c == 'c' && input.control) {
            quitted(s)
        } else if c == ':' {
            entered(s)
        } else {
            s
        },
        _ => s,
    }
}

/// The session after a key while editing: Enter submits, Esc cancels,
/// Backspace erases, a character is typed; other keys do nothing.
pub open spec fn command_keyed(s: Session, input: KeyInput) -> Session {
    match input.key {
        Key::Enter => submitted(s),
        Key::Esc => cancelled(s),
        Key::Backspace => erased(s),
        Key::Char(c) => typed(s, c),
        Key::Other => s,
    }
}

/// The session after a key event.
pub open spec fn keyed(s: Session, input: KeyInput) -> Session {
    match s.mode {
        Mode::Normal => normal_keyed(s, input),
        Mode::Command => command_keyed(s, input),
    }
}

/// The session after an input event: only key presses count.
pub open spec fn handled(s: Session, event: InputEvent) -> Session {
    match event {
        InputEvent::Key(input) => if input.pressed {
            keyed(s, input)
        } else {
            s
        },
        InputEvent::Other => s,
    }
}

/// The number of log lines that fit in a panel of the given height, whose
/// border takes two rows.
pub open spec fn visible_rows(height: u16) -> nat {
    if height >= 2 {
        (height - 2) as nat
    } else {
        0
    }
}

impl App {
    /// A running session in viewing mode whose log holds the two welcome lines.
    pub fn new() -> (app: Self)
        ensures
            app@ == (Session {
                mode: Mode::Normal,
                running: true,
                input: Seq::empty(),
                log: seq![welcome_text(), commands_text()],
                counter: 0,
            }),
    {
        let mut app = App {
            mode: Mode::Normal,
            running: true,
            command_input: String::new(),
            output_log: SessionLog::new(),
            shared: SharedLogic::new(),
        };
        app.log("Welcome! Press ':' for command mode, 'q' to quit.");
        app.log("Commands: hello [name], count, echo <text>, help");
        proof {
            assert(app@.log =~= seq![welcome_text(), commands_text()]);
        }
        app
    }

    /// Appends `msg` to the session log.
    pub fn log(&mut self, msg: &str)
        ensures
            final(self)@ == logged(old(self)@, msg@),
    {
        self.output_log.append(msg);
    }

    /// Starts editing an empty command line; a no-op while editing.
    pub fn enter_edit(&mut self)
        ensures
            final(self)@ == entered(old(self)@),
    {
        match self.mode {
            Mode::Normal => {
                self.mode = Mode::Command;
                self.command_input = String::new();
            },
            Mode::Command => {},
        }
    }

    /// Leaves editing and discards the command line; a no-op while viewing.
    pub fn cancel_edit(&mut self)
        ensures
            final(self)@ == cancelled(old(self)@),
            old(self).mode is Normal ==> *final(self) == *old(self),
    {
        match self.mode {
            Mode::Normal => {},
            Mode::Command => {
                self.mode = Mode::Normal;
                self.command_input = String::new();
            },
        }
    }

    /// Adds `c` to the command line; a no-op while viewing.
    pub fn push_char(&mut self, c: char)
        ensures
            final(self)@ == typed(old(self)@, c),
    {
        match self.mode {
            Mode::Normal => {},
            Mode::Command => {
                push_char(&mut self.command_input, c);
            },
        }
    }

    /// Removes the last character of the command line, if there is one; a
    /// no-op while viewing.
    pub fn backspace(&mut self)
        ensures
            final(self)@ == erased(old(self)@),
    {
        match self.mode {
            Mode::Normal => {},
            Mode::Command => {
                let _ = pop_char(&mut self.command_input);
            },
        }
    }

    /// Ends the session; honoured only while viewing.
    pub fn request_quit(&mut self)
        ensures
            final(self)@ == quitted(old(self)@),
    {
        match self.mode {
            Mode::Normal => {
                self.running = false;
            },
            Mode::Command => {},
        }
    }

    /// Submits the command line. While editing, the session returns to
    /// viewing and the line is cleared; unless the trimmed line is blank, it
    /// is echoed to the log, dispatched, and the reply is logged and returned.
    pub fn submit_edit(&mut self) -> (out: Option<String>)
        ensures
            final(self)@ == submitted(old(self)@),
            match out {
                Some(text) => submit_result(old(self)@) == Some(text@),
                None => submit_result(old(self)@) is None,
            },
            old(self).mode is Normal ==> *final(self) == *old(self),
    {
        match self.mode {
            Mode::Normal => {
                return None;
            },
            Mode::Command => {},
        }
        let line = trim(self.command_input.as_str());
        self.mode = Mode::Normal;
        self.command_input = String::new();
        if line.as_str().is_empty() {
            return None;
        }
        let mut echo = "> ".to_string();
        echo.append(line.as_str());
        self.log(echo.as_str());
        proof {
            lemma_trimmed_has_word(old(self)@.input);
        }
        let out = self.shared.dispatch(line.as_str());
        match &out {
            Some(text) => {
                self.log(text.as_str());
            },
            None => {},
        }
        out
    }

    /// Submits the command line and lets the reply stand in the log alone.
    pub fn execute_command(&mut self)
        ensures
            final(self)@ == submitted(old(self)@),
    {
        let _ = self.submit_edit();
    }

    /// Handles a key as viewing does: `q`, or `c` with Control, quits and `:`
    /// starts editing. While editing, none of these takes effect.
    pub fn handle_normal_keys(&mut self, key: KeyInput)
        ensures
            final(self)@ == normal_keyed(old(self)@, key),
    {
        match key.key {
            Key::Char(c) => {
                if c == 'q' || (c == 'c' && key.control) {
                    self.request_quit();
                } else if c == ':' {
                    self.enter_edit();
                }
            },
            _ => {},
        }
    }

    /// Handles a key as editing does: Enter submits, Esc cancels, Backspace
    /// erases and a character is typed. While viewing, none of these takes effect.
    pub fn handle_command_keys(&mut self, key: KeyInput)
        ensures
            final(self)@ == command_keyed(old(self)@, key),
    {
        match key.key {
            Key::Enter => self.execute_command(),
            Key::Esc => self.cancel_edit(),
            Key::Backspace => self.backspace(),
            Key::Char(c) => self.push_char(c),
            Key::Other => {},
        }
    }

    /// Handles a key according to the mode.
    pub fn handle_key(&mut self, key: KeyInput)
        ensures
            final(self)@ == keyed(old(self)@, key),
    {
        match self.mode {
            Mode::Normal => self.handle_normal_keys(key),
            Mode::Command => self.handle_command_keys(key),
        }
    }

    /// Handles an input event: a key press goes to `handle_key`, anything
    /// else is ignored.
    pub fn handle_events(&mut self, event: InputEvent)
        ensures
            final(self)@ == handled(old(self)@, event),
    {
        match event {
            InputEvent::Key(key) => {
                if key.pressed {
                    self.handle_key(key);
                }
            },
            InputEvent::Other => {},
        }
    }

    /// What the main panel shows when the log's frame is `height` rows high:
    /// a title for the mode, the most recent lines that fit inside the
    /// border, and while editing the command line behind a colon.
    pub fn main_view(&self, height: u16) -> (view: MainView)
        ensures
            view.title@ == (match self.mode {
                Mode::Normal => "Normal Mode"@,
                Mode::Command => "Command Mode"@,
            }),
            view.accent == (match self.mode {
                Mode::Normal => Accent::Cyan,
                Mode::Command => Accent::Yellow,
            }),
            texts(view.lines@) == keep_last(self@.log, visible_rows(height)),
            match self.mode {
                Mode::Normal => view.prompt is None,
                Mode::Command => view.prompt is Some && view.prompt->0@ == ":"@ + self@.input,
            },
    {
        let rows: usize = if height >= 2 { (height - 2) as usize } else { 0 };
        let lines = self.output_log.recent(rows);
        match self.mode {
            Mode::Normal => MainView {
                title: "Normal Mode".to_string(),
                accent: Accent::Cyan,
                lines,
                prompt: None,
            },
            Mode::Command => {
                let mut prompt = ":".to_string();
                prompt.append(self.command_input.as_str());
                MainView {
                    title: "Command Mode".to_string(),
                    accent: Accent::Yellow,
                    lines,
                    prompt: Some(prompt),
                }
            },
        }
    }

    /// What the status bar shows of the mode.
    pub fn status_view(&self) -> (view: StatusView)
        ensures
            view.label@ == (match self.mode {
                Mode::Normal => " NORMAL "@,
                Mode::Command => " COMMAND "@,
            }),
            view.accent == (match self.mode {
                Mode::Normal => Accent::Green,
                Mode::Command => Accent::Yellow,
            }),
    {
        match self.mode {
            Mode::Normal => StatusView { label: " NORMAL ".to_string(), accent: Accent::Green },
            Mode::Command => StatusView { label: " COMMAND ".to_string(), accent: Accent::Yellow },
        }
    }
}

/// A cancel while viewing changes nothing.
pub proof fn lemma_cancel_while_viewing(s: Session)
    requires
        s.mode is Normal,
    ensures
        cancelled(s) == s,
{
}

/// A submit of a blank line answers nothing, runs no command and logs
/// nothing: it only returns the session to viewing with an empty line.
pub proof fn lemma_submit_blank(s: Session)
    requires
        s.mode is Command,
        is_blank(s.input),
    ensures
        submit_result(s) is None,
        submitted(s) == (Session { mode: Mode::Normal, input: Seq::empty(), ..s }),
        submitted(s).log == s.log,
        submitted(s).counter == s.counter,
        submitted(s).running == s.running,
{
    lemma_trimmed(s.input);
}

/// No input event makes the log outgrow its capacity, and none but a quit
/// request while viewing stops the session.
pub proof fn lemma_handled_keeps_bounds(s: Session, event: InputEvent)
    requires
        s.log.len() <= LOG_CAPACITY,
    ensures
        handled(s, event).log.len() <= LOG_CAPACITY,
        handled(s, event).running != s.running ==> s.mode is Normal && !handled(s, event).running,
{
}

} // verus!
