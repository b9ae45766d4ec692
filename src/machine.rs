//! The input state machine: one key at a time moves the session between
//! modes, edits the command line, and selects completions and history
//! entries; running a submitted command is asked for on an idle tick.
use vstd::prelude::*;
use crate::command::{cd_word, invocation_of, run_command, Invocation};
use crate::completion::{
    cd_completion, create_completion, dir_part, labels, lemma_labels_len, listed_dir, name_part,
    replacements, typed_prefix, CompletionQuery,
};
use crate::session::{App, InputMode, SessionView};
use crate::text::{push_char, same_text, strings_view, words};

verus! {

/// A key as the state machine sees it.
#[derive(Clone, Copy, Debug, PartialEq, Eq, Structural)]
pub enum Key {
    Char(char),
    Enter,
    Backspace,
    Esc,
    Tab,
    Down,
    Other,
}

/// What the caller does after a key was handled.
#[derive(Clone, Debug)]
pub enum Reaction {
    /// Draw the session again.
    Continue,
    /// End the session.
    Quit,
    /// List the subdirectories of the query's directory, hand them to
    /// `App::fill_completion`, and draw again.
    ListDirectories(CompletionQuery),
}

/// The command line that clears the output.
pub open spec fn clear_token() -> Seq<char> {
    seq!['c']
}

/// The command line that shows the help text.
pub open spec fn help_token() -> Seq<char> {
    seq!['h', 'e', 'l', 'p']
}

/// The cursor after `i` in a list of `len` entries, wrapping to the start.
pub open spec fn next_cursor(i: int, len: int) -> int {
    if len == 0 || i + 1 > len - 1 {
        0
    } else {
        i + 1
    }
}

/// Submitting the command line: it is drained into the history and the
/// output is cleared; the clear command stays in editing, the help command
/// shows the help, any other waits in output mode to be run.
pub open spec fn submit(s: SessionView) -> SessionView {
    let cmd = s.input;
    let base = SessionView { input: seq![], history: s.history.push(cmd), output: seq![], ..s };
    if cmd == clear_token() {
        base
    } else if cmd == help_token() {
        SessionView { mode: InputMode::Helper, ..base }
    } else {
        SessionView { command: cmd, mode: InputMode::Output, ..base }
    }
}

/// The session after key `k`.
pub open spec fn key_step(s: SessionView, k: Key) -> SessionView {
    match s.mode {
        InputMode::Normal => match k {
            Key::Char('i') => SessionView { mode: InputMode::Editing, ..s },
            _ => s,
        },
        InputMode::Editing => match k {
            Key::Enter => submit(s),
            Key::Char(c) => SessionView { input: s.input.push(c), ..s },
            Key::Backspace => if s.input.len() > 0 {
                SessionView { input: s.input.drop_last(), ..s }
            } else {
                s
            },
            Key::Esc => SessionView { mode: InputMode::Normal, ..s },
            Key::Tab => SessionView {
                completion: seq![],
                completion_display: seq![],
                completion_index: 0,
                mode: InputMode::Completion,
                ..s
            },
            Key::Down => SessionView { history_index: 0, mode: InputMode::History, ..s },
            _ => s,
        },
        InputMode::Completion => match k {
            Key::Enter => if s.completion.len() > 0 {
                SessionView {
                    mode: InputMode::Editing,
                    input: s.completion[s.completion_index],
                    ..s
                }
            } else {
                SessionView { mode: InputMode::Editing, ..s }
            },
            Key::Esc => SessionView { mode: InputMode::Editing, ..s },
            Key::Tab => SessionView {
                completion_index: next_cursor(s.completion_index, s.completion.len() as int),
                ..s
            },
            _ => s,
        },
        InputMode::History => match k {
            Key::Enter => if s.history.len() > 0 {
                SessionView { mode: InputMode::Editing, input: s.history[s.history_index], ..s }
            } else {
                SessionView { mode: InputMode::Editing, ..s }
            },
            Key::Esc => SessionView { mode: InputMode::Editing, ..s },
            Key::Tab => SessionView {
                history_index: next_cursor(s.history_index, s.history.len() as int),
                ..s
            },
            _ => s,
        },
        InputMode::Helper => match k {
            Key::Esc => SessionView { mode: InputMode::Editing, ..s },
            _ => s,
        },
        InputMode::Output => match k {
            Key::Esc => finished(s),
            _ => s,
        },
    }
}

/// `r` is the reaction to key `k` in session `s`: quit on `q` in normal
/// mode; on Tab while editing a `cd` line, list the directory part of its
/// argument to complete the name part; else draw again.
pub open spec fn reaction_of(s: SessionView, k: Key, r: Reaction) -> bool {
    let ws = words(s.input);
    let completes = s.mode == InputMode::Editing && k == Key::Tab && ws.len() > 0 && ws[0]
        == cd_word();
    match r {
        Reaction::Quit => s.mode == InputMode::Normal && k == Key::Char('q'),
        Reaction::ListDirectories(q) => {
            &&& completes
            &&& q.prefix@ == dir_part(typed_prefix(ws))
            &&& q.partial@ == name_part(typed_prefix(ws))
            &&& q.dir@ == listed_dir(s.path, q.prefix@)
        },
        Reaction::Continue => !(s.mode == InputMode::Normal && k == Key::Char('q')) && !completes,
    }
}

/// The session once the command that was run is done.
pub open spec fn finished(s: SessionView) -> SessionView {
    SessionView { mode: InputMode::Editing, command: seq![], ..s }
}

/// The session after one more line of output.
pub open spec fn with_line(s: SessionView, line: Seq<char>) -> SessionView {
    SessionView { output: s.output + line + seq!['\n'], ..s }
}

/// The message shown when `cd` cannot enter `target`.
pub open spec fn cd_error(target: Seq<char>) -> Seq<char> {
    "cd: no such directory: "@ + target + seq!['\n']
}

/// The message shown when `program` cannot be started.
pub open spec fn spawn_error(program: Seq<char>) -> Seq<char> {
    program + ": command not found or failed to start"@ + seq!['\n']
}

/// The message shown when a submitted command line holds no word.
pub open spec fn blank_error() -> Seq<char> {
    "no command to run"@ + seq!['\n']
}

/// The session after `cd target`: in the resolved directory when there is
/// one, else where it was with an error message in the output.
pub open spec fn cd_outcome(s: SessionView, target: Seq<char>, resolved: Option<Seq<char>>) -> SessionView {
    match resolved {
        Some(p) => finished(SessionView { path: p, ..s }),
        None => finished(SessionView { output: s.output + cd_error(target), ..s }),
    }
}

/// The view of an optional string.
pub open spec fn opt_view(o: Option<String>) -> Option<Seq<char>> {
    match o {
        Some(x) => Some(x@),
        None => None,
    }
}

fn clear_str() -> (r: &'static str)
    ensures
        r@ == clear_token(),
{
    proof {
        reveal_strlit("c");
    }
    "c"
}

fn help_str() -> (r: &'static str)
    ensures
        r@ == help_token(),
{
    proof {
        reveal_strlit("help");
    }
    "help"
}

impl App {
    /// Handles one key: the session moves as `key_step` says, and the
    /// reaction tells the caller what to do next.
    pub fn handle_key(&mut self, key: Key) -> (r: Reaction)
        requires
            old(self)@.wf(),
        ensures
            final(self)@ == key_step(old(self)@, key),
            final(self)@.wf(),
            reaction_of(old(self)@, key, r),
    {
        let ghost s = self@;
        let mut reaction = Reaction::Continue;
        match self.input_mode {
            InputMode::Normal => match key {
                Key::Char('i') => {
                    self.input_mode = InputMode::Editing;
                },
                Key::Char('q') => {
                    reaction = Reaction::Quit;
                },
                _ => {},
            },
            InputMode::Editing => match key {
                Key::Enter => {
                    let command = self.input.clone();
                    self.input = String::new();
                    self.history.push(command.clone());
                    self.output = String::new();
                    assert(strings_view(self.history@) =~= s.history.push(command@));
                    if same_text(command.as_str(), clear_str()) {
                    } else if same_text(command.as_str(), help_str()) {
                        self.input_mode = InputMode::Helper;
                    } else {
                        self.command = command;
                        self.input_mode = InputMode::Output;
                    }
                },
                Key::Char(c) => {
                    push_char(&mut self.input, c);
                },
                Key::Backspace => {
                    let n = self.input.as_str().unicode_len();
                    if n > 0 {
                        let shorter = String::from_str(self.input.as_str().substring_char(0, n - 1));
                        assert(shorter@ =~= s.input.drop_last());
                        self.input = shorter;
                    }
                },
                Key::Esc => {
                    self.input_mode = InputMode::Normal;
                },
                Key::Tab => {
                    self.completion.clear();
                    self.completion_display.clear();
                    self.completion_index = 0;
                    self.input_mode = InputMode::Completion;
                    assert(strings_view(self.completion@) =~= seq![]);
                    assert(strings_view(self.completion_display@) =~= seq![]);
                    match create_completion(self.input.as_str(), self.path.as_str()) {
                        Some(q) => {
                            reaction = Reaction::ListDirectories(q);
                        },
                        None => {},
                    }
                },
                Key::Down => {
                    self.history_index = 0;
                    self.input_mode = InputMode::History;
                },
                _ => {},
            },
            InputMode::Completion => match key {
                Key::Enter => {
                    self.input_mode = InputMode::Editing;
                    if self.completion.len() > 0 {
                        self.input = self.completion[self.completion_index].clone();
                    }
                },
                Key::Esc => {
                    self.input_mode = InputMode::Editing;
                },
                Key::Tab => {
                    if self.completion.len() == 0 || self.completion_index + 1 > self.completion.len() - 1 {
                        self.completion_index = 0;
                    } else {
                        self.completion_index = self.completion_index + 1;
                    }
                },
                _ => {},
            },
            InputMode::History => match key {
                Key::Enter => {
                    self.input_mode = InputMode::Editing;
                    if self.history.len() > 0 {
                        self.input = self.history[self.history_index].clone();
                    }
                },
                Key::Esc => {
                    self.input_mode = InputMode::Editing;
                },
                Key::Tab => {
                    if self.history.len() == 0 || self.history_index + 1 > self.history.len() - 1 {
                        self.history_index = 0;
                    } else {
                        self.history_index = self.history_index + 1;
                    }
                },
                _ => {},
            },
            InputMode::Helper => match key {
                Key::Esc => {
                    self.input_mode = InputMode::Editing;
                },
                _ => {},
            },
            InputMode::Output => match key {
                Key::Esc => {
                    self.finish_execution();
                },
                _ => {},
            },
        }
        reaction
    }

    /// Ends the run of the waiting command: back to editing, nothing waits.
    pub fn finish_execution(&mut self)
        ensures
            final(self)@ == finished(old(self)@),
            old(self)@.wf() ==> final(self)@.wf(),
    {
        self.input_mode = InputMode::Editing;
        self.command = String::new();
    }

    /// Replaces the completion candidates with those for the subdirectories
    /// `names` of the listed directory that begin with `partial`, the cursor
    /// on the first.
    pub fn fill_completion(&mut self, prefix: &str, partial: &str, names: &Vec<String>)
        requires
            old(self)@.wf(),
        ensures
            final(self)@ == (SessionView {
                completion: replacements(prefix@, partial@, strings_view(names@)),
                completion_display: labels(partial@, strings_view(names@)),
                completion_index: 0,
                ..old(self)@
            }),
            final(self)@.wf(),
    {
        let (comps, shown) = cd_completion(prefix, partial, names);
        self.completion = comps;
        self.completion_display = shown;
        self.completion_index = 0;
        proof {
            lemma_labels_len(prefix@, partial@, strings_view(names@));
        }
    }

    /// On an idle tick in output mode, what the waiting command asks for; a
    /// command line without words is reported in the output and done at
    /// once. In other modes nothing happens.
    pub fn idle_tick(&mut self) -> (r: Option<Invocation>)
        ensures
            old(self)@.mode != InputMode::Output ==> r is None && final(self)@ == old(self)@,
            old(self)@.mode == InputMode::Output ==> invocation_of(old(self)@.command, r),
            old(self)@.mode == InputMode::Output && r is None ==> final(self)@ == finished(
                SessionView { output: old(self)@.output + blank_error(), ..old(self)@ },
            ),
            r is Some ==> final(self)@ == old(self)@,
            old(self)@.wf() ==> final(self)@.wf(),
    {
        if self.input_mode != InputMode::Output {
            return None;
        }
        let r = run_command(self.command.as_str());
        if r.is_none() {
            self.output.append("no command to run");
            push_char(&mut self.output, '\n');
            assert(self.output@ =~= old(self).output@ + blank_error());
            self.finish_execution();
        }
        r
    }

    /// Adds one line of the running command's output.
    pub fn push_output_line(&mut self, line: &str)
        ensures
            final(self)@ == with_line(old(self)@, line@),
            old(self)@.wf() ==> final(self)@.wf(),
    {
        self.output.append(line);
        push_char(&mut self.output, '\n');
        assert(self.output@ =~= old(self).output@ + line@ + seq!['\n']);
    }

    /// Records that `program` could not be started, and ends the run.
    pub fn report_spawn_failure(&mut self, program: &str)
        ensures
            final(self)@ == finished(SessionView { output: old(self)@.output + spawn_error(program@), ..old(self)@ }),
            old(self)@.wf() ==> final(self)@.wf(),
    {
        self.output.append(program);
        self.output.append(": command not found or failed to start");
        push_char(&mut self.output, '\n');
        assert(self.output@ =~= old(self).output@ + spawn_error(program@));
        self.finish_execution();
    }

    /// Ends `cd target`: `resolved` is the absolute path of the directory
    /// entered, or nothing when it could not be entered.
    pub fn apply_cd(&mut self, target: &str, resolved: Option<String>)
        ensures
            final(self)@ == cd_outcome(old(self)@, target@, opt_view(resolved)),
            old(self)@.wf() ==> final(self)@.wf(),
    {
        match resolved {
            Some(p) => {
                self.path = p;
            },
            None => {
                self.output.append("cd: no such directory: ");
                self.output.append(target);
                push_char(&mut self.output, '\n');
                assert(self.output@ =~= old(self).output@ + cd_error(target@));
            },
        }
        self.finish_execution();
    }
}

} // verus!
