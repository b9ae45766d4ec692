//! The session state: the current mode, the command line being edited, the
//! output panel, the completion candidates and the history of commands.
use vstd::prelude::*;

verus! {

/// The interaction mode, which decides how keys are read and which panel is shown.
#[derive(Clone, Copy, Debug, PartialEq, Eq, Structural)]
pub enum InputMode {
    Normal,
    Editing,
    Completion,
    History,
    Helper,
    Output,
}

/// The whole state of one interactive session.
pub struct App {
    /// The command line being edited.
    pub input: String,
    /// The command line submitted and waiting to be run.
    pub command: String,
    pub input_mode: InputMode,
    /// Text produced by the last command.
    pub output: String,
    /// The working directory, as an absolute path.
    pub path: String,
    /// Replacement command lines offered by completion.
    pub completion: Vec<String>,
    /// The label shown for each completion candidate.
    pub completion_display: Vec<String>,
    pub completion_index: usize,
    /// Submitted command lines, oldest first.
    pub history: Vec<String>,
    pub history_index: usize,
    /// The tagged help text, one entry per line.
    pub helper: Vec<String>,
}

/// The mathematical value of a session.
pub struct SessionView {
    pub input: Seq<char>,
    pub command: Seq<char>,
    pub mode: InputMode,
    pub output: Seq<char>,
    pub path: Seq<char>,
    pub completion: Seq<Seq<char>>,
    pub completion_display: Seq<Seq<char>>,
    pub completion_index: int,
    pub history: Seq<Seq<char>>,
    pub history_index: int,
    pub helper: Seq<Seq<char>>,
}

impl View for App {
    type V = SessionView;

    open spec fn view(&self) -> SessionView {
        SessionView {
            input: self.input@,
            command: self.command@,
            mode: self.input_mode,
            output: self.output@,
            path: self.path@,
            completion: crate::text::strings_view(self.completion@),
            completion_display: crate::text::strings_view(self.completion_display@),
            completion_index: self.completion_index as int,
            history: crate::text::strings_view(self.history@),
            history_index: self.history_index as int,
            helper: crate::text::strings_view(self.helper@),
        }
    }
}

/// A cursor into a list of `len` entries: inside it, or 0 when it is empty.
pub open spec fn cursor_ok(cursor: int, len: int) -> bool {
    if len == 0 {
        cursor == 0
    } else {
        0 <= cursor < len
    }
}

impl SessionView {
    /// Each candidate has its label, both cursors point into their lists, and
    /// a command waits only in output mode.
    pub open spec fn wf(self) -> bool {
        &&& self.completion.len() == self.completion_display.len()
        &&& cursor_ok(self.completion_index, self.completion.len() as int)
        &&& cursor_ok(self.history_index, self.history.len() as int)
        &&& self.mode != InputMode::Output ==> self.command.len() == 0
    }
}

/// The help text shown in helper mode.
pub open spec fn help_lines() -> Seq<Seq<char>> {
    seq![
        "<h1>Keybindings:</h1>"@,
        "    <h2>NORMAL MODE</h2>"@,
        "        <c>I:</c>      <i>enter insert mode</i>"@,
        "        <c>Q:</c>      <i>quit shell</i>"@,
        "    <h2>INSERT MODE</h2>"@,
        "        <c>Tab:</c>    <i>enable completion mode</i>"@,
        "        <c>Down:</c>   <i>enable history mode</i>"@,
        "    <h2>COMPLETION MODE</h2>"@,
        "        <c>Tab:</c>    <i>select completion pattern</i>"@,
        "        <c>Enter:</c>  <i>use selected completion pattern</i>"@,
        "        <c>Esc:</c>    <i>exit completion mode</i>"@,
        "    <h2>HISTORY MODE</h2>"@,
        "        <c>Tab:</c>    <i>select history command</i>"@,
        "        <c>Enter:</c>  <i>use selected history command</i>"@,
        "        <c>Esc:</c>    <i>exit history mode</i>"@,
        "<h1>Custom commands:</h1>"@,
        "    <c>help:</c>    <i>show helping popup</i>"@,
        "    <c>c:</c>       <i>clear output</i>"@,
    ]
}

fn help_text() -> (r: Vec<String>)
    ensures
        crate::text::strings_view(r@) == help_lines(),
{
    let r = vec![
        String::from_str("<h1>Keybindings:</h1>"),
        String::from_str("    <h2>NORMAL MODE</h2>"),
        String::from_str("        <c>I:</c>      <i>enter insert mode</i>"),
        String::from_str("        <c>Q:</c>      <i>quit shell</i>"),
        String::from_str("    <h2>INSERT MODE</h2>"),
        String::from_str("        <c>Tab:</c>    <i>enable completion mode</i>"),
        String::from_str("        <c>Down:</c>   <i>enable history mode</i>"),
        String::from_str("    <h2>COMPLETION MODE</h2>"),
        String::from_str("        <c>Tab:</c>    <i>select completion pattern</i>"),
        String::from_str("        <c>Enter:</c>  <i>use selected completion pattern</i>"),
        String::from_str("        <c>Esc:</c>    <i>exit completion mode</i>"),
        String::from_str("    <h2>HISTORY MODE</h2>"),
        String::from_str("        <c>Tab:</c>    <i>select history command</i>"),
        String::from_str("        <c>Enter:</c>  <i>use selected history command</i>"),
        String::from_str("        <c>Esc:</c>    <i>exit history mode</i>"),
        String::from_str("<h1>Custom commands:</h1>"),
        String::from_str("    <c>help:</c>    <i>show helping popup</i>"),
        String::from_str("    <c>c:</c>       <i>clear output</i>"),
    ];
    assert(crate::text::strings_view(r@) =~= help_lines());
    r
}

impl App {
    /// A fresh session in normal mode, working in `path`, with empty buffers
    /// and the help text.
    pub fn new(path: String) -> (r: App)
        ensures
            r@ == (SessionView {
                input: seq![],
                command: seq![],
                mode: InputMode::Normal,
                output: seq![],
                path: path@,
                completion: seq![],
                completion_display: seq![],
                completion_index: 0,
                history: seq![],
                history_index: 0,
                helper: help_lines(),
            }),
            r@.wf(),
    {
        let r = App {
            input: String::new(),
            command: String::new(),
            input_mode: InputMode::Normal,
            output: String::new(),
            path,
            completion: Vec::new(),
            completion_display: Vec::new(),
            completion_index: 0,
            history: Vec::new(),
            history_index: 0,
            helper: help_text(),
        };
        assert(r@.completion =~= seq![]);
        assert(r@.completion_display =~= seq![]);
        assert(r@.history =~= seq![]);
        r
    }
}

} // verus!
