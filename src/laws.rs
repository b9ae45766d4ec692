//! Properties of the state machine over sequences of keys and runs.
use vstd::prelude::*;
use crate::machine::{clear_token, finished, help_token, key_step, with_line, Key};
use crate::session::{InputMode, SessionView};

verus! {

/// The session after `n` presses of Tab.
pub open spec fn tab_presses(s: SessionView, n: nat) -> SessionView
    decreases n,
{
    if n == 0 {
        s
    } else {
        key_step(tab_presses(s, (n - 1) as nat), Key::Tab)
    }
}

/// The session after each key of `keys`, in order.
pub open spec fn run_keys(s: SessionView, keys: Seq<Key>) -> SessionView
    decreases keys.len(),
{
    if keys.len() == 0 {
        s
    } else {
        key_step(run_keys(s, keys.drop_last()), keys.last())
    }
}

/// The session after the output lines `lines`, in order.
pub open spec fn append_lines(s: SessionView, lines: Seq<Seq<char>>) -> SessionView
    decreases lines.len(),
{
    if lines.len() == 0 {
        s
    } else {
        with_line(append_lines(s, lines.drop_last()), lines.last())
    }
}

/// The lines `lines`, each ended by a newline.
pub open spec fn joined(lines: Seq<Seq<char>>) -> Seq<char>
    decreases lines.len(),
{
    if lines.len() == 0 {
        seq![]
    } else {
        joined(lines.drop_last()) + lines.last() + seq!['\n']
    }
}

/// `a` begins with `b`.
pub open spec fn starts_with(a: Seq<Seq<char>>, b: Seq<Seq<char>>) -> bool {
    b.len() <= a.len() && a.subrange(0, b.len() as int) == b
}

/// In completion mode with candidates and the cursor on the first, Tab moves
/// the cursor one candidate on per press: after `n` presses with `n` below the
/// number of candidates it stands on the `n`-th, after as many presses as
/// there are candidates it is back on the first.
pub proof fn lemma_tab_cycle(s: SessionView, n: nat)
    requires
        s.wf(),
        s.mode == InputMode::Completion,
        s.completion.len() > 0,
        s.completion_index == 0,
        n <= s.completion.len(),
    ensures
        tab_presses(s, n).mode == InputMode::Completion,
        tab_presses(s, n).completion == s.completion,
        n < s.completion.len() ==> tab_presses(s, n).completion_index == n,
        n == s.completion.len() ==> tab_presses(s, n).completion_index == 0,
    decreases n,
{
    if n > 0 {
        lemma_tab_cycle(s, (n - 1) as nat);
    }
}

/// With no candidate, or no history, Tab leaves the cursor at 0 and Enter
/// leaves the command line as it was, returning to editing.
pub proof fn lemma_empty_selection(s: SessionView)
    requires
        s.wf(),
        s.mode == InputMode::Completion && s.completion.len() == 0 || s.mode == InputMode::History
            && s.history.len() == 0,
    ensures
        key_step(s, Key::Tab) == s,
        key_step(s, Key::Enter).input == s.input,
        key_step(s, Key::Enter).mode == InputMode::Editing,
{
}

/// Submitting the clear command empties the output and stays in editing,
/// with no command waiting to be run.
pub proof fn lemma_clear_command(s: SessionView)
    requires
        s.wf(),
        s.mode == InputMode::Editing,
        s.input == clear_token(),
    ensures
        key_step(s, Key::Enter).output.len() == 0,
        key_step(s, Key::Enter).mode == InputMode::Editing,
        key_step(s, Key::Enter).command.len() == 0,
{
}

/// Submitting any other command moves from editing to output mode with the
/// command waiting; once its output lines are all in and the run is done, the
/// session is back in editing, nothing waits, and the output is exactly those
/// lines, each ended by a newline.
pub proof fn lemma_command_round(s: SessionView, lines: Seq<Seq<char>>)
    requires
        s.wf(),
        s.mode == InputMode::Editing,
        s.input != clear_token(),
        s.input != help_token(),
    ensures
        key_step(s, Key::Enter).mode == InputMode::Output,
        key_step(s, Key::Enter).command == s.input,
        finished(append_lines(key_step(s, Key::Enter), lines)).mode == InputMode::Editing,
        finished(append_lines(key_step(s, Key::Enter), lines)).output == joined(lines),
        finished(append_lines(key_step(s, Key::Enter), lines)).command.len() == 0,
        finished(append_lines(key_step(s, Key::Enter), lines)).history == s.history.push(s.input),
{
    lemma_append_lines(key_step(s, Key::Enter), lines);
}

proof fn lemma_append_lines(s: SessionView, lines: Seq<Seq<char>>)
    ensures
        append_lines(s, lines).output == s.output + joined(lines),
        append_lines(s, lines).mode == s.mode,
        append_lines(s, lines).history == s.history,
    decreases lines.len(),
{
    if lines.len() > 0 {
        lemma_append_lines(s, lines.drop_last());
        assert(append_lines(s, lines).output =~= s.output + joined(lines));
    }
}

/// A key only ever appends to the history: the submitted command line on
/// Enter while editing, nothing otherwise.
pub proof fn lemma_history_step(s: SessionView, k: Key)
    ensures
        key_step(s, k).history == (if s.mode == InputMode::Editing && k == Key::Enter {
            s.history.push(s.input)
        } else {
            s.history
        }),
{
}

/// Over any sequence of keys the history keeps its earlier entries, in order.
pub proof fn lemma_history_append_only(s: SessionView, keys: Seq<Key>)
    ensures
        starts_with(run_keys(s, keys).history, s.history),
    decreases keys.len(),
{
    if keys.len() > 0 {
        let mid = run_keys(s, keys.drop_last());
        lemma_history_append_only(s, keys.drop_last());
        lemma_history_step(mid, keys.last());
        assert(run_keys(s, keys).history.subrange(0, s.history.len() as int) =~= s.history);
    } else {
        assert(s.history.subrange(0, s.history.len() as int) =~= s.history);
    }
}

/// Every key keeps the session well formed: each candidate has its label and
/// both cursors stay inside their lists (at 0 when a list is empty).
pub proof fn lemma_key_step_wf(s: SessionView, k: Key)
    requires
        s.wf(),
    ensures
        key_step(s, k).wf(),
{
}

/// A well-formed session stays well formed over any sequence of keys.
pub proof fn lemma_run_keys_wf(s: SessionView, keys: Seq<Key>)
    requires
        s.wf(),
    ensures
        run_keys(s, keys).wf(),
    decreases keys.len(),
{
    if keys.len() > 0 {
        lemma_run_keys_wf(s, keys.drop_last());
        lemma_key_step_wf(run_keys(s, keys.drop_last()), keys.last());
    }
}

} // verus!
