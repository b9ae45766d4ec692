use shell::command::{run_command, Invocation};
use shell::completion::{begins_with_text, cd_completion, create_completion};
use shell::machine::{Key, Reaction};
use shell::markup::{construct_line, construct_message, find_from, first_tag, occurs_at_pos, Run, Style};
use shell::session::{App, InputMode};
use shell::text::{same_text, split_words};

fn parse(line: &str) -> Vec<(String, Style)> {
    let mut runs: Vec<Run> = Vec::new();
    construct_line(line, &mut runs);
    runs.into_iter().map(|r| (r.text, r.style)).collect()
}

fn fresh() -> App {
    App::new(String::from("/home/user"))
}

fn type_text(app: &mut App, s: &str) {
    for c in s.chars() {
        app.handle_key(Key::Char(c));
    }
}

fn submit(app: &mut App, s: &str) {
    type_text(app, s);
    app.handle_key(Key::Enter);
}

fn editing() -> App {
    let mut app = fresh();
    app.handle_key(Key::Char('i'));
    app
}

#[test]
fn heading_round_trip() {
    assert_eq!(parse("<h1>X</h1>"), vec![(String::from("X"), Style::Heading1)]);
}

#[test]
fn plain_line_is_one_run() {
    assert_eq!(parse("plain"), vec![(String::from("plain"), Style::Plain)]);
}

#[test]
fn empty_line_has_no_runs() {
    assert_eq!(parse(""), vec![]);
}

#[test]
fn mixed_tags_keep_text_order() {
    assert_eq!(
        parse("    <c>Tab:</c>    <i>enable completion mode</i>"),
        vec![
            (String::from("    "), Style::Plain),
            (String::from("Tab:"), Style::Command),
            (String::from("    "), Style::Plain),
            (String::from("enable completion mode"), Style::Italic),
        ]
    );
}

#[test]
fn heading_is_resolved_before_earlier_command_tag() {
    assert_eq!(
        parse("a<c>b</c>c<h2>d</h2>e"),
        vec![
            (String::from("a"), Style::Plain),
            (String::from("b"), Style::Command),
            (String::from("c"), Style::Plain),
            (String::from("d"), Style::Heading2),
            (String::from("e"), Style::Plain),
        ]
    );
}

#[test]
fn content_inside_tags_is_literal() {
    assert_eq!(parse("<h1><i>x</i></h1>"), vec![(String::from("<i>x</i>"), Style::Heading1)]);
}

#[test]
fn unmatched_tag_is_literal() {
    assert_eq!(
        parse("ab<h1>cd"),
        vec![(String::from("ab"), Style::Plain), (String::from("<h1>cd"), Style::Plain)]
    );
}

#[test]
fn closing_tag_before_opening_tag_is_not_a_match() {
    assert_eq!(
        parse("</c>x<c>y"),
        vec![(String::from("</c>x"), Style::Plain), (String::from("<c>y"), Style::Plain)]
    );
}

#[test]
fn empty_styled_content_gives_no_run() {
    assert_eq!(parse("<i></i>z"), vec![(String::from("z"), Style::Plain)]);
}

#[test]
fn message_has_one_entry_per_line() {
    let lines = vec![String::from("<h2>A</h2>"), String::from("b")];
    let msg = construct_message(&lines);
    assert_eq!(msg.len(), 2);
    assert_eq!(msg[0][0].text, "A");
    assert_eq!(msg[0][0].style, Style::Heading2);
    assert_eq!(msg[1][0].text, "b");
}

#[test]
fn help_text_parses() {
    let app = fresh();
    let msg = construct_message(&app.helper);
    assert_eq!(msg.len(), app.helper.len());
    assert_eq!(msg[0].len(), 1);
    assert_eq!(msg[0][0].text, "Keybindings:");
    assert_eq!(msg[0][0].style, Style::Heading1);
}

#[test]
fn words_split_on_white_space() {
    assert_eq!(split_words("  cd \t ..  x"), vec!["cd", "..", "x"]);
    assert!(split_words("   ").is_empty());
}

#[test]
fn text_equality() {
    assert!(same_text("help", "help"));
    assert!(!same_text("help", "hel"));
    assert!(!same_text("ab", "ac"));
}

#[test]
fn command_with_arguments_spawns() {
    match run_command(" ls  -la /tmp ") {
        Some(Invocation::Spawn { program, args }) => {
            assert_eq!(program, "ls");
            assert_eq!(args, vec!["-la", "/tmp"]);
        }
        _ => panic!("expected a program to start"),
    }
}

#[test]
fn cd_is_built_in() {
    match run_command("cd src") {
        Some(Invocation::ChangeDir(t)) => assert_eq!(t, "src"),
        _ => panic!("expected a directory change"),
    }
    match run_command("cd") {
        Some(Invocation::ChangeDir(t)) => assert_eq!(t, "/Users/"),
        _ => panic!("expected a directory change"),
    }
}

#[test]
fn blank_command_asks_nothing() {
    assert!(run_command("").is_none());
    assert!(run_command("  ").is_none());
}

#[test]
fn completion_lists_the_typed_directory() {
    let q = create_completion("cd sr", "/home/user").unwrap();
    assert_eq!(q.prefix, "");
    assert_eq!(q.partial, "sr");
    assert_eq!(q.dir, "/home/user/");
    let q = create_completion("cd", "/w").unwrap();
    assert_eq!(q.prefix, "");
    assert_eq!(q.partial, "");
    assert_eq!(q.dir, "/w/");
    let q = create_completion("cd src/ma", "/w").unwrap();
    assert_eq!(q.prefix, "src/");
    assert_eq!(q.partial, "ma");
    assert_eq!(q.dir, "/w/src/");
    let q = create_completion("cd a/b/", "/w").unwrap();
    assert_eq!(q.prefix, "a/b/");
    assert_eq!(q.partial, "");
    assert_eq!(q.dir, "/w/a/b/");
}

#[test]
fn partial_name_completes_to_matching_directory() {
    let mut app = editing();
    type_text(&mut app, "cd sr");
    let q = match app.handle_key(Key::Tab) {
        Reaction::ListDirectories(q) => q,
        _ => panic!("expected a listing"),
    };
    assert_eq!(q.dir, "/home/user/");
    let names = vec![String::from("target"), String::from("src"), String::from("srv"), String::from(".sr")];
    app.fill_completion(&q.prefix, &q.partial, &names);
    assert_eq!(app.completion_display, vec!["src", "srv"]);
    assert_eq!(app.completion, vec!["cd src/", "cd srv/"]);
    app.handle_key(Key::Enter);
    assert_eq!(app.input, "cd src/");
}

#[test]
fn completion_only_for_cd() {
    assert!(create_completion("ls sr", "/w").is_none());
    assert!(create_completion("", "/w").is_none());
    assert!(create_completion("cdx", "/w").is_none());
}

#[test]
fn candidates_skip_hidden_directories() {
    let names = vec![String::from("src"), String::from(".git"), String::from("target")];
    let (comps, shown) = cd_completion("", "", &names);
    assert_eq!(comps, vec!["cd src/", "cd target/"]);
    assert_eq!(shown, vec!["src", "target"]);
    let (comps, shown) = cd_completion("src/", "", &vec![String::from("bin")]);
    assert_eq!(comps, vec!["cd src/bin/"]);
    assert_eq!(shown, vec!["bin"]);
    let (comps, shown) = cd_completion("src/", "b", &vec![String::from("bin"), String::from("lib")]);
    assert_eq!(comps, vec!["cd src/bin/"]);
    assert_eq!(shown, vec!["bin"]);
    let (comps, _) = cd_completion("", "xyz", &vec![String::from("x")]);
    assert!(comps.is_empty());
}

#[test]
fn tab_on_cd_asks_for_listing_and_accepts_candidate() {
    let mut app = editing();
    type_text(&mut app, "cd ");
    let r = app.handle_key(Key::Tab);
    assert_eq!(app.input_mode, InputMode::Completion);
    let q = match r {
        Reaction::ListDirectories(q) => q,
        _ => panic!("expected a listing"),
    };
    assert_eq!(q.dir, "/home/user/");
    app.fill_completion(&q.prefix, &q.partial, &vec![String::from("src")]);
    assert_eq!(app.completion, vec!["cd src/"]);
    assert_eq!(app.completion_display, vec!["src"]);
    app.handle_key(Key::Enter);
    assert_eq!(app.input_mode, InputMode::Editing);
    assert_eq!(app.input, "cd src/");
}

#[test]
fn tab_on_other_command_offers_nothing() {
    let mut app = editing();
    type_text(&mut app, "ls");
    let r = app.handle_key(Key::Tab);
    assert!(matches!(r, Reaction::Continue));
    assert_eq!(app.input_mode, InputMode::Completion);
    assert!(app.completion.is_empty());
}

#[test]
fn tab_cycles_through_every_candidate() {
    let mut app = editing();
    type_text(&mut app, "cd ");
    app.handle_key(Key::Tab);
    let names = vec![String::from("a"), String::from("b"), String::from("c")];
    app.fill_completion("", "", &names);
    assert_eq!(app.completion_index, 0);
    let mut seen = Vec::new();
    for _ in 0..3 {
        seen.push(app.completion_index);
        app.handle_key(Key::Tab);
    }
    assert_eq!(seen, vec![0, 1, 2]);
    assert_eq!(app.completion_index, 0);
}

#[test]
fn empty_completion_selection_is_a_no_op() {
    let mut app = editing();
    type_text(&mut app, "ls");
    app.handle_key(Key::Tab);
    app.handle_key(Key::Tab);
    assert_eq!(app.completion_index, 0);
    app.handle_key(Key::Enter);
    assert_eq!(app.input_mode, InputMode::Editing);
    assert_eq!(app.input, "ls");
}

#[test]
fn empty_history_selection_is_a_no_op() {
    let mut app = editing();
    type_text(&mut app, "pw");
    app.handle_key(Key::Down);
    assert_eq!(app.input_mode, InputMode::History);
    app.handle_key(Key::Tab);
    assert_eq!(app.history_index, 0);
    app.handle_key(Key::Enter);
    assert_eq!(app.input_mode, InputMode::Editing);
    assert_eq!(app.input, "pw");
}

#[test]
fn history_selection_cycles_and_accepts() {
    let mut app = editing();
    submit(&mut app, "c");
    submit(&mut app, "c");
    type_text(&mut app, "x");
    app.handle_key(Key::Down);
    app.handle_key(Key::Tab);
    assert_eq!(app.history_index, 1);
    app.handle_key(Key::Tab);
    assert_eq!(app.history_index, 0);
    app.handle_key(Key::Enter);
    assert_eq!(app.input, "c");
}

#[test]
fn clear_command_empties_output() {
    let mut app = editing();
    app.output = String::from("old\n");
    submit(&mut app, "c");
    assert_eq!(app.output, "");
    assert_eq!(app.input_mode, InputMode::Editing);
    assert!(app.idle_tick().is_none());
    assert_eq!(app.input_mode, InputMode::Editing);
}

#[test]
fn command_runs_on_idle_tick() {
    let mut app = editing();
    submit(&mut app, "ls -a");
    assert_eq!(app.input_mode, InputMode::Output);
    assert_eq!(app.command, "ls -a");
    assert_eq!(app.input, "");
    match app.idle_tick() {
        Some(Invocation::Spawn { program, args }) => {
            assert_eq!(program, "ls");
            assert_eq!(args, vec!["-a"]);
        }
        _ => panic!("expected a program to start"),
    }
    assert_eq!(app.input_mode, InputMode::Output);
    app.push_output_line("one");
    app.push_output_line("two");
    app.finish_execution();
    assert_eq!(app.input_mode, InputMode::Editing);
    assert_eq!(app.output, "one\ntwo\n");
    assert_eq!(app.command, "");
}

#[test]
fn blank_submission_finishes_on_idle_tick() {
    let mut app = editing();
    app.handle_key(Key::Enter);
    assert_eq!(app.input_mode, InputMode::Output);
    assert!(app.idle_tick().is_none());
    assert_eq!(app.input_mode, InputMode::Editing);
    assert_eq!(app.output, "no command to run\n");
    assert_eq!(app.command, "");
}

#[test]
fn spawn_failure_is_reported() {
    let mut app = editing();
    submit(&mut app, "nosuch");
    app.report_spawn_failure("nosuch");
    assert_eq!(app.output, "nosuch: command not found or failed to start\n");
    assert_eq!(app.input_mode, InputMode::Editing);
}

#[test]
fn history_keeps_submission_order() {
    let mut app = editing();
    for cmd in ["ls", "pwd", "cd .."] {
        submit(&mut app, cmd);
        assert!(app.idle_tick().is_some());
        app.finish_execution();
    }
    assert_eq!(app.history, vec!["ls", "pwd", "cd .."]);
}

#[test]
fn cd_success_moves_working_directory() {
    let mut app = editing();
    submit(&mut app, "cd src");
    match app.idle_tick() {
        Some(Invocation::ChangeDir(t)) => {
            app.apply_cd(&t, Some(String::from("/home/user/src")));
        }
        _ => panic!("expected a directory change"),
    }
    assert_eq!(app.path, "/home/user/src");
    assert_eq!(app.input_mode, InputMode::Editing);
}

#[test]
fn cd_failure_keeps_working_directory() {
    let mut app = editing();
    submit(&mut app, "cd nowhere");
    app.apply_cd("nowhere", None);
    assert_eq!(app.path, "/home/user");
    assert_eq!(app.output, "cd: no such directory: nowhere\n");
    assert_eq!(app.input_mode, InputMode::Editing);
}

#[test]
fn help_scenario() {
    let mut app = fresh();
    assert_eq!(app.input_mode, InputMode::Normal);
    app.handle_key(Key::Char('i'));
    assert_eq!(app.input_mode, InputMode::Editing);
    type_text(&mut app, "help");
    app.handle_key(Key::Enter);
    assert_eq!(app.input_mode, InputMode::Helper);
    assert_eq!(app.output, "");
    app.handle_key(Key::Esc);
    assert_eq!(app.input_mode, InputMode::Editing);
}

#[test]
fn editing_keys() {
    let mut app = editing();
    type_text(&mut app, "lsx");
    app.handle_key(Key::Backspace);
    assert_eq!(app.input, "ls");
    app.handle_key(Key::Other);
    assert_eq!(app.input, "ls");
    app.handle_key(Key::Esc);
    assert_eq!(app.input_mode, InputMode::Normal);
    app.handle_key(Key::Char('x'));
    assert_eq!(app.input, "ls");
}

#[test]
fn backspace_on_empty_line() {
    let mut app = editing();
    app.handle_key(Key::Backspace);
    assert_eq!(app.input, "");
}

#[test]
fn quit_only_from_normal_mode() {
    let mut app = fresh();
    assert!(matches!(app.handle_key(Key::Char('q')), Reaction::Quit));
    app.handle_key(Key::Char('i'));
    assert!(matches!(app.handle_key(Key::Char('q')), Reaction::Continue));
    assert_eq!(app.input, "q");
}

#[test]
fn esc_in_output_mode_drops_waiting_command() {
    let mut app = editing();
    submit(&mut app, "sleep 5");
    app.handle_key(Key::Esc);
    assert_eq!(app.input_mode, InputMode::Editing);
    assert_eq!(app.command, "");
    assert!(app.idle_tick().is_none());
}

#[test]
fn search_helpers() {
    assert!(occurs_at_pos("a<c>b", "<c>", 1));
    assert!(!occurs_at_pos("a<c>b", "<c>", 2));
    assert!(!occurs_at_pos("ab", "abc", 0));
    assert_eq!(find_from("x</c>y</c>", "</c>", 0), Some(1));
    assert_eq!(find_from("x</c>y</c>", "</c>", 2), Some(6));
    assert_eq!(find_from("x</c>y", "</c>", 2), None);
    assert_eq!(first_tag("<i>a</i><h2>b</h2>"), Some(Style::Heading2));
    assert_eq!(first_tag("<c>a</c><i>b</i>"), Some(Style::Command));
    assert_eq!(first_tag("no tags"), None);
}

#[test]
fn name_start_check() {
    assert!(begins_with_text("src", "sr"));
    assert!(begins_with_text("src", ""));
    assert!(!begins_with_text("sr", "src"));
    assert!(!begins_with_text("bin", "s"));
}

#[test]
fn unicode_white_space_separates_words() {
    assert_eq!(split_words("a\u{3000}b\u{a0}c\u{85}d"), vec!["a", "b", "c", "d"]);
    assert_eq!(split_words("a\u{200b}b"), vec!["a\u{200b}b"]);
}
