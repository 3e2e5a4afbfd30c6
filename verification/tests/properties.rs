use tables::communication::DbMessage;
use tables::communication::TuiMessage;
use tables::db::response_for;
use tables::db::Db;
use tables::db::WorkerAction;
use tables::session::run_commands;
use tables::session::Session;
use tables::tui::App;
use tables::tui::KeyInput;
use tables::tui::ShellAction;

fn connected_worker() -> Db {
    let mut db = Db::new(String::from("postgres://localhost/demo"));
    db.set_connected();
    db
}

#[test]
fn single_outstanding_request_at_every_step() {
    let mut s = Session::new(connected_worker());
    assert!(s.req_chan.len() + s.resp_chan.len() <= 1);
    s.type_line(&String::from("SELECT 1"));
    assert!(s.req_chan.len() + s.resp_chan.len() <= 1);
    s.press_enter();
    assert!(s.req_chan.len() + s.resp_chan.len() <= 1);
    s.worker_run(&Ok(String::from("[(1,)]")));
    assert!(s.req_chan.len() + s.resp_chan.len() <= 1);
    s.deliver_response();
    assert!(s.req_chan.len() + s.resp_chan.len() <= 1);
}

#[test]
fn outputs_correlate_with_outcomes_in_order() {
    let cmds = vec![
        String::from("SELECT a"),
        String::from("SELECT b"),
        String::from("SELECT c"),
    ];
    let outcomes = vec![
        Ok(String::from("rows of a")),
        Err(String::from("b went wrong")),
        Ok(String::from("rows of c")),
    ];
    let (s, outs) = run_commands(&cmds, &outcomes, connected_worker());
    assert_eq!(
        outs,
        vec![
            String::from("rows of a"),
            String::from("b went wrong"),
            String::from("rows of c"),
        ]
    );
    assert_eq!(s.shell.output, "rows of c");
}

#[test]
fn history_keeps_all_submissions_in_order() {
    let cmds = vec![
        String::from("first"),
        String::from(""),
        String::from("second"),
    ];
    let outcomes = vec![
        Ok(String::from("one")),
        Ok(String::from("ignored for an empty line")),
        Err(String::from("two")),
    ];
    let (s, outs) = run_commands(&cmds, &outcomes, connected_worker());
    assert_eq!(s.shell.history, cmds);
    // the empty submission sent nothing: the previous output stood
    assert_eq!(
        outs,
        vec![String::from("one"), String::from("one"), String::from("two")]
    );
}

#[test]
fn quit_terminates_both_loops_with_nothing_in_flight() {
    let mut s = Session::new(connected_worker());
    s.type_line(&String::from("SELECT 1"));
    s.submit_command(&Ok(String::from("[(1,)]")));
    s.type_line(&String::from("quit"));
    s.submit_quit();
    assert!(s.shell.exit);
    assert!(s.worker.exit);
    assert!(s.req_chan.is_empty());
    assert!(s.resp_chan.is_empty());
    assert_eq!(s.shell.output, "[(1,)]");
}

#[test]
fn rendering_twice_gives_identical_frames() {
    let mut s = Session::new(connected_worker());
    s.type_line(&String::from("SELECT 1"));
    s.submit_command(&Ok(String::from("[(1,)]")));
    s.type_line(&String::from("SEL"));
    let first = s.shell.render();
    let second = s.shell.render();
    assert_eq!(first, second);
}

#[test]
fn render_shows_history_then_input_then_output() {
    let mut s = Session::new(connected_worker());
    s.type_line(&String::from("SELECT 1"));
    s.submit_command(&Ok(String::from("[(1,)]")));
    s.type_line(&String::from("SEL"));
    let lines = s.shell.render();
    assert_eq!(
        lines,
        vec![
            String::from("> SELECT 1"),
            String::from("> SEL"),
            String::from("> [(1,)]"),
        ]
    );
}

#[test]
fn render_omits_the_output_line_while_there_is_no_output() {
    let app = App::new();
    let lines = app.render();
    assert_eq!(lines, vec![String::from("> ")]);
}

#[test]
fn keys_edit_the_input_buffer() {
    let mut app = App::new();
    assert!(matches!(
        app.handle_key_event(KeyInput::Character('a')),
        ShellAction::NoRequest
    ));
    app.handle_key_event(KeyInput::Character('b'));
    app.handle_key_event(KeyInput::Character('c'));
    assert_eq!(app.input, "abc");
    app.handle_key_event(KeyInput::Backspace);
    assert_eq!(app.input, "ab");
    app.handle_key_event(KeyInput::Other);
    assert_eq!(app.input, "ab");
    let mut empty = App::new();
    empty.handle_key_event(KeyInput::Backspace);
    assert_eq!(empty.input, "");
}

#[test]
fn enter_on_quit_asks_for_a_quit_request() {
    let mut app = App::new();
    for c in "quit".chars() {
        app.handle_key_event(KeyInput::Character(c));
    }
    let action = app.handle_key_event(KeyInput::Enter);
    assert_eq!(action, ShellAction::SendQuit);
    assert!(app.exit);
    assert!(!app.awaiting);
    assert_eq!(app.history, vec![String::from("quit")]);
    assert_eq!(app.input, "");
}

#[test]
fn enter_on_a_query_asks_for_a_query_request() {
    let mut app = App::new();
    for c in "SELECT 1".chars() {
        app.handle_key_event(KeyInput::Character(c));
    }
    let action = app.handle_key_event(KeyInput::Enter);
    assert_eq!(action, ShellAction::SendQuery(String::from("SELECT 1")));
    assert!(app.awaiting);
    assert!(!app.exit);
    app.handle_response(TuiMessage::QueryResponse(String::from("[(1,)]")));
    assert_eq!(app.output, "[(1,)]");
    assert!(!app.awaiting);
}

#[test]
fn worker_runs_queries_and_stops_on_quit_or_closed_channel() {
    let mut db = connected_worker();
    let act = db.handle_message(Some(DbMessage::Query(String::from("SELECT 1"))));
    assert_eq!(act, WorkerAction::RunQuery(String::from("SELECT 1")));
    assert!(!db.exit);

    let act = db.handle_message(Some(DbMessage::Quit));
    assert_eq!(act, WorkerAction::Idle);
    assert!(db.exit);

    let mut closed = connected_worker();
    let act = closed.handle_message(None);
    assert_eq!(act, WorkerAction::Idle);
    assert!(closed.exit);
}

#[test]
fn empty_script_leaves_everything_empty() {
    let (s, outs) = run_commands(&vec![], &vec![], connected_worker());
    assert!(s.shell.history.is_empty());
    assert!(outs.is_empty());
    assert_eq!(s.shell.output, "");
    assert_eq!(s.shell.input, "");
}

#[test]
fn multibyte_characters_are_typed_and_erased_whole() {
    let mut s = Session::new(connected_worker());
    s.type_line(&String::from("s\u{e9}lect \u{2211}"));
    assert_eq!(s.shell.input, "s\u{e9}lect \u{2211}");
    s.type_key(KeyInput::Backspace);
    assert_eq!(s.shell.input, "s\u{e9}lect ");
    s.submit_command(&Err(String::from("syntax error")));
    assert_eq!(s.shell.history, vec![String::from("s\u{e9}lect ")]);
    assert_eq!(s.shell.output, "syntax error");
}

#[test]
fn responses_carry_the_outcome_text() {
    let ok = response_for(&Ok(String::from("3 rows")));
    assert_eq!(ok, TuiMessage::QueryResponse(String::from("3 rows")));
    let err = response_for(&Err(String::from("syntax error")));
    assert_eq!(err, TuiMessage::Failure(String::from("syntax error")));
}
