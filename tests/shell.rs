use cli_shell::command::{exit, Command, Handler, Outcome};
use cli_shell::registry::Registry;
use cli_shell::shell::{
    create_cli, destroy_cli, handle_event, init_cli, process_command, register_commands,
    report_line, Action, Event,
};
use cli_shell::tokenizer::{is_whitespace_char, tokenise_line};

fn tokens_of(line: &str) -> Vec<String> {
    let mut v = Vec::new();
    tokenise_line(line.to_string(), &mut v);
    v
}

fn words(ws: &[&str]) -> Vec<String> {
    ws.iter().map(|w| w.to_string()).collect()
}

fn line(s: &str) -> Event {
    Event::Line(s.to_string())
}

#[test]
fn blank_lines_have_no_tokens() {
    assert!(tokens_of("").is_empty());
    assert!(tokens_of(" ").is_empty());
    assert!(tokens_of("   \t  \n").is_empty());
    assert!(tokens_of("\r\n").is_empty());
    assert!(tokens_of("\u{3000}\u{a0}\u{2003}").is_empty());
}

#[test]
fn spaced_line_gives_two_tokens() {
    assert_eq!(tokens_of("  test   now "), words(&["test", "now"]));
}

#[test]
fn single_word_line() {
    assert_eq!(tokens_of("test"), words(&["test"]));
    assert_eq!(tokens_of("test\n"), words(&["test"]));
}

#[test]
fn tabs_and_newlines_separate_tokens() {
    assert_eq!(tokens_of("a\tb\nc  d"), words(&["a", "b", "c", "d"]));
}

#[test]
fn unicode_whitespace_separates_tokens() {
    assert_eq!(tokens_of("x\u{2003}y\u{3000}z"), words(&["x", "y", "z"]));
    // U+200B (zero width space) is not whitespace.
    assert_eq!(tokens_of("x\u{200b}y"), words(&["x\u{200b}y"]));
}

#[test]
fn no_quoting_or_comments() {
    assert_eq!(
        tokens_of("say \"a b\" # c"),
        words(&["say", "\"a", "b\"", "#", "c"])
    );
}

#[test]
fn tokens_are_appended() {
    let mut v = words(&["first"]);
    tokenise_line(" second  third".to_string(), &mut v);
    assert_eq!(v, words(&["first", "second", "third"]));
}

#[test]
fn whitespace_agrees_with_char_is_whitespace() {
    for n in 0u32..=0x10ffff {
        if let Some(c) = char::from_u32(n) {
            assert_eq!(is_whitespace_char(c), c.is_whitespace(), "U+{:04X}", n);
        }
    }
}

#[test]
fn test_command_succeeds() {
    let r = create_cli();
    assert_eq!(
        process_command(&r, &words(&["test"])),
        Outcome::Report(Ok("test!".to_string()))
    );
}

#[test]
fn extra_tokens_are_not_passed_on() {
    let r = create_cli();
    assert_eq!(
        process_command(&r, &words(&["test", "now", "please"])),
        Outcome::Report(Ok("test!".to_string()))
    );
}

#[test]
fn exit_command_terminates_with_zero() {
    let r = create_cli();
    assert_eq!(process_command(&r, &words(&["exit"])), Outcome::Terminate(0));
    assert_eq!(handle_event(&r, line("exit")), Action::Exit(0));
    assert_eq!(handle_event(&r, line("  exit now ")), Action::Exit(0));
}

#[test]
fn unknown_command_fails_and_loop_goes_on() {
    let r = create_cli();
    assert_eq!(
        process_command(&r, &words(&["unknown"])),
        Outcome::Report(Err("command not found".to_string()))
    );
    assert_eq!(
        handle_event(&r, line("unknown")),
        Action::Report("ERROR: command not found".to_string())
    );
}

#[test]
fn lookup_is_exact_and_case_sensitive() {
    let r = create_cli();
    for name in ["Test", "TEST", "tes", "tests", "exi", "exit!", ""] {
        assert_eq!(
            process_command(&r, &words(&[name])),
            Outcome::Report(Err("command not found".to_string())),
            "{}",
            name
        );
    }
}

#[test]
fn reregistering_replaces_the_handler() {
    let mut r = create_cli();
    r.register(Command::new("test".to_string(), 7, Handler::Exit));
    assert_eq!(process_command(&r, &words(&["test"])), Outcome::Terminate(0));
    let c = r.lookup(&"test".to_string()).unwrap();
    assert_eq!(c.id(), 7);
    assert_eq!(c.handler(), Handler::Exit);
}

#[test]
fn registering_twice_keeps_the_last() {
    let mut r = Registry::new();
    r.register(Command::new("test".to_string(), 0, Handler::Test));
    r.register(Command::new("test".to_string(), 5, Handler::Exit));
    let c = r.lookup(&"test".to_string()).unwrap();
    assert_eq!(c.name(), "test");
    assert_eq!(c.id(), 5);
    assert_eq!(c.handler(), Handler::Exit);
    assert!(r.lookup(&"exit".to_string()).is_none());
}

#[test]
fn registration_leaves_other_names() {
    let mut r = Registry::new();
    r.register(Command::new("a".to_string(), 1, Handler::Test));
    r.register(Command::new("b".to_string(), 2, Handler::Exit));
    r.register(Command::new("a".to_string(), 3, Handler::Exit));
    assert_eq!(r.lookup(&"b".to_string()).unwrap().id(), 2);
    assert_eq!(r.lookup(&"a".to_string()).unwrap().id(), 3);
}

#[test]
fn empty_registry_finds_nothing() {
    let r = Registry::new();
    assert!(r.lookup(&"test".to_string()).is_none());
    assert_eq!(
        process_command(&r, &words(&["test"])),
        Outcome::Report(Err("command not found".to_string()))
    );
}

#[test]
fn builtin_commands_are_registered() {
    let r = init_cli();
    let t = r.lookup(&"test".to_string()).unwrap();
    assert_eq!((t.name().as_str(), t.id(), t.handler()), ("test", 0, Handler::Test));
    let e = r.lookup(&"exit".to_string()).unwrap();
    assert_eq!((e.name().as_str(), e.id(), e.handler()), ("exit", 1, Handler::Exit));
    destroy_cli(r);
}

#[test]
fn register_commands_adds_to_existing() {
    let mut r = Registry::new();
    r.register(Command::new("other".to_string(), 9, Handler::Test));
    r.register(Command::new("exit".to_string(), 9, Handler::Test));
    register_commands(&mut r);
    assert_eq!(r.lookup(&"other".to_string()).unwrap().id(), 9);
    assert_eq!(r.lookup(&"exit".to_string()).unwrap().id(), 1);
    assert_eq!(r.lookup(&"exit".to_string()).unwrap().handler(), Handler::Exit);
}

#[test]
fn blank_line_continues_silently() {
    let r = create_cli();
    assert_eq!(handle_event(&r, line("")), Action::Continue);
    assert_eq!(handle_event(&r, line("  \t \n")), Action::Continue);
}

#[test]
fn test_line_reports_ok() {
    let r = create_cli();
    assert_eq!(
        handle_event(&r, line("  test   now \n")),
        Action::Report("OK: test!".to_string())
    );
}

#[test]
fn end_of_input_and_read_failure_exit() {
    let r = create_cli();
    assert_eq!(handle_event(&r, Event::EndOfInput), Action::Exit(0));
    assert_eq!(handle_event(&r, Event::ReadFailed), Action::Exit(1));
}

#[test]
fn report_lines_are_labelled() {
    assert_eq!(report_line(&Ok("done".to_string())), "OK: done");
    assert_eq!(report_line(&Err("bad".to_string())), "ERROR: bad");
    assert_eq!(report_line(&Ok(String::new())), "OK: ");
}

#[test]
fn handlers_produce_their_outcomes() {
    assert_eq!(cli_shell::command::test(), Ok("test!".to_string()));
    assert_eq!(exit(), Outcome::Terminate(0));
    assert_eq!(Handler::Test.execute(), Outcome::Report(Ok("test!".to_string())));
    assert_eq!(Handler::Exit.execute(), Outcome::Terminate(0));
    let c = Command::new("x".to_string(), 3, Handler::Test);
    assert_eq!(c.execute(), Outcome::Report(Ok("test!".to_string())));
}
