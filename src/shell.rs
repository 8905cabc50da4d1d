//! Dispatching tokens to commands, and the decisions of the shell loop: what
//! to do with each line of input, or with the end of the input.
use vstd::prelude::*;

use crate::command::{Command, CommandResult, CommandView, Handler, Outcome, OutcomeView};
use crate::registry::{registered, resolve, Registry};
use crate::tokenizer::{tokenise_line, tokens, views};

verus! {

/// The outcome of dispatching the command name `name` against `m`: the
/// handler's own outcome, or a failure when no command has that name.
pub open spec fn dispatched(m: Map<Seq<char>, CommandView>, name: Seq<char>) -> OutcomeView {
    match resolve(m, name) {
        Some(c) => c.handler.spec_outcome(),
        None => OutcomeView::Failure("command not found"@),
    }
}

/// A name that no command is registered under dispatches to the failure
/// `command not found`.
pub proof fn law_unknown_command_fails(m: Map<Seq<char>, CommandView>, name: Seq<char>)
    requires
        !m.contains_key(name),
    ensures
        dispatched(m, name) == OutcomeView::Failure("command not found"@),
{
}

/// Resolves the first token against `commands` and invokes what it names.
/// The remaining tokens are not passed on.
pub fn process_command(commands: &Registry, token_vec: &Vec<String>) -> (r: Outcome)
    requires
        token_vec@.len() > 0,
    ensures
        r@ == dispatched(commands@, token_vec@[0]@),
{
    match commands.lookup(&token_vec[0]) {
        Some(command) => command.execute(),
        None => Outcome::Report(Err("command not found".to_owned())),
    }
}

/// The line printed for a result: its message after `OK: ` or `ERROR: `.
pub open spec fn report_text(success: bool, message: Seq<char>) -> Seq<char> {
    if success {
        "OK: "@ + message
    } else {
        "ERROR: "@ + message
    }
}

/// The line printed for `result`.
pub fn report_line(result: &CommandResult) -> (r: String)
    ensures
        r@ == match result {
            Ok(m) => report_text(true, m@),
            Err(e) => report_text(false, e@),
        },
{
    match result {
        Ok(m) => {
            let mut line = "OK: ".to_owned();
            line.append(m.as_str());
            line
        },
        Err(e) => {
            let mut line = "ERROR: ".to_owned();
            line.append(e.as_str());
            line
        },
    }
}

/// What the shell receives on each turn of its loop.
#[derive(Debug, PartialEq, Eq)]
pub enum Event {
    /// A line of input.
    Line(String),
    /// The input has no more lines.
    EndOfInput,
    /// Reading the input failed.
    ReadFailed,
}

/// What the shell does next.
#[derive(Debug, PartialEq, Eq)]
pub enum Action {
    /// Prompt for the next line without printing anything.
    Continue,
    /// Print this line, then prompt for the next one.
    Report(String),
    /// End the process with this exit code, printing nothing.
    Exit(i32),
}

/// The mathematical model of an `Action`.
pub enum ActionView {
    Continue,
    Report(Seq<char>),
    Exit(i32),
}

impl View for Action {
    type V = ActionView;

    open spec fn view(&self) -> ActionView {
        match self {
            Action::Continue => ActionView::Continue,
            Action::Report(s) => ActionView::Report(s@),
            Action::Exit(code) => ActionView::Exit(*code),
        }
    }
}

/// What the shell does with an outcome: it reports a result, and ends the
/// process on request.
pub open spec fn outcome_action(o: OutcomeView) -> ActionView {
    match o {
        OutcomeView::Success(m) => ActionView::Report(report_text(true, m)),
        OutcomeView::Failure(e) => ActionView::Report(report_text(false, e)),
        OutcomeView::Terminate(code) => ActionView::Exit(code),
    }
}

/// What the shell does with the line `line`: nothing for a blank line, else
/// what dispatching its first token calls for.
pub open spec fn line_action(m: Map<Seq<char>, CommandView>, line: Seq<char>) -> ActionView {
    let t = tokens(line);
    if t.len() == 0 {
        ActionView::Continue
    } else {
        outcome_action(dispatched(m, t[0]))
    }
}

/// One turn of the shell loop: decides what to do with `event`. The end of
/// the input ends the process successfully; a failed read ends it with
/// exit code 1.
pub fn handle_event(commands: &Registry, event: Event) -> (r: Action)
    ensures
        r@ == match event {
            Event::Line(line) => line_action(commands@, line@),
            Event::EndOfInput => ActionView::Exit(0),
            Event::ReadFailed => ActionView::Exit(1),
        },
{
    match event {
        Event::Line(line) => {
            let ghost text = line@;
            let mut token_vec: Vec<String> = Vec::new();
            proof {
                assert(views(token_vec@) == Seq::<Seq<char>>::empty());
            }
            tokenise_line(line, &mut token_vec);
            assert(views(token_vec@) == tokens(text));
            if token_vec.len() == 0 {
                Action::Continue
            } else {
                assert(views(token_vec@)[0] == token_vec@[0]@);
                match process_command(commands, &token_vec) {
                    Outcome::Report(result) => Action::Report(report_line(&result)),
                    Outcome::Terminate(code) => Action::Exit(code),
                }
            }
        },
        Event::EndOfInput => Action::Exit(0),
        Event::ReadFailed => Action::Exit(1),
    }
}

/// The `test` command as registered at startup.
pub open spec fn test_command() -> CommandView {
    CommandView { name: "test"@, id: 0, handler: Handler::Test }
}

/// The `exit` command as registered at startup.
pub open spec fn exit_command() -> CommandView {
    CommandView { name: "exit"@, id: 1, handler: Handler::Exit }
}

/// Registers the built-in commands `test` and `exit`.
pub fn register_commands(commands: &mut Registry)
    ensures
        final(commands)@ == registered(registered(old(commands)@, test_command()), exit_command()),
{
    proof {
        reveal_strlit("test");
        reveal_strlit("exit");
    }
    let c1 = Command::new("test".to_owned(), 0, Handler::Test);
    let c2 = Command::new("exit".to_owned(), 1, Handler::Exit);
    commands.register(c1);
    commands.register(c2);
}

/// The registry that the shell starts with.
pub open spec fn builtin_registry() -> Map<Seq<char>, CommandView> {
    registered(registered(Map::empty(), test_command()), exit_command())
}

/// A new registry holding the built-in commands.
pub fn init_cli() -> (r: Registry)
    ensures
        r@ == builtin_registry(),
{
    let mut commands = Registry::new();
    register_commands(&mut commands);
    commands
}

/// Sets up the shell: its registry with the built-in commands.
pub fn create_cli() -> (r: Registry)
    ensures
        r@ == builtin_registry(),
{
    init_cli()
}

/// Tears down the shell, releasing its registry.
pub fn destroy_cli(commands: Registry) {
    let _ = commands;
}

} // verus!
