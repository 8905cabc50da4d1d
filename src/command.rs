//! Commands, their handlers, and what invoking a handler produces.
use vstd::prelude::*;

verus! {

/// The outcome that a handler reports: a message on success, or an error
/// message on failure.
pub type CommandResult = Result<String, String>;

/// What invoking a command yields: a result to report, or a request to end
/// the process with the given exit code.
#[derive(Debug, PartialEq, Eq)]
pub enum Outcome {
    Report(CommandResult),
    Terminate(i32),
}

/// The mathematical model of an `Outcome`.
pub enum OutcomeView {
    Success(Seq<char>),
    Failure(Seq<char>),
    Terminate(i32),
}

impl View for Outcome {
    type V = OutcomeView;

    open spec fn view(&self) -> OutcomeView {
        match self {
            Outcome::Report(Ok(m)) => OutcomeView::Success(m@),
            Outcome::Report(Err(e)) => OutcomeView::Failure(e@),
            Outcome::Terminate(code) => OutcomeView::Terminate(*code),
        }
    }
}

/// The behaviour bound to a command: one variant per built-in command.
#[derive(Clone, Copy, Debug, PartialEq, Eq, Structural)]
pub enum Handler {
    /// Succeeds with the message `test!`.
    Test,
    /// Ends the process with exit code 0, reporting nothing.
    Exit,
}

impl Handler {
    /// What invoking the handler yields.
    pub open spec fn spec_outcome(self) -> OutcomeView {
        match self {
            Handler::Test => OutcomeView::Success("test!"@),
            Handler::Exit => OutcomeView::Terminate(0),
        }
    }

    /// Invokes the handler.
    pub fn execute(&self) -> (r: Outcome)
        ensures
            r@ == self.spec_outcome(),
    {
        match self {
            Handler::Test => Outcome::Report(test()),
            Handler::Exit => exit(),
        }
    }
}

/// The body of the `test` command.
pub fn test() -> (r: CommandResult)
    ensures
        r matches Ok(m) && m@ == "test!"@,
{
    Ok("test!".to_owned())
}

/// The body of the `exit` command: a request to end the process successfully.
pub fn exit() -> (r: Outcome)
    ensures
        r@ == OutcomeView::Terminate(0),
{
    Outcome::Terminate(0)
}

/// The mathematical model of a `Command`.
pub struct CommandView {
    pub name: Seq<char>,
    pub id: u32,
    pub handler: Handler,
}

/// A named, invocable command. Its name is never empty.
#[derive(Debug)]
pub struct Command {
    name: String,
    id: u32,
    handler: Handler,
}

impl View for Command {
    type V = CommandView;

    closed spec fn view(&self) -> CommandView {
        CommandView { name: self.name@, id: self.id, handler: self.handler }
    }
}

impl Command {
    #[verifier::type_invariant]
    spec fn name_not_empty(self) -> bool {
        self.name@.len() > 0
    }

    /// A command with the given name, informational id and handler.
    pub fn new(name: String, id: u32, handler: Handler) -> (r: Command)
        requires
            name@.len() > 0,
        ensures
            r@ == (CommandView { name: name@, id, handler }),
    {
        Command { name, id, handler }
    }

    /// The command's name, the key it is registered under.
    pub fn name(&self) -> (r: &String)
        ensures
            r@ == self@.name,
            r@.len() > 0,
    {
        proof {
            use_type_invariant(self);
        }
        &self.name
    }

    /// The command's informational id.
    pub fn id(&self) -> (r: u32)
        ensures
            r == self@.id,
    {
        self.id
    }

    /// The command's handler.
    pub fn handler(&self) -> (r: Handler)
        ensures
            r == self@.handler,
    {
        self.handler
    }

    /// Invokes the command's handler.
    pub fn execute(&self) -> (r: Outcome)
        ensures
            r@ == self@.handler.spec_outcome(),
    {
        self.handler.execute()
    }
}

} // verus!
