//! Side effects that the library decides on and a runner carries out, in order.
use vstd::prelude::*;
use crate::text::views;

verus! {

/// A program with its arguments.
#[derive(Clone, Debug, PartialEq, Eq)]
pub struct Command {
    pub program: String,
    pub args: Vec<String>,
}

/// The abstract value of a [`Command`].
#[verifier::ext_equal]
pub struct CommandView {
    pub program: Seq<char>,
    pub args: Seq<Seq<char>>,
}

impl View for Command {
    type V = CommandView;

    open spec fn view(&self) -> CommandView {
        CommandView { program: self.program@, args: views(self.args@) }
    }
}

/// One step of work for the runner. A failing step ends the run with its error.
#[derive(Clone, Debug, PartialEq, Eq)]
pub enum Action {
    /// Print the line on standard output.
    Print(String),
    /// Run a command line through the command runner; `quiet` hides its output.
    Shell { command: String, quiet: bool },
    /// Run a command line through the command runner in the directory `dir`.
    ShellAt { command: String, dir: String, quiet: bool },
    /// Run a program directly, its output shown.
    Exec(Command),
    /// Run `first` and feed its standard output to `second`.
    Pipe(Command, Command),
    /// Append `text` to the file at `path` unless the file's content holds `marker`
    /// (a file that cannot be read counts as not holding it).
    AppendIfMissing { path: String, marker: String, text: String, sudo: bool },
    /// Replace the content of the file at `path`.
    WriteFile { path: String, content: String },
    /// List the orphaned packages with `pacman -Qdtq` and remove them with the
    /// steps that `orphan_removal` gives for that list.
    RemoveOrphans,
    /// Run a command line through the command runner and write its output to `path`.
    SaveOutput { command: String, path: String },
    /// Delete the file at `path`.
    RemoveFile(String),
}

/// The abstract value of an [`Action`].
#[verifier::ext_equal]
pub enum ActionView {
    Print(Seq<char>),
    Shell { command: Seq<char>, quiet: bool },
    ShellAt { command: Seq<char>, dir: Seq<char>, quiet: bool },
    Exec(CommandView),
    Pipe(CommandView, CommandView),
    AppendIfMissing { path: Seq<char>, marker: Seq<char>, text: Seq<char>, sudo: bool },
    WriteFile { path: Seq<char>, content: Seq<char> },
    RemoveOrphans,
    SaveOutput { command: Seq<char>, path: Seq<char> },
    RemoveFile(Seq<char>),
}

impl View for Action {
    type V = ActionView;

    open spec fn view(&self) -> ActionView {
        match self {
            Action::Print(s) => ActionView::Print(s@),
            Action::Shell { command, quiet } => ActionView::Shell { command: command@, quiet: *quiet },
            Action::ShellAt { command, dir, quiet } => ActionView::ShellAt {
                command: command@,
                dir: dir@,
                quiet: *quiet,
            },
            Action::Exec(c) => ActionView::Exec(c@),
            Action::Pipe(a, b) => ActionView::Pipe(a@, b@),
            Action::AppendIfMissing { path, marker, text, sudo } => ActionView::AppendIfMissing {
                path: path@,
                marker: marker@,
                text: text@,
                sudo: *sudo,
            },
            Action::WriteFile { path, content } => ActionView::WriteFile {
                path: path@,
                content: content@,
            },
            Action::RemoveOrphans => ActionView::RemoveOrphans,
            Action::SaveOutput { command, path } => ActionView::SaveOutput {
                command: command@,
                path: path@,
            },
            Action::RemoveFile(path) => ActionView::RemoveFile(path@),
        }
    }
}

/// The abstract values of a sequence of actions.
pub open spec fn action_views(v: Seq<Action>) -> Seq<ActionView> {
    v.map_values(|a: Action| a@)
}

/// A shell step whose output is shown.
pub open spec fn shell(command: Seq<char>) -> ActionView {
    ActionView::Shell { command, quiet: false }
}

/// A shell step whose output is hidden.
pub open spec fn quiet_shell(command: Seq<char>) -> ActionView {
    ActionView::Shell { command, quiet: true }
}

/// `a` followed by `b`, as strings.
pub fn cat2(a: &str, b: &str) -> (r: String)
    ensures
        r@ == a@ + b@,
{
    let mut r = a.to_owned();
    r.append(b);
    r
}

/// `a`, `b` and `c` in a row, as strings.
pub fn cat3(a: &str, b: &str, c: &str) -> (r: String)
    ensures
        r@ == a@ + b@ + c@,
{
    let mut r = a.to_owned();
    r.append(b);
    r.append(c);
    r
}

/// A step run in the directory `dir`.
pub fn run_at(command: String, dir: &str, quiet: bool) -> (a: Action)
    ensures
        a@ == (ActionView::ShellAt { command: command@, dir: dir@, quiet }),
{
    Action::ShellAt { command, dir: dir.to_owned(), quiet }
}

/// A print step.
pub fn print(line: String) -> (a: Action)
    ensures
        a@ == ActionView::Print(line@),
{
    Action::Print(line)
}

/// A shell step with shown output.
pub fn run(command: String) -> (a: Action)
    ensures
        a@ == shell(command@),
{
    Action::Shell { command, quiet: false }
}

/// A shell step with hidden output.
pub fn run_quiet(command: String) -> (a: Action)
    ensures
        a@ == quiet_shell(command@),
{
    Action::Shell { command, quiet: true }
}

/// Appends all of `more` to `acts`.
pub fn extend(acts: &mut Vec<Action>, more: Vec<Action>)
    ensures
        action_views(final(acts)@) == action_views(old(acts)@) + action_views(more@),
{
    let mut more = more;
    let ghost before = acts@;
    let ghost added = more@;
    acts.append(&mut more);
    assert(action_views(acts@) =~= action_views(before) + action_views(added));
}

/// `program` run with `args`, as an abstract command.
pub open spec fn command_spec(program: Seq<char>, args: Seq<Seq<char>>) -> CommandView {
    CommandView { program, args }
}

/// The strings `items`, owned.
pub fn strings(items: &Vec<&str>) -> (r: Vec<String>)
    ensures
        views(r@) == items@.map_values(|x: &str| x@),
{
    let mut r: Vec<String> = Vec::new();
    let mut i: usize = 0;
    while i < items.len()
        invariant
            i <= items@.len(),
            views(r@) == items@.take(i as int).map_values(|x: &str| x@),
        decreases items.len() - i,
    {
        let ghost before = views(r@);
        r.push(items[i].to_owned());
        assert(views(r@) =~= before.push(items@[i as int]@));
        assert(items@.take(i + 1).map_values(|x: &str| x@) =~= items@.take(i as int).map_values(|x: &str| x@).push(items@[i as int]@));
        i += 1;
    }
    assert(items@.take(items@.len() as int) =~= items@);
    r
}

/// `program` with `args`, as a command.
pub fn command(program: &str, args: Vec<&str>) -> (c: Command)
    ensures
        c@ == command_spec(program@, args@.map_values(|x: &str| x@)),
{
    Command { program: program.to_owned(), args: strings(&args) }
}

} // verus!
