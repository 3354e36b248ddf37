//! File edits done through a shell, so that they can run with `sudo`.
use vstd::prelude::*;
use crate::action::{Action, ActionView, Command, CommandView};
use crate::text::{contains, contains_spec, replace, replace_spec};

verus! {

/// Whether a file with `content` (`None`: it could not be read) needs `marker`
/// appended: when it cannot be read or does not hold `marker`.
pub fn needs_append(content: Option<&str>, marker: &str) -> (r: bool)
    ensures
        r == match content {
            Some(c) => !contains_spec(c@, marker@),
            None => true,
        },
{
    match content {
        Some(c) => !contains(c, marker),
        None => true,
    }
}

/// The shell command line that writes `value` to `path`, appending or replacing.
pub open spec fn echo_line_spec(path: Seq<char>, value: Seq<char>, append: bool) -> Seq<char> {
    "echo '"@ + value + (if append {
        "' >> "@
    } else {
        "' > "@
    }) + path
}

/// The command that runs `line` in a shell, through `sudo` when asked.
pub open spec fn shell_command_spec(line: Seq<char>, sudo: bool) -> CommandView {
    if sudo {
        CommandView { program: "sudo"@, args: seq!["sh"@, "-c"@, line] }
    } else {
        CommandView { program: "sh"@, args: seq!["-c"@, line] }
    }
}

fn shell_command(line: String, sudo: bool) -> (c: Command)
    ensures
        c@ == shell_command_spec(line@, sudo),
{
    let mut args: Vec<String> = Vec::new();
    let c = if sudo {
        args.push("sh".to_owned());
        args.push("-c".to_owned());
        args.push(line);
        Command { program: "sudo".to_owned(), args }
    } else {
        args.push("-c".to_owned());
        args.push(line);
        Command { program: "sh".to_owned(), args }
    };
    assert(c@.args =~= shell_command_spec(c@.args.last(), sudo).args);
    c
}

fn echo_line(path: &str, value: &str, append: bool) -> (r: String)
    ensures
        r@ == echo_line_spec(path@, value@, append),
{
    let mut r = "echo '".to_owned();
    r.append(value);
    if append {
        r.append("' >> ");
    } else {
        r.append("' > ");
    }
    r.append(path);
    r
}

/// The step that appends `value` to the file at `path` unless the file holds
/// `find_value`; the runner reads the file and decides with [`needs_append`].
pub fn append_to_file_if_not_found(path: &str, find_value: &str, value: &str, sudo: bool) -> (a: Action)
    ensures
        a@ == (ActionView::AppendIfMissing { path: path@, marker: find_value@, text: value@, sudo }),
{
    Action::AppendIfMissing { path: path.to_owned(), marker: find_value.to_owned(), text: value.to_owned(), sudo }
}

/// The command that appends `value` as a line to the file at `path`.
pub fn append_to_file(path: &str, value: &str, sudo: bool) -> (c: Command)
    ensures
        c@ == shell_command_spec(echo_line_spec(path@, value@, true), sudo),
{
    shell_command(echo_line(path, value, true), sudo)
}

/// The command that replaces the file at `path` with `content`.
pub fn write_file(path: &str, content: &str, sudo: bool) -> (c: Command)
    ensures
        c@ == shell_command_spec(echo_line_spec(path@, content@, false), sudo),
{
    shell_command(echo_line(path, content, false), sudo)
}

/// The new content of a file whose content is `content` after every occurrence of
/// `find` is replaced; `None` when `find` does not occur and nothing is written.
pub fn replace_in_file(content: &str, find: &str, replace_value: &str) -> (r: Option<String>)
    ensures
        match r {
            Some(s) => contains_spec(content@, find@) && s@ == replace_spec(content@, find@, replace_value@),
            None => !contains_spec(content@, find@),
        },
{
    if contains(content, find) {
        Some(replace(content, find, replace_value))
    } else {
        None
    }
}

} // verus!
