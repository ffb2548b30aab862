//! The fixed table of commands the daemon is willing to run remotely.

use vstd::prelude::*;
use vstd::string::*;
use crate::text::same_text;

verus! {

/// An operation the daemon runs on a remote host. The table is closed:
/// a new operation is a new variant.
#[derive(Clone, Copy, Debug, PartialEq, Eq, Structural)]
pub enum Operation {
    Ls,
    UnameAll,
    Who,
}

/// Why a label was refused.
#[derive(Clone, Debug, PartialEq, Eq)]
pub enum CommandError {
    /// The label is not in the table; it is handed back untouched.
    NotAllowed(String),
}

impl Operation {
    /// The command line sent to the remote host for this operation.
    pub open spec fn command_text(self) -> Seq<char> {
        match self {
            Operation::Ls => "ls"@,
            Operation::UnameAll => "uname -a"@,
            Operation::Who => "w"@,
        }
    }

    pub fn command(&self) -> (r: &'static str)
        ensures
            r@ == self.command_text(),
    {
        match self {
            Operation::Ls => "ls",
            Operation::UnameAll => "uname -a",
            Operation::Who => "w",
        }
    }
}

impl View for CommandError {
    type V = Seq<char>;

    /// The label that was refused.
    open spec fn view(&self) -> Seq<char> {
        match self {
            CommandError::NotAllowed(label) => label@,
        }
    }
}

/// The text a refused label is reported with.
pub open spec fn command_error_text(label: Seq<char>) -> Seq<char> {
    "command not allowed: "@ + label
}

impl CommandError {
    /// The text this error is reported with.
    pub fn describe(&self) -> (text: String)
        ensures
            text@ == command_error_text(self@),
    {
        match self {
            CommandError::NotAllowed(label) => "command not allowed: ".to_owned().concat(
                label.as_str(),
            ),
        }
    }
}

/// The operation a label stands for: the one whose command the label is,
/// letter for letter, if there is one.
pub open spec fn operation_for(label: Seq<char>) -> Option<Operation> {
    if label == "ls"@ {
        Some(Operation::Ls)
    } else if label == "uname -a"@ {
        Some(Operation::UnameAll)
    } else if label == "w"@ {
        Some(Operation::Who)
    } else {
        None
    }
}

/// A label is allowed exactly when it stands for an operation.
pub open spec fn allowed(label: Seq<char>) -> bool {
    operation_for(label) is Some
}

/// Looks a label up in the table.
pub fn lookup(label: &str) -> (r: Result<Operation, CommandError>)
    ensures
        match r {
            Ok(op) => operation_for(label@) == Some(op),
            Err(CommandError::NotAllowed(refused)) => operation_for(label@) is None && refused@
                == label@,
        },
{
    if same_text(label, "ls") {
        Ok(Operation::Ls)
    } else if same_text(label, "uname -a") {
        Ok(Operation::UnameAll)
    } else if same_text(label, "w") {
        Ok(Operation::Who)
    } else {
        Err(CommandError::NotAllowed(label.to_owned()))
    }
}

/// The three commands differ in length.
pub proof fn lemma_command_lengths()
    ensures
        "ls"@.len() == 2,
        "uname -a"@.len() == 8,
        "w"@.len() == 1,
{
    reveal_strlit("ls");
    reveal_strlit("uname -a");
    reveal_strlit("w");
}

/// A label stands for an operation exactly when it is that operation's
/// command: nothing is matched in part, and nothing is cleaned up first.
pub proof fn lemma_label_is_the_command(label: Seq<char>, op: Operation)
    ensures
        operation_for(label) == Some(op) <==> label == op.command_text(),
        operation_for(op.command_text()) == Some(op),
{
    lemma_command_lengths();
}

/// A label with a character that none of the commands holds is never
/// allowed, so nothing a shell would interpret can ride in on a label.
pub proof fn lemma_foreign_character_is_refused(label: Seq<char>, c: char)
    requires
        label.contains(c),
        !"ls"@.contains(c),
        !"uname -a"@.contains(c),
        !"w"@.contains(c),
    ensures
        !allowed(label),
{
}

/// A label that only begins with a command, or that wraps one, is refused.
pub proof fn lemma_longer_label_is_refused(label: Seq<char>)
    requires
        label.len() > 8,
    ensures
        !allowed(label),
{
    lemma_command_lengths();
}

/// Distinct operations run distinct commands.
pub proof fn lemma_commands_are_distinct(a: Operation, b: Operation)
    requires
        a.command_text() == b.command_text(),
    ensures
        a == b,
{
    lemma_command_lengths();
}

} // verus!
