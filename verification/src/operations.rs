//! The wording and the bookkeeping of file operations.
//!
//! Copying, moving and deleting touch the file system and happen elsewhere.
//! What is decided here is where an item goes, what the user is told, and
//! that one item's failure never stops the work on the others: failures
//! are collected in an [`OperationReport`] and handed out together at the
//! end.

use crate::path::{file_name_of, join, path_file_name, path_join, views};
use crate::text::{decimal, push_decimal};
use vstd::prelude::*;
use vstd::string::StringExecFns;

verus! {

/// The lines of a report as one text, a line break between neighbours.
pub open spec fn joined_lines(lines: Seq<Seq<char>>) -> Seq<char>
    decreases lines.len(),
{
    if lines.len() == 0 {
        Seq::empty()
    } else if lines.len() == 1 {
        lines[0]
    } else {
        joined_lines(lines.drop_last()) + seq!['\n'] + lines.last()
    }
}

/// What a finished operation reports: nothing when no item failed,
/// otherwise every failure, in the order met, one to a line.
pub open spec fn combined_report(failures: Seq<Seq<char>>) -> Result<(), Seq<char>> {
    if failures.len() == 0 {
        Ok(())
    } else {
        Err(joined_lines(failures))
    }
}

/// The characters of a result's error.
pub open spec fn err_view(outcome: Result<(), String>) -> Result<(), Seq<char>> {
    match outcome {
        Ok(()) => Ok(()),
        Err(message) => Err(message@),
    }
}

/// The failures of an operation on several items, collected while it runs.
pub struct OperationReport {
    failures: Vec<String>,
}

impl View for OperationReport {
    type V = Seq<Seq<char>>;

    /// The failure messages recorded so far, oldest first.
    closed spec fn view(&self) -> Seq<Seq<char>> {
        views(self.failures@)
    }
}

impl OperationReport {
    /// A report with nothing in it.
    pub fn new() -> (report: Self)
        ensures
            report@ == Seq::<Seq<char>>::empty(),
    {
        let report = OperationReport { failures: Vec::new() };
        assert(report@ =~= Seq::<Seq<char>>::empty());
        report
    }

    /// Takes note of how one item went. Success leaves the report as it is,
    /// failure adds its message at the end.
    pub fn record(&mut self, outcome: Result<(), String>)
        ensures
            final(self)@ == match outcome {
                Ok(()) => old(self)@,
                Err(message) => old(self)@.push(message@),
            },
    {
        match outcome {
            Ok(()) => {},
            Err(message) => {
                self.failures.push(message);
                assert(self@ =~= old(self)@.push(message@));
            },
        }
    }

    /// Whether any item failed so far.
    pub fn has_failures(&self) -> (any: bool)
        ensures
            any == (self@.len() > 0),
    {
        self.failures.len() > 0
    }

    /// The outcome of the whole operation: `Ok` exactly when no item failed,
    /// otherwise all failures in one text.
    pub fn finish(self) -> (outcome: Result<(), String>)
        ensures
            err_view(outcome) == combined_report(self@),
            outcome is Ok <==> self@.len() == 0,
    {
        if self.failures.len() == 0 {
            return Ok(());
        }
        let mut text = self.failures[0].clone();
        let mut i: usize = 1;
        assert(self@.take(1) =~= seq![self@[0]]);
        proof {
            reveal_strlit("\n");
            assert("\n"@ =~= seq!['\n']);
        }
        while i < self.failures.len()
            invariant
                1 <= i <= self.failures.len(),
                text@ == joined_lines(self@.take(i as int)),
                "\n"@ == seq!['\n'],
            decreases self.failures.len() - i,
        {
            text.append("\n");
            text.append(self.failures[i].as_str());
            assert(self@.take(i + 1).drop_last() =~= self@.take(i as int));
            i = i + 1;
        }
        assert(self@.take(i as int) =~= self@);
        Err(text)
    }
}

/// Where an item lands when it is copied or moved into a directory: under
/// its own name. An item whose path has no final component cannot be placed.
pub open spec fn destination_path(source: Seq<char>, directory: Seq<char>) -> Result<
    Seq<char>,
    Seq<char>,
> {
    match path_file_name(source) {
        Some(name) => Ok(path_join(directory, name)),
        None => Err("Invalid source path"@),
    }
}

/// The characters of a path or of the message in its place.
pub open spec fn path_or_message(outcome: Result<String, String>) -> Result<Seq<char>, Seq<char>> {
    match outcome {
        Ok(path) => Ok(path@),
        Err(message) => Err(message@),
    }
}

/// Works out where `source` lands inside `directory`.
pub fn destination_for(source: &str, directory: &str) -> (placed: Result<String, String>)
    ensures
        path_or_message(placed) == destination_path(source@, directory@),
        placed is Ok <==> path_file_name(source@) is Some,
{
    match file_name_of(source) {
        Some(name) => Ok(join(directory, name.as_str())),
        None => Err(String::from_str("Invalid source path")),
    }
}

/// What is said when copying an item fails, given the reason.
pub fn copy_failure(is_dir: bool, reason: &str) -> (message: String)
    ensures
        message@ == (if is_dir {
            "Failed to copy directory: "@
        } else {
            "Failed to copy file: "@
        }) + reason@,
{
    let mut message = if is_dir {
        String::from_str("Failed to copy directory: ")
    } else {
        String::from_str("Failed to copy file: ")
    };
    message.append(reason);
    message
}

/// What is said when moving an item fails, given the reason.
pub fn move_failure(reason: &str) -> (message: String)
    ensures
        message@ == "Failed to move file: "@ + reason@,
{
    let mut message = String::from_str("Failed to move file: ");
    message.append(reason);
    message
}

/// What is said when deleting the item at `path` fails, given the reason.
pub fn delete_failure(path: &str, reason: &str) -> (message: String)
    ensures
        message@ == "Failed to delete "@ + path@ + ": "@ + reason@,
{
    let mut message = String::from_str("Failed to delete ");
    message.append(path);
    message.append(": ");
    message.append(reason);
    message
}

/// The question put before deleting: about the one item by name, or about
/// the number of items.
pub open spec fn delete_question(paths: Seq<Seq<char>>) -> Seq<char> {
    if paths.len() == 1 {
        "Are you sure you want to delete '"@ + (match path_file_name(paths[0]) {
            Some(name) => name,
            None => Seq::empty(),
        }) + "'?"@
    } else {
        "Are you sure you want to delete "@ + decimal(paths.len()) + " items?"@
    }
}

/// Words the question put before deleting `paths`.
pub fn delete_confirmation_message(paths: &Vec<String>) -> (message: String)
    ensures
        message@ == delete_question(views(paths@)),
{
    let mut message = String::from_str("Are you sure you want to delete ");
    if paths.len() == 1 {
        message.append("'");
        match file_name_of(paths[0].as_str()) {
            Some(name) => {
                message.append(name.as_str());
            },
            None => {},
        }
        message.append("'?");
        proof {
            reveal_strlit("Are you sure you want to delete '");
            reveal_strlit("Are you sure you want to delete ");
            reveal_strlit("'");
            assert("Are you sure you want to delete '"@ =~= "Are you sure you want to delete "@
                + "'"@);
        }
        assert(message@ =~= delete_question(views(paths@)));
    } else {
        push_decimal(&mut message, paths.len() as u128);
        message.append(" items?");
    }
    message
}

} // verus!
