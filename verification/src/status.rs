//! The status lines the tool prints on standard output.

use vstd::prelude::*;

use crate::{NoterError, Outcome, message_spec};

verus! {

/// The line reporting a note operation: `Created <code>::<file>` when
/// the file was created, `<code>::<file> already exists.` when not.
pub fn note_status_line(course_code: &str, file_name: &str, outcome: Outcome) -> (r: String)
    ensures
        outcome == Outcome::Created ==> r@ == "Created "@ + course_code@ + "::"@ + file_name@,
        outcome == Outcome::AlreadyExisted ==> r@ == course_code@ + "::"@ + file_name@
            + " already exists."@,
{
    match outcome {
        Outcome::Created => {
            let mut s = String::from_str("Created ");
            s.append(course_code);
            s.append("::");
            s.append(file_name);
            s
        },
        Outcome::AlreadyExisted => {
            let mut s = String::from_str(course_code);
            s.append("::");
            s.append(file_name);
            s.append(" already exists.");
            s
        },
    }
}

/// The line reporting a folder operation: `Created folder for <code>
/// <title>.` when the folder was created, `Folder for <code> <title>
/// already exists.` when not.  The title appears as the user gave it.
pub fn folder_status_line(course_code: &str, title: &str, outcome: Outcome) -> (r: String)
    ensures
        outcome == Outcome::Created ==> r@ == "Created folder for "@ + course_code@ + " "@ + title@
            + "."@,
        outcome == Outcome::AlreadyExisted ==> r@ == "Folder for "@ + course_code@ + " "@ + title@
            + " already exists."@,
{
    match outcome {
        Outcome::Created => {
            let mut s = String::from_str("Created folder for ");
            s.append(course_code);
            s.append(" ");
            s.append(title);
            s.append(".");
            s
        },
        Outcome::AlreadyExisted => {
            let mut s = String::from_str("Folder for ");
            s.append(course_code);
            s.append(" ");
            s.append(title);
            s.append(" already exists.");
            s
        },
    }
}

/// The line reporting a failure: `Error: ` followed by the error's
/// message.
pub fn error_line(e: &NoterError) -> (r: String)
    ensures
        r@ == "Error: "@ + message_spec(e),
{
    let mut s = String::from_str("Error: ");
    let m = e.message();
    s.append(m.as_str());
    s
}

} // verus!
