//! A small verified core for a personal note-taking helper.
//!
//! Given a course code and an optional title, the library sanitizes
//! user-supplied text into safe path segments, validates course codes,
//! resolves the course directory inside a listing of the notes root, and
//! decides whether a note file or course folder is created or already
//! present.  Filesystem state is modelled as a listing of entries; the
//! thin shell around the library performs the actual I/O.

use vstd::prelude::*;

pub mod course;
pub mod fs_model;
pub mod notes;
pub mod sanitize;
pub mod status;

verus! {

/// The failure kinds of the tool.  The filesystem and pattern kinds are
/// raised by the shell around the library when real I/O fails; the
/// course kinds are raised during validation and resolution.
#[derive(Debug)]
pub enum NoterError {
    IoError(String),
    CustomError(String),
    PatternError(String),
    CourseNotFoundError(String),
    BadCourseCodeError(String),
}

/// The message text of each error kind.
pub open spec fn message_spec(e: &NoterError) -> Seq<char> {
    match e {
        NoterError::IoError(m) => "IO Error "@ + m@,
        NoterError::CustomError(m) => "Error "@ + m@,
        NoterError::PatternError(m) => "Pattern Error "@ + m@,
        NoterError::CourseNotFoundError(c) => "Could not find notes folder for course "@ + c@,
        NoterError::BadCourseCodeError(c) => "Invalid course code "@ + c@,
    }
}

impl NoterError {
    /// The human-readable description of this error.
    pub fn message(&self) -> (r: String)
        ensures
            r@ == message_spec(self),
    {
        match self {
            NoterError::IoError(m) => {
                let mut s = String::from_str("IO Error ");
                s.append(m.as_str());
                s
            },
            NoterError::CustomError(m) => {
                let mut s = String::from_str("Error ");
                s.append(m.as_str());
                s
            },
            NoterError::PatternError(m) => {
                let mut s = String::from_str("Pattern Error ");
                s.append(m.as_str());
                s
            },
            NoterError::CourseNotFoundError(c) => {
                let mut s = String::from_str("Could not find notes folder for course ");
                s.append(c.as_str());
                s
            },
            NoterError::BadCourseCodeError(c) => {
                let mut s = String::from_str("Invalid course code ");
                s.append(c.as_str());
                s
            },
        }
    }
}

/// How a create request ended: the entry was newly made, or an entry of
/// that exact name was already present and nothing was touched.
#[derive(Clone, Copy, Debug, PartialEq, Eq, Structural)]
pub enum Outcome {
    Created,
    AlreadyExisted,
}

} // verus!
