//! Course codes: validating their shape and resolving the course
//! directory that carries one.
//!
//! A course code such as `CS101` is acceptable when it contains a run
//! of uppercase letters immediately followed by a run of digits.  A
//! directory belongs to a code when its name starts with the code, then
//! one whitespace character, then descriptive text.

use vstd::prelude::*;

use crate::NoterError;
use crate::fs_model::{Directory, EntryModel};

verus! {

/// An ASCII uppercase letter.
pub open spec fn is_ascii_uppercase_char(c: char) -> bool {
    65 <= c as u32 && c as u32 <= 90
}

/// An ASCII decimal digit.
pub open spec fn is_ascii_digit_char(c: char) -> bool {
    48 <= c as u32 && c as u32 <= 57
}

/// A whitespace character: the Unicode `White_Space` set.
pub open spec fn is_space_char(c: char) -> bool {
    let u = c as u32;
    (9 <= u && u <= 13) || u == 32 || u == 0x85 || u == 0xA0 || u == 0x1680 || (0x2000 <= u && u
        <= 0x200A) || u == 0x2028 || u == 0x2029 || u == 0x202F || u == 0x205F || u == 0x3000
}

fn is_upper(c: char) -> (r: bool)
    ensures
        r == is_ascii_uppercase_char(c),
{
    let u = c as u32;
    65 <= u && u <= 90
}

fn is_digit(c: char) -> (r: bool)
    ensures
        r == is_ascii_digit_char(c),
{
    let u = c as u32;
    48 <= u && u <= 57
}

fn is_space(c: char) -> (r: bool)
    ensures
        r == is_space_char(c),
{
    let u = c as u32;
    (9 <= u && u <= 13) || u == 32 || u == 0x85 || u == 0xA0 || u == 0x1680 || (0x2000 <= u && u
        <= 0x200A) || u == 0x2028 || u == 0x2029 || u == 0x202F || u == 0x205F || u == 0x3000
}

/// A string has course-code shape when an uppercase letter stands
/// somewhere in it immediately before a digit; equivalently, when it
/// contains one or more uppercase letters followed by one or more
/// digits.
pub open spec fn has_course_shape(s: Seq<char>) -> bool {
    exists|i: int|
        0 <= i && i + 1 < s.len() && is_ascii_uppercase_char(#[trigger] s[i]) && is_ascii_digit_char(
            s[i + 1],
        )
}

/// Decides whether `code` is a syntactically acceptable course code.
/// The shape is looked for anywhere in the string, so trailing or
/// leading text does not disqualify a code; only a string with no
/// letter-then-digit shape at all is rejected.
pub fn validate_course(code: &str) -> (r: bool)
    ensures
        r == has_course_shape(code@),
{
    let n = code.unicode_len();
    if n < 2 {
        return false;
    }
    let mut i: usize = 0;
    while i + 1 < n
        invariant
            n == code@.len(),
            i + 1 <= n,
            forall|j: int|
                0 <= j < i ==> !(is_ascii_uppercase_char(#[trigger] code@[j])
                    && is_ascii_digit_char(code@[j + 1])),
        decreases n - i,
    {
        let a = code.get_char(i);
        let b = code.get_char(i + 1);
        if is_upper(a) && is_digit(b) {
            proof {
                assert(is_ascii_uppercase_char(code@[i as int]) && is_ascii_digit_char(
                    code@[i as int + 1],
                ));
            }
            return true;
        }
        i = i + 1;
    }
    false
}

/// Whether a directory name belongs to a course code: it starts with
/// the code itself, followed by one whitespace character, followed by
/// at least one further character of descriptive text.
pub open spec fn name_matches_course(name: Seq<char>, code: Seq<char>) -> bool {
    &&& name.len() >= code.len() + 2
    &&& name.subrange(0, code.len() as int) == code
    &&& is_space_char(name[code.len() as int])
}

/// Decides whether the directory name `name` belongs to `code`.
pub fn course_name_matches(name: &str, code: &str) -> (r: bool)
    ensures
        r == name_matches_course(name@, code@),
{
    let nl = name.unicode_len();
    let cl = code.unicode_len();
    if nl < 2 || nl - 2 < cl {
        return false;
    }
    let mut i: usize = 0;
    while i < cl
        invariant
            i <= cl,
            cl == code@.len(),
            nl == name@.len(),
            nl >= cl + 2,
            forall|j: int| 0 <= j < i ==> name@[j] == code@[j],
        decreases cl - i,
    {
        if name.get_char(i) != code.get_char(i) {
            proof {
                assert(name@.subrange(0, cl as int)[i as int] == name@[i as int]);
            }
            return false;
        }
        i = i + 1;
    }
    let sep = name.get_char(cl);
    if is_space(sep) {
        proof {
            assert(name@.subrange(0, cl as int) =~= code@);
        }
        true
    } else {
        false
    }
}

/// Whether one listed entry is a course directory for `code`.
pub open spec fn entry_is_course_match(e: EntryModel, code: Seq<char>) -> bool {
    e.is_dir && name_matches_course(e.name, code)
}

/// Finds the course directory for `course` in the listing of the notes
/// root: the first entry, in listing order, that is a directory and
/// whose name starts with the code followed by whitespace and
/// descriptive text.  Fails with `CourseNotFoundError` holding the code
/// exactly when no entry matches.
pub fn find_course_path(root: &Directory, course: &str) -> (r: Result<String, NoterError>)
    ensures
        match r {
            Ok(name) => exists|i: int|
                0 <= i < root@.len() && #[trigger] entry_is_course_match(root@[i], course@)
                    && name@ == root@[i].name && (forall|j: int|
                    0 <= j < i ==> !entry_is_course_match(root@[j], course@)),
            Err(e) => {
                &&& forall|i: int|
                    0 <= i < root@.len() ==> !entry_is_course_match(#[trigger] root@[i], course@)
                &&& e matches NoterError::CourseNotFoundError(c) && c@ == course@
            },
        },
{
    let n = root.entries.len();
    let mut i: usize = 0;
    while i < n
        invariant
            i <= n,
            n == root.entries.len(),
            forall|j: int| 0 <= j < i ==> !entry_is_course_match(#[trigger] root@[j], course@),
        decreases n - i,
    {
        let e = &root.entries[i];
        if e.is_dir && course_name_matches(e.name.as_str(), course) {
            proof {
                assert(entry_is_course_match(root@[i as int], course@));
            }
            return Ok(e.name.clone());
        }
        i = i + 1;
    }
    Err(NoterError::CourseNotFoundError(String::from_str(course)))
}

} // verus!
