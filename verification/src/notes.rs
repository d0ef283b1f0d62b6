//! Creating course folders and dated note files inside the modelled
//! directories.
//!
//! A course folder is named `<code> <sanitized title>`.  A note file is
//! named `<YYYY-MM-DD>.md`, or `<YYYY-MM-DD>-<sanitized title>.md` when
//! a title is given; the date is today's local date.  An entry of the
//! target name that already exists is reported and never touched.

use vstd::prelude::*;

use crate::Outcome;
use crate::fs_model::{
    Directory, EntryModel, create_entry, create_outcome, dir_after_create, dir_contains_name,
    lemma_create_idempotent, lemma_create_never_overwrites,
};
use crate::sanitize::{push_char, sanitize_file_name, sanitize_spec};

verus! {

/// The folder name for a course: the code, one space, and the
/// sanitized title.
pub open spec fn folder_name_spec(code: Seq<char>, title: Seq<char>) -> Seq<char> {
    code + seq![' '] + sanitize_spec(title)
}

/// Composes `<code> <sanitized title>`, the name of a course folder.
pub fn folder_name(code: &str, title: &str) -> (r: String)
    ensures
        r@ == folder_name_spec(code@, title@),
{
    let mut s = String::from_str(code);
    push_char(&mut s, ' ');
    let t = sanitize_file_name(title);
    s.append(t.as_str());
    proof {
        assert(s@ =~= folder_name_spec(code@, title@));
    }
    s
}

/// The decimal digit character for `d`.
pub open spec fn digit_char_spec(d: int) -> char {
    if d == 0 {
        '0'
    } else if d == 1 {
        '1'
    } else if d == 2 {
        '2'
    } else if d == 3 {
        '3'
    } else if d == 4 {
        '4'
    } else if d == 5 {
        '5'
    } else if d == 6 {
        '6'
    } else if d == 7 {
        '7'
    } else if d == 8 {
        '8'
    } else {
        '9'
    }
}

fn digit_char(d: u32) -> (c: char)
    requires
        d < 10,
    ensures
        c == digit_char_spec(d as int),
{
    if d == 0 {
        '0'
    } else if d == 1 {
        '1'
    } else if d == 2 {
        '2'
    } else if d == 3 {
        '3'
    } else if d == 4 {
        '4'
    } else if d == 5 {
        '5'
    } else if d == 6 {
        '6'
    } else if d == 7 {
        '7'
    } else if d == 8 {
        '8'
    } else {
        '9'
    }
}

/// The `YYYY-MM-DD` form of a date, each part zero padded.
pub open spec fn date_seq(y: int, m: int, d: int) -> Seq<char> {
    seq![
        digit_char_spec(y / 1000 % 10),
        digit_char_spec(y / 100 % 10),
        digit_char_spec(y / 10 % 10),
        digit_char_spec(y % 10),
        '-',
        digit_char_spec(m / 10 % 10),
        digit_char_spec(m % 10),
        '-',
        digit_char_spec(d / 10 % 10),
        digit_char_spec(d % 10),
    ]
}

/// Formats a date as `YYYY-MM-DD` with zero padding.
pub fn format_date(y: u32, m: u32, d: u32) -> (r: String)
    requires
        y <= 9999,
        1 <= m <= 12,
        1 <= d <= 31,
    ensures
        r@ == date_seq(y as int, m as int, d as int),
{
    let mut s = String::new();
    push_char(&mut s, digit_char(y / 1000));
    push_char(&mut s, digit_char(y / 100 % 10));
    push_char(&mut s, digit_char(y / 10 % 10));
    push_char(&mut s, digit_char(y % 10));
    push_char(&mut s, '-');
    push_char(&mut s, digit_char(m / 10));
    push_char(&mut s, digit_char(m % 10));
    push_char(&mut s, '-');
    push_char(&mut s, digit_char(d / 10));
    push_char(&mut s, digit_char(d % 10));
    proof {
        assert(s@ =~= date_seq(y as int, m as int, d as int));
    }
    s
}

/// The view of an optional borrowed string.
pub open spec fn opt_view(o: Option<&str>) -> Option<Seq<char>> {
    match o {
        None => None,
        Some(t) => Some(t@),
    }
}

/// The note file name for a date and an optional title:
/// `YYYY-MM-DD.md`, or `YYYY-MM-DD-<sanitized title>.md`.
pub open spec fn note_file_name_spec(y: int, m: int, d: int, title: Option<Seq<char>>) -> Seq<
    char,
> {
    match title {
        None => date_seq(y, m, d) + seq!['.', 'm', 'd'],
        Some(t) => date_seq(y, m, d) + seq!['-'] + sanitize_spec(t) + seq!['.', 'm', 'd'],
    }
}

/// Composes the file name of a note for the given date and optional
/// title.
pub fn note_file_name(y: u32, m: u32, d: u32, title: Option<&str>) -> (r: String)
    requires
        y <= 9999,
        1 <= m <= 12,
        1 <= d <= 31,
    ensures
        r@ == note_file_name_spec(y as int, m as int, d as int, opt_view(title)),
{
    let mut s = format_date(y, m, d);
    match title {
        None => {},
        Some(t) => {
            push_char(&mut s, '-');
            let st = sanitize_file_name(t);
            s.append(st.as_str());
        },
    }
    push_char(&mut s, '.');
    push_char(&mut s, 'm');
    push_char(&mut s, 'd');
    proof {
        assert(s@ =~= note_file_name_spec(y as int, m as int, d as int, opt_view(title)));
    }
    s
}

/// Creates the course folder `<code> <sanitized title>` in the modelled
/// root listing, unless an entry of that exact name already exists, and
/// reports which happened.  An existing entry is never touched.
pub fn make_new_folder(dir: &mut Directory, course_code: &str, title: &str) -> (o: Outcome)
    ensures
        o == create_outcome(old(dir)@, folder_name_spec(course_code@, title@)),
        final(dir)@ == dir_after_create(old(dir)@, folder_name_spec(course_code@, title@), true),
{
    let name = folder_name(course_code, title);
    create_entry(dir, name, true)
}

/// Creates the note for the given date and optional title in the
/// modelled course directory, and returns the file name together with
/// the outcome.  An existing file of that name is never touched.
pub fn make_new_note(dir: &mut Directory, y: u32, m: u32, d: u32, title: Option<&str>) -> (r: (
    String,
    Outcome,
))
    requires
        y <= 9999,
        1 <= m <= 12,
        1 <= d <= 31,
    ensures
        r.0@ == note_file_name_spec(y as int, m as int, d as int, opt_view(title)),
        r.1 == create_outcome(old(dir)@, r.0@),
        final(dir)@ == dir_after_create(old(dir)@, r.0@, false),
{
    let name = note_file_name(y, m, d, title);
    let returned = name.clone();
    let o = create_entry(dir, name, false);
    (returned, o)
}

/// Relies on `std::time::SystemTime::now` read against `UNIX_EPOCH` (an
/// `Err`, the clock standing before 1970, is handed back as `None`
/// rather than panicking), on `chrono::DateTime::from_timestamp`
/// (`None` outside chrono's representable range), on
/// `DateTime::with_timezone` with `chrono::Local`, whose time-zone
/// lookup cannot fail for a timestamp `from_timestamp` admits, and on
/// `chrono::Datelike`: `month()` is in `1..=12` and `day()` in `1..=31`
/// for every date.
#[verifier::external_body]
fn current_date_ymd() -> (r: Option<(i32, u32, u32)>)
    ensures
        r matches Some(d) ==> 1 <= d.1 <= 12 && 1 <= d.2 <= 31,
{
    let since_epoch = std::time::SystemTime::now().duration_since(std::time::UNIX_EPOCH).ok()?;
    let secs = i64::try_from(since_epoch.as_secs()).ok()?;
    let utc = chrono::DateTime::from_timestamp(secs, since_epoch.subsec_nanos())?;
    let local = utc.with_timezone(&chrono::Local);
    Some((chrono::Datelike::year(&local), chrono::Datelike::month(&local), chrono::Datelike::day(&local)))
}

/// Creates the note for one clock reading in the modelled course
/// directory.  A reading whose year has four digits yields the note's
/// name and outcome, with the listing extended exactly as a create
/// request for that name extends it; a missing reading, or one whose
/// year falls outside the four-digit range that the `YYYY-MM-DD` name
/// needs, yields `None` and leaves the listing untouched.
pub fn note_for_clock(
    dir: &mut Directory,
    clock: Option<(i32, u32, u32)>,
    title: Option<&str>,
) -> (r: Option<(String, Outcome)>)
    requires
        clock matches Some(c) ==> 1 <= c.1 <= 12 && 1 <= c.2 <= 31,
    ensures
        match r {
            Some(p) => {
                &&& clock matches Some(c) && 0 <= c.0 <= 9999 && p.0@ == note_file_name_spec(
                    c.0 as int,
                    c.1 as int,
                    c.2 as int,
                    opt_view(title),
                )
                &&& p.1 == create_outcome(old(dir)@, p.0@)
                &&& final(dir)@ == dir_after_create(old(dir)@, p.0@, false)
            },
            None => {
                &&& clock matches Some(c) ==> !(0 <= c.0 <= 9999)
                &&& final(dir)@ == old(dir)@
            },
        },
{
    match clock {
        Some((y, m, d)) => {
            if 0 <= y && y <= 9999 {
                let p = make_new_note(dir, y as u32, m, d, title);
                Some(p)
            } else {
                None
            }
        },
        None => None,
    }
}

/// Creates today's note, named after the current local date and the
/// optional title, in the modelled course directory.  Returns `None`,
/// touching nothing, when the clock cannot be read as a date or its
/// year falls outside the four-digit range that the `YYYY-MM-DD` name
/// needs; `note_for_clock` fixes what each clock reading yields.
pub fn make_new_note_today(dir: &mut Directory, title: Option<&str>) -> (r: Option<(
    String,
    Outcome,
)>)
    ensures
        match r {
            Some(p) => exists|y: int, m: int, d: int|
                0 <= y <= 9999 && 1 <= m <= 12 && 1 <= d <= 31 && p.0@ == note_file_name_spec(
                    y,
                    m,
                    d,
                    opt_view(title),
                ) && p.1 == create_outcome(old(dir)@, p.0@) && final(dir)@ == dir_after_create(
                    old(dir)@,
                    p.0@,
                    false,
                ),
            None => final(dir)@ == old(dir)@,
        },
{
    let clock = current_date_ymd();
    let r = note_for_clock(dir, clock, title);
    proof {
        match &r {
            Some(p) => match clock {
                Some(c) => {
                    assert(p.0@ == note_file_name_spec(
                        c.0 as int,
                        c.1 as int,
                        c.2 as int,
                        opt_view(title),
                    ));
                },
                None => {
                    assert(false);
                },
            },
            None => {},
        }
    }
    r
}

/// Law: creating the same course folder twice with identical arguments
/// reports `Created` and then `AlreadyExisted`, and the second request
/// leaves the root listing exactly as the first left it.
pub proof fn lemma_make_new_folder_idempotent(d: Seq<EntryModel>, code: Seq<char>, title: Seq<char>)
    ensures
        !dir_contains_name(d, folder_name_spec(code, title)) ==> create_outcome(
            d,
            folder_name_spec(code, title),
        ) == Outcome::Created,
        create_outcome(
            dir_after_create(d, folder_name_spec(code, title), true),
            folder_name_spec(code, title),
        ) == Outcome::AlreadyExisted,
        dir_after_create(
            dir_after_create(d, folder_name_spec(code, title), true),
            folder_name_spec(code, title),
            true,
        ) == dir_after_create(d, folder_name_spec(code, title), true),
{
    lemma_create_idempotent(d, folder_name_spec(code, title), true);
}

/// Law: once creating a note has reported `Created`, a later request
/// for the same file name reports `AlreadyExisted` and changes nothing,
/// whatever content the files have been given in the meantime: only the
/// names decide.
pub proof fn lemma_make_new_note_never_overwrites(
    d: Seq<EntryModel>,
    name: Seq<char>,
    later: Seq<EntryModel>,
)
    requires
        create_outcome(d, name) == Outcome::Created,
        later.len() == dir_after_create(d, name, false).len(),
        forall|i: int|
            0 <= i < later.len() ==> #[trigger] later[i].name == dir_after_create(
                d,
                name,
                false,
            )[i].name,
    ensures
        create_outcome(later, name) == Outcome::AlreadyExisted,
        dir_after_create(later, name, false) == later,
{
    lemma_create_never_overwrites(d, name, false, later);
}

} // verus!
