use noter::course::{course_name_matches, find_course_path, validate_course};
use noter::fs_model::{create_entry, dir_has_entry, Directory, FsEntry};
use noter::notes::{
    folder_name, format_date, make_new_folder, make_new_note, make_new_note_today, note_file_name,
    note_for_clock,
};
use noter::sanitize::{is_invalid_for_path, sanitize_file_name};
use noter::status::{error_line, folder_status_line, note_status_line};
use noter::{NoterError, Outcome};

fn dir_entry(name: &str) -> FsEntry {
    FsEntry {
        name: name.to_string(),
        is_dir: true,
        content: vec![],
    }
}

fn file_entry(name: &str) -> FsEntry {
    FsEntry {
        name: name.to_string(),
        is_dir: false,
        content: vec![],
    }
}

#[test]
fn sanitize_keeps_safe_strings() {
    assert_eq!(sanitize_file_name("Intro to Algorithms"), "Intro to Algorithms");
    assert_eq!(sanitize_file_name(""), "");
    assert_eq!(sanitize_file_name("a.b"), "a.b");
}

#[test]
fn sanitize_replaces_each_reserved_character() {
    assert_eq!(sanitize_file_name("a\"b<c>d|e"), "a_b_c_d_e");
    assert_eq!(sanitize_file_name("x:y*z?w"), "x_y_z_w");
    assert_eq!(sanitize_file_name("p\\q/r"), "p_q_r");
    assert_eq!(sanitize_file_name("nul\0char"), "nul_char");
    assert_eq!(sanitize_file_name("\"<>|\0:*?\\/"), "__________");
}

#[test]
fn sanitize_strips_trailing_dots() {
    assert_eq!(sanitize_file_name("Notes..."), "Notes");
    assert_eq!(sanitize_file_name("..."), "");
    assert_eq!(sanitize_file_name("v1.2."), "v1.2");
}

#[test]
fn sanitize_output_has_no_reserved_character() {
    let out = sanitize_file_name("a/b:c*d?e\"f<g>h|i\\j\0k...");
    for c in out.chars() {
        assert!(!is_invalid_for_path(c));
    }
    assert!(!out.ends_with('.'));
}

#[test]
fn validator_accepts_letter_digit_shape() {
    assert!(validate_course("CS101"));
    assert!(validate_course("xCS101y"));
    assert!(validate_course("CS101A"));
    assert!(validate_course("MATH2"));
}

#[test]
fn validator_rejects_shapeless_strings() {
    assert!(!validate_course("101"));
    assert!(!validate_course(""));
    assert!(!validate_course("CS"));
    assert!(!validate_course("cs101"));
    assert!(!validate_course("C S 1"));
    assert!(!validate_course("1CS"));
}

#[test]
fn matcher_requires_code_space_and_text() {
    assert!(course_name_matches("CS101 Algorithms", "CS101"));
    assert!(course_name_matches("CS101\tAlgorithms", "CS101"));
    assert!(!course_name_matches("CS101Algorithms", "CS101"));
    assert!(!course_name_matches("CS101 ", "CS101"));
    assert!(!course_name_matches("CS101", "CS101"));
    assert!(!course_name_matches("CS1010 Math", "CS101"));
    assert!(!course_name_matches("MATH101 Calculus", "CS101"));
}

#[test]
fn resolver_returns_the_unique_match() {
    let root = Directory {
        entries: vec![dir_entry("CS101 Algorithms"), dir_entry("CS102 Data Structures")],
    };
    let found = find_course_path(&root, "CS101").unwrap();
    assert_eq!(found, "CS101 Algorithms");
    let found = find_course_path(&root, "CS102").unwrap();
    assert_eq!(found, "CS102 Data Structures");
}

#[test]
fn resolver_skips_plain_files() {
    let root = Directory {
        entries: vec![file_entry("CS101 Algorithms"), dir_entry("CS101 Advanced Algorithms")],
    };
    let found = find_course_path(&root, "CS101").unwrap();
    assert_eq!(found, "CS101 Advanced Algorithms");
}

#[test]
fn resolver_takes_the_first_match_in_listing_order() {
    let root = Directory {
        entries: vec![dir_entry("CS101 Second Run"), dir_entry("CS101 First Run")],
    };
    let found = find_course_path(&root, "CS101").unwrap();
    assert_eq!(found, "CS101 Second Run");
}

#[test]
fn resolver_fails_with_course_not_found() {
    let root = Directory {
        entries: vec![dir_entry("CS101 Algorithms"), dir_entry("CS102 Data Structures")],
    };
    match find_course_path(&root, "CS999") {
        Err(NoterError::CourseNotFoundError(code)) => assert_eq!(code, "CS999"),
        other => panic!("expected CourseNotFoundError, got {:?}", other),
    }
}

#[test]
fn folder_name_sanitizes_the_title() {
    assert_eq!(folder_name("CS101", "Intro to Algorithms"), "CS101 Intro to Algorithms");
    assert_eq!(folder_name("CS101", "Intro: The Basics?"), "CS101 Intro_ The Basics_");
    assert_eq!(folder_name("CS101", "Why..."), "CS101 Why");
}

#[test]
fn format_date_pads_every_part() {
    assert_eq!(format_date(2024, 3, 5), "2024-03-05");
    assert_eq!(format_date(800, 12, 31), "0800-12-31");
    assert_eq!(format_date(9999, 1, 1), "9999-01-01");
}

#[test]
fn note_file_name_with_and_without_title() {
    assert_eq!(note_file_name(2024, 3, 5, None), "2024-03-05.md");
    assert_eq!(note_file_name(2024, 3, 5, Some("Sorting")), "2024-03-05-Sorting.md");
    assert_eq!(note_file_name(2024, 3, 5, Some("a/b?")), "2024-03-05-a_b_.md");
}

#[test]
fn folder_creation_reports_created_then_already_existed() {
    let mut root = Directory { entries: vec![] };
    let first = make_new_folder(&mut root, "CS101", "Intro");
    assert_eq!(first, Outcome::Created);
    assert_eq!(root.entries.len(), 1);
    assert_eq!(root.entries[0].name, "CS101 Intro");
    assert!(root.entries[0].is_dir);

    let snapshot = root.clone();
    let second = make_new_folder(&mut root, "CS101", "Intro");
    assert_eq!(second, Outcome::AlreadyExisted);
    assert_eq!(root, snapshot);
}

#[test]
fn note_creation_never_overwrites() {
    let mut course_dir = Directory { entries: vec![] };
    let (name, outcome) = make_new_note(&mut course_dir, 2024, 3, 5, Some("Sorting"));
    assert_eq!(outcome, Outcome::Created);
    assert_eq!(name, "2024-03-05-Sorting.md");
    assert_eq!(course_dir.entries[0].content, Vec::<u8>::new());

    course_dir.entries[0].content = b"important notes".to_vec();
    let (name2, outcome2) = make_new_note(&mut course_dir, 2024, 3, 5, Some("Sorting"));
    assert_eq!(name2, name);
    assert_eq!(outcome2, Outcome::AlreadyExisted);
    assert_eq!(course_dir.entries.len(), 1);
    assert_eq!(course_dir.entries[0].content, b"important notes".to_vec());
}

#[test]
fn end_to_end_new_note_twice_on_one_day() {
    let root = Directory { entries: vec![dir_entry("CS101 Intro")] };
    let code = "cs101".to_uppercase();
    assert!(validate_course(&code));
    let course_dir_name = find_course_path(&root, &code).unwrap();
    assert_eq!(course_dir_name, "CS101 Intro");

    let mut course_dir = Directory { entries: vec![] };
    let (file_name, outcome) = make_new_note(&mut course_dir, 2024, 3, 5, None);
    assert_eq!(file_name, "2024-03-05.md");
    assert_eq!(outcome, Outcome::Created);
    assert_eq!(note_status_line(&code, &file_name, outcome), "Created CS101::2024-03-05.md");

    let before = course_dir.clone();
    let (file_name2, outcome2) = make_new_note(&mut course_dir, 2024, 3, 5, None);
    assert_eq!(file_name2, "2024-03-05.md");
    assert_eq!(outcome2, Outcome::AlreadyExisted);
    assert_eq!(course_dir, before);
    assert_eq!(
        note_status_line(&code, &file_name2, outcome2),
        "CS101::2024-03-05.md already exists."
    );
}

#[test]
fn clock_readings_decide_the_note() {
    let mut course_dir = Directory { entries: vec![] };
    let (name, outcome) = note_for_clock(&mut course_dir, Some((2024, 3, 5)), None).unwrap();
    assert_eq!(name, "2024-03-05.md");
    assert_eq!(outcome, Outcome::Created);
    assert_eq!(course_dir.entries.len(), 1);

    let (name2, outcome2) =
        note_for_clock(&mut course_dir, Some((2024, 3, 5)), None).unwrap();
    assert_eq!(name2, "2024-03-05.md");
    assert_eq!(outcome2, Outcome::AlreadyExisted);
    assert_eq!(course_dir.entries.len(), 1);
}

#[test]
fn unusable_clock_readings_touch_nothing() {
    let mut course_dir = Directory { entries: vec![] };
    assert!(note_for_clock(&mut course_dir, Some((10000, 1, 1)), None).is_none());
    assert!(note_for_clock(&mut course_dir, Some((-1, 1, 1)), Some("x")).is_none());
    assert!(note_for_clock(&mut course_dir, None, None).is_none());
    assert!(course_dir.entries.is_empty());
}

#[test]
fn todays_note_uses_the_clock_once_per_call() {
    let mut course_dir = Directory { entries: vec![] };
    let (name, outcome) = make_new_note_today(&mut course_dir, None).unwrap();
    assert_eq!(outcome, Outcome::Created);
    assert_eq!(name.len(), 13);
    assert!(name.ends_with(".md"));
    assert_eq!(course_dir.entries.len(), 1);

    let (name2, outcome2) = make_new_note_today(&mut course_dir, None).unwrap();
    assert_eq!(name2, name);
    assert_eq!(outcome2, Outcome::AlreadyExisted);
    assert_eq!(course_dir.entries.len(), 1);
}

#[test]
fn directory_lookup_is_by_exact_name() {
    let mut dir = Directory { entries: vec![] };
    assert!(!dir_has_entry(&dir, &"2024-03-05.md".to_string()));
    let outcome = create_entry(&mut dir, "2024-03-05.md".to_string(), false);
    assert_eq!(outcome, Outcome::Created);
    assert!(dir_has_entry(&dir, &"2024-03-05.md".to_string()));
    assert!(!dir_has_entry(&dir, &"2024-03-05".to_string()));
}

#[test]
fn folder_status_lines_use_the_raw_title() {
    assert_eq!(
        folder_status_line("CS101", "Intro", Outcome::Created),
        "Created folder for CS101 Intro."
    );
    assert_eq!(
        folder_status_line("CS101", "Intro", Outcome::AlreadyExisted),
        "Folder for CS101 Intro already exists."
    );
}

#[test]
fn error_messages_name_their_cause() {
    let e = NoterError::CourseNotFoundError("CS999".to_string());
    assert_eq!(e.message(), "Could not find notes folder for course CS999");
    assert_eq!(error_line(&e), "Error: Could not find notes folder for course CS999");

    let e = NoterError::BadCourseCodeError("101".to_string());
    assert_eq!(e.message(), "Invalid course code 101");

    let e = NoterError::IoError("permission denied".to_string());
    assert_eq!(e.message(), "IO Error permission denied");

    let e = NoterError::CustomError("boom".to_string());
    assert_eq!(e.message(), "Error boom");

    let e = NoterError::PatternError("bad pattern".to_string());
    assert_eq!(e.message(), "Pattern Error bad pattern");
}
