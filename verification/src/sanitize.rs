//! Sanitizing arbitrary user text into a safe path segment.
//!
//! Reserved characters become underscores, and trailing periods are
//! stripped, so the result is usable as a single file or directory name
//! on the common desktop filesystems.

use vstd::prelude::*;

verus! {

/// A character that common filesystems refuse inside a path segment:
/// the Windows reserved set together with NUL and the path separators.
pub open spec fn is_reserved_char(c: char) -> bool {
    c == '"' || c == '<' || c == '>' || c == '|' || c == '\0' || c == ':' || c == '*' || c == '?'
        || c == '\\' || c == '/'
}

/// Whether `c` may not appear in a path segment.
pub fn is_invalid_for_path(c: char) -> (r: bool)
    ensures
        r == is_reserved_char(c),
{
    match c {
        '"' | '<' | '>' | '|' | '\0' | ':' | '*' | '?' | '\\' | '/' => true,
        _ => false,
    }
}

/// The string with every reserved character replaced by an underscore.
pub open spec fn replace_reserved(s: Seq<char>) -> Seq<char> {
    s.map_values(
        |c: char|
            if is_reserved_char(c) {
                '_'
            } else {
                c
            },
    )
}

/// The string with all trailing period characters removed.
pub open spec fn strip_trailing_dots(s: Seq<char>) -> Seq<char>
    decreases s.len(),
{
    if s.len() > 0 && s[s.len() - 1] == '.' {
        strip_trailing_dots(s.drop_last())
    } else {
        s
    }
}

/// What sanitizing produces: reserved characters become underscores,
/// then trailing dots are stripped.
pub open spec fn sanitize_spec(s: Seq<char>) -> Seq<char> {
    strip_trailing_dots(replace_reserved(s))
}

/// Relies on `String::push`: it appends the given character to the end
/// of the string and changes nothing else.
#[verifier::external_body]
pub(crate) fn push_char(s: &mut String, c: char)
    ensures
        final(s)@ == old(s)@.push(c),
{
    s.push(c);
}

proof fn lemma_strip_to_subrange(s: Seq<char>, end: int)
    requires
        0 <= end <= s.len(),
        forall|j: int| end <= j < s.len() ==> s[j] == '.',
        end > 0 ==> s[end - 1] != '.',
    ensures
        strip_trailing_dots(s) == s.subrange(0, end),
    decreases s.len(),
{
    if s.len() > end {
        assert(s[s.len() - 1] == '.');
        assert(s.drop_last() =~= s.subrange(0, s.len() - 1));
        lemma_strip_to_subrange(s.drop_last(), end);
        assert(s.drop_last().subrange(0, end) =~= s.subrange(0, end));
    } else {
        assert(s.subrange(0, end) =~= s);
    }
}

/// Maps user text to a string that is safe as a single path segment:
/// every reserved character is replaced by `_`, and any run of periods
/// at the end is removed.
pub fn sanitize_file_name(path: &str) -> (r: String)
    ensures
        r@ == sanitize_spec(path@),
{
    let n = path.unicode_len();
    let mut end = n;
    while end > 0 && path.get_char(end - 1) == '.'
        invariant
            end <= n,
            n == path@.len(),
            forall|j: int| end <= j < n ==> path@[j] == '.',
        decreases end,
    {
        end = end - 1;
    }
    let mut out = String::new();
    let mut i: usize = 0;
    while i < end
        invariant
            0 <= i <= end <= n,
            n == path@.len(),
            out@.len() == i,
            forall|j: int|
                0 <= j < i ==> out@[j] == (if is_reserved_char(path@[j]) {
                    '_'
                } else {
                    path@[j]
                }),
        decreases end - i,
    {
        let c = path.get_char(i);
        if is_invalid_for_path(c) {
            push_char(&mut out, '_');
        } else {
            push_char(&mut out, c);
        }
        i = i + 1;
    }
    proof {
        let t = replace_reserved(path@);
        assert(forall|j: int| end <= j < t.len() ==> #[trigger] t[j] == '.') by {
            assert(forall|j: int| end <= j < path@.len() ==> path@[j] == '.');
        }
        assert(end > 0 ==> t[end - 1] != '.');
        lemma_strip_to_subrange(t, end as int);
        assert(out@ =~= t.subrange(0, end as int));
    }
    out
}

/// Law: sanitizing is the identity on a string that is already safe,
/// that is, one with no reserved character and no trailing period.
pub proof fn lemma_sanitize_safe_identity(s: Seq<char>)
    requires
        forall|i: int| 0 <= i < s.len() ==> !is_reserved_char(s[i]),
        s.len() > 0 ==> s[s.len() - 1] != '.',
    ensures
        sanitize_spec(s) == s,
{
    let t = replace_reserved(s);
    assert(t =~= s);
    lemma_strip_to_subrange(t, t.len() as int);
    assert(t.subrange(0, t.len() as int) =~= s);
}

proof fn lemma_strip_no_reserved(s: Seq<char>)
    requires
        forall|i: int| 0 <= i < s.len() ==> !is_reserved_char(s[i]),
    ensures
        forall|i: int|
            0 <= i < strip_trailing_dots(s).len() ==> !is_reserved_char(
                #[trigger] strip_trailing_dots(s)[i],
            ),
    decreases s.len(),
{
    if s.len() > 0 && s[s.len() - 1] == '.' {
        assert(forall|i: int|
            0 <= i < s.drop_last().len() ==> !is_reserved_char(#[trigger] s.drop_last()[i]));
        lemma_strip_no_reserved(s.drop_last());
        assert(strip_trailing_dots(s) == strip_trailing_dots(s.drop_last()));
        assert forall|i: int| 0 <= i < strip_trailing_dots(s).len() implies !is_reserved_char(
            strip_trailing_dots(s)[i],
        ) by {
            assert(strip_trailing_dots(s)[i] == strip_trailing_dots(s.drop_last())[i]);
        }
    } else {
        assert forall|i: int| 0 <= i < strip_trailing_dots(s).len() implies !is_reserved_char(
            strip_trailing_dots(s)[i],
        ) by {
            assert(strip_trailing_dots(s)[i] == s[i]);
        }
    }
}

/// Law: the sanitized form of any string contains no reserved character.
pub proof fn lemma_sanitize_no_reserved(s: Seq<char>)
    ensures
        forall|i: int|
            0 <= i < sanitize_spec(s).len() ==> !is_reserved_char(#[trigger] sanitize_spec(s)[i]),
{
    let t = replace_reserved(s);
    assert(forall|i: int| 0 <= i < t.len() ==> !is_reserved_char(#[trigger] t[i]));
    lemma_strip_no_reserved(t);
}

} // verus!
