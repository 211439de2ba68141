//! Path normalisation and the joining of path components.
//!
//! A path is normalised in two steps. First its conventions are unified: a
//! verbatim drive prefix (`\\?\C:`) loses its first four characters, and
//! every backslash becomes a forward slash. Then a leading home-directory
//! marker (`~` alone, or `~` before a separator) is replaced by the home
//! directory, whose conventions are unified the same way.

use crate::error::ResolutionError;
use vstd::prelude::*;
use vstd::string::*;

verus! {

/// `String::push` appends the given character to the end of the string.
pub assume_specification[ String::push ](text: &mut String, ch: char)
    ensures
        final(text)@ == old(text)@.push(ch),
;

/// What `camino::Utf8Path::join` makes of a base path and a path adjoined to
/// it, both taken as text. The result follows the path rules of the platform
/// that the crate is built for, so nothing more is said of it here.
pub uninterp spec fn adjoined(base: Seq<char>, child: Seq<char>) -> Seq<char>;

/// Calls `camino::Utf8Path::join` on `base`, read as a path, with `child`,
/// and hands back the text of the path it returns. The call does not fail;
/// the contract only gives its result a name.
#[verifier::external_body]
pub(crate) fn join(base: &str, child: &str) -> (joined: String)
    ensures
        joined@ == adjoined(base@, child@),
{
    camino::Utf8Path::new(base).join(child).into_string()
}

pub open spec fn is_separator(c: char) -> bool {
    c == '/' || c == '\\'
}

pub open spec fn is_drive_letter(c: char) -> bool {
    ('a' <= c && c <= 'z') || ('A' <= c && c <= 'Z')
}

/// The path begins with `\\?\`, a drive letter and a colon.
pub open spec fn has_verbatim_drive(path: Seq<char>) -> bool {
    &&& path.len() >= 6
    &&& path[0] == '\\'
    &&& path[1] == '\\'
    &&& path[2] == '?'
    &&& path[3] == '\\'
    &&& is_drive_letter(path[4])
    &&& path[5] == ':'
}

pub open spec fn without_verbatim_prefix(path: Seq<char>) -> Seq<char> {
    if has_verbatim_drive(path) {
        path.skip(4)
    } else {
        path
    }
}

pub open spec fn slash_of(c: char) -> char {
    if c == '\\' {
        '/'
    } else {
        c
    }
}

pub open spec fn forward_slashes(path: Seq<char>) -> Seq<char> {
    path.map_values(|c: char| slash_of(c))
}

/// The path with its drive prefix and separators in the common convention.
pub open spec fn conventional(path: Seq<char>) -> Seq<char> {
    forward_slashes(without_verbatim_prefix(path))
}

/// The path is `~`, or begins with `~` and a separator.
pub open spec fn has_home_marker(path: Seq<char>) -> bool {
    &&& path.len() >= 1
    &&& path[0] == '~'
    &&& (path.len() == 1 || is_separator(path[1]))
}

/// The normal form of `path`, given the home directory if it is known.
pub open spec fn normalized(path: Seq<char>, home: Option<Seq<char>>) -> Result<
    Seq<char>,
    ResolutionError,
> {
    let plain = conventional(path);
    if has_home_marker(plain) {
        match home {
            Some(dir) => Ok(conventional(dir) + plain.skip(1)),
            None => Err(ResolutionError::HomeUnavailable),
        }
    } else {
        Ok(plain)
    }
}

/// The text of an optional string slice.
pub open spec fn text_of(value: Option<&str>) -> Option<Seq<char>> {
    match value {
        Some(text) => Some(text@),
        None => None,
    }
}

fn drive_letter(c: char) -> (yes: bool)
    ensures
        yes == is_drive_letter(c),
{
    ('a' <= c && c <= 'z') || ('A' <= c && c <= 'Z')
}

fn with_forward_slashes(path: &str) -> (out: String)
    ensures
        out@ == forward_slashes(path@),
{
    let mut out = String::new();
    for c in it: path.chars()
        invariant
            it.seq() == path@,
            out@ == forward_slashes(path@.take(it.index() as int)),
    {
        out.push(
            if c == '\\' {
                '/'
            } else {
                c
            },
        );
    }
    out
}

fn begins_with_verbatim_drive(path: &str) -> (yes: bool)
    ensures
        yes == has_verbatim_drive(path@),
{
    path.unicode_len() >= 6 && path.get_char(0) == '\\' && path.get_char(1) == '\\'
        && path.get_char(2) == '?' && path.get_char(3) == '\\' && drive_letter(path.get_char(4))
        && path.get_char(5) == ':'
}

/// Whether the path begins with the home-directory marker.
pub fn begins_with_home_marker(path: &str) -> (yes: bool)
    ensures
        yes == has_home_marker(path@),
{
    let length = path.unicode_len();
    if length == 0 || path.get_char(0) != '~' {
        false
    } else if length == 1 {
        true
    } else {
        let next = path.get_char(1);
        next == '/' || next == '\\'
    }
}

/// Unifies the conventions of a path: drops the first four characters of a
/// verbatim drive prefix and turns every backslash into a forward slash.
pub fn normalize_conventions(path: &str) -> (out: String)
    ensures
        out@ == conventional(path@),
{
    if begins_with_verbatim_drive(path) {
        let length = path.unicode_len();
        with_forward_slashes(path.substring_char(4, length))
    } else {
        with_forward_slashes(path)
    }
}

/// Normalises a path. The result is the path in the common convention, with
/// a leading home-directory marker replaced by `home`. It fails exactly when
/// the path begins with the marker and `home` is `None`.
pub fn normalize_path(path: &str, home: Option<&str>) -> (result: Result<String, ResolutionError>)
    ensures
        match result {
            Ok(out) => normalized(path@, text_of(home)) == Ok::<Seq<char>, ResolutionError>(out@),
            Err(error) => normalized(path@, text_of(home)) == Err::<Seq<char>, ResolutionError>(
                error,
            ),
        },
{
    let plain = normalize_conventions(path);
    if begins_with_home_marker(plain.as_str()) {
        match home {
            Some(dir) => {
                let mut out = normalize_conventions(dir);
                let length = plain.as_str().unicode_len();
                out.append(plain.as_str().substring_char(1, length));
                Ok(out)
            },
            None => Err(ResolutionError::HomeUnavailable),
        }
    } else {
        Ok(plain)
    }
}

/// A path in the common convention holds no backslash.
pub proof fn lemma_conventional_has_no_backslash(path: Seq<char>)
    ensures
        forall|i: int| 0 <= i < conventional(path).len() ==> conventional(path)[i] != '\\',
{
}

/// Unifying the conventions of a path that holds no backslash changes
/// nothing.
pub proof fn lemma_conventional_without_backslash(path: Seq<char>)
    requires
        forall|i: int| 0 <= i < path.len() ==> path[i] != '\\',
    ensures
        conventional(path) == path,
{
    assert(!has_verbatim_drive(path)) by {
        if path.len() >= 6 {
            assert(path[0] != '\\');
        }
    }
    assert(forward_slashes(path) =~= path);
}

/// Unifying conventions is idempotent: applied to its own result it changes
/// nothing.
pub proof fn lemma_conventional_idempotent(path: Seq<char>)
    ensures
        conventional(conventional(path)) == conventional(path),
{
    lemma_conventional_has_no_backslash(path);
    lemma_conventional_without_backslash(conventional(path));
}

/// The home directory is one that is expanded again: in the common
/// convention it begins with the home-directory marker and a separator.
pub open spec fn home_below_marker(home: Option<Seq<char>>) -> bool {
    match home {
        Some(dir) => conventional(dir).len() >= 2 && has_home_marker(conventional(dir)),
        None => false,
    }
}

/// Normalisation is idempotent: a normalised path is its own normal form.
/// The one exception is a path with the home-directory marker where the
/// home directory itself lies below the marker (see
/// `lemma_normalized_below_marker`).
pub proof fn lemma_normalized_idempotent(path: Seq<char>, home: Option<Seq<char>>)
    requires
        normalized(path, home) is Ok,
        !(has_home_marker(conventional(path)) && home_below_marker(home)),
    ensures
        normalized(normalized(path, home)->Ok_0, home) == normalized(path, home),
{
    let plain = conventional(path);
    let once = normalized(path, home)->Ok_0;
    lemma_conventional_has_no_backslash(path);
    if has_home_marker(plain) {
        let dir = conventional(home->0);
        lemma_conventional_has_no_backslash(home->0);
        assert forall|i: int| 0 <= i < once.len() implies once[i] != '\\' by {
            if i >= dir.len() {
                assert(once[i] == plain[i - dir.len() + 1]);
            }
        }
        lemma_conventional_without_backslash(once);
        if has_home_marker(dir) {
            assert(dir =~= seq!['~']);
            assert(once =~= plain);
            assert(dir + once.skip(1) =~= once);
        } else {
            assert(!has_home_marker(once)) by {
                if dir.len() == 0 {
                    if once.len() >= 1 {
                        assert(once[0] == plain[1]);
                    }
                } else if dir.len() == 1 {
                    assert(once[0] == dir[0]);
                } else {
                    assert(once[0] == dir[0]);
                    assert(once[1] == dir[1]);
                }
            }
        }
    } else {
        lemma_conventional_without_backslash(plain);
    }
}

/// Where the home directory lies below the home-directory marker, a path
/// with the marker is expanded anew each time: its normal form is not the
/// normal form of that normal form.
pub proof fn lemma_normalized_below_marker(path: Seq<char>, home: Option<Seq<char>>)
    requires
        has_home_marker(conventional(path)),
        home_below_marker(home),
    ensures
        normalized(path, home) is Ok,
        normalized(normalized(path, home)->Ok_0, home) != normalized(path, home),
{
    let plain = conventional(path);
    let dir = conventional(home->0);
    let once = normalized(path, home)->Ok_0;
    lemma_conventional_has_no_backslash(path);
    lemma_conventional_has_no_backslash(home->0);
    assert forall|i: int| 0 <= i < once.len() implies once[i] != '\\' by {
        if i >= dir.len() {
            assert(once[i] == plain[i - dir.len() + 1]);
        }
    }
    lemma_conventional_without_backslash(once);
    assert(once[0] == dir[0]);
    assert(once[1] == dir[1]);
    assert(has_home_marker(once));
    let twice = normalized(once, home)->Ok_0;
    assert(twice.len() == dir.len() + once.len() - 1);
}

} // verus!
