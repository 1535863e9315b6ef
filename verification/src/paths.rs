//! Paths as the library sees them: plain strings, absolute when they begin
//! with the separator.

use path_absolutize::Absolutize;
use vstd::prelude::*;

verus! {

#[verifier::external_type_specification]
#[verifier::external_body]
pub struct ExIoError(std::io::Error);

/// The path that `path_absolutize` computes for `path` when the working
/// directory is `cwd`.
pub uninterp spec fn absolutized(path: Seq<char>, cwd: Seq<char>) -> Seq<char>;

/// `Absolutize::absolutize_from` of `path_absolutize`, on strings, as the
/// crate implements it for Unix-like systems, whose paths are the paths of
/// this library. There the call has no failing path: it returns the path
/// named `absolutized(path, cwd)`, which is a function of the two arguments
/// alone and begins at the root. The crate builds the result from the
/// components of `cwd`, or from the root of `path`; with a `cwd` that does
/// not begin at the root it can run out of components and give up, so such a
/// `cwd` is left out.
#[verifier::external_body]
fn absolutize_from(path: &str, cwd: &str) -> (r: Result<String, std::io::Error>)
    requires
        spec_is_absolute(cwd@),
    ensures
        r is Ok,
        r matches Ok(p) ==> p@ == absolutized(path@, cwd@) && spec_is_absolute(p@),
{
    let p = std::path::Path::new(path).absolutize_from(cwd)?;
    Ok(p.to_string_lossy().into_owned())
}

/// Whether the standard library takes `a` and `b` for the same path.
pub uninterp spec fn same_path(a: Seq<char>, b: Seq<char>) -> bool;

/// `==` on `std::path::Path`: the answer is a function of the two texts alone,
/// named `same_path`, and two equal texts are the same path.
#[verifier::external_body]
pub(crate) fn path_eq(a: &str, b: &str) -> (r: bool)
    ensures
        r == same_path(a@, b@),
        a@ == b@ ==> r,
{
    std::path::Path::new(a) == std::path::Path::new(b)
}

/// The path that the standard library gives as the parent of `path`.
pub uninterp spec fn parent_of(path: Seq<char>) -> Option<Seq<char>>;

/// `Path::parent` of the standard library, on strings: the result is a
/// function of the path alone, named `parent_of`.
#[verifier::external_body]
pub(crate) fn path_parent(path: &str) -> (r: Option<String>)
    ensures
        r is Some == parent_of(path@) is Some,
        r matches Some(p) ==> p@ == parent_of(path@)->0,
{
    match std::path::Path::new(path).parent() {
        Some(p) => Some(p.to_string_lossy().into_owned()),
        None => None,
    }
}

/// The final component that the standard library finds in `path`.
pub uninterp spec fn file_name_of(path: Seq<char>) -> Option<Seq<char>>;

/// `Path::file_name` of the standard library, on strings: the result is a
/// function of the path alone, named `file_name_of`.
#[verifier::external_body]
pub(crate) fn path_file_name(path: &str) -> (r: Option<String>)
    ensures
        r is Some == file_name_of(path@) is Some,
        r matches Some(p) ==> p@ == file_name_of(path@)->0,
{
    match std::path::Path::new(path).file_name() {
        Some(p) => Some(p.to_string_lossy().into_owned()),
        None => None,
    }
}

/// The path that the standard library makes of `base` and `part`.
pub uninterp spec fn joined_path(base: Seq<char>, part: Seq<char>) -> Seq<char>;

/// `Path::join` of the standard library, on strings: the result is a function
/// of the two arguments alone, named `joined_path`.
#[verifier::external_body]
pub(crate) fn path_join(base: &str, part: &str) -> (r: String)
    ensures
        r@ == joined_path(base@, part@),
{
    std::path::Path::new(base).join(part).to_string_lossy().into_owned()
}

/// Whether the standard library finds the components of `base` at the
/// beginning of those of `path`.
pub uninterp spec fn path_within(path: Seq<char>, base: Seq<char>) -> bool;

/// `Path::starts_with` of the standard library, on strings: the answer is a
/// function of the two texts alone, named `path_within`.
#[verifier::external_body]
pub(crate) fn path_starts_with(path: &str, base: &str) -> (r: bool)
    ensures
        r == path_within(path@, base@),
{
    std::path::Path::new(path).starts_with(base)
}

/// The parts of a list of paths: a separator ends one part and begins the
/// next, so a text without separators is one part and `n` separators make
/// `n + 1` parts, empty ones included.
pub open spec fn split_list(text: Seq<char>, separator: char) -> Seq<Seq<char>>
    decreases text.len(),
{
    if text.len() == 0 {
        seq![Seq::<char>::empty()]
    } else {
        let before = split_list(text.drop_last(), separator);
        if text.last() == separator {
            before.push(Seq::<char>::empty())
        } else {
            before.update(before.len() - 1, before.last().push(text.last()))
        }
    }
}

/// The parts written one after the other with the separator between them.
pub open spec fn join_list(parts: Seq<Seq<char>>, separator: char) -> Seq<char>
    decreases parts.len(),
{
    if parts.len() == 0 {
        Seq::<char>::empty()
    } else if parts.len() == 1 {
        parts[0]
    } else {
        join_list(parts.drop_last(), separator) + seq![separator] + parts.last()
    }
}

/// Splits `text` at every `separator`.
pub fn split(text: &str, separator: char) -> (parts: Vec<String>)
    ensures
        crate::text::words(parts@) == split_list(text@, separator),
{
    let chars = crate::text::to_chars(text);
    let mut parts: Vec<String> = Vec::new();
    let mut current = String::new();
    let mut i: usize = 0;
    while i < chars.len()
        invariant
            i <= chars.len(),
            chars@ == text@,
            crate::text::words(parts@).push(current@) == split_list(
                chars@.take(i as int),
                separator,
            ),
        decreases chars.len() - i,
    {
        let ghost done = crate::text::words(parts@).push(current@);
        proof {
            assert(chars@.take(i + 1).drop_last() =~= chars@.take(i as int));
        }
        if chars[i] == separator {
            parts.push(current);
            current = String::new();
            assert(crate::text::words(parts@).push(current@) =~= done.push(Seq::<char>::empty()));
        } else {
            current.push(chars[i]);
            assert(crate::text::words(parts@).push(current@) =~= done.update(
                done.len() - 1,
                done.last().push(chars@[i as int]),
            ));
        }
        i += 1;
    }
    assert(chars@.take(chars.len() as int) =~= chars@);
    parts.push(current);
    assert(crate::text::words(parts@) =~= split_list(text@, separator));
    parts
}

/// Writes the parts one after the other with `separator` between them.
pub fn join_parts(parts: &Vec<String>, separator: char) -> (text: String)
    ensures
        text@ == join_list(crate::text::words(parts@), separator),
{
    let mut text = String::new();
    let mut i: usize = 0;
    while i < parts.len()
        invariant
            i <= parts.len(),
            text@ == join_list(crate::text::words(parts@).take(i as int), separator),
        decreases parts.len() - i,
    {
        proof {
            assert(crate::text::words(parts@).take(i + 1).drop_last() =~= crate::text::words(
                parts@,
            ).take(i as int));
        }
        if i > 0 {
            text.push(separator);
        }
        crate::text::push_str(&mut text, parts[i].as_str());
        assert(text@ =~= join_list(crate::text::words(parts@).take(i + 1), separator));
        i += 1;
    }
    assert(crate::text::words(parts@).take(parts.len() as int) =~= crate::text::words(parts@));
    text
}

pub open spec fn spec_is_absolute(path: Seq<char>) -> bool {
    path.len() > 0 && path[0] == '/'
}

/// Whether `path` begins with the separator.
pub fn is_absolute(path: &str) -> (r: bool)
    ensures
        r == spec_is_absolute(path@),
{
    let mut it = path.chars();
    match it.next() {
        Some(c) => c == '/',
        None => false,
    }
}

/// `path` made absolute against `cwd`, with its dots resolved. There is a
/// result exactly when `cwd` is absolute itself.
pub fn absolutize(path: &str, cwd: &str) -> (r: Option<String>)
    ensures
        r is Some == spec_is_absolute(cwd@),
        r matches Some(p) ==> p@ == absolutized(path@, cwd@) && spec_is_absolute(p@),
{
    if !is_absolute(cwd) {
        return None;
    }
    match absolutize_from(path, cwd) {
        Ok(p) => Some(p),
        Err(_) => None,
    }
}

} // verus!
