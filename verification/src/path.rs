//! Where a configuration file lives.
//!
//! Paths are plain text in which `/` separates the components. A path is
//! split the way `std::path` splits one on a system whose separator is `/`:
//! a leading `/` is the root, doubled separators count once, and separators
//! and `.` components at the end do not count.

use crate::error::FondantError;
use crate::format::Format;
use crate::platform::home_dir;
use crate::text::{find_last, last_index_of, lemma_last_index_of};
use vstd::prelude::*;
use vstd::string::*;

verus! {

/// Whether `path` begins with the shorthand for the home directory: `~`
/// alone, or `~/` and more.
pub open spec fn is_home_shorthand(path: Seq<char>) -> bool {
    path.len() >= 1 && path[0] == '~' && (path.len() == 1 || path[1] == '/')
}

/// The text of an optional string.
pub open spec fn option_text(s: Option<String>) -> Option<Seq<char>> {
    match s {
        Some(s) => Some(s@),
        None => None,
    }
}

/// `name` placed in `dir`. A name that begins at the root stands for itself;
/// otherwise one separator stands between the two unless `dir` is empty or
/// brings its own.
pub open spec fn joined(dir: Seq<char>, name: Seq<char>) -> Seq<char> {
    if name.len() > 0 && name[0] == '/' {
        name
    } else if dir.len() == 0 || dir.last() == '/' {
        dir + name
    } else {
        dir + seq!['/'] + name
    }
}

/// How much of `path` stands before its components: the root, or a leading
/// `.` that stands for the current directory.
pub open spec fn body_start(path: Seq<char>) -> int {
    if path.len() > 0 && path[0] == '/' {
        1
    } else if path.len() > 0 && path[0] == '.' && (path.len() == 1 || path[1] == '/') {
        1
    } else {
        0
    }
}

/// The length to which the first `len` characters of `path` shrink when what
/// does not count at their end is dropped: separators, and components that
/// are `.`.
pub open spec fn trimmed_len(path: Seq<char>, len: int) -> int
    decreases len,
{
    if len <= body_start(path) || len > path.len() {
        len
    } else if path[len - 1] == '/' {
        trimmed_len(path, len - 1)
    } else if path[len - 1] == '.' && len - 1 == body_start(path) {
        trimmed_len(path, len - 1)
    } else if path[len - 1] == '.' && path[len - 2] == '/' {
        trimmed_len(path, len - 2)
    } else {
        len
    }
}

/// Where the last component of `path` ends.
pub open spec fn name_end(path: Seq<char>) -> int {
    trimmed_len(path, path.len() as int)
}

/// Where what counts in `path` from `from` on begins: behind the separators
/// and the components that are `.`.
pub open spec fn rest_start(path: Seq<char>, from: int) -> int
    decreases path.len() - from,
{
    if from < 0 || from >= path.len() {
        from
    } else if path[from] == '/' {
        rest_start(path, from + 1)
    } else if path[from] == '.' && (from + 1 == path.len() || path[from + 1] == '/') {
        rest_start(path, from + 1)
    } else {
        from
    }
}

/// `path` with a leading home shorthand replaced by `home`: `home` itself
/// where nothing that counts follows the shorthand, else `home`, a separator
/// and what follows, without what does not count at its two ends. Any other
/// path as it is.
pub open spec fn expanded(path: Seq<char>, home: Seq<char>) -> Seq<char> {
    if !is_home_shorthand(path) {
        path
    } else if rest_start(path, 1) < name_end(path) {
        home + seq!['/'] + path.subrange(rest_start(path, 1), name_end(path))
    } else {
        home
    }
}

/// The expansion of `path` for a given outcome of the home directory lookup.
pub open spec fn expansion(path: Seq<char>, home: Option<Seq<char>>) -> Option<Seq<char>> {
    if is_home_shorthand(path) {
        match home {
            Some(home) => Some(expanded(path, home)),
            None => None,
        }
    } else {
        Some(path)
    }
}

/// Where the last component of `path` begins.
pub open spec fn name_start(path: Seq<char>) -> int {
    body_start(path) + last_index_of(path.subrange(body_start(path), name_end(path)), '/') + 1
}

/// Whether `path` ends in the name of a file: it has a last component, and
/// that is not `..`.
pub open spec fn has_file_name(path: Seq<char>) -> bool {
    name_start(path) < name_end(path) && path.subrange(name_start(path), name_end(path))
        != seq!['.', '.']
}

/// The file name that `path` ends in; empty where it ends in none.
pub open spec fn file_name_of(path: Seq<char>) -> Seq<char> {
    if has_file_name(path) {
        path.subrange(name_start(path), name_end(path))
    } else {
        Seq::empty()
    }
}

/// `path` without its last component, and without what does not count at
/// the end of the rest; empty where `path` has no component.
pub open spec fn parent_of(path: Seq<char>) -> Seq<char> {
    if name_end(path) <= body_start(path) {
        Seq::empty()
    } else if name_start(path) > body_start(path) {
        path.take(trimmed_len(path, name_start(path) - 1))
    } else {
        path.take(name_start(path))
    }
}

/// The position in `name` of the dot that starts its extension, or -1 where
/// it has none. A dot that `name` begins with starts no extension.
pub open spec fn extension_dot(name: Seq<char>) -> int {
    if last_index_of(name, '.') > 0 {
        last_index_of(name, '.')
    } else {
        -1
    }
}

/// `name` without its extension; `None` for an empty name.
pub open spec fn stem_of(name: Seq<char>) -> Option<Seq<char>> {
    if name.len() == 0 {
        None
    } else if extension_dot(name) >= 0 {
        Some(name.take(extension_dot(name)))
    } else {
        Some(name)
    }
}

/// What follows the dot that starts the extension of `name`, if there is one.
pub open spec fn extension_of(name: Seq<char>) -> Option<Seq<char>> {
    if extension_dot(name) >= 0 {
        Some(name.skip(extension_dot(name) + 1))
    } else {
        None
    }
}

/// Where the stem of the file name of `path` ends.
pub open spec fn stem_end(path: Seq<char>) -> int {
    if extension_dot(file_name_of(path)) >= 0 {
        name_start(path) + extension_dot(file_name_of(path))
    } else {
        name_end(path)
    }
}

/// `path` with the extension of its file name set to that of `format`, in
/// place of the one it has, if it has one: what follows the stem is dropped,
/// then a dot and the extension are added. A path that ends in no file name
/// stays as it is.
pub open spec fn with_extension_text(path: Seq<char>, format: Format) -> Seq<char> {
    if has_file_name(path) {
        path.take(stem_end(path)) + seq!['.'] + format.extension_text()
    } else {
        path
    }
}

/// The first `len` characters of `path` shrink to a length between the start
/// of the components and `len`.
pub proof fn lemma_trimmed_len_bounds(path: Seq<char>, len: int)
    requires
        body_start(path) <= len <= path.len(),
    ensures
        body_start(path) <= trimmed_len(path, len) <= len,
    decreases len,
{
    if len > body_start(path) {
        if path[len - 1] == '/' {
            lemma_trimmed_len_bounds(path, len - 1);
        } else if path[len - 1] == '.' && len - 1 == body_start(path) {
            lemma_trimmed_len_bounds(path, len - 1);
        } else if path[len - 1] == '.' && path[len - 2] == '/' {
            lemma_trimmed_len_bounds(path, len - 2);
        }
    }
}

/// The last component of `path` lies between the start of its components
/// and its end.
pub proof fn lemma_name_bounds(path: Seq<char>)
    ensures
        body_start(path) <= name_start(path) <= name_end(path) <= path.len(),
        name_start(path) > body_start(path) ==> path[name_start(path) - 1] == '/',
        forall|j: int| name_start(path) <= j < name_end(path) ==> path[j] != '/',
{
    lemma_trimmed_len_bounds(path, path.len() as int);
    let body = path.subrange(body_start(path), name_end(path));
    lemma_last_index_of(body, '/');
    assert forall|j: int| name_start(path) <= j < name_end(path) implies path[j] != '/' by {
        assert(body[j - body_start(path)] == path[j]);
    }
}

/// What is dropped at the end of the first `len` characters depends on those
/// characters alone.
pub proof fn lemma_trimmed_len_of_prefix(path: Seq<char>, longer: Seq<char>, len: int)
    requires
        0 <= len <= path.len() <= longer.len(),
        forall|j: int| 0 <= j < path.len() ==> path[j] == longer[j],
        body_start(path) == body_start(longer),
    ensures
        trimmed_len(longer, len) == trimmed_len(path, len),
    decreases len,
{
    if len > body_start(path) {
        if path[len - 1] == '/' {
            lemma_trimmed_len_of_prefix(path, longer, len - 1);
        } else if path[len - 1] == '.' && len - 1 == body_start(path) {
            lemma_trimmed_len_of_prefix(path, longer, len - 1);
        } else if path[len - 1] == '.' && path[len - 2] == '/' {
            lemma_trimmed_len_of_prefix(path, longer, len - 2);
        }
    }
}

/// A separator at the end of a path does not count: with it the path splits
/// into the same directory and the same file name as without it.
pub proof fn lemma_trailing_separator(path: Seq<char>)
    requires
        path.len() > 0,
    ensures
        has_file_name(path + seq!['/']) == has_file_name(path),
        file_name_of(path + seq!['/']) == file_name_of(path),
        parent_of(path + seq!['/']) == parent_of(path),
{
    let longer = path + seq!['/'];
    let len = path.len() as int;
    assert(longer[0] == path[0]);
    assert(len > 1 ==> longer[1] == path[1]);
    assert(body_start(longer) == body_start(path));
    assert(longer[len] == '/');
    lemma_trimmed_len_of_prefix(path, longer, len);
    lemma_trimmed_len_bounds(path, len);
    assert(name_end(longer) == name_end(path));
    assert(longer.subrange(body_start(path), name_end(path)) =~= path.subrange(
        body_start(path),
        name_end(path),
    ));
    lemma_name_bounds(path);
    assert(longer.subrange(name_start(path), name_end(path)) =~= path.subrange(
        name_start(path),
        name_end(path),
    ));
    if name_start(path) > body_start(path) {
        lemma_trimmed_len_of_prefix(path, longer, name_start(path) - 1);
        lemma_trimmed_len_bounds(path, name_start(path) - 1);
        assert(longer.take(trimmed_len(path, name_start(path) - 1)) =~= path.take(
            trimmed_len(path, name_start(path) - 1),
        ));
    } else {
        assert(longer.take(name_start(path)) =~= path.take(name_start(path)));
    }
}

/// Whether `path` begins with the shorthand for the home directory.
pub fn starts_with_home(path: &str) -> (shorthand: bool)
    ensures
        shorthand == is_home_shorthand(path@),
{
    let n: usize = path.unicode_len();
    n >= 1 && path.get_char(0) == '~' && (n == 1 || path.get_char(1) == '/')
}

/// Skips the separators and `.` components of `path` from `from` on.
pub(crate) fn skip_start(path: &str, from: usize) -> (start: usize)
    requires
        from <= path@.len(),
    ensures
        start == rest_start(path@, from as int),
        from <= start <= path@.len(),
{
    let n: usize = path.unicode_len();
    let mut at: usize = from;
    while at < n
        invariant
            n == path@.len(),
            from <= at <= n,
            rest_start(path@, at as int) == rest_start(path@, from as int),
        decreases n - at,
    {
        let c: char = path.get_char(at);
        if c == '/' {
            at += 1;
        } else if c == '.' && (at + 1 == n || path.get_char(at + 1) == '/') {
            at += 1;
        } else {
            return at;
        }
    }
    at
}

/// Expands a leading home shorthand in `path` to `home`.
pub fn expand_tilde_in(path: &str, home: &str) -> (full: String)
    ensures
        full@ == expanded(path@, home@),
{
    if !starts_with_home(path) {
        return String::from_str(path);
    }
    let from: usize = skip_start(path, 1);
    let to: usize = trim_end(path, path.unicode_len());
    if from < to {
        proof {
            reveal_strlit("/");
            assert("/"@ =~= seq!['/']);
        }
        String::from_str(home).concat("/").concat(path.substring_char(from, to))
    } else {
        String::from_str(home)
    }
}

/// Expands a leading home shorthand in `path` to the current user's home
/// directory. A path without the shorthand comes back as it is and the system
/// is not asked; one with it is expanded to what the system names as the home
/// directory, and fails with `InvalidHomeDir` when the system names none.
pub fn expand_tilde(path: &str) -> (full: Result<String, FondantError>)
    ensures
        !is_home_shorthand(path@) ==> full is Ok && full->Ok_0@ == path@,
        full matches Ok(text) ==> exists|home: Seq<char>| text@ == #[trigger] expanded(path@, home),
        full matches Err(e) ==> e == FondantError::InvalidHomeDir,
{
    let home = if starts_with_home(path) {
        home_dir()
    } else {
        None
    };
    let ghost answer = option_text(home);
    let full = expand_tilde_from(path, home);
    proof {
        if full is Ok {
            let witness = if answer is Some {
                answer->Some_0
            } else {
                Seq::<char>::empty()
            };
            assert(full->Ok_0@ == expanded(path@, witness));
        }
    }
    full
}

/// Expands `path` given what the home directory lookup returned: fails with
/// `InvalidHomeDir` exactly when the shorthand is there and the home
/// directory is not.
pub fn expand_tilde_from(path: &str, home: Option<String>) -> (full: Result<String, FondantError>)
    ensures
        match expansion(path@, option_text(home)) {
            Some(text) => full is Ok && full->Ok_0@ == text,
            None => full == Err::<String, FondantError>(FondantError::InvalidHomeDir),
        },
{
    match home {
        Some(home) => Ok(expand_tilde_in(path, home.as_str())),
        None => {
            if starts_with_home(path) {
                Err(FondantError::InvalidHomeDir)
            } else {
                Ok(String::from_str(path))
            }
        },
    }
}

/// Places `name` in `dir`.
pub fn join(dir: &str, name: &str) -> (path: String)
    ensures
        path@ == joined(dir@, name@),
{
    let n: usize = dir.unicode_len();
    if name.unicode_len() > 0 && name.get_char(0) == '/' {
        String::from_str(name)
    } else if n == 0 || dir.get_char(n - 1) == '/' {
        String::from_str(dir).concat(name)
    } else {
        proof {
            reveal_strlit("/");
            assert("/"@ =~= seq!['/']);
        }
        String::from_str(dir).concat("/").concat(name)
    }
}

/// How much of `path` stands before its components.
pub(crate) fn body_begin(path: &str) -> (start: usize)
    ensures
        start == body_start(path@),
        start <= path@.len(),
{
    let n: usize = path.unicode_len();
    if n == 0 {
        0
    } else if path.get_char(0) == '/' {
        1
    } else if path.get_char(0) == '.' && (n == 1 || path.get_char(1) == '/') {
        1
    } else {
        0
    }
}

/// Drops what does not count at the end of the first `len` characters of
/// `path`.
pub(crate) fn trim_end(path: &str, len: usize) -> (end: usize)
    requires
        body_start(path@) <= len <= path@.len(),
    ensures
        end == trimmed_len(path@, len as int),
        body_start(path@) <= end <= len,
{
    let start: usize = body_begin(path);
    let mut end: usize = len;
    while end > start
        invariant
            start == body_start(path@),
            start <= end <= len,
            len <= path@.len(),
            trimmed_len(path@, end as int) == trimmed_len(path@, len as int),
        decreases end,
    {
        let last: char = path.get_char(end - 1);
        if last == '/' {
            end -= 1;
        } else if last == '.' && end - 1 == start {
            end -= 1;
        } else if last == '.' && path.get_char(end - 2) == '/' {
            end -= 2;
        } else {
            return end;
        }
    }
    end
}

/// The bounds of the last component of `path`: where it begins and where it
/// ends.
pub(crate) fn name_bounds(path: &str) -> (bounds: (usize, usize))
    ensures
        bounds.0 == name_start(path@),
        bounds.1 == name_end(path@),
        body_start(path@) <= bounds.0 <= bounds.1 <= path@.len(),
{
    let start: usize = body_begin(path);
    let end: usize = trim_end(path, path.unicode_len());
    let from: usize = match find_last(path.substring_char(start, end), '/') {
        Some(slash) => start + slash + 1,
        None => start,
    };
    (from, end)
}

/// Whether the component of `path` between these bounds is the name of a
/// file.
pub(crate) fn is_file_name(path: &str, from: usize, to: usize) -> (named: bool)
    requires
        from == name_start(path@),
        to == name_end(path@),
        from <= to <= path@.len(),
    ensures
        named == has_file_name(path@),
{
    if from == to {
        false
    } else if to - from == 2 && path.get_char(from) == '.' && path.get_char(from + 1) == '.' {
        assert(path@.subrange(from as int, to as int) =~= seq!['.', '.']);
        false
    } else {
        proof {
            let name = path@.subrange(from as int, to as int);
            let dots = seq!['.', '.'];
            assert(dots.len() == 2 && dots[0] == '.' && dots[1] == '.');
            assert(name.len() == to - from && name[0] == path@[from as int]);
            assert(to - from >= 2 ==> name[1] == path@[from + 1]);
        }
        true
    }
}

/// Sets the extension of the file name of `path` to that of `format`.
pub fn with_extension(path: &str, format: Format) -> (renamed: String)
    ensures
        renamed@ == with_extension_text(path@, format),
{
    let (from, to): (usize, usize) = name_bounds(path);
    if !is_file_name(path, from, to) {
        return String::from_str(path);
    }
    let keep: usize = match find_last(path.substring_char(from, to), '.') {
        Some(dot) => if dot > 0 {
            from + dot
        } else {
            to
        },
        None => to,
    };
    proof {
        reveal_strlit(".");
        assert("."@ =~= seq!['.']);
    }
    String::from_str(path.substring_char(0, keep)).concat(".").concat(format.extension())
}

/// Whether `rest` is a path below a directory, with something that counts at
/// both ends: it begins with a component that is not `.` and ends with one.
pub open spec fn is_plain_rest(rest: Seq<char>) -> bool {
    &&& rest.len() > 0
    &&& rest[0] != '/'
    &&& rest.last() != '/'
    &&& !(rest[0] == '.' && (rest.len() == 1 || rest[1] == '/'))
    &&& !(rest.last() == '.' && rest.len() >= 2 && rest[rest.len() - 2] == '/')
}

/// `~` alone stands for the home directory, and so does `~/`; `~/` and a path
/// stand for that path below the home directory; and a path that does not
/// begin with `~` stands for itself.
pub proof fn lemma_tilde_expansion(path: Seq<char>, rest: Seq<char>, home: Seq<char>)
    ensures
        expanded("~"@, home) == home,
        expanded("~/"@, home) == home,
        is_plain_rest(rest) ==> expanded("~/"@ + rest, home) == home + "/"@ + rest,
        path.len() == 0 || path[0] != '~' ==> expanded(path, home) == path,
{
    reveal_strlit("~");
    reveal_strlit("~/");
    reveal_strlit("/");
    reveal_with_fuel(rest_start, 3);
    reveal_with_fuel(trimmed_len, 3);
    assert("/"@ =~= seq!['/']);
    assert(body_start("~"@) == 0);
    assert(body_start("~/"@) == 0);
    if is_plain_rest(rest) {
        let full = "~/"@ + rest;
        assert(full[0] == '~' && full[1] == '/' && full[2] == rest[0]);
        assert(rest.len() > 1 ==> full[3] == rest[1]);
        assert(full[full.len() - 1] == rest.last());
        assert(rest.len() > 1 ==> full[full.len() - 2] == rest[rest.len() - 2]);
        assert(body_start(full) == 0);
        assert(rest_start(full, 1) == 2);
        assert(name_end(full) == full.len());
        assert(full.subrange(2, full.len() as int) =~= rest);
    }
}

/// In a directory that is named and does not end in a separator, the path
/// of a name that does not begin at the root is the directory, a separator
/// and the name.
pub proof fn lemma_joined_layout(dir: Seq<char>, name: Seq<char>)
    requires
        dir.len() > 0,
        dir.last() != '/',
        name.len() == 0 || name[0] != '/',
    ensures
        joined(dir, name) == dir + "/"@ + name,
{
    reveal_strlit("/");
    assert("/"@ =~= seq!['/']);
}

} // verus!
