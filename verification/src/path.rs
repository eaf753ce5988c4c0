//! Paths as text: the few rules about separators, file names and extensions
//! that command resolution needs, stated once for both platform families.
//!
//! A path is a sequence of characters. On Windows both `\` and `/` separate
//! components and a path may begin with a drive prefix such as `C:`; on POSIX
//! only `/` separates and there is no prefix. The file name of a path is the
//! text after its last separator (or after the drive prefix); `.` and `..`
//! are not file names. The extension of a file name is the text after its
//! last dot, a dot in first position not counting.

use vstd::prelude::*;
use crate::text::chars_of;

verus! {

/// The two families of platform whose rules differ.
#[derive(Clone, Copy, Debug, PartialEq, Eq, Structural)]
pub enum Platform {
    Posix,
    Windows,
}

/// Whether `c` separates path components on `platform`.
pub open spec fn is_separator_char(platform: Platform, c: char) -> bool {
    c == '/' || (platform == Platform::Windows && c == '\\')
}

/// Whether `c` can name a drive.
pub open spec fn is_drive_letter(c: char) -> bool {
    ('a' <= c && c <= 'z') || ('A' <= c && c <= 'Z')
}

/// Length of the drive prefix of `path`: 2 for `C:` on Windows, otherwise 0.
pub open spec fn prefix_len(platform: Platform, path: Seq<char>) -> int {
    if platform == Platform::Windows && path.len() >= 2 && is_drive_letter(path[0]) && path[1]
        == ':' {
        2
    } else {
        0
    }
}

/// Whether `path` names a location without reference to a current directory.
///
/// On POSIX: it begins with `/`. On Windows: a drive prefix followed by a
/// separator, or two leading separators (a network share).
pub open spec fn absolute(platform: Platform, path: Seq<char>) -> bool {
    match platform {
        Platform::Posix => path.len() >= 1 && path[0] == '/',
        Platform::Windows => {
            ||| (prefix_len(platform, path) == 2 && path.len() >= 3 && is_separator_char(
                platform,
                path[2],
            ))
            ||| (path.len() >= 2 && is_separator_char(platform, path[0]) && is_separator_char(
                platform,
                path[1],
            ))
        },
    }
}

/// Where the last component of `path[..end]` begins.
pub open spec fn name_start_upto(platform: Platform, path: Seq<char>, end: int) -> int
    decreases end,
{
    if end <= prefix_len(platform, path) {
        prefix_len(platform, path)
    } else if is_separator_char(platform, path[end - 1]) {
        end
    } else {
        name_start_upto(platform, path, end - 1)
    }
}

/// Where the last component of `path` begins.
pub open spec fn name_start(platform: Platform, path: Seq<char>) -> int {
    name_start_upto(platform, path, path.len() as int)
}

/// Whether `name` is one of the two components that stand for a directory.
pub open spec fn is_dot_name(name: Seq<char>) -> bool {
    name =~= seq!['.'] || name =~= seq!['.', '.']
}

/// The file name of `path`, if it has one.
pub open spec fn file_name_of(platform: Platform, path: Seq<char>) -> Option<Seq<char>> {
    let name = path.skip(name_start(platform, path));
    if name.len() == 0 || is_dot_name(name) {
        None
    } else {
        Some(name)
    }
}

/// Position of the last dot of `name[..end]` that is not in first position,
/// or 0 where there is none.
pub open spec fn last_dot_upto(name: Seq<char>, end: int) -> int
    decreases end,
{
    if end <= 1 {
        0
    } else if name[end - 1] == '.' {
        end - 1
    } else {
        last_dot_upto(name, end - 1)
    }
}

/// Position of the dot that begins the extension of `name`, or 0.
pub open spec fn last_dot(name: Seq<char>) -> int {
    last_dot_upto(name, name.len() as int)
}

/// The extension of `path`, without its dot, if the file name has one.
pub open spec fn extension_of(platform: Platform, path: Seq<char>) -> Option<Seq<char>> {
    match file_name_of(platform, path) {
        None => None,
        Some(name) => if last_dot(name) == 0 {
            None
        } else {
            Some(name.skip(last_dot(name) + 1))
        },
    }
}

/// Where the file name of `path` ends once its extension is taken off.
pub open spec fn stem_end(platform: Platform, path: Seq<char>) -> int {
    let name = path.skip(name_start(platform, path));
    if last_dot(name) == 0 {
        path.len() as int
    } else {
        name_start(platform, path) + last_dot(name)
    }
}

/// `path` with the extension of its file name replaced by `ext`.
///
/// A path without a file name is left as it is. An empty `ext` takes the
/// extension off.
pub open spec fn with_extension_of(platform: Platform, path: Seq<char>, ext: Seq<char>) -> Seq<
    char,
> {
    if file_name_of(platform, path) is None {
        path
    } else if ext.len() == 0 {
        path.take(stem_end(platform, path))
    } else {
        path.take(stem_end(platform, path)) + seq!['.'] + ext
    }
}

/// `path` made to end in `ext`: unchanged where that is its extension already.
pub open spec fn force_extension_of(platform: Platform, path: Seq<char>, ext: Seq<char>) -> Seq<
    char,
> {
    if extension_of(platform, path) == Some(ext) {
        path
    } else {
        with_extension_of(platform, path, ext)
    }
}

/// The separator that `platform` writes between components.
pub open spec fn main_separator(platform: Platform) -> char {
    match platform {
        Platform::Posix => '/',
        Platform::Windows => '\\',
    }
}

/// Whether a component can follow `base` without a separator in between.
pub open spec fn ends_open(platform: Platform, base: Seq<char>) -> bool {
    ||| base.len() == 0
    ||| is_separator_char(platform, base.last())
    ||| (base.len() == 2 && prefix_len(platform, base) == 2)
}

/// `rel` taken relative to `base`.
///
/// An absolute `rel`, or one with a drive prefix, replaces `base`. One that
/// begins with a separator keeps only the drive prefix of `base`. Any other is
/// appended, after a separator where `base` does not end in one.
pub open spec fn join_of(platform: Platform, base: Seq<char>, rel: Seq<char>) -> Seq<char> {
    if absolute(platform, rel) || prefix_len(platform, rel) == 2 {
        rel
    } else if rel.len() >= 1 && is_separator_char(platform, rel[0]) {
        base.take(prefix_len(platform, base)) + rel
    } else if ends_open(platform, base) {
        base + rel
    } else {
        base + seq![main_separator(platform)] + rel
    }
}

/// Where `path[..end]` ends once the separators at its end are taken off; a
/// separator that stands for the root is kept.
pub open spec fn trimmed_end(platform: Platform, path: Seq<char>, end: int) -> int
    decreases end,
{
    if end > prefix_len(platform, path) + 1 && is_separator_char(platform, path[end - 1]) {
        trimmed_end(platform, path, end - 1)
    } else {
        end
    }
}

/// The directory that holds the last component of `path`: the path without
/// that component and without the separators before it. A path that ends in
/// a separator, or is empty, has none.
pub open spec fn parent_of(platform: Platform, path: Seq<char>) -> Option<Seq<char>> {
    if name_start(platform, path) >= path.len() {
        None
    } else {
        Some(path.take(trimmed_end(platform, path, name_start(platform, path))))
    }
}

/// The view of an optional string.
pub open spec fn opt_text(value: Option<String>) -> Option<Seq<char>> {
    match value {
        Some(s) => Some(s@),
        None => None,
    }
}

/// The last component of `path` holds no separator and begins right after
/// one, or after the drive prefix.
pub proof fn lemma_name_start(platform: Platform, path: Seq<char>, end: int)
    requires
        0 <= end <= path.len(),
    ensures
        prefix_len(platform, path) <= name_start_upto(platform, path, end),
        end >= prefix_len(platform, path) ==> name_start_upto(platform, path, end) <= end,
        forall|i: int|
            name_start_upto(platform, path, end) <= i < end ==> !is_separator_char(
                platform,
                #[trigger] path[i],
            ),
        name_start_upto(platform, path, end) > prefix_len(platform, path) ==> is_separator_char(
            platform,
            path[name_start_upto(platform, path, end) - 1],
        ),
    decreases end,
{
    if end <= prefix_len(platform, path) {
    } else if is_separator_char(platform, path[end - 1]) {
    } else {
        lemma_name_start(platform, path, end - 1);
    }
}

/// The dot that begins an extension is the last dot of the name, and it is not
/// the name's first character.
pub proof fn lemma_last_dot(name: Seq<char>, end: int)
    requires
        0 <= end <= name.len(),
    ensures
        0 <= last_dot_upto(name, end),
        last_dot_upto(name, end) < end || end <= 1,
        last_dot_upto(name, end) > 0 ==> name[last_dot_upto(name, end)] == '.',
        forall|i: int|
            last_dot_upto(name, end) < i < end && i >= 1 ==> #[trigger] name[i] != '.',
    decreases end,
{
    if end <= 1 {
    } else if name[end - 1] == '.' {
    } else {
        lemma_last_dot(name, end - 1);
    }
}

/// Whether `name` can stand as one component of a path: it is not empty and
/// holds no separator.
pub open spec fn is_component(platform: Platform, name: Seq<char>) -> bool {
    name.len() > 0 && forall|i: int|
        0 <= i < name.len() ==> !is_separator_char(platform, #[trigger] name[i])
}

/// Whether `dir` names a directory below which components can be appended
/// and taken off again: it reaches beyond its drive prefix and does not end
/// in a separator.
pub open spec fn is_plain_dir(platform: Platform, dir: Seq<char>) -> bool {
    dir.len() >= 2 && dir.len() > prefix_len(platform, dir) && !is_separator_char(
        platform,
        dir.last(),
    )
}

proof fn lemma_name_start_of_child(
    platform: Platform,
    dir: Seq<char>,
    sep: char,
    name: Seq<char>,
    end: int,
)
    requires
        dir.len() >= 2,
        is_separator_char(platform, sep),
        is_component(platform, name),
        dir.len() + 1 <= end <= dir.len() + 1 + name.len(),
    ensures
        name_start_upto(platform, dir + seq![sep] + name, end) == dir.len() + 1,
    decreases end,
{
    let path = dir + seq![sep] + name;
    assert(prefix_len(platform, path) <= 2);
    if end == dir.len() + 1 {
        assert(path[end - 1] == sep);
    } else {
        assert(path[end - 1] == name[end - 2 - dir.len()]);
        lemma_name_start_of_child(platform, dir, sep, name, end - 1);
    }
}

/// Taking the last component off a path gives back the directory that the
/// component was appended to.
pub proof fn lemma_parent_of_child(platform: Platform, dir: Seq<char>, sep: char, name: Seq<char>)
    requires
        is_plain_dir(platform, dir),
        is_separator_char(platform, sep),
        is_component(platform, name),
    ensures
        parent_of(platform, dir + seq![sep] + name) == Some(dir),
        name_start(platform, dir + seq![sep] + name) == dir.len() + 1,
{
    let path = dir + seq![sep] + name;
    lemma_name_start_of_child(platform, dir, sep, name, path.len() as int);
    assert(prefix_len(platform, path) == prefix_len(platform, dir)) by {
        assert(path[0] == dir[0]);
        assert(path[1] == dir[1]);
    }
    assert(path[dir.len() as int] == sep);
    assert(path[dir.len() - 1] == dir.last());
    assert(trimmed_end(platform, path, dir.len() as int) == dir.len());
    assert(trimmed_end(platform, path, (dir.len() + 1) as int) == dir.len());
    assert(path.take(dir.len() as int) =~= dir);
}

/// A component joined to a directory has that directory as its parent.
pub proof fn lemma_parent_of_join(platform: Platform, dir: Seq<char>, name: Seq<char>)
    requires
        is_plain_dir(platform, dir),
        is_component(platform, name),
        prefix_len(platform, name) == 0,
    ensures
        join_of(platform, dir, name) == dir + seq![main_separator(platform)] + name,
        parent_of(platform, join_of(platform, dir, name)) == Some(dir),
{
    assert(!is_separator_char(platform, name[0]));
    assert(!absolute(platform, name)) by {
        if name.len() >= 2 {
            assert(!is_separator_char(platform, name[1]));
        }
    }
    lemma_parent_of_child(platform, dir, main_separator(platform), name);
}

/// Whether `c` separates path components on `platform`.
pub fn is_separator(platform: Platform, c: char) -> (out: bool)
    ensures
        out == is_separator_char(platform, c),
{
    c == '/' || (platform == Platform::Windows && c == '\\')
}

fn prefix_len_in(platform: Platform, chars: &Vec<char>) -> (out: usize)
    ensures
        out == prefix_len(platform, chars@),
        out <= chars.len(),
{
    if platform == Platform::Windows && chars.len() >= 2 {
        let c: char = chars[0];
        if (('a' <= c && c <= 'z') || ('A' <= c && c <= 'Z')) && chars[1] == ':' {
            return 2;
        }
    }
    0
}

fn name_start_in(platform: Platform, chars: &Vec<char>) -> (out: usize)
    ensures
        out == name_start(platform, chars@),
        out <= chars.len(),
{
    let prefix: usize = prefix_len_in(platform, chars);
    let mut end: usize = chars.len();
    while end > prefix && !is_separator(platform, chars[end - 1])
        invariant
            prefix == prefix_len(platform, chars@),
            prefix <= end <= chars.len(),
            name_start(platform, chars@) == name_start_upto(platform, chars@, end as int),
        decreases end,
    {
        end = end - 1;
    }
    end
}

fn last_dot_in(chars: &Vec<char>, from: usize) -> (out: usize)
    requires
        from <= chars.len(),
    ensures
        out == last_dot(chars@.skip(from as int)),
        from + out <= chars.len(),
        out > 0 ==> from + out < chars.len(),
{
    let ghost name = chars@.skip(from as int);
    let mut end: usize = chars.len() - from;
    while end > 1 && chars[from + end - 1] != '.'
        invariant
            from <= chars.len(),
            end <= chars.len() - from,
            name == chars@.skip(from as int),
            last_dot(name) == last_dot_upto(name, end as int),
        decreases end,
    {
        end = end - 1;
    }
    if end <= 1 {
        0
    } else {
        end - 1
    }
}

fn has_file_name_in(platform: Platform, chars: &Vec<char>) -> (out: bool)
    ensures
        out == (file_name_of(platform, chars@) is Some),
{
    let start: usize = name_start_in(platform, chars);
    let len: usize = chars.len() - start;
    let ghost name = chars@.skip(start as int);
    if len == 0 {
        false
    } else if len == 1 {
        assert(name[0] == chars@[start as int]);
        chars[start] != '.'
    } else if len == 2 {
        assert(name[0] == chars@[start as int]);
        assert(name[1] == chars@[start + 1]);
        !(chars[start] == '.' && chars[start + 1] == '.')
    } else {
        true
    }
}

/// Whether `path` names a location without reference to a current directory.
pub fn is_absolute(platform: Platform, path: &str) -> (out: bool)
    ensures
        out == absolute(platform, path@),
{
    let chars = chars_of(path);
    match platform {
        Platform::Posix => chars.len() >= 1 && chars[0] == '/',
        Platform::Windows => {
            let prefix: usize = prefix_len_in(platform, &chars);
            (prefix == 2 && chars.len() >= 3 && is_separator(platform, chars[2])) || (chars.len()
                >= 2 && is_separator(platform, chars[0]) && is_separator(platform, chars[1]))
        },
    }
}

/// The file name of `path`, if it has one.
pub fn file_name(platform: Platform, path: &str) -> (out: Option<String>)
    ensures
        opt_text(out) == file_name_of(platform, path@),
{
    let chars = chars_of(path);
    if has_file_name_in(platform, &chars) {
        let start: usize = name_start_in(platform, &chars);
        let name = String::from_str(path.substring_char(start, chars.len()));
        assert(name@ =~= path@.skip(start as int));
        Some(name)
    } else {
        None
    }
}

/// The extension of `path`, without its dot, if the file name has one.
pub fn extension(platform: Platform, path: &str) -> (out: Option<String>)
    ensures
        opt_text(out) == extension_of(platform, path@),
{
    let chars = chars_of(path);
    if !has_file_name_in(platform, &chars) {
        return None;
    }
    let start: usize = name_start_in(platform, &chars);
    let dot: usize = last_dot_in(&chars, start);
    if dot == 0 {
        None
    } else {
        let ext = String::from_str(path.substring_char(start + dot + 1, chars.len()));
        assert(ext@ =~= path@.skip(start as int).skip(dot + 1));
        Some(ext)
    }
}

/// `path` with the extension of its file name replaced by `ext`.
pub fn with_extension(platform: Platform, path: &str, ext: &str) -> (out: String)
    ensures
        out@ == with_extension_of(platform, path@, ext@),
{
    let chars = chars_of(path);
    if !has_file_name_in(platform, &chars) {
        return String::from_str(path);
    }
    let start: usize = name_start_in(platform, &chars);
    let dot: usize = last_dot_in(&chars, start);
    let end: usize = if dot == 0 {
        chars.len()
    } else {
        start + dot
    };
    let mut out = String::from_str(path.substring_char(0, end));
    assert(out@ =~= path@.take(end as int));
    if ext.unicode_len() > 0 {
        out.append(".");
        out.append(ext);
        proof {
            reveal_strlit(".");
            assert("."@ =~= seq!['.']);
        }
    }
    out
}

/// `path` made to end in `ext`: unchanged where that is its extension already.
pub fn force_extension(platform: Platform, path: &str, ext: &str) -> (out: String)
    ensures
        out@ == force_extension_of(platform, path@, ext@),
{
    let current = extension(platform, path);
    let same = match current {
        Some(e) => e == String::from_str(ext),
        None => false,
    };
    if same {
        String::from_str(path)
    } else {
        with_extension(platform, path, ext)
    }
}

/// `rel` taken relative to `base`.
pub fn join(platform: Platform, base: &str, rel: &str) -> (out: String)
    ensures
        out@ == join_of(platform, base@, rel@),
{
    let base_chars = chars_of(base);
    let rel_chars = chars_of(rel);
    if is_absolute(platform, rel) || prefix_len_in(platform, &rel_chars) == 2 {
        return String::from_str(rel);
    }
    if rel_chars.len() >= 1 && is_separator(platform, rel_chars[0]) {
        let prefix: usize = prefix_len_in(platform, &base_chars);
        let mut out = String::from_str(base.substring_char(0, prefix));
        assert(out@ =~= base@.take(prefix as int));
        out.append(rel);
        return out;
    }
    let open = base_chars.len() == 0 || is_separator(
        platform,
        base_chars[base_chars.len() - 1],
    ) || (base_chars.len() == 2 && prefix_len_in(platform, &base_chars) == 2);
    let mut out = String::from_str(base);
    if !open {
        match platform {
            Platform::Posix => {
                out.append("/");
                proof {
                    reveal_strlit("/");
                    assert("/"@ =~= seq!['/']);
                }
            },
            Platform::Windows => {
                out.append("\\");
                proof {
                    reveal_strlit("\\");
                    assert("\\"@ =~= seq!['\\']);
                }
            },
        }
    }
    out.append(rel);
    out
}

/// The directory that holds the last component of `path`, if it has one.
pub fn parent(platform: Platform, path: &str) -> (out: Option<String>)
    ensures
        opt_text(out) == parent_of(platform, path@),
{
    let chars = chars_of(path);
    let start: usize = name_start_in(platform, &chars);
    if start >= chars.len() {
        return None;
    }
    let prefix: usize = prefix_len_in(platform, &chars);
    let mut end: usize = start;
    while end > prefix + 1 && is_separator(platform, chars[end - 1])
        invariant
            prefix == prefix_len(platform, chars@),
            end <= start <= chars.len(),
            trimmed_end(platform, chars@, start as int) == trimmed_end(
                platform,
                chars@,
                end as int,
            ),
        decreases end,
    {
        end = end - 1;
    }
    let dir = String::from_str(path.substring_char(0, end));
    assert(dir@ =~= path@.take(end as int));
    Some(dir)
}

} // verus!
