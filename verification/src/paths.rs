//! Names of the files that processed clips are written to.

use std::path::PathBuf;

use vstd::prelude::*;

use crate::text::{chars_of, text_of};

verus! {

// ------------------------------------------------------------------ paths

/// Whether a character separates the components of a path: a slash, and on
/// Windows a backslash as well.
pub open spec fn is_separator(windows: bool, ch: char) -> bool {
    ch == '/' || (windows && ch == '\\')
}

/// The separator that a platform writes.
pub open spec fn main_separator(windows: bool) -> char {
    if windows {
        '\\'
    } else {
        '/'
    }
}

/// What stands between the separators of a text, empty pieces counted in.
pub open spec fn pieces(windows: bool, text: Seq<char>) -> Seq<Seq<char>>
    decreases text.len(),
{
    if text.len() == 0 {
        seq![Seq::empty()]
    } else {
        let before = pieces(windows, text.drop_last());
        if is_separator(windows, text.last()) {
            before.push(Seq::empty())
        } else {
            before.drop_last().push(before.last().push(text.last()))
        }
    }
}

/// The components among the pieces of a path: empty pieces do not count, nor
/// does a dot, unless it stands at the beginning.
pub open spec fn kept_pieces(all: Seq<Seq<char>>) -> Seq<Seq<char>>
    decreases all.len(),
{
    if all.len() == 0 {
        Seq::empty()
    } else {
        let before = kept_pieces(all.drop_last());
        let last = all.last();
        if last.len() == 0 || (last == seq!['.'] && all.len() > 1) {
            before
        } else {
            before.push(last)
        }
    }
}

/// Whether a text starts with a drive of Windows, such as `C:`.
pub open spec fn has_drive(windows: bool, text: Seq<char>) -> bool {
    &&& windows
    &&& text.len() >= 2
    &&& 'a' <= text[0] <= 'z' || 'A' <= text[0] <= 'Z'
    &&& text[1] == ':'
}

/// Whether a text starts with two separators of Windows.
pub open spec fn has_double_start(windows: bool, text: Seq<char>) -> bool {
    windows && text.len() >= 2 && is_separator(windows, text[0]) && is_separator(windows, text[1])
}

/// Whether a text starts with the server and the share of a Windows network
/// path, such as `\\server\share`.
pub open spec fn has_share(windows: bool, text: Seq<char>) -> bool {
    let names = pieces(windows, text.skip(2));
    &&& has_double_start(windows, text)
    &&& names.len() >= 2
    &&& names[0].len() > 0 && names[0] != seq!['?'] && names[0] != seq!['.']
    &&& names[1].len() > 0
}

/// How many names stand in the prefix of a verbatim or device path of Windows:
/// the server and the share behind `UNC`, or the first name alone.
pub open spec fn device_names(text: Seq<char>) -> int {
    if text[2] == '?' && pieces(true, text.skip(4))[0] == seq!['U', 'N', 'C'] {
        3
    } else {
        1
    }
}

/// Whether a text is a verbatim or device path of Windows, such as
/// `\\?\C:\takes\kick.wav`, that names a file and is written with backslashes
/// and names alone.
pub open spec fn has_device(windows: bool, text: Seq<char>) -> bool {
    let names = pieces(windows, text.skip(4));
    &&& windows
    &&& text.len() > 4
    &&& text[0] == '\\' && text[1] == '\\' && text[3] == '\\'
    &&& text[2] == '?' || text[2] == '.'
    &&& !text.contains('/')
    &&& names.len() > device_names(text)
    &&& forall|i: int| 0 <= i < names.len() ==> file_name_like(#[trigger] names[i])
}

/// Whether a path starts with two separators of Windows, but has neither a share
/// nor the plain form of a verbatim or device path.
pub open spec fn unread(windows: bool, text: Seq<char>) -> bool {
    has_double_start(windows, text) && !has_share(windows, text) && !has_device(windows, text)
}

/// Whether a path starts as verbatim paths of Windows do, in which a slash is no
/// separator.
pub open spec fn starts_verbatim(text: Seq<char>) -> bool {
    text.len() > 2 && text[2] == '?'
}

/// How many characters of a path name its drive, its share or its device.
pub open spec fn prefix_len(windows: bool, text: Seq<char>) -> int {
    if has_drive(windows, text) {
        2
    } else if has_share(windows, text) {
        let names = pieces(windows, text.skip(2));
        3 + (names[0].len() + names[1].len()) as int
    } else if has_device(windows, text) {
        let names = pieces(windows, text.skip(4));
        if device_names(text) == 3 {
            6 + (names[0].len() + names[1].len() + names[2].len()) as int
        } else {
            4 + names[0].len() as int
        }
    } else {
        0
    }
}

/// What follows the drive, the share or the device of a path.
pub open spec fn body_of(windows: bool, text: Seq<char>) -> Seq<char> {
    text.skip(prefix_len(windows, text))
}

/// A path as its platform reads it.
#[verifier::ext_equal]
pub struct PathReading {
    /// Drive, share or device.
    pub prefix: Seq<char>,
    pub rooted: bool,
    pub components: Seq<Seq<char>>,
}

/// A path as a platform reads it.
pub open spec fn reading(windows: bool, text: Seq<char>) -> PathReading {
    let body = body_of(windows, text);
    PathReading {
        prefix: text.take(prefix_len(windows, text)),
        rooted: has_share(windows, text) || (body.len() > 0 && is_separator(windows, body[0])),
        components: kept_pieces(pieces(windows, body)),
    }
}

/// Whether a component can be the name of a file.
pub open spec fn file_name_like(name: Seq<char>) -> bool {
    &&& name.len() > 0
    &&& name != seq!['.']
    &&& name != seq!['.', '.']
}

/// The last of some components, if it can be the name of a file.
pub open spec fn last_name(components: Seq<Seq<char>>) -> Option<Seq<char>> {
    if components.len() > 0 && file_name_like(components.last()) {
        Some(components.last())
    } else {
        None
    }
}

/// The file that a path names, if it ends in a name.
pub open spec fn named_file(path: PathReading) -> Option<Seq<char>> {
    last_name(path.components)
}

/// The file that a path names, as a platform reads it.
pub open spec fn file_name_of(windows: bool, text: Seq<char>) -> Option<Seq<char>> {
    named_file(reading(windows, text))
}

/// A path with another file name; a path that names no file gets one.
pub open spec fn with_file_name(path: PathReading, name: Seq<char>) -> PathReading {
    let directory = if named_file(path) is Some {
        path.components.drop_last()
    } else {
        path.components
    };
    PathReading { components: directory.push(name), ..path }
}

/// Whether a text is a single file name to a platform.
pub open spec fn single_name(windows: bool, name: Seq<char>) -> bool {
    &&& file_name_like(name)
    &&& forall|i: int| 0 <= i < name.len() ==> !is_separator(windows, #[trigger] name[i])
}

/// A path up to its last piece.
pub open spec fn directory(windows: bool, text: Seq<char>) -> Seq<char> {
    text.take(text.len() - pieces(windows, body_of(windows, text)).last().len())
}

/// Whether a path ends in a file name, and its directory is written without
/// anything that a platform passes over.
pub open spec fn plainly_named(windows: bool, text: Seq<char>) -> bool {
    let all = pieces(windows, body_of(windows, text));
    &&& file_name_like(all.last())
    &&& directory(windows, text).len() > prefix_len(windows, text) + 1 ==> {
        let inner = all[all.len() - 2];
        inner.len() > 0 && (inner != seq!['.'] || all.len() == 2)
    }
}

/// A path whose file name is replaced.
pub open spec fn sibling(windows: bool, text: Seq<char>, name: Seq<char>) -> Seq<char> {
    let dir = directory(windows, text);
    if dir.len() <= prefix_len(windows, text) + 1 {
        dir + name
    } else {
        dir.drop_last().push(main_separator(windows)) + name
    }
}

/// A name behind a path, joined by a separator where it needs one.
pub open spec fn joined(windows: bool, text: Seq<char>, name: Seq<char>) -> Seq<char> {
    if text.len() == 0 || is_separator(windows, text.last()) || (has_drive(windows, text)
        && text.len() == 2) {
        text + name
    } else {
        text.push(main_separator(windows)) + name
    }
}

/// All components of a text, whatever it starts with.
pub open spec fn all_names(windows: bool, text: Seq<char>) -> Seq<Seq<char>> {
    kept_pieces(pieces(windows, text))
}

/// Whether giving a path another file name, the way a platform does it, leads
/// to another path. Of paths that start with two separators of Windows, with
/// neither a share nor the plain form of a device, it is only asked that the name
/// takes the place of the last one or stands behind it, and of those that start
/// as verbatim paths do, nothing.
pub open spec fn renames(windows: bool, old_text: Seq<char>, name: Seq<char>, new_text: Seq<char>) -> bool {
    if unread(windows, old_text) && starts_verbatim(old_text) {
        true
    } else if has_drive(windows, name) {
        new_text == name
    } else if unread(windows, old_text) {
        let before = all_names(windows, old_text);
        let after = all_names(windows, new_text);
        after == before.push(name) || (before.len() > 0 && after == before.drop_last().push(name))
    } else {
        &&& !unread(windows, new_text)
        &&& reading(windows, new_text) == with_file_name(reading(windows, old_text), name)
        &&& plainly_named(windows, old_text) ==> new_text == sibling(windows, old_text, name)
        &&& file_name_of(windows, old_text) is None ==> new_text == joined(windows, old_text, name)
    }
}

/// Where the last dot of a text stands, or -1.
pub open spec fn last_dot(name: Seq<char>) -> int
    decreases name.len(),
{
    if name.len() == 0 {
        -1
    } else if name.last() == '.' {
        name.len() - 1
    } else {
        last_dot(name.drop_last())
    }
}

/// A file name without its extension.
pub open spec fn stem_of(name: Seq<char>) -> Seq<char> {
    if last_dot(name) <= 0 {
        name
    } else {
        name.take(last_dot(name))
    }
}

/// Whether a text ends in another.
pub open spec fn ends_with(text: Seq<char>, suffix: Seq<char>) -> bool {
    text.len() >= suffix.len() && text.skip(text.len() - suffix.len()) == suffix
}

/// Whether a text holds another somewhere.
pub open spec fn has_piece(text: Seq<char>, piece: Seq<char>) -> bool {
    exists|at: int|
        0 <= at <= text.len() - piece.len() && #[trigger] text.subrange(at, at + piece.len())
            == piece
}

/// The text behind an optional string.
pub open spec fn text_within(text: Option<String>) -> Option<Seq<char>> {
    match text {
        Some(text) => Some(text@),
        None => None,
    }
}

// ------------------------------------------------------------ std::path

/// `std::path::PathBuf`, carried through as it is.
#[verifier::external_type_specification]
#[verifier::external_body]
pub struct ExPathBuf(PathBuf);

/// The text that a path holds, where it is Unicode.
pub uninterp spec fn path_text(path: PathBuf) -> Option<Seq<char>>;

/// Whether a path was made where paths are read as on Windows, rather than as
/// on Unix.
pub uninterp spec fn windows_path(path: PathBuf) -> bool;

/// `PathBuf::from`: a path that holds the text as it is.
#[verifier::external_body]
fn path_from(text: &str) -> (path: PathBuf)
    ensures
        path_text(path) == Some(text@),
{
    PathBuf::from(text)
}

/// `Path::to_str`: the text of a path, where it is Unicode.
#[verifier::external_body]
fn path_to_str(path: &PathBuf) -> (text: Option<String>)
    ensures
        text_within(text) == path_text(*path),
{
    path.to_str().map(|text| text.to_owned())
}

/// `Path::to_path_buf`: a path with the same text, made on the same platform.
#[verifier::external_body]
fn path_copy(path: &PathBuf) -> (copy: PathBuf)
    ensures
        path_text(copy) == path_text(*path),
        windows_path(copy) == windows_path(*path),
{
    path.to_path_buf()
}

/// `Path::file_stem`: the file name before its last dot; the whole name when it
/// has no dot or only a leading one; none when there is no file name. What the
/// file name is, is left open as `names_file` says of Windows paths that start
/// with two separators.
#[verifier::external_body]
fn path_file_stem(path: &PathBuf) -> (stem: Option<String>)
    ensures
        path_text(*path) matches Some(text) ==> stems_file(
            windows_path(*path),
            text,
            text_within(stem),
        ),
{
    path.file_stem().and_then(|stem| stem.to_str()).map(|stem| stem.to_owned())
}

/// `PathBuf::set_file_name`: the final component is replaced, or the name put
/// behind a path without a file name. The text of the result is given where the
/// directory is written without repeated separators and dots; everywhere else
/// its components are, as far as `renames` says of Windows paths that start with
/// two separators. Whatever the path, the result ends as the name does, and is
/// read as on the platform of the path.
#[verifier::external_body]
fn path_set_file_name(path: &mut PathBuf, name: &str)
    ensures
        windows_path(*final(path)) == windows_path(*old(path)),
        path_text(*old(path)) is Some ==> path_text(*final(path)) is Some,
        path_text(*old(path)) is Some && single_name(windows_path(*old(path)), name@) ==> renames(
            windows_path(*old(path)),
            path_text(*old(path))->0,
            name@,
            path_text(*final(path))->0,
        ),
        path_text(*old(path)) is Some ==> forall|tail: Seq<char>| #[trigger]
            ends_with(name@, tail) && tail.len() > 2 && !tail.contains('/') && !tail.contains('\\')
                ==> ends_with(path_text(*final(path))->0, tail),
{
    path.set_file_name(name)
}

/// `Path::file_name`: the final component of the path, as Unix reads it or as
/// Windows does; none when the path ends in no name. Whatever the path, the name
/// is a piece of it that no separator divides. What it is, is left open as
/// `names_file` says of Windows paths that start with two separators.
#[verifier::external_body]
pub(crate) fn path_file_name(path: &str) -> (name: Option<String>)
    ensures
        names_file(false, path@, text_within(name)) || names_file(true, path@, text_within(name)),
        name matches Some(name) ==> undivided_piece(path@, name@),
{
    std::path::Path::new(path).file_name().and_then(|name| name.to_str()).map(|name| name.to_owned())
}

/// Whether a file name is the one that a path names to a platform. Of paths that
/// start with two separators of Windows, with neither a share nor the plain form
/// of a device, it is only asked that it is their last name, if there is one at
/// all; and of those that start as verbatim paths do, that no separator divides
/// it.
pub open spec fn names_file(windows: bool, text: Seq<char>, name: Option<Seq<char>>) -> bool {
    if unread(windows, text) {
        name matches Some(file) ==> if starts_verbatim(text) {
            undivided_piece(text, file)
        } else {
            name == last_name(all_names(windows, text))
        }
    } else {
        name == file_name_of(windows, text)
    }
}

/// Whether a stem is that of the file that a path names to a platform.
pub open spec fn stems_file(windows: bool, text: Seq<char>, stem: Option<Seq<char>>) -> bool {
    exists|name: Option<Seq<char>>| #[trigger]
        names_file(windows, text, name) && stem == match name {
            Some(name) => Some(stem_of(name)),
            None => None,
        }
}

/// Whether a name is part of a path, and no separator of its platform divides
/// it.
pub open spec fn undivided_piece(text: Seq<char>, name: Seq<char>) -> bool {
    &&& name.len() > 0
    &&& has_piece(text, name)
    &&& !name.contains('/') || !name.contains('\\')
}

// ------------------------------------------------------------------- names

/// Whether a character stands for itself in the tag of a clip.
pub open spec fn tag_char(ch: char) -> bool {
    ||| 'a' <= ch <= 'z'
    ||| 'A' <= ch <= 'Z'
    ||| '0' <= ch <= '9'
    ||| ch == '-'
    ||| ch == '_'
}

/// A hexadecimal digit.
pub open spec fn hex_digit(d: int) -> char {
    if d == 0 { '0' } else if d == 1 { '1' } else if d == 2 { '2' } else if d == 3 { '3' }
    else if d == 4 { '4' } else if d == 5 { '5' } else if d == 6 { '6' } else if d == 7 { '7' }
    else if d == 8 { '8' } else if d == 9 { '9' } else if d == 10 { 'a' } else if d == 11 { 'b' }
    else if d == 12 { 'c' } else if d == 13 { 'd' } else if d == 14 { 'e' } else { 'f' }
}

/// How a character is written that does not stand for itself: a tilde and the
/// six digits of its code.
pub open spec fn escaped(ch: char) -> Seq<char> {
    let code = ch as u32 as int;
    seq![
        '~',
        hex_digit(code / 1_048_576 % 16),
        hex_digit(code / 65_536 % 16),
        hex_digit(code / 4_096 % 16),
        hex_digit(code / 256 % 16),
        hex_digit(code / 16 % 16),
        hex_digit(code % 16),
    ]
}

/// How a character is written in the tag of a clip.
pub open spec fn tag_code(ch: char) -> Seq<char> {
    if tag_char(ch) {
        seq![ch]
    } else {
        escaped(ch)
    }
}

/// A text as it is written in the tag of a clip.
pub open spec fn encoded(text: Seq<char>) -> Seq<char>
    decreases text.len(),
{
    if text.len() == 0 {
        Seq::empty()
    } else {
        tag_code(text[0]) + encoded(text.skip(1))
    }
}

/// The tag that stands for a clip in a file name.
pub open spec fn clip_tag(clip_id: Seq<char>) -> Seq<char> {
    if clip_id.len() == 0 {
        "clip~"@
    } else {
        encoded(clip_id)
    }
}

/// A text without an ending, where it has that ending.
pub open spec fn without_suffix(text: Seq<char>, suffix: Seq<char>) -> Seq<char> {
    if ends_with(text, suffix) {
        text.take(text.len() - suffix.len())
    } else {
        text
    }
}

/// A text without an ending, however often it has it.
pub open spec fn without_suffixes(text: Seq<char>, suffix: Seq<char>) -> Seq<char>
    decreases text.len(),
{
    if suffix.len() > 0 && ends_with(text, suffix) {
        without_suffixes(text.take(text.len() - suffix.len()), suffix)
    } else {
        text
    }
}

/// The ending of a processed file's stem.
pub open spec fn processed_suffix(clip_id: Seq<char>) -> Seq<char> {
    "."@ + clip_tag(clip_id) + ".processed"@
}

/// A stem without the marks of earlier passes.
pub open spec fn bare_stem(stem: Seq<char>, clip_id: Seq<char>) -> Seq<char> {
    without_suffixes(without_suffix(stem, processed_suffix(clip_id)), "-processed"@)
}

/// How a processed clip's file name ends.
pub open spec fn processed_ending(clip_id: Seq<char>) -> Seq<char> {
    processed_suffix(clip_id) + ".wav"@
}

/// The file name that a processed clip gets.
pub open spec fn processed_name(stem: Seq<char>, clip_id: Seq<char>) -> Seq<char> {
    bare_stem(stem, clip_id) + processed_ending(clip_id)
}

/// The stem that a processed clip's file name is made from.
pub open spec fn stem_or_clip(name: Option<Seq<char>>) -> Seq<char> {
    match name {
        Some(name) => stem_of(name),
        None => "clip"@,
    }
}

/// The stem that a processed clip's file name is made from, where a platform
/// reads the path of its source.
pub open spec fn source_stem(windows: bool, source: Seq<char>) -> Seq<char> {
    stem_or_clip(file_name_of(windows, source))
}

/// Whether a path is the one that a processed clip is written to, as a platform
/// reads paths: that of its source, but for the file name.
pub open spec fn processed_path(windows: bool, source: Seq<char>, clip_id: Seq<char>, path: Seq<char>) -> bool {
    exists|name: Option<Seq<char>>| #[trigger]
        names_file(windows, source, name) && renames(
            windows,
            source,
            processed_name(stem_or_clip(name), clip_id),
            path,
        )
}

/// A path that is a text, together with the platform that reads it.
pub struct FilePath {
    path: PathBuf,
}

impl FilePath {
    #[verifier::type_invariant]
    spec fn is_text(self) -> bool {
        path_text(self.path) is Some
    }

    /// The text of the path.
    pub closed spec fn text(self) -> Seq<char> {
        path_text(self.path)->0
    }

    /// Whether the path is read as on Windows, rather than as on Unix.
    pub closed spec fn windows(self) -> bool {
        windows_path(self.path)
    }

    /// The path as its platform reads it.
    pub open spec fn reading(self) -> PathReading {
        reading(self.windows(), self.text())
    }

    /// The path that a text stands for here.
    pub fn new(text: &str) -> (path: FilePath)
        ensures
            path.text() == text@,
    {
        FilePath { path: path_from(text) }
    }

    /// The text of the path.
    pub fn to_text(&self) -> (text: String)
        ensures
            text@ == self.text(),
    {
        proof {
            use_type_invariant(self);
        }
        path_to_str(&self.path).unwrap()
    }
}

/// Whether a path is the one that a processed clip is written to: of the same
/// platform as its source, and beside it.
pub open spec fn is_processed(source: FilePath, clip_id: Seq<char>, path: FilePath) -> bool {
    &&& path.windows() == source.windows()
    &&& ends_with(path.text(), processed_ending(clip_id))
    &&& processed_path(source.windows(), source.text(), clip_id, path.text())
}

fn hex_char(d: u32) -> (ch: char)
    requires
        d < 16,
    ensures
        ch == hex_digit(d as int),
{
    if d == 0 { '0' } else if d == 1 { '1' } else if d == 2 { '2' } else if d == 3 { '3' }
    else if d == 4 { '4' } else if d == 5 { '5' } else if d == 6 { '6' } else if d == 7 { '7' }
    else if d == 8 { '8' } else if d == 9 { '9' } else if d == 10 { 'a' } else if d == 11 { 'b' }
    else if d == 12 { 'c' } else if d == 13 { 'd' } else if d == 14 { 'e' } else { 'f' }
}

fn push_tag_code(tag: &mut String, ch: char)
    ensures
        final(tag)@ == old(tag)@ + tag_code(ch),
{
    let ghost before = tag@;
    if ('a' <= ch && ch <= 'z') || ('A' <= ch && ch <= 'Z') || ('0' <= ch && ch <= '9') || ch == '-'
        || ch == '_' {
        tag.push(ch);
    } else {
        let code: u32 = ch as u32;
        tag.push('~');
        tag.push(hex_char(code / 1_048_576 % 16));
        tag.push(hex_char(code / 65_536 % 16));
        tag.push(hex_char(code / 4_096 % 16));
        tag.push(hex_char(code / 256 % 16));
        tag.push(hex_char(code / 16 % 16));
        tag.push(hex_char(code % 16));
    }
    proof {
        assert(tag@ =~= before + tag_code(ch));
    }
}

/// The tag that stands for a clip in a file name: letters, digits, dashes and
/// underscores stay, anything else is written as its code. No two clips share a
/// tag.
pub fn sanitized_clip_id(clip_id: &str) -> (tag: String)
    ensures
        tag@ == clip_tag(clip_id@),
{
    let chars = chars_of(clip_id);
    if chars.len() == 0 {
        return "clip~".to_owned();
    }
    let mut tag = String::new();
    let mut i: usize = 0;
    proof {
        assert(clip_id@.skip(0) =~= clip_id@);
        assert(tag@ + encoded(clip_id@) =~= encoded(clip_id@));
    }
    while i < chars.len()
        invariant
            chars@ == clip_id@,
            i <= chars@.len(),
            tag@ + encoded(clip_id@.skip(i as int)) == encoded(clip_id@),
        decreases chars@.len() - i,
    {
        let ghost before = tag@;
        let ghost rest = clip_id@.skip(i as int);
        push_tag_code(&mut tag, chars[i]);
        proof {
            assert(rest.skip(1) =~= clip_id@.skip(i as int + 1));
            assert(rest[0] == clip_id@[i as int]);
            assert(tag@ + encoded(rest.skip(1)) =~= before + (tag_code(rest[0]) + encoded(
                rest.skip(1),
            )));
        }
        i += 1;
    }
    proof {
        assert(clip_id@.skip(i as int) =~= Seq::empty());
        assert(tag@ + encoded(clip_id@.skip(i as int)) =~= tag@);
    }
    tag
}

/// What stands in front of an ending, where a text has it.
fn strip_ending(text: &str, suffix: &str) -> (rest: Option<String>)
    ensures
        match rest {
            Some(rest) => ends_with(text@, suffix@) && rest@ == text@.take(
                text@.len() - suffix@.len(),
            ),
            None => !ends_with(text@, suffix@),
        },
{
    let chars = chars_of(text);
    let ending = chars_of(suffix);
    if chars.len() < ending.len() {
        return None;
    }
    let total: usize = chars.len();
    let from: usize = total - ending.len();
    let mut i: usize = 0;
    while i < ending.len()
        invariant
            chars@ == text@,
            ending@ == suffix@,
            total == chars@.len(),
            from == total - ending@.len(),
            i <= ending@.len(),
            forall|j: int| 0 <= j < i ==> text@[from + j] == #[trigger] suffix@[j],
        decreases ending@.len() - i,
    {
        if chars[from + i] != ending[i] {
            proof {
                assert(text@.skip(from as int)[i as int] == text@[from + i]);
            }
            return None;
        }
        i += 1;
    }
    proof {
        assert(text@.skip(from as int) =~= suffix@);
    }
    let mut rest: Vec<char> = Vec::new();
    let mut k: usize = 0;
    while k < from
        invariant
            chars@ == text@,
            from <= chars@.len(),
            k <= from,
            rest@ == text@.take(k as int),
        decreases from - k,
    {
        rest.push(chars[k]);
        proof {
            assert(text@.take(k as int + 1) =~= text@.take(k as int).push(text@[k as int]));
        }
        k += 1;
    }
    Some(text_of(&rest))
}

/// A stem without the marks of earlier passes.
fn strip_marks(stem: &str, suffix: &str) -> (bare: String)
    ensures
        bare@ == without_suffixes(without_suffix(stem@, suffix@), "-processed"@),
{
    let mut bare = match strip_ending(stem, suffix) {
        Some(rest) => rest,
        None => stem.to_owned(),
    };
    proof {
        reveal_strlit("-processed");
    }
    loop
        invariant_except_break
            "-processed"@.len() > 0,
            without_suffixes(bare@, "-processed"@) == without_suffixes(
                without_suffix(stem@, suffix@),
                "-processed"@,
            ),
        ensures
            bare@ == without_suffixes(without_suffix(stem@, suffix@), "-processed"@),
        decreases bare@.len(),
    {
        match strip_ending(&bare, "-processed") {
            Some(rest) => {
                bare = rest;
            },
            None => {
                break;
            },
        }
    }
    bare
}

/// The file name that a processed clip gets, from the stem of its source.
pub fn processed_file_name(stem: &str, clip_id: &str) -> (name: String)
    ensures
        name@ == processed_name(stem@, clip_id@),
{
    let tag = sanitized_clip_id(clip_id);
    let suffix = ".".to_owned().concat(&tag).concat(".processed");
    let bare = strip_marks(stem, &suffix);
    let name = bare.concat(&suffix).concat(".wav");
    proof {
        assert(name@ =~= processed_name(stem@, clip_id@));
    }
    name
}

/// The file that a processed clip is written to: next to its source, with a
/// name of its own per clip. Processing the same clip again replaces its file
/// instead of stacking endings. A source without a file name counts as `clip`.
pub fn processed_output_path(source: &FilePath, clip_id: &str) -> (path: FilePath)
    ensures
        is_processed(*source, clip_id@, path),
{
    proof {
        use_type_invariant(source);
    }
    let ghost windows = source.windows();
    let ghost text = source.text();
    let mut out = path_copy(&source.path);
    let found = path_file_stem(&out);
    let ghost file = choose|name: Option<Seq<char>>| #[trigger]
        names_file(windows, text, name) && text_within(found) == match name {
            Some(name) => Some(stem_of(name)),
            None => None,
        };
    let stem = match found {
        Some(stem) => stem,
        None => "clip".to_owned(),
    };
    let name = processed_file_name(&stem, clip_id);
    proof {
        assert(stem@ == stem_or_clip(file));
        lemma_ending(stem@, clip_id@);
        if !(unread(windows, text) && starts_verbatim(text)) {
            lemma_stem(windows, text, file);
            lemma_processed_name_is_single(windows, stem@, clip_id@);
        }
    }
    path_set_file_name(&mut out, &name);
    FilePath { path: out }
}

// ------------------------------------------------------------------ lemmas

/// A text has at least one piece.
proof fn lemma_pieces(windows: bool, text: Seq<char>)
    ensures
        pieces(windows, text).len() > 0,
        pieces(windows, text).last().len() <= text.len(),
    decreases text.len(),
{
    if text.len() > 0 {
        lemma_pieces(windows, text.drop_last());
    }
}

proof fn lemma_last_piece_is_undivided(windows: bool, text: Seq<char>)
    ensures
        undivided(windows, pieces(windows, text).last()),
{
    let all = pieces(windows, text);
    lemma_pieces_are_undivided(windows, text);
    lemma_pieces(windows, text);
    assert forall|i: int| 0 <= i < all.last().len() implies !is_separator(
        windows,
        #[trigger] all.last()[i],
    ) by {
        assert(all[all.len() - 1][i] == all.last()[i]);
    }
}

/// Pieces hold no separators.
proof fn lemma_pieces_are_undivided(windows: bool, text: Seq<char>)
    ensures
        forall|i: int, k: int|
            0 <= i < pieces(windows, text).len() && 0 <= k < pieces(windows, text)[i].len()
                ==> !is_separator(windows, #[trigger] pieces(windows, text)[i][k]),
    decreases text.len(),
{
    if text.len() > 0 {
        let before = pieces(windows, text.drop_last());
        lemma_pieces(windows, text.drop_last());
        lemma_pieces_are_undivided(windows, text.drop_last());
        let now = pieces(windows, text);
        assert forall|i: int, k: int| 0 <= i < now.len() && 0 <= k < now[i].len() implies !is_separator(
            windows,
            #[trigger] now[i][k],
        ) by {
            if i < now.len() - 1 {
                assert(now[i] == before[i]);
            } else if !is_separator(windows, text.last()) {
                if k < before.last().len() {
                    assert(before[before.len() - 1][k] == now[i][k]);
                }
            }
        }
    }
}

/// Components are pieces.
proof fn lemma_kept(all: Seq<Seq<char>>, i: int)
    requires
        0 <= i < kept_pieces(all).len(),
    ensures
        exists|j: int| 0 <= j < all.len() && #[trigger] all[j] == kept_pieces(all)[i],
    decreases all.len(),
{
    let before = kept_pieces(all.drop_last());
    if i < before.len() {
        lemma_kept(all.drop_last(), i);
        let j = choose|j: int|
            0 <= j < all.drop_last().len() && #[trigger] all.drop_last()[j] == before[i];
        assert(all[j] == kept_pieces(all)[i]);
    } else {
        assert(all[all.len() - 1] == kept_pieces(all)[i]);
    }
}

proof fn lemma_last_dot(name: Seq<char>)
    ensures
        -1 <= last_dot(name) < name.len(),
        last_dot(name) >= 0 ==> name[last_dot(name)] == '.',
        forall|i: int| last_dot(name) < i < name.len() ==> name[i] != '.',
    decreases name.len(),
{
    if name.len() > 0 && name.last() != '.' {
        let front = name.drop_last();
        lemma_last_dot(front);
        assert forall|i: int| last_dot(name) < i < name.len() implies name[i] != '.' by {
            if i < front.len() {
                assert(front[i] != '.');
            }
        }
    }
}

/// Whether a text has no separator of a platform.
spec fn undivided(windows: bool, text: Seq<char>) -> bool {
    forall|i: int| 0 <= i < text.len() ==> !is_separator(windows, #[trigger] text[i])
}

/// The stem of a path's last name holds no separator.
proof fn lemma_stem(windows: bool, source: Seq<char>, name: Option<Seq<char>>)
    requires
        names_file(windows, source, name),
        !(unread(windows, source) && starts_verbatim(source)),
    ensures
        undivided(windows, stem_or_clip(name)),
{
    reveal_strlit("clip");
    if let Some(file) = name {
        let text = if unread(windows, source) {
            source
        } else {
            body_of(windows, source)
        };
        let all = pieces(windows, text);
        let kept = kept_pieces(all);
        lemma_pieces_are_undivided(windows, text);
        lemma_kept(all, kept.len() - 1);
        lemma_last_dot(file);
        let j = choose|j: int| 0 <= j < all.len() && #[trigger] all[j] == kept[kept.len() - 1];
        let stem = stem_of(file);
        assert forall|i: int| 0 <= i < stem.len() implies !is_separator(
            windows,
            #[trigger] stem[i],
        ) by {
            assert(stem[i] == all[j][i]);
        }
    }
}

proof fn lemma_tag(clip_id: Seq<char>)
    ensures
        clip_tag(clip_id).len() > 0,
        forall|i: int|
            0 <= i < clip_tag(clip_id).len() ==> tag_char(#[trigger] clip_tag(clip_id)[i])
                || clip_tag(clip_id)[i] == '~',
{
    reveal_strlit("clip~");
    if clip_id.len() > 0 {
        lemma_encoded(clip_id);
    }
}

proof fn lemma_encoded(text: Seq<char>)
    ensures
        encoded(text).len() >= text.len(),
        text.len() > 0 ==> encoded(text).last() != '~',
        forall|i: int|
            0 <= i < encoded(text).len() ==> tag_char(#[trigger] encoded(text)[i])
                || encoded(text)[i] == '~',
    decreases text.len(),
{
    if text.len() > 0 {
        let first = tag_code(text[0]);
        let rest = encoded(text.skip(1));
        lemma_encoded(text.skip(1));
        assert forall|i: int| 0 <= i < encoded(text).len() implies tag_char(
            #[trigger] encoded(text)[i],
        ) || encoded(text)[i] == '~' by {
            if i < first.len() {
                assert(encoded(text)[i] == first[i]);
            } else {
                assert(encoded(text)[i] == rest[i - first.len()]);
            }
        }
        if text.len() > 1 {
            assert(encoded(text).last() == rest.last());
        } else {
            assert(text.skip(1) =~= Seq::empty());
            assert(encoded(text) =~= first);
        }
    }
}

/// A hexadecimal digit is written in one way.
proof fn lemma_hex_digit(d: int, e: int)
    requires
        0 <= d < 16,
        0 <= e < 16,
        hex_digit(d) == hex_digit(e),
    ensures
        d == e,
{
}

/// A number is what its last digit and the digits in front of it say.
proof fn lemma_last_digit(x: int, y: int)
    requires
        0 <= x,
        0 <= y,
        hex_digit(x % 16) == hex_digit(y % 16),
        x / 16 == y / 16,
    ensures
        x == y,
{
    lemma_hex_digit(x % 16, y % 16);
}

/// Dividing by sixteen drops a digit.
proof fn lemma_drop_digit(x: int)
    requires
        0 <= x,
    ensures
        x / 256 == x / 16 / 16,
        x / 4_096 == x / 256 / 16,
        x / 65_536 == x / 4_096 / 16,
        x / 1_048_576 == x / 65_536 / 16,
{
}

/// A code is what its six digits say.
proof fn lemma_six_digits(code: int)
    requires
        0 <= code < 0x110000,
    ensures
        code == 1_048_576 * (code / 1_048_576 % 16) + 65_536 * (code / 65_536 % 16) + 4_096 * (code
            / 4_096 % 16) + 256 * (code / 256 % 16) + 16 * (code / 16 % 16) + code % 16,
{
    lemma_drop_digit(code);
}

/// The codes of two characters differ.
#[verifier::spinoff_prover]
proof fn lemma_escapes_differ(a: char, b: char)
    requires
        escaped(a) == escaped(b),
    ensures
        a == b,
{
    let x = a as u32 as int;
    let y = b as u32 as int;
    let code_a = escaped(a);
    let code_b = escaped(b);
    assert(code_a[1] == code_b[1] && code_a[2] == code_b[2] && code_a[3] == code_b[3]);
    assert(code_a[4] == code_b[4] && code_a[5] == code_b[5] && code_a[6] == code_b[6]);
    assert(x / 1_048_576 < 16 && y / 1_048_576 < 16);
    lemma_last_digit(x / 1_048_576, y / 1_048_576);
    lemma_hex_digit(x / 65_536 % 16, y / 65_536 % 16);
    lemma_hex_digit(x / 4_096 % 16, y / 4_096 % 16);
    lemma_hex_digit(x / 256 % 16, y / 256 % 16);
    lemma_hex_digit(x / 16 % 16, y / 16 % 16);
    lemma_hex_digit(x % 16, y % 16);
    lemma_six_digits(x);
    lemma_six_digits(y);
}

proof fn lemma_encoding_is_faithful(a: Seq<char>, b: Seq<char>)
    requires
        encoded(a) == encoded(b),
    ensures
        a == b,
    decreases a.len(),
{
    lemma_encoded(a);
    lemma_encoded(b);
    if a.len() == 0 || b.len() == 0 {
        assert(a =~= b);
    } else {
        let code_a = tag_code(a[0]);
        let code_b = tag_code(b[0]);
        let all = encoded(a);
        assert(all[0] == code_a[0]);
        assert(all[0] == code_b[0]);
        assert(code_a.len() == code_b.len());
        assert(all.take(code_a.len() as int) =~= code_a);
        assert(all.take(code_b.len() as int) =~= code_b);
        if !tag_char(a[0]) {
            lemma_escapes_differ(a[0], b[0]);
        }
        assert(all.skip(code_a.len() as int) =~= encoded(a.skip(1)));
        assert(all.skip(code_b.len() as int) =~= encoded(b.skip(1)));
        lemma_encoding_is_faithful(a.skip(1), b.skip(1));
        assert forall|i: int| 0 <= i < a.len() implies a.len() == b.len() && a[i] == b[i] by {
            if i > 0 {
                assert(a.skip(1)[i - 1] == b.skip(1)[i - 1]);
            }
        }
        assert(a =~= b);
    }
}

proof fn lemma_bare_stem(stem: Seq<char>, clip_id: Seq<char>)
    ensures
        bare_stem(stem, clip_id).len() <= stem.len(),
        forall|i: int|
            0 <= i < bare_stem(stem, clip_id).len() ==> #[trigger] bare_stem(stem, clip_id)[i]
                == stem[i],
        !ends_with(bare_stem(stem, clip_id), "-processed"@),
{
    reveal_strlit("-processed");
    lemma_without_suffixes(without_suffix(stem, processed_suffix(clip_id)), "-processed"@);
}

proof fn lemma_without_suffixes(text: Seq<char>, suffix: Seq<char>)
    requires
        suffix.len() > 0,
    ensures
        without_suffixes(text, suffix).len() <= text.len(),
        forall|i: int|
            0 <= i < without_suffixes(text, suffix).len() ==> #[trigger] without_suffixes(
                text,
                suffix,
            )[i] == text[i],
        !ends_with(without_suffixes(text, suffix), suffix),
    decreases text.len(),
{
    if ends_with(text, suffix) {
        lemma_without_suffixes(text.take(text.len() - suffix.len()), suffix);
    }
}

/// What a processed name ends in holds no separator, and is long enough to be
/// told from the components that paths pass over.
proof fn lemma_ending(stem: Seq<char>, clip_id: Seq<char>)
    ensures
        ends_with(processed_name(stem, clip_id), processed_ending(clip_id)),
        processed_ending(clip_id).len() > 2,
        !processed_ending(clip_id).contains('/'),
        !processed_ending(clip_id).contains('\\'),
{
    reveal_strlit(".");
    reveal_strlit(".processed");
    reveal_strlit(".wav");
    lemma_tag(clip_id);
    let ending = processed_ending(clip_id);
    let tag = clip_tag(clip_id);
    let name = processed_name(stem, clip_id);
    assert(name.skip(name.len() - ending.len()) =~= ending);
    assert forall|i: int| 0 <= i < ending.len() implies ending[i] != '/' && ending[i] != '\\' by {
        if 1 <= i < 1 + tag.len() {
            assert(ending[i] == tag[i - 1]);
        } else if 1 + tag.len() <= i < 11 + tag.len() {
            assert(ending[i] == ".processed"@[i - 1 - tag.len()]);
        } else if i >= 11 + tag.len() {
            assert(ending[i] == ".wav"@[i - 11 - tag.len()]);
        }
    }
}

proof fn lemma_processed_name_is_single(windows: bool, stem: Seq<char>, clip_id: Seq<char>)
    requires
        undivided(windows, stem),
    ensures
        single_name(windows, processed_name(stem, clip_id)),
{
    let name = processed_name(stem, clip_id);
    let bare = bare_stem(stem, clip_id);
    let ending = processed_ending(clip_id);
    lemma_ending(stem, clip_id);
    lemma_bare_stem(stem, clip_id);
    assert forall|i: int| 0 <= i < name.len() implies !is_separator(
        windows,
        #[trigger] name[i],
    ) by {
        if i < bare.len() {
            assert(name[i] == bare[i]);
            assert(bare[i] == stem[i]);
        } else {
            assert(name[i] == ending[i - bare.len()]);
            assert(ending.contains(ending[i - bare.len()]));
        }
    }
}

/// A processed name's own stem is what stands in front of `.wav`, and leads to
/// the name again.
proof fn lemma_processed_again(bare: Seq<char>, clip_id: Seq<char>)
    requires
        !ends_with(bare, "-processed"@),
    ensures
        processed_name(stem_of(bare + processed_ending(clip_id)), clip_id) == bare
            + processed_ending(clip_id),
{
    reveal_strlit(".wav");
    reveal_strlit(".");
    let name = bare + processed_ending(clip_id);
    let suffix = processed_suffix(clip_id);
    let marked = bare + suffix;
    lemma_last_dot(name);
    assert(name =~= marked + ".wav"@);
    let end = marked.len() as int;
    assert(name[end] == ".wav"@[0]);
    assert(name[end + 1] == ".wav"@[1]);
    assert(name[end + 2] == ".wav"@[2]);
    assert(name[end + 3] == ".wav"@[3]);
    assert(last_dot(name) == end);
    assert(name.take(end) =~= marked);
    assert(marked.skip(bare.len() as int) =~= suffix);
    assert(ends_with(marked, suffix));
    assert(marked.take(bare.len() as int) =~= bare);
    assert(without_suffix(marked, suffix) == bare);
    assert(bare_stem(marked, clip_id) == bare);
}

/// The pieces of a directory with a name behind it.
proof fn lemma_pieces_joined(windows: bool, front: Seq<char>, name: Seq<char>)
    requires
        front.len() > 0 ==> is_separator(windows, front.last()),
        undivided(windows, name),
    ensures
        pieces(windows, front + name) == pieces(windows, front).drop_last().push(name),
    decreases name.len(),
{
    lemma_pieces(windows, front);
    if name.len() == 0 {
        assert(front + name =~= front);
        assert(pieces(windows, front).last() =~= name);
        assert(pieces(windows, front).drop_last().push(name) =~= pieces(windows, front));
    } else {
        let less = name.drop_last();
        assert forall|i: int| 0 <= i < less.len() implies !is_separator(
            windows,
            #[trigger] less[i],
        ) by {
            assert(less[i] == name[i]);
        }
        lemma_pieces_joined(windows, front, less);
        assert((front + name).drop_last() =~= front + less);
        assert((front + name).last() == name[name.len() - 1]);
        assert(less.push(name.last()) =~= name);
        assert(pieces(windows, front + name) =~= pieces(windows, front).drop_last().push(name));
    }
}

/// A path's last piece stands at its end, and a separator before it where there
/// is anything before it.
proof fn lemma_last_piece(windows: bool, text: Seq<char>)
    ensures
        ({
            let last = pieces(windows, text).last();
            let front = text.take(text.len() - last.len());
            &&& last.len() <= text.len()
            &&& text == front + last
            &&& front.len() > 0 ==> is_separator(windows, front.last())
        }),
    decreases text.len(),
{
    lemma_pieces(windows, text);
    let last = pieces(windows, text).last();
    let front = text.take(text.len() - last.len());
    if text.len() > 0 {
        if is_separator(windows, text.last()) {
            assert(front =~= text);
        } else {
            let less = text.drop_last();
            lemma_last_piece(windows, less);
            let less_last = pieces(windows, less).last();
            let less_front = less.take(less.len() - less_last.len());
            assert(last == less_last.push(text.last()));
            assert(front =~= less_front);
            assert(text =~= less.push(text.last()));
            assert((less_front + less_last).push(text.last()) =~= front + last);
        }
    }
    assert(text =~= front + last);
}

// ------------------------------------------------------------------- laws

/// Two clips never share a tag.
pub proof fn law_tags_tell_clips_apart(id_a: Seq<char>, id_b: Seq<char>)
    requires
        id_a != id_b,
    ensures
        clip_tag(id_a) != clip_tag(id_b),
{
    if clip_tag(id_a) == clip_tag(id_b) {
        reveal_strlit("clip~");
        lemma_encoded(id_a);
        lemma_encoded(id_b);
        assert("clip~"@.last() == '~');
        if id_a.len() > 0 && id_b.len() > 0 {
            lemma_encoding_is_faithful(id_a, id_b);
        } else if id_a.len() == 0 && id_b.len() == 0 {
            assert(id_a =~= id_b);
        }
    }
}

/// An id made of letters, digits, dashes and underscores is its own tag.
pub proof fn law_a_tag_is_its_own_tag(clip_id: Seq<char>)
    requires
        clip_id.len() > 0,
        forall|i: int| 0 <= i < clip_id.len() ==> tag_char(#[trigger] clip_id[i]),
    ensures
        clip_tag(clip_id) == clip_id,
{
    lemma_encoded_as_it_is(clip_id);
}

proof fn lemma_encoded_as_it_is(text: Seq<char>)
    requires
        forall|i: int| 0 <= i < text.len() ==> tag_char(#[trigger] text[i]),
    ensures
        encoded(text) == text,
    decreases text.len(),
{
    if text.len() > 0 {
        let rest = text.skip(1);
        assert forall|i: int| 0 <= i < rest.len() implies tag_char(#[trigger] rest[i]) by {
            assert(rest[i] == text[i + 1]);
        }
        lemma_encoded_as_it_is(rest);
        assert(seq![text[0]] + rest =~= text);
    }
}

/// Two clips never get the same file name, whatever their sources are called.
pub proof fn law_different_clips_get_different_names(
    stem_a: Seq<char>,
    stem_b: Seq<char>,
    id_a: Seq<char>,
    id_b: Seq<char>,
)
    requires
        id_a != id_b,
    ensures
        processed_name(stem_a, id_a) != processed_name(stem_b, id_b),
{
    lemma_ending(stem_a, id_a);
    lemma_ending(stem_b, id_b);
    law_clips_never_share_a_path(
        id_a,
        id_b,
        processed_name(stem_a, id_a),
        processed_name(stem_b, id_b),
    );
}

/// Two clips are never written to the same path, whatever their sources are:
/// no two paths that end as theirs do are the same.
pub proof fn law_clips_never_share_a_path(
    id_a: Seq<char>,
    id_b: Seq<char>,
    path_a: Seq<char>,
    path_b: Seq<char>,
)
    requires
        id_a != id_b,
        ends_with(path_a, processed_ending(id_a)),
        ends_with(path_b, processed_ending(id_b)),
    ensures
        path_a != path_b,
{
    let tag_a = clip_tag(id_a);
    let tag_b = clip_tag(id_b);
    law_tags_tell_clips_apart(id_a, id_b);
    if path_a == path_b {
        lemma_tag(id_a);
        lemma_tag(id_b);
        lemma_tag_in_path(path_a, id_a, tag_a.len() as int + 1);
        lemma_tag_in_path(path_b, id_b, tag_b.len() as int + 1);
        if tag_a.len() < tag_b.len() {
            lemma_tag_in_path(path_b, id_b, tag_a.len() as int + 1);
        } else if tag_b.len() < tag_a.len() {
            lemma_tag_in_path(path_a, id_a, tag_b.len() as int + 1);
        } else {
            assert forall|i: int| 0 <= i < tag_a.len() implies tag_a[i] == tag_b[i] by {
                lemma_tag_in_path(path_a, id_a, tag_a.len() - i);
                lemma_tag_in_path(path_b, id_b, tag_b.len() - i);
            }
            assert(tag_a =~= tag_b);
        }
    }
}

/// Counted from the end of a processed path, the tag starts behind the fixed
/// ending and a dot stands in front of it.
proof fn lemma_tag_in_path(path: Seq<char>, clip_id: Seq<char>, i: int)
    requires
        ends_with(path, processed_ending(clip_id)),
        1 <= i <= clip_tag(clip_id).len() + 1,
    ensures
        ({
            let tag = clip_tag(clip_id);
            path[path.len() - 14 - i] == if i <= tag.len() {
                tag[tag.len() - i]
            } else {
                '.'
            }
        }),
{
    reveal_strlit(".wav");
    reveal_strlit(".");
    reveal_strlit(".processed");
    let ending = processed_ending(clip_id);
    let tail = path.skip(path.len() - ending.len());
    assert(tail[ending.len() - 14 - i] == ending[ending.len() - 14 - i]);
}

/// A source is never overwritten, unless it is the clip's own processed file.
pub proof fn law_the_source_is_not_overwritten(source: Seq<char>, clip_id: Seq<char>, path: Seq<char>)
    requires
        ends_with(path, processed_ending(clip_id)),
        !ends_with(source, processed_ending(clip_id)),
    ensures
        path != source,
{
}

/// A path without backslashes and colons that does not start with two slashes
/// is read alike on every platform.
pub proof fn law_platforms_agree_on_portable_paths(text: Seq<char>)
    requires
        !text.contains('\\'),
        !text.contains(':'),
        !(text.len() >= 2 && text[0] == '/' && text[1] == '/'),
    ensures
        !unread(true, text),
        !unread(false, text),
        reading(true, text) == reading(false, text),
{
    if text.len() >= 2 {
        assert(text.contains(text[0]));
        assert(text.contains(text[1]));
    }
    assert(text.skip(0) =~= text);
    lemma_pieces_agree(text);
    if text.len() > 0 {
        assert(text.contains(text[0]));
    }
}

proof fn lemma_pieces_agree(text: Seq<char>)
    requires
        !text.contains('\\'),
    ensures
        pieces(true, text) == pieces(false, text),
    decreases text.len(),
{
    if text.len() > 0 {
        let front = text.drop_last();
        assert(text.contains(text[text.len() - 1]));
        assert(!front.contains('\\')) by {
            if front.contains('\\') {
                let i = choose|i: int| 0 <= i < front.len() && front[i] == '\\';
                assert(text[i] == '\\');
            }
        }
        lemma_pieces_agree(front);
    }
}

/// Processing a clip again gives its file the name of the first time.
pub proof fn law_processing_again_keeps_the_file_name(stem: Seq<char>, clip_id: Seq<char>)
    ensures
        processed_name(stem_of(processed_name(stem, clip_id)), clip_id) == processed_name(
            stem,
            clip_id,
        ),
{
    lemma_bare_stem(stem, clip_id);
    lemma_processed_again(bare_stem(stem, clip_id), clip_id);
}

/// A processed file stands beside its source: the two paths differ in nothing
/// but the file name. Left out are, on Windows, paths that start with two
/// separators and are of no plain form, and names that start with a drive.
pub proof fn law_a_processed_file_stands_beside_its_source(
    source: FilePath,
    clip_id: Seq<char>,
    path: FilePath,
)
    requires
        is_processed(source, clip_id, path),
        !unread(source.windows(), source.text()),
        !has_drive(
            source.windows(),
            processed_name(source_stem(source.windows(), source.text()), clip_id),
        ),
    ensures
        path.reading().prefix == source.reading().prefix,
        path.reading().rooted == source.reading().rooted,
        named_file(path.reading()) == Some(
            processed_name(source_stem(source.windows(), source.text()), clip_id),
        ),
        path.reading().components.drop_last() == if named_file(source.reading()) is Some {
            source.reading().components.drop_last()
        } else {
            source.reading().components
        },
{
    let windows = source.windows();
    let text = source.text();
    let stem = source_stem(windows, text);
    lemma_stem(windows, text, file_name_of(windows, text));
    lemma_processed_name_is_single(windows, stem, clip_id);
    let name = processed_name(stem, clip_id);
    let before = with_file_name(source.reading(), name);
    assert(before.components.last() == name);
    assert(before.components.drop_last() =~= if named_file(source.reading()) is Some {
        source.reading().components.drop_last()
    } else {
        source.reading().components
    });
}

/// Processing a clip's processed file again leads to the same path, component
/// by component. It leads to the very same text where the source's directory is
/// written without anything that a platform passes over, and on Unix already
/// where that of the processed file is. Left out are, on Windows, paths that
/// start with two separators and are of no plain form, and names that start with
/// one drive after another.
pub proof fn law_processing_again_keeps_the_path(
    source: FilePath,
    clip_id: Seq<char>,
    once: FilePath,
    again: FilePath,
)
    requires
        is_processed(source, clip_id, once),
        is_processed(once, clip_id, again),
        !unread(source.windows(), source.text()),
        ({
            let name = processed_name(source_stem(source.windows(), source.text()), clip_id);
            has_drive(source.windows(), name) ==> !has_drive(source.windows(), name.skip(2))
        }),
    ensures
        again.reading() == once.reading(),
        plainly_named(source.windows(), source.text()) ==> again.text() == once.text(),
        !once.windows() && plainly_named(false, once.text()) ==> again.text() == once.text(),
{
    let windows = source.windows();
    let text = source.text();
    let stem = source_stem(windows, text);
    let name = processed_name(stem, clip_id);
    if has_drive(windows, name) {
        lemma_stem(windows, text, file_name_of(windows, text));
        lemma_drive_again(stem, clip_id, again.text());
    } else {
        law_a_processed_file_stands_beside_its_source(source, clip_id, once);
        law_processing_again_keeps_the_file_name(stem, clip_id);
        assert(source_stem(windows, once.text()) == stem_of(name));
        let first = once.reading();
        assert(first.components.drop_last().push(name) =~= first.components);
        assert(with_file_name(first, name) =~= first);
        if plainly_named(windows, text) {
            lemma_stem(windows, text, file_name_of(windows, text));
            lemma_processed_name_is_single(windows, stem, clip_id);
            lemma_sibling_again(windows, text, name, once.text());
        }
        if !windows && plainly_named(windows, once.text()) {
            lemma_own_sibling(once.text(), name);
        }
    }
}

/// A processed name that starts with a drive of Windows stands for itself, and
/// for the same file when it is processed again.
proof fn lemma_drive_again(stem: Seq<char>, clip_id: Seq<char>, again: Seq<char>)
    requires
        undivided(true, stem),
        has_drive(true, processed_name(stem, clip_id)),
        !has_drive(true, processed_name(stem, clip_id).skip(2)),
        processed_path(true, processed_name(stem, clip_id), clip_id, again),
    ensures
        again == processed_name(stem, clip_id),
{
    let once = processed_name(stem, clip_id);
    let bare = bare_stem(stem, clip_id);
    let ending = processed_ending(clip_id);
    let body = once.skip(2);
    let rest = bare.skip(2);
    lemma_ending(stem, clip_id);
    lemma_processed_name_is_single(true, stem, clip_id);
    lemma_no_colon(clip_id);
    assert(bare.len() >= 2) by {
        if bare.len() < 2 {
            assert(once[1] == ending[1 - bare.len()]);
        }
    }
    assert(body =~= rest + ending);
    lemma_bare_stem(stem, clip_id);
    reveal_strlit("-processed");
    assert(!ends_with(rest, "-processed"@)) by {
        if ends_with(rest, "-processed"@) {
            assert(bare.skip(bare.len() - 10) =~= rest.skip(rest.len() - 10));
        }
    }
    lemma_processed_again(rest, clip_id);
    assert forall|i: int| 0 <= i < body.len() implies !is_separator(true, #[trigger] body[i]) by {
        assert(body[i] == once[i + 2]);
    }
    assert(Seq::<char>::empty() + body =~= body);
    lemma_pieces_joined(true, Seq::empty(), body);
    assert(pieces(true, body) =~= seq![body]);
    let all = seq![body];
    assert(all.drop_last() =~= Seq::<Seq<char>>::empty());
    assert(kept_pieces(all.drop_last()) =~= Seq::<Seq<char>>::empty());
    assert(kept_pieces(all) =~= seq![body]);
    assert(file_name_of(true, once) == Some(body));
    assert(source_stem(true, once) == stem_of(body));
    assert(plainly_named(true, once));
    assert(directory(true, once) =~= once.take(2));
    assert(once.take(2) + body =~= once);
}

proof fn lemma_no_colon(clip_id: Seq<char>)
    ensures
        forall|i: int|
            0 <= i < processed_ending(clip_id).len() ==> #[trigger] processed_ending(clip_id)[i]
                != ':',
{
    reveal_strlit(".");
    reveal_strlit(".processed");
    reveal_strlit(".wav");
    lemma_tag(clip_id);
    let ending = processed_ending(clip_id);
    let tag = clip_tag(clip_id);
    assert forall|i: int| 0 <= i < ending.len() implies #[trigger] ending[i] != ':' by {
        if 1 <= i < 1 + tag.len() {
            assert(ending[i] == tag[i - 1]);
        } else if 1 + tag.len() <= i < 11 + tag.len() {
            assert(ending[i] == ".processed"@[i - 1 - tag.len()]);
        } else if i >= 11 + tag.len() {
            assert(ending[i] == ".wav"@[i - 11 - tag.len()]);
        }
    }
}

/// On Unix a plainly written path is its own sibling.
proof fn lemma_own_sibling(text: Seq<char>, name: Seq<char>)
    requires
        plainly_named(false, text),
        file_name_of(false, text) == Some(name),
    ensures
        sibling(false, text, name) == text,
{
    assert(text.skip(0) =~= text);
    lemma_pieces(false, text);
    lemma_last_piece(false, text);
    let dir = directory(false, text);
    assert(kept_pieces(pieces(false, text)).last() == pieces(false, text).last());
    if dir.len() > 1 {
        assert(dir.drop_last().push('/') =~= dir);
    }
}

proof fn lemma_sibling_again(windows: bool, source: Seq<char>, name: Seq<char>, once: Seq<char>)
    requires
        plainly_named(windows, source),
        single_name(windows, name),
        once == sibling(windows, source, name),
        reading(windows, once).prefix == reading(windows, source).prefix,
    ensures
        plainly_named(windows, once),
        sibling(windows, once, name) == once,
{
    lemma_same_prefix(windows, source, once);
    lemma_prefix(windows, source);
    let start = prefix_len(windows, source);
    lemma_renamed(windows, start, source, name, once);
    let dir = directory(windows, source);
    assert(dir == directory_behind(windows, start, source));
    assert(directory(windows, once) == ended_directory(windows, start, dir));
    if dir.len() > start + 1 {
        let all = pieces(windows, source.skip(start));
        let now = pieces(windows, once.skip(start));
        assert(now[now.len() - 2] == all[all.len() - 2]);
    }
}

proof fn lemma_same_prefix(windows: bool, source: Seq<char>, once: Seq<char>)
    requires
        reading(windows, once).prefix == reading(windows, source).prefix,
    ensures
        prefix_len(windows, once) == prefix_len(windows, source),
{
    lemma_prefix(windows, source);
    lemma_prefix(windows, once);
    assert(reading(windows, source).prefix.len() == prefix_len(windows, source));
    assert(reading(windows, once).prefix.len() == prefix_len(windows, once));
}

/// What stands in front of the last piece of a path behind its first `start`
/// characters.
spec fn directory_behind(windows: bool, start: int, text: Seq<char>) -> Seq<char> {
    text.take(text.len() - pieces(windows, text.skip(start)).last().len())
}

/// A directory ended by the separator that a platform writes, unless it is no
/// more than a root.
spec fn ended_directory(windows: bool, start: int, dir: Seq<char>) -> Seq<char> {
    if dir.len() <= start + 1 {
        dir
    } else {
        dir.drop_last().push(main_separator(windows))
    }
}

proof fn lemma_renamed(windows: bool, start: int, source: Seq<char>, name: Seq<char>, once: Seq<char>)
    requires
        0 <= start <= source.len(),
        undivided(windows, name),
        once == ended_directory(windows, start, directory_behind(windows, start, source)) + name,
    ensures
        pieces(windows, once.skip(start)).last() == name,
        directory_behind(windows, start, once) == ended_directory(
            windows,
            start,
            directory_behind(windows, start, source),
        ),
        directory_behind(windows, start, source).len() > start + 1 ==> {
            let all = pieces(windows, source.skip(start));
            all.len() >= 2 && pieces(windows, once.skip(start)) == all.drop_last().push(name)
        },
{
    let body = source.skip(start);
    let last = pieces(windows, body).last();
    lemma_last_piece(windows, body);
    let front = body.take(body.len() - last.len());
    let dir = directory_behind(windows, start, source);
    assert(dir =~= source.take(start) + front);
    let new_dir = ended_directory(windows, start, dir);
    let new_front = new_dir.skip(start);
    assert(once.skip(start) =~= new_front + name);
    if dir.len() <= start + 1 {
        assert(new_front =~= front);
        lemma_pieces_joined(windows, new_front, name);
    } else {
        assert(new_front =~= front.drop_last().push(main_separator(windows)));
        lemma_last_piece_is_undivided(windows, body);
        lemma_inner_pieces(windows, front, last, main_separator(windows), name);
        lemma_pieces(windows, front.drop_last());
        assert(pieces(windows, body).drop_last() =~= pieces(windows, front.drop_last()));
    }
    assert(once.take(once.len() - name.len()) =~= new_dir);
}

/// Whatever separator ends a directory, the pieces in front of a name stay.
proof fn lemma_inner_pieces(
    windows: bool,
    front: Seq<char>,
    last: Seq<char>,
    separator: char,
    name: Seq<char>,
)
    requires
        front.len() > 0,
        is_separator(windows, front.last()),
        is_separator(windows, separator),
        undivided(windows, last),
        undivided(windows, name),
    ensures
        pieces(windows, front + last) == pieces(windows, front.drop_last()).push(last),
        pieces(windows, front.drop_last().push(separator) + name) == pieces(
            windows,
            front.drop_last(),
        ).push(name),
{
    let inner = front.drop_last();
    let other = inner.push(separator);
    lemma_pieces_joined(windows, front, last);
    lemma_pieces_joined(windows, other, name);
    assert(other.drop_last() =~= inner);
    assert(pieces(windows, front) == pieces(windows, inner).push(Seq::empty()));
    assert(pieces(windows, other) == pieces(windows, inner).push(Seq::empty()));
    assert(pieces(windows, front).drop_last() =~= pieces(windows, inner));
    assert(pieces(windows, other).drop_last() =~= pieces(windows, inner));
}

/// The drive, the share or the device of a path is part of it.
proof fn lemma_prefix(windows: bool, text: Seq<char>)
    ensures
        0 <= prefix_len(windows, text) <= text.len(),
{
    if has_share(windows, text) {
        lemma_first_pieces(windows, text.skip(2));
    } else if has_device(windows, text) {
        lemma_first_pieces(windows, text.skip(4));
    }
}

proof fn lemma_first_pieces(windows: bool, text: Seq<char>)
    ensures
        pieces(windows, text).len() == 1 ==> pieces(windows, text)[0].len() == text.len(),
        pieces(windows, text).len() >= 2 ==> pieces(windows, text)[0].len() + 1 + pieces(
            windows,
            text,
        )[1].len() <= text.len(),
        pieces(windows, text).len() == 2 ==> pieces(windows, text)[0].len() + 1 + pieces(
            windows,
            text,
        )[1].len() == text.len(),
        pieces(windows, text).len() >= 3 ==> pieces(windows, text)[0].len() + 1 + pieces(
            windows,
            text,
        )[1].len() + 1 + pieces(windows, text)[2].len() <= text.len(),
    decreases text.len(),
{
    if text.len() > 0 {
        lemma_pieces(windows, text.drop_last());
        lemma_first_pieces(windows, text.drop_last());
    }
}

/// An id made of letters, digits, dashes and underscores is its own tag; the
/// empty one has a tag that no other clip has.
pub proof fn law_plain_ids_stay_as_they_are(clip_id: Seq<char>)
    requires
        forall|i: int|
            0 <= i < clip_id.len() ==> {
                ||| 'a' <= #[trigger] clip_id[i] <= 'z'
                ||| 'A' <= clip_id[i] <= 'Z'
                ||| '0' <= clip_id[i] <= '9'
                ||| clip_id[i] == '-'
                ||| clip_id[i] == '_'
            },
    ensures
        clip_id.len() > 0 ==> clip_tag(clip_id) == clip_id,
        clip_id.len() == 0 ==> clip_tag(clip_id) == "clip~"@,
{
    if clip_id.len() > 0 {
        law_a_tag_is_its_own_tag(clip_id);
    }
}

/// A tag holds letters, digits, dashes, underscores and tildes alone, whatever
/// the id.
pub proof fn law_tags_are_plain_names(clip_id: Seq<char>, i: int)
    requires
        0 <= i < clip_tag(clip_id).len(),
    ensures
        ({
            let ch = clip_tag(clip_id)[i];
            ||| 'a' <= ch <= 'z'
            ||| 'A' <= ch <= 'Z'
            ||| '0' <= ch <= '9'
            ||| ch == '-'
            ||| ch == '_'
            ||| ch == '~'
        }),
{
    lemma_tag(clip_id);
}

/// The value of a hexadecimal digit.
pub open spec fn digit_value(ch: char) -> int {
    if '0' <= ch <= '9' {
        ch as int - '0' as int
    } else {
        ch as int - 'a' as int + 10
    }
}

/// Any other character is written as a tilde and the six hexadecimal digits of
/// its code.
pub proof fn law_other_characters_are_written_as_their_code(ch: char)
    requires
        !('a' <= ch <= 'z'),
        !('A' <= ch <= 'Z'),
        !('0' <= ch <= '9'),
        ch != '-',
        ch != '_',
    ensures
        ({
            let tag = clip_tag(seq![ch]);
            &&& tag.len() == 7
            &&& tag[0] == '~'
            &&& ch as int == 1_048_576 * digit_value(tag[1]) + 65_536 * digit_value(tag[2]) + 4_096
                * digit_value(tag[3]) + 256 * digit_value(tag[4]) + 16 * digit_value(tag[5])
                + digit_value(tag[6])
        }),
{
    let code = ch as u32 as int;
    lemma_one_character(ch);
    lemma_digit_value(code / 1_048_576 % 16);
    lemma_digit_value(code / 65_536 % 16);
    lemma_digit_value(code / 4_096 % 16);
    lemma_digit_value(code / 256 % 16);
    lemma_digit_value(code / 16 % 16);
    lemma_digit_value(code % 16);
    lemma_six_digits(code);
}

proof fn lemma_one_character(ch: char)
    ensures
        encoded(seq![ch]) == tag_code(ch),
{
    let one = seq![ch];
    let rest = one.skip(1);
    assert(rest.len() == 0);
    assert(encoded(rest) =~= Seq::empty());
    assert(encoded(one) =~= tag_code(ch));
}

proof fn lemma_digit_value(d: int)
    requires
        0 <= d < 16,
    ensures
        digit_value(hex_digit(d)) == d,
{
}

/// The tag of an id is made of the tags of its characters, in order.
pub proof fn law_tags_are_written_character_by_character(ch: char, rest: Seq<char>)
    requires
        rest.len() > 0,
    ensures
        clip_tag(seq![ch] + rest) == clip_tag(seq![ch]) + clip_tag(rest),
{
    let whole = seq![ch] + rest;
    assert(whole.skip(1) =~= rest);
    lemma_one_character(ch);
}

/// A processed file is named after its source: a stem without marks of earlier
/// passes is kept whole, with the clip's tag and what it is behind it.
pub proof fn law_a_processed_file_is_named_after_its_source(stem: Seq<char>, clip_id: Seq<char>)
    requires
        stem.len() < 10 || stem.skip(stem.len() - 10) != "-processed"@,
        stem.len() < 11 + clip_tag(clip_id).len() || stem.skip(
            stem.len() - 11 - clip_tag(clip_id).len(),
        ) != "."@ + clip_tag(clip_id) + ".processed"@,
    ensures
        processed_name(stem, clip_id) == stem + "."@ + clip_tag(clip_id) + ".processed"@ + ".wav"@,
{
    reveal_strlit("-processed");
    reveal_strlit(".");
    reveal_strlit(".processed");
    assert(processed_suffix(clip_id).len() == 11 + clip_tag(clip_id).len());
    assert(bare_stem(stem, clip_id) == stem);
    assert(processed_name(stem, clip_id) =~= stem + "."@ + clip_tag(clip_id) + ".processed"@
        + ".wav"@);
}

/// The marks that earlier passes left on a stem go.
pub proof fn law_marks_of_earlier_passes_go(stem: Seq<char>, clip_id: Seq<char>)
    requires
        stem.len() < 11 + clip_tag(clip_id).len() || stem.skip(
            stem.len() - 11 - clip_tag(clip_id).len(),
        ) != "."@ + clip_tag(clip_id) + ".processed"@,
    ensures
        processed_name(stem + "-processed"@, clip_id) == processed_name(stem, clip_id),
        processed_name(stem + "."@ + clip_tag(clip_id) + ".processed"@, clip_id) == processed_name(
            stem,
            clip_id,
        ),
{
    reveal_strlit("-processed");
    reveal_strlit(".");
    reveal_strlit(".processed");
    let tag = clip_tag(clip_id);
    let suffix = processed_suffix(clip_id);
    assert(suffix.len() == 11 + tag.len());
    assert(!ends_with(stem, suffix));
    let once = stem + "-processed"@;
    assert(once.skip(once.len() - 10) =~= "-processed"@);
    assert(once.take(once.len() - 10) =~= stem);
    assert(!ends_with(once, suffix)) by {
        if ends_with(once, suffix) {
            let tail = once.skip(once.len() - suffix.len());
            assert(tail[suffix.len() - 10] == suffix[suffix.len() - 10]);
            assert(once[once.len() - 10] == '-');
            assert(suffix[suffix.len() - 10] == ".processed"@[0]);
        }
    }
    assert(without_suffixes(once, "-processed"@) == without_suffixes(stem, "-processed"@));
    let marked = stem + "."@ + tag + ".processed"@;
    assert(marked =~= stem + suffix);
    assert(marked.skip(marked.len() - suffix.len()) =~= suffix);
    assert(marked.take(marked.len() - suffix.len()) =~= stem);
}

/// The stem of a name is all in front of its last dot, unless that dot stands
/// first or there is none.
pub proof fn law_a_stem_ends_before_the_last_dot(name: Seq<char>, dot: int)
    requires
        -1 <= dot < name.len(),
        dot >= 0 ==> name[dot] == '.',
        forall|i: int| dot < i < name.len() ==> #[trigger] name[i] != '.',
    ensures
        dot > 0 ==> stem_of(name) == name.take(dot),
        dot <= 0 ==> stem_of(name) == name,
{
    lemma_last_dot(name);
}

} // verus!
