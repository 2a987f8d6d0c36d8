//! The two platform families that commands are built for, and what differs
//! between them: path separators, the shell, and how a built program is named.
use vstd::prelude::*;
use crate::text::{chars_of, subvec};

verus! {

/// A family of operating systems.
#[derive(Clone, Copy, Debug, PartialEq, Eq, Structural)]
pub enum Platform {
    /// Windows: `cmd` is the shell, and both `/` and `\` separate path
    /// components.
    Windows,
    /// Everything else: `sh` is the shell, and `/` separates path components.
    Posix,
}

/// `std::path::MAIN_SEPARATOR` of the standard library: the character that
/// separates path components on the platform this program was built for.
/// Nothing is claimed of its value.
#[verifier::external_body]
fn main_separator() -> (c: char) {
    std::path::MAIN_SEPARATOR
}

impl Platform {
    /// The platform of the host: the one that goes with the character by
    /// which the standard library separates path components here. That
    /// character is known only when the program runs, so nothing is promised
    /// of the result; [`Platform::for_separator`] says which platform goes
    /// with which character.
    pub fn host() -> (platform: Platform) {
        Platform::for_separator(main_separator())
    }

    /// The platform that separates path components with `separator` in the
    /// first place.
    pub open spec fn of_separator(separator: char) -> Platform {
        if separator == '\\' {
            Platform::Windows
        } else {
            Platform::Posix
        }
    }

    /// The platform that separates path components with `separator` in the
    /// first place: `Windows` for a backslash, `Posix` for any other
    /// character.
    pub fn for_separator(separator: char) -> (platform: Platform)
        ensures
            platform == Platform::of_separator(separator),
    {
        if separator == '\\' {
            Platform::Windows
        } else {
            Platform::Posix
        }
    }

    /// Whether `c` separates the components of a path.
    pub open spec fn is_separator(self, c: char) -> bool {
        c == '/' || (self == Platform::Windows && c == '\\')
    }

    /// The program that runs a command line.
    pub open spec fn shell(self) -> Seq<char> {
        match self {
            Platform::Windows => "cmd"@,
            Platform::Posix => "sh"@,
        }
    }

    /// The flag after which the shell expects the command line.
    pub open spec fn shell_flag(self) -> Seq<char> {
        match self {
            Platform::Windows => "/C"@,
            Platform::Posix => "-c"@,
        }
    }

    /// The program that looks a program up on the search path.
    pub open spec fn locator(self) -> Seq<char> {
        match self {
            Platform::Windows => "where"@,
            Platform::Posix => "which"@,
        }
    }

    /// The command line that runs the program `name` from the current
    /// directory, where a compiler has just put it.
    pub open spec fn built_program(self, name: Seq<char>) -> Seq<char> {
        match self {
            Platform::Windows => name + ".exe"@,
            Platform::Posix => "./"@ + name,
        }
    }

    /// Whether `c` separates the components of a path.
    pub fn separates(self, c: char) -> (sep: bool)
        ensures
            sep == self.is_separator(c),
    {
        match self {
            Platform::Windows => c == '/' || c == '\\',
            Platform::Posix => c == '/',
        }
    }

    /// The program that runs a command line: `cmd` or `sh`.
    pub fn shell_program(self) -> (name: &'static str)
        ensures
            name@ == self.shell(),
    {
        match self {
            Platform::Windows => "cmd",
            Platform::Posix => "sh",
        }
    }

    /// The flag after which the shell expects the command line: `/C` or `-c`.
    pub fn shell_command_flag(self) -> (flag: &'static str)
        ensures
            flag@ == self.shell_flag(),
    {
        match self {
            Platform::Windows => "/C",
            Platform::Posix => "-c",
        }
    }

    /// The program that looks a program up on the search path: `where` or
    /// `which`.
    pub fn locator_program(self) -> (name: &'static str)
        ensures
            name@ == self.locator(),
    {
        match self {
            Platform::Windows => "where",
            Platform::Posix => "which",
        }
    }
}

/// What follows the last separator of a path, or the whole path where it
/// has none.
pub open spec fn last_component(platform: Platform, path: Seq<char>) -> Seq<char>
    decreases path.len(),
{
    if path.len() == 0 || platform.is_separator(path.last()) {
        Seq::empty()
    } else {
        last_component(platform, path.drop_last()).push(path.last())
    }
}

/// What follows the last separator is the longest end of the path that
/// holds no separator.
pub proof fn lemma_last_component(platform: Platform, path: Seq<char>)
    ensures
        last_component(platform, path).len() <= path.len(),
        last_component(platform, path) == path.skip(
            path.len() - last_component(platform, path).len(),
        ),
        forall|j: int|
            0 <= j < last_component(platform, path).len() ==> !platform.is_separator(
                #[trigger] last_component(platform, path)[j],
            ),
        last_component(platform, path).len() < path.len() ==> platform.is_separator(
            path[path.len() - last_component(platform, path).len() - 1],
        ),
    decreases path.len(),
{
    if path.len() == 0 || platform.is_separator(path.last()) {
        assert(path.skip(path.len() as int) == Seq::<char>::empty());
    } else {
        let rest = path.drop_last();
        lemma_last_component(platform, rest);
        let seg = last_component(platform, rest);
        assert(seg.push(path.last()) == path.skip(path.len() - seg.len() - 1));
    }
}

/// Whether `c` is one of the letters `a` to `z` or `A` to `Z`.
pub open spec fn is_ascii_letter(c: char) -> bool {
    ('a' as u32 <= c as u32 <= 'z' as u32) || ('A' as u32 <= c as u32 <= 'Z' as u32)
}

/// The length of the drive prefix of a path: 2 on Windows where the path
/// starts with a letter and a colon, as `C:` does, and 0 otherwise.
pub open spec fn drive_len(platform: Platform, path: Seq<char>) -> int {
    if platform == Platform::Windows && path.len() >= 2 && is_ascii_letter(path[0]) && path[1]
        == ':' {
        2
    } else {
        0
    }
}

/// A path without the separators at its end.
pub open spec fn without_trailing_separators(platform: Platform, path: Seq<char>) -> Seq<char>
    decreases path.len(),
{
    if path.len() > 0 && platform.is_separator(path.last()) {
        without_trailing_separators(platform, path.drop_last())
    } else {
        path
    }
}

/// The final component of a path, its base name: the separators at the end
/// of the path and a drive prefix at its start do not count, and what
/// follows the last separator of the rest is the component.
pub open spec fn final_segment(platform: Platform, path: Seq<char>) -> Seq<char> {
    last_component(
        platform,
        without_trailing_separators(platform, path.skip(drive_len(platform, path))),
    )
}

/// The final component of a path holds no separator, and stands in the path
/// followed by separators only.
pub proof fn lemma_final_segment(platform: Platform, path: Seq<char>)
    ensures
        forall|j: int|
            0 <= j < final_segment(platform, path).len() ==> !platform.is_separator(
                #[trigger] final_segment(platform, path)[j],
            ),
        exists|start: int, end: int|
            {
                &&& drive_len(platform, path) <= start <= end <= path.len()
                &&& #[trigger] path.subrange(start, end) == final_segment(platform, path)
                &&& forall|j: int| end <= j < path.len() ==> platform.is_separator(path[j])
                &&& start > drive_len(platform, path) ==> platform.is_separator(path[start - 1])
                &&& end > drive_len(platform, path) ==> !platform.is_separator(path[end - 1])
            },
{
    let d = drive_len(platform, path);
    let rest = path.skip(d);
    let kept = lemma_without_trailing_separators(platform, rest);
    let body = rest.take(kept);
    lemma_last_component(platform, body);
    let name = last_component(platform, body);
    let start = d + kept - name.len();
    let end = d + kept;
    assert(path.subrange(start, end) == body.skip(body.len() - name.len()));
    assert forall|j: int| end <= j < path.len() implies platform.is_separator(path[j]) by {
        assert(path[j] == rest[j - d]);
    }
    if start > d {
        assert(path[start - 1] == body[body.len() - name.len() - 1]);
    }
    if end > d {
        assert(path[end - 1] == rest[kept - 1]);
    }
}

/// How much of a path is left without the separators at its end.
proof fn lemma_without_trailing_separators(platform: Platform, path: Seq<char>) -> (kept: int)
    ensures
        0 <= kept <= path.len(),
        without_trailing_separators(platform, path) == path.take(kept),
        forall|j: int| kept <= j < path.len() ==> platform.is_separator(path[j]),
        kept > 0 ==> !platform.is_separator(path[kept - 1]),
    decreases path.len(),
{
    if path.len() > 0 && platform.is_separator(path.last()) {
        let rest = path.drop_last();
        let kept = lemma_without_trailing_separators(platform, rest);
        assert(rest.take(kept) == path.take(kept));
        assert forall|j: int| kept <= j < path.len() implies platform.is_separator(path[j]) by {
            if j < path.len() - 1 {
                assert(path[j] == rest[j]);
            }
        }
        kept
    } else {
        assert(path.take(path.len() as int) == path);
        path.len() as int
    }
}

/// Where what follows the last separator of `v` starts.
pub fn last_component_start(platform: Platform, v: &Vec<char>) -> (start: usize)
    ensures
        start <= v.len(),
        v@.skip(start as int) == last_component(platform, v@),
{
    let mut i: usize = v.len();
    proof {
        assert(v@.skip(i as int) == Seq::<char>::empty());
        assert(v@.take(i as int) == v@);
    }
    while i > 0 && !platform.separates(v[i - 1])
        invariant
            i <= v.len(),
            last_component(platform, v@) == last_component(platform, v@.take(i as int))
                + v@.skip(i as int),
        decreases i,
    {
        proof {
            let head = v@.take(i as int);
            assert(head.drop_last() == v@.take(i - 1));
            assert(last_component(platform, head) == last_component(
                platform,
                v@.take(i - 1),
            ).push(v@[i - 1]));
            assert(seq![v@[i - 1]] + v@.skip(i as int) == v@.skip(i - 1));
        }
        i = i - 1;
    }
    proof {
        let head = v@.take(i as int);
        assert(last_component(platform, head) == Seq::<char>::empty());
    }
    i
}

/// Whether `c` is one of the letters `a` to `z` or `A` to `Z`.
fn ascii_letter(c: char) -> (letter: bool)
    ensures
        letter == is_ascii_letter(c),
{
    let u: u32 = c as u32;
    ('a' as u32 <= u && u <= 'z' as u32) || ('A' as u32 <= u && u <= 'Z' as u32)
}

/// The final component of `path`.
pub fn final_segment_of(platform: Platform, path: &str) -> (name: Vec<char>)
    ensures
        name@ == final_segment(platform, path@),
{
    let v = chars_of(path);
    let drive: usize = match platform {
        Platform::Windows => if v.len() >= 2 && ascii_letter(v[0]) && v[1] == ':' {
            2
        } else {
            0
        },
        Platform::Posix => 0,
    };
    let rest = subvec(&v, drive, v.len());
    assert(rest@ == path@.skip(drive as int));
    let mut end: usize = rest.len();
    proof {
        assert(rest@.take(end as int) == rest@);
    }
    while end > 0 && platform.separates(rest[end - 1])
        invariant
            end <= rest.len(),
            without_trailing_separators(platform, rest@) == without_trailing_separators(
                platform,
                rest@.take(end as int),
            ),
        decreases end,
    {
        proof {
            assert(rest@.take(end as int).drop_last() == rest@.take(end - 1));
        }
        end = end - 1;
    }
    let body = subvec(&rest, 0, end);
    proof {
        assert(body@ == rest@.take(end as int));
        assert(without_trailing_separators(platform, body@) == body@);
    }
    let start = last_component_start(platform, &body);
    assert(body@.subrange(start as int, body.len() as int) == body@.skip(start as int));
    subvec(&body, start, body.len())
}

} // verus!
