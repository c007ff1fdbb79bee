//! The names of spec files.
//!
//! A path is text with `/` between its parts. Its file name is what stands
//! behind the last `/`; an empty name, `.` and `..` are no file names. The
//! extension of a file name is what stands behind its last `.`, its stem
//! what stands before it; a name without a `.`, or with its only `.` in
//! front, has no extension and is its own stem.

use vstd::prelude::*;
use vstd::string::*;
use crate::error::Error;
use crate::text::same_text;

verus! {

/// The extension of spec files.
pub const SPEC_FILE_EXT: &'static str = "spec";

/// The pattern that the spec files of a directory match.
pub const SPEC_FILE_GLOB: &'static str = "*.spec";

/// The place of the last `c` in `s`, or `-1` if there is none.
pub open spec fn last_index(s: Seq<char>, c: char) -> int
    decreases s.len(),
{
    if s.len() == 0 {
        -1
    } else if s.last() == c {
        s.len() - 1
    } else {
        last_index(s.drop_last(), c)
    }
}

/// The last part of a path: what stands behind its last `/`.
pub open spec fn last_part(path: Seq<char>) -> Seq<char> {
    path.subrange(last_index(path, '/') + 1, path.len() as int)
}

/// The file name of a path, if it has one.
pub open spec fn file_name(path: Seq<char>) -> Option<Seq<char>> {
    let name = last_part(path);
    if name.len() == 0 || name == seq!['.'] || name == seq!['.', '.'] {
        None
    } else {
        Some(name)
    }
}

/// The extension of a path's file name, if it has one.
pub open spec fn extension(path: Seq<char>) -> Option<Seq<char>> {
    match file_name(path) {
        None => None,
        Some(name) => {
            let dot = last_index(name, '.');
            if dot <= 0 {
                None
            } else {
                Some(name.subrange(dot + 1, name.len() as int))
            }
        },
    }
}

/// The stem of a path's file name, if it has a file name.
pub open spec fn file_stem(path: Seq<char>) -> Option<Seq<char>> {
    match file_name(path) {
        None => None,
        Some(name) => {
            let dot = last_index(name, '.');
            if dot <= 0 {
                Some(name)
            } else {
                Some(name.subrange(0, dot))
            }
        },
    }
}

/// `last_index` finds a place in the text, or `-1`.
pub proof fn lemma_last_index_range(s: Seq<char>, c: char)
    ensures
        -1 <= last_index(s, c) < s.len(),
        last_index(s, c) >= 0 ==> s[last_index(s, c)] == c,
    decreases s.len(),
{
    if s.len() > 0 && s.last() != c {
        lemma_last_index_range(s.drop_last(), c);
    }
}

/// The place of the last `c` among the characters of `s` from `from` to
/// `to`, counted from the start of `s`; `from - 1` if there is none.
fn find_last(s: &str, from: usize, to: usize, c: char) -> (r: Option<usize>)
    requires
        from <= to <= s@.len(),
    ensures
        match r {
            Some(i) => from <= i < to && last_index(s@.subrange(from as int, to as int), c) == i
                - from,
            None => last_index(s@.subrange(from as int, to as int), c) == -1,
        },
{
    let ghost part = s@.subrange(from as int, to as int);
    let mut i: usize = to;
    assert(part.subrange(0, to - from) =~= part);
    while i > from
        invariant
            from <= i <= to <= s@.len(),
            part == s@.subrange(from as int, to as int),
            last_index(part, c) == last_index(part.subrange(0, i - from), c),
        decreases i,
    {
        let ghost here = part.subrange(0, i - from);
        assert(here.last() == s@[i - 1]);
        assert(here.drop_last() =~= part.subrange(0, i - 1 - from));
        if s.get_char(i - 1) == c {
            return Some(i - 1);
        }
        i = i - 1;
    }
    assert(part.subrange(0, 0).len() == 0);
    None
}

/// The places between which the file name of `path` stands, if it has one.
fn file_name_range(path: &str) -> (r: Option<(usize, usize)>)
    ensures
        match r {
            Some((from, to)) => {
                &&& from <= to == path@.len()
                &&& from == last_index(path@, '/') + 1
                &&& file_name(path@) == Some(path@.subrange(from as int, to as int))
            },
            None => file_name(path@) is None,
        },
{
    let n = path.unicode_len();
    assert(path@.subrange(0, n as int) =~= path@);
    let from = match find_last(path, 0, n, '/') {
        Some(i) => i + 1,
        None => 0,
    };
    let ghost name = path@.subrange(from as int, n as int);
    if from == n {
        return None;
    }
    if n - from == 1 && path.get_char(from) == '.' {
        assert(name =~= seq!['.']);
        return None;
    }
    if n - from == 2 && path.get_char(from) == '.' && path.get_char(from + 1) == '.' {
        assert(name =~= seq!['.', '.']);
        return None;
    }
    proof {
        if name == seq!['.'] {
            assert(name.len() == 1 && name[0] == '.');
        }
        if name == seq!['.', '.'] {
            assert(name.len() == 2 && name[0] == '.' && name[1] == '.');
        }
    }
    Some((from, n))
}

/// The extension of the file name of `path`, if it has one.
pub fn path_extension(path: &str) -> (r: Option<&str>)
    ensures
        match r {
            Some(e) => extension(path@) == Some(e@),
            None => extension(path@) is None,
        },
{
    match file_name_range(path) {
        None => None,
        Some((from, to)) => {
            let ghost name = path@.subrange(from as int, to as int);
            match find_last(path, from, to, '.') {
                Some(dot) => {
                    if dot == from {
                        None
                    } else {
                        assert(name.subrange(dot - from + 1, name.len() as int) =~= path@.subrange(
                            dot + 1,
                            to as int,
                        ));
                        Some(path.substring_char(dot + 1, to))
                    }
                },
                None => None,
            }
        },
    }
}

/// The stem of the file name of `path`, if it has a file name.
pub fn path_file_stem(path: &str) -> (r: Option<&str>)
    ensures
        match r {
            Some(e) => file_stem(path@) == Some(e@),
            None => file_stem(path@) is None,
        },
{
    match file_name_range(path) {
        None => None,
        Some((from, to)) => {
            let ghost name = path@.subrange(from as int, to as int);
            match find_last(path, from, to, '.') {
                Some(dot) => {
                    if dot == from {
                        Some(path.substring_char(from, to))
                    } else {
                        assert(name.subrange(0, dot - from) =~= path@.subrange(
                            from as int,
                            dot as int,
                        ));
                        Some(path.substring_char(from, dot))
                    }
                },
                None => Some(path.substring_char(from, to)),
            }
        },
    }
}

/// The path of a spec file: a path whose file name has the extension of
/// spec files.
#[derive(Debug, PartialEq, Eq)]
pub struct SpecPath(String);

impl View for SpecPath {
    type V = Seq<char>;

    closed spec fn view(&self) -> Seq<char> {
        self.0@
    }
}

impl Clone for SpecPath {
    fn clone(&self) -> (r: Self)
        ensures
            r@ == self@,
    {
        SpecPath(self.0.clone())
    }
}

impl SpecPath {
    /// The path has the extension of spec files.
    pub open spec fn wf(&self) -> bool {
        extension(self@) == Some(SPEC_FILE_EXT@)
    }

    /// Takes `path` as the path of a spec file, if it has the extension of
    /// spec files; gives the path back as not being one otherwise.
    pub fn new(path: &str) -> (r: Result<SpecPath, Error>)
        ensures
            match r {
                Ok(p) => p@ == path@ && p.wf(),
                Err(e) => {
                    &&& extension(path@) != Some(SPEC_FILE_EXT@)
                    &&& e matches Error::InvalidSpecFileName(p)
                    &&& p@ == path@
                },
            },
    {
        let valid = match path_extension(path) {
            Some(ex) => same_text(ex, SPEC_FILE_EXT),
            None => false,
        };
        if valid {
            Ok(SpecPath(path.to_owned()))
        } else {
            Err(Error::InvalidSpecFileName(path.to_owned()))
        }
    }

    /// Whether this is the spec file of the service `name`.
    pub fn is_spec_for_service(&self, name: &str) -> (r: bool)
        ensures
            r == (file_stem(self@) == Some(name@)),
    {
        match self.service_name() {
            Some(n) => same_text(n, name),
            None => false,
        }
    }

    /// The name of the service that the file is the spec of: the stem of
    /// the file name.
    pub fn service_name(&self) -> (r: Option<&str>)
        ensures
            match r {
                Some(n) => file_stem(self@) == Some(n@),
                None => file_stem(self@) is None,
            },
    {
        path_file_stem(self.0.as_str())
    }

    /// The path as text.
    pub fn as_str(&self) -> (r: &str)
        ensures
            r@ == self@,
    {
        self.0.as_str()
    }
}

/// The directory of a path that has a file name: what stands before the
/// last `/`, the root for a file directly below it, and the empty path for
/// a name alone.
pub open spec fn parent(path: Seq<char>) -> Option<Seq<char>> {
    if file_name(path) is None {
        None
    } else {
        let slash = last_index(path, '/');
        if slash == 0 {
            Some(seq!['/'])
        } else if slash < 0 {
            Some(Seq::<char>::empty())
        } else {
            Some(path.subrange(0, slash))
        }
    }
}

/// A path with another extension in its file name: the path up to the stem
/// of the file name, and behind it `.` and the extension. A path without a
/// file name stays as it is.
pub open spec fn with_extension(path: Seq<char>, ext: Seq<char>) -> Seq<char> {
    match file_stem(path) {
        None => path,
        Some(stem) => (path.subrange(0, last_index(path, '/') + 1) + stem).push('.') + ext,
    }
}

/// The directory of `path`, if `path` has a file name.
pub fn path_parent(path: &str) -> (r: Option<&str>)
    ensures
        match r {
            Some(p) => parent(path@) == Some(p@),
            None => parent(path@) is None,
        },
{
    proof {
        reveal_strlit("/");
        reveal_strlit("");
    }
    match file_name_range(path) {
        None => None,
        Some((from, to)) => {
            let n = path.unicode_len();
            assert(path@.subrange(0, n as int) =~= path@);
            match find_last(path, 0, n, '/') {
                Some(slash) => {
                    if slash == 0 {
                        assert("/"@ =~= seq!['/']);
                        Some("/")
                    } else {
                        Some(path.substring_char(0, slash))
                    }
                },
                None => {
                    assert(""@ =~= Seq::<char>::empty());
                    Some("")
                },
            }
        },
    }
}

/// `path` with the extension `ext` in place of the one it has.
pub fn path_with_extension(path: &str, ext: &str) -> (r: String)
    ensures
        r@ == with_extension(path@, ext@),
{
    proof {
        reveal_strlit(".");
    }
    match file_name_range(path) {
        None => path.to_owned(),
        Some((from, to)) => {
            let ghost name = path@.subrange(from as int, to as int);
            let stem_end = match find_last(path, from, to, '.') {
                Some(dot) => if dot == from {
                    to
                } else {
                    dot
                },
                None => to,
            };
            proof {
                assert(name.subrange(0, stem_end - from) =~= path@.subrange(
                    from as int,
                    stem_end as int,
                ));
                assert(name.subrange(0, name.len() as int) =~= name);
                assert(path@.subrange(0, from as int) + path@.subrange(from as int, stem_end as int)
                    =~= path@.subrange(0, stem_end as int));
            }
            let mut out = path.substring_char(0, stem_end).to_owned();
            let ghost head = out@;
            out.append(".");
            assert(out@ =~= head.push('.'));
            out.append(ext);
            out
        },
    }
}

} // verus!
