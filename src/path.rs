//! The parts of a `/`-separated file path that the runner reads: the file
//! name, its extension and its stem.
use vstd::prelude::*;
use crate::text::{find_last, last_pos, same_text, slice_text};

verus! {

/// The last component of `p`; none when it is empty, `.` or `..`.
pub open spec fn file_name_of(p: Seq<char>) -> Option<Seq<char>> {
    let f = p.subrange(last_pos(p, '/') + 1, p.len() as int);
    if f.len() == 0 || f == "."@ || f == ".."@ {
        None
    } else {
        Some(f)
    }
}

/// What follows the last `.` of the file name, unless that `.` opens the name.
pub open spec fn extension_of(p: Seq<char>) -> Option<Seq<char>> {
    match file_name_of(p) {
        None => None,
        Some(f) => {
            let d = last_pos(f, '.');
            if d <= 0 {
                None
            } else {
                Some(f.subrange(d + 1, f.len() as int))
            }
        },
    }
}

/// The file name without its extension.
pub open spec fn stem_of(p: Seq<char>) -> Option<Seq<char>> {
    match file_name_of(p) {
        None => None,
        Some(f) => {
            let d = last_pos(f, '.');
            if d <= 0 {
                Some(f)
            } else {
                Some(f.subrange(0, d))
            }
        },
    }
}

/// The last component of `path`, if it names a file.
pub fn file_name(path: &str) -> (r: Option<String>)
    ensures
        match r {
            Some(f) => file_name_of(path@) == Some(f@),
            None => file_name_of(path@) is None,
        },
{
    let n = path.unicode_len();
    let start = match find_last(path, '/') {
        Some(k) => k + 1,
        None => 0,
    };
    let f = slice_text(path, start, n);
    if f.unicode_len() == 0 || same_text(f.as_str(), ".") || same_text(f.as_str(), "..") {
        None
    } else {
        Some(f)
    }
}

/// The extension of the file that `path` names, without its dot.
pub fn extension(path: &str) -> (r: Option<String>)
    ensures
        match r {
            Some(e) => extension_of(path@) == Some(e@),
            None => extension_of(path@) is None,
        },
{
    match file_name(path) {
        None => None,
        Some(f) => match find_last(f.as_str(), '.') {
            Some(d) => {
                if d == 0 {
                    None
                } else {
                    let n = f.unicode_len();
                    Some(slice_text(f.as_str(), d + 1, n))
                }
            },
            None => None,
        },
    }
}

/// The name of the file that `path` names, without its extension.
pub fn file_stem(path: &str) -> (r: Option<String>)
    ensures
        match r {
            Some(s) => stem_of(path@) == Some(s@),
            None => stem_of(path@) is None,
        },
{
    match file_name(path) {
        None => None,
        Some(f) => match find_last(f.as_str(), '.') {
            Some(d) => {
                if d == 0 {
                    Some(f)
                } else {
                    Some(slice_text(f.as_str(), 0, d))
                }
            },
            None => Some(f),
        },
    }
}

} // verus!
