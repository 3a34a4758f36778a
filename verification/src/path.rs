//! Resource paths.
//!
//! A resource path is a relative path whose segments are parted by `/`. Empty
//! segments and segments that are a single dot count for nothing, as on a
//! Unix file system.

use crate::text::{chars_of, split, split_text, text_of, texts};
use vstd::prelude::*;

verus! {

/// Whether a segment counts for nothing: it is empty or a single dot.
pub open spec fn is_skipped(segment: Seq<char>) -> bool {
    segment.len() == 0 || segment == seq!['.']
}

/// The last segment that counts.
pub open spec fn last_component(segments: Seq<Seq<char>>) -> Option<Seq<char>>
    decreases segments.len(),
{
    if segments.len() == 0 {
        None
    } else if is_skipped(segments.last()) {
        last_component(segments.drop_last())
    } else {
        Some(segments.last())
    }
}

/// The file name of a path: its last segment that counts, unless that is
/// `..`.
pub open spec fn file_name(path: Seq<char>) -> Option<Seq<char>> {
    match last_component(split(path, '/')) {
        Some(name) => if name == seq!['.', '.'] {
            None
        } else {
            Some(name)
        },
        None => None,
    }
}

/// The two parts of the name under which the resource at `path` is kept in
/// a local file: the stem of the file name, and its extension with the dot
/// before it. The extension begins at the last dot of the file name. A path
/// without a file name has no such parts, nor has one whose file name holds
/// no dot, or none but a first one.
pub open spec fn staging_parts(path: Seq<char>) -> Option<(Seq<char>, Seq<char>)> {
    match file_name(path) {
        Some(name) => match name.index_of_last('.') {
            Some(dot) => if dot == 0 {
                None
            } else {
                Some((name.take(dot), name.skip(dot)))
            },
            None => None,
        },
        None => None,
    }
}

/// Finds the last segment that counts.
fn last_counting(segments: &Vec<String>) -> (found: Option<Vec<char>>)
    ensures
        match found {
            Some(name) => last_component(texts(segments@)) == Some(name@),
            None => last_component(texts(segments@)) is None,
        },
{
    let ghost all = texts(segments@);
    let mut i: usize = segments.len();
    assert(all.take(i as int) == all);
    while i > 0
        invariant
            i <= segments.len(),
            all == texts(segments@),
            last_component(all) == last_component(all.take(i as int)),
        decreases i,
    {
        let chars = chars_of(segments[i - 1].as_str());
        assert(all.take(i as int).last() == chars@);
        assert(all.take(i as int).drop_last() == all.take(i - 1));
        if chars.len() == 0 || (chars.len() == 1 && chars[0] == '.') {
            assert(chars.len() == 1 ==> chars@ == seq!['.']);
            i = i - 1;
        } else {
            assert(chars@ != seq!['.']) by {
                if chars@.len() == 1 {
                    assert(seq!['.'][0] == '.');
                }
            }
            return Some(chars);
        }
    }
    None
}

/// Computes the two parts of the name under which the resource at `path` is
/// kept in a local file.
pub fn staging_name(path: &str) -> (parts: Option<(String, String)>)
    ensures
        match parts {
            Some((prefix, suffix)) => staging_parts(path@) == Some((prefix@, suffix@)),
            None => staging_parts(path@) is None,
        },
{
    let segments = split_text(path, '/');
    let name = match last_counting(&segments) {
        Some(name) => name,
        None => { return None; },
    };
    if name.len() == 2 && name[0] == '.' && name[1] == '.' {
        assert(name@ == seq!['.', '.']);
        return None;
    }
    assert(name@ != seq!['.', '.']) by {
        if name@.len() == 2 {
            assert(seq!['.', '.'][0] == '.');
            assert(seq!['.', '.'][1] == '.');
        }
    }
    let mut dot: usize = name.len();
    while dot > 0 && name[dot - 1] != '.'
        invariant
            dot <= name.len(),
            forall|j: int| dot <= j < name.len() ==> name@[j] != '.',
        decreases dot,
    {
        dot = dot - 1;
    }
    proof {
        name@.index_of_last_ensures('.');
        if dot > 0 {
            assert(name@.contains('.'));
        }
    }
    if dot <= 1 {
        return None;
    }
    assert(name@.index_of_last('.') == Some(dot - 1));
    let prefix = text_of(&name, 0, dot - 1);
    let suffix = text_of(&name, dot - 1, name.len());
    Some((prefix, suffix))
}

/// `path` taken from the directory `base`: `base`, a `/` unless `base` is
/// empty or ends with one, and `path`. A `path` that begins with `/` is
/// absolute and stands alone.
pub open spec fn joined(base: Seq<char>, path: Seq<char>) -> Seq<char> {
    if path.len() > 0 && path[0] == '/' {
        path
    } else if base.len() == 0 || base.last() == '/' {
        base + path
    } else {
        base + seq!['/'] + path
    }
}

/// Joins `path` to the directory `base`.
pub fn join(base: &str, path: &str) -> (whole: String)
    ensures
        whole@ == joined(base@, path@),
{
    let head = chars_of(base);
    let tail = chars_of(path);
    if tail.len() > 0 && tail[0] == '/' {
        return String::from_str(path);
    }
    let mut whole = String::from_str(base);
    if head.len() > 0 && head[head.len() - 1] != '/' {
        whole.push('/');
        assert(base@.push('/') == base@ + seq!['/']);
    }
    whole.append(path);
    whole
}

} // verus!
