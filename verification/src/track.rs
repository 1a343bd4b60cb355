//! Playlist entries and the import filter: which files are accepted into the
//! tracklist, and how a display name is cut out of a file path.

use vstd::prelude::*;

verus! {

/// One playlist entry: a display name and the file path it was imported from.
/// Immutable once created; identity is positional (the index in the
/// tracklist), not a stable id.
#[derive(Debug, Clone)]
pub struct TrackInfo {
    pub name: String,
    pub path: String,
}

/// The import allow-list: the only file extensions accepted into a tracklist.
pub open spec fn supported_format(ext: Seq<char>) -> bool {
    ||| ext == "mp3"@
    ||| ext == "wav"@
    ||| ext == "ogg"@
    ||| ext == "flac"@
}

/// Path separators recognised when the file name is split off a path.
pub open spec fn is_sep(c: char) -> bool {
    c == '/' || c == '\\'
}

/// Index of the last path separator in `s`, or -1 if there is none.
pub open spec fn last_sep(s: Seq<char>) -> int
    decreases s.len(),
{
    if s.len() == 0 {
        -1
    } else if is_sep(s.last()) {
        s.len() - 1
    } else {
        last_sep(s.drop_last())
    }
}

/// Index of the last `'.'` in `s`, or -1 if there is none.
pub open spec fn last_dot(s: Seq<char>) -> int
    decreases s.len(),
{
    if s.len() == 0 {
        -1
    } else if s.last() == '.' {
        s.len() - 1
    } else {
        last_dot(s.drop_last())
    }
}

/// A path carries an extension when its last dot lies inside the file name
/// and leaves a non-empty stem before it (so a leading-dot file name such as
/// `.config` has none).
pub open spec fn has_extension(s: Seq<char>) -> bool {
    last_dot(s) > last_sep(s) + 1
}

/// The extension of the file named by `s`: what follows the last dot.
/// Meaningful only when `has_extension(s)`.
pub open spec fn spec_extension(s: Seq<char>) -> Seq<char> {
    s.subrange(last_dot(s) + 1, s.len() as int)
}

/// The stem of the file named by `s`: what stands between the last separator
/// and the last dot. Meaningful only when `has_extension(s)`.
pub open spec fn spec_stem(s: Seq<char>) -> Seq<char> {
    s.subrange(last_sep(s) + 1, last_dot(s))
}

/// A path is importable exactly when it has an extension on the allow-list.
pub open spec fn importable(s: Seq<char>) -> bool {
    has_extension(s) && supported_format(spec_extension(s))
}

proof fn lemma_last_dot_bounds(s: Seq<char>)
    ensures
        -1 <= last_dot(s) < s.len(),
    decreases s.len(),
{
    if s.len() > 0 && s.last() != '.' {
        lemma_last_dot_bounds(s.drop_last());
    }
}

proof fn lemma_last_sep_bounds(s: Seq<char>)
    ensures
        -1 <= last_sep(s) < s.len(),
    decreases s.len(),
{
    if s.len() > 0 && !is_sep(s.last()) {
        lemma_last_sep_bounds(s.drop_last());
    }
}

/// Scans `s` from the end for its last dot.
fn find_last_dot(s: &str) -> (r: Option<usize>)
    ensures
        r matches Some(k) ==> k == last_dot(s@),
        r is None ==> last_dot(s@) == -1,
{
    let n: usize = s.unicode_len();
    proof {
        assert(s@.take(n as int) =~= s@);
    }
    let mut i: usize = n;
    while i > 0
        invariant
            i <= n,
            n == s@.len(),
            last_dot(s@) == last_dot(s@.take(i as int)),
        decreases i,
    {
        let c = s.get_char(i - 1);
        proof {
            assert(s@.take(i as int).last() == s@[i - 1]);
        }
        if c == '.' {
            return Some(i - 1);
        }
        proof {
            assert(s@.take(i as int).drop_last() =~= s@.take(i - 1));
        }
        i = i - 1;
    }
    proof {
        assert(s@.take(0) =~= Seq::<char>::empty());
    }
    None
}

/// Scans `s` from the end for its last path separator.
fn find_last_sep(s: &str) -> (r: Option<usize>)
    ensures
        r matches Some(k) ==> k == last_sep(s@),
        r is None ==> last_sep(s@) == -1,
{
    let n: usize = s.unicode_len();
    proof {
        assert(s@.take(n as int) =~= s@);
    }
    let mut i: usize = n;
    while i > 0
        invariant
            i <= n,
            n == s@.len(),
            last_sep(s@) == last_sep(s@.take(i as int)),
        decreases i,
    {
        let c = s.get_char(i - 1);
        proof {
            assert(s@.take(i as int).last() == s@[i - 1]);
        }
        if c == '/' || c == '\\' {
            return Some(i - 1);
        }
        proof {
            assert(s@.take(i as int).drop_last() =~= s@.take(i - 1));
        }
        i = i - 1;
    }
    proof {
        assert(s@.take(0) =~= Seq::<char>::empty());
    }
    None
}

/// Decides membership in the import allow-list.
pub fn format_is_supported(extension: &str) -> (r: bool)
    ensures
        r == supported_format(extension@),
{
    proof {
        reveal_strlit("mp3");
        reveal_strlit("wav");
        reveal_strlit("ogg");
        reveal_strlit("flac");
    }
    let n: usize = extension.unicode_len();
    if n == 3 {
        let c0 = extension.get_char(0);
        let c1 = extension.get_char(1);
        let c2 = extension.get_char(2);
        let r = (c0 == 'm' && c1 == 'p' && c2 == '3') || (c0 == 'w' && c1 == 'a' && c2 == 'v')
            || (c0 == 'o' && c1 == 'g' && c2 == 'g');
        proof {
            if r {
                if c0 == 'm' {
                    assert(extension@ =~= "mp3"@);
                } else if c0 == 'w' {
                    assert(extension@ =~= "wav"@);
                } else {
                    assert(extension@ =~= "ogg"@);
                }
            }
        }
        r
    } else if n == 4 {
        let c0 = extension.get_char(0);
        let c1 = extension.get_char(1);
        let c2 = extension.get_char(2);
        let c3 = extension.get_char(3);
        let r = c0 == 'f' && c1 == 'l' && c2 == 'a' && c3 == 'c';
        proof {
            if r {
                assert(extension@ =~= "flac"@);
            }
        }
        r
    } else {
        false
    }
}

/// Builds the playlist entry for `path`: the stem of the file name becomes
/// the display name. Returns nothing when the path has no extension from the
/// allow-list; the caller is expected to ignore such files silently.
pub fn track_from_path(path: &str) -> (r: Option<TrackInfo>)
    ensures
        r is Some <==> importable(path@),
        r matches Some(t) ==> t.name@ == spec_stem(path@) && t.path@ == path@,
{
    proof {
        lemma_last_dot_bounds(path@);
        lemma_last_sep_bounds(path@);
    }
    let n: usize = path.unicode_len();
    let d = find_last_dot(path);
    let p = find_last_sep(path);
    let di: usize = match d {
        None => {
            return None;
        },
        Some(k) => k,
    };
    let start: usize = match p {
        None => 0,
        Some(k) => k + 1,
    };
    if di <= start {
        return None;
    }
    let ext = path.substring_char(di + 1, n);
    if !format_is_supported(ext) {
        return None;
    }
    let stem = path.substring_char(start, di);
    Some(TrackInfo { name: String::from_str(stem), path: String::from_str(path) })
}

} // verus!
