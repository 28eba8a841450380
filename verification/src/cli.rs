//! Command-line surface: which analysis to run, and the base name under
//! which its results are persisted.

use vstd::prelude::*;
use vstd::string::*;

verus! {

/// The invocation the process was started with.
#[derive(PartialEq, Eq, Clone, Debug)]
pub enum Command {
    /// Analyze the video file at this path.
    Video { path: String },
    /// Analyze the live camera stream.
    Camera,
    /// Anything else: print an informational message and do no analysis.
    Unrecognized,
}

/// Reads the invocation from the argument list: the program name followed
/// by `video <path>` or by `camera`; everything else is unrecognized.
pub fn parse_command(args: &Vec<String>) -> (c: Command)
    ensures
        (if args@.len() == 3 && args@[1]@ == "video"@ {
            c matches Command::Video { path } && path@ == args@[2]@
        } else if args@.len() == 2 && args@[1]@ == "camera"@ {
            c == Command::Camera
        } else {
            c == Command::Unrecognized
        }),
{
    if args.len() == 3 {
        let word: String = "video".to_owned();
        if args[1].eq(&word) {
            let path: String = args[2].clone();
            return Command::Video { path };
        }
        Command::Unrecognized
    } else if args.len() == 2 {
        let word: String = "camera".to_owned();
        if args[1].eq(&word) {
            return Command::Camera;
        }
        Command::Unrecognized
    } else {
        Command::Unrecognized
    }
}

/// The last index at which `c` occurs in `s`, or -1 when it never does.
pub open spec fn last_index_of(s: Seq<char>, c: char) -> int
    decreases s.len(),
{
    if s.len() == 0 {
        -1
    } else if s.last() == c {
        s.len() - 1
    } else {
        last_index_of(s.drop_last(), c)
    }
}

/// The file stem of a path: the part of the file name (everything after
/// the last `/`) that precedes its last `.`, except that a dot in the
/// leading position begins no extension.  An empty file name has no stem.
pub open spec fn file_stem_spec(p: Seq<char>) -> Option<Seq<char>> {
    let start = last_index_of(p, '/') + 1;
    let name = p.subrange(start, p.len() as int);
    if name.len() == 0 {
        None
    } else {
        let d = last_index_of(name, '.');
        if d >= 1 {
            Some(name.subrange(0, d))
        } else {
            Some(name)
        }
    }
}

/// Derives the file stem of `path`, the base name under which a video's
/// results are persisted.
pub fn file_stem(path: &str) -> (r: Option<String>)
    ensures
        r is Some <==> file_stem_spec(path@) is Some,
        (r matches Some(s) ==> (file_stem_spec(path@) matches Some(t) && s@ == t)),
{
    let n = path.unicode_len();
    let mut i: usize = 0;
    let mut start: usize = 0;
    while i < n
        invariant
            i <= n,
            n == path@.len(),
            start as int == last_index_of(path@.subrange(0, i as int), '/') + 1,
            start <= i,
        decreases n - i,
    {
        let ch = path.get_char(i);
        proof {
            let p = path@;
            assert(p.subrange(0, i + 1).drop_last() =~= p.subrange(0, i as int));
            assert(p.subrange(0, i + 1).last() == p[i as int]);
        }
        if ch == '/' {
            start = i + 1;
        }
        i = i + 1;
    }
    proof {
        assert(path@.subrange(0, n as int) =~= path@);
    }
    if start == n {
        return None;
    }
    let mut j: usize = start;
    let mut dot: Option<usize> = None;
    while j < n
        invariant
            start <= j <= n,
            start < n,
            n == path@.len(),
            (match dot {
                None => -1int,
                Some(d) => d - start,
            }) == last_index_of(path@.subrange(start as int, j as int), '.'),
            (dot matches Some(d) ==> start <= d < j),
        decreases n - j,
    {
        let ch = path.get_char(j);
        proof {
            let p = path@;
            assert(p.subrange(start as int, j + 1).drop_last() =~= p.subrange(
                start as int,
                j as int,
            ));
            assert(p.subrange(start as int, j + 1).last() == p[j as int]);
        }
        if ch == '.' {
            dot = Some(j);
        }
        j = j + 1;
    }
    let end: usize = match dot {
        Some(d) => if d > start {
            d
        } else {
            n
        },
        None => n,
    };
    let stem = path.substring_char(start, end);
    proof {
        let p = path@;
        let name = p.subrange(start as int, n as int);
        let d = last_index_of(name, '.');
        if d >= 1 {
            assert(name.subrange(0, d) =~= p.subrange(start as int, start + d));
        } else {
            assert(name =~= p.subrange(start as int, n as int));
        }
    }
    Some(stem.to_owned())
}

/// The base name under which results are persisted: the video's file
/// stem, or this fixed name for a live camera stream.
pub fn output_base_name(stem: Option<String>) -> (r: String)
    ensures
        (stem matches Some(s) ==> r@ == s@),
        stem is None ==> r@ == "camera"@,
{
    match stem {
        Some(s) => s,
        None => "camera".to_owned(),
    }
}

/// The name under which the bin-major (intensity against lag) view is
/// persisted: the base name with the orientation suffix.
pub fn transposed_name(base: &str) -> (r: String)
    ensures
        r@ == base@ + "_vs_tau"@,
{
    let mut s: String = base.to_owned();
    s.append("_vs_tau");
    s
}

} // verus!
