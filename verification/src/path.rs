//! The final name of a path and its extension, read the way std's `Path`
//! reads a Unix path: `/` separates components, `.` components after the
//! first are skipped, and a final `..` has no name.
use vstd::prelude::*;

verus! {

/// Where the component that ends at `e` starts: just after the last `/`
/// before `e`, or 0.
pub open spec fn seg_start(s: Seq<char>, e: int) -> int
    decreases e,
{
    if e <= 0 {
        0
    } else if s[e - 1] == '/' {
        e
    } else {
        seg_start(s, e - 1)
    }
}

/// The name of the last component of `s.take(e)` that is neither empty nor
/// `.`; `None` when that component is `..`, when only a leading `.` is left,
/// or when there is none.
pub open spec fn last_name(s: Seq<char>, e: int) -> Option<Seq<char>>
    decreases e, 1int,
{
    if e <= 0 || e > s.len() {
        None
    } else {
        let a = seg_start(s, e);
        proof {
            lemma_seg_start_bounds(s, e);
        }
        if a >= e {
            last_name(s, e - 1)
        } else if s.subrange(a, e) == seq!['.'] {
            if a == 0 {
                None
            } else {
                last_name(s, a - 1)
            }
        } else if s.subrange(a, e) == seq!['.', '.'] {
            None
        } else {
            Some(s.subrange(a, e))
        }
    }
}

/// The final name of the path `s` (`Path::file_name`).
pub open spec fn file_name_of(s: Seq<char>) -> Option<Seq<char>> {
    last_name(s, s.len() as int)
}

/// The position of the last `.` in `s.take(e)`, or -1.
pub open spec fn last_dot(s: Seq<char>, e: int) -> int
    decreases e,
{
    if e <= 0 {
        -1
    } else if s[e - 1] == '.' {
        e - 1
    } else {
        last_dot(s, e - 1)
    }
}

/// The extension of a file name (`Path::extension` on the name): what follows
/// the last `.`, when that `.` is not the first character.
pub open spec fn extension_of_name(name: Seq<char>) -> Option<Seq<char>> {
    let i = last_dot(name, name.len() as int);
    if i <= 0 {
        None
    } else {
        Some(name.skip(i + 1))
    }
}

/// The extension of the path `s` (`Path::extension`).
pub open spec fn extension_of(s: Seq<char>) -> Option<Seq<char>> {
    match file_name_of(s) {
        Some(n) => extension_of_name(n),
        None => None,
    }
}

/// A component starts within the text before `e`, holds no `/`, and
/// follows a `/` unless it starts the path.
pub proof fn lemma_seg_start_bounds(s: Seq<char>, e: int)
    requires
        0 <= e <= s.len(),
    ensures
        0 <= seg_start(s, e) <= e,
        forall|k: int| seg_start(s, e) <= k < e ==> s[k] != '/',
        seg_start(s, e) > 0 ==> s[seg_start(s, e) - 1] == '/',
    decreases e,
{
    if e > 0 && s[e - 1] != '/' {
        lemma_seg_start_bounds(s, e - 1);
    }
}

/// Where the component ending at `e` starts.
fn find_seg_start(s: &Vec<char>, e: usize) -> (r: usize)
    requires
        e <= s@.len(),
    ensures
        r == seg_start(s@, e as int),
{
    let mut a = e;
    while a > 0 && s[a - 1] != '/'
        invariant
            a <= e <= s@.len(),
            seg_start(s@, a as int) == seg_start(s@, e as int),
        decreases a,
    {
        a = a - 1;
    }
    a
}

/// The final name of the path `s` (see `file_name_of`).
pub fn file_name(s: &Vec<char>) -> (r: Option<Vec<char>>)
    ensures
        match r {
            Some(n) => file_name_of(s@) == Some(n@),
            None => file_name_of(s@) is None,
        },
{
    let mut e: usize = s.len();
    while e > 0
        invariant
            e <= s@.len(),
            file_name_of(s@) == last_name(s@, e as int),
        decreases e,
    {
        let a = find_seg_start(s, e);
        proof {
            lemma_seg_start_bounds(s@, e as int);
        }
        if a >= e {
            e = e - 1;
        } else {
            let len = e - a;
            let is_dot = len == 1 && s[a] == '.';
            let is_dot_dot = len == 2 && s[a] == '.' && s[a + 1] == '.';
            assert(is_dot <==> s@.subrange(a as int, e as int) == seq!['.']) by {
                if len == 1 && s@[a as int] == '.' {
                    assert(s@.subrange(a as int, e as int) =~= seq!['.']);
                }
                if s@.subrange(a as int, e as int) == seq!['.'] {
                    assert(s@.subrange(a as int, e as int).len() == 1);
                    assert(s@.subrange(a as int, e as int)[0] == s@[a as int]);
                }
            }
            assert(is_dot_dot <==> s@.subrange(a as int, e as int) == seq!['.', '.']) by {
                if len == 2 && s@[a as int] == '.' && s@[a + 1] == '.' {
                    assert(s@.subrange(a as int, e as int) =~= seq!['.', '.']);
                }
                if s@.subrange(a as int, e as int) == seq!['.', '.'] {
                    assert(s@.subrange(a as int, e as int).len() == 2);
                    assert(s@.subrange(a as int, e as int)[0] == s@[a as int]);
                    assert(s@.subrange(a as int, e as int)[1] == s@[a + 1]);
                }
            }
            if is_dot {
                if a == 0 {
                    return None;
                }
                e = a - 1;
            } else if is_dot_dot {
                return None;
            } else {
                let mut name: Vec<char> = Vec::new();
                let mut k = a;
                while k < e
                    invariant
                        a <= k <= e <= s@.len(),
                        name@ == s@.subrange(a as int, k as int),
                    decreases e - k,
                {
                    name.push(s[k]);
                    assert(s@.subrange(a as int, k + 1) =~= s@.subrange(a as int, k as int).push(s@[k as int]));
                    k = k + 1;
                }
                return Some(name);
            }
        }
    }
    None
}

/// The extension of a file name (see `extension_of_name`).
pub fn name_extension(name: &Vec<char>) -> (r: Option<Vec<char>>)
    ensures
        match r {
            Some(x) => extension_of_name(name@) == Some(x@),
            None => extension_of_name(name@) is None,
        },
{
    let mut e: usize = name.len();
    while e > 0 && name[e - 1] != '.'
        invariant
            e <= name@.len(),
            last_dot(name@, e as int) == last_dot(name@, name@.len() as int),
        decreases e,
    {
        e = e - 1;
    }
    if e <= 1 {
        return None;
    }
    let start = e;
    let mut x: Vec<char> = Vec::new();
    let mut k = start;
    while k < name.len()
        invariant
            start <= k <= name@.len(),
            x@ == name@.subrange(start as int, k as int),
        decreases name.len() - k,
    {
        x.push(name[k]);
        assert(name@.subrange(start as int, k + 1) =~= name@.subrange(start as int, k as int).push(name@[k as int]));
        k = k + 1;
    }
    assert(x@ =~= name@.skip(start as int));
    Some(x)
}

/// The extension of the path `s` (see `extension_of`).
pub fn extension(s: &Vec<char>) -> (r: Option<Vec<char>>)
    ensures
        match r {
            Some(x) => extension_of(s@) == Some(x@),
            None => extension_of(s@) is None,
        },
{
    match file_name(s) {
        Some(n) => name_extension(&n),
        None => None,
    }
}

} // verus!
