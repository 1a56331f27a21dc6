//! Path text under POSIX rules: `/` is the only separator and there are no
//! drive or UNC prefixes. Last components, extensions, parents and joins.

use vstd::prelude::*;
use vstd::string::*;

verus! {

/// Index of the last occurrence of `c` in `s`, or -1 when there is none.
pub open spec fn last_index(s: Seq<char>, c: char) -> int
    decreases s.len(),
{
    if s.len() == 0 {
        -1
    } else if s.last() == c {
        s.len() - 1
    } else {
        last_index(s.drop_last(), c)
    }
}

/// The path with trailing separators and trailing non-leading `.` components
/// removed; a path that is all root collapses to `/`.
pub open spec fn trim_end(p: Seq<char>) -> Seq<char>
    decreases p.len(),
{
    if p.len() == 0 {
        p
    } else if p.last() == '/' {
        if p.len() == 1 {
            p
        } else {
            trim_end(p.drop_last())
        }
    } else if p.last() == '.' && p.len() >= 2 && p[p.len() - 2] == '/' {
        if p.len() == 2 {
            seq!['/']
        } else {
            trim_end(p.subrange(0, p.len() - 2))
        }
    } else {
        p
    }
}

/// The last component of a path as text: a normal name, `.`, `..` or `/`,
/// and the empty text for the empty path.
pub open spec fn filename_of(p: Seq<char>) -> Seq<char> {
    let t = trim_end(p);
    if t == seq!['/'] {
        t
    } else {
        t.subrange(last_index(t, '/') + 1, t.len() as int)
    }
}

/// The last component of a path when it is a normal name.
pub open spec fn file_name_of(p: Seq<char>) -> Option<Seq<char>> {
    let c = filename_of(p);
    if c.len() == 0 || c == seq!['.'] || c == seq!['.', '.'] || c == seq!['/'] {
        None
    } else {
        Some(c)
    }
}

/// ASCII lower case of one character.
pub open spec fn lower_char(c: char) -> char {
    if 'A' <= c && c <= 'Z' {
        ((c as u8) + 32) as char
    } else {
        c
    }
}

/// ASCII lower case of a text, character by character.
pub open spec fn ascii_lower(s: Seq<char>) -> Seq<char> {
    Seq::new(s.len(), |i: int| lower_char(s[i]))
}

/// The extension of a path: what follows the last `.` of its normal last
/// component, in ASCII lower case.
pub open spec fn ext_of(p: Seq<char>) -> Option<Seq<char>> {
    match file_name_of(p) {
        None => None,
        Some(n) => {
            let d = last_index(n, '.');
            if d < 0 {
                None
            } else {
                Some(ascii_lower(n.subrange(d + 1, n.len() as int)))
            }
        },
    }
}

pub open spec fn is_absolute_path(p: Seq<char>) -> bool {
    p.len() > 0 && p[0] == '/'
}

/// The path without its last component, or `None` where there is no such
/// component to drop (the empty path and the root).
pub open spec fn parent_of(p: Seq<char>) -> Option<Seq<char>> {
    let t = trim_end(p);
    if t.len() == 0 || t == seq!['/'] {
        None
    } else {
        let k = last_index(t, '/');
        if k < 0 {
            Some(Seq::<char>::empty())
        } else if k == 0 {
            Some(seq!['/'])
        } else {
            Some(trim_end(t.subrange(0, k)))
        }
    }
}

/// `base` extended by `rel`; an absolute `rel` replaces `base`.
pub open spec fn join_of(base: Seq<char>, rel: Seq<char>) -> Seq<char> {
    if is_absolute_path(rel) {
        rel
    } else if base.len() == 0 || base.last() == '/' {
        base + rel
    } else {
        base + seq!['/'] + rel
    }
}

pub proof fn lemma_last_index_bounds(s: Seq<char>, c: char)
    ensures
        -1 <= last_index(s, c) < s.len(),
        last_index(s, c) >= 0 ==> s[last_index(s, c)] == c,
        forall|j: int| last_index(s, c) < j < s.len() ==> s[j] != c,
    decreases s.len(),
{
    if s.len() > 0 && s.last() != c {
        lemma_last_index_bounds(s.drop_last(), c);
        assert forall|j: int| last_index(s, c) < j < s.len() implies s[j] != c by {
            if j < s.len() - 1 {
                assert(s.drop_last()[j] == s[j]);
            }
        }
    }
}

/// An extension never holds an ASCII capital, whatever case the path has.
pub proof fn lemma_ext_is_lower_case(p: Seq<char>)
    ensures
        ext_of(p) is Some ==> forall|i: int|
            0 <= i < ext_of(p)->0.len() ==> !('A' <= #[trigger] ext_of(p)->0[i] && ext_of(p)->0[i]
                <= 'Z'),
{
}

/// Position of the last `c` in `s`.
pub fn last_index_of(s: &str, c: char, end: usize) -> (r: Option<usize>)
    requires
        end <= s@.len(),
    ensures
        match r {
            None => last_index(s@.subrange(0, end as int), c) == -1,
            Some(k) => last_index(s@.subrange(0, end as int), c) == k as int,
        },
{
    let mut i: usize = end;
    while i > 0
        invariant
            i <= end <= s@.len(),
            last_index(s@.subrange(0, end as int), c) == last_index(s@.subrange(0, i as int), c),
        decreases i,
    {
        assert(s@.subrange(0, i as int).drop_last() =~= s@.subrange(0, i - 1));
        if s.get_char(i - 1) == c {
            return Some(i - 1);
        }
        i = i - 1;
    }
    None
}

/// Length of the prefix of `s` that `trim_end` keeps.
pub fn trimmed_len(s: &str) -> (n: usize)
    ensures
        n <= s@.len(),
        trim_end(s@) == s@.subrange(0, n as int),
{
    let mut n: usize = s.unicode_len();
    let mut done = false;
    assert(s@.subrange(0, n as int) =~= s@);
    while !done && n > 0
        invariant
            n <= s@.len(),
            trim_end(s@.subrange(0, n as int)) == trim_end(s@),
            done ==> trim_end(s@.subrange(0, n as int)) == s@.subrange(0, n as int),
        decreases n + (if done { 0int } else { 1int }),
    {
        let ghost p = s@.subrange(0, n as int);
        let c = s.get_char(n - 1);
        if c == '/' {
            if n == 1 {
                done = true;
            } else {
                assert(p.drop_last() =~= s@.subrange(0, n - 1));
                n = n - 1;
            }
        } else if c == '.' && n >= 2 && s.get_char(n - 2) == '/' {
            if n == 2 {
                assert(s@.subrange(0, 1) =~= seq!['/']);
                n = 1;
                done = true;
            } else {
                assert(p.subrange(0, p.len() - 2) =~= s@.subrange(0, n - 2));
                n = n - 2;
            }
        } else {
            done = true;
        }
    }
    n
}

/// Whether the path is absolute, that is starts at the root.
pub fn is_absolute(s: &str) -> (r: bool)
    ensures
        r == is_absolute_path(s@),
{
    s.unicode_len() > 0 && s.get_char(0) == '/'
}

/// Bounds of the last component of `s` within `s`.
pub fn filename_range(s: &str) -> (r: (usize, usize))
    ensures
        r.0 <= r.1 <= s@.len(),
        filename_of(s@) == s@.subrange(r.0 as int, r.1 as int),
{
    let n = trimmed_len(s);
    let ghost t = s@.subrange(0, n as int);
    if n == 1 && s.get_char(0) == '/' {
        assert(t =~= seq!['/']);
        return (0, 1);
    }
    assert(t != seq!['/']) by {
        if t == seq!['/'] {
            assert(t.len() == 1 && t[0] == '/');
            assert(t[0] == s@[0]);
        }
    }
    let k = last_index_of(s, '/', n);
    proof {
        lemma_last_index_bounds(t, '/');
    }
    let a: usize = match k {
        None => 0,
        Some(k) => k + 1,
    };
    assert(t.subrange(a as int, n as int) =~= s@.subrange(a as int, n as int));
    (a, n)
}

/// The last component of a path as text; see `filename_of`.
pub fn filename_text(s: &str) -> (r: String)
    ensures
        r@ == filename_of(s@),
{
    let (a, b) = filename_range(s);
    s.substring_char(a, b).to_owned()
}

/// The extension of a path; see `ext_of`.
pub fn ext_text(s: &str) -> (r: Option<String>)
    ensures
        match r {
            None => ext_of(s@).is_none(),
            Some(e) => ext_of(s@) == Some(e@),
        },
{
    let (a, b) = filename_range(s);
    let name = s.substring_char(a, b);
    let len = b - a;
    assert(name@.subrange(0, len as int) =~= name@);
    if len == 0 || (len == 1 && name.get_char(0) == '.') || (len == 2 && name.get_char(0) == '.'
        && name.get_char(1) == '.') || (len == 1 && name.get_char(0) == '/') {
        proof {
            if len == 1 && name@[0] == '.' {
                assert(name@ =~= seq!['.']);
            }
            if len == 1 && name@[0] == '/' {
                assert(name@ =~= seq!['/']);
            }
            if len == 2 && name@[0] == '.' && name@[1] == '.' {
                assert(name@ =~= seq!['.', '.']);
            }
        }
        return None;
    }
    assert(file_name_of(s@) == Some(name@)) by {
        if name@ == seq!['.'] || name@ == seq!['/'] {
            assert(name@[0] == seq!['.'][0] || name@[0] == seq!['/'][0]);
        }
        if name@ == seq!['.', '.'] {
            assert(name@[0] == '.' && name@[1] == '.');
        }
    }
    proof {
        lemma_last_index_bounds(name@, '.');
    }
    match last_index_of(name, '.', len) {
        None => None,
        Some(d) => {
            let tail = name.substring_char(d + 1, len);
            Some(ascii_lowercase(tail))
        },
    }
}

/// The parent of a path; see `parent_of`.
pub fn parent_text(s: &str) -> (r: Option<String>)
    ensures
        match r {
            None => parent_of(s@).is_none(),
            Some(q) => parent_of(s@) == Some(q@),
        },
{
    let n = trimmed_len(s);
    let ghost t = s@.subrange(0, n as int);
    proof {
        lemma_last_index_bounds(t, '/');
    }
    if n == 0 {
        return None;
    }
    if n == 1 && s.get_char(0) == '/' {
        assert(t =~= seq!['/']);
        return None;
    }
    assert(t != seq!['/']) by {
        if t == seq!['/'] {
            assert(t.len() == 1 && t[0] == '/');
            assert(t[0] == s@[0]);
        }
    }
    match last_index_of(s, '/', n) {
        None => {
            let e = s.substring_char(0, 0);
            assert(e@ =~= Seq::<char>::empty());
            Some(e.to_owned())
        },
        Some(k) => {
            if k == 0 {
                let root = s.substring_char(0, 1);
                assert(root@ =~= seq!['/']);
                Some(root.to_owned())
            } else {
                let head = s.substring_char(0, k);
                assert(head@ =~= t.subrange(0, k as int));
                let m = trimmed_len(head);
                let kept = s.substring_char(0, m);
                assert(kept@ =~= head@.subrange(0, m as int));
                Some(kept.to_owned())
            }
        },
    }
}

/// `base` extended by `rel`; see `join_of`.
pub fn join_text(base: &str, rel: &str) -> (r: String)
    ensures
        r@ == join_of(base@, rel@),
{
    if is_absolute(rel) {
        return rel.to_owned();
    }
    let n = base.unicode_len();
    if n == 0 || base.get_char(n - 1) == '/' {
        base.to_owned().concat(rel)
    } else {
        proof {
            reveal_strlit("/");
        }
        let r = base.to_owned().concat("/").concat(rel);
        assert(r@ =~= base@ + seq!['/'] + rel@);
        r
    }
}

/// Relies on str::to_ascii_lowercase: ASCII capitals become small letters,
/// every other character stays as it is.
#[verifier::external_body]
fn ascii_lowercase(s: &str) -> (r: String)
    ensures
        r@ == ascii_lower(s@),
{
    s.to_ascii_lowercase()
}

} // verus!
