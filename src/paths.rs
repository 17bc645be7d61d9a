//! The names of the files that encryption and decryption write.

use vstd::prelude::*;
use vstd::string::{StrSliceExecFns, StringExecFns};

verus! {

/// The suffix that encryption appends to a file's path.
pub const FILE_EXTENSION: &'static str = ".ncrypt";

/// The characters of the suffix.
pub open spec fn extension() -> Seq<char> {
    seq!['.', 'n', 'c', 'r', 'y', 'p', 't']
}

/// Whether `p` occurs in `s` at `i`.
pub open spec fn occurs_at(s: Seq<char>, p: Seq<char>, i: int) -> bool {
    0 <= i && i + p.len() <= s.len() && s.subrange(i, i + p.len()) == p
}

/// The first index from `i` on at which `p` occurs in `s`, or -1.
pub open spec fn first_match(s: Seq<char>, p: Seq<char>, i: int) -> int
    decreases s.len() + 1 - i,
{
    if i < 0 || i + p.len() > s.len() {
        -1
    } else if s.subrange(i, i + p.len()) == p {
        i
    } else {
        first_match(s, p, i + 1)
    }
}

/// `s` without the first occurrence of `p`, or `s` where `p` does not occur.
pub open spec fn strip_first(s: Seq<char>, p: Seq<char>) -> Seq<char> {
    let k = first_match(s, p, 0);
    if k < 0 {
        s
    } else {
        s.subrange(0, k) + s.subrange(k + p.len(), s.len() as int)
    }
}

/// The path that the encryption of `path` is written to.
pub open spec fn encrypted_path_of(path: Seq<char>) -> Seq<char> {
    path + extension()
}

/// The path that the decryption of `path` is written to.
pub open spec fn decrypted_path_of(path: Seq<char>) -> Seq<char> {
    strip_first(path, extension())
}

/// The first match is an occurrence, and none comes before it.
pub proof fn lemma_first_match_is_first(s: Seq<char>, p: Seq<char>, i: int)
    requires
        0 <= i,
    ensures
        first_match(s, p, i) == -1 ==> forall|j: int| i <= j ==> !occurs_at(s, p, j),
        first_match(s, p, i) >= 0 ==> {
            &&& occurs_at(s, p, first_match(s, p, i))
            &&& i <= first_match(s, p, i)
            &&& forall|j: int| i <= j < first_match(s, p, i) ==> !occurs_at(s, p, j)
        },
    decreases s.len() + 1 - i,
{
    if i + p.len() <= s.len() && s.subrange(i, i + p.len()) != p {
        lemma_first_match_is_first(s, p, i + 1);
    }
}

fn chars_of(s: &str) -> (r: Vec<char>)
    ensures
        r@ == s@,
{
    let n = s.unicode_len();
    let mut r: Vec<char> = Vec::new();
    let mut i: usize = 0;
    while i < n
        invariant
            n == s@.len(),
            i <= n,
            r@ == s@.subrange(0, i as int),
        decreases n - i,
    {
        r.push(s.get_char(i));
        i += 1;
        assert(r@ =~= s@.subrange(0, i as int));
    }
    assert(s@.subrange(0, n as int) =~= s@);
    r
}

fn matches_at(s: &Vec<char>, p: &Vec<char>, i: usize) -> (r: bool)
    requires
        i + p@.len() <= s@.len(),
    ensures
        r == (s@.subrange(i as int, i + p@.len()) == p@),
{
    let sl = s.len();
    let mut j: usize = 0;
    while j < p.len()
        invariant
            sl == s@.len(),
            i + p@.len() <= s@.len(),
            j <= p@.len(),
            forall|k: int| 0 <= k < j ==> s@[i + k] == p@[k],
        decreases p@.len() - j,
    {
        if s[i + j] != p[j] {
            assert(s@.subrange(i as int, i + p@.len())[j as int] != p@[j as int]);
            return false;
        }
        j += 1;
    }
    assert(s@.subrange(i as int, i + p@.len()) =~= p@);
    true
}

/// `s` without the first occurrence of `pattern`.
pub fn strip_first_occurrence(s: &str, pattern: &str) -> (r: String)
    ensures
        r@ == strip_first(s@, pattern@),
{
    let cs = chars_of(s);
    let ps = chars_of(pattern);
    let n = cs.len();
    let m = ps.len();
    if m > n {
        assert(first_match(s@, pattern@, 0) == -1);
        return String::from_str(s);
    }
    if m == 0 {
        assert(s@.subrange(0, 0) =~= pattern@);
        assert(first_match(s@, pattern@, 0) == 0);
        assert(s@.subrange(0, 0) + s@.subrange(0, n as int) =~= s@);
        return String::from_str(s);
    }
    let last = n - m;
    let mut i: usize = 0;
    while i <= last
        invariant
            last == n - m,
            n == s@.len(),
            m == pattern@.len(),
            cs@ == s@,
            ps@ == pattern@,
            0 < m <= n,
            i <= last + 1,
            first_match(s@, pattern@, 0) == first_match(s@, pattern@, i as int),
        decreases last + 1 - i,
    {
        if matches_at(&cs, &ps, i) {
            let head = s.substring_char(0, i);
            let tail = s.substring_char(i + m, n);
            let r = String::from_str(head).concat(tail);
            return r;
        }
        i += 1;
    }
    assert(first_match(s@, pattern@, i as int) == -1);
    String::from_str(s)
}

/// The path that the encryption of `path` is written to: `path` and the suffix.
pub fn encrypted_path(path: &str) -> (r: String)
    ensures
        r@ == encrypted_path_of(path@),
{
    proof {
        reveal_strlit(".ncrypt");
    }
    assert(FILE_EXTENSION@ =~= extension());
    String::from_str(path).concat(FILE_EXTENSION)
}

/// The path that the decryption of `path` is written to: `path` without the first
/// occurrence of the suffix.
pub fn decrypted_path(path: &str) -> (r: String)
    ensures
        r@ == decrypted_path_of(path@),
{
    proof {
        reveal_strlit(".ncrypt");
    }
    assert(FILE_EXTENSION@ =~= extension());
    strip_first_occurrence(path, FILE_EXTENSION)
}

} // verus!
