use vstd::prelude::*;

verus! {

/// The ASCII whitespace characters that command output is trimmed of
/// before a sentinel is matched against it. Unicode-only whitespace is
/// left in place: the backends' command output carries none.
pub open spec fn is_space_char(c: char) -> bool {
    c == ' ' || c == '\t' || c == '\n' || c == '\r'
}

/// `s` with its leading whitespace characters removed.
pub open spec fn trim_front(s: Seq<char>) -> Seq<char>
    decreases s.len(),
{
    if s.len() > 0 && is_space_char(s[0]) {
        trim_front(s.drop_first())
    } else {
        s
    }
}

/// `s` with its trailing whitespace characters removed.
pub open spec fn trim_back(s: Seq<char>) -> Seq<char>
    decreases s.len(),
{
    if s.len() > 0 && is_space_char(s.last()) {
        trim_back(s.drop_last())
    } else {
        s
    }
}

/// `s` with whitespace removed from both ends.
pub open spec fn trimmed(s: Seq<char>) -> Seq<char> {
    trim_back(trim_front(s))
}

/// `p` occurs as a contiguous run somewhere inside `s`.
pub open spec fn contains_seq(s: Seq<char>, p: Seq<char>) -> bool {
    exists|i: int| 0 <= i && i + p.len() <= s.len() && p =~= #[trigger] s.subrange(i, i + p.len())
}

/// Whether `s` begins with `p`, compared character by character.
pub fn str_starts_with(s: &str, p: &str) -> (r: bool)
    ensures
        r == p@.is_prefix_of(s@),
{
    let n = s.unicode_len();
    let m = p.unicode_len();
    if m > n {
        return false;
    }
    let mut i: usize = 0;
    while i < m
        invariant
            m <= n,
            i <= m,
            n == s@.len(),
            m == p@.len(),
            forall|j: int| 0 <= j < i ==> s@[j] == p@[j],
        decreases m - i,
    {
        if s.get_char(i) != p.get_char(i) {
            proof {
                assert(!p@.is_prefix_of(s@)) by {
                    assert(s@.subrange(0, m as int)[i as int] == s@[i as int]);
                }
            }
            return false;
        }
        i += 1;
    }
    proof {
        assert(p@ =~= s@.subrange(0, m as int));
    }
    true
}

/// Whether the character sequences of `a` and `b` are equal.
pub fn str_eq(a: &str, b: &str) -> (r: bool)
    ensures
        r == (a@ == b@),
{
    let n = a.unicode_len();
    let m = b.unicode_len();
    if n != m {
        return false;
    }
    let mut i: usize = 0;
    while i < n
        invariant
            i <= n,
            n == a@.len(),
            n == b@.len(),
            forall|j: int| 0 <= j < i ==> a@[j] == b@[j],
        decreases n - i,
    {
        if a.get_char(i) != b.get_char(i) {
            return false;
        }
        i += 1;
    }
    proof {
        assert(a@ =~= b@);
    }
    true
}

/// Whether `p` occurs as a contiguous run somewhere inside `s`.
pub fn str_contains(s: &str, p: &str) -> (r: bool)
    ensures
        r == contains_seq(s@, p@),
{
    let n = s.unicode_len();
    let m = p.unicode_len();
    if m > n {
        return false;
    }
    if m == 0 {
        proof {
            assert(p@ =~= s@.subrange(0, 0 + p@.len() as int));
        }
        return true;
    }
    let mut i: usize = 0;
    while i <= n - m
        invariant
            0 < m <= n,
            i <= n - m + 1,
            n == s@.len(),
            m == p@.len(),
            forall|k: int| 0 <= k < i ==> !(p@ =~= #[trigger] s@.subrange(k, k + m)),
        decreases n - m + 1 - i,
    {
        let window = s.substring_char(i, i + m);
        if str_eq(window, p) {
            proof {
                assert(p@ =~= s@.subrange(i as int, i + m));
            }
            return true;
        }
        i += 1;
    }
    proof {
        assert(!contains_seq(s@, p@)) by {
            assert(forall|k: int|
                0 <= k && k + p@.len() <= s@.len() ==> !(p@ =~= #[trigger] s@.subrange(k, k + m)));
        }
    }
    false
}

/// The index of the first character of `s@` that is not whitespace
/// (the length of `s@` when every character is whitespace).
fn first_non_space(s: &str) -> (r: usize)
    ensures
        r <= s@.len(),
        forall|j: int| 0 <= j < r ==> is_space_char(s@[j]),
        r < s@.len() ==> !is_space_char(s@[r as int]),
        trim_front(s@) == s@.skip(r as int),
{
    let n = s.unicode_len();
    let mut i: usize = 0;
    proof {
        assert(s@.skip(0) =~= s@);
    }
    while i < n
        invariant
            i <= n,
            n == s@.len(),
            forall|j: int| 0 <= j < i ==> is_space_char(s@[j]),
            trim_front(s@) == trim_front(s@.skip(i as int)),
        decreases n - i,
    {
        if !is_space(s.get_char(i)) {
            return i;
        }
        proof {
            assert(s@.skip(i as int).drop_first() =~= s@.skip(i + 1));
        }
        i += 1;
    }
    proof {
        assert(s@.skip(n as int) =~= Seq::<char>::empty());
    }
    n
}

/// Executable check for [`is_space_char`].
pub fn is_space(c: char) -> (r: bool)
    ensures
        r == is_space_char(c),
{
    c == ' ' || c == '\t' || c == '\n' || c == '\r'
}

/// `s` unchanged when it already ends with a path separator, and with
/// one appended otherwise.
pub open spec fn with_trailing_slash(s: Seq<char>) -> Seq<char> {
    if s.len() > 0 && s.last() == '/' {
        s
    } else {
        s.push('/')
    }
}

/// Appends the trailing path separator that directory paths carry
/// through the workflows, unless it is already there.
pub fn ensure_trailing_slash(s: &str) -> (r: String)
    ensures
        r@ == with_trailing_slash(s@),
{
    let n = s.unicode_len();
    if n > 0 && s.get_char(n - 1) == '/' {
        String::from_str(s)
    } else {
        let mut o = String::from_str(s);
        o.append("/");
        proof {
            reveal_strlit("/");
            assert(o@ =~= s@.push('/'));
        }
        o
    }
}

/// `s` with whitespace removed from both ends, as [`trimmed`] describes.
pub fn str_trim(s: &str) -> (r: &str)
    ensures
        r@ == trimmed(s@),
{
    let n = s.unicode_len();
    let lo = first_non_space(s);
    if lo == n {
        proof {
            assert(s@.skip(n as int) =~= Seq::<char>::empty());
            assert(s@.subrange(n as int, n as int) =~= Seq::<char>::empty());
            assert(trim_back(Seq::<char>::empty()) == Seq::<char>::empty());
        }
        return s.substring_char(n, n);
    }
    let mut hi: usize = n;
    proof {
        assert(s@.skip(lo as int) =~= s@.subrange(lo as int, n as int));
    }
    while hi > lo + 1 && is_space(s.get_char(hi - 1))
        invariant
            lo < hi <= n,
            n == s@.len(),
            lo < s@.len(),
            !is_space_char(s@[lo as int]),
            trim_front(s@) == s@.skip(lo as int),
            trim_back(s@.skip(lo as int)) == trim_back(s@.subrange(lo as int, hi as int)),
        decreases hi,
    {
        proof {
            assert(s@.subrange(lo as int, hi as int).drop_last() =~= s@.subrange(
                lo as int,
                hi - 1,
            ));
            assert(s@.subrange(lo as int, hi as int).last() == s@[hi - 1]);
        }
        hi -= 1;
    }
    proof {
        let piece = s@.subrange(lo as int, hi as int);
        if hi == lo + 1 {
            if is_space_char(s@[lo as int]) {
                assert(false);
            }
            assert(piece.last() == s@[lo as int]);
            assert(trim_back(piece) == piece);
        } else {
            assert(piece.last() == s@[hi - 1]);
            assert(trim_back(piece) == piece);
        }
    }
    s.substring_char(lo, hi)
}

} // verus!
