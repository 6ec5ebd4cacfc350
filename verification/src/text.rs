//! Verified text helpers: whitespace trimming, substring search, and
//! stripping a leading run of `v` characters from a version tag.

use vstd::prelude::*;
use vstd::string::*;

verus! {

/// Whitespace characters recognized when trimming a line of user input.
pub open spec fn is_space(c: char) -> bool {
    c == ' ' || c == '\t' || c == '\r' || c == '\n'
}

/// The sequence with its leading whitespace removed.
pub open spec fn trim_start_spec(s: Seq<char>) -> Seq<char>
    decreases s.len(),
{
    if s.len() > 0 && is_space(s[0]) {
        trim_start_spec(s.drop_first())
    } else {
        s
    }
}

/// The sequence with its trailing whitespace removed.
pub open spec fn trim_end_spec(s: Seq<char>) -> Seq<char>
    decreases s.len(),
{
    if s.len() > 0 && is_space(s[s.len() - 1]) {
        trim_end_spec(s.drop_last())
    } else {
        s
    }
}

/// The sequence with leading and trailing whitespace removed.
pub open spec fn trim_spec(s: Seq<char>) -> Seq<char> {
    trim_end_spec(trim_start_spec(s))
}

/// Computes the character bounds `(i, j)` such that `s[i..j]` is `s` trimmed
/// of leading and trailing whitespace.
pub fn trim_bounds(s: &str) -> (r: (usize, usize))
    ensures
        r.0 <= r.1 <= s@.len(),
        trim_spec(s@) == s@.subrange(r.0 as int, r.1 as int),
{
    let n = s.unicode_len();
    let mut i: usize = 0;
    proof {
        assert(s@.subrange(0, n as int) =~= s@);
    }
    loop
        invariant
            i <= n,
            n == s@.len(),
            trim_start_spec(s@) == trim_start_spec(s@.subrange(i as int, n as int)),
        ensures
            i <= n,
            trim_start_spec(s@) == s@.subrange(i as int, n as int),
        decreases n - i,
    {
        if i < n {
            let c = s.get_char(i);
            if c == ' ' || c == '\t' || c == '\r' || c == '\n' {
                proof {
                    assert(s@.subrange(i as int, n as int).drop_first() =~= s@.subrange(
                        i + 1,
                        n as int,
                    ));
                }
                i = i + 1;
            } else {
                proof {
                    assert(s@.subrange(i as int, n as int)[0] == s@[i as int]);
                }
                break ;
            }
        } else {
            proof {
                assert(s@.subrange(i as int, n as int) =~= Seq::<char>::empty());
            }
            break ;
        }
    }
    let mut j: usize = n;
    loop
        invariant
            i <= j <= n,
            n == s@.len(),
            trim_start_spec(s@) == s@.subrange(i as int, n as int),
            trim_end_spec(s@.subrange(i as int, n as int)) == trim_end_spec(
                s@.subrange(i as int, j as int),
            ),
        ensures
            i <= j <= n,
            trim_spec(s@) == s@.subrange(i as int, j as int),
        decreases j,
    {
        if j > i {
            let c = s.get_char(j - 1);
            if c == ' ' || c == '\t' || c == '\r' || c == '\n' {
                proof {
                    assert(s@.subrange(i as int, j as int).drop_last() =~= s@.subrange(
                        i as int,
                        j - 1,
                    ));
                    assert(s@.subrange(i as int, j as int).last() == s@[j - 1]);
                }
                j = j - 1;
            } else {
                proof {
                    assert(s@.subrange(i as int, j as int).last() == s@[j - 1]);
                }
                break ;
            }
        } else {
            proof {
                assert(s@.subrange(i as int, j as int) =~= Seq::<char>::empty());
            }
            break ;
        }
    }
    (i, j)
}

/// The tag with every leading `v` character removed.
pub open spec fn strip_v_spec(s: Seq<char>) -> Seq<char>
    decreases s.len(),
{
    if s.len() > 0 && s[0] == 'v' {
        strip_v_spec(s.drop_first())
    } else {
        s
    }
}

/// Removes every leading `v` from a version tag, so `v13.0.0` becomes
/// `13.0.0`.
pub fn strip_v_prefix(tag: &str) -> (r: String)
    ensures
        r@ == strip_v_spec(tag@),
{
    let n = tag.unicode_len();
    let mut i: usize = 0;
    proof {
        assert(tag@.subrange(0, n as int) =~= tag@);
    }
    loop
        invariant
            i <= n,
            n == tag@.len(),
            strip_v_spec(tag@) == strip_v_spec(tag@.subrange(i as int, n as int)),
        ensures
            i <= n,
            strip_v_spec(tag@) == tag@.subrange(i as int, n as int),
        decreases n - i,
    {
        if i < n {
            let c = tag.get_char(i);
            if c == 'v' {
                proof {
                    assert(tag@.subrange(i as int, n as int).drop_first() =~= tag@.subrange(
                        i + 1,
                        n as int,
                    ));
                }
                i = i + 1;
            } else {
                proof {
                    assert(tag@.subrange(i as int, n as int)[0] == tag@[i as int]);
                }
                break ;
            }
        } else {
            proof {
                assert(tag@.subrange(i as int, n as int) =~= Seq::<char>::empty());
            }
            break ;
        }
    }
    let rest = tag.substring_char(i, n);
    String::from_str(rest)
}

/// `sub` occurs in `s` starting at character position `i`.
pub open spec fn match_at(s: Seq<char>, sub: Seq<char>, i: int) -> bool {
    forall|k: int| 0 <= k < sub.len() ==> s[i + k] == sub[k]
}

/// `sub` occurs somewhere in `s`.
pub open spec fn has_substr(s: Seq<char>, sub: Seq<char>) -> bool {
    exists|i: int| 0 <= i && i + sub.len() <= s.len() && match_at(s, sub, i)
}

/// Substring search: does `needle` occur anywhere in `hay`?
pub fn contains_str(hay: &str, needle: &str) -> (b: bool)
    ensures
        b == has_substr(hay@, needle@),
{
    let n = hay.unicode_len();
    let m = needle.unicode_len();
    if m > n {
        return false;
    }
    let mut i: usize = 0;
    loop
        invariant
            m <= n,
            n == hay@.len(),
            m == needle@.len(),
            i <= n - m + 1,
            forall|j: int| 0 <= j < i ==> !match_at(hay@, needle@, j),
        decreases n - m + 1 - i,
    {
        if i <= n - m {
            let mut k: usize = 0;
            let mut mismatch = false;
            loop
                invariant_except_break
                    !mismatch,
                    forall|k2: int| 0 <= k2 < k ==> hay@[i + k2] == needle@[k2],
                invariant
                    k <= m,
                    m <= n,
                    i <= n - m,
                    n == hay@.len(),
                    m == needle@.len(),
                ensures
                    mismatch ==> !match_at(hay@, needle@, i as int),
                    !mismatch ==> match_at(hay@, needle@, i as int),
                decreases m - k,
            {
                if k < m {
                    if hay.get_char(i + k) != needle.get_char(k) {
                        proof {
                            assert(hay@[i + k] != needle@[k as int]);
                        }
                        mismatch = true;
                        break ;
                    }
                    k = k + 1;
                } else {
                    proof {
                        assert forall|k2: int| 0 <= k2 < needle@.len() implies hay@[i as int + k2]
                            == needle@[k2] by {
                            assert(hay@[i + k2] == needle@[k2]);
                        }
                        assert(match_at(hay@, needle@, i as int));
                    }
                    break ;
                }
            }
            if !mismatch {
                return true;
            }
            i = i + 1;
        } else {
            proof {
                assert(forall|j: int| 0 <= j && j + m <= n ==> !match_at(hay@, needle@, j));
            }
            return false;
        }
    }
}

} // verus!
