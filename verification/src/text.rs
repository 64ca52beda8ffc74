//! Character-sequence helpers: substring search and decimal formatting.
//!
//! The diagnostic messages surfaced by the native boundary are plain text;
//! the error module scans them for known phrasings. Everything here works on
//! `Seq<char>` views so the contracts stay independent of byte encodings.

use vstd::prelude::*;

verus! {

/// `pat` occurs in `s` starting at position `i`.
pub open spec fn matches_at(s: Seq<char>, pat: Seq<char>, i: int) -> bool {
    0 <= i && i + pat.len() <= s.len() && s.subrange(i, i + pat.len()) == pat
}

/// The first position at or after `from` where `pat` occurs in `s`, if any.
pub open spec fn find_from(s: Seq<char>, pat: Seq<char>, from: nat) -> Option<int>
    decreases s.len() + 1 - from,
{
    if from + pat.len() > s.len() {
        None
    } else if s.subrange(from as int, from + pat.len() as int) == pat {
        Some(from as int)
    } else {
        find_from(s, pat, from + 1)
    }
}

/// `pat` occurs somewhere in `s`.
pub open spec fn occurs(s: Seq<char>, pat: Seq<char>) -> bool {
    exists|i: int| matches_at(s, pat, i)
}

/// What `find_from` returns is the first occurrence at or after `from`.
pub proof fn lemma_find_from_correct(s: Seq<char>, pat: Seq<char>, from: nat)
    ensures
        match find_from(s, pat, from) {
            Some(i) => matches_at(s, pat, i) && from <= i && (forall|j: int|
                from <= j < i ==> !matches_at(s, pat, j)),
            None => forall|j: int| from <= j ==> !matches_at(s, pat, j),
        },
    decreases s.len() + 1 - from,
{
    if from + pat.len() > s.len() {
        assert forall|j: int| from <= j implies !matches_at(s, pat, j) by {
            assert(j + pat.len() > s.len());
        }
    } else if s.subrange(from as int, from + pat.len() as int) == pat {
    } else {
        lemma_find_from_correct(s, pat, from + 1);
        assert(!matches_at(s, pat, from as int));
    }
}

/// Find the first occurrence of `pat` in `s` at or after position `from`
/// (positions count characters, not bytes).
pub fn find_sub_from(s: &str, pat: &str, from: usize) -> (r: Option<usize>)
    ensures
        r matches Some(i) ==> find_from(s@, pat@, from as nat) == Some(i as int),
        r is None ==> find_from(s@, pat@, from as nat) is None,
{
    let n = s.unicode_len();
    let m = pat.unicode_len();
    if m > n || from > n - m {
        proof {
            assert(find_from(s@, pat@, from as nat) is None);
        }
        return None;
    }
    let mut i: usize = from;
    loop
        invariant
            from <= i,
            m <= n,
            i <= n - m,
            n == s@.len(),
            m == pat@.len(),
            find_from(s@, pat@, from as nat) == find_from(s@, pat@, i as nat),
        decreases n - i,
    {
        let mut j: usize = 0;
        let mut hit = true;
        while hit && j < m
            invariant
                0 <= j <= m,
                m <= n,
                i <= n - m,
                n == s@.len(),
                m == pat@.len(),
                hit ==> forall|k: int| 0 <= k < j ==> s@[i + k] == pat@[k],
                !hit ==> s@.subrange(i as int, i + m) != pat@,
            decreases m - j, (if hit { 1int } else { 0int }),
        {
            if s.get_char(i + j) != pat.get_char(j) {
                proof {
                    assert(s@.subrange(i as int, i + m)[j as int] != pat@[j as int]);
                }
                hit = false;
            } else {
                j += 1;
            }
        }
        if hit {
            proof {
                assert(s@.subrange(i as int, i + m) =~= pat@);
                assert(find_from(s@, pat@, i as nat) == Some(i as int));
            }
            return Some(i);
        }
        proof {
            assert(find_from(s@, pat@, i as nat) == find_from(s@, pat@, (i + 1) as nat));
        }
        if i == n - m {
            proof {
                assert(find_from(s@, pat@, (i + 1) as nat) is None);
            }
            return None;
        }
        i += 1;
    }
}

/// Whether `pat` occurs anywhere in `s`.
pub fn contains_sub(s: &str, pat: &str) -> (r: bool)
    ensures
        r == occurs(s@, pat@),
{
    let r = find_sub_from(s, pat, 0);
    proof {
        lemma_find_from_correct(s@, pat@, 0);
        match find_from(s@, pat@, 0) {
            Some(i) => {
                assert(matches_at(s@, pat@, i));
            },
            None => {
                assert forall|i: int| !matches_at(s@, pat@, i) by {
                    if 0 <= i {
                        assert(!matches_at(s@, pat@, i));
                    }
                }
            },
        }
    }
    r.is_some()
}

/// Whether two strings spell the same characters.
pub fn str_eq(a: &str, b: &str) -> (r: bool)
    ensures
        r == (a@ == b@),
{
    let n = a.unicode_len();
    if n != b.unicode_len() {
        proof {
            assert(a@ != b@);
        }
        return false;
    }
    let mut i: usize = 0;
    while i < n
        invariant
            i <= n,
            n == a@.len(),
            n == b@.len(),
            forall|k: int| 0 <= k < i ==> a@[k] == b@[k],
        decreases n - i,
    {
        if a.get_char(i) != b.get_char(i) {
            return false;
        }
        i += 1;
    }
    proof {
        assert(a@ =~= b@);
    }
    true
}

/// The decimal digit character for a value below ten.
pub open spec fn dec_digit(d: nat) -> char {
    ((48 + d) as u8) as char
}

/// The decimal spelling of a natural number, most significant digit first.
pub open spec fn spec_dec_u64(n: nat) -> Seq<char>
    decreases n,
{
    if n < 10 {
        seq![dec_digit(n)]
    } else {
        spec_dec_u64(n / 10).push(dec_digit(n % 10))
    }
}

/// The decimal spelling of an integer, with a leading minus sign if negative.
pub open spec fn spec_dec_i64(v: int) -> Seq<char> {
    if v >= 0 {
        spec_dec_u64(v as nat)
    } else {
        seq!['-'] + spec_dec_u64((-v) as nat)
    }
}

/// The character for a single decimal digit.
fn digit_str(d: u64) -> (r: &'static str)
    requires
        d < 10,
    ensures
        r@ == seq![dec_digit(d as nat)],
{
    proof {
        reveal_strlit("0");
        reveal_strlit("1");
        reveal_strlit("2");
        reveal_strlit("3");
        reveal_strlit("4");
        reveal_strlit("5");
        reveal_strlit("6");
        reveal_strlit("7");
        reveal_strlit("8");
        reveal_strlit("9");
    }
    let r = match d {
        0 => "0",
        1 => "1",
        2 => "2",
        3 => "3",
        4 => "4",
        5 => "5",
        6 => "6",
        7 => "7",
        8 => "8",
        _ => "9",
    };
    proof {
        assert(r@ =~= seq![dec_digit(d as nat)]);
    }
    r
}

/// Format a number in decimal.
pub fn fmt_u64(n: u64) -> (s: String)
    ensures
        s@ == spec_dec_u64(n as nat),
    decreases n,
{
    if n < 10 {
        digit_str(n).to_owned()
    } else {
        let s = fmt_u64(n / 10);
        let s = s.concat(digit_str(n % 10));
        proof {
            assert(s@ =~= spec_dec_u64(n as nat));
        }
        s
    }
}

/// Format a signed number in decimal.
pub fn fmt_i64(v: i64) -> (s: String)
    ensures
        s@ == spec_dec_i64(v as int),
{
    if v >= 0 {
        fmt_u64(v as u64)
    } else {
        let magnitude: u64 = if v == i64::MIN {
            9223372036854775808u64
        } else {
            (-v) as u64
        };
        let mut s = "-".to_owned();
        proof {
            reveal_strlit("-");
        }
        s.append(fmt_u64(magnitude).as_str());
        proof {
            assert(s@ =~= spec_dec_i64(v as int));
        }
        s
    }
}

} // verus!
