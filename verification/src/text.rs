//! Verified text helpers shared by the parsing and formatting modules:
//! splitting a blob into lines, splitting a line into whitespace-separated
//! tokens, substring search, and decimal rendering of small integers.

use vstd::prelude::*;
use vstd::string::StrSliceExecFns;
use vstd::string::StringExecFns;

verus! {

/// The whitespace characters that separate tokens in the mixer tool's
/// output (ASCII whitespace; the tool prints nothing wider).
pub open spec fn spec_is_space(c: char) -> bool {
    c == ' ' || c == '\t' || c == '\r' || c == '\n'
}

pub fn is_space(c: char) -> (r: bool)
    ensures
        r == spec_is_space(c),
{
    c == ' ' || c == '\t' || c == '\r' || c == '\n'
}

/// Splitting on `'\n'`, from the left: `cur` is the piece being read,
/// `acc` the pieces already cut.
pub open spec fn split_rec(s: Seq<char>, cur: Seq<char>, acc: Seq<Seq<char>>) -> Seq<Seq<char>>
    decreases s.len(),
{
    if s.len() == 0 {
        acc.push(cur)
    } else if s[0] == '\n' {
        split_rec(s.drop_first(), Seq::empty(), acc.push(cur))
    } else {
        split_rec(s.drop_first(), cur.push(s[0]), acc)
    }
}

/// The lines of a text blob: pieces between newlines, a single trailing
/// newline closing the last line rather than opening an empty one.
pub open spec fn spec_lines(s: Seq<char>) -> Seq<Seq<char>> {
    if s.len() > 0 && s.last() == '\n' {
        split_rec(s.drop_last(), Seq::empty(), Seq::empty())
    } else {
        split_rec(s, Seq::empty(), Seq::empty())
    }
}

/// Splitting yields at least one piece beyond those already cut.
pub proof fn lemma_split_rec_len(s: Seq<char>, cur: Seq<char>, acc: Seq<Seq<char>>)
    ensures
        split_rec(s, cur, acc).len() >= acc.len() + 1,
    decreases s.len(),
{
    if s.len() == 0 {
    } else if s[0] == '\n' {
        lemma_split_rec_len(s.drop_first(), Seq::empty(), acc.push(cur));
    } else {
        lemma_split_rec_len(s.drop_first(), cur.push(s[0]), acc);
    }
}

/// Cuts the text into its lines.
pub fn lines_of(s: &str) -> (r: Vec<String>)
    ensures
        r.deep_view() == spec_lines(s@),
{
    let n: usize = s.unicode_len();
    let m: usize = if n > 0 && s.get_char(n - 1) == '\n' {
        n - 1
    } else {
        n
    };
    let ghost t: Seq<char> = s@.subrange(0, m as int);
    proof {
        if n > 0 && s@.last() == '\n' {
            assert(t =~= s@.drop_last());
        } else {
            assert(t =~= s@);
        }
    }
    let mut acc: Vec<String> = Vec::new();
    let mut start: usize = 0;
    let mut i: usize = 0;
    proof {
        assert(t.subrange(0, m as int) =~= t);
        assert(t.subrange(0, 0) =~= Seq::<char>::empty());
        assert(acc.deep_view() =~= Seq::<Seq<char>>::empty());
    }
    while i < m
        invariant
            start <= i <= m <= n,
            n == s@.len(),
            t == s@.subrange(0, m as int),
            split_rec(t, Seq::empty(), Seq::empty()) == split_rec(
                t.subrange(i as int, m as int),
                t.subrange(start as int, i as int),
                acc.deep_view(),
            ),
        decreases m - i,
    {
        let ghost rest: Seq<char> = t.subrange(i as int, m as int);
        let ghost cur: Seq<char> = t.subrange(start as int, i as int);
        proof {
            assert(rest[0] == s@[i as int]);
            assert(rest.drop_first() =~= t.subrange(i + 1, m as int));
        }
        let c = s.get_char(i);
        if c == '\n' {
            let piece = s.substring_char(start, i);
            proof {
                assert(piece@ =~= cur);
            }
            let ghost before: Seq<Seq<char>> = acc.deep_view();
            acc.push(String::from_str(piece));
            proof {
                assert(acc.deep_view() =~= before.push(cur));
                assert(Seq::<char>::empty() =~= t.subrange(i + 1, i + 1));
            }
            start = i + 1;
        } else {
            proof {
                assert(cur.push(s@[i as int]) =~= t.subrange(start as int, i + 1));
            }
        }
        i += 1;
    }
    let piece = s.substring_char(start, m);
    proof {
        assert(piece@ =~= t.subrange(start as int, m as int));
        assert(t.subrange(m as int, m as int) =~= Seq::<char>::empty());
    }
    let ghost before: Seq<Seq<char>> = acc.deep_view();
    acc.push(String::from_str(piece));
    proof {
        assert(acc.deep_view() =~= before.push(t.subrange(start as int, m as int)));
        assert(acc.deep_view() =~= spec_lines(s@));
    }
    acc
}

/// The needle occurs in the haystack starting at position `i`.
pub open spec fn matches_at(hay: Seq<char>, needle: Seq<char>, i: int) -> bool {
    &&& 0 <= i
    &&& i + needle.len() <= hay.len()
    &&& forall|j: int| 0 <= j < needle.len() ==> hay[i + j] == needle[j]
}

/// The needle occurs somewhere in the haystack.
pub open spec fn spec_contains(hay: Seq<char>, needle: Seq<char>) -> bool {
    exists|i: int| matches_at(hay, needle, i)
}

fn match_at(hay: &str, needle: &str, i: usize) -> (r: bool)
    requires
        i + needle@.len() <= hay@.len(),
    ensures
        r == matches_at(hay@, needle@, i as int),
{
    let nh: usize = hay.unicode_len();
    let nn: usize = needle.unicode_len();
    let mut j: usize = 0;
    while j < nn
        invariant
            j <= nn == needle@.len(),
            i + nn <= nh == hay@.len(),
            forall|k: int| 0 <= k < j ==> hay@[i + k] == needle@[k],
        decreases nn - j,
    {
        if hay.get_char(i + j) != needle.get_char(j) {
            assert(!matches_at(hay@, needle@, i as int));
            return false;
        }
        j += 1;
    }
    true
}

/// Substring search, character by character.
pub fn contains_sub(hay: &str, needle: &str) -> (r: bool)
    ensures
        r == spec_contains(hay@, needle@),
{
    let nh: usize = hay.unicode_len();
    let nn: usize = needle.unicode_len();
    if nn > nh {
        proof {
            assert(forall|i: int| !matches_at(hay@, needle@, i));
        }
        return false;
    }
    let mut i: usize = 0;
    while i <= nh - nn
        invariant
            nn <= nh,
            nh == hay@.len(),
            nn == needle@.len(),
            i <= nh - nn + 1,
            forall|k: int| 0 <= k < i ==> !matches_at(hay@, needle@, k),
        decreases nh - nn + 1 - i,
    {
        if match_at(hay, needle, i) {
            assert(spec_contains(hay@, needle@));
            return true;
        }
        i += 1;
    }
    proof {
        assert forall|k: int| !matches_at(hay@, needle@, k) by {
            if 0 <= k && k + needle@.len() <= hay@.len() {
                assert(k < i);
            }
        }
    }
    false
}

/// Whitespace splitting, from the left: empty pieces are never kept, so
/// runs of whitespace and leading or trailing whitespace produce nothing.
pub open spec fn tokens_rec(s: Seq<char>, cur: Seq<char>, acc: Seq<Seq<char>>) -> Seq<Seq<char>>
    decreases s.len(),
{
    if s.len() == 0 {
        if cur.len() == 0 {
            acc
        } else {
            acc.push(cur)
        }
    } else if spec_is_space(s[0]) {
        tokens_rec(
            s.drop_first(),
            Seq::empty(),
            if cur.len() == 0 {
                acc
            } else {
                acc.push(cur)
            },
        )
    } else {
        tokens_rec(s.drop_first(), cur.push(s[0]), acc)
    }
}

/// The whitespace-separated tokens of a line.
pub open spec fn spec_tokens(s: Seq<char>) -> Seq<Seq<char>> {
    tokens_rec(s, Seq::empty(), Seq::empty())
}

/// Cuts a line into its whitespace-separated tokens.
pub fn tokens_of(s: &str) -> (r: Vec<String>)
    ensures
        r.deep_view() == spec_tokens(s@),
{
    let n: usize = s.unicode_len();
    let mut acc: Vec<String> = Vec::new();
    let mut start: usize = 0;
    let mut i: usize = 0;
    proof {
        assert(s@.subrange(0, n as int) =~= s@);
        assert(s@.subrange(0, 0) =~= Seq::<char>::empty());
        assert(acc.deep_view() =~= Seq::<Seq<char>>::empty());
    }
    while i < n
        invariant
            start <= i <= n == s@.len(),
            spec_tokens(s@) == tokens_rec(
                s@.subrange(i as int, n as int),
                s@.subrange(start as int, i as int),
                acc.deep_view(),
            ),
        decreases n - i,
    {
        let ghost rest: Seq<char> = s@.subrange(i as int, n as int);
        let ghost cur: Seq<char> = s@.subrange(start as int, i as int);
        proof {
            assert(s@.subrange(0, n as int) =~= s@);
            assert(rest[0] == s@[i as int]);
            assert(rest.drop_first() =~= s@.subrange(i + 1, n as int));
        }
        let c = s.get_char(i);
        if is_space(c) {
            if start < i {
                let piece = s.substring_char(start, i);
                proof {
                    assert(piece@ =~= cur);
                }
                let ghost before: Seq<Seq<char>> = acc.deep_view();
                acc.push(String::from_str(piece));
                proof {
                    assert(acc.deep_view() =~= before.push(cur));
                }
            }
            proof {
                assert(Seq::<char>::empty() =~= s@.subrange(i + 1, i + 1));
            }
            start = i + 1;
        } else {
            proof {
                assert(cur.push(s@[i as int]) =~= s@.subrange(start as int, i + 1));
            }
        }
        i += 1;
    }
    if start < n {
        let piece = s.substring_char(start, n);
        proof {
            assert(piece@ =~= s@.subrange(start as int, n as int));
        }
        let ghost before: Seq<Seq<char>> = acc.deep_view();
        acc.push(String::from_str(piece));
        proof {
            assert(acc.deep_view() =~= before.push(s@.subrange(start as int, n as int)));
        }
    }
    acc
}

/// The decimal digit character for a value below ten.
pub open spec fn spec_digit(d: int) -> char {
    if d == 0 {
        '0'
    } else if d == 1 {
        '1'
    } else if d == 2 {
        '2'
    } else if d == 3 {
        '3'
    } else if d == 4 {
        '4'
    } else if d == 5 {
        '5'
    } else if d == 6 {
        '6'
    } else if d == 7 {
        '7'
    } else if d == 8 {
        '8'
    } else {
        '9'
    }
}

/// The decimal rendering of a non-negative integer, without sign or
/// leading zeros (a lone zero renders as "0").
pub open spec fn spec_decimal(n: int) -> Seq<char>
    decreases n,
{
    if n < 10 {
        seq![spec_digit(n)]
    } else {
        spec_decimal(n / 10).push(spec_digit(n % 10))
    }
}

fn digit_str(d: u32) -> (r: &'static str)
    requires
        d < 10,
    ensures
        r@ == seq![spec_digit(d as int)],
{
    proof {
        reveal_strlit("0");
        reveal_strlit("1");
        reveal_strlit("2");
        reveal_strlit("3");
        reveal_strlit("4");
        reveal_strlit("5");
        reveal_strlit("6");
        reveal_strlit("7");
        reveal_strlit("8");
        reveal_strlit("9");
    }
    let r: &'static str = if d == 0 {
        "0"
    } else if d == 1 {
        "1"
    } else if d == 2 {
        "2"
    } else if d == 3 {
        "3"
    } else if d == 4 {
        "4"
    } else if d == 5 {
        "5"
    } else if d == 6 {
        "6"
    } else if d == 7 {
        "7"
    } else if d == 8 {
        "8"
    } else {
        "9"
    };
    proof {
        assert(r@ =~= seq![spec_digit(d as int)]);
    }
    r
}

/// Renders a small integer in decimal.
pub fn u32_to_string(n: u32) -> (r: String)
    ensures
        r@ == spec_decimal(n as int),
    decreases n,
{
    if n < 10 {
        String::from_str(digit_str(n))
    } else {
        let mut s = u32_to_string(n / 10);
        s.append(digit_str(n % 10));
        proof {
            assert(s@ =~= spec_decimal(n as int / 10).push(spec_digit(n as int % 10)));
        }
        s
    }
}

} // verus!
