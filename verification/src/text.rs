//! Text as sequences of characters: the searches and cuts that the URL
//! rewriting and the file naming are stated over, each with an executable
//! counterpart.

use vstd::prelude::*;
use vstd::string::*;

verus! {

/// The position of the first `c` in `s`, or the length of `s` where it holds
/// none.
pub open spec fn first_index(s: Seq<char>, c: char) -> int
    decreases s.len(),
{
    if s.len() == 0 {
        0
    } else if s[0] == c {
        0
    } else {
        1 + first_index(s.skip(1), c)
    }
}

/// The position of the last `c` in `s`, or -1 where it holds none.
pub open spec fn last_index(s: Seq<char>, c: char) -> int
    decreases s.len(),
{
    if s.len() == 0 {
        -1
    } else if s.last() == c {
        s.len() - 1
    } else {
        last_index(s.drop_last(), c)
    }
}

/// `pat` occurs in `s` at position `at`.
pub open spec fn occurs_at(s: Seq<char>, pat: Seq<char>, at: int) -> bool {
    0 <= at && at + pat.len() <= s.len() && s.subrange(at, at + pat.len()) == pat
}

/// `pat` occurs somewhere in `s`.
pub open spec fn has_substring(s: Seq<char>, pat: Seq<char>) -> bool {
    exists|at: int| occurs_at(s, pat, at)
}

/// `s` ends with the character `c`.
pub open spec fn ends_with_char(s: Seq<char>, c: char) -> bool {
    s.len() > 0 && s.last() == c
}

/// `s` without its last `n` characters; empty where it has no more than `n`.
pub open spec fn without_last(s: Seq<char>, n: nat) -> Seq<char> {
    if s.len() <= n {
        Seq::empty()
    } else {
        s.take(s.len() - n)
    }
}

/// The character that writes the decimal digit `d`.
pub open spec fn digit_char(d: nat) -> char {
    if d == 0 {
        '0'
    } else if d == 1 {
        '1'
    } else if d == 2 {
        '2'
    } else if d == 3 {
        '3'
    } else if d == 4 {
        '4'
    } else if d == 5 {
        '5'
    } else if d == 6 {
        '6'
    } else if d == 7 {
        '7'
    } else if d == 8 {
        '8'
    } else {
        '9'
    }
}

/// `n` written in decimal, without sign or leading zeros.
pub open spec fn decimal_digits(n: nat) -> Seq<char>
    decreases n,
{
    if n < 10 {
        seq![digit_char(n)]
    } else {
        decimal_digits(n / 10).push(digit_char(n % 10))
    }
}

/// The first `c` of `s` is at `i` when nothing before `i` is `c` and `i` is
/// either the end of `s` or holds `c`.
pub proof fn lemma_first_index(s: Seq<char>, c: char, i: int)
    requires
        0 <= i <= s.len(),
        forall|j: int| 0 <= j < i ==> s[j] != c,
        i < s.len() ==> s[i] == c,
    ensures
        first_index(s, c) == i,
    decreases s.len(),
{
    if s.len() > 0 && i > 0 {
        lemma_first_index(s.skip(1), c, i - 1);
    }
}

/// What `first_index` gives is within `s`, nothing before it is `c`, and it
/// holds `c` unless it is the end of `s`.
pub proof fn lemma_first_index_found(s: Seq<char>, c: char)
    ensures
        0 <= first_index(s, c) <= s.len(),
        forall|j: int| 0 <= j < first_index(s, c) ==> s[j] != c,
        first_index(s, c) < s.len() ==> s[first_index(s, c)] == c,
        first_index(s, c) < s.len() <==> s.contains(c),
    decreases s.len(),
{
    if s.len() > 0 && s[0] != c {
        let rest = s.skip(1);
        lemma_first_index_found(rest, c);
        let k = first_index(rest, c);
        assert forall|j: int| 0 <= j < k + 1 implies s[j] != c by {
            if j > 0 {
                assert(rest[j - 1] == s[j]);
            }
        }
    }
}

/// The last `c` of `s` is at `k` when nothing after `k` is `c` and `k` is
/// either -1 or holds `c`.
pub proof fn lemma_last_index(s: Seq<char>, c: char, k: int)
    requires
        -1 <= k < s.len(),
        forall|j: int| k < j < s.len() ==> s[j] != c,
        0 <= k ==> s[k] == c,
    ensures
        last_index(s, c) == k,
    decreases s.len(),
{
    if s.len() > 0 && k < s.len() - 1 {
        lemma_last_index(s.drop_last(), c, k);
    }
}

/// What `last_index` gives is within `s` or -1, nothing after it is `c`, and
/// it holds `c` unless it is -1.
pub proof fn lemma_last_index_found(s: Seq<char>, c: char)
    ensures
        -1 <= last_index(s, c) < s.len(),
        forall|j: int| last_index(s, c) < j < s.len() ==> s[j] != c,
        0 <= last_index(s, c) ==> s[last_index(s, c)] == c,
    decreases s.len(),
{
    if s.len() > 0 && s.last() != c {
        let front = s.drop_last();
        lemma_last_index_found(front, c);
        let k = last_index(front, c);
        assert forall|j: int| k < j < s.len() implies s[j] != c by {
            if j < front.len() {
                assert(front[j] == s[j]);
            }
        }
    }
}

/// The characters of `s`, one by one.
pub fn chars_of(s: &str) -> (cs: Vec<char>)
    ensures
        cs@ == s@,
{
    let mut cs: Vec<char> = Vec::new();
    for c in it: s.chars()
        invariant
            cs@ == it.seq().subrange(0, it.index() as int),
            it.seq() == s@,
    {
        cs.push(c);
    }
    cs
}

/// Finds the first `c` in `cs`; the length of `cs` where there is none.
pub fn find_first(cs: &Vec<char>, c: char) -> (i: usize)
    ensures
        i == first_index(cs@, c),
        i <= cs.len(),
{
    let mut i: usize = 0;
    while i < cs.len() && cs[i] != c
        invariant
            i <= cs.len(),
            forall|j: int| 0 <= j < i ==> cs@[j] != c,
        decreases cs.len() - i,
    {
        i = i + 1;
    }
    proof {
        lemma_first_index(cs@, c, i as int);
    }
    i
}

/// Finds the last `c` among the first `end` characters of `cs`.
pub fn find_last(cs: &Vec<char>, end: usize, c: char) -> (found: Option<usize>)
    requires
        end <= cs.len(),
    ensures
        match found {
            Some(k) => k == last_index(cs@.take(end as int), c) && k < end,
            None => last_index(cs@.take(end as int), c) == -1,
        },
{
    let mut i: usize = end;
    while i > 0 && cs[i - 1] != c
        invariant
            i <= end <= cs.len(),
            forall|j: int| i <= j < end ==> cs@[j] != c,
        decreases i,
    {
        i = i - 1;
    }
    proof {
        lemma_last_index(cs@.take(end as int), c, i - 1);
    }
    if i == 0 {
        None
    } else {
        Some(i - 1)
    }
}

/// Whether `pat` occurs in `s`.
pub fn contains(s: &str, pat: &str) -> (found: bool)
    ensures
        found == has_substring(s@, pat@),
{
    let cs = chars_of(s);
    let ps = chars_of(pat);
    let n: usize = cs.len();
    let m: usize = ps.len();
    if m > n {
        assert(!has_substring(s@, pat@)) by {
            assert forall|at: int| !occurs_at(s@, pat@, at) by {}
        }
        return false;
    }
    let mut at: usize = 0;
    while at <= n - m
        invariant
            cs@ == s@,
            ps@ == pat@,
            n == cs.len(),
            m == ps.len(),
            m <= n,
            at <= n - m + 1,
            forall|k: int| 0 <= k < at ==> !occurs_at(s@, pat@, k),
        decreases n - m + 1 - at,
    {
        let mut j: usize = 0;
        while j < m && cs[at + j] == ps[j]
            invariant
                n == cs.len(),
                m == ps.len(),
                at + m <= n,
                j <= m,
                forall|k: int| 0 <= k < j ==> cs@[at + k] == ps@[k],
            decreases m - j,
        {
            j = j + 1;
        }
        if j == m {
            assert(occurs_at(s@, pat@, at as int)) by {
                assert(s@.subrange(at as int, at + m) =~= pat@);
            }
            return true;
        }
        at = at + 1;
    }
    assert(!has_substring(s@, pat@)) by {
        assert forall|k: int| !occurs_at(s@, pat@, k) by {}
    }
    false
}

/// The characters of `s` from position `from` up to, not including, `to`.
pub fn slice(s: &str, from: usize, to: usize) -> (part: String)
    requires
        from <= to <= s@.len(),
    ensures
        part@ == s@.subrange(from as int, to as int),
{
    String::from_str(s.substring_char(from, to))
}

/// The one-character text of the decimal digit `d`.
pub fn digit_text(d: u64) -> (t: &'static str)
    requires
        d < 10,
    ensures
        t@ == seq![digit_char(d as nat)],
{
    proof {
        reveal_strlit("0");
        reveal_strlit("1");
        reveal_strlit("2");
        reveal_strlit("3");
        reveal_strlit("4");
        reveal_strlit("5");
        reveal_strlit("6");
        reveal_strlit("7");
        reveal_strlit("8");
        reveal_strlit("9");
    }
    let t = if d == 0 {
        "0"
    } else if d == 1 {
        "1"
    } else if d == 2 {
        "2"
    } else if d == 3 {
        "3"
    } else if d == 4 {
        "4"
    } else if d == 5 {
        "5"
    } else if d == 6 {
        "6"
    } else if d == 7 {
        "7"
    } else if d == 8 {
        "8"
    } else {
        "9"
    };
    t
}

/// Writes `n` in decimal.
pub fn decimal(n: u64) -> (t: String)
    ensures
        t@ == decimal_digits(n as nat),
    decreases n,
{
    if n < 10 {
        String::from_str(digit_text(n))
    } else {
        let t = decimal(n / 10).concat(digit_text(n % 10));
        t
    }
}

} // verus!
