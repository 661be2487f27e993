//! Verified character and string operations: trimming, search, prefix and
//! substring tests, decimal numerals, and the composition rules for the
//! extracted fields.

use vstd::prelude::*;
use vstd::string::*;

verus! {

/// Characters stripped by trimming: ASCII whitespace.
pub open spec fn is_space(c: char) -> bool {
    c == ' ' || c == '\t' || c == '\n' || c == '\r'
}

fn is_space_char(c: char) -> (r: bool)
    ensures
        r == is_space(c),
{
    c == ' ' || c == '\t' || c == '\n' || c == '\r'
}

/// First index at or after `from` holding a character that is not a space;
/// `s.len()` when all of them are spaces.
pub open spec fn scan_spaces(s: Seq<char>, from: nat) -> nat
    decreases s.len() - from,
{
    if from >= s.len() {
        s.len()
    } else if is_space(s[from as int]) {
        scan_spaces(s, from + 1)
    } else {
        from
    }
}

/// Largest end position at or below `upto` whose preceding character is not a
/// space; 0 when all of them are spaces.
pub open spec fn scan_spaces_rev(s: Seq<char>, upto: nat) -> nat
    decreases upto,
{
    if upto == 0 {
        0
    } else if is_space(s[upto - 1]) {
        scan_spaces_rev(s, (upto - 1) as nat)
    } else {
        upto
    }
}

/// What trimming leaves: the text without leading and trailing spaces.
pub open spec fn trim_seq(s: Seq<char>) -> Seq<char> {
    let a = scan_spaces(s, 0);
    let b = scan_spaces_rev(s, s.len());
    if a <= b {
        s.subrange(a as int, b as int)
    } else {
        Seq::empty()
    }
}

/// Removes leading and trailing spaces.
pub fn trim_str<'a>(s: &'a str) -> (r: &'a str)
    ensures
        r@ == trim_seq(s@),
{
    let n = s.unicode_len();
    let mut a: usize = 0;
    while a < n && is_space_char(s.get_char(a))
        invariant
            n == s@.len(),
            a <= n,
            scan_spaces(s@, 0) == scan_spaces(s@, a as nat),
        decreases n - a,
    {
        assert(scan_spaces(s@, a as nat) == scan_spaces(s@, (a + 1) as nat));
        a = a + 1;
    }
    assert(scan_spaces(s@, a as nat) == a);
    let mut b: usize = n;
    while b > 0 && is_space_char(s.get_char(b - 1))
        invariant
            n == s@.len(),
            b <= n,
            scan_spaces_rev(s@, n as nat) == scan_spaces_rev(s@, b as nat),
        decreases b,
    {
        assert(scan_spaces_rev(s@, b as nat) == scan_spaces_rev(s@, (b - 1) as nat));
        b = b - 1;
    }
    assert(scan_spaces_rev(s@, b as nat) == b);
    if a <= b {
        s.substring_char(a, b)
    } else {
        let r = "";
        proof {
            reveal_strlit("");
            assert(r@ =~= trim_seq(s@));
        }
        r
    }
}

/// First index at or after `from` where `c` occurs; `None` when it does not.
pub open spec fn find_from(s: Seq<char>, c: char, from: nat) -> Option<nat>
    decreases s.len() - from,
{
    if from >= s.len() {
        None
    } else if s[from as int] == c {
        Some(from)
    } else {
        find_from(s, c, from + 1)
    }
}

pub proof fn lemma_find_from_bounds(s: Seq<char>, c: char, from: nat)
    ensures
        find_from(s, c, from) matches Some(i) ==> from <= i < s.len() && s[i as int] == c,
    decreases s.len() - from,
{
    if from < s.len() && s[from as int] != c {
        lemma_find_from_bounds(s, c, from + 1);
    }
}

fn find_char(s: &str, c: char, from: usize) -> (r: Option<usize>)
    requires
        from <= s@.len(),
    ensures
        (match r {
            Some(i) => find_from(s@, c, from as nat) == Some(i as nat),
            None => find_from(s@, c, from as nat) is None,
        }),
{
    let n = s.unicode_len();
    let mut i: usize = from;
    while i < n
        invariant
            n == s@.len(),
            from <= i <= n,
            find_from(s@, c, from as nat) == find_from(s@, c, i as nat),
        decreases n - i,
    {
        if s.get_char(i) == c {
            return Some(i);
        }
        assert(find_from(s@, c, i as nat) == find_from(s@, c, (i + 1) as nat));
        i = i + 1;
    }
    None
}

/// The second `|`-separated segment of `s`, trimmed; `None` when `s` holds no
/// `|`, that is, when it has fewer than two segments.
pub open spec fn second_segment_trimmed(s: Seq<char>) -> Option<Seq<char>> {
    match find_from(s, '|', 0) {
        None => None,
        Some(p) => {
            let end = (match find_from(s, '|', p + 1) {
                Some(q) => q,
                None => s.len(),
            });
            Some(trim_seq(s.subrange(p + 1 as int, end as int)))
        },
    }
}

/// The full name carried by a pipe-delimited anchor label: the second segment,
/// trimmed. `None` when the label has fewer than two segments.
pub fn extract_second_segment(s: &str) -> (r: Option<String>)
    ensures
        r.deep_view() == second_segment_trimmed(s@),
{
    let n = s.unicode_len();
    match find_char(s, '|', 0) {
        None => None,
        Some(p) => {
            proof {
                lemma_find_from_bounds(s@, '|', 0);
            }
            let end = (match find_char(s, '|', p + 1) {
                Some(q) => q,
                None => n,
            });
            proof {
                lemma_find_from_bounds(s@, '|', (p + 1) as nat);
            }
            let seg = s.substring_char(p + 1, end);
            let t = trim_str(seg);
            Some(String::from_str(t))
        },
    }
}

/// `p` stands at the front of `s`.
pub open spec fn seq_starts_with(s: Seq<char>, p: Seq<char>) -> bool {
    p.len() <= s.len() && s.subrange(0, p.len() as int) == p
}

pub fn str_starts_with(s: &str, p: &str) -> (r: bool)
    ensures
        r == seq_starts_with(s@, p@),
{
    let n = s.unicode_len();
    let m = p.unicode_len();
    if m > n {
        return false;
    }
    let mut j: usize = 0;
    while j < m
        invariant
            n == s@.len(),
            m == p@.len(),
            m <= n,
            j <= m,
            forall|t: int| 0 <= t < j ==> s@[t] == p@[t],
        decreases m - j,
    {
        if s.get_char(j) != p.get_char(j) {
            assert(s@.subrange(0, m as int)[j as int] != p@[j as int]);
            return false;
        }
        j = j + 1;
    }
    proof {
        assert(s@.subrange(0, m as int) =~= p@);
    }
    true
}

/// Whether `s@.subrange(k, k + p@.len()) == p@`.
fn match_at(s: &str, p: &str, k: usize) -> (r: bool)
    requires
        k + p@.len() <= s@.len(),
    ensures
        r == (s@.subrange(k as int, k + p@.len()) == p@),
{
    let n = s.unicode_len();
    let m = p.unicode_len();
    let mut j: usize = 0;
    while j < m
        invariant
            n == s@.len(),
            m == p@.len(),
            k + m <= s@.len(),
            j <= m,
            forall|t: int| 0 <= t < j ==> s@[k + t] == p@[t],
        decreases m - j,
    {
        if s.get_char(k + j) != p.get_char(j) {
            assert(s@.subrange(k as int, k + p@.len())[j as int] != p@[j as int]);
            return false;
        }
        j = j + 1;
    }
    proof {
        assert(s@.subrange(k as int, k + p@.len()) =~= p@);
    }
    true
}

/// `p` occurs somewhere inside `s`.
pub open spec fn seq_contains_seq(s: Seq<char>, p: Seq<char>) -> bool {
    exists|k: int| 0 <= k && k + p.len() <= s.len() && #[trigger] s.subrange(k, k + p.len()) == p
}

pub fn str_contains_str(s: &str, p: &str) -> (r: bool)
    ensures
        r == seq_contains_seq(s@, p@),
{
    let n = s.unicode_len();
    let m = p.unicode_len();
    if m > n {
        return false;
    }
    if m == 0 {
        proof {
            assert(s@.subrange(0, 0 + p@.len() as int) =~= p@);
        }
        return true;
    }
    let mut k: usize = 0;
    while k <= n - m
        invariant
            n == s@.len(),
            m == p@.len(),
            1 <= m <= n,
            k <= n - m + 1,
            forall|k2: int| 0 <= k2 < k ==> #[trigger] s@.subrange(k2, k2 + p@.len()) != p@,
        decreases n - m + 1 - k,
    {
        if match_at(s, p, k) {
            assert(seq_contains_seq(s@, p@));
            return true;
        }
        k = k + 1;
    }
    proof {
        assert(!seq_contains_seq(s@, p@)) by {
            if seq_contains_seq(s@, p@) {
                let k2 = choose|k2: int|
                    0 <= k2 && k2 + p@.len() <= s@.len() && #[trigger] s@.subrange(
                        k2,
                        k2 + p@.len(),
                    ) == p@;
                assert(k2 < k);
            }
        };
    }
    false
}

/// The composed birth date: day, month and year cell texts joined by single
/// spaces, in that order.
pub open spec fn birth_date_seq(day: Seq<char>, month: Seq<char>, year: Seq<char>) -> Seq<char> {
    day + " "@ + month + " "@ + year
}

pub fn compose_birth_date(day: &str, month: &str, year: &str) -> (r: String)
    ensures
        r@ == birth_date_seq(day@, month@, year@),
{
    let mut r = String::from_str(day);
    r.append(" ");
    r.append(month);
    r.append(" ");
    r.append(year);
    proof {
        assert(r@ =~= birth_date_seq(day@, month@, year@));
    }
    r
}

/// The character for one decimal digit.
pub open spec fn digit_char(d: nat) -> char {
    if d == 0 {
        '0'
    } else if d == 1 {
        '1'
    } else if d == 2 {
        '2'
    } else if d == 3 {
        '3'
    } else if d == 4 {
        '4'
    } else if d == 5 {
        '5'
    } else if d == 6 {
        '6'
    } else if d == 7 {
        '7'
    } else if d == 8 {
        '8'
    } else {
        '9'
    }
}

/// The decimal numeral of `n`, most significant digit first.
pub open spec fn decimal_seq(n: nat) -> Seq<char>
    decreases n,
{
    if n < 10 {
        seq![digit_char(n)]
    } else {
        decimal_seq(n / 10) + seq![digit_char(n % 10)]
    }
}

fn digit_str(d: u64) -> (r: &'static str)
    requires
        d < 10,
    ensures
        r@ == seq![digit_char(d as nat)],
{
    proof {
        reveal_strlit("0");
        reveal_strlit("1");
        reveal_strlit("2");
        reveal_strlit("3");
        reveal_strlit("4");
        reveal_strlit("5");
        reveal_strlit("6");
        reveal_strlit("7");
        reveal_strlit("8");
        reveal_strlit("9");
    }
    let r = if d == 0 {
        "0"
    } else if d == 1 {
        "1"
    } else if d == 2 {
        "2"
    } else if d == 3 {
        "3"
    } else if d == 4 {
        "4"
    } else if d == 5 {
        "5"
    } else if d == 6 {
        "6"
    } else if d == 7 {
        "7"
    } else if d == 8 {
        "8"
    } else {
        "9"
    };
    proof {
        assert(r@ =~= seq![digit_char(d as nat)]);
    }
    r
}

/// Writes `n` in decimal.
pub fn u64_decimal(n: u64) -> (r: String)
    ensures
        r@ == decimal_seq(n as nat),
    decreases n,
{
    if n < 10 {
        String::from_str(digit_str(n))
    } else {
        assert(n / 10 < n) by (nonlinear_arith)
            requires
                n >= 10,
        ;
        let mut s = u64_decimal(n / 10);
        s.append(digit_str(n % 10));
        proof {
            assert(s@ =~= decimal_seq(n as nat));
        }
        s
    }
}

} // verus!
