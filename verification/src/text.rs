//! Verified character-level string utilities: equality, ASCII-case-insensitive
//! comparison, prefix and substring search, and decimal formatting.

use vstd::prelude::*;

verus! {

/// Code point of `c` with ASCII upper-case letters folded to lower case.
pub open spec fn lower_code(c: char) -> u32 {
    if 65 <= c as u32 && c as u32 <= 90 {
        (c as u32 + 32) as u32
    } else {
        c as u32
    }
}

/// Equality of two character sequences up to ASCII case.
pub open spec fn ci_eq(a: Seq<char>, b: Seq<char>) -> bool {
    a.len() == b.len() && forall|i: int| 0 <= i < a.len() ==> lower_code(a[i]) == lower_code(b[i])
}

/// `p` is a prefix of `s` (exact characters).
pub open spec fn is_prefix(p: Seq<char>, s: Seq<char>) -> bool {
    p.len() <= s.len() && s.subrange(0, p.len() as int) == p
}

/// `p` occurs in `s` at offset `i`, up to ASCII case.
pub open spec fn ci_at(s: Seq<char>, p: Seq<char>, i: int) -> bool {
    0 <= i && i + p.len() <= s.len() && ci_eq(s.subrange(i, i + p.len()), p)
}

/// `p` occurs somewhere in `s`, up to ASCII case.
pub open spec fn ci_contains(s: Seq<char>, p: Seq<char>) -> bool {
    exists|i: int| ci_at(s, p, i)
}

/// `p` is a prefix of `s`, up to ASCII case.
pub open spec fn ci_has_prefix(s: Seq<char>, p: Seq<char>) -> bool {
    p.len() <= s.len() && ci_eq(s.subrange(0, p.len() as int), p)
}

/// `c` occurs in `s`.
pub open spec fn contains_char(s: Seq<char>, c: char) -> bool {
    exists|i: int| 0 <= i < s.len() && s[i] == c
}

/// Number of characters in `s`.
pub fn char_len(s: &str) -> (n: usize)
    ensures
        n == s@.len(),
{
    s.unicode_len()
}

/// Exact string equality.
pub fn str_eq(a: &str, b: &str) -> (r: bool)
    ensures
        r == (a@ == b@),
{
    let x = a.to_owned();
    let y = b.to_owned();
    x == y
}

fn ci_char_eq(a: char, b: char) -> (r: bool)
    ensures
        r == (lower_code(a) == lower_code(b)),
{
    let x = a as u32;
    let y = b as u32;
    let lx = if 65 <= x && x <= 90 {
        x + 32
    } else {
        x
    };
    let ly = if 65 <= y && y <= 90 {
        y + 32
    } else {
        y
    };
    lx == ly
}

/// String equality up to ASCII case.
pub fn str_ci_eq(a: &str, b: &str) -> (r: bool)
    ensures
        r == ci_eq(a@, b@),
{
    let n = char_len(a);
    let m = char_len(b);
    if n != m {
        return false;
    }
    let mut i: usize = 0;
    while i < n
        invariant
            n == a@.len(),
            n == b@.len(),
            i <= n,
            forall|j: int| 0 <= j < i ==> lower_code(a@[j]) == lower_code(b@[j]),
        decreases n - i,
    {
        let ca = a.get_char(i);
        let cb = b.get_char(i);
        if !ci_char_eq(ca, cb) {
            assert(!ci_eq(a@, b@));
            return false;
        }
        i += 1;
    }
    true
}

/// Whether `p` is an exact prefix of `s`.
pub fn str_has_prefix(s: &str, p: &str) -> (r: bool)
    ensures
        r == is_prefix(p@, s@),
{
    let n = char_len(s);
    let m = char_len(p);
    if m > n {
        return false;
    }
    let head = s.substring_char(0, m);
    str_eq(head, p)
}

/// Whether `p` is a prefix of `s` up to ASCII case.
pub fn str_ci_has_prefix(s: &str, p: &str) -> (r: bool)
    ensures
        r == ci_has_prefix(s@, p@),
{
    let n = char_len(s);
    let m = char_len(p);
    if m > n {
        return false;
    }
    let head = s.substring_char(0, m);
    str_ci_eq(head, p)
}

/// Whether `p` occurs anywhere in `s`, up to ASCII case.
pub fn str_ci_contains(s: &str, p: &str) -> (r: bool)
    ensures
        r == ci_contains(s@, p@),
{
    let n = char_len(s);
    let m = char_len(p);
    if m > n {
        assert(forall|i: int| !ci_at(s@, p@, i));
        return false;
    }
    let mut i: usize = 0;
    loop
        invariant
            n == s@.len(),
            m == p@.len(),
            m <= n,
            i <= n - m + 1,
            forall|j: int| 0 <= j < i ==> !ci_at(s@, p@, j),
        decreases n - m + 1 - i,
    {
        if i > n - m {
            assert(forall|j: int| j > n - m ==> !ci_at(s@, p@, j));
            return false;
        }
        let sub = s.substring_char(i, i + m);
        if str_ci_eq(sub, p) {
            assert(ci_at(s@, p@, i as int));
            return true;
        }
        i += 1;
    }
}

/// Whether the character `c` occurs in `s`.
pub fn str_contains_char(s: &str, c: char) -> (r: bool)
    ensures
        r == contains_char(s@, c),
{
    let n = char_len(s);
    let mut i: usize = 0;
    while i < n
        invariant
            n == s@.len(),
            i <= n,
            forall|j: int| 0 <= j < i ==> s@[j] != c,
        decreases n - i,
    {
        if s.get_char(i) == c {
            return true;
        }
        i += 1;
    }
    false
}

/// The characters of `s` from `start` to the end.
pub fn str_suffix_from<'a>(s: &'a str, start: usize) -> (r: &'a str)
    requires
        start <= s@.len(),
    ensures
        r@ == s@.subrange(start as int, s@.len() as int),
{
    let n = char_len(s);
    s.substring_char(start, n)
}

/// The decimal digit character for `d`.
pub open spec fn digit_char(d: int) -> char {
    if d == 0 {
        '0'
    } else if d == 1 {
        '1'
    } else if d == 2 {
        '2'
    } else if d == 3 {
        '3'
    } else if d == 4 {
        '4'
    } else if d == 5 {
        '5'
    } else if d == 6 {
        '6'
    } else if d == 7 {
        '7'
    } else if d == 8 {
        '8'
    } else {
        '9'
    }
}

/// Decimal notation of the non-negative integer `n`, most significant digit
/// first, with no leading zeros (except for `n == 0`).
pub open spec fn dec_of(n: int) -> Seq<char>
    decreases n,
{
    if n < 10 {
        seq![digit_char(n)]
    } else {
        dec_of(n / 10).push(digit_char(n % 10))
    }
}

fn digit_str(d: usize) -> (r: &'static str)
    requires
        d < 10,
    ensures
        r@ == seq![digit_char(d as int)],
{
    proof {
        reveal_strlit("0");
        reveal_strlit("1");
        reveal_strlit("2");
        reveal_strlit("3");
        reveal_strlit("4");
        reveal_strlit("5");
        reveal_strlit("6");
        reveal_strlit("7");
        reveal_strlit("8");
        reveal_strlit("9");
    }
    let r: &'static str = if d == 0 {
        "0"
    } else if d == 1 {
        "1"
    } else if d == 2 {
        "2"
    } else if d == 3 {
        "3"
    } else if d == 4 {
        "4"
    } else if d == 5 {
        "5"
    } else if d == 6 {
        "6"
    } else if d == 7 {
        "7"
    } else if d == 8 {
        "8"
    } else {
        "9"
    };
    proof {
        assert(r@ =~= seq![digit_char(d as int)]);
    }
    r
}

/// Renders `n` in decimal notation.
pub fn usize_to_dec(n: usize) -> (r: String)
    ensures
        r@ == dec_of(n as int),
    decreases n,
{
    if n < 10 {
        digit_str(n).to_owned()
    } else {
        let mut s = usize_to_dec(n / 10);
        s.append(digit_str(n % 10));
        proof {
            assert(dec_of(n as int / 10).push(digit_char(n as int % 10)) =~= dec_of(n as int / 10)
                + seq![digit_char(n as int % 10)]);
        }
        s
    }
}

} // verus!
