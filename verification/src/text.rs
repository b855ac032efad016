//! Verified string building blocks: equality, substring search, decimal and
//! hexadecimal rendering, and joining with a separator.
use vstd::prelude::*;

verus! {

/// True when `pat` occurs in `s` as a contiguous run of characters.
pub open spec fn spec_contains(s: Seq<char>, pat: Seq<char>) -> bool {
    exists|i: int| 0 <= i <= s.len() - pat.len() && #[trigger] s.subrange(i, i + pat.len()) == pat
}

/// True when the last character of `s` is `c`.
pub open spec fn spec_ends_with_char(s: Seq<char>, c: char) -> bool {
    s.len() > 0 && s[s.len() - 1] == c
}

/// The text of one decimal digit.
pub open spec fn spec_digit(d: nat) -> Seq<char> {
    if d == 0 { "0"@ }
    else if d == 1 { "1"@ }
    else if d == 2 { "2"@ }
    else if d == 3 { "3"@ }
    else if d == 4 { "4"@ }
    else if d == 5 { "5"@ }
    else if d == 6 { "6"@ }
    else if d == 7 { "7"@ }
    else if d == 8 { "8"@ }
    else if d == 9 { "9"@ }
    else if d == 10 { "a"@ }
    else if d == 11 { "b"@ }
    else if d == 12 { "c"@ }
    else if d == 13 { "d"@ }
    else if d == 14 { "e"@ }
    else { "f"@ }
}

/// `n` written in base 10 without leading zeros (`0` is written `"0"`).
pub open spec fn spec_decimal(n: nat) -> Seq<char>
    decreases n,
{
    if n < 10 {
        spec_digit(n)
    } else {
        spec_decimal(n / 10) + spec_digit(n % 10)
    }
}

/// `n` written in base 16 with lower-case digits and without leading zeros.
pub open spec fn spec_hex_lower(n: nat) -> Seq<char>
    decreases n,
{
    if n < 16 {
        spec_digit(n)
    } else {
        spec_hex_lower(n / 16) + spec_digit(n % 16)
    }
}

/// Whether `c` is an ASCII letter or digit.
pub open spec fn is_ascii_alnum(c: char) -> bool {
    ('0' <= c && c <= '9') || ('a' <= c && c <= 'z') || ('A' <= c && c <= 'Z')
}

/// Whether `s` is empty or begins and ends with an ASCII letter or digit.
pub open spec fn alnum_ends(s: Seq<char>) -> bool {
    s.len() == 0 || (is_ascii_alnum(s[0]) && is_ascii_alnum(s[s.len() - 1]))
}

proof fn lemma_digit_alnum(d: nat)
    ensures
        spec_digit(d).len() == 1,
        is_ascii_alnum(spec_digit(d)[0]),
{
    reveal_strlit("0");
    reveal_strlit("1");
    reveal_strlit("2");
    reveal_strlit("3");
    reveal_strlit("4");
    reveal_strlit("5");
    reveal_strlit("6");
    reveal_strlit("7");
    reveal_strlit("8");
    reveal_strlit("9");
    reveal_strlit("a");
    reveal_strlit("b");
    reveal_strlit("c");
    reveal_strlit("d");
    reveal_strlit("e");
    reveal_strlit("f");
}

/// A number written in hexadecimal is not empty and begins and ends with a digit.
pub proof fn lemma_hex_lower_alnum_ends(n: nat)
    ensures
        spec_hex_lower(n).len() > 0,
        alnum_ends(spec_hex_lower(n)),
    decreases n,
{
    if n < 16 {
        lemma_digit_alnum(n);
    } else {
        lemma_hex_lower_alnum_ends(n / 16);
        lemma_digit_alnum(n % 16);
        let a = spec_hex_lower(n / 16);
        let b = spec_digit(n % 16);
        assert((a + b)[0] == a[0]);
        assert((a + b)[(a + b).len() - 1] == b[0]);
    }
}

/// The views of a sequence of strings.
pub open spec fn views(v: Seq<String>) -> Seq<Seq<char>> {
    v.map_values(|s: String| s@)
}

/// The first `k` parts joined by `sep`.
pub open spec fn spec_join_prefix(parts: Seq<Seq<char>>, sep: Seq<char>, k: int) -> Seq<char>
    decreases k,
{
    if k <= 0 {
        Seq::empty()
    } else if k == 1 {
        parts[0]
    } else {
        spec_join_prefix(parts, sep, k - 1) + sep + parts[k - 1]
    }
}

/// All parts joined by `sep`, as `[a, b, c].join(sep)` does.
pub open spec fn spec_join(parts: Seq<Seq<char>>, sep: Seq<char>) -> Seq<char> {
    spec_join_prefix(parts, sep, parts.len() as int)
}

/// The characters of a string, one per element.
pub fn chars_of(s: &str) -> (r: Vec<char>)
    ensures
        r@ == s@,
{
    let n = s.unicode_len();
    let mut out: Vec<char> = Vec::new();
    let mut i: usize = 0;
    while i < n
        invariant
            n == s@.len(),
            i <= n,
            out@ == s@.subrange(0, i as int),
        decreases n - i,
    {
        let c = s.get_char(i);
        out.push(c);
        i += 1;
    }
    out
}

/// Whether two strings hold the same characters.
pub fn str_eq(a: &str, b: &str) -> (r: bool)
    ensures
        r == (a@ == b@),
{
    let n = a.unicode_len();
    let m = b.unicode_len();
    if n != m {
        return false;
    }
    let mut i: usize = 0;
    while i < n
        invariant
            n == a@.len(),
            m == b@.len(),
            n == m,
            i <= n,
            forall|j: int| 0 <= j < i ==> a@[j] == b@[j],
        decreases n - i,
    {
        if a.get_char(i) != b.get_char(i) {
            return false;
        }
        i += 1;
    }
    assert(a@ =~= b@);
    true
}

/// Whether `pat` occurs in `s`.
pub fn contains(s: &str, pat: &str) -> (r: bool)
    ensures
        r == spec_contains(s@, pat@),
{
    let sv = chars_of(s);
    let pv = chars_of(pat);
    let n = sv.len();
    let m = pv.len();
    if m > n {
        return false;
    }
    let mut i: usize = 0;
    while i <= n - m
        invariant
            sv@ == s@,
            pv@ == pat@,
            n == s@.len(),
            m == pat@.len(),
            m <= n,
            i <= n - m + 1,
            forall|k: int| 0 <= k < i ==> #[trigger] s@.subrange(k, k + m) != pat@,
        decreases n - m + 1 - i,
    {
        let mut j: usize = 0;
        let mut same = true;
        while j < m
            invariant
                sv@ == s@,
                pv@ == pat@,
                n == s@.len(),
                m == pat@.len(),
                m <= n,
                i <= n - m,
                j <= m,
                same == (forall|t: int| 0 <= t < j ==> s@[i + t] == #[trigger] pat@[t]),
            decreases m - j,
        {
            if sv[i + j] != pv[j] {
                same = false;
            }
            j += 1;
        }
        if same {
            assert(s@.subrange(i as int, i + m) =~= pat@);
            return true;
        }
        assert(s@.subrange(i as int, i + m) != pat@) by {
            let t = choose|t: int| 0 <= t < m && s@[i + t] != pat@[t];
            assert(s@.subrange(i as int, i + m)[t] == s@[i + t]);
        }
        i += 1;
    }
    assert forall|k: int| 0 <= k <= n - m implies #[trigger] s@.subrange(k, k + m) != pat@ by {}
    false
}

/// Whether the last character of `s` is `c`.
pub fn ends_with_char(s: &str, c: char) -> (r: bool)
    ensures
        r == spec_ends_with_char(s@, c),
{
    let n = s.unicode_len();
    if n == 0 {
        false
    } else {
        s.get_char(n - 1) == c
    }
}

/// The text of one digit below sixteen.
pub fn digit_text(d: u64) -> (r: &'static str)
    requires
        d < 16,
    ensures
        r@ == spec_digit(d as nat),
{
    if d == 0 { "0" }
    else if d == 1 { "1" }
    else if d == 2 { "2" }
    else if d == 3 { "3" }
    else if d == 4 { "4" }
    else if d == 5 { "5" }
    else if d == 6 { "6" }
    else if d == 7 { "7" }
    else if d == 8 { "8" }
    else if d == 9 { "9" }
    else if d == 10 { "a" }
    else if d == 11 { "b" }
    else if d == 12 { "c" }
    else if d == 13 { "d" }
    else if d == 14 { "e" }
    else { "f" }
}

/// `n` in base 10, as `format!("{}", n)` writes it.
pub fn decimal(n: u64) -> (r: String)
    ensures
        r@ == spec_decimal(n as nat),
    decreases n,
{
    if n < 10 {
        String::from_str(digit_text(n))
    } else {
        let mut s = decimal(n / 10);
        s.append(digit_text(n % 10));
        s
    }
}

/// `n` in lower-case base 16, as `format!("{:x}", n)` writes it.
pub fn hex_lower(n: u64) -> (r: String)
    ensures
        r@ == spec_hex_lower(n as nat),
    decreases n,
{
    if n < 16 {
        String::from_str(digit_text(n))
    } else {
        let mut s = hex_lower(n / 16);
        s.append(digit_text(n % 16));
        s
    }
}

/// The parts joined by `sep`, as `parts.join(sep)` does.
pub fn join(parts: &Vec<String>, sep: &str) -> (r: String)
    ensures
        r@ == spec_join(views(parts@), sep@),
{
    let ghost pv = views(parts@);
    let mut out = String::new();
    let mut i: usize = 0;
    while i < parts.len()
        invariant
            pv == views(parts@),
            i <= parts.len(),
            out@ == spec_join_prefix(pv, sep@, i as int),
        decreases parts.len() - i,
    {
        if i > 0 {
            out.append(sep);
        }
        out.append(parts[i].as_str());
        i += 1;
    }
    out
}

} // verus!
