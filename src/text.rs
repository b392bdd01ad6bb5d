//! Character-level string helpers with exact specifications.
use vstd::prelude::*;
use vstd::string::{StrSliceExecFns, StringExecFns};

verus! {

/// `s` with every occurrence of `from` replaced by `to`.
pub open spec fn replace_char_spec(s: Seq<char>, from: char, to: char) -> Seq<char> {
    Seq::new(s.len(), |i: int| if s[i] == from { to } else { s[i] })
}

/// Replaces each `from` in `s` by the single character held in `to`.
pub fn replace_char(s: &str, from: char, to: &str) -> (r: String)
    requires
        to@.len() == 1,
    ensures
        r@ == replace_char_spec(s@, from, to@[0]),
{
    let n = s.unicode_len();
    let mut out = String::new();
    let mut i: usize = 0;
    while i < n
        invariant
            n == s@.len(),
            i <= n,
            to@.len() == 1,
            out@ == replace_char_spec(s@, from, to@[0]).subrange(0, i as int),
        decreases n - i,
    {
        let c = s.get_char(i);
        if c == from {
            out.append(to);
        } else {
            out.append(s.substring_char(i, i + 1));
        }
        assert(out@ =~= replace_char_spec(s@, from, to@[0]).subrange(0, i + 1));
        i = i + 1;
    }
    assert(out@ =~= replace_char_spec(s@, from, to@[0]));
    out
}

/// What `str::to_lowercase` returns for a string.
pub uninterp spec fn lower_of(s: Seq<char>) -> Seq<char>;

/// Relies on `str::to_lowercase`: the result is determined by the characters
/// of the input alone, and an empty string stays empty.
#[verifier::external_body]
pub(crate) fn lowercase(s: &str) -> (r: String)
    ensures
        r@ == lower_of(s@),
        s@.len() == 0 ==> r@.len() == 0,
{
    s.to_lowercase()
}


/// `s` ends with `suf`.
pub open spec fn ends_with_spec(s: Seq<char>, suf: Seq<char>) -> bool {
    suf.len() <= s.len() && s.subrange(s.len() - suf.len(), s.len() as int) == suf
}

/// `s` starts with `pre`.
pub open spec fn starts_with_spec(s: Seq<char>, pre: Seq<char>) -> bool {
    pre.len() <= s.len() && s.subrange(0, pre.len() as int) == pre
}

/// `pat` occurs in `s` at position `k`.
pub open spec fn occurs_at(s: Seq<char>, pat: Seq<char>, k: int) -> bool {
    0 <= k && k + pat.len() <= s.len() && s.subrange(k, k + pat.len()) == pat
}

/// `pat` occurs somewhere in `s`.
pub open spec fn contains_spec(s: Seq<char>, pat: Seq<char>) -> bool {
    exists|k: int| occurs_at(s, pat, k)
}

/// Compares `s[start..start + pat.len()]` with `pat`; false when it runs past the end.
fn matches_at(s: &str, n: usize, pat: &str, m: usize, start: usize) -> (r: bool)
    requires
        n == s@.len(),
        m == pat@.len(),
    ensures
        r == occurs_at(s@, pat@, start as int),
{
    if m > n || start > n - m {
        return false;
    }
    let mut j: usize = 0;
    while j < m
        invariant
            n == s@.len(),
            m == pat@.len(),
            start + m <= n,
            j <= m,
            forall|t: int| 0 <= t < j ==> s@[start + t] == pat@[t],
        decreases m - j,
    {
        if s.get_char(start + j) != pat.get_char(j) {
            assert(s@.subrange(start as int, start + m)[j as int] != pat@[j as int]);
            return false;
        }
        j = j + 1;
    }
    assert(s@.subrange(start as int, start + m) =~= pat@);
    true
}

/// Whether `s` ends with `suf`.
pub fn ends_with(s: &str, suf: &str) -> (r: bool)
    ensures
        r == ends_with_spec(s@, suf@),
{
    let n = s.unicode_len();
    let m = suf.unicode_len();
    if m > n {
        return false;
    }
    matches_at(s, n, suf, m, n - m)
}

/// Whether `s` starts with `pre`.
pub fn starts_with(s: &str, pre: &str) -> (r: bool)
    ensures
        r == starts_with_spec(s@, pre@),
{
    let n = s.unicode_len();
    let m = pre.unicode_len();
    matches_at(s, n, pre, m, 0)
}

/// Whether `pat` occurs anywhere in `s`.
pub fn contains(s: &str, pat: &str) -> (r: bool)
    ensures
        r == contains_spec(s@, pat@),
{
    let n = s.unicode_len();
    let m = pat.unicode_len();
    if m > n {
        assert forall|k: int| !occurs_at(s@, pat@, k) by {}
        return false;
    }
    let last = n - m;
    let mut k: usize = 0;
    while k < last
        invariant
            n == s@.len(),
            m == pat@.len(),
            last == n - m,
            k <= last,
            forall|t: int| 0 <= t < k ==> !occurs_at(s@, pat@, t),
        decreases last - k,
    {
        if matches_at(s, n, pat, m, k) {
            return true;
        }
        k = k + 1;
    }
    if matches_at(s, n, pat, m, last) {
        return true;
    }
    assert forall|t: int| !occurs_at(s@, pat@, t) by {
        if 0 <= t && t < k {
        }
    }
    false
}

/// `s` with `suf` removed from its end as many times as it occurs there.
pub open spec fn trim_end_all_spec(s: Seq<char>, suf: Seq<char>) -> Seq<char>
    decreases s.len(),
{
    if suf.len() > 0 && ends_with_spec(s, suf) {
        trim_end_all_spec(s.subrange(0, s.len() - suf.len()), suf)
    } else {
        s
    }
}

/// Removes every trailing repetition of `suf` from `s`.
pub fn trim_end_all(s: &str, suf: &str) -> (r: String)
    ensures
        r@ == trim_end_all_spec(s@, suf@),
{
    let m = suf.unicode_len();
    let mut cur = s.unicode_len();
    assert(s@.subrange(0, cur as int) =~= s@);
    while m > 0 && cur >= m && matches_at(s, s.unicode_len(), suf, m, cur - m)
        invariant
            m == suf@.len(),
            cur <= s@.len(),
            trim_end_all_spec(s@, suf@) == trim_end_all_spec(s@.subrange(0, cur as int), suf@),
        decreases cur,
    {
        let ghost pre = s@.subrange(0, cur as int);
        assert(pre.subrange(cur - m, cur as int) =~= s@.subrange(cur - m, cur as int));
        assert(pre.subrange(0, cur - m) =~= s@.subrange(0, cur - m));
        cur = cur - m;
    }
    proof {
        let pre = s@.subrange(0, cur as int);
        if m > 0 && cur >= m {
            assert(pre.subrange(cur - m, cur as int) =~= s@.subrange(cur - m, cur as int));
        }
    }
    String::from_str(s.substring_char(0, cur))
}


/// Index of the first `'\n'` at or after `i`, or the length when there is none.
pub open spec fn newline_from(s: Seq<char>, i: int) -> int
    decreases s.len() - i,
{
    if i < 0 || i >= s.len() {
        s.len() as int
    } else if s[i] == '\n' {
        i
    } else {
        newline_from(s, i + 1)
    }
}

/// The first item `str::lines` yields for `s`: the text before the first
/// `'\n'`, without a `'\r'` that stands just before that `'\n'`; `None` for
/// an empty string.
pub open spec fn first_line_spec(s: Seq<char>) -> Option<Seq<char>> {
    let k = newline_from(s, 0);
    if s.len() == 0 {
        None
    } else if k < s.len() && k > 0 && s[k - 1] == '\r' {
        Some(s.subrange(0, k - 1))
    } else {
        Some(s.subrange(0, k))
    }
}

/// The first line of `s`, as `str::lines` splits it.
pub fn first_line(s: &str) -> (r: Option<String>)
    ensures
        r matches Some(l) ==> first_line_spec(s@) == Some(l@),
        r is None ==> first_line_spec(s@) is None,
{
    let n = s.unicode_len();
    if n == 0 {
        return None;
    }
    let mut i: usize = 0;
    while i < n && s.get_char(i) != '\n'
        invariant
            n == s@.len(),
            i <= n,
            newline_from(s@, 0) == newline_from(s@, i as int),
        decreases n - i,
    {
        i = i + 1;
    }
    if i < n && i > 0 && s.get_char(i - 1) == '\r' {
        Some(String::from_str(s.substring_char(0, i - 1)))
    } else {
        Some(String::from_str(s.substring_char(0, i)))
    }
}

/// The decimal digit for `d`, which is below ten.
pub open spec fn digit_char(d: nat) -> char {
    if d == 0 { '0' }
    else if d == 1 { '1' }
    else if d == 2 { '2' }
    else if d == 3 { '3' }
    else if d == 4 { '4' }
    else if d == 5 { '5' }
    else if d == 6 { '6' }
    else if d == 7 { '7' }
    else if d == 8 { '8' }
    else { '9' }
}

/// Decimal notation of `n`, without leading zeros.
pub open spec fn decimal_spec(n: nat) -> Seq<char>
    decreases n,
{
    if n < 10 {
        seq![digit_char(n)]
    } else {
        decimal_spec(n / 10).push(digit_char(n % 10))
    }
}

/// Appends the decimal notation of `n` to `out`.
pub fn push_decimal(out: &mut String, n: u64)
    ensures
        final(out)@ == old(out)@ + decimal_spec(n as nat),
    decreases n,
{
    if n >= 10 {
        push_decimal(out, n / 10);
    }
    let d = (n % 10) as usize;
    let digits = "0123456789";
    proof {
        reveal_strlit("0123456789");
    }
    out.append(digits.substring_char(d, d + 1));
    proof {
        assert(digits@.subrange(d as int, d + 1) =~= seq![digit_char(d as nat)]);
        if n >= 10 {
            assert(decimal_spec(n as nat) == decimal_spec((n / 10) as nat).push(
                digit_char((n % 10) as nat),
            ));
        }
    }
    assert(out@ =~= old(out)@ + decimal_spec(n as nat));
}

} // verus!
