//! The grammar that the app's routes are written in: literal prefixes,
//! captured path sections, and decimal numbers read and written the way
//! Rust's `FromStr` and `Display` do for `i32` and `usize`.
use vstd::prelude::*;

verus! {

/// The code point of `c`.
pub open spec fn code(c: char) -> int {
    c as int
}

/// `c` is one of `0`..`9`.
pub open spec fn is_digit(c: char) -> bool {
    48 <= code(c) && code(c) <= 57
}

/// The number that the decimal digit `c` stands for.
pub open spec fn digit_value(c: char) -> int {
    code(c) - 48
}

/// Every character of `d` is a decimal digit.
pub open spec fn all_digits(d: Seq<char>) -> bool {
    forall|i: int| 0 <= i < d.len() ==> is_digit(#[trigger] d[i])
}

/// The number that the digit string `d` stands for, most significant digit first.
pub open spec fn digits_value(d: Seq<char>) -> int
    decreases d.len(),
{
    if d.len() == 0 {
        0
    } else {
        digits_value(d.drop_last()) * 10 + digit_value(d.last())
    }
}

/// `d` is a non-empty string of digits; its value.
pub open spec fn unsigned_value(d: Seq<char>) -> Option<int> {
    if d.len() > 0 && all_digits(d) {
        Some(digits_value(d))
    } else {
        None
    }
}

/// What `i32::from_str` gives for `s`: an optional `+` or `-`, then at least one
/// digit, and a value in range.
pub open spec fn parse_i32_spec(s: Seq<char>) -> Option<i32> {
    if s.len() == 0 {
        None
    } else {
        let signed = s[0] == '-' || s[0] == '+';
        let body = if signed { s.skip(1) } else { s };
        match unsigned_value(body) {
            None => None,
            Some(v) => {
                let n = if s[0] == '-' { -v } else { v };
                if i32::MIN <= n && n <= i32::MAX {
                    Some(n as i32)
                } else {
                    None
                }
            },
        }
    }
}

/// What `usize::from_str` gives for `s`: an optional `+`, then at least one digit,
/// and a value in range.
pub open spec fn parse_usize_spec(s: Seq<char>) -> Option<usize> {
    if s.len() == 0 {
        None
    } else {
        let body = if s[0] == '+' { s.skip(1) } else { s };
        match unsigned_value(body) {
            None => None,
            Some(v) => if v <= usize::MAX {
                Some(v as usize)
            } else {
                None
            },
        }
    }
}

/// The digit character for `d < 10`.
pub open spec fn digit_char(d: nat) -> char {
    (d + 48) as char
}

/// The decimal representation of `n`, without leading zeros.
pub open spec fn decimal(n: nat) -> Seq<char>
    decreases n,
{
    if n < 10 {
        seq![digit_char(n)]
    } else {
        decimal(n / 10).push(digit_char(n % 10))
    }
}

/// What `Display` writes for an `i32`.
pub open spec fn i32_text(n: i32) -> Seq<char> {
    if n < 0 {
        seq!['-'] + decimal((-n) as nat)
    } else {
        decimal(n as nat)
    }
}

/// What `Display` writes for a `usize`.
pub open spec fn usize_text(n: usize) -> Seq<char> {
    decimal(n as nat)
}

/// `lit` stands in `s` at position `k`.
pub open spec fn occurs_at(s: Seq<char>, k: int, lit: Seq<char>) -> bool {
    0 <= k && k + lit.len() <= s.len() && s.subrange(k, k + lit.len()) =~= lit
}

/// The first position at or after `k` where `lit` stands in `s`.
pub open spec fn find_from(s: Seq<char>, k: int, lit: Seq<char>) -> Option<int>
    decreases s.len() - k,
{
    if k < 0 || k + lit.len() > s.len() {
        None
    } else if lit.len() == 0 || occurs_at(s, k, lit) {
        Some(k)
    } else {
        find_from(s, k + 1, lit)
    }
}

/// The end of the longest run of characters from `k` on that holds none of `stop`.
pub open spec fn run_end(s: Seq<char>, k: int, stop: Seq<char>) -> int
    decreases s.len() - k,
{
    if k < 0 || k >= s.len() || stop.contains(s[k]) {
        k
    } else {
        run_end(s, k + 1, stop)
    }
}

/// Where `find_from` finds `lit`, `lit` stands, at or after the start.
pub proof fn lemma_find_from_found(s: Seq<char>, k: int, lit: Seq<char>)
    ensures
        find_from(s, k, lit) matches Some(j) ==> k <= j && j + lit.len() <= s.len() && (lit.len()
            == 0 || occurs_at(s, j, lit)),
    decreases s.len() - k,
{
    if k < 0 || k + lit.len() > s.len() {
    } else if lit.len() == 0 || occurs_at(s, k, lit) {
    } else {
        lemma_find_from_found(s, k + 1, lit);
    }
}

/// `find_from` finds the first place where `lit` stands.
pub proof fn lemma_find_from_first(s: Seq<char>, k: int, lit: Seq<char>, t: int)
    requires
        0 <= k <= t,
        lit.len() > 0,
        occurs_at(s, t, lit),
        forall|j: int| k <= j < t ==> !occurs_at(s, j, lit),
    ensures
        find_from(s, k, lit) == Some(t),
    decreases t - k,
{
    if k < t {
        lemma_find_from_first(s, k + 1, lit, t);
    }
}

/// A run that no stop character ends reaches the end of the text.
pub proof fn lemma_run_end_all(s: Seq<char>, k: int, stop: Seq<char>)
    requires
        0 <= k <= s.len(),
        forall|j: int| k <= j < s.len() ==> !stop.contains(#[trigger] s[j]),
    ensures
        run_end(s, k, stop) == s.len(),
    decreases s.len() - k,
{
    if k < s.len() {
        lemma_run_end_all(s, k + 1, stop);
    }
}

/// What `Display` writes for an `i32` is made of digits and a leading `-`.
pub proof fn lemma_i32_text_chars(n: i32)
    ensures
        forall|i: int|
            0 <= i < i32_text(n).len() ==> is_digit(#[trigger] i32_text(n)[i]) || i32_text(n)[i]
                == '-',
{
    let t = i32_text(n);
    if n < 0 {
        let m = (-n) as nat;
        lemma_decimal(m);
        assert forall|i: int| 0 <= i < t.len() implies is_digit(#[trigger] t[i]) || t[i] == '-' by {
            if i > 0 {
                assert(t[i] == decimal(m)[i - 1]);
            }
        }
    } else {
        lemma_decimal(n as nat);
    }
}

/// `s` begins with `prefix`.
pub open spec fn has_prefix(s: Seq<char>, prefix: Seq<char>) -> bool {
    occurs_at(s, 0, prefix)
}

/// The characters of `s`.
pub fn chars_of(s: &str) -> (v: Vec<char>)
    ensures
        v@ == s@,
{
    let n = s.unicode_len();
    let mut v: Vec<char> = Vec::new();
    let mut i: usize = 0;
    while i < n
        invariant
            n == s@.len(),
            i <= n,
            v@ =~= s@.take(i as int),
        decreases n - i,
    {
        v.push(s.get_char(i));
        i = i + 1;
    }
    v
}

/// Whether `lit` stands in `s` at position `k`.
pub fn occurs_at_exec(s: &Vec<char>, k: usize, lit: &str) -> (b: bool)
    ensures
        b == occurs_at(s@, k as int, lit@),
{
    let n = lit.unicode_len();
    if n > s.len() || k > s.len() - n {
        return false;
    }
    let mut i: usize = 0;
    while i < n
        invariant
            n == lit@.len(),
            k + n <= s.len(),
            i <= n,
            forall|j: int| 0 <= j < i ==> s@[k + j] == lit@[j],
        decreases n - i,
    {
        if s[k + i] != lit.get_char(i) {
            assert(s@.subrange(k as int, k + n)[i as int] != lit@[i as int]);
            return false;
        }
        i = i + 1;
    }
    assert(s@.subrange(k as int, k + n) =~= lit@);
    true
}

/// The first position at or after `k` where `lit` stands in `s`.
pub fn find_from_exec(s: &Vec<char>, k: usize, lit: &str) -> (r: Option<usize>)
    requires
        k <= s.len(),
    ensures
        r matches Some(j) ==> find_from(s@, k as int, lit@) == Some(j as int),
        r is None ==> find_from(s@, k as int, lit@) is None,
        r matches Some(j) ==> k <= j && j + lit@.len() <= s.len(),
{
    proof {
        lemma_find_from_found(s@, k as int, lit@);
    }
    let n = lit.unicode_len();
    let mut j: usize = k;
    while j <= s.len()
        invariant
            n == lit@.len(),
            k <= j,
            j <= s.len() + 1,
            find_from(s@, k as int, lit@) == find_from(s@, j as int, lit@),
        decreases s.len() + 1 - j,
    {
        if n > s.len() || j > s.len() - n {
            return None;
        }
        if n == 0 || occurs_at_exec(s, j, lit) {
            return Some(j);
        }
        j = j + 1;
    }
    None
}

/// Whether `c` is one of the characters of `stop`.
pub fn contains_char(stop: &str, c: char) -> (b: bool)
    ensures
        b == stop@.contains(c),
{
    let n = stop.unicode_len();
    let mut i: usize = 0;
    while i < n
        invariant
            n == stop@.len(),
            i <= n,
            forall|j: int| 0 <= j < i ==> stop@[j] != c,
        decreases n - i,
    {
        if stop.get_char(i) == c {
            return true;
        }
        i = i + 1;
    }
    false
}

/// The end of the longest run of characters from `k` on that holds none of `stop`.
pub fn run_end_exec(s: &Vec<char>, k: usize, stop: &str) -> (e: usize)
    requires
        k <= s.len(),
    ensures
        e as int == run_end(s@, k as int, stop@),
        k <= e <= s.len(),
{
    let mut j: usize = k;
    while j < s.len() && !contains_char(stop, s[j])
        invariant
            k <= j <= s.len(),
            run_end(s@, k as int, stop@) == run_end(s@, j as int, stop@),
        decreases s.len() - j,
    {
        j = j + 1;
    }
    j
}


/// Digit values are never negative.
pub proof fn lemma_digits_value_nonneg(d: Seq<char>)
    requires
        all_digits(d),
    ensures
        digits_value(d) >= 0,
    decreases d.len(),
{
    if d.len() > 0 {
        lemma_digits_value_nonneg(d.drop_last());
    }
}

/// A digit string is worth at least as much as any of its prefixes.
pub proof fn lemma_digits_value_prefix(d: Seq<char>, j: int)
    requires
        all_digits(d),
        0 <= j <= d.len(),
    ensures
        digits_value(d.take(j)) <= digits_value(d),
    decreases d.len(),
{
    if j < d.len() {
        let e = d.drop_last();
        assert(e.take(j) =~= d.take(j));
        lemma_digits_value_prefix(e, j);
        lemma_digits_value_nonneg(e);
    } else {
        assert(d.take(j) =~= d);
    }
}

/// Whether `c` is a decimal digit.
pub fn is_digit_exec(c: char) -> (b: bool)
    ensures
        b == is_digit(c),
{
    let u = c as u32;
    48 <= u && u <= 57
}

/// Reads `s[start..]` as a digit string: `Some(v)` when it is a non-empty string
/// of digits whose value `v` is at most `bound`.
pub fn digits_at_most(s: &Vec<char>, start: usize, bound: u128) -> (r: Option<u128>)
    requires
        start <= s.len(),
        bound <= u64::MAX,
    ensures
        r == (match unsigned_value(s@.skip(start as int)) {
            Some(v) => if v <= bound {
                Some(v as u128)
            } else {
                None::<u128>
            },
            None => None::<u128>,
        }),
{
    let ghost body = s@.skip(start as int);
    if start == s.len() {
        return None;
    }
    let mut v: u128 = 0;
    let mut i: usize = start;
    while i < s.len()
        invariant
            start <= i <= s.len(),
            body == s@.skip(start as int),
            bound <= u64::MAX,
            all_digits(s@.subrange(start as int, i as int)),
            v == digits_value(s@.subrange(start as int, i as int)),
            v <= bound,
        decreases s.len() - i,
    {
        let c = s[i];
        if !is_digit_exec(c) {
            assert(body[i - start] == c);
            return None;
        }
        let d = (c as u32 - 48) as u128;
        let w = v * 10 + d;
        proof {
            let pre = s@.subrange(start as int, i + 1);
            assert(pre.drop_last() =~= s@.subrange(start as int, i as int));
            assert(pre.last() == c);
            assert(all_digits(pre));
        }
        if w > bound {
            proof {
                if all_digits(body) {
                    lemma_digits_value_prefix(body, i + 1 - start);
                    assert(body.take(i + 1 - start) =~= s@.subrange(start as int, i + 1));
                }
            }
            return None;
        }
        v = w;
        i = i + 1;
    }
    assert(s@.subrange(start as int, s.len() as int) =~= body);
    Some(v)
}

/// `i32::from_str` on the characters of `s`.
pub fn parse_i32(s: &Vec<char>) -> (r: Option<i32>)
    ensures
        r == parse_i32_spec(s@),
{
    if s.len() == 0 {
        return None;
    }
    let neg = s[0] == '-';
    let signed = neg || s[0] == '+';
    let start: usize = if signed { 1 } else { 0 };
    assert(s@.skip(0) =~= s@);
    let bound: u128 = if neg { 2147483648 } else { 2147483647 };
    proof {
        if all_digits(s@.skip(start as int)) {
            lemma_digits_value_nonneg(s@.skip(start as int));
        }
    }
    match digits_at_most(s, start, bound) {
        None => None,
        Some(v) => {
            if neg {
                Some((0i64 - (v as i64)) as i32)
            } else {
                Some(v as i32)
            }
        },
    }
}

/// `usize::from_str` on the characters of `s`.
pub fn parse_usize(s: &Vec<char>) -> (r: Option<usize>)
    ensures
        r == parse_usize_spec(s@),
{
    if s.len() == 0 {
        return None;
    }
    let start: usize = if s[0] == '+' { 1 } else { 0 };
    assert(s@.skip(0) =~= s@);
    let bound: u128 = usize::MAX as u128;
    proof {
        if all_digits(s@.skip(start as int)) {
            lemma_digits_value_nonneg(s@.skip(start as int));
        }
    }
    match digits_at_most(s, start, bound) {
        None => None,
        Some(v) => Some(v as usize),
    }
}

/// The one-character text of the digit `d`.
fn digit_str(d: u64) -> (t: &'static str)
    requires
        d < 10,
    ensures
        t@ == seq![digit_char(d as nat)],
{
    proof {
        reveal_strlit("0");
        reveal_strlit("1");
        reveal_strlit("2");
        reveal_strlit("3");
        reveal_strlit("4");
        reveal_strlit("5");
        reveal_strlit("6");
        reveal_strlit("7");
        reveal_strlit("8");
        reveal_strlit("9");
    }
    let t = if d == 0 {
        "0"
    } else if d == 1 {
        "1"
    } else if d == 2 {
        "2"
    } else if d == 3 {
        "3"
    } else if d == 4 {
        "4"
    } else if d == 5 {
        "5"
    } else if d == 6 {
        "6"
    } else if d == 7 {
        "7"
    } else if d == 8 {
        "8"
    } else {
        "9"
    };
    assert(t@ =~= seq![digit_char(d as nat)]);
    t
}

/// Appends the decimal representation of `n` to `out`.
pub fn push_decimal(out: &mut String, n: u64)
    ensures
        final(out)@ == old(out)@ + decimal(n as nat),
    decreases n,
{
    if n >= 10 {
        push_decimal(out, n / 10);
    }
    out.append(digit_str(n % 10));
    proof {
        if n >= 10 {
            assert(old(out)@ + decimal(n as nat) =~= old(out)@ + decimal((n / 10) as nat) + seq![
                digit_char((n % 10) as nat),
            ]);
        } else {
            assert(decimal(n as nat) =~= seq![digit_char((n % 10) as nat)]);
        }
    }
}

/// Appends what `Display` writes for `n` to `out`.
pub fn push_i32(out: &mut String, n: i32)
    ensures
        final(out)@ == old(out)@ + i32_text(n),
{
    if n < 0 {
        proof {
            reveal_strlit("-");
        }
        out.append("-");
        let m: u64 = (0i64 - (n as i64)) as u64;
        push_decimal(out, m);
        assert(old(out)@ + i32_text(n) =~= old(out)@ + seq!['-'] + decimal(m as nat));
    } else {
        push_decimal(out, n as u64);
    }
}

/// Appends what `Display` writes for `n` to `out`.
pub fn push_usize(out: &mut String, n: usize)
    ensures
        final(out)@ == old(out)@ + usize_text(n),
{
    push_decimal(out, n as u64);
}

/// The decimal text of `n` is a non-empty digit string worth `n`.
pub proof fn lemma_decimal(n: nat)
    ensures
        decimal(n).len() > 0,
        all_digits(decimal(n)),
        digits_value(decimal(n)) == n,
    decreases n,
{
    if n >= 10 {
        lemma_decimal(n / 10);
        let d = decimal(n);
        assert(d.drop_last() =~= decimal(n / 10));
        assert(digit_value(digit_char(n % 10)) == n % 10);
        assert forall|i: int| 0 <= i < d.len() implies is_digit(#[trigger] d[i]) by {
            if i < d.len() - 1 {
                assert(d[i] == decimal(n / 10)[i]);
            }
        }
    } else {
        assert(digit_value(digit_char(n)) == n);
        assert(digits_value(decimal(n).drop_last()) == 0) by {
            assert(decimal(n).drop_last() =~= Seq::<char>::empty());
        }
    }
}

/// Reading back what `Display` writes for a `usize` gives the number.
pub proof fn lemma_parse_usize_text(n: usize)
    ensures
        parse_usize_spec(usize_text(n)) == Some(n),
{
    lemma_decimal(n as nat);
    let t = usize_text(n);
    assert(is_digit(t[0]));
}

/// Reading back what `Display` writes for an `i32` gives the number.
pub proof fn lemma_parse_i32_text(n: i32)
    ensures
        parse_i32_spec(i32_text(n)) == Some(n),
{
    let t = i32_text(n);
    if n < 0 {
        let m = (-n) as nat;
        lemma_decimal(m);
        assert(t.skip(1) =~= decimal(m));
        assert(t[0] == '-');
    } else {
        lemma_decimal(n as nat);
        assert(is_digit(t[0]));
    }
}

} // verus!
