//! Character-level text operations used by the command parser: prefix tests, repeated
//! prefix removal and decimal parsing of unsigned 64-bit integers, each proved against a
//! spec function over the string's characters.

use vstd::prelude::*;

verus! {

/// `p` is a prefix of `s`.
pub open spec fn has_prefix(s: Seq<char>, p: Seq<char>) -> bool {
    p.len() <= s.len() && s.take(p.len() as int) == p
}

/// `s` with every leading copy of the non-empty pattern `p` removed, repeatedly
/// (the meaning of `str::trim_start_matches` for a string pattern).
pub open spec fn trim_prefix_all(s: Seq<char>, p: Seq<char>) -> Seq<char>
    decreases s.len(),
{
    if p.len() > 0 && has_prefix(s, p) {
        trim_prefix_all(s.skip(p.len() as int), p)
    } else {
        s
    }
}

/// `p` repeated `k` times.
pub open spec fn repeat(p: Seq<char>, k: nat) -> Seq<char>
    decreases k,
{
    if k == 0 {
        Seq::empty()
    } else {
        p + repeat(p, (k - 1) as nat)
    }
}

/// An ASCII decimal digit.
pub open spec fn is_digit(c: char) -> bool {
    '0' <= c && c <= '9'
}

/// Every character of `s` is an ASCII decimal digit.
pub open spec fn all_digits(s: Seq<char>) -> bool {
    forall|i: int| 0 <= i < s.len() ==> #[trigger] is_digit(s[i])
}

/// The value of a digit character.
pub open spec fn digit_value(c: char) -> nat {
    (c as int - '0' as int) as nat
}

/// The number that a string of decimal digits denotes, most significant digit first.
pub open spec fn digits_value(s: Seq<char>) -> nat
    decreases s.len(),
{
    if s.len() == 0 {
        0
    } else {
        digits_value(s.drop_last()) * 10 + digit_value(s.last())
    }
}

/// The digits that follow an optional leading `+`.
pub open spec fn unsigned_body(s: Seq<char>) -> Seq<char> {
    if s.len() > 0 && s[0] == '+' {
        s.skip(1)
    } else {
        s
    }
}

/// What `s.parse::<u64>()` yields: an optional `+` followed by one or more decimal digits
/// whose value fits in a `u64`; anything else is rejected.
pub open spec fn parse_u64_spec(s: Seq<char>) -> Option<u64> {
    let body = unsigned_body(s);
    if body.len() > 0 && all_digits(body) && digits_value(body) <= u64::MAX {
        Some(digits_value(body) as u64)
    } else {
        None
    }
}

/// The character of a digit value `d < 10`.
pub open spec fn digit_char(d: nat) -> char {
    (48 + d) as char
}

/// The shortest decimal rendering of `n`, as `u64`'s `Display` prints it.
pub open spec fn decimal(n: nat) -> Seq<char>
    decreases n,
{
    if n < 10 {
        seq![digit_char(n)]
    } else {
        decimal(n / 10) + seq![digit_char(n % 10)]
    }
}

/// The characters of `s`, in order.
pub fn chars_of(s: &str) -> (res: Vec<char>)
    ensures
        res@ == s@,
{
    let n = s.unicode_len();
    let mut res: Vec<char> = Vec::new();
    let mut i: usize = 0;
    while i < n
        invariant
            n == s@.len(),
            i <= n,
            res@ == s@.take(i as int),
        decreases n - i,
    {
        let c = s.get_char(i);
        res.push(c);
        i = i + 1;
        assert(res@ =~= s@.take(i as int));
    }
    assert(res@ =~= s@);
    res
}

/// Whether `s[start..]` begins with `p`.
fn has_prefix_at(s: &Vec<char>, start: usize, p: &Vec<char>) -> (res: bool)
    requires
        start <= s@.len(),
    ensures
        res == has_prefix(s@.skip(start as int), p@),
{
    let ghost rest = s@.skip(start as int);
    let len = s.len();
    if p.len() > len - start {
        return false;
    }
    let mut i: usize = 0;
    while i < p.len()
        invariant
            len == s@.len(),
            start <= s@.len(),
            p@.len() <= s@.len() - start,
            rest == s@.skip(start as int),
            i <= p@.len(),
            forall|j: int| 0 <= j < i ==> s@[start + j] == p@[j],
        decreases p@.len() - i,
    {
        if s[start + i] != p[i] {
            assert(rest.take(p@.len() as int)[i as int] != p@[i as int]);
            return false;
        }
        i = i + 1;
    }
    assert(rest.take(p@.len() as int) =~= p@);
    true
}

/// `s` equals `t`, character by character.
pub fn same_text(s: &str, t: &str) -> (res: bool)
    ensures
        res == (s@ == t@),
{
    let a = chars_of(s);
    let b = chars_of(t);
    if a.len() != b.len() {
        return false;
    }
    let r = has_prefix_at(&a, 0, &b);
    proof {
        assert(a@.skip(0) =~= a@);
        if r {
            assert(a@.take(b@.len() as int) =~= a@);
        }
    }
    r
}

/// `s` begins with `p` (`str::starts_with` for a string pattern).
pub fn starts_with(s: &str, p: &str) -> (res: bool)
    ensures
        res == has_prefix(s@, p@),
{
    let a = chars_of(s);
    let b = chars_of(p);
    proof {
        assert(a@.skip(0) =~= a@);
    }
    has_prefix_at(&a, 0, &b)
}

/// `s` with every leading copy of `pat` removed (`str::trim_start_matches` for a string
/// pattern); an empty pattern removes nothing.
pub fn trim_start_matches<'a>(s: &'a str, pat: &str) -> (res: &'a str)
    ensures
        res@ == trim_prefix_all(s@, pat@),
{
    let a = chars_of(s);
    let p = chars_of(pat);
    let n = a.len();
    let m = p.len();
    let mut start: usize = 0;
    proof {
        assert(a@.skip(0) =~= a@);
    }
    while m > 0 && start <= n && has_prefix_at(&a, start, &p)
        invariant
            n == a@.len(),
            m == p@.len(),
            a@ == s@,
            p@ == pat@,
            start <= n,
            trim_prefix_all(s@, pat@) == trim_prefix_all(a@.skip(start as int), p@),
        decreases n - start,
    {
        proof {
            assert(a@.skip(start as int).skip(m as int) =~= a@.skip(start + m));
        }
        start = start + m;
    }
    s.substring_char(start, n)
}


/// Removing every leading copy of a non-empty pattern leaves a string that no longer
/// begins with it, and the input is the returned number of copies followed by that string.
pub proof fn lemma_trim_prefix_all(s: Seq<char>, p: Seq<char>) -> (k: nat)
    requires
        p.len() > 0,
    ensures
        !has_prefix(trim_prefix_all(s, p), p),
        s == repeat(p, k) + trim_prefix_all(s, p),
    decreases s.len(),
{
    if has_prefix(s, p) {
        let rest = s.skip(p.len() as int);
        let k0 = lemma_trim_prefix_all(rest, p);
        assert(repeat(p, k0 + 1) == p + repeat(p, k0));
        assert(s =~= p + rest);
        assert(p + (repeat(p, k0) + trim_prefix_all(rest, p)) =~= (p + repeat(p, k0)) + trim_prefix_all(rest, p));
        k0 + 1
    } else {
        assert(s =~= repeat(p, 0) + s);
        0
    }
}

/// A prefix of a digit string never denotes more than the whole string.
pub proof fn lemma_digits_value_prefix(s: Seq<char>, k: int)
    requires
        0 <= k <= s.len(),
    ensures
        digits_value(s.take(k)) <= digits_value(s),
    decreases s.len(),
{
    if k < s.len() {
        lemma_digits_value_prefix(s.drop_last(), k);
        assert(s.drop_last().take(k) =~= s.take(k));
    } else {
        assert(s.take(k) =~= s);
    }
}

/// Appending one digit multiplies the value by ten and adds the digit.
proof fn lemma_digits_value_step(s: Seq<char>, k: int)
    requires
        0 <= k < s.len(),
    ensures
        digits_value(s.take(k + 1)) == digits_value(s.take(k)) * 10 + digit_value(s[k]),
{
    assert(s.take(k + 1).drop_last() =~= s.take(k));
}

/// `s` as an unsigned decimal number (`str::parse::<u64>`): an optional `+`, then one or
/// more ASCII digits whose value fits in a `u64`.
pub fn parse_u64(s: &str) -> (res: Option<u64>)
    ensures
        res == parse_u64_spec(s@),
{
    let a = chars_of(s);
    let n = a.len();
    let mut start: usize = 0;
    if n > 0 && a[0] == '+' {
        start = 1;
    }
    let ghost body = a@.skip(start as int);
    assert(body == unsigned_body(s@));
    if start == n {
        return None;
    }
    let mut i: usize = start;
    let mut acc: u64 = 0;
    assert(body.take(0) =~= Seq::<char>::empty());
    while i < n
        invariant
            n == a@.len(),
            start < n,
            start <= i <= n,
            body == a@.skip(start as int),
            body == unsigned_body(s@),
            all_digits(body.take(i - start)),
            acc == digits_value(body.take(i - start)),
        decreases n - i,
    {
        let c = a[i];
        if !('0' <= c && c <= '9') {
            assert(!is_digit(body[i - start]));
            return None;
        }
        let d: u64 = (c as u32 - '0' as u32) as u64;
        assert(d == digit_value(body[i - start]));
        proof {
            lemma_digits_value_step(body, i - start);
        }
        if acc > (u64::MAX - d) / 10 {
            assert(acc * 10 + d > u64::MAX) by (nonlinear_arith)
                requires
                    acc > (u64::MAX - d) / 10,
                    d <= 9,
            ;
            proof {
                if all_digits(body) {
                    lemma_digits_value_prefix(body, i - start + 1);
                }
            }
            return None;
        }
        assert(acc * 10 + d <= u64::MAX) by (nonlinear_arith)
            requires
                acc <= (u64::MAX - d) / 10,
                d <= 9,
        ;
        acc = acc * 10 + d;
        i = i + 1;
        assert(all_digits(body.take(i - start))) by {
            assert forall|j: int| 0 <= j < i - start implies #[trigger] is_digit(body.take(i - start)[j]) by {
                if j < i - start - 1 {
                    assert(body.take(i - start)[j] == body.take(i - start - 1)[j]);
                }
            }
        }
    }
    assert(body.take(n - start) =~= body);
    Some(acc)
}

/// The decimal rendering of `n` is a non-empty digit string that denotes `n`.
pub proof fn lemma_decimal(n: nat)
    ensures
        decimal(n).len() > 0,
        all_digits(decimal(n)),
        digits_value(decimal(n)) == n,
        is_digit(decimal(n)[0]),
    decreases n,
{
    if n < 10 {
        assert(decimal(n).drop_last() =~= Seq::<char>::empty());
        assert(digit_value(digit_char(n)) == n);
        assert(digits_value(Seq::<char>::empty()) == 0);
        assert(digits_value(decimal(n)) == digits_value(decimal(n).drop_last()) * 10 + digit_value(decimal(n).last()));
    } else {
        lemma_decimal(n / 10);
        let d = decimal(n);
        assert(d.drop_last() =~= decimal(n / 10));
        assert(d.last() == digit_char(n % 10));
        assert(digit_value(digit_char(n % 10)) == n % 10);
        assert(n == (n / 10) * 10 + n % 10);
        assert(digits_value(d) == digits_value(d.drop_last()) * 10 + digit_value(d.last()));
        assert(d[0] == decimal(n / 10)[0]);
        assert forall|i: int| 0 <= i < d.len() implies #[trigger] is_digit(d[i]) by {
            if i < d.len() - 1 {
                assert(d[i] == decimal(n / 10)[i]);
            }
        }
    }
}

/// Parsing the decimal rendering of any `u64` gives the number back.
pub proof fn lemma_parse_decimal(n: u64)
    ensures
        parse_u64_spec(decimal(n as nat)) == Some(n),
{
    lemma_decimal(n as nat);
    assert(unsigned_body(decimal(n as nat)) == decimal(n as nat));
}

} // verus!
