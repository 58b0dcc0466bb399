//! Text helpers: decimal rendering of integers.
use vstd::prelude::*;
use vstd::string::StrSliceExecFns;
use vstd::string::StringExecFns;

verus! {

/// The character of a decimal digit.
pub open spec fn spec_digit_char(d: int) -> char {
    if d == 0 { '0' } else if d == 1 { '1' } else if d == 2 { '2' } else if d == 3 { '3' }
    else if d == 4 { '4' } else if d == 5 { '5' } else if d == 6 { '6' } else if d == 7 { '7' }
    else if d == 8 { '8' } else { '9' }
}

/// Decimal rendering of a natural number, without leading zeros.
pub open spec fn spec_decimal(n: nat) -> Seq<char>
    decreases n,
{
    if n < 10 {
        seq![spec_digit_char(n as int)]
    } else {
        spec_decimal(n / 10).push(spec_digit_char((n % 10) as int))
    }
}

fn digit_str(d: u64) -> (r: &'static str)
    requires
        d < 10,
    ensures
        r@ == seq![spec_digit_char(d as int)],
{
    proof {
        reveal_strlit("0");
        reveal_strlit("1");
        reveal_strlit("2");
        reveal_strlit("3");
        reveal_strlit("4");
        reveal_strlit("5");
        reveal_strlit("6");
        reveal_strlit("7");
        reveal_strlit("8");
        reveal_strlit("9");
    }
    if d == 0 { "0" } else if d == 1 { "1" } else if d == 2 { "2" } else if d == 3 { "3" }
    else if d == 4 { "4" } else if d == 5 { "5" } else if d == 6 { "6" } else if d == 7 { "7" }
    else if d == 8 { "8" } else { "9" }
}

/// Appends the decimal rendering of `n` to `s`.
pub fn push_decimal(s: &mut String, n: u64)
    ensures
        final(s)@ == old(s)@ + spec_decimal(n as nat),
    decreases n,
{
    if n < 10 {
        s.append(digit_str(n));
    } else {
        push_decimal(s, n / 10);
        s.append(digit_str(n % 10));
        assert(old(s)@ + spec_decimal(n as nat) =~= old(s)@ + spec_decimal((n / 10) as nat) + seq![spec_digit_char((n % 10) as int)]);
    }
}

/// Appends the decimal rendering of a signed `n` (with a leading minus sign
/// when negative).
pub fn push_signed_decimal(s: &mut String, n: i64)
    ensures
        final(s)@ == old(s)@ + (if n < 0 { seq!['-'] + spec_decimal((-(n as int)) as nat) } else { spec_decimal(n as nat) }),
{
    if n < 0 {
        proof { reveal_strlit("-"); }
        s.append("-");
        let m: u64 = (-(n as i128)) as u64;
        push_decimal(s, m);
        assert(old(s)@ + seq!['-'] + spec_decimal((-(n as int)) as nat) =~= old(s)@ + (seq!['-'] + spec_decimal((-(n as int)) as nat)));
    } else {
        push_decimal(s, n as u64);
    }
}


/// `a / b` rounded to the nearest integer, halves to the even one.
pub open spec fn spec_round_half_even(a: nat, b: nat) -> nat {
    let q = a / b;
    let r = a % b;
    if 2 * r > b {
        q + 1
    } else if 2 * r < b {
        q
    } else if q % 2 == 1 {
        q + 1
    } else {
        q
    }
}

/// 2^52 and 2^53: the range of a double's 53-bit significand.
pub const TWO_POW_52: u128 = 0x10_0000_0000_0000;
pub const TWO_POW_53: u128 = 0x20_0000_0000_0000;

/// Doubles `p` until `v` has fewer than 53 bits in units of `p`.
pub open spec fn spec_significand_unit(v: nat, p: nat) -> nat
    decreases (if v >= p { v - p } else { 0 }),
{
    if p == 0 || v < TWO_POW_53 * p {
        p
    } else {
        spec_significand_unit(v, 2 * p)
    }
}

/// The double nearest to `v` (`v as f64`), as an integer: `v` rounded to 53
/// significant bits, halves to even.
pub open spec fn spec_nearest_f64_int(v: nat) -> nat {
    let p = spec_significand_unit(v, 1);
    spec_round_half_even(v, p) * p
}

/// Doubles `x` and `p` together until `x / d` reaches 2^52.
pub open spec fn spec_scale_up(x: nat, p: nat, d: nat) -> (nat, nat)
    decreases (if x >= d * TWO_POW_52 { 0 } else { d * TWO_POW_52 - x }),
{
    if x == 0 || x >= d * TWO_POW_52 {
        (x, p)
    } else {
        spec_scale_up(2 * x, 2 * p, d)
    }
}

/// `v as f64 / d as f64` printed with the decimals of `unit` (10 for one,
/// 100 for two), as a count of units: the double nearest to `v` is divided
/// with the quotient rounded to a 53-bit significand, and the exact value of
/// that double is rounded to the nearest unit, halves to even.
pub open spec fn spec_f64_fixed(v: nat, d: nat, unit: nat) -> nat {
    let t = spec_nearest_f64_int(v);
    if t == 0 {
        0
    } else {
        let (x, p) = spec_scale_up(t, 1, d);
        spec_round_half_even(spec_round_half_even(x, d) * unit, p)
    }
}

/// `a / b` rounded to the nearest integer, halves to even.
fn round_half_even(a: u128, b: u128) -> (r: u128)
    requires
        b >= 1,
        a / b < u128::MAX,
    ensures
        r == spec_round_half_even(a as nat, b as nat),
        r <= a / b + 1,
{
    let q = a / b;
    let rem = a % b;
    if rem > b - rem {
        q + 1
    } else if rem < b - rem {
        q
    } else if q % 2 == 1 {
        q + 1
    } else {
        q
    }
}

/// `v as f64 / d as f64` printed with the decimals of `unit`, as a count of
/// units (`spec_f64_fixed`), computed exactly in integers.
pub fn f64_fixed_div(v: u64, d: u64, unit: u64) -> (r: u64)
    requires
        4096 <= d <= 0x4000_0000,
        1 <= unit <= 1000,
    ensures
        r == spec_f64_fixed(v as nat, d as nat, unit as nat),
{
    // The double nearest to `v`.
    let vv = v as u128;
    let mut p: u128 = 1;
    while vv >= TWO_POW_53 * p
        invariant
            1 <= p <= 4096,
            vv == v as u128,
            vv >= TWO_POW_53 * p ==> 2 * p <= 4096,
            spec_significand_unit(vv as nat, 1) == spec_significand_unit(vv as nat, p as nat),
        decreases vv - p,
    {
        assert(vv < 0x1_0000_0000_0000_0000u128);
        assert(2 * p <= 4096) by (nonlinear_arith)
            requires vv >= TWO_POW_53 * p, vv < 0x1_0000_0000_0000_0000u128, p >= 1, TWO_POW_53 == 0x20_0000_0000_0000u128;
        p = 2 * p;
        assert(vv >= TWO_POW_53 * p ==> 2 * p <= 4096) by (nonlinear_arith)
            requires vv < 0x1_0000_0000_0000_0000u128, p >= 2, TWO_POW_53 == 0x20_0000_0000_0000u128;
    }
    assert(vv / p < u128::MAX) by (nonlinear_arith) requires p >= 1, vv < 0x1_0000_0000_0000_0000u128;
    let m0 = round_half_even(vv, p);
    assert(m0 * p <= vv + p) by (nonlinear_arith)
        requires m0 <= vv / p + 1, p >= 1;
    let t = m0 * p;
    if t == 0 {
        return 0;
    }
    // Scale the quotient's significand into [2^52, 2^53].
    let dd = d as u128;
    let mut x: u128 = t;
    let mut q: u128 = 1;
    assert(t < dd * TWO_POW_53) by (nonlinear_arith)
        requires t <= vv + 4096, vv < 0x1_0000_0000_0000_0000u128, dd >= 4096, TWO_POW_53 == 0x20_0000_0000_0000u128;
    while x < dd * TWO_POW_52
        invariant
            dd == d as u128,
            4096 <= dd <= 0x4000_0000,
            1 <= q <= x,
            x < dd * TWO_POW_53,
            spec_scale_up(t as nat, 1, dd as nat) == spec_scale_up(x as nat, q as nat, dd as nat),
        decreases (if x >= dd * TWO_POW_52 { 0 } else { dd * TWO_POW_52 - x }),
    {
        x = 2 * x;
        q = 2 * q;
    }
    assert(x / dd < TWO_POW_53) by (nonlinear_arith)
        requires x < dd * TWO_POW_53, dd >= 1;
    let m = round_half_even(x, dd);
    assert(m * (unit as u128) <= TWO_POW_53 * 1000) by (nonlinear_arith)
        requires m <= TWO_POW_53, unit <= 1000;
    let mu = m * (unit as u128);
    assert(mu / q <= mu) by (nonlinear_arith) requires q >= 1;
    let r = round_half_even(mu, q);
    r as u64
}

/// Rendering of `h` hundredths with two decimals, such as `5.50`.
pub open spec fn spec_fixed2(h: nat) -> Seq<char> {
    spec_decimal(h / 100) + seq!['.', spec_digit_char(((h / 10) % 10) as int), spec_digit_char((h % 10) as int)]
}

/// Rendering of `t` tenths with one decimal, such as `0.6`.
pub open spec fn spec_fixed1(t: nat) -> Seq<char> {
    spec_decimal(t / 10) + seq!['.', spec_digit_char((t % 10) as int)]
}

/// Appends `h` hundredths rendered with two decimals.
pub fn push_fixed2(s: &mut String, h: u64)
    ensures
        final(s)@ == old(s)@ + spec_fixed2(h as nat),
{
    push_decimal(s, h / 100);
    proof { reveal_strlit("."); }
    s.append(".");
    s.append(digit_str((h / 10) % 10));
    s.append(digit_str(h % 10));
    assert(s@ =~= old(s)@ + spec_fixed2(h as nat));
}

/// Appends `t` tenths rendered with one decimal.
pub fn push_fixed1(s: &mut String, t: u64)
    ensures
        final(s)@ == old(s)@ + spec_fixed1(t as nat),
{
    push_decimal(s, t / 10);
    proof { reveal_strlit("."); }
    s.append(".");
    s.append(digit_str(t % 10));
    assert(s@ =~= old(s)@ + spec_fixed1(t as nat));
}


/// Whether `n` occurs in `h` as a contiguous run of characters.
pub open spec fn spec_contains(h: Seq<char>, n: Seq<char>) -> bool {
    exists|i: int| 0 <= i && i + n.len() <= h.len() && #[trigger] h.subrange(i, i + n.len()) == n
}

/// The characters of a string slice.
pub fn chars_of(s: &str) -> (r: Vec<char>)
    ensures
        r@ == s@,
{
    let n = s.unicode_len();
    let mut r: Vec<char> = Vec::new();
    let mut i: usize = 0;
    while i < n
        invariant
            n == s@.len(),
            i <= n,
            r@ == s@.take(i as int),
        decreases n - i,
    {
        r.push(s.get_char(i));
        i = i + 1;
        assert(r@ =~= s@.take(i as int));
    }
    assert(s@.take(n as int) =~= s@);
    r
}

fn matches_at(h: &Vec<char>, n: &Vec<char>, i: usize) -> (r: bool)
    requires
        i + n@.len() <= h@.len(),
    ensures
        r == (h@.subrange(i as int, i + n@.len()) == n@),
{
    let hl = h.len();
    let mut j: usize = 0;
    while j < n.len()
        invariant
            hl == h@.len(),
            i + n@.len() <= h@.len(),
            j <= n@.len(),
            forall|k: int| 0 <= k < j ==> h@[i + k] == n@[k],
        decreases n@.len() - j,
    {
        if h[i + j] != n[j] {
            assert(h@.subrange(i as int, i + n@.len())[j as int] != n@[j as int]);
            return false;
        }
        j = j + 1;
    }
    assert(h@.subrange(i as int, i + n@.len()) =~= n@);
    true
}

/// Whether `needle` occurs in `hay`.
pub fn str_contains(hay: &str, needle: &str) -> (r: bool)
    ensures
        r == spec_contains(hay@, needle@),
{
    let h = chars_of(hay);
    let n = chars_of(needle);
    if n.len() > h.len() {
        return false;
    }
    let last = h.len() - n.len();
    let mut i: usize = 0;
    while i < last
        invariant
            h@ == hay@,
            n@ == needle@,
            last + n@.len() == h@.len(),
            i <= last,
            forall|k: int| 0 <= k < i ==> #[trigger] h@.subrange(k, k + n@.len()) != n@,
        decreases last - i,
    {
        if matches_at(&h, &n, i) {
            return true;
        }
        i = i + 1;
    }
    if matches_at(&h, &n, last) {
        return true;
    }
    assert forall|k: int| 0 <= k && k + n@.len() <= h@.len() implies #[trigger] h@.subrange(k, k + n@.len()) != n@ by {
        assert(k <= last);
    }
    false
}

/// Whether a string holds exactly the text of a literal.
pub fn matches_literal(s: &String, lit: &str) -> (r: bool)
    ensures
        r == (s@ == lit@),
{
    let t = String::from_str(lit);
    *s == t
}

/// The text that `str::to_lowercase` gives for a text (Unicode lower case).
pub uninterp spec fn spec_lowercase(s: Seq<char>) -> Seq<char>;

/// Calls `str::to_lowercase`. Trusted: the result is `spec_lowercase` of
/// the text, a function of the text alone.
#[verifier::external_body]
pub(crate) fn to_lowercase(s: &str) -> (r: String)
    ensures
        r@ == spec_lowercase(s@),
{
    s.to_lowercase()
}

/// Whether a character has the Unicode `White_Space` property, as
/// `char::is_whitespace` tests.
pub open spec fn spec_is_whitespace(c: char) -> bool {
    ||| '\u{9}' <= c <= '\u{d}'
    ||| c == ' ' || c == '\u{85}' || c == '\u{a0}' || c == '\u{1680}'
    ||| '\u{2000}' <= c <= '\u{200a}'
    ||| c == '\u{2028}' || c == '\u{2029}' || c == '\u{202f}' || c == '\u{205f}' || c == '\u{3000}'
}

/// The words of `s` after a word `cur` already begun: the maximal non-empty
/// runs of characters without white space, in order.
pub open spec fn spec_words_from(s: Seq<char>, cur: Seq<char>) -> Seq<Seq<char>>
    decreases s.len(),
{
    let done: Seq<Seq<char>> = if cur.len() > 0 { seq![cur] } else { Seq::empty() };
    if s.len() == 0 {
        done
    } else if spec_is_whitespace(s[0]) {
        done + spec_words_from(s.drop_first(), Seq::empty())
    } else {
        spec_words_from(s.drop_first(), cur.push(s[0]))
    }
}

/// The words that `str::split_whitespace` yields for a text, in order: its
/// maximal non-empty runs of characters without white space.
pub open spec fn spec_split_whitespace(s: Seq<char>) -> Seq<Seq<char>> {
    spec_words_from(s, Seq::empty())
}

/// Whether a character has the Unicode `White_Space` property.
pub fn is_whitespace_char(c: char) -> (r: bool)
    ensures
        r == spec_is_whitespace(c),
{
    ('\u{9}' <= c && c <= '\u{d}') || c == ' ' || c == '\u{85}' || c == '\u{a0}' || c == '\u{1680}'
        || ('\u{2000}' <= c && c <= '\u{200a}') || c == '\u{2028}' || c == '\u{2029}' || c == '\u{202f}'
        || c == '\u{205f}' || c == '\u{3000}'
}

/// The words of a text, in order: its maximal non-empty runs of characters
/// without white space (what `str::split_whitespace` yields).
pub fn split_whitespace(s: &str) -> (r: Vec<String>)
    ensures
        r@.map_values(|w: String| w@) == spec_split_whitespace(s@),
{
    let n = s.unicode_len();
    let mut words: Vec<String> = Vec::new();
    let mut start: usize = 0;
    let mut i: usize = 0;
    proof {
        assert(s@.subrange(0, n as int) =~= s@);
        assert(s@.subrange(0, 0) =~= Seq::<char>::empty());
        assert(words@.map_values(|w: String| w@) =~= Seq::<Seq<char>>::empty());
        assert(Seq::<Seq<char>>::empty() + spec_split_whitespace(s@) =~= spec_split_whitespace(s@));
    }
    while i < n
        invariant
            n == s@.len(),
            start <= i <= n,
            words@.map_values(|w: String| w@) + spec_words_from(s@.subrange(i as int, n as int), s@.subrange(
                start as int,
                i as int,
            )) == spec_split_whitespace(s@),
        decreases n - i,
    {
        let c = s.get_char(i);
        let ghost rest = s@.subrange(i as int, n as int);
        let ghost cur = s@.subrange(start as int, i as int);
        let ghost before = words@.map_values(|w: String| w@);
        proof {
            assert(rest[0] == c);
            assert(rest.drop_first() =~= s@.subrange(i + 1, n as int));
        }
        if is_whitespace_char(c) {
            if start < i {
                let w = s.substring_char(start, i).to_owned();
                words.push(w);
                proof {
                    assert(words@.map_values(|w: String| w@) =~= before + seq![cur]);
                    assert(before + seq![cur] + spec_words_from(s@.subrange(i + 1, n as int), Seq::empty())
                        =~= before + (seq![cur] + spec_words_from(s@.subrange(i + 1, n as int), Seq::empty())));
                }
            } else {
                proof {
                    assert(cur.len() == 0);
                    let e: Seq<Seq<char>> = Seq::empty();
                    assert(e + spec_words_from(s@.subrange(i + 1, n as int), Seq::empty())
                        =~= spec_words_from(s@.subrange(i + 1, n as int), Seq::empty()));
                }
            }
            start = i + 1;
            proof {
                assert(s@.subrange(start as int, i + 1) =~= Seq::<char>::empty());
            }
        } else {
            proof {
                assert(cur.push(c) =~= s@.subrange(start as int, i + 1));
            }
        }
        i = i + 1;
    }
    let ghost cur = s@.subrange(start as int, n as int);
    let ghost before = words@.map_values(|w: String| w@);
    proof {
        assert(s@.subrange(n as int, n as int).len() == 0);
    }
    if start < n {
        let w = s.substring_char(start, n).to_owned();
        words.push(w);
        proof {
            assert(words@.map_values(|w: String| w@) =~= before + seq![cur]);
        }
    } else {
        proof {
            assert(before + Seq::<Seq<char>>::empty() =~= before);
        }
    }
    words
}

} // verus!
