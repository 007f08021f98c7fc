//! Equalizer band references as a user writes them: a band index `0`-`9`,
//! or a band frequency such as `1khz`, `250Hz` or `1.5k`.

use vstd::prelude::*;
use vstd::string::StringSliceAdditionalSpecFns;

verus! {

/// Why a band reference was refused.
#[derive(Debug, Clone, Copy, PartialEq, Eq, Structural)]
pub enum BandRefError {
    /// A bare index above 9.
    IndexOutOfRange(u8),
    /// Neither an index nor a number followed by a unit.
    InvalidReference,
    /// The number before the unit is not a decimal number.
    InvalidNumber,
    /// The unit is neither `hz` nor `khz` (or a shortening of them).
    UnknownSuffix,
    /// No band has this frequency, in whole hertz.
    NoMatchingBand(u32),
}

pub open spec fn is_digit(b: u8) -> bool {
    48 <= b <= 57
}

/// ASCII white space, as `trim` removes it from ASCII text.
pub open spec fn is_space(b: u8) -> bool {
    b == 32 || (9 <= b <= 13)
}

pub open spec fn is_numeric(b: u8) -> bool {
    is_digit(b) || b == 46
}

/// How many bytes at the front of `s` satisfy `p`.
pub open spec fn leading(s: Seq<u8>, p: spec_fn(u8) -> bool) -> nat
    decreases s.len(),
{
    if s.len() > 0 && p(s[0]) {
        1 + leading(s.drop_first(), p)
    } else {
        0
    }
}

/// How many bytes at the back of `s` satisfy `p`.
pub open spec fn trailing(s: Seq<u8>, p: spec_fn(u8) -> bool) -> nat
    decreases s.len(),
{
    if s.len() > 0 && p(s.last()) {
        1 + trailing(s.drop_last(), p)
    } else {
        0
    }
}

/// `s` without white space at either end.
pub open spec fn trimmed(s: Seq<u8>) -> Seq<u8> {
    let a = s.subrange(leading(s, |b: u8| is_space(b)) as int, s.len() as int);
    a.subrange(0, a.len() - trailing(a, |b: u8| is_space(b)))
}

/// `s` with ASCII capitals made small.
pub open spec fn lowered(s: Seq<u8>) -> Seq<u8> {
    s.map_values(|b: u8| if 65 <= b <= 90 { (b + 32) as u8 } else { b })
}

/// The value of a string of decimal digits.
pub open spec fn digits_value(s: Seq<u8>) -> nat
    decreases s.len(),
{
    if s.len() == 0 {
        0
    } else {
        digits_value(s.drop_last()) * 10 + (s.last() - 48) as nat
    }
}

pub open spec fn all_digits(s: Seq<u8>) -> bool {
    forall|i: int| 0 <= i < s.len() ==> is_digit(#[trigger] s[i])
}

/// The value of `t` read as a `u8` the way `str::parse` reads one: an
/// optional `+`, then one or more digits, at most 255.
pub open spec fn u8_literal(t: Seq<u8>) -> Option<u8> {
    let body = if t.len() > 0 && t[0] == 43 {
        t.drop_first()
    } else {
        t
    };
    if body.len() > 0 && all_digits(body) && digits_value(body) <= 255 {
        Some(digits_value(body) as u8)
    } else {
        None
    }
}

/// Whether a string of digits and dots is a decimal number: at most one
/// dot and at least one digit.
pub open spec fn is_decimal(num: Seq<u8>) -> bool {
    let k = leading(num, |b: u8| is_digit(b)) as int;
    k == num.len() && k > 0 || k < num.len() && num[k as int] == 46 && all_digits(
        num.subrange(k + 1 as int, num.len() as int),
    ) && (k > 0 || num.len() > k + 1)
}

/// The multiplier a unit stands for.
pub open spec fn multiplier(suffix: Seq<u8>) -> Option<nat> {
    if suffix == seq![107u8, 104, 122] || suffix == seq![107u8, 104] || suffix == seq![107u8] {
        Some(1000)
    } else if suffix == seq![104u8, 122] || suffix == seq![104u8] {
        Some(1)
    } else {
        None
    }
}

/// The first three digits after the dot, as thousandths.
pub open spec fn thousandths(frac: Seq<u8>) -> nat {
    digits_value((frac + seq![48u8, 48, 48]).subrange(0, 3))
}

/// The frequency a decimal number and a multiplier stand for, in whole
/// hertz rounded down, at most `u32::MAX`.
pub open spec fn frequency(num: Seq<u8>, m: nat) -> u32 {
    let k = leading(num, |b: u8| is_digit(b)) as int;
    let whole = digits_value(num.subrange(0, k as int));
    let frac = if k < num.len() {
        num.subrange(k + 1 as int, num.len() as int)
    } else {
        Seq::empty()
    };
    let hz = whole * m + if m == 1000 {
        thousandths(frac)
    } else {
        0
    };
    if hz > u32::MAX {
        u32::MAX
    } else {
        hz as u32
    }
}

/// The band index of a frequency: 32 Hz, 64 Hz, 125 Hz, 250 Hz, 500 Hz,
/// 1 kHz, 2 kHz, 4 kHz, 8 kHz, 16 kHz.
pub open spec fn band_of(f: u32) -> Option<u8> {
    if f == 32 {
        Some(0)
    } else if f == 64 {
        Some(1)
    } else if f == 125 {
        Some(2)
    } else if f == 250 {
        Some(3)
    } else if f == 500 {
        Some(4)
    } else if f == 1000 {
        Some(5)
    } else if f == 2000 {
        Some(6)
    } else if f == 4000 {
        Some(7)
    } else if f == 8000 {
        Some(8)
    } else if f == 16000 {
        Some(9)
    } else {
        None
    }
}

/// What a band reference stands for.
pub open spec fn band_ref(s: Seq<u8>) -> Result<u8, BandRefError> {
    let t = trimmed(s);
    match u8_literal(t) {
        Some(v) => if v <= 9 {
            Ok(v)
        } else {
            Err(BandRefError::IndexOutOfRange(v))
        },
        None => {
            let l = lowered(t);
            let k = leading(l, |b: u8| is_numeric(b));
            if k == l.len() {
                Err(BandRefError::InvalidReference)
            } else {
                let num = l.subrange(0, k as int);
                if !is_decimal(num) {
                    Err(BandRefError::InvalidNumber)
                } else {
                    match multiplier(l.subrange(k as int, l.len() as int)) {
                        None => Err(BandRefError::UnknownSuffix),
                        Some(m) => match band_of(frequency(num, m)) {
                            Some(i) => Ok(i),
                            None => Err(BandRefError::NoMatchingBand(frequency(num, m))),
                        },
                    }
                }
            }
        },
    }
}

proof fn lemma_leading(s: Seq<u8>, p: spec_fn(u8) -> bool, i: int)
    requires
        0 <= i <= s.len(),
        forall|k: int| 0 <= k < i ==> p(#[trigger] s[k]),
        i == s.len() || !p(s[i]),
    ensures
        leading(s, p) == i,
    decreases i,
{
    if i > 0 {
        let t = s.drop_first();
        assert forall|k: int| 0 <= k < i - 1 implies p(#[trigger] t[k]) by {
            assert(t[k] == s[k + 1]);
        }
        assert(p(s[0]));
        lemma_leading(t, p, i - 1);
    }
}

proof fn lemma_trailing(s: Seq<u8>, p: spec_fn(u8) -> bool, i: int)
    requires
        0 <= i <= s.len(),
        forall|k: int| s.len() - i <= k < s.len() ==> p(#[trigger] s[k]),
        i == s.len() || !p(s[s.len() - 1 - i]),
    ensures
        trailing(s, p) == i,
    decreases i,
{
    if i > 0 {
        let t = s.drop_last();
        assert forall|k: int| t.len() - (i - 1) <= k < t.len() implies p(#[trigger] t[k]) by {
            assert(t[k] == s[k]);
        }
        assert(p(s[s.len() - 1]));
        lemma_leading_trailing_step(s, p, i);
        lemma_trailing(t, p, i - 1);
    }
}

proof fn lemma_leading_trailing_step(s: Seq<u8>, p: spec_fn(u8) -> bool, i: int)
    requires
        0 < i <= s.len(),
        i == s.len() || !p(s[s.len() - 1 - i]),
    ensures
        i - 1 == s.drop_last().len() || !p(s.drop_last()[s.drop_last().len() - 1 - (i - 1)]),
{
}

fn copy_range(v: &[u8], lo: usize, hi: usize) -> (r: Vec<u8>)
    requires
        lo <= hi <= v@.len(),
    ensures
        r@ == v@.subrange(lo as int, hi as int),
{
    let mut r: Vec<u8> = Vec::new();
    let mut i: usize = lo;
    while i < hi
        invariant
            lo <= i <= hi,
            hi <= v@.len(),
            r@ == v@.subrange(lo as int, i as int),
        decreases hi - i,
    {
        r.push(v[i]);
        i = i + 1;
        assert(r@ =~= v@.subrange(lo as int, i as int));
    }
    r
}

fn space_byte(b: u8) -> (r: bool)
    ensures
        r == is_space(b),
{
    b == 32 || (9 <= b && b <= 13)
}

fn digit_byte(b: u8) -> (r: bool)
    ensures
        r == is_digit(b),
{
    48 <= b && b <= 57
}

/// The bytes of `s` without white space at either end.
fn trim_bytes(s: &[u8]) -> (r: Vec<u8>)
    ensures
        r@ == trimmed(s@),
{
    let mut i: usize = 0;
    while i < s.len() && space_byte(s[i])
        invariant
            i <= s@.len(),
            forall|k: int| 0 <= k < i ==> is_space(#[trigger] s@[k]),
        decreases s@.len() - i,
    {
        i = i + 1;
    }
    proof {
        lemma_leading(s@, |b: u8| is_space(b), i as int);
    }
    let a = copy_range(s, i, s.len());
    let mut j: usize = 0;
    while j < a.len() && space_byte(a[a.len() - 1 - j])
        invariant
            j <= a@.len(),
            forall|k: int| a@.len() - j <= k < a@.len() ==> is_space(#[trigger] a@[k]),
        decreases a@.len() - j,
    {
        j = j + 1;
    }
    proof {
        lemma_trailing(a@, |b: u8| is_space(b), j as int);
    }
    copy_range(a.as_slice(), 0, a.len() - j)
}

/// `s` with ASCII capitals made small.
fn lower_bytes(s: &Vec<u8>) -> (r: Vec<u8>)
    ensures
        r@ == lowered(s@),
{
    let mut r: Vec<u8> = Vec::new();
    let mut i: usize = 0;
    while i < s.len()
        invariant
            i <= s@.len(),
            r@ == lowered(s@.subrange(0, i as int)),
        decreases s@.len() - i,
    {
        let b = s[i];
        r.push(
            if 65 <= b && b <= 90 {
                b + 32
            } else {
                b
            },
        );
        i = i + 1;
        assert(r@ =~= lowered(s@.subrange(0, i as int)));
    }
    assert(s@.subrange(0, s@.len() as int) =~= s@);
    r
}

/// A bound above every value that can still name a band or fit a `u32`.
const VALUE_CAP: u64 = 0x1_0000_0000;

/// The value of the digits `d[lo..hi]`, or `VALUE_CAP` if it is larger.
fn digits_capped(d: &Vec<u8>, lo: usize, hi: usize) -> (r: u64)
    requires
        lo <= hi <= d@.len(),
        all_digits(d@.subrange(lo as int, hi as int)),
    ensures
        r == if digits_value(d@.subrange(lo as int, hi as int)) > VALUE_CAP {
            VALUE_CAP as nat
        } else {
            digits_value(d@.subrange(lo as int, hi as int))
        },
{
    let mut acc: u64 = 0;
    let mut i: usize = lo;
    while i < hi
        invariant
            lo <= i <= hi,
            hi <= d@.len(),
            all_digits(d@.subrange(lo as int, hi as int)),
            acc == if digits_value(d@.subrange(lo as int, i as int)) > VALUE_CAP {
                VALUE_CAP as nat
            } else {
                digits_value(d@.subrange(lo as int, i as int))
            },
        decreases hi - i,
    {
        assert(d@.subrange(lo as int, hi as int)[i - lo] == d@[i as int]);
        let digit = (d[i] - 48) as u64;
        let ghost before = digits_value(d@.subrange(lo as int, i as int));
        assert(d@.subrange(lo as int, i + 1).drop_last() =~= d@.subrange(lo as int, i as int));
        let next = acc * 10 + digit;
        acc = if next > VALUE_CAP {
            VALUE_CAP
        } else {
            next
        };
        i = i + 1;
        assert(digits_value(d@.subrange(lo as int, i as int)) == before * 10 + digit);
    }
    acc
}

/// `t` read as a `u8` the way `str::parse` reads one.
fn u8_value(t: &Vec<u8>) -> (r: Option<u8>)
    ensures
        r == u8_literal(t@),
{
    let start: usize = if t.len() > 0 && t[0] == 43 {
        1
    } else {
        0
    };
    let ghost body = if t@.len() > 0 && t@[0] == 43 {
        t@.drop_first()
    } else {
        t@
    };
    assert(body =~= t@.subrange(start as int, t@.len() as int));
    if start == t.len() {
        return None;
    }
    let mut i: usize = start;
    while i < t.len()
        invariant
            start <= i <= t@.len(),
            body == t@.subrange(start as int, t@.len() as int),
            u8_literal(t@) == (if body.len() > 0 && all_digits(body) && digits_value(body) <= 255 {
                Some(digits_value(body) as u8)
            } else {
                None
            }),
            forall|k: int| start <= k < i ==> is_digit(#[trigger] t@[k]),
        decreases t@.len() - i,
    {
        if !digit_byte(t[i]) {
            assert(!is_digit(t@.subrange(start as int, t@.len() as int)[i - start]));
            return None;
        }
        i = i + 1;
    }
    assert(all_digits(t@.subrange(start as int, t@.len() as int)));
    let v = digits_capped(t, start, t.len());
    if v <= 255 {
        Some(v as u8)
    } else {
        None
    }
}

/// Whether the digits-and-dots string `num` is a decimal number; if so, the
/// length of its whole part.
fn decimal_shape(num: &Vec<u8>) -> (r: Option<usize>)
    ensures
        r is Some <==> is_decimal(num@),
        r matches Some(k) ==> k == leading(num@, |b: u8| is_digit(b)),
{
    let mut k: usize = 0;
    while k < num.len() && digit_byte(num[k])
        invariant
            k <= num@.len(),
            forall|j: int| 0 <= j < k ==> is_digit(#[trigger] num@[j]),
        decreases num@.len() - k,
    {
        k = k + 1;
    }
    proof {
        lemma_leading(num@, |b: u8| is_digit(b), k as int);
    }
    if k == num.len() {
        return if k > 0 {
            Some(k)
        } else {
            None
        };
    }
    if num[k] != 46 {
        return None;
    }
    let mut j: usize = k + 1;
    while j < num.len()
        invariant
            k + 1 <= j <= num@.len(),
            k == leading(num@, |b: u8| is_digit(b)),
            k < num@.len(),
            num@[k as int] == 46,
            forall|i: int| k + 1 <= i < j ==> is_digit(#[trigger] num@[i]),
        decreases num@.len() - j,
    {
        if !digit_byte(num[j]) {
            assert(!is_digit(num@.subrange(k + 1 as int, num@.len() as int)[j - k - 1]));
            return None;
        }
        j = j + 1;
    }
    assert(all_digits(num@.subrange(k + 1 as int, num@.len() as int)));
    if k > 0 || num.len() > k + 1 {
        Some(k)
    } else {
        None
    }
}

/// The multiplier of the unit `l[k..]`.
fn unit_multiplier(l: &Vec<u8>, k: usize) -> (r: Option<u64>)
    requires
        k <= l@.len(),
    ensures
        match multiplier(l@.subrange(k as int, l@.len() as int)) {
            Some(m) => r == Some(m as u64),
            None => r is None,
        },
{
    let suffix = copy_range(l.as_slice(), k, l.len());
    let n = suffix.len();
    let ghost k_hz = seq![107u8, 104, 122];
    let ghost k_h = seq![107u8, 104];
    let ghost k_only = seq![107u8];
    let ghost hz = seq![104u8, 122];
    let ghost h_only = seq![104u8];
    if n == 3 && suffix[0] == 107 && suffix[1] == 104 && suffix[2] == 122 {
        assert(suffix@ =~= k_hz);
        return Some(1000);
    }
    if n == 2 && suffix[0] == 107 && suffix[1] == 104 {
        assert(suffix@ =~= k_h);
        return Some(1000);
    }
    if n == 1 && suffix[0] == 107 {
        assert(suffix@ =~= k_only);
        return Some(1000);
    }
    if n == 2 && suffix[0] == 104 && suffix[1] == 122 {
        assert(suffix@ =~= hz);
        return Some(1);
    }
    if n == 1 && suffix[0] == 104 {
        assert(suffix@ =~= h_only);
        return Some(1);
    }
    assert(suffix@ != k_hz && suffix@ != k_h && suffix@ != k_only && suffix@ != hz
        && suffix@ != h_only) by {
        if suffix@ == k_hz {
            assert(suffix@[0] == 107 && suffix@[1] == 104 && suffix@[2] == 122);
        }
        if suffix@ == k_h {
            assert(suffix@[0] == 107 && suffix@[1] == 104);
        }
        if suffix@ == hz {
            assert(suffix@[0] == 104 && suffix@[1] == 122);
        }
        if suffix@ == k_only {
            assert(suffix@[0] == 107);
        }
        if suffix@ == h_only {
            assert(suffix@[0] == 104);
        }
    }
    None
}

fn digit_or_zero(d: &Vec<u8>, i: usize) -> (r: u64)
    requires
        all_digits(d@),
        i < 3,
    ensures
        r == (d@ + seq![48u8, 48, 48])[i as int] - 48,
        r <= 9,
{
    if i < d.len() {
        assert(is_digit(d@[i as int]));
        assert((d@ + seq![48u8, 48, 48])[i as int] == d@[i as int]);
        (d[i] - 48) as u64
    } else {
        0
    }
}

/// The first three digits of `frac`, padded with zeros, as thousandths.
fn thousandths_of(frac: &Vec<u8>) -> (r: u64)
    requires
        all_digits(frac@),
    ensures
        r == thousandths(frac@),
{
    let ghost x = (frac@ + seq![48u8, 48, 48]).subrange(0, 3);
    let a = digit_or_zero(frac, 0);
    let b = digit_or_zero(frac, 1);
    let c = digit_or_zero(frac, 2);
    proof {
        assert(x[0] - 48 == a && x[1] - 48 == b && x[2] - 48 == c);
        assert(is_digit(x[0]) && is_digit(x[1]) && is_digit(x[2]));
        lemma_three_digits(x);
    }
    a * 100 + b * 10 + c
}

/// The band index of a frequency.
fn band_index(f: u32) -> (r: Option<u8>)
    ensures
        r == band_of(f),
{
    if f == 32 {
        Some(0)
    } else if f == 64 {
        Some(1)
    } else if f == 125 {
        Some(2)
    } else if f == 250 {
        Some(3)
    } else if f == 500 {
        Some(4)
    } else if f == 1000 {
        Some(5)
    } else if f == 2000 {
        Some(6)
    } else if f == 4000 {
        Some(7)
    } else if f == 8000 {
        Some(8)
    } else if f == 16000 {
        Some(9)
    } else {
        None
    }
}

/// The frequency of a decimal number whose whole part has `k` digits.
fn frequency_of(num: &Vec<u8>, k: usize, m: u64) -> (r: u32)
    requires
        is_decimal(num@),
        k == leading(num@, |b: u8| is_digit(b)),
        m == 1 || m == 1000,
    ensures
        r == frequency(num@, m as nat),
{
    proof {
        lemma_leading_prefix_digits(num@, |b: u8| is_digit(b));
    }
    assert(all_digits(num@.subrange(0, k as int)));
    let whole = digits_capped(num, 0, k);
    let th: u64 = if m == 1000 && k < num.len() {
        let frac = copy_range(num.as_slice(), k + 1, num.len());
        thousandths_of(&frac)
    } else {
        0
    };
    proof {
        if m == 1000 && k >= num@.len() {
            assert(thousandths(Seq::<u8>::empty()) == 0) by {
                let x = (Seq::<u8>::empty() + seq![48u8, 48, 48]).subrange(0, 3);
                assert(x =~= seq![48u8, 48, 48]);
                lemma_three_digits(x);
            }
        }
    }
    assert(th <= 999) by {
        if m == 1000 && k < num@.len() {
            let frac = num@.subrange(k + 1 as int, num@.len() as int);
            lemma_thousandths_bound(frac);
        }
    }
    let hz: u64 = whole * m + th;
    proof {
        let w = digits_value(num@.subrange(0, k as int));
        assert(w > VALUE_CAP ==> whole * m + th > u32::MAX) by (nonlinear_arith)
            requires
                w > VALUE_CAP ==> whole == VALUE_CAP,
                m >= 1,
        ;
        assert(w <= VALUE_CAP ==> whole * m == w * m);
    }
    if hz > 0xFFFF_FFFF {
        0xFFFF_FFFF
    } else {
        hz as u32
    }
}

proof fn lemma_three_digits(x: Seq<u8>)
    requires
        x.len() == 3,
        is_digit(x[0]) && is_digit(x[1]) && is_digit(x[2]),
    ensures
        digits_value(x) == ((x[0] - 48) * 10 + (x[1] - 48)) * 10 + (x[2] - 48),
{
    let y = x.drop_last();
    let z = y.drop_last();
    assert(z.drop_last() =~= Seq::<u8>::empty());
    assert(digits_value(z.drop_last()) == 0);
    assert(z.last() == x[0] && y.last() == x[1] && x.last() == x[2]);
    assert(digits_value(z) == x[0] - 48);
    assert(digits_value(y) == (x[0] - 48) * 10 + (x[1] - 48));
}

proof fn lemma_thousandths_bound(frac: Seq<u8>)
    requires
        all_digits(frac),
    ensures
        thousandths(frac) <= 999,
{
    let x = (frac + seq![48u8, 48, 48]).subrange(0, 3);
    assert(forall|i: int| 0 <= i < 3 ==> is_digit(#[trigger] x[i])) by {
        assert forall|i: int| 0 <= i < 3 implies is_digit(#[trigger] x[i]) by {
            if i < frac.len() {
                assert(x[i] == frac[i]);
            } else {
                assert(x[i] == 48);
            }
        }
    }
    assert(is_digit(x[0]) && is_digit(x[1]) && is_digit(x[2]));
    lemma_three_digits(x);
}

/// The bytes counted by `leading` all satisfy the predicate.
proof fn lemma_leading_prefix_digits(s: Seq<u8>, p: spec_fn(u8) -> bool)
    ensures
        leading(s, p) <= s.len(),
        forall|k: int| 0 <= k < leading(s, p) ==> p(#[trigger] s[k]),
    decreases s.len(),
{
    if s.len() > 0 && p(s[0]) {
        let t = s.drop_first();
        lemma_leading_prefix_digits(t, p);
        assert forall|k: int| 0 <= k < leading(s, p) implies p(#[trigger] s[k]) by {
            if k > 0 {
                assert(s[k] == t[k - 1]);
            }
        }
    }
}

/// Parses a band reference: a bare index 0-9, or a frequency with a unit
/// (`hz`, `h`, `khz`, `kh`, `k`, in any case). Surrounding white space is ignored.
pub fn parse_band_ref(s: &str) -> (r: Result<u8, BandRefError>)
    ensures
        r == band_ref(s.spec_bytes()),
{
    let t = trim_bytes(s.as_bytes());
    match u8_value(&t) {
        Some(v) => {
            return if v <= 9 {
                Ok(v)
            } else {
                Err(BandRefError::IndexOutOfRange(v))
            };
        },
        None => {},
    }
    let l = lower_bytes(&t);
    let mut k: usize = 0;
    while k < l.len() && (digit_byte(l[k]) || l[k] == 46)
        invariant
            k <= l@.len(),
            forall|j: int| 0 <= j < k ==> is_numeric(#[trigger] l@[j]),
        decreases l@.len() - k,
    {
        k = k + 1;
    }
    proof {
        lemma_leading(l@, |b: u8| is_numeric(b), k as int);
    }
    if k == l.len() {
        return Err(BandRefError::InvalidReference);
    }
    let num = copy_range(l.as_slice(), 0, k);
    let whole_len = match decimal_shape(&num) {
        Some(w) => w,
        None => {
            return Err(BandRefError::InvalidNumber);
        },
    };
    let m = match unit_multiplier(&l, k) {
        Some(m) => m,
        None => {
            return Err(BandRefError::UnknownSuffix);
        },
    };
    let f = frequency_of(&num, whole_len, m);
    match band_index(f) {
        Some(i) => Ok(i),
        None => Err(BandRefError::NoMatchingBand(f)),
    }
}

} // verus!
