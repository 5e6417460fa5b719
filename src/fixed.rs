use vstd::prelude::*;

verus! {

/// Number of fixed-point units in one whole unit: every price, amount and
/// fee is held as an integer count of 10^-8.
pub const SCALE: u64 = 100_000_000;

/// Number of fractional digits that `SCALE` represents.
pub const FRACTION_DIGITS: usize = 8;

pub open spec fn is_digit(b: u8) -> bool {
    48 <= b <= 57
}

pub open spec fn all_digits(s: Seq<u8>) -> bool {
    forall|i: int| 0 <= i < s.len() ==> is_digit(#[trigger] s[i])
}

/// The number that a run of ASCII digits spells in base ten.
pub open spec fn digits_value(s: Seq<u8>) -> nat
    decreases s.len(),
{
    if s.len() == 0 {
        0
    } else {
        digits_value(s.drop_last()) * 10 + (s.last() - 48) as nat
    }
}

/// Length of the run of digits at the start of `s`.
pub open spec fn digit_run(s: Seq<u8>) -> nat
    decreases s.len(),
{
    if s.len() > 0 && is_digit(s[0]) {
        1 + digit_run(s.drop_first())
    } else {
        0
    }
}

/// The `n`-th fractional digit of `f`, with zeros past its end.
pub open spec fn frac_digit(f: Seq<u8>, n: int) -> nat {
    if 0 <= n < f.len() {
        (f[n] - 48) as nat
    } else {
        0
    }
}

/// The first `n` fractional digits of `f` as an integer.
pub open spec fn frac_prefix(f: Seq<u8>, n: nat) -> nat
    decreases n,
{
    if n == 0 {
        0
    } else {
        frac_prefix(f, (n - 1) as nat) * 10 + frac_digit(f, n - 1)
    }
}

/// Fixed-point units of a fraction: its first eight digits, padded with
/// zeros; digits past the eighth are dropped.
pub open spec fn frac_units(f: Seq<u8>) -> nat {
    frac_prefix(f, FRACTION_DIGITS as nat)
}

/// The fixed-point value of a decimal `digits ['.' digits]`: at least one
/// digit before the point, any number after it. `None` for any other text.
pub open spec fn decimal_value(s: Seq<u8>) -> Option<nat> {
    let k = digit_run(s) as int;
    if k == 0 {
        None
    } else if k == s.len() {
        Some(digits_value(s) * SCALE as nat)
    } else if s[k] == 46u8 && all_digits(s.subrange(k + 1, s.len() as int)) {
        Some(
            digits_value(s.subrange(0, k)) * SCALE as nat + frac_units(
                s.subrange(k + 1, s.len() as int),
            ),
        )
    } else {
        None
    }
}

/// What parsing a decimal yields: its value where it is well formed and fits
/// in a `u64`.
pub open spec fn parsed_decimal(s: Seq<u8>) -> Option<u64> {
    match decimal_value(s) {
        Some(n) => if n <= u64::MAX as nat {
            Some(n as u64)
        } else {
            None
        },
        None => None,
    }
}

proof fn lemma_digits_value_step(s: Seq<u8>, i: int)
    requires
        0 <= i < s.len(),
    ensures
        digits_value(s.subrange(0, i + 1)) == digits_value(s.subrange(0, i)) * 10 + (s[i]
            - 48) as nat,
{
    assert(s.subrange(0, i + 1).drop_last() =~= s.subrange(0, i));
}

proof fn lemma_digits_value_prefix(s: Seq<u8>, i: int)
    requires
        0 <= i <= s.len(),
    ensures
        digits_value(s.subrange(0, i)) <= digits_value(s),
    decreases s.len(),
{
    if i < s.len() {
        assert(s.subrange(0, i) =~= s.drop_last().subrange(0, i));
        lemma_digits_value_prefix(s.drop_last(), i);
    } else {
        assert(s.subrange(0, i) =~= s);
    }
}

proof fn lemma_digit_run(s: Seq<u8>, k: int)
    requires
        0 <= k <= s.len(),
        all_digits(s.subrange(0, k)),
        k == s.len() || !is_digit(s[k]),
    ensures
        digit_run(s) == k,
    decreases k,
{
    if k > 0 {
        assert(is_digit(s.subrange(0, k)[0]));
        assert(s.drop_first().subrange(0, k - 1) =~= s.subrange(0, k).drop_first());
        assert forall|j: int| 0 <= j < k - 1 implies is_digit(
            #[trigger] s.drop_first().subrange(0, k - 1)[j],
        ) by {
            assert(s.drop_first().subrange(0, k - 1)[j] == s.subrange(0, k)[j + 1]);
        }
        lemma_digit_run(s.drop_first(), k - 1);
    }
}

proof fn lemma_frac_prefix_bound(f: Seq<u8>, n: nat)
    requires
        all_digits(f),
    ensures
        frac_prefix(f, n) < pow10(n),
    decreases n,
{
    if n > 0 {
        lemma_frac_prefix_bound(f, (n - 1) as nat);
        let a = frac_prefix(f, (n - 1) as nat);
        let p = pow10((n - 1) as nat);
        let d = frac_digit(f, n - 1);
        assert(d <= 9);
        assert(a * 10 + d < p * 10) by (nonlinear_arith)
            requires
                a < p,
                d <= 9,
        ;
    }
}

pub open spec fn pow10(n: nat) -> nat
    decreases n,
{
    if n == 0 {
        1
    } else {
        10 * pow10((n - 1) as nat)
    }
}

/// Reads the fixed-point value of a decimal number written in ASCII, as
/// `digits ['.' digits]`. Fractional digits past the eighth are truncated.
/// Returns `None` for malformed text and for values too large for a `u64`.
pub fn parse_decimal(s: &[u8]) -> (r: Option<u64>)
    ensures
        r == parsed_decimal(s@),
{
    let n = s.len();
    let mut i: usize = 0;
    let mut whole: u64 = 0;
    // Largest whole part whose scaled value still fits in a u64.
    let limit: u64 = u64::MAX / SCALE;
    while i < n && 48 <= s[i] && s[i] <= 57
        invariant
            i <= n == s@.len(),
            all_digits(s@.subrange(0, i as int)),
            whole as nat == digits_value(s@.subrange(0, i as int)),
            whole <= limit,
            limit == u64::MAX / SCALE,
        decreases n - i,
    {
        proof {
            lemma_digits_value_step(s@, i as int);
        }
        let d = (s[i] - 48) as u64;
        if whole > (limit - d) / 10 {
            proof {
                assert(whole * 10 + d > limit);
                lemma_digit_run_at_least(s@, i as int + 1);
                reject_large_whole(s@, i as int + 1);
            }
            return None;
        }
        whole = whole * 10 + d;
        i = i + 1;
        assert(all_digits(s@.subrange(0, i as int))) by {
            assert forall|j: int| 0 <= j < i implies is_digit(#[trigger] s@.subrange(0, i as int)[j]) by {
                if j < i - 1 {
                    assert(s@.subrange(0, i as int)[j] == s@.subrange(0, i - 1)[j]);
                }
            }
        }
    }
    proof {
        lemma_digit_run(s@, i as int);
    }
    if i == 0 {
        return None;
    }
    assert(whole * SCALE <= u64::MAX) by (nonlinear_arith)
        requires
            whole <= limit,
            limit == u64::MAX / SCALE,
            SCALE == 100_000_000,
    ;
    if i == n {
        assert(s@.subrange(0, i as int) =~= s@);
        return Some(whole * SCALE);
    }
    if s[i] != 46 {
        return None;
    }
    let start = i + 1;
    let mut j: usize = start;
    while j < n
        invariant
            start <= j <= n == s@.len(),
            start == i + 1,
            digit_run(s@) == i,
            s@[i as int] == 46u8,
            forall|t: int| start <= t < j ==> is_digit(#[trigger] s@[t]),
        decreases n - j,
    {
        if s[j] < 48 || s[j] > 57 {
            proof {
                let f = s@.subrange(start as int, n as int);
                assert(f[j - start] == s@[j as int]);
            }
            return None;
        }
        j = j + 1;
    }
    let ghost f = s@.subrange(start as int, n as int);
    assert(all_digits(f)) by {
        assert forall|t: int| 0 <= t < f.len() implies is_digit(#[trigger] f[t]) by {
            assert(f[t] == s@[start + t]);
        }
    }
    let mut frac: u64 = 0;
    let mut k: usize = 0;
    while k < FRACTION_DIGITS
        invariant
            k <= FRACTION_DIGITS,
            start <= n == s@.len(),
            start == i + 1,
            digit_run(s@) == i,
            s@[i as int] == 46u8,
            whole as nat == digits_value(s@.subrange(0, i as int)),
            whole * SCALE <= u64::MAX,
            f == s@.subrange(start as int, n as int),
            all_digits(f),
            frac as nat == frac_prefix(f, k as nat),
        decreases FRACTION_DIGITS - k,
    {
        proof {
            lemma_frac_prefix_bound(f, k as nat);
            assert(pow10(k as nat) <= 10_000_000) by {
                reveal_with_fuel(pow10, 9);
            }
        }
        let d: u64 = if k < n - start {
            assert(f[k as int] == s@[start + k]);
            (s[start + k] - 48) as u64
        } else {
            0
        };
        assert(d as nat == frac_digit(f, k as int));
        frac = frac * 10 + d;
        k = k + 1;
    }
    proof {
        lemma_frac_prefix_bound(f, FRACTION_DIGITS as nat);
        assert(pow10(8) == 100_000_000) by {
            reveal_with_fuel(pow10, 9);
        }
    }
    let scaled = whole * SCALE;
    if scaled > u64::MAX - frac {
        return None;
    }
    Some(scaled + frac)
}

proof fn lemma_digit_run_at_least(s: Seq<u8>, k: int)
    requires
        0 <= k <= s.len(),
        all_digits(s.subrange(0, k)),
    ensures
        digit_run(s) >= k,
    decreases k,
{
    if k > 0 {
        assert(is_digit(s.subrange(0, k)[0]));
        assert forall|j: int| 0 <= j < k - 1 implies is_digit(
            #[trigger] s.drop_first().subrange(0, k - 1)[j],
        ) by {
            assert(s.drop_first().subrange(0, k - 1)[j] == s.subrange(0, k)[j + 1]);
        }
        lemma_digit_run_at_least(s.drop_first(), k - 1);
    }
}

proof fn lemma_digit_run_len(s: Seq<u8>)
    ensures
        digit_run(s) <= s.len(),
    decreases s.len(),
{
    if s.len() > 0 {
        lemma_digit_run_len(s.drop_first());
    }
}

/// A decimal whose first `k` digits already spell more than `u64::MAX / SCALE`
/// parses to `None`.
proof fn reject_large_whole(s: Seq<u8>, k: int)
    requires
        0 < k <= s.len(),
        all_digits(s.subrange(0, k)),
        digit_run(s) >= k,
        digits_value(s.subrange(0, k)) > u64::MAX / SCALE,
    ensures
        parsed_decimal(s) is None,
{
    lemma_digit_run_len(s);
    let r = digit_run(s) as int;
    let w = s.subrange(0, r);
    assert(s.subrange(0, k) =~= w.subrange(0, k));
    lemma_digits_value_prefix(w, k);
    let v = digits_value(w);
    assert(v * SCALE as nat > u64::MAX) by (nonlinear_arith)
        requires
            v > u64::MAX / SCALE,
            SCALE == 100_000_000,
    ;
    if r == s.len() {
        assert(w =~= s);
    }
}

} // verus!
