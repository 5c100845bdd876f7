//! Byte-level helpers for the sensors' text formats: locating delimiters,
//! cutting fields, trimming blanks and reading fixed-point decimals.
use vstd::prelude::*;

verus! {

pub open spec fn is_digit(b: u8) -> bool {
    48 <= b <= 57
}

pub open spec fn is_blank(b: u8) -> bool {
    b == 32 || b == 9 || b == 13 || b == 10
}

pub open spec fn all_digits(s: Seq<u8>) -> bool {
    forall|i: int| 0 <= i < s.len() ==> is_digit(#[trigger] s[i])
}

/// The number that a run of decimal digits spells.
pub open spec fn digits_value(s: Seq<u8>) -> int
    decreases s.len(),
{
    if s.len() == 0 {
        0
    } else {
        digits_value(s.drop_last()) * 10 + (s.last() - 48)
    }
}

pub open spec fn pow10(n: nat) -> int
    decreases n,
{
    if n == 0 {
        1
    } else {
        10 * pow10((n - 1) as nat)
    }
}

/// Index of the first `b` in `s` at or after `from`, or the length of `s`.
pub open spec fn find_from(s: Seq<u8>, from: int, b: u8) -> int
    decreases s.len() - from,
{
    if from >= s.len() {
        s.len() as int
    } else if s[from] == b {
        from
    } else {
        find_from(s, from + 1, b)
    }
}

/// First index in `from..to` that is not a blank, or `to`.
pub open spec fn skip_blanks(s: Seq<u8>, from: int, to: int) -> int
    decreases to - from,
{
    if from < to && is_blank(s[from]) {
        skip_blanks(s, from + 1, to)
    } else {
        from
    }
}

/// End of `from..to` once trailing blanks are dropped.
pub open spec fn back_blanks(s: Seq<u8>, from: int, to: int) -> int
    decreases to - from,
{
    if to > from && is_blank(s[to - 1]) {
        back_blanks(s, from, to - 1)
    } else {
        to
    }
}

/// First index `i` in `from..to - 1` where `s[i] == a` and `s[i + 1] == b`, or `to`.
pub open spec fn find_pair_from(s: Seq<u8>, from: int, to: int, a: u8, b: u8) -> int
    decreases to - from,
{
    if from + 1 >= to {
        to
    } else if s[from] == a && s[from + 1] == b {
        from
    } else {
        find_pair_from(s, from + 1, to, a, b)
    }
}

pub fn skip_blanks_exec(s: &[u8], from: usize, to: usize) -> (r: usize)
    requires
        from <= to <= s@.len(),
    ensures
        r == skip_blanks(s@, from as int, to as int),
        from <= r <= to,
{
    let mut i = from;
    while i < to && (s[i] == 32 || s[i] == 9 || s[i] == 13 || s[i] == 10)
        invariant
            from <= i <= to <= s@.len(),
            skip_blanks(s@, from as int, to as int) == skip_blanks(s@, i as int, to as int),
        decreases to - i,
    {
        i = i + 1;
    }
    i
}

pub fn back_blanks_exec(s: &[u8], from: usize, to: usize) -> (r: usize)
    requires
        from <= to <= s@.len(),
    ensures
        r == back_blanks(s@, from as int, to as int),
        from <= r <= to,
{
    let mut j = to;
    while j > from && (s[j - 1] == 32 || s[j - 1] == 9 || s[j - 1] == 13 || s[j - 1] == 10)
        invariant
            from <= j <= to <= s@.len(),
            back_blanks(s@, from as int, to as int) == back_blanks(s@, from as int, j as int),
        decreases j,
    {
        j = j - 1;
    }
    j
}

pub fn find_pair_exec(s: &[u8], from: usize, to: usize, a: u8, b: u8) -> (r: usize)
    requires
        from <= to <= s@.len(),
    ensures
        r == find_pair_from(s@, from as int, to as int, a, b),
        from <= r <= to,
        r < to ==> r + 1 < to,
{
    let mut i = from;
    while to - i >= 2
        invariant
            from <= i <= to <= s@.len(),
            find_pair_from(s@, from as int, to as int, a, b) == find_pair_from(s@, i as int, to as int, a, b),
        decreases to - i,
    {
        if s[i] == a && s[i + 1] == b {
            return i;
        }
        i = i + 1;
    }
    to
}

/// Whether `pat` occurs in `s`.
pub open spec fn contains(s: Seq<u8>, pat: Seq<u8>) -> bool {
    exists|i: int| 0 <= i && i + pat.len() <= s.len() && #[trigger] s.subrange(i, i + pat.len()) == pat
}

pub fn contains_exec(s: &[u8], pat: &[u8]) -> (r: bool)
    ensures
        r == contains(s@, pat@),
{
    if pat.len() > s.len() {
        return false;
    }
    let n = s.len();
    let mut i: usize = 0;
    while i <= n - pat.len()
        invariant
            n == s@.len(),
            pat@.len() <= s@.len(),
            i <= s@.len() - pat@.len() + 1,
            forall|k: int| 0 <= k < i ==> #[trigger] s@.subrange(k, k + pat@.len()) != pat@,
        decreases s@.len() - pat@.len() + 1 - i,
    {
        let mut j: usize = 0;
        let mut same = true;
        while j < pat.len()
            invariant
                j <= pat@.len(),
                n == s@.len(),
                i + pat@.len() <= n,
                same == (forall|m: int| 0 <= m < j ==> s@[i + m] == pat@[m]),
            decreases pat@.len() - j,
        {
            if s[i + j] != pat[j] {
                same = false;
            }
            j = j + 1;
        }
        if same {
            assert(s@.subrange(i as int, i + pat@.len()) =~= pat@);
            return true;
        }
        proof {
            let m = choose|m: int| 0 <= m < pat@.len() && s@[i + m] != pat@[m];
            assert(s@.subrange(i as int, i + pat@.len())[m] != pat@[m]);
        }
        i = i + 1;
    }
    false
}

/// A copy of `s[from..to]`.
pub fn copy_range(s: &[u8], from: usize, to: usize) -> (r: Vec<u8>)
    requires
        from <= to <= s@.len(),
    ensures
        r@ == s@.subrange(from as int, to as int),
{
    let mut r: Vec<u8> = Vec::new();
    let mut i = from;
    while i < to
        invariant
            from <= i <= to <= s@.len(),
            r@ == s@.subrange(from as int, i as int),
        decreases to - i,
    {
        r.push(s[i]);
        i = i + 1;
    }
    r
}

/// Longest integer part that `parse_fixed` reads.
pub const MAX_INT_DIGITS: usize = 12;

/// Longest fractional precision that `parse_fixed` keeps.
pub const MAX_SCALE: usize = 6;

/// The value of a decimal `[-]digits[.digits]` times ten to the `scale`,
/// rounded toward zero, when `s` is one with at least one and at most twelve
/// integer digits.
pub open spec fn fixed_value(s: Seq<u8>, scale: nat) -> Option<int> {
    let negative = s.len() > 0 && s[0] == 45u8;
    let body = if negative {
        s.drop_first()
    } else {
        s
    };
    let dot = find_from(body, 0, 46u8);
    let int_part = body.subrange(0, dot);
    let frac = if dot < body.len() {
        body.subrange(dot + 1, body.len() as int)
    } else {
        Seq::<u8>::empty()
    };
    let kept = if frac.len() <= scale {
        frac.len()
    } else {
        scale
    };
    let magnitude = digits_value(int_part) * pow10(scale) + digits_value(frac.subrange(0, kept as int)) * pow10(
        (scale - kept) as nat,
    );
    if 1 <= int_part.len() <= MAX_INT_DIGITS && all_digits(int_part) && all_digits(frac) {
        Some(
            if negative {
                -magnitude
            } else {
                magnitude
            },
        )
    } else {
        None
    }
}

proof fn lemma_pow10_bounds(n: nat)
    ensures
        pow10(n) >= 1,
    decreases n,
{
    if n > 0 {
        lemma_pow10_bounds((n - 1) as nat);
    }
}

proof fn lemma_pow10_values()
    ensures
        pow10(6) == 1_000_000,
        pow10(12) == 1_000_000_000_000,
        pow10(18) == 1_000_000_000_000_000_000,
{
    reveal_with_fuel(pow10, 19);
}

proof fn lemma_pow10_mono(a: nat, b: nat)
    requires
        a <= b,
    ensures
        pow10(a) <= pow10(b),
    decreases b,
{
    if a < b {
        lemma_pow10_mono(a, (b - 1) as nat);
        lemma_pow10_bounds((b - 1) as nat);
    }
}

proof fn lemma_digits_bound(s: Seq<u8>)
    requires
        all_digits(s),
    ensures
        0 <= digits_value(s) < pow10(s.len()),
    decreases s.len(),
{
    if s.len() > 0 {
        assert(all_digits(s.drop_last()));
        lemma_digits_bound(s.drop_last());
        assert(is_digit(s[s.len() - 1]));
    }
}

pub fn find_from_exec(s: &[u8], from: usize, b: u8) -> (r: usize)
    requires
        from <= s@.len(),
    ensures
        r == find_from(s@, from as int, b),
        from <= r <= s@.len(),
{
    let mut i = from;
    while i < s.len()
        invariant
            from <= i <= s@.len(),
            find_from(s@, from as int, b) == find_from(s@, i as int, b),
        decreases s@.len() - i,
    {
        if s[i] == b {
            return i;
        }
        i = i + 1;
    }
    i
}

/// Value of the digits in `s[start..end]`.
fn digits_exec(s: &[u8], start: usize, end: usize) -> (r: i64)
    requires
        start <= end <= s@.len(),
        end - start <= 18,
        all_digits(s@.subrange(start as int, end as int)),
    ensures
        r == digits_value(s@.subrange(start as int, end as int)),
{
    let mut r: i64 = 0;
    let mut i = start;
    while i < end
        invariant
            start <= i <= end,
            end <= s@.len(),
            end - start <= 18,
            all_digits(s@.subrange(start as int, end as int)),
            r == digits_value(s@.subrange(start as int, i as int)),
            0 <= r < pow10((i - start) as nat),
        decreases end - i,
    {
        let ghost prefix = s@.subrange(start as int, i as int);
        let ghost next = s@.subrange(start as int, i as int + 1);
        assert(next.drop_last() =~= prefix);
        assert(next.last() == s@.subrange(start as int, end as int)[i - start]);
        proof {
            lemma_pow10_mono((i + 1 - start) as nat, 18);
            lemma_pow10_values();
            assert(pow10((i + 1 - start) as nat) == 10 * pow10((i - start) as nat));
            assert(all_digits(next));
            lemma_digits_bound(next);
        }
        r = r * 10 + (s[i] - 48) as i64;
        i = i + 1;
    }
    r
}

/// Reads `s` as a fixed-point decimal with `scale` fractional digits; see `fixed_value`.
pub fn parse_fixed(s: &[u8], scale: usize) -> (r: Option<i64>)
    requires
        scale <= MAX_SCALE,
    ensures
        r matches Some(v) ==> fixed_value(s@, scale as nat) == Some(v as int),
        r is None ==> fixed_value(s@, scale as nat) is None,
        r matches Some(v) ==> -2_000_000_000_000_000_000 <= v <= 2_000_000_000_000_000_000,
{
    let negative = s.len() > 0 && s[0] == 45u8;
    let start: usize = if negative {
        1
    } else {
        0
    };
    let ghost body = if negative {
        s@.drop_first()
    } else {
        s@
    };
    assert(body =~= s@.subrange(start as int, s@.len() as int));
    let dot = find_from_exec(s, start, 46u8);
    proof {
        lemma_find_shift(s@, start as int, 46u8);
    }
    let ghost dot_in_body = dot - start;
    assert(s@.subrange(start as int, dot as int) =~= body.subrange(0, dot_in_body));
    if dot - start < 1 || dot - start > MAX_INT_DIGITS {
        return None;
    }
    if !all_digits_exec(s, start, dot) {
        return None;
    }
    let frac_start: usize = if dot < s.len() {
        dot + 1
    } else {
        dot
    };
    let ghost frac = if dot_in_body < body.len() {
        body.subrange(dot_in_body + 1, body.len() as int)
    } else {
        Seq::<u8>::empty()
    };
    assert(frac =~= s@.subrange(frac_start as int, s@.len() as int));
    if !all_digits_exec(s, frac_start, s.len()) {
        return None;
    }
    let frac_len = s.len() - frac_start;
    let kept: usize = if frac_len <= scale {
        frac_len
    } else {
        scale
    };
    assert(s@.subrange(frac_start as int, frac_start + kept) =~= frac.subrange(0, kept as int));
    assert(all_digits(s@.subrange(frac_start as int, frac_start + kept)));
    let int_value = digits_exec(s, start, dot);
    let frac_value = digits_exec(s, frac_start, frac_start + kept);
    proof {
        lemma_digits_bound(s@.subrange(start as int, dot as int));
        lemma_digits_bound(s@.subrange(frac_start as int, frac_start + kept));
        lemma_pow10_bounds(scale as nat);
        lemma_pow10_bounds((scale - kept) as nat);
        lemma_pow10_mono((dot - start) as nat, 12);
        lemma_pow10_mono(kept as nat, 6);
        lemma_pow10_mono(scale as nat, 6);
        lemma_pow10_mono((scale - kept) as nat, 6);
        lemma_pow10_values();
    }
    let int_scale = pow10_exec(scale);
    let frac_scale = pow10_exec(scale - kept);
    assert(int_value * int_scale <= 1_000_000_000_000 * 1_000_000) by (nonlinear_arith)
        requires
            0 <= int_value <= 1_000_000_000_000,
            1 <= int_scale <= 1_000_000,
    ;
    assert(frac_value * frac_scale <= 1_000_000 * 1_000_000) by (nonlinear_arith)
        requires
            0 <= frac_value <= 1_000_000,
            1 <= frac_scale <= 1_000_000,
    ;
    let magnitude = int_value * int_scale + frac_value * frac_scale;
    if negative {
        Some(-magnitude)
    } else {
        Some(magnitude)
    }
}

proof fn lemma_find_shift(s: Seq<u8>, start: int, b: u8)
    requires
        0 <= start <= s.len(),
    ensures
        find_from(s, start, b) - start == find_from(s.subrange(start, s.len() as int), 0, b),
    decreases s.len() - start,
{
    let t = s.subrange(start, s.len() as int);
    if start < s.len() {
        if s[start] != b {
            lemma_find_shift(s, start + 1, b);
            lemma_find_suffix(t, b);
            assert(t.subrange(1, t.len() as int) =~= s.subrange(start + 1, s.len() as int));
        }
    }
}

proof fn lemma_find_suffix(t: Seq<u8>, b: u8)
    requires
        t.len() > 0,
        t[0] != b,
    ensures
        find_from(t, 0, b) == 1 + find_from(t.subrange(1, t.len() as int), 0, b),
{
    lemma_find_from_one(t, 1, b);
}

proof fn lemma_find_from_one(t: Seq<u8>, k: int, b: u8)
    requires
        1 <= k <= t.len(),
    ensures
        find_from(t, k, b) == 1 + find_from(t.subrange(1, t.len() as int), k - 1, b),
    decreases t.len() - k,
{
    if k < t.len() {
        lemma_find_from_one(t, k + 1, b);
    }
}

fn pow10_exec(n: usize) -> (r: i64)
    requires
        n <= MAX_SCALE,
    ensures
        r == pow10(n as nat),
{
    let mut r: i64 = 1;
    let mut i: usize = 0;
    while i < n
        invariant
            i <= n <= 6,
            r == pow10(i as nat),
            1 <= r <= 1_000_000,
        decreases n - i,
    {
        proof {
            lemma_pow10_mono((i + 1) as nat, 6);
            lemma_pow10_values();
            lemma_pow10_bounds((i + 1) as nat);
            assert(pow10((i + 1) as nat) == 10 * pow10(i as nat));
        }
        r = r * 10;
        i = i + 1;
    }
    r
}

fn all_digits_exec(s: &[u8], start: usize, end: usize) -> (r: bool)
    requires
        start <= end <= s@.len(),
    ensures
        r == all_digits(s@.subrange(start as int, end as int)),
{
    let mut i = start;
    while i < end
        invariant
            start <= i <= end <= s@.len(),
            forall|j: int| start <= j < i ==> is_digit(#[trigger] s@[j]),
        decreases end - i,
    {
        if s[i] < 48 || s[i] > 57 {
            assert(!is_digit(s@.subrange(start as int, end as int)[i - start]));
            return false;
        }
        i = i + 1;
    }
    assert forall|j: int| 0 <= j < end - start implies is_digit(#[trigger] s@.subrange(start as int, end as int)[j]) by {
        assert(s@.subrange(start as int, end as int)[j] == s@[start + j]);
    }
    true
}

} // verus!
