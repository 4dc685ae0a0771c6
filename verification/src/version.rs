//! Release-version comparison used by the update check: versions are split on
//! `.`, `-` and `+`, the pieces that read as a `u64` are kept, and the two
//! lists are compared number by number, a missing number counting as zero.
use vstd::prelude::*;

use crate::text;

verus! {

pub open spec fn is_version_sep(c: char) -> bool {
    c == '.' || c == '-' || c == '+'
}

/// The separator test that version strings are split by.
pub open spec fn version_sep() -> spec_fn(char) -> bool {
    |c: char| is_version_sep(c)
}

pub open spec fn is_ascii_digit(c: char) -> bool {
    '0' <= c && c <= '9'
}

pub open spec fn digit_value(c: char) -> nat {
    ((c as u32) - ('0' as u32)) as nat
}

/// Decimal value of a string of digits.
pub open spec fn digits_value(s: Seq<char>) -> nat
    decreases s.len(),
{
    if s.len() == 0 {
        0
    } else {
        digits_value(s.drop_last()) * 10 + digit_value(s.last())
    }
}

pub open spec fn all_digits(s: Seq<char>) -> bool {
    forall|i: int| 0 <= i < s.len() ==> is_ascii_digit(#[trigger] s[i])
}

/// `u64::from_str(..).ok()`: an optional `+`, then one or more ASCII digits
/// whose value fits in a `u64`.
pub open spec fn parse_u64(s: Seq<char>) -> Option<u64> {
    let digits = if s.len() > 0 && s[0] == '+' {
        s.drop_first()
    } else {
        s
    };
    if digits.len() > 0 && all_digits(digits) && digits_value(digits) <= u64::MAX {
        Some(digits_value(digits) as u64)
    } else {
        None
    }
}

/// The values of the pieces that read as numbers, in order.
pub open spec fn numeric_parts(pieces: Seq<Seq<char>>) -> Seq<u64>
    decreases pieces.len(),
{
    if pieces.len() == 0 {
        Seq::<u64>::empty()
    } else {
        let rest = numeric_parts(pieces.drop_last());
        match parse_u64(pieces.last()) {
            Some(v) => rest.push(v),
            None => rest,
        }
    }
}

/// The numeric components of a version string.
pub open spec fn version_parts(s: Seq<char>) -> Seq<u64> {
    numeric_parts(text::split_by(s, version_sep()))
}

/// Component `i`, zero past the end.
pub open spec fn part_at(p: Seq<u64>, i: int) -> u64 {
    if 0 <= i < p.len() {
        p[i]
    } else {
        0
    }
}

pub open spec fn max_len(a: Seq<u64>, b: Seq<u64>) -> int {
    if a.len() >= b.len() {
        a.len() as int
    } else {
        b.len() as int
    }
}

/// Whether `a` is greater than `b` at the first component from `i` on where
/// they differ.
pub open spec fn newer_from(a: Seq<u64>, b: Seq<u64>, i: int) -> bool
    decreases max_len(a, b) - i,
{
    if i < 0 || i >= max_len(a, b) {
        false
    } else if part_at(a, i) != part_at(b, i) {
        part_at(a, i) > part_at(b, i)
    } else {
        newer_from(a, b, i + 1)
    }
}

/// The order on component lists: the first differing component decides.
pub open spec fn parts_newer(a: Seq<u64>, b: Seq<u64>) -> bool {
    newer_from(a, b, 0)
}

/// Whether version `latest` is newer than version `current`.
pub open spec fn version_newer(latest: Seq<char>, current: Seq<char>) -> bool {
    parts_newer(version_parts(latest), version_parts(current))
}

proof fn lemma_digits_value_step(s: Seq<char>, i: int)
    requires
        0 <= i < s.len(),
    ensures
        digits_value(s.take(i + 1)) == digits_value(s.take(i)) * 10 + digit_value(s[i]),
{
    assert(s.take(i + 1).drop_last() =~= s.take(i));
}

proof fn lemma_digits_value_mono(s: Seq<char>, k: int)
    requires
        0 <= k <= s.len(),
    ensures
        digits_value(s.take(k)) <= digits_value(s),
    decreases s.len() - k,
{
    if k < s.len() {
        lemma_digits_value_mono(s, k + 1);
        lemma_digits_value_step(s, k);
    } else {
        assert(s.take(k) =~= s);
    }
}

/// `u64::from_str(s).ok()` on characters.
pub fn parse_u64_chars(s: &Vec<char>) -> (res: Option<u64>)
    ensures
        res == parse_u64(s@),
{
    let start: usize = if s.len() > 0 && s[0] == '+' {
        1
    } else {
        0
    };
    let ghost digits = if s@.len() > 0 && s@[0] == '+' {
        s@.drop_first()
    } else {
        s@
    };
    assert(digits =~= s@.skip(start as int));
    if start >= s.len() {
        return None;
    }
    let mut val: u64 = 0;
    let mut i: usize = start;
    while i < s.len()
        invariant
            start <= i <= s.len(),
            start < s.len(),
            digits == s@.skip(start as int),
            digits == (if s@.len() > 0 && s@[0] == '+' {
                s@.drop_first()
            } else {
                s@
            }),
            all_digits(digits.take(i - start)),
            val == digits_value(digits.take(i - start)),
        decreases s.len() - i,
    {
        let c = s[i];
        if !('0' <= c && c <= '9') {
            proof {
                assert(digits[i - start] == c);
                assert(!is_ascii_digit(digits[i - start]));
            }
            return None;
        }
        let d = (c as u32 - '0' as u32) as u64;
        proof {
            lemma_digits_value_step(digits, i - start);
            assert(digits[i - start] == c);
        }
        if val > (u64::MAX - d) / 10 {
            proof {
                assert(val * 10 + d > u64::MAX) by (nonlinear_arith)
                    requires
                        val > (u64::MAX - d) / 10,
                        d <= 9,
                ;
                lemma_digits_value_mono(digits, i - start + 1);
                assert(digits_value(digits.take(i - start + 1)) == val * 10 + d);
                assert(digits_value(digits) > u64::MAX);
            }
            return None;
        }
        proof {
            assert(val * 10 + d <= u64::MAX) by (nonlinear_arith)
                requires
                    val <= (u64::MAX - d) / 10,
                    d <= 9,
            ;
        }
        val = val * 10 + d;
        i = i + 1;
        proof {
            assert forall|k: int| 0 <= k < i - start implies is_ascii_digit(
                #[trigger] digits.take(i - start)[k],
            ) by {
                if k < i - start - 1 {
                    assert(digits.take(i - start)[k] == digits.take(i - start - 1)[k]);
                }
            }
        }
    }
    assert(digits.take(i - start) =~= digits);
    Some(val)
}

/// The numeric components of `s`, in order.
pub fn version_parts_of(s: &str) -> (res: Vec<u64>)
    ensures
        res@ == version_parts(s@),
{
    let v = text::chars_of(s);
    let mut parts: Vec<u64> = Vec::new();
    let mut cur: Vec<char> = Vec::new();
    let mut i: usize = 0;
    proof {
        assert(v@.take(0) =~= Seq::<char>::empty());
        assert(text::split_by(v@.take(0), version_sep()).drop_last() =~= Seq::<Seq<char>>::empty());
    }
    while i < v.len()
        invariant
            i <= v.len(),
            v@ == s@,
            text::split_by(v@.take(i as int), version_sep()).len() >= 1,
            text::split_by(v@.take(i as int), version_sep()).last() == cur@,
            parts@ == numeric_parts(text::split_by(v@.take(i as int), version_sep()).drop_last()),
        decreases v.len() - i,
    {
        let c = v[i];
        let ghost p = text::split_by(v@.take(i as int), version_sep());
        proof {
            assert(v@.take(i + 1).drop_last() =~= v@.take(i as int));
            assert(v@.take(i + 1).last() == c);
            assert(p.drop_last().push(p.last()) =~= p);
        }
        if c == '.' || c == '-' || c == '+' {
            let n = parse_u64_chars(&cur);
            match n {
                Some(x) => parts.push(x),
                None => {},
            }
            cur = Vec::new();
            proof {
                let q = text::split_by(v@.take(i + 1), version_sep());
                assert(q == p.push(Seq::<char>::empty()));
                assert(q.drop_last() =~= p);
                assert(cur@ =~= Seq::<char>::empty());
            }
        } else {
            cur.push(c);
            proof {
                let q = text::split_by(v@.take(i + 1), version_sep());
                assert(q == p.update(p.len() - 1, p.last().push(c)));
                assert(q.drop_last() =~= p.drop_last());
            }
        }
        i = i + 1;
    }
    let ghost p = text::split_by(v@.take(i as int), version_sep());
    proof {
        assert(v@.take(i as int) =~= v@);
        assert(p.drop_last().push(p.last()) =~= p);
    }
    let n = parse_u64_chars(&cur);
    match n {
        Some(x) => parts.push(x),
        None => {},
    }
    parts
}

/// Whether release `latest` is newer than `current`: both are split on `.`,
/// `-` and `+`, pieces that are not numbers are dropped, and the numbers are
/// compared in turn with a missing number counting as zero.
pub fn is_newer(latest: &str, current: &str) -> (res: bool)
    ensures
        res == version_newer(latest@, current@),
{
    let a = version_parts_of(latest);
    let b = version_parts_of(current);
    let n = if a.len() >= b.len() {
        a.len()
    } else {
        b.len()
    };
    let mut i: usize = 0;
    while i < n
        invariant
            i <= n,
            n == max_len(a@, b@),
            a@ == version_parts(latest@),
            b@ == version_parts(current@),
            newer_from(a@, b@, 0) == newer_from(a@, b@, i as int),
        decreases n - i,
    {
        let av: u64 = if i < a.len() {
            a[i]
        } else {
            0
        };
        let bv: u64 = if i < b.len() {
            b[i]
        } else {
            0
        };
        assert(av == part_at(a@, i as int) && bv == part_at(b@, i as int));
        if av != bv {
            return av > bv;
        }
        i = i + 1;
    }
    false
}

proof fn lemma_newer_irreflexive(a: Seq<u64>, i: int)
    ensures
        !newer_from(a, a, i),
    decreases max_len(a, a) - i,
{
    if 0 <= i < max_len(a, a) {
        lemma_newer_irreflexive(a, i + 1);
    }
}

proof fn lemma_newer_asymmetric(a: Seq<u64>, b: Seq<u64>, i: int)
    requires
        newer_from(a, b, i),
    ensures
        !newer_from(b, a, i),
    decreases max_len(a, b) - i,
{
    if 0 <= i < max_len(a, b) && part_at(a, i) == part_at(b, i) {
        lemma_newer_asymmetric(a, b, i + 1);
    }
}

proof fn lemma_newer_transitive(a: Seq<u64>, b: Seq<u64>, c: Seq<u64>, i: int)
    requires
        i >= 0,
        newer_from(a, b, i),
        newer_from(b, c, i),
    ensures
        newer_from(a, c, i),
    decreases max_len(a, b) + max_len(b, c) - 2 * i,
{
    if part_at(a, i) == part_at(b, i) && part_at(b, i) == part_at(c, i) {
        lemma_newer_transitive(a, b, c, i + 1);
    }
}

/// A version is never newer than itself.
pub proof fn law_is_newer_irreflexive(v: Seq<char>)
    ensures
        !version_newer(v, v),
{
    lemma_newer_irreflexive(version_parts(v), 0);
}

/// Of two versions, at most one is newer than the other.
pub proof fn law_is_newer_asymmetric(a: Seq<char>, b: Seq<char>)
    requires
        version_newer(a, b),
    ensures
        !version_newer(b, a),
{
    lemma_newer_asymmetric(version_parts(a), version_parts(b), 0);
}

/// Newer-than is transitive.
pub proof fn law_is_newer_transitive(a: Seq<char>, b: Seq<char>, c: Seq<char>)
    requires
        version_newer(a, b),
        version_newer(b, c),
    ensures
        version_newer(a, c),
{
    lemma_newer_transitive(version_parts(a), version_parts(b), version_parts(c), 0);
}

} // verus!
