use vstd::prelude::*;
use vstd::slice::slice_to_vec;
use vstd::string::StringSliceAdditionalSpecFns;

use crate::error::ValidationError;

verus! {

/// Whether a byte is an ASCII decimal digit.
pub open spec fn is_dec_digit(b: u8) -> bool {
    48 <= b <= 57
}

/// Whether every byte of a sequence is a decimal digit.
pub open spec fn all_dec_digits(s: Seq<u8>) -> bool {
    forall|i: int| 0 <= i < s.len() ==> is_dec_digit(#[trigger] s[i])
}

/// The number a digit sequence spells, most significant first.
pub open spec fn digits_value(s: Seq<u8>) -> int
    decreases s.len(),
{
    if s.len() == 0 {
        0
    } else {
        digits_value(s.drop_last()) * 10 + (s.last() - 48)
    }
}

/// Ten to the power k.
pub open spec fn pow10(k: nat) -> int
    decreases k,
{
    if k == 0 {
        1
    } else {
        10 * pow10((k - 1) as nat)
    }
}

/// The index of the first dot in a byte sequence, or -1 if it has none.
pub open spec fn first_dot_index(s: Seq<u8>) -> int
    decreases s.len(),
{
    if s.len() == 0 {
        -1
    } else if s[0] == 46 {
        0
    } else {
        if first_dot_index(s.drop_first()) < 0 {
            -1
        } else {
            1 + first_dot_index(s.drop_first())
        }
    }
}

/// Whether a byte sequence spells a non-negative decimal amount: digits,
/// optionally followed by a dot and one to eighteen fractional digits.
pub open spec fn valid_amount_bytes(s: Seq<u8>) -> bool {
    let d = first_dot_index(s);
    if d < 0 {
        s.len() >= 1 && all_dec_digits(s)
    } else {
        &&& d >= 1
        &&& all_dec_digits(s.take(d))
        &&& 1 <= s.len() - d - 1 <= 18
        &&& all_dec_digits(s.skip(d + 1))
    }
}

/// The amount in the smallest unit that a decimal string spells: the whole
/// part scaled by ten to the eighteenth, plus the fraction scaled to fill
/// the remaining places.
pub open spec fn wei_value(s: Seq<u8>) -> int {
    let d = first_dot_index(s);
    if d < 0 {
        digits_value(s) * pow10(18)
    } else {
        digits_value(s.take(d)) * pow10(18) + digits_value(s.skip(d + 1)) * pow10(
            (18 - (s.len() - d - 1)) as nat,
        )
    }
}

/// A digit sequence spells a non-negative number.
proof fn lemma_digits_value_nonneg(s: Seq<u8>)
    requires
        all_dec_digits(s),
    ensures
        digits_value(s) >= 0,
    decreases s.len(),
{
    if s.len() > 0 {
        assert(all_dec_digits(s.drop_last())) by {
            assert(forall|i: int|
                0 <= i < s.len() - 1 ==> s.drop_last()[i] == #[trigger] s[i]);
        }
        lemma_digits_value_nonneg(s.drop_last());
    }
}

/// Ten to any power is at least one.
proof fn lemma_pow10_pos(k: nat)
    ensures
        pow10(k) >= 1,
    decreases k,
{
    if k > 0 {
        lemma_pow10_pos((k - 1) as nat);
    }
}

/// Ten to a power never shrinks as the power grows.
proof fn lemma_pow10_mono(a: nat, b: nat)
    requires
        a <= b,
    ensures
        pow10(a) <= pow10(b),
    decreases b,
{
    if a < b {
        lemma_pow10_mono(a, (b - 1) as nat);
        lemma_pow10_pos((b - 1) as nat);
    }
}

/// A sequence of k digits spells less than ten to the k.
proof fn lemma_digits_value_bound(s: Seq<u8>)
    requires
        all_dec_digits(s),
    ensures
        digits_value(s) < pow10(s.len()),
    decreases s.len(),
{
    if s.len() > 0 {
        assert(all_dec_digits(s.drop_last())) by {
            assert(forall|i: int|
                0 <= i < s.len() - 1 ==> s.drop_last()[i] == #[trigger] s[i]);
        }
        lemma_digits_value_bound(s.drop_last());
    }
}

/// A prefix of a digit sequence spells at most the whole sequence's number.
proof fn lemma_digits_value_prefix(s: Seq<u8>, i: int)
    requires
        all_dec_digits(s),
        0 <= i <= s.len(),
    ensures
        digits_value(s.take(i)) <= digits_value(s),
    decreases s.len() - i,
{
    if i < s.len() {
        assert(s.take(i + 1).drop_last() =~= s.take(i));
        assert(s.take(i + 1).last() == s[i]);
        assert(all_dec_digits(s.take(i + 1))) by {
            assert(forall|j: int|
                0 <= j < i + 1 ==> s.take(i + 1)[j] == #[trigger] s[j]);
        }
        assert(all_dec_digits(s.take(i))) by {
            assert(forall|j: int| 0 <= j < i ==> s.take(i)[j] == #[trigger] s[j]);
        }
        lemma_digits_value_nonneg(s.take(i));
        assert(digits_value(s.take(i + 1)) == digits_value(s.take(i)) * 10 + (s[i] - 48));
        lemma_digits_value_prefix(s, i + 1);
    } else {
        assert(s.take(i) =~= s);
    }
}

/// Where a dot first stands, the spec index agrees.
proof fn lemma_first_dot_at(s: Seq<u8>, i: int)
    requires
        0 <= i < s.len(),
        s[i] == 46,
        forall|j: int| 0 <= j < i ==> s[j] != 46,
    ensures
        first_dot_index(s) == i,
    decreases s.len(),
{
    if i > 0 {
        lemma_first_dot_at(s.drop_first(), i - 1);
    }
}

/// A sequence without a dot has no first dot.
proof fn lemma_no_dot(s: Seq<u8>)
    requires
        forall|j: int| 0 <= j < s.len() ==> s[j] != 46,
    ensures
        first_dot_index(s) == -1,
    decreases s.len(),
{
    if s.len() > 0 {
        lemma_no_dot(s.drop_first());
    }
}

/// Whether a slice holds decimal digits only.
fn check_digits(bytes: &Vec<u8>, start: usize, end: usize) -> (r: bool)
    requires
        start <= end <= bytes@.len(),
    ensures
        r == all_dec_digits(bytes@.subrange(start as int, end as int)),
{
    let ghost sub = bytes@.subrange(start as int, end as int);
    let mut i: usize = start;
    while i < end
        invariant
            start <= i <= end <= bytes@.len(),
            sub == bytes@.subrange(start as int, end as int),
            forall|j: int| 0 <= j < i - start ==> is_dec_digit(#[trigger] sub[j]),
        decreases end - i,
    {
        let b = bytes[i];
        if b < 48 || b > 57 {
            assert(sub[i - start] == b);
            return false;
        }
        i += 1;
    }
    true
}

/// The number a slice of digits spells, with the malformed and the
/// out-of-range bytes told apart: a non-digit anywhere is malformed, a
/// value beyond the machine range is too large.
fn parse_decimal_digits(bytes: &Vec<u8>, start: usize, end: usize) -> (r: Result<
    u128,
    ValidationError,
>)
    requires
        start <= end <= bytes@.len(),
    ensures
        !all_dec_digits(bytes@.subrange(start as int, end as int)) ==> r == Err::<
            u128,
            ValidationError,
        >(ValidationError::MalformedAmount),
        all_dec_digits(bytes@.subrange(start as int, end as int)) ==> (if digits_value(
            bytes@.subrange(start as int, end as int),
        ) <= u128::MAX {
            r == Ok::<u128, ValidationError>(
                (digits_value(bytes@.subrange(start as int, end as int)) as u128),
            )
        } else {
            r == Err::<u128, ValidationError>(ValidationError::Overflow)
        }),
{
    let ghost sub = bytes@.subrange(start as int, end as int);
    let mut i: usize = start;
    while i < end
        invariant
            start <= i <= end <= bytes@.len(),
            sub == bytes@.subrange(start as int, end as int),
            forall|j: int| 0 <= j < i - start ==> is_dec_digit(#[trigger] sub[j]),
        decreases end - i,
    {
        let b = bytes[i];
        if b < 48 || b > 57 {
            assert(sub[i - start] == b);
            return Err(ValidationError::MalformedAmount);
        }
        i += 1;
    }
    assert(all_dec_digits(sub));
    let mut acc: u128 = 0;
    i = start;
    proof {
        assert(sub.take(0) =~= Seq::<u8>::empty());
    }
    while i < end
        invariant
            start <= i <= end <= bytes@.len(),
            sub == bytes@.subrange(start as int, end as int),
            all_dec_digits(sub),
            acc == digits_value(sub.take(i - start)),
        decreases end - i,
    {
        let b = bytes[i];
        assert(sub[i - start] == b);
        let scaled = match acc.checked_mul(10) {
            Some(x) => x,
            None => {
                proof {
                    assert(sub.take(i - start + 1).drop_last() =~= sub.take(i - start));
                    assert(sub.take(i - start + 1).last() == sub[i - start]);
                    assert(digits_value(sub.take(i - start + 1)) == acc * 10 + (b - 48));
                    overflow_means_whole_too_large(sub, i - start + 1);
                }
                return Err(ValidationError::Overflow);
            },
        };
        let next = match scaled.checked_add((b - 48) as u128) {
            Some(x) => x,
            None => {
                proof {
                    assert(sub.take(i - start + 1).drop_last() =~= sub.take(i - start));
                    assert(sub.take(i - start + 1).last() == sub[i - start]);
                    assert(digits_value(sub.take(i - start + 1)) == acc * 10 + (b - 48));
                    overflow_means_whole_too_large(sub, i - start + 1);
                }
                return Err(ValidationError::Overflow);
            },
        };
        proof {
            assert(sub.take(i - start + 1).drop_last() =~= sub.take(i - start));
            assert(sub.take(i - start + 1).last() == sub[i - start]);
        }
        acc = next;
        i += 1;
    }
    proof {
        assert(sub.take(end - start) =~= sub);
    }
    Ok(acc)
}

/// A digit prefix already beyond the machine range puts the whole sequence
/// beyond it.
proof fn overflow_means_whole_too_large(s: Seq<u8>, i: int)
    requires
        all_dec_digits(s),
        0 <= i <= s.len(),
        digits_value(s.take(i)) > u128::MAX,
    ensures
        digits_value(s) > u128::MAX,
{
    lemma_digits_value_prefix(s, i);
}

/// Ten to the power k, executably, for the fractional scaling.
fn pow10_u128(k: u64) -> (r: u128)
    requires
        k <= 18,
    ensures
        r == pow10(k as nat),
        r >= 1,
{
    let mut r: u128 = 1;
    let mut j: u64 = 0;
    while j < k
        invariant
            j <= k <= 18,
            r == pow10(j as nat),
            1 <= r <= 0xDE0B6B3A7640000,
        decreases k - j,
    {
        proof {
            reveal_with_fuel(pow10, 20);
            lemma_pow10_mono((j + 1) as nat, 18);
            assert(pow10(18) == 0xDE0B6B3A7640000);
            assert(pow10((j + 1) as nat) == 10 * pow10(j as nat));
            lemma_pow10_pos((j + 1) as nat);
        }
        r = r * 10;
        j += 1;
    }
    proof {
        lemma_pow10_pos(k as nat);
    }
    r
}

/// Reads a non-negative decimal amount of whole currency units — digits
/// with an optional dot and up to eighteen fractional digits — as an
/// integer count of the smallest unit. Exactly the strings of any other
/// shape are malformed; a well-formed amount beyond the machine range is
/// too large. No floating point touches the value.
pub fn parse_ether(s: &str) -> (r: Result<u128, ValidationError>)
    ensures
        !valid_amount_bytes(s.spec_bytes()) ==> r == Err::<u128, ValidationError>(
            ValidationError::MalformedAmount,
        ),
        valid_amount_bytes(s.spec_bytes()) ==> (if wei_value(s.spec_bytes()) <= u128::MAX {
            r == Ok::<u128, ValidationError>((wei_value(s.spec_bytes()) as u128))
        } else {
            r == Err::<u128, ValidationError>(ValidationError::Overflow)
        }),
{
    let bytes: Vec<u8> = slice_to_vec(s.as_bytes());
    let ghost sq = s.spec_bytes();
    let n = bytes.len();
    let mut dot: Option<usize> = None;
    let mut i: usize = 0;
    while i < n
        invariant
            i <= n == bytes@.len(),
            sq == bytes@,
            dot is None ==> forall|j: int| 0 <= j < i ==> sq[j] != 46,
            dot matches Some(d) ==> d < i && sq[d as int] == 46 && (forall|j: int|
                0 <= j < d ==> sq[j] != 46),
        decreases n - i,
    {
        if bytes[i] == 46 && dot.is_none() {
            dot = Some(i);
        }
        i += 1;
    }
    match dot {
        None => {
            proof {
                lemma_no_dot(sq);
            }
            if n == 0 {
                return Err(ValidationError::MalformedAmount);
            }
            if !check_digits(&bytes, 0, n) {
                proof {
                    assert(bytes@.subrange(0, n as int) =~= sq);
                }
                return Err(ValidationError::MalformedAmount);
            }
            let whole = match parse_decimal_digits(&bytes, 0, n) {
                Ok(v) => v,
                Err(e) => {
                    proof {
                        assert(bytes@.subrange(0, n as int) =~= sq);
                        if all_dec_digits(sq) && digits_value(sq) > u128::MAX {
                            lemma_pow10_pos(18);
                            assert(digits_value(sq) * pow10(18) >= digits_value(sq) * 1)
                                by (nonlinear_arith)
                                requires
                                    digits_value(sq) >= 0,
                                    pow10(18) >= 1,
                            ;
                        }
                    }
                    return Err(e);
                },
            };
            proof {
                assert(bytes@.subrange(0, n as int) =~= sq);
                lemma_digits_value_nonneg(sq);
            }
            let scale = pow10_u128(18);
            match whole.checked_mul(scale) {
                Some(v) => Ok(v),
                None => {
                    return Err(ValidationError::Overflow);
                },
            }
        },
        Some(d) => {
            proof {
                lemma_first_dot_at(sq, d as int);
            }
            let frac_len = n - d - 1;
            if d < 1 || frac_len < 1 || frac_len > 18 {
                return Err(ValidationError::MalformedAmount);
            }
            let ghost whole_sq = sq.take(d as int);
            let ghost frac_sq = sq.skip(d as int + 1);
            proof {
                assert(whole_sq =~= bytes@.subrange(0, d as int));
                assert(frac_sq =~= bytes@.subrange(d as int + 1, n as int));
                lemma_pow10_pos(18);
                lemma_pow10_pos((18 - frac_len) as nat);
            }
            if !check_digits(&bytes, 0, d) || !check_digits(&bytes, d + 1, n) {
                return Err(ValidationError::MalformedAmount);
            }
            let whole = match parse_decimal_digits(&bytes, 0, d) {
                Ok(v) => v,
                Err(e) => {
                    proof {
                        if digits_value(whole_sq) > u128::MAX {
                            lemma_digits_value_nonneg(frac_sq);
                            assert(digits_value(whole_sq) * pow10(18) >= digits_value(whole_sq))
                                by (nonlinear_arith)
                                requires
                                    digits_value(whole_sq) > 0,
                                    pow10(18) >= 1,
                            ;
                            assert(digits_value(frac_sq) * pow10((18 - frac_len) as nat) >= 0)
                                by (nonlinear_arith)
                                requires
                                    digits_value(frac_sq) >= 0,
                                    pow10((18 - frac_len) as nat) >= 1,
                            ;
                        }
                    }
                    return Err(e);
                },
            };
            let frac = match parse_decimal_digits(&bytes, d + 1, n) {
                Ok(v) => v,
                Err(e) => {
                    proof {
                        lemma_digits_value_bound(frac_sq);
                        lemma_pow10_mono(frac_sq.len(), 18);
                        reveal_with_fuel(pow10, 20);
                        assert(pow10(18) == 0xDE0B6B3A7640000);
                        assert(false);
                    }
                    return Err(e);
                },
            };
            proof {
                lemma_digits_value_nonneg(whole_sq);
                lemma_digits_value_nonneg(frac_sq);
            }
            let scale = pow10_u128(18);
            let whole_scaled = match whole.checked_mul(scale) {
                Some(v) => v,
                None => {
                    proof {
                        assert(digits_value(frac_sq) * pow10((18 - frac_len) as nat) >= 0)
                            by (nonlinear_arith)
                            requires
                                digits_value(frac_sq) >= 0,
                                pow10((18 - frac_len) as nat) >= 1,
                        ;
                    }
                    return Err(ValidationError::Overflow);
                },
            };
            let frac_scale_rest = pow10_u128((18 - frac_len) as u64);
            let frac_scaled = match frac.checked_mul(frac_scale_rest) {
                Some(v) => v,
                None => {
                    proof {
                        assert(digits_value(whole_sq) * pow10(18) >= 0) by (nonlinear_arith)
                            requires
                                digits_value(whole_sq) >= 0,
                                pow10(18) >= 1,
                        ;
                    }
                    return Err(ValidationError::Overflow);
                },
            };
            match whole_scaled.checked_add(frac_scaled) {
                Some(v) => Ok(v),
                None => Err(ValidationError::Overflow),
            }
        },
    }
}

} // verus!
