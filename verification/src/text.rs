//! Byte-level text utilities the wire codec is built on: exact comparison,
//! appending, and decimal numerals.

use vstd::prelude::*;
use vstd::string::StringSliceAdditionalSpecFns;

verus! {

broadcast use vstd::utf8::encode_utf8_decode_utf8;

/// Byte-exact comparison of two slices.
pub fn bytes_eq(a: &[u8], b: &[u8]) -> (r: bool)
    ensures
        r == (a@ == b@),
{
    if a.len() != b.len() {
        return false;
    }
    let n = a.len();
    for i in 0..n
        invariant
            n == a@.len(),
            a@.len() == b@.len(),
            forall|j: int| 0 <= j < i ==> a@[j] == b@[j],
    {
        if a[i] != b[i] {
            return false;
        }
    }
    proof {
        assert(a@ =~= b@);
    }
    true
}

/// Byte-exact comparison of two strings; equal bytes decode to equal text.
pub fn str_eq(a: &str, b: &str) -> (r: bool)
    ensures
        r == (a@ == b@),
{
    let r = bytes_eq(a.as_bytes(), b.as_bytes());
    proof {
        if a.spec_bytes() == b.spec_bytes() {
            assert(vstd::utf8::decode_utf8(a.spec_bytes()) == a@);
            assert(vstd::utf8::decode_utf8(b.spec_bytes()) == b@);
        }
    }
    r
}

/// Append a whole slice to a byte vector.
pub fn push_bytes(out: &mut Vec<u8>, s: &[u8])
    ensures
        final(out)@ == old(out)@ + s@,
{
    let n = s.len();
    for i in 0..n
        invariant
            n == s@.len(),
            out@ == old(out)@ + s@.take(i as int),
    {
        out.push(s[i]);
        proof {
            assert(old(out)@ + s@.take(i as int) + seq![s@[i as int]] =~= old(out)@ + s@.take(
                i as int + 1,
            ));
        }
    }
    proof {
        assert(s@.take(s@.len() as int) =~= s@);
    }
}

/// Append a string's bytes to a byte vector.
pub fn push_str_bytes(out: &mut Vec<u8>, s: &str)
    ensures
        final(out)@ == old(out)@ + s.spec_bytes(),
{
    push_bytes(out, s.as_bytes());
}

/// The decimal numeral of `n`, most significant digit first, as bytes.
pub open spec fn spec_dec_digits(n: int) -> Seq<u8>
    decreases n,
{
    if n < 10 {
        seq![(48 + if n >= 0 { n } else { 0 }) as u8]
    } else {
        spec_dec_digits(n / 10).push((48 + n % 10) as u8)
    }
}

/// The value of a digit sequence read as a decimal numeral.
pub open spec fn spec_dec_value(s: Seq<u8>) -> int
    decreases s.len(),
{
    if s.len() == 0 {
        0
    } else {
        spec_dec_value(s.drop_last()) * 10 + (s.last() - 48)
    }
}

/// Every byte is an ASCII digit.
pub open spec fn spec_all_digits(s: Seq<u8>) -> bool {
    forall|i: int| 0 <= i < s.len() ==> 48 <= #[trigger] s[i] <= 57
}

/// Append the decimal numeral of `n`.
pub fn push_u64_dec(out: &mut Vec<u8>, n: u64)
    ensures
        final(out)@ == old(out)@ + spec_dec_digits(n as int),
    decreases n,
{
    if n >= 10 {
        push_u64_dec(out, n / 10);
        let d: u8 = 48 + (n % 10) as u8;
        out.push(d);
        proof {
            assert(old(out)@ + spec_dec_digits(n as int / 10) + seq![(48 + n as int % 10) as u8]
                =~= old(out)@ + spec_dec_digits(n as int));
        }
    } else {
        let d: u8 = 48 + n as u8;
        out.push(d);
        proof {
            assert(old(out)@ + seq![(48 + n as int) as u8] =~= old(out)@ + spec_dec_digits(
                n as int,
            ));
        }
    }
}

/// A numeral is never empty and holds ASCII digits only.
pub proof fn lemma_dec_digits_are_digits(n: int)
    ensures
        spec_dec_digits(n).len() > 0,
        spec_all_digits(spec_dec_digits(n)),
    decreases n,
{
    if n >= 10 {
        lemma_dec_digits_are_digits(n / 10);
        assert forall|i: int| 0 <= i < spec_dec_digits(n).len() implies 48 <= #[trigger] spec_dec_digits(
            n,
        )[i] <= 57 by {
            if i < spec_dec_digits(n / 10).len() {
                assert(spec_dec_digits(n)[i] == spec_dec_digits(n / 10)[i]);
            }
        }
    }
}

/// A decimal numeral's value only grows as more of its digits are read.
proof fn lemma_dec_value_prefix(s: Seq<u8>, i: int)
    requires
        0 <= i <= s.len(),
        spec_all_digits(s),
    ensures
        spec_dec_value(s) >= spec_dec_value(s.take(i)),
        spec_dec_value(s) >= 0,
    decreases s.len(),
{
    if s.len() == 0 {
        assert(s.take(i) =~= s);
    } else if i == s.len() {
        assert(s.take(i) =~= s);
        assert(spec_all_digits(s.drop_last()));
        lemma_dec_value_prefix(s.drop_last(), s.len() - 1);
    } else {
        assert(s.drop_last().take(i) =~= s.take(i));
        assert(spec_all_digits(s.drop_last()));
        lemma_dec_value_prefix(s.drop_last(), i);
    }
}

/// Parse a decimal numeral: `Some` exactly on a non-empty all-digit slice
/// whose value fits in a `u64`, and then the value read.
pub fn parse_u64_dec(s: &[u8]) -> (r: Option<u64>)
    ensures
        (r is Some) <==> (s@.len() > 0 && spec_all_digits(s@) && spec_dec_value(s@)
            <= u64::MAX as int),
        r matches Some(v) ==> v as int == spec_dec_value(s@),
{
    if s.len() == 0 {
        return None;
    }
    let mut acc: u64 = 0;
    let n = s.len();
    for i in 0..n
        invariant
            n == s@.len(),
            spec_all_digits(s@.take(i as int)),
            acc as int == spec_dec_value(s@.take(i as int)),
    {
        let b = s[i];
        if b < 48 || b > 57 {
            return None;
        }
        let d: u64 = (b - 48) as u64;
        proof {
            assert(s@.take(i as int + 1).drop_last() =~= s@.take(i as int));
        }
        if acc > (u64::MAX - d) / 10 {
            proof {
                let q = (u64::MAX - d) as int / 10;
                let rm = (u64::MAX - d) as int % 10;
                assert((u64::MAX - d) as int == 10 * q + rm);
                assert(acc as int * 10 + d as int > u64::MAX as int) by (nonlinear_arith)
                    requires
                        acc as int > q,
                        (u64::MAX - d) as int == 10 * q + rm,
                        0 <= rm < 10,
                        0 <= d as int <= u64::MAX as int,
                ;
                if spec_all_digits(s@) {
                    lemma_dec_value_prefix(s@, i as int + 1);
                    assert(spec_dec_value(s@.take(i as int + 1)) == acc as int * 10 + d as int);
                }
            }
            return None;
        }
        proof {
            let q = (u64::MAX - d) as int / 10;
            let rm = (u64::MAX - d) as int % 10;
            assert((u64::MAX - d) as int == 10 * q + rm);
            assert(acc as int * 10 + d as int <= u64::MAX as int) by (nonlinear_arith)
                requires
                    acc as int <= q,
                    (u64::MAX - d) as int == 10 * q + rm,
                    0 <= rm < 10,
                    0 <= d as int <= u64::MAX as int,
            ;
        }
        acc = acc * 10 + d;
    }
    proof {
        assert(s@.take(s@.len() as int) =~= s@);
    }
    Some(acc)
}

} // verus!
