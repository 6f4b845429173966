//! Byte codecs used by the token format: lowercase hexadecimal text and
//! eight-byte big-endian integers.
use vstd::prelude::*;

verus! {

/// The ASCII digit for a nibble: `0`-`9`, then `a`-`f`.
pub open spec fn hex_digit(n: u8) -> u8 {
    if n < 10 {
        (48 + n) as u8
    } else {
        (87 + n) as u8
    }
}

/// The nibble denoted by an ASCII lowercase hex digit, if it is one.
pub open spec fn hex_value(c: u8) -> Option<u8> {
    if 48 <= c <= 57 {
        Some((c - 48) as u8)
    } else if 97 <= c <= 102 {
        Some((c - 87) as u8)
    } else {
        None
    }
}

/// Lowercase hex text of a byte string: two digits per byte, high nibble first.
pub open spec fn hex_of(s: Seq<u8>) -> Seq<u8> {
    Seq::new(
        2 * s.len(),
        |i: int|
            if i % 2 == 0 {
                hex_digit(s[i / 2] / 16)
            } else {
                hex_digit(s[i / 2] % 16)
            },
    )
}

/// The eight bytes of `x`, most significant first.
pub open spec fn be_bytes(x: u64) -> Seq<u8> {
    seq![
        (x >> 56u64) as u8,
        (x >> 48u64) as u8,
        (x >> 40u64) as u8,
        (x >> 32u64) as u8,
        (x >> 24u64) as u8,
        (x >> 16u64) as u8,
        (x >> 8u64) as u8,
        x as u8,
    ]
}

/// The integer whose big-endian bytes are the first eight of `b`.
pub open spec fn from_be(b: Seq<u8>) -> u64 {
    ((b[0] as u64) << 56u64) | ((b[1] as u64) << 48u64) | ((b[2] as u64) << 40u64) | ((
    b[3] as u64) << 32u64) | ((b[4] as u64) << 24u64) | ((b[5] as u64) << 16u64) | ((
    b[6] as u64) << 8u64) | (b[7] as u64)
}

pub proof fn lemma_hex_digit_value(n: u8)
    requires
        n < 16,
    ensures
        hex_value(hex_digit(n)) == Some(n),
        hex_digit(n) != 46,
{
}

pub proof fn lemma_hex_value_digit(c: u8)
    requires
        hex_value(c) is Some,
    ensures
        hex_value(c).unwrap() < 16,
        hex_digit(hex_value(c).unwrap()) == c,
{
}

/// Hex text never holds a `.`.
pub proof fn lemma_hex_has_no_dot(s: Seq<u8>, i: int)
    requires
        0 <= i < hex_of(s).len(),
    ensures
        hex_of(s)[i] != 46,
        hex_value(hex_of(s)[i]) is Some,
{
    let b = s[i / 2];
    assert(b / 16 < 16 && b % 16 < 16) by (bit_vector);
    lemma_hex_digit_value(b / 16);
    lemma_hex_digit_value(b % 16);
}

/// Distinct byte strings have distinct hex text.
pub proof fn lemma_hex_injective(a: Seq<u8>, b: Seq<u8>)
    requires
        hex_of(a) == hex_of(b),
    ensures
        a == b,
{
    assert(hex_of(a).len() == 2 * a.len());
    assert(a.len() == b.len());
    assert forall|k: int| 0 <= k < a.len() implies a[k] == b[k] by {
        let x = a[k];
        let y = b[k];
        assert((2 * k) % 2 == 0 && (2 * k) / 2 == k);
        assert((2 * k + 1) % 2 == 1 && (2 * k + 1) / 2 == k);
        assert(hex_of(a)[2 * k] == hex_of(b)[2 * k]);
        assert(hex_of(a)[2 * k + 1] == hex_of(b)[2 * k + 1]);
        assert(hex_of(a)[2 * k] == hex_digit(x / 16));
        assert(hex_of(b)[2 * k] == hex_digit(y / 16));
        assert(hex_of(a)[2 * k + 1] == hex_digit(x % 16));
        assert(hex_of(b)[2 * k + 1] == hex_digit(y % 16));
        assert(x / 16 < 16 && x % 16 < 16 && y / 16 < 16 && y % 16 < 16) by (bit_vector);
        lemma_hex_digit_value(x / 16);
        lemma_hex_digit_value(y / 16);
        lemma_hex_digit_value(x % 16);
        lemma_hex_digit_value(y % 16);
        assert(x / 16 == y / 16 && x % 16 == y % 16);
        assert(x / 16 == y / 16 && x % 16 == y % 16 ==> x == y) by (bit_vector);
    }
    assert(a =~= b);
}

pub proof fn lemma_be_round_trip(x: u64)
    ensures
        from_be(be_bytes(x)) == x,
{
    let b = be_bytes(x);
    assert(((((x >> 56u64) as u8) as u64) << 56u64) | ((((x >> 48u64) as u8) as u64) << 48u64)
        | ((((x >> 40u64) as u8) as u64) << 40u64) | ((((x >> 32u64) as u8) as u64) << 32u64)
        | ((((x >> 24u64) as u8) as u64) << 24u64) | ((((x >> 16u64) as u8) as u64) << 16u64)
        | ((((x >> 8u64) as u8) as u64) << 8u64) | ((x as u8) as u64) == x) by (bit_vector);
}

pub proof fn lemma_from_be_round_trip(b: Seq<u8>)
    requires
        b.len() == 8,
    ensures
        be_bytes(from_be(b)) == b,
{
    let (b0, b1, b2, b3, b4, b5, b6, b7) = (b[0], b[1], b[2], b[3], b[4], b[5], b[6], b[7]);
    let x = from_be(b);
    assert(x == ((b0 as u64) << 56u64) | ((b1 as u64) << 48u64) | ((b2 as u64) << 40u64) | ((
    b3 as u64) << 32u64) | ((b4 as u64) << 24u64) | ((b5 as u64) << 16u64) | ((b6 as u64)
        << 8u64) | (b7 as u64));
    assert((x >> 56u64) as u8 == b0 && (x >> 48u64) as u8 == b1 && (x >> 40u64) as u8 == b2
        && (x >> 32u64) as u8 == b3 && (x >> 24u64) as u8 == b4 && (x >> 16u64) as u8 == b5
        && (x >> 8u64) as u8 == b6 && x as u8 == b7) by (bit_vector)
        requires
            x == ((b0 as u64) << 56u64) | ((b1 as u64) << 48u64) | ((b2 as u64) << 40u64) | ((
            b3 as u64) << 32u64) | ((b4 as u64) << 24u64) | ((b5 as u64) << 16u64) | ((
            b6 as u64) << 8u64) | (b7 as u64),
    ;
    assert(be_bytes(x) =~= b);
}

/// The ASCII digit for a nibble.
fn nibble_digit(n: u8) -> (r: u8)
    requires
        n < 16,
    ensures
        r == hex_digit(n),
{
    if n < 10 {
        48 + n
    } else {
        87 + n
    }
}

/// The nibble denoted by a lowercase hex digit, if it is one.
fn digit_nibble(c: u8) -> (r: Option<u8>)
    ensures
        r == hex_value(c),
{
    if 48 <= c && c <= 57 {
        Some(c - 48)
    } else if 97 <= c && c <= 102 {
        Some(c - 87)
    } else {
        None
    }
}

/// Appends the lowercase hex text of `s` to `out`.
pub fn push_hex(out: &mut Vec<u8>, s: &[u8])
    requires
        old(out)@.len() + 2 * s@.len() <= usize::MAX,
    ensures
        final(out)@ == old(out)@ + hex_of(s@),
{
    let ghost start = out@;
    let mut i: usize = 0;
    while i < s.len()
        invariant
            i <= s@.len(),
            start.len() + 2 * s@.len() <= usize::MAX,
            out@ =~= start + hex_of(s@).subrange(0, 2 * i as int),
        decreases s@.len() - i,
    {
        let b = s[i];
        assert(b / 16 < 16 && b % 16 < 16) by (bit_vector);
        out.push(nibble_digit(b / 16));
        out.push(nibble_digit(b % 16));
        proof {
            let k = 2 * i as int;
            assert(k % 2 == 0 && k / 2 == i);
            assert((k + 1) % 2 == 1 && (k + 1) / 2 == i);
            assert(hex_of(s@).subrange(0, k + 2) =~= hex_of(s@).subrange(0, k) + seq![
                hex_of(s@)[k],
                hex_of(s@)[k + 1],
            ]);
        }
        i = i + 1;
    }
    assert(hex_of(s@).subrange(0, 2 * s@.len() as int) =~= hex_of(s@));
}

/// Decodes lowercase hex text: `Some` exactly when `s` is the hex text of some
/// byte string, and then that string.
pub fn decode_hex(s: &[u8]) -> (r: Option<Vec<u8>>)
    ensures
        r matches Some(v) ==> hex_of(v@) == s@,
        r is None ==> forall|v: Seq<u8>| hex_of(v) != s@,
{
    if s.len() % 2 != 0 {
        assert forall|v: Seq<u8>| hex_of(v) != s@ by {
            assert(hex_of(v).len() == 2 * v.len());
        }
        return None;
    }
    let len = s.len();
    let n = len / 2;
    let mut out: Vec<u8> = Vec::new();
    let mut i: usize = 0;
    while i < n
        invariant
            len == s@.len(),
            n * 2 == len,
            i <= n,
            out@.len() == i,
            hex_of(out@) == s@.subrange(0, 2 * i as int),
        decreases n - i,
    {
        assert(2 * i + 1 < s@.len());
        let hi = digit_nibble(s[2 * i]);
        let lo = digit_nibble(s[2 * i + 1]);
        match (hi, lo) {
            (Some(h), Some(l)) => {
                proof {
                    lemma_hex_value_digit(s@[2 * i as int]);
                    lemma_hex_value_digit(s@[2 * i + 1]);
                }
                let b = h * 16 + l;
                assert(b / 16 == h && b % 16 == l);
                let ghost prev = out@;
                out.push(b);
                proof {
                    assert forall|k: int| 0 <= k < 2 * (i + 1) implies #[trigger] hex_of(out@)[k]
                        == s@[k] by {
                        if k < 2 * i {
                            assert(hex_of(prev)[k] == s@.subrange(0, 2 * i as int)[k]);
                            assert(k / 2 < i);
                            assert(out@[k / 2] == prev[k / 2]);
                        } else if k == 2 * i {
                            assert(k % 2 == 0 && k / 2 == i);
                        } else {
                            assert(k % 2 == 1 && k / 2 == i);
                        }
                    }
                    assert(hex_of(out@) =~= s@.subrange(0, 2 * (i + 1)));
                }
            },
            _ => {
                proof {
                    assert forall|v: Seq<u8>| hex_of(v) != s@ by {
                        if hex_of(v) == s@ {
                            lemma_hex_has_no_dot(v, 2 * i as int);
                            lemma_hex_has_no_dot(v, 2 * i + 1);
                        }
                    }
                }
                return None;
            },
        }
        i = i + 1;
    }
    assert(s@.subrange(0, 2 * n as int) =~= s@);
    Some(out)
}

/// Appends the eight big-endian bytes of `x` to `out`.
pub fn push_be_u64(out: &mut Vec<u8>, x: u64)
    ensures
        final(out)@ == old(out)@ + be_bytes(x),
{
    out.push((x >> 56u64) as u8);
    out.push((x >> 48u64) as u8);
    out.push((x >> 40u64) as u8);
    out.push((x >> 32u64) as u8);
    out.push((x >> 24u64) as u8);
    out.push((x >> 16u64) as u8);
    out.push((x >> 8u64) as u8);
    out.push(x as u8);
    assert(final(out)@ =~= old(out)@ + be_bytes(x));
}

/// Reads the integer stored big-endian in the first eight bytes of `b`.
pub fn read_be_u64(b: &[u8]) -> (r: u64)
    requires
        b@.len() >= 8,
    ensures
        r == from_be(b@),
{
    ((b[0] as u64) << 56u64) | ((b[1] as u64) << 48u64) | ((b[2] as u64) << 40u64) | ((
    b[3] as u64) << 32u64) | ((b[4] as u64) << 24u64) | ((b[5] as u64) << 16u64) | ((
    b[6] as u64) << 8u64) | (b[7] as u64)
}

} // verus!
