//! Little-endian integer encoding and small byte-vector helpers used by the
//! on-disk record format.

use vstd::prelude::*;

verus! {

/// The four little-endian bytes of a `u32`.
pub open spec fn u32_le_spec(v: u32) -> Seq<u8> {
    seq![
        (v & 0xff) as u8,
        ((v >> 8) & 0xff) as u8,
        ((v >> 16) & 0xff) as u8,
        ((v >> 24) & 0xff) as u8,
    ]
}

/// The eight little-endian bytes of a `u64`.
pub open spec fn u64_le_spec(v: u64) -> Seq<u8> {
    seq![
        (v & 0xff) as u8,
        ((v >> 8) & 0xff) as u8,
        ((v >> 16) & 0xff) as u8,
        ((v >> 24) & 0xff) as u8,
        ((v >> 32) & 0xff) as u8,
        ((v >> 40) & 0xff) as u8,
        ((v >> 48) & 0xff) as u8,
        ((v >> 56) & 0xff) as u8,
    ]
}

/// The `u32` denoted by a four-byte little-endian sequence.
pub open spec fn u32_from_le_spec(b: Seq<u8>) -> u32
    recommends
        b.len() == 4,
{
    (b[0] as u32) | ((b[1] as u32) << 8) | ((b[2] as u32) << 16) | ((b[3] as u32) << 24)
}

/// Encoding a `u32` and reading the bytes back gives the original value.
pub proof fn lemma_u32_le_roundtrip(v: u32)
    ensures
        u32_from_le_spec(u32_le_spec(v)) == v,
{
    let b0 = (v & 0xff) as u8;
    let b1 = ((v >> 8) & 0xff) as u8;
    let b2 = ((v >> 16) & 0xff) as u8;
    let b3 = ((v >> 24) & 0xff) as u8;
    assert((b0 as u32) | ((b1 as u32) << 8) | ((b2 as u32) << 16) | ((b3 as u32) << 24) == v)
        by (bit_vector)
        requires
            b0 == (v & 0xff) as u8,
            b1 == ((v >> 8) & 0xff) as u8,
            b2 == ((v >> 16) & 0xff) as u8,
            b3 == ((v >> 24) & 0xff) as u8,
    ;
}

/// Append the four little-endian bytes of `v` to `out`.
pub fn push_u32_le(out: &mut Vec<u8>, v: u32)
    ensures
        final(out)@ == old(out)@ + u32_le_spec(v),
{
    out.push((v & 0xff) as u8);
    out.push(((v >> 8) & 0xff) as u8);
    out.push(((v >> 16) & 0xff) as u8);
    out.push(((v >> 24) & 0xff) as u8);
    assert(out@ =~= old(out)@ + u32_le_spec(v));
}

/// Append the eight little-endian bytes of `v` to `out`.
pub fn push_u64_le(out: &mut Vec<u8>, v: u64)
    ensures
        final(out)@ == old(out)@ + u64_le_spec(v),
{
    out.push((v & 0xff) as u8);
    out.push(((v >> 8) & 0xff) as u8);
    out.push(((v >> 16) & 0xff) as u8);
    out.push(((v >> 24) & 0xff) as u8);
    out.push(((v >> 32) & 0xff) as u8);
    out.push(((v >> 40) & 0xff) as u8);
    out.push(((v >> 48) & 0xff) as u8);
    out.push(((v >> 56) & 0xff) as u8);
    assert(out@ =~= old(out)@ + u64_le_spec(v));
}

/// Read the little-endian `u32` stored at `pos`.
pub fn read_u32_le(buf: &Vec<u8>, pos: usize) -> (r: u32)
    requires
        pos + 4 <= buf@.len(),
    ensures
        r == u32_from_le_spec(buf@.subrange(pos as int, pos as int + 4)),
{
    let n = buf.len();
    assert(pos + 4 <= n);
    let b0 = buf[pos];
    let b1 = buf[pos + 1];
    let b2 = buf[pos + 2];
    let b3 = buf[pos + 3];
    (b0 as u32) | ((b1 as u32) << 8) | ((b2 as u32) << 16) | ((b3 as u32) << 24)
}

/// The characters an ASCII byte sequence denotes, one per byte.
pub open spec fn ascii_chars(b: Seq<u8>) -> Seq<char> {
    Seq::new(b.len(), |i: int| b[i] as char)
}

/// Relies on `String::from_utf8_lossy`: ASCII bytes are valid UTF-8 and
/// decode one character per byte, each the same code point as the byte.
#[verifier::external_body]
pub fn ascii_string(bytes: &Vec<u8>) -> (r: String)
    requires
        forall|i: int| 0 <= i < bytes@.len() ==> bytes@[i] < 0x80,
    ensures
        r@ == ascii_chars(bytes@),
{
    String::from_utf8_lossy(bytes.as_slice()).into_owned()
}

/// The ASCII decimal digits of `v`, most significant first, no leading zeros.
pub open spec fn decimal_bytes_spec(v: nat) -> Seq<u8>
    decreases v,
{
    if v < 10 {
        seq![(48 + v) as u8]
    } else {
        decimal_bytes_spec(v / 10).push((48 + v % 10) as u8)
    }
}

/// The decimal digits of `v`, zero-padded on the left to at least `width`.
pub open spec fn padded_decimal_spec(v: nat, width: nat) -> Seq<u8> {
    if decimal_bytes_spec(v).len() >= width {
        decimal_bytes_spec(v)
    } else {
        Seq::new((width - decimal_bytes_spec(v).len()) as nat, |i: int| 48u8) + decimal_bytes_spec(
            v,
        )
    }
}

/// Every decimal digit byte is an ASCII digit.
pub proof fn lemma_decimal_bytes_ascii(v: nat)
    ensures
        forall|i: int|
            0 <= i < decimal_bytes_spec(v).len() ==> 48 <= #[trigger] decimal_bytes_spec(v)[i]
                <= 57,
    decreases v,
{
    if v >= 10 {
        lemma_decimal_bytes_ascii(v / 10);
        let s = decimal_bytes_spec(v / 10);
        let d = (48 + v % 10) as u8;
        assert forall|i: int|
            0 <= i < decimal_bytes_spec(v).len() implies 48 <= #[trigger] decimal_bytes_spec(v)[i]
            <= 57 by {
            assert(decimal_bytes_spec(v) == s.push(d));
            if i < s.len() {
                assert(decimal_bytes_spec(v)[i] == s[i]);
            } else {
                assert(decimal_bytes_spec(v)[i] == d);
            }
        }
    }
}

/// Append the decimal digits of `v`, most significant first.
pub fn push_decimal(out: &mut Vec<u8>, v: u64)
    ensures
        final(out)@ == old(out)@ + decimal_bytes_spec(v as nat),
    decreases v,
{
    if v >= 10 {
        push_decimal(out, v / 10);
    }
    let d: u8 = (48 + (v % 10)) as u8;
    out.push(d);
    assert(out@ =~= old(out)@ + decimal_bytes_spec(v as nat));
}

/// Append all of `src` to `out`.
pub fn extend_bytes(out: &mut Vec<u8>, src: &Vec<u8>)
    ensures
        final(out)@ == old(out)@ + src@,
{
    let mut i: usize = 0;
    while i < src.len()
        invariant
            i <= src@.len(),
            out@ == old(out)@ + src@.subrange(0, i as int),
        decreases src@.len() - i,
    {
        out.push(src[i]);
        assert(out@ =~= old(out)@ + src@.subrange(0, i as int + 1));
        i = i + 1;
    }
    assert(out@ =~= old(out)@ + src@);
}

/// The ASCII byte of one upper-case hex digit.
pub open spec fn hex_digit_spec(d: nat) -> u8
    recommends
        d < 16,
{
    if d < 10 {
        (48 + d) as u8
    } else {
        (55 + d) as u8
    }
}

/// A spaced upper-case hex dump: two digits per byte, one space between
/// bytes.
pub open spec fn hex_diag_spec(b: Seq<u8>) -> Seq<u8>
    decreases b.len(),
{
    if b.len() == 0 {
        Seq::empty()
    } else {
        let pair = seq![
            hex_digit_spec((b.last() / 16) as nat),
            hex_digit_spec((b.last() % 16) as nat),
        ];
        if b.len() == 1 {
            pair
        } else {
            hex_diag_spec(b.drop_last()) + seq![32u8] + pair
        }
    }
}

/// Every byte of a hex dump is printable ASCII.
pub proof fn lemma_hex_diag_ascii(b: Seq<u8>)
    ensures
        forall|i: int| 0 <= i < hex_diag_spec(b).len() ==> #[trigger] hex_diag_spec(b)[i] < 0x80,
    decreases b.len(),
{
    if b.len() > 0 {
        lemma_hex_diag_ascii(b.drop_last());
        let prev = hex_diag_spec(b.drop_last());
        let pair = seq![
            hex_digit_spec((b.last() / 16) as nat),
            hex_digit_spec((b.last() % 16) as nat),
        ];
        assert forall|i: int|
            0 <= i < hex_diag_spec(b).len() implies #[trigger] hex_diag_spec(b)[i] < 0x80 by {
            if b.len() == 1 {
                assert(hex_diag_spec(b) == pair);
                assert(hex_diag_spec(b)[i] == pair[i]);
            } else {
                let full = prev + seq![32u8] + pair;
                assert(hex_diag_spec(b) == full);
                if i < prev.len() {
                    assert(full[i] == prev[i]);
                } else if i == prev.len() {
                    assert(full[i] == 32u8);
                } else {
                    assert(full[i] == pair[i - prev.len() - 1]);
                }
            }
        }
    }
}

fn hex_digit(d: u8) -> (r: u8)
    requires
        d < 16,
    ensures
        r == hex_digit_spec(d as nat),
{
    if d < 10 {
        48 + d
    } else {
        55 + d
    }
}

/// Render `bytes` as a spaced upper-case hex string: `"0A 1B FF"`.
pub fn hex_string(bytes: &Vec<u8>) -> (r: String)
    ensures
        r@ == ascii_chars(hex_diag_spec(bytes@)),
{
    let mut out: Vec<u8> = Vec::new();
    let mut i: usize = 0;
    while i < bytes.len()
        invariant
            i <= bytes@.len(),
            out@ == hex_diag_spec(bytes@.take(i as int)),
        decreases bytes@.len() - i,
    {
        if i > 0 {
            out.push(32);
        }
        let b = bytes[i];
        out.push(hex_digit(b / 16));
        out.push(hex_digit(b % 16));
        proof {
            assert(bytes@.take(i as int + 1).drop_last() =~= bytes@.take(i as int));
            assert(bytes@.take(i as int + 1).last() == bytes@[i as int]);
            assert(out@ =~= hex_diag_spec(bytes@.take(i as int + 1)));
        }
        i = i + 1;
    }
    assert(bytes@.take(bytes@.len() as int) =~= bytes@);
    proof {
        lemma_hex_diag_ascii(bytes@);
    }
    ascii_string(&out)
}

/// Copy `buf[from..to]` into a fresh vector.
pub fn copy_range(buf: &Vec<u8>, from: usize, to: usize) -> (r: Vec<u8>)
    requires
        from <= to <= buf@.len(),
    ensures
        r@ == buf@.subrange(from as int, to as int),
{
    let mut r: Vec<u8> = Vec::new();
    let mut i: usize = from;
    while i < to
        invariant
            from <= i <= to <= buf@.len(),
            r@ == buf@.subrange(from as int, i as int),
        decreases to - i,
    {
        r.push(buf[i]);
        assert(r@ =~= buf@.subrange(from as int, i as int + 1));
        i = i + 1;
    }
    r
}

} // verus!
