//! The two byte layouts in which a message is signed: the numbers and byte
//! strings that they are built from.

use vstd::prelude::*;

verus! {

/// The `width` low-order bytes of `n`, least significant first.
pub open spec fn le_bytes(n: nat, width: nat) -> Seq<u8>
    decreases width,
{
    if width == 0 {
        Seq::empty()
    } else {
        seq![(n % 256) as u8] + le_bytes(n / 256, (width - 1) as nat)
    }
}

/// `n` in base 128, least significant group first, with the high bit set on
/// every byte but the last.
pub open spec fn varint(n: nat) -> Seq<u8>
    decreases n,
{
    if n < 128 {
        seq![n as u8]
    } else {
        seq![(n % 128 + 128) as u8] + varint(n / 128)
    }
}

/// The wire type of a field that holds a varint.
pub const WIRE_VARINT: u64 = 0;

/// The wire type of a field that holds a length and as many bytes.
pub const WIRE_LENGTH_DELIMITED: u64 = 2;

/// The key that opens a field: its number and its wire type in one varint.
pub open spec fn field_key(field: nat, wire_type: nat) -> Seq<u8> {
    varint(field * 8 + wire_type)
}

/// A field that holds the number `n` as a varint.
pub open spec fn varint_field(field: nat, n: nat) -> Seq<u8> {
    field_key(field, WIRE_VARINT as nat) + varint(n)
}

/// A field that holds `bytes`, with their number in front.
pub open spec fn bytes_field(field: nat, bytes: Seq<u8>) -> Seq<u8> {
    field_key(field, WIRE_LENGTH_DELIMITED as nat) + varint(bytes.len()) + bytes
}

/// `bytes` with their number in front, as eight bytes.
pub open spec fn le_prefixed(bytes: Seq<u8>) -> Seq<u8> {
    le_bytes(bytes.len(), 8) + bytes
}

/// Two byte strings that begin with parts of one length and are equal have
/// equal parts and equal remainders.
pub proof fn lemma_concat_split(a: Seq<u8>, rest_a: Seq<u8>, b: Seq<u8>, rest_b: Seq<u8>)
    requires
        a + rest_a == b + rest_b,
        a.len() == b.len(),
    ensures
        a == b,
        rest_a == rest_b,
{
    let whole = a + rest_a;
    assert(a =~= whole.subrange(0, a.len() as int));
    assert(b =~= (b + rest_b).subrange(0, b.len() as int));
    assert(rest_a =~= whole.subrange(a.len() as int, whole.len() as int));
    assert(rest_b =~= (b + rest_b).subrange(b.len() as int, whole.len() as int));
}

/// No varint is the beginning of another: two byte strings that begin with
/// varints and are equal begin with the same number and go on alike.
pub proof fn lemma_varint_prefix_free(n: nat, rest_n: Seq<u8>, m: nat, rest_m: Seq<u8>)
    requires
        varint(n) + rest_n == varint(m) + rest_m,
    ensures
        n == m,
        rest_n == rest_m,
    decreases n,
{
    let left = varint(n) + rest_n;
    let right = varint(m) + rest_m;
    assert(left[0] == varint(n)[0]);
    assert(right[0] == varint(m)[0]);
    if n < 128 {
        assert(varint(n)[0] == n);
        if m >= 128 {
            assert(varint(m)[0] == m % 128 + 128);
        }
        assert(m == n);
        lemma_concat_split(varint(n), rest_n, varint(m), rest_m);
    } else {
        assert(varint(n)[0] == n % 128 + 128);
        if m < 128 {
            assert(varint(m)[0] == m);
        }
        assert(m >= 128);
        assert(varint(m)[0] == m % 128 + 128);
        let head_n = seq![(n % 128 + 128) as u8];
        let head_m = seq![(m % 128 + 128) as u8];
        assert(left =~= head_n + (varint(n / 128) + rest_n));
        assert(right =~= head_m + (varint(m / 128) + rest_m));
        lemma_concat_split(
            head_n,
            varint(n / 128) + rest_n,
            head_m,
            varint(m / 128) + rest_m,
        );
        lemma_varint_prefix_free(n / 128, rest_n, m / 128, rest_m);
    }
}

/// Two byte strings that begin with a varint field of one number and are
/// equal hold the same number in it and go on alike.
pub proof fn lemma_varint_field_split(
    field: nat,
    n: nat,
    rest_n: Seq<u8>,
    m: nat,
    rest_m: Seq<u8>,
)
    requires
        varint_field(field, n) + rest_n == varint_field(field, m) + rest_m,
    ensures
        n == m,
        rest_n == rest_m,
{
    let key = field_key(field, WIRE_VARINT as nat);
    assert(varint_field(field, n) + rest_n =~= key + (varint(n) + rest_n));
    assert(varint_field(field, m) + rest_m =~= key + (varint(m) + rest_m));
    lemma_concat_split(key, varint(n) + rest_n, key, varint(m) + rest_m);
    lemma_varint_prefix_free(n, rest_n, m, rest_m);
}

/// Two byte strings that begin with a bytes field of one number and are
/// equal hold the same bytes in it and go on alike.
pub proof fn lemma_bytes_field_split(
    field: nat,
    x: Seq<u8>,
    rest_x: Seq<u8>,
    y: Seq<u8>,
    rest_y: Seq<u8>,
)
    requires
        bytes_field(field, x) + rest_x == bytes_field(field, y) + rest_y,
    ensures
        x == y,
        rest_x == rest_y,
{
    let key = field_key(field, WIRE_LENGTH_DELIMITED as nat);
    assert(bytes_field(field, x) + rest_x =~= key + (varint(x.len()) + (x + rest_x)));
    assert(bytes_field(field, y) + rest_y =~= key + (varint(y.len()) + (y + rest_y)));
    lemma_concat_split(
        key,
        varint(x.len()) + (x + rest_x),
        key,
        varint(y.len()) + (y + rest_y),
    );
    lemma_varint_prefix_free(x.len(), x + rest_x, y.len(), y + rest_y);
    lemma_concat_split(x, rest_x, y, rest_y);
}

/// `n` is written in full by `width` bytes.
pub open spec fn fits_in(n: nat, width: nat) -> bool
    decreases width,
{
    if width == 0 {
        n == 0
    } else {
        fits_in(n / 256, (width - 1) as nat)
    }
}

/// The bytes of a fixed-width number are as many as the width.
pub proof fn lemma_le_bytes_len(n: nat, width: nat)
    ensures
        le_bytes(n, width).len() == width,
    decreases width,
{
    if width > 0 {
        lemma_le_bytes_len(n / 256, (width - 1) as nat);
    }
}

/// Two numbers that `width` bytes write in full, and that have the same
/// bytes, are the same number.
pub proof fn lemma_le_bytes_injective(n: nat, m: nat, width: nat)
    requires
        fits_in(n, width),
        fits_in(m, width),
        le_bytes(n, width) == le_bytes(m, width),
    ensures
        n == m,
    decreases width,
{
    if width > 0 {
        let w = (width - 1) as nat;
        lemma_le_bytes_len(n / 256, w);
        lemma_le_bytes_len(m / 256, w);
        lemma_concat_split(
            seq![(n % 256) as u8],
            le_bytes(n / 256, w),
            seq![(m % 256) as u8],
            le_bytes(m / 256, w),
        );
        assert(seq![(n % 256) as u8][0] == seq![(m % 256) as u8][0]);
        lemma_le_bytes_injective(n / 256, m / 256, w);
    }
}

/// Every number of 32 bits is written in full by four bytes, and every
/// number of 64 bits by eight.
pub proof fn lemma_fits(n: nat)
    ensures
        n <= u32::MAX ==> fits_in(n, 4),
        n <= u64::MAX ==> fits_in(n, 8),
{
    reveal_with_fuel(fits_in, 9);
}

/// Appends `n` as a varint.
pub fn push_varint(buf: &mut Vec<u8>, n: u64)
    ensures
        final(buf)@ == old(buf)@ + varint(n as nat),
{
    let mut rest: u64 = n;
    while rest >= 128
        invariant
            buf@ + varint(rest as nat) == old(buf)@ + varint(n as nat),
        decreases rest,
    {
        let ghost before = buf@;
        let low: u64 = rest % 128 + 128;
        buf.push(low as u8);
        proof {
            assert(buf@ + varint((rest / 128) as nat) =~= before + varint(rest as nat));
        }
        rest = rest / 128;
    }
    let ghost before = buf@;
    buf.push(rest as u8);
    assert(buf@ =~= before + varint(rest as nat));
}

/// Appends the `width` low-order bytes of `n`, least significant first.
pub fn push_le(buf: &mut Vec<u8>, n: u64, width: usize)
    ensures
        final(buf)@ == old(buf)@ + le_bytes(n as nat, width as nat),
{
    let mut rest: u64 = n;
    let mut left: usize = width;
    while left > 0
        invariant
            buf@ + le_bytes(rest as nat, left as nat) == old(buf)@ + le_bytes(
                n as nat,
                width as nat,
            ),
        decreases left,
    {
        let ghost before = buf@;
        let low: u64 = rest % 256;
        buf.push(low as u8);
        proof {
            assert(buf@ + le_bytes((rest / 256) as nat, (left - 1) as nat) =~= before + le_bytes(
                rest as nat,
                left as nat,
            ));
        }
        rest = rest / 256;
        left = left - 1;
    }
    assert(buf@ + le_bytes(rest as nat, 0) =~= buf@);
}

/// Appends `bytes`.
pub fn push_bytes(buf: &mut Vec<u8>, bytes: &[u8])
    ensures
        final(buf)@ == old(buf)@ + bytes@,
{
    let ghost before = buf@;
    buf.extend_from_slice(bytes);
    assert(buf@ =~= before + bytes@);
}

/// Appends a field that holds the number `n` as a varint.
pub fn push_varint_field(buf: &mut Vec<u8>, field: u32, n: u64)
    ensures
        final(buf)@ == old(buf)@ + varint_field(field as nat, n as nat),
{
    let ghost before = buf@;
    push_varint(buf, field as u64 * 8 + WIRE_VARINT);
    push_varint(buf, n);
    assert(buf@ =~= before + varint_field(field as nat, n as nat));
}

/// Appends a field that holds `bytes`, with their number in front.
pub fn push_bytes_field(buf: &mut Vec<u8>, field: u32, bytes: &[u8])
    ensures
        final(buf)@ == old(buf)@ + bytes_field(field as nat, bytes@),
{
    let ghost before = buf@;
    push_varint(buf, field as u64 * 8 + WIRE_LENGTH_DELIMITED);
    push_varint(buf, bytes.len() as u64);
    push_bytes(buf, bytes);
    assert(buf@ =~= before + bytes_field(field as nat, bytes@));
}

/// Appends `bytes` with their number in front, as eight bytes.
pub fn push_le_prefixed(buf: &mut Vec<u8>, bytes: &[u8])
    ensures
        final(buf)@ == old(buf)@ + le_prefixed(bytes@),
{
    let ghost before = buf@;
    push_le(buf, bytes.len() as u64, 8);
    push_bytes(buf, bytes);
    assert(buf@ =~= before + le_prefixed(bytes@));
}

} // verus!
