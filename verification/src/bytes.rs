//! Fixed-width unsigned integers as byte strings, in either byte order.
//!
//! The specification side is arithmetic on `nat`: a byte string of length `n`
//! stands for a number below `256^n`. The executable side pushes and reads
//! such strings and is proved against that arithmetic.

use vstd::prelude::*;

verus! {

/// The order in which the bytes of an integer lie in a message.
#[derive(Clone, Copy, Debug, PartialEq, Eq, Structural)]
pub enum ByteOrder {
    /// Least significant byte first.
    Little,
    /// Most significant byte first.
    Big,
}

/// `256^n`.
pub open spec fn pow256(n: nat) -> nat
    decreases n,
{
    if n == 0 {
        1
    } else {
        256 * pow256((n - 1) as nat)
    }
}

/// The `n` low-order base-256 digits of `x`, most significant first.
pub open spec fn be_bytes(x: nat, n: nat) -> Seq<u8>
    decreases n,
{
    if n == 0 {
        Seq::empty()
    } else {
        be_bytes(x / 256, (n - 1) as nat).push((x % 256) as u8)
    }
}

/// The number whose base-256 digits, most significant first, are `s`.
pub open spec fn be_value(s: Seq<u8>) -> nat
    decreases s.len(),
{
    if s.len() == 0 {
        0
    } else {
        be_value(s.drop_last()) * 256 + s.last() as nat
    }
}

/// The `n` low-order base-256 digits of `x`, least significant first.
pub open spec fn le_bytes(x: nat, n: nat) -> Seq<u8>
    decreases n,
{
    if n == 0 {
        Seq::empty()
    } else {
        seq![(x % 256) as u8] + le_bytes(x / 256, (n - 1) as nat)
    }
}

/// The number whose base-256 digits, least significant first, are `s`.
pub open spec fn le_value(s: Seq<u8>) -> nat
    decreases s.len(),
{
    if s.len() == 0 {
        0
    } else {
        s[0] as nat + 256 * le_value(s.subrange(1, s.len() as int))
    }
}

/// The `n` bytes that stand for `x` in the given order.
pub open spec fn int_bytes(order: ByteOrder, x: nat, n: nat) -> Seq<u8> {
    match order {
        ByteOrder::Little => le_bytes(x, n),
        ByteOrder::Big => be_bytes(x, n),
    }
}

/// The number that the bytes `s` stand for in the given order.
pub open spec fn int_value(order: ByteOrder, s: Seq<u8>) -> nat {
    match order {
        ByteOrder::Little => le_value(s),
        ByteOrder::Big => be_value(s),
    }
}

pub proof fn lemma_pow256_values()
    ensures
        pow256(0) == 1,
        pow256(1) == 0x100,
        pow256(2) == 0x1_0000,
        pow256(4) == 0x1_0000_0000,
        pow256(8) == 0x1_0000_0000_0000_0000,
        pow256(16) == 0x1_0000_0000_0000_0000_0000_0000_0000_0000,
{
    reveal_with_fuel(pow256, 17);
}

pub proof fn lemma_be_bytes_len(x: nat, n: nat)
    ensures
        be_bytes(x, n).len() == n,
    decreases n,
{
    if n > 0 {
        lemma_be_bytes_len(x / 256, (n - 1) as nat);
    }
}

pub proof fn lemma_le_bytes_len(x: nat, n: nat)
    ensures
        le_bytes(x, n).len() == n,
    decreases n,
{
    if n > 0 {
        lemma_le_bytes_len(x / 256, (n - 1) as nat);
    }
}

pub proof fn lemma_int_bytes_len(order: ByteOrder, x: nat, n: nat)
    ensures
        int_bytes(order, x, n).len() == n,
{
    lemma_be_bytes_len(x, n);
    lemma_le_bytes_len(x, n);
}

pub proof fn lemma_be_value_bound(s: Seq<u8>)
    ensures
        be_value(s) < pow256(s.len()),
    decreases s.len(),
{
    if s.len() > 0 {
        lemma_be_value_bound(s.drop_last());
    }
}

pub proof fn lemma_le_value_bound(s: Seq<u8>)
    ensures
        le_value(s) < pow256(s.len()),
    decreases s.len(),
{
    if s.len() > 0 {
        lemma_le_value_bound(s.subrange(1, s.len() as int));
    }
}

pub proof fn lemma_int_value_bound(order: ByteOrder, s: Seq<u8>)
    ensures
        int_value(order, s) < pow256(s.len()),
{
    lemma_be_value_bound(s);
    lemma_le_value_bound(s);
}

/// Reading back the big-endian bytes of a number that fits gives the number.
pub proof fn lemma_be_value_of_bytes(x: nat, n: nat)
    requires
        x < pow256(n),
    ensures
        be_value(be_bytes(x, n)) == x,
    decreases n,
{
    if n > 0 {
        let rest = be_bytes(x / 256, (n - 1) as nat);
        lemma_be_value_of_bytes(x / 256, (n - 1) as nat);
        lemma_be_bytes_len(x / 256, (n - 1) as nat);
        assert(be_bytes(x, n).drop_last() =~= rest);
    }
}

/// Writing the number that a byte string stands for gives the string back.
pub proof fn lemma_be_bytes_of_value(s: Seq<u8>)
    ensures
        be_bytes(be_value(s), s.len()) == s,
    decreases s.len(),
{
    if s.len() > 0 {
        lemma_be_bytes_of_value(s.drop_last());
        assert(be_bytes(be_value(s), s.len()) =~= s);
    }
}

/// Reading back the little-endian bytes of a number that fits gives the number.
pub proof fn lemma_le_value_of_bytes(x: nat, n: nat)
    requires
        x < pow256(n),
    ensures
        le_value(le_bytes(x, n)) == x,
    decreases n,
{
    if n > 0 {
        let rest = le_bytes(x / 256, (n - 1) as nat);
        lemma_le_value_of_bytes(x / 256, (n - 1) as nat);
        lemma_le_bytes_len(x / 256, (n - 1) as nat);
        assert(le_bytes(x, n).subrange(1, n as int) =~= rest);
    }
}

/// Writing the number that a byte string stands for gives the string back.
pub proof fn lemma_le_bytes_of_value(s: Seq<u8>)
    ensures
        le_bytes(le_value(s), s.len()) == s,
    decreases s.len(),
{
    if s.len() > 0 {
        lemma_le_bytes_of_value(s.subrange(1, s.len() as int));
        assert(le_bytes(le_value(s), s.len()) =~= s);
    }
}

/// In either order, decoding undoes encoding for every number that fits.
pub proof fn lemma_int_value_of_bytes(order: ByteOrder, x: nat, n: nat)
    requires
        x < pow256(n),
    ensures
        int_value(order, int_bytes(order, x, n)) == x,
{
    lemma_be_value_of_bytes(x, n);
    lemma_le_value_of_bytes(x, n);
}

/// In either order, encoding undoes decoding for every byte string.
pub proof fn lemma_int_bytes_of_value(order: ByteOrder, s: Seq<u8>)
    ensures
        int_bytes(order, int_value(order, s), s.len()) == s,
{
    lemma_be_bytes_of_value(s);
    lemma_le_bytes_of_value(s);
}

pub proof fn lemma_pow256_monotonic(m: nat, n: nat)
    requires
        m <= n,
    ensures
        pow256(m) <= pow256(n),
    decreases n,
{
    if m < n {
        lemma_pow256_monotonic(m, (n - 1) as nat);
    }
}

/// Appends the `n` bytes of `x` to `out`, most significant first.
pub fn push_be(x: u128, n: usize, out: &mut Vec<u8>)
    ensures
        final(out)@ == old(out)@ + be_bytes(x as nat, n as nat),
    decreases n,
{
    if n > 0 {
        push_be(x / 256, n - 1, out);
        out.push((x % 256) as u8);
        assert(out@ =~= old(out)@ + be_bytes(x as nat, n as nat));
    } else {
        assert(out@ =~= old(out)@ + be_bytes(x as nat, n as nat));
    }
}

/// Appends the `n` bytes of `x` to `out`, least significant first.
pub fn push_le(x: u128, n: usize, out: &mut Vec<u8>)
    ensures
        final(out)@ == old(out)@ + le_bytes(x as nat, n as nat),
    decreases n,
{
    if n > 0 {
        out.push((x % 256) as u8);
        push_le(x / 256, n - 1, out);
        assert(out@ =~= old(out)@ + le_bytes(x as nat, n as nat));
    } else {
        assert(out@ =~= old(out)@ + le_bytes(x as nat, n as nat));
    }
}

/// Appends the `n` bytes of `x` to `out` in the given order.
pub fn push_int(order: ByteOrder, x: u128, n: usize, out: &mut Vec<u8>)
    ensures
        final(out)@ == old(out)@ + int_bytes(order, x as nat, n as nat),
{
    match order {
        ByteOrder::Little => push_le(x, n, out),
        ByteOrder::Big => push_be(x, n, out),
    }
}

/// Reads the big-endian number held in `bytes[start .. start + n]`.
pub fn read_be(bytes: &[u8], start: usize, n: usize) -> (x: u128)
    requires
        n <= 16,
        start + n <= bytes@.len(),
    ensures
        x == be_value(bytes@.subrange(start as int, start + n)),
{
    let ghost field = bytes@.subrange(start as int, start + n);
    let len: usize = bytes.len();
    let mut acc: u128 = 0;
    let mut i: usize = 0;
    while i < n
        invariant
            i <= n <= 16,
            start + n <= len == bytes@.len(),
            field == bytes@.subrange(start as int, start + n),
            acc == be_value(field.take(i as int)),
        decreases n - i,
    {
        proof {
            lemma_be_value_bound(field.take(i as int));
            lemma_pow256_monotonic(i as nat, 15);
            lemma_pow256_values();
            reveal_with_fuel(pow256, 17);
            assert(field.take(i + 1).drop_last() =~= field.take(i as int));
        }
        acc = acc * 256 + bytes[start + i] as u128;
        i = i + 1;
    }
    assert(field.take(n as int) =~= field);
    acc
}

/// Reads the little-endian number held in `bytes[start .. start + n]`.
pub fn read_le(bytes: &[u8], start: usize, n: usize) -> (x: u128)
    requires
        n <= 16,
        start + n <= bytes@.len(),
    ensures
        x == le_value(bytes@.subrange(start as int, start + n)),
{
    let ghost field = bytes@.subrange(start as int, start + n);
    let len: usize = bytes.len();
    let mut acc: u128 = 0;
    let mut i: usize = n;
    while i > 0
        invariant
            i <= n <= 16,
            start + n <= len == bytes@.len(),
            field == bytes@.subrange(start as int, start + n),
            acc == le_value(field.subrange(i as int, n as int)),
        decreases i,
    {
        proof {
            let tail = field.subrange(i as int, n as int);
            lemma_le_value_bound(tail);
            lemma_pow256_monotonic((n - i) as nat, 15);
            lemma_pow256_values();
            reveal_with_fuel(pow256, 17);
            let longer = field.subrange(i - 1, n as int);
            assert(longer.subrange(1, longer.len() as int) =~= tail);
        }
        i = i - 1;
        acc = bytes[start + i] as u128 + 256 * acc;
    }
    assert(field.subrange(0, n as int) =~= field);
    acc
}

/// Reads the number held in `bytes[start .. start + n]` in the given order.
pub fn read_int(order: ByteOrder, bytes: &[u8], start: usize, n: usize) -> (x: u128)
    requires
        n <= 16,
        start + n <= bytes@.len(),
    ensures
        x == int_value(order, bytes@.subrange(start as int, start + n)),
        x < pow256(n as nat),
{
    proof {
        lemma_int_value_bound(order, bytes@.subrange(start as int, start + n));
    }
    match order {
        ByteOrder::Little => read_le(bytes, start, n),
        ByteOrder::Big => read_be(bytes, start, n),
    }
}

/// `u16::to_ne_bytes`: the two bytes of `x` as this machine keeps them in
/// memory. Every machine keeps them in one of the two byte orders; which one
/// is not stated.
#[verifier::external_body]
fn native_bytes_u16(x: u16) -> (b: [u8; 2])
    ensures
        b@ == le_bytes(x as nat, 2) || b@ == be_bytes(x as nat, 2),
{
    x.to_ne_bytes()
}

/// The byte order that the two bytes `probe` show, if they are the number 1
/// as some machine keeps it: little-endian exactly when the first byte is 1.
pub fn byte_order_of_probe(probe: &[u8; 2]) -> (order: ByteOrder)
    ensures
        order == (if probe@[0] == 1 {
            ByteOrder::Little
        } else {
            ByteOrder::Big
        }),
        probe@ == le_bytes(1, 2) || probe@ == be_bytes(1, 2) ==> probe@ == int_bytes(order, 1, 2),
{
    proof {
        reveal_with_fuel(le_bytes, 3);
        reveal_with_fuel(be_bytes, 3);
    }
    if probe[0] == 1 {
        ByteOrder::Little
    } else {
        ByteOrder::Big
    }
}

/// The byte order of the machine that runs this call.
pub fn native_byte_order() -> (order: ByteOrder) {
    let probe = native_bytes_u16(1);
    byte_order_of_probe(&probe)
}

/// The eight bytes of `x` in the given order.
pub open spec fn u64_bytes(order: ByteOrder, x: u64) -> Seq<u8> {
    int_bytes(order, x as nat, 8)
}

/// The number held in the eight bytes of `s` that start at `pos`.
pub open spec fn u64_at(order: ByteOrder, s: Seq<u8>, pos: int) -> u64 {
    int_value(order, s.subrange(pos, pos + 8)) as u64
}

/// The four bytes of `x` in the given order.
pub open spec fn u32_bytes(order: ByteOrder, x: u32) -> Seq<u8> {
    int_bytes(order, x as nat, 4)
}

/// The number held in the four bytes of `s` that start at `pos`.
pub open spec fn u32_at(order: ByteOrder, s: Seq<u8>, pos: int) -> u32 {
    int_value(order, s.subrange(pos, pos + 4)) as u32
}

/// The sixteen bytes of `x` in the given order.
pub open spec fn u128_bytes(order: ByteOrder, x: u128) -> Seq<u8> {
    int_bytes(order, x as nat, 16)
}

/// The number held in the sixteen bytes of `s` that start at `pos`.
pub open spec fn u128_at(order: ByteOrder, s: Seq<u8>, pos: int) -> u128 {
    int_value(order, s.subrange(pos, pos + 16)) as u128
}

/// An eight-byte field that lies between any two byte strings reads back as
/// the number that was written.
pub proof fn lemma_u64_at_bytes(order: ByteOrder, before: Seq<u8>, x: u64, after: Seq<u8>)
    ensures
        u64_bytes(order, x).len() == 8,
        u64_at(order, before + u64_bytes(order, x) + after, before.len() as int) == x,
{
    lemma_int_bytes_len(order, x as nat, 8);
    lemma_pow256_values();
    lemma_int_value_of_bytes(order, x as nat, 8);
    let whole = before + u64_bytes(order, x) + after;
    assert(whole.subrange(before.len() as int, before.len() as int + 8) =~= u64_bytes(order, x));
}

/// A four-byte field that lies between any two byte strings reads back as
/// the number that was written.
pub proof fn lemma_u32_at_bytes(order: ByteOrder, before: Seq<u8>, x: u32, after: Seq<u8>)
    ensures
        u32_bytes(order, x).len() == 4,
        u32_at(order, before + u32_bytes(order, x) + after, before.len() as int) == x,
{
    lemma_int_bytes_len(order, x as nat, 4);
    lemma_pow256_values();
    lemma_int_value_of_bytes(order, x as nat, 4);
    let whole = before + u32_bytes(order, x) + after;
    assert(whole.subrange(before.len() as int, before.len() as int + 4) =~= u32_bytes(order, x));
}

/// A sixteen-byte field that lies between any two byte strings reads back as
/// the number that was written.
pub proof fn lemma_u128_at_bytes(order: ByteOrder, before: Seq<u8>, x: u128, after: Seq<u8>)
    ensures
        u128_bytes(order, x).len() == 16,
        u128_at(order, before + u128_bytes(order, x) + after, before.len() as int) == x,
{
    lemma_int_bytes_len(order, x as nat, 16);
    lemma_pow256_values();
    lemma_int_value_of_bytes(order, x as nat, 16);
    let whole = before + u128_bytes(order, x) + after;
    assert(whole.subrange(before.len() as int, before.len() as int + 16) =~= u128_bytes(order, x));
}

/// Writing the number read from an eight-byte field gives the field back.
pub proof fn lemma_u64_bytes_at(order: ByteOrder, s: Seq<u8>, pos: int)
    requires
        0 <= pos,
        pos + 8 <= s.len(),
    ensures
        u64_bytes(order, u64_at(order, s, pos)) == s.subrange(pos, pos + 8),
{
    let field = s.subrange(pos, pos + 8);
    lemma_int_value_bound(order, field);
    lemma_pow256_values();
    lemma_int_bytes_of_value(order, field);
}

/// Writing the number read from a four-byte field gives the field back.
pub proof fn lemma_u32_bytes_at(order: ByteOrder, s: Seq<u8>, pos: int)
    requires
        0 <= pos,
        pos + 4 <= s.len(),
    ensures
        u32_bytes(order, u32_at(order, s, pos)) == s.subrange(pos, pos + 4),
{
    let field = s.subrange(pos, pos + 4);
    lemma_int_value_bound(order, field);
    lemma_pow256_values();
    lemma_int_bytes_of_value(order, field);
}

/// Writing the number read from a sixteen-byte field gives the field back.
pub proof fn lemma_u128_bytes_at(order: ByteOrder, s: Seq<u8>, pos: int)
    requires
        0 <= pos,
        pos + 16 <= s.len(),
    ensures
        u128_bytes(order, u128_at(order, s, pos)) == s.subrange(pos, pos + 16),
{
    let field = s.subrange(pos, pos + 16);
    lemma_int_value_bound(order, field);
    lemma_pow256_values();
    lemma_int_bytes_of_value(order, field);
}

/// Appends the eight bytes of `x`.
pub fn push_u64(order: ByteOrder, x: u64, out: &mut Vec<u8>)
    ensures
        final(out)@ == old(out)@ + u64_bytes(order, x),
{
    push_int(order, x as u128, 8, out);
}

/// Appends the four bytes of `x`.
pub fn push_u32(order: ByteOrder, x: u32, out: &mut Vec<u8>)
    ensures
        final(out)@ == old(out)@ + u32_bytes(order, x),
{
    push_int(order, x as u128, 4, out);
}

/// Appends the sixteen bytes of `x`.
pub fn push_u128(order: ByteOrder, x: u128, out: &mut Vec<u8>)
    ensures
        final(out)@ == old(out)@ + u128_bytes(order, x),
{
    push_int(order, x, 16, out);
}

/// Reads the eight-byte number at `start`.
pub fn read_u64(order: ByteOrder, bytes: &[u8], start: usize) -> (x: u64)
    requires
        start + 8 <= bytes@.len(),
    ensures
        x == u64_at(order, bytes@, start as int),
{
    proof {
        lemma_pow256_values();
    }
    read_int(order, bytes, start, 8) as u64
}

/// Reads the four-byte number at `start`.
pub fn read_u32(order: ByteOrder, bytes: &[u8], start: usize) -> (x: u32)
    requires
        start + 4 <= bytes@.len(),
    ensures
        x == u32_at(order, bytes@, start as int),
{
    proof {
        lemma_pow256_values();
    }
    read_int(order, bytes, start, 4) as u32
}

/// Reads the sixteen-byte number at `start`.
pub fn read_u128(order: ByteOrder, bytes: &[u8], start: usize) -> (x: u128)
    requires
        start + 16 <= bytes@.len(),
    ensures
        x == u128_at(order, bytes@, start as int),
{
    proof {
        lemma_pow256_values();
    }
    read_int(order, bytes, start, 16)
}

/// Appends the bytes of `src`.
pub fn append_bytes(out: &mut Vec<u8>, src: &[u8])
    ensures
        final(out)@ == old(out)@ + src@,
{
    let n: usize = src.len();
    let mut i: usize = 0;
    while i < n
        invariant
            i <= n == src@.len(),
            out@ == old(out)@ + src@.take(i as int),
        decreases n - i,
    {
        out.push(src[i]);
        assert(src@.take(i + 1) =~= src@.take(i as int).push(src@[i as int]));
        i = i + 1;
    }
    assert(src@.take(n as int) =~= src@);
}

/// The bytes `bytes[start .. end]` as a vector of their own.
pub fn copy_range(bytes: &[u8], start: usize, end: usize) -> (out: Vec<u8>)
    requires
        start <= end <= bytes@.len(),
    ensures
        out@ == bytes@.subrange(start as int, end as int),
{
    let mut out: Vec<u8> = Vec::new();
    let mut i: usize = start;
    while i < end
        invariant
            start <= i <= end <= bytes@.len(),
            out@ == bytes@.subrange(start as int, i as int),
        decreases end - i,
    {
        out.push(bytes[i]);
        assert(bytes@.subrange(start as int, i + 1) =~= bytes@.subrange(
            start as int,
            i as int,
        ).push(bytes@[i as int]));
        i = i + 1;
    }
    out
}

} // verus!
