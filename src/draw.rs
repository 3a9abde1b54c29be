//! The pseudo-random draw: eight big-endian bytes of the clock followed by
//! eight big-endian bytes of the salt, hashed with Keccak-256; the digest's
//! first byte, reduced modulo the range, is the draw.
//!
//! This is not unpredictable: whoever can see or steer the clock can foresee
//! the outcome. It is meant to be simple and reproducible, not fair.

use vstd::prelude::*;

verus! {

/// The Keccak-256 digest of a byte string.
pub uninterp spec fn keccak256_of(input: Seq<u8>) -> Seq<u8>;

/// Byte `i` (0 is the most significant) of the big-endian form of `x`.
pub open spec fn be_byte(x: u64, i: int) -> u8 {
    ((x >> ((56 - 8 * i) as u64)) & 0xff) as u8
}

/// The eight bytes of `x`, most significant first.
pub open spec fn be_bytes(x: u64) -> Seq<u8> {
    Seq::new(8, |i: int| be_byte(x, i))
}

/// The bytes that are hashed for a draw at time `now` with salt `salt`.
pub open spec fn draw_input(now: u64, salt: u64) -> Seq<u8> {
    be_bytes(now) + be_bytes(salt)
}

/// A byte reduced into `[0, max_value]`.
pub open spec fn reduce(byte: u8, max_value: u8) -> u8 {
    (byte as int % (max_value as int + 1)) as u8
}

/// The draw made at time `now` with salt `salt`, in `[0, max_value]`.
pub open spec fn draw_value(now: u64, salt: u64, max_value: u8) -> u8 {
    reduce(keccak256_of(draw_input(now, salt))[0], max_value)
}

/// Relies on `ink::env::hash_bytes::<Keccak256>`: it writes the 32-byte
/// Keccak-256 digest of `input` into the output buffer, and the digest
/// depends on the input bytes alone.
#[verifier::external_body]
fn keccak256(input: &Vec<u8>) -> (r: [u8; 32])
    ensures
        r@ == keccak256_of(input@),
{
    let mut output = <ink::env::hash::Keccak256 as ink::env::hash::HashOutput>::Type::default();
    ink::env::hash_bytes::<ink::env::hash::Keccak256>(input.as_slice(), &mut output);
    output
}

/// Appends the eight big-endian bytes of `x` to `out`.
pub fn push_be_bytes(out: &mut Vec<u8>, x: u64)
    ensures
        final(out)@ == old(out)@ + be_bytes(x),
{
    let ghost start = out@;
    let mut i: u64 = 0;
    while i < 8
        invariant
            i <= 8,
            out@ == start + be_bytes(x).take(i as int),
        decreases 8 - i,
    {
        out.push(((x >> (56 - 8 * i)) & 0xff) as u8);
        assert(be_bytes(x).take(i as int + 1) =~= be_bytes(x).take(i as int).push(be_byte(x, i as int)));
        i = i + 1;
    }
    assert(be_bytes(x).take(8) =~= be_bytes(x));
}

/// The sixteen bytes hashed for a draw at time `now` with salt `salt`.
pub fn make_draw_input(now: u64, salt: u64) -> (r: Vec<u8>)
    ensures
        r@ == draw_input(now, salt),
{
    let mut input: Vec<u8> = Vec::new();
    push_be_bytes(&mut input, now);
    push_be_bytes(&mut input, salt);
    assert(input@ =~= draw_input(now, salt));
    input
}

/// Reduces the first byte of a draw's digest into `[0, max_value]`.
pub fn reduce_byte(byte: u8, max_value: u8) -> (r: u8)
    requires
        max_value < 255,
    ensures
        r == reduce(byte, max_value),
        r <= max_value,
{
    byte % (max_value + 1)
}

/// The draw at time `now` with salt `salt`, reduced into `[0, max_value]`.
pub fn draw_byte(now: u64, salt: u64, max_value: u8) -> (r: u8)
    requires
        max_value < 255,
    ensures
        r == draw_value(now, salt, max_value),
        r <= max_value,
{
    let input = make_draw_input(now, salt);
    let digest = keccak256(&input);
    proof {
        vstd::array::array_len_matches_n(&digest);
    }
    reduce_byte(digest[0], max_value)
}

/// Two different big-endian byte strings come from two different numbers,
/// and the converse.
pub proof fn lemma_be_bytes_injective(a: u64, b: u64)
    ensures
        be_bytes(a) == be_bytes(b) <==> a == b,
{
    if be_bytes(a) == be_bytes(b) {
        let (sa, sb) = (be_bytes(a), be_bytes(b));
        assert(sa[0] == sb[0] && sa[1] == sb[1] && sa[2] == sb[2] && sa[3] == sb[3]);
        assert(sa[4] == sb[4] && sa[5] == sb[5] && sa[6] == sb[6] && sa[7] == sb[7]);
        assert(a == b) by (bit_vector)
            requires
                ((a >> 56u64) & 0xff) as u8 == ((b >> 56u64) & 0xff) as u8,
                ((a >> 48u64) & 0xff) as u8 == ((b >> 48u64) & 0xff) as u8,
                ((a >> 40u64) & 0xff) as u8 == ((b >> 40u64) & 0xff) as u8,
                ((a >> 32u64) & 0xff) as u8 == ((b >> 32u64) & 0xff) as u8,
                ((a >> 24u64) & 0xff) as u8 == ((b >> 24u64) & 0xff) as u8,
                ((a >> 16u64) & 0xff) as u8 == ((b >> 16u64) & 0xff) as u8,
                ((a >> 8u64) & 0xff) as u8 == ((b >> 8u64) & 0xff) as u8,
                ((a >> 0u64) & 0xff) as u8 == ((b >> 0u64) & 0xff) as u8,
        ;
    }
}

/// Draws are deterministic and keyed by both clock and salt: two draws hash
/// the same bytes exactly when they are made at the same time with the same
/// salt, so equal inputs give equal draws.
pub proof fn lemma_draw_input_determines(now1: u64, salt1: u64, now2: u64, salt2: u64, max_value: u8)
    ensures
        draw_input(now1, salt1) == draw_input(now2, salt2) <==> (now1 == now2 && salt1 == salt2),
        (now1 == now2 && salt1 == salt2) ==> draw_value(now1, salt1, max_value) == draw_value(now2, salt2, max_value),
{
    let (x, y) = (draw_input(now1, salt1), draw_input(now2, salt2));
    if x == y {
        assert(x.take(8) =~= be_bytes(now1));
        assert(y.take(8) =~= be_bytes(now2));
        assert(x.skip(8) =~= be_bytes(salt1));
        assert(y.skip(8) =~= be_bytes(salt2));
        lemma_be_bytes_injective(now1, now2);
        lemma_be_bytes_injective(salt1, salt2);
    }
}

} // verus!
