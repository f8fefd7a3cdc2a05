//! Methods to play with bits: splitting a byte into its eight logical
//! levels, most- or least-significant first, and rebuilding a byte from
//! eight levels.

use vstd::prelude::*;
use crate::pin;
use crate::pin::PinState;

verus! {

/// The mask selecting bit `i` (`0` the least significant) of a byte.
pub open spec fn bit_mask(i: u8) -> u8
    recommends
        i < 8,
{
    match i {
        0 => 0b0000_0001u8,
        1 => 0b0000_0010u8,
        2 => 0b0000_0100u8,
        3 => 0b0000_1000u8,
        4 => 0b0001_0000u8,
        5 => 0b0010_0000u8,
        6 => 0b0100_0000u8,
        _ => 0b1000_0000u8,
    }
}

/// The level of bit `i` of `byte`: `High` iff that bit is `1`.
pub open spec fn bit_of(byte: u8, i: u8) -> PinState
    recommends
        i < 8,
{
    pin::level_of_byte(byte & bit_mask(i))
}

/// The eight levels of a byte, most significant first.
pub open spec fn bits_msb(byte: u8) -> Seq<PinState> {
    Seq::new(8, |i: int| bit_of(byte, (7 - i) as u8))
}

/// The eight levels of a byte, least significant first.
pub open spec fn bits_lsb(byte: u8) -> Seq<PinState> {
    Seq::new(8, |i: int| bit_of(byte, i as u8))
}

/// The byte whose eight levels, most significant first, are `bits`.
pub open spec fn byte_of_msb(bits: Seq<PinState>) -> u8
    recommends
        bits.len() == 8,
{
    (bits[0].as_bit() << 7) | (bits[1].as_bit() << 6) | (bits[2].as_bit() << 5) | (
    bits[3].as_bit() << 4) | (bits[4].as_bit() << 3) | (bits[5].as_bit() << 2) | (
    bits[6].as_bit() << 1) | bits[7].as_bit()
}

/// The byte whose eight levels, least significant first, are `bits`.
pub open spec fn byte_of_lsb(bits: Seq<PinState>) -> u8
    recommends
        bits.len() == 8,
{
    (bits[7].as_bit() << 7) | (bits[6].as_bit() << 6) | (bits[5].as_bit() << 5) | (
    bits[4].as_bit() << 4) | (bits[3].as_bit() << 3) | (bits[2].as_bit() << 2) | (
    bits[1].as_bit() << 1) | bits[0].as_bit()
}

/// Runs the given operation on each bit level of `byte`, most significant
/// first, and collects the eight results in that order.
pub fn foreach_msb<T, F>(byte: u8, f: F) -> (r: [T; 8]) where F: Fn(PinState) -> T
    requires
        forall|bit: PinState| call_requires(f, (bit,)),
    ensures
        forall|i: int| 0 <= i < 8 ==> call_ensures(f, (bits_msb(byte)[i],), #[trigger] r[i]),
{
    [
        f(PinState::from(byte & 0b1000_0000)),
        f(PinState::from(byte & 0b0100_0000)),
        f(PinState::from(byte & 0b0010_0000)),
        f(PinState::from(byte & 0b0001_0000)),
        f(PinState::from(byte & 0b0000_1000)),
        f(PinState::from(byte & 0b0000_0100)),
        f(PinState::from(byte & 0b0000_0010)),
        f(PinState::from(byte & 0b0000_0001)),
    ]
}

/// Runs the given operation on each bit level of `byte`, least significant
/// first, and collects the eight results in that order.
pub fn foreach_lsb<T, F>(byte: u8, f: F) -> (r: [T; 8]) where F: Fn(PinState) -> T
    requires
        forall|bit: PinState| call_requires(f, (bit,)),
    ensures
        forall|i: int| 0 <= i < 8 ==> call_ensures(f, (bits_lsb(byte)[i],), #[trigger] r[i]),
{
    [
        f(PinState::from(byte & 0b0000_0001)),
        f(PinState::from(byte & 0b0000_0010)),
        f(PinState::from(byte & 0b0000_0100)),
        f(PinState::from(byte & 0b0000_1000)),
        f(PinState::from(byte & 0b0001_0000)),
        f(PinState::from(byte & 0b0010_0000)),
        f(PinState::from(byte & 0b0100_0000)),
        f(PinState::from(byte & 0b1000_0000)),
    ]
}

/// Splits a byte into its eight levels, most significant first.
pub fn decompose_msb(byte: u8) -> (r: [PinState; 8])
    ensures
        r@ == bits_msb(byte),
{
    let r = foreach_msb(byte, |bit: PinState| -> (l: PinState)
        ensures
            l == bit,
        { bit });
    proof {
        assert(r@ =~= bits_msb(byte));
    }
    r
}

/// Splits a byte into its eight levels, least significant first.
pub fn decompose_lsb(byte: u8) -> (r: [PinState; 8])
    ensures
        r@ == bits_lsb(byte),
{
    let r = foreach_lsb(byte, |bit: PinState| -> (l: PinState)
        ensures
            l == bit,
        { bit });
    proof {
        assert(r@ =~= bits_lsb(byte));
    }
    r
}

/// Rebuilds a byte from individual bit levels, most significant first.
pub fn msb_to_byte(bits: [PinState; 8]) -> (r: u8)
    ensures
        r == byte_of_msb(bits@),
{
    (bits[0].bit() << 7) | (bits[1].bit() << 6) | (bits[2].bit() << 5) | (bits[3].bit() << 4) | (
    bits[4].bit() << 3) | (bits[5].bit() << 2) | (bits[6].bit() << 1) | bits[7].bit()
}

/// Rebuilds a byte from individual bit levels, least significant first.
pub fn lsb_to_byte(bits: [PinState; 8]) -> (r: u8)
    ensures
        r == byte_of_lsb(bits@),
{
    (bits[7].bit() << 7) | (bits[6].bit() << 6) | (bits[5].bit() << 5) | (bits[4].bit() << 4) | (
    bits[3].bit() << 3) | (bits[2].bit() << 2) | (bits[1].bit() << 1) | bits[0].bit()
}

/// Round-trip of bit ordering, most significant first: rebuilding a byte
/// from its decomposed levels gives the byte back, for every byte.
pub proof fn lemma_msb_round_trip(b: u8)
    ensures
        byte_of_msb(bits_msb(b)) == b,
{
    assert(((if b & 0b1000_0000u8 != 0 { 1u8 } else { 0u8 }) << 7) | ((if b & 0b0100_0000u8 != 0 {
        1u8
    } else {
        0u8
    }) << 6) | ((if b & 0b0010_0000u8 != 0 { 1u8 } else { 0u8 }) << 5) | ((if b & 0b0001_0000u8
        != 0 {
        1u8
    } else {
        0u8
    }) << 4) | ((if b & 0b0000_1000u8 != 0 { 1u8 } else { 0u8 }) << 3) | ((if b & 0b0000_0100u8
        != 0 {
        1u8
    } else {
        0u8
    }) << 2) | ((if b & 0b0000_0010u8 != 0 { 1u8 } else { 0u8 }) << 1) | (if b & 0b0000_0001u8 != 0 {
        1u8
    } else {
        0u8
    }) == b) by (bit_vector);
}

/// Round-trip of bit ordering, least significant first.
pub proof fn lemma_lsb_round_trip(b: u8)
    ensures
        byte_of_lsb(bits_lsb(b)) == b,
{
    assert(((if b & 0b1000_0000u8 != 0 { 1u8 } else { 0u8 }) << 7) | ((if b & 0b0100_0000u8 != 0 {
        1u8
    } else {
        0u8
    }) << 6) | ((if b & 0b0010_0000u8 != 0 { 1u8 } else { 0u8 }) << 5) | ((if b & 0b0001_0000u8
        != 0 {
        1u8
    } else {
        0u8
    }) << 4) | ((if b & 0b0000_1000u8 != 0 { 1u8 } else { 0u8 }) << 3) | ((if b & 0b0000_0100u8
        != 0 {
        1u8
    } else {
        0u8
    }) << 2) | ((if b & 0b0000_0010u8 != 0 { 1u8 } else { 0u8 }) << 1) | (if b & 0b0000_0001u8 != 0 {
        1u8
    } else {
        0u8
    }) == b) by (bit_vector);
}

/// The eight levels of a byte, most significant first, written out one push
/// at a time.
pub proof fn lemma_bits_msb_levels(b: u8)
    ensures
        bits_msb(b) == Seq::<PinState>::empty().push(pin::level_of_bool((b & 0b1000_0000) != 0)).push(
            pin::level_of_bool((b & 0b0100_0000) != 0),
        ).push(pin::level_of_bool((b & 0b0010_0000) != 0)).push(
            pin::level_of_bool((b & 0b0001_0000) != 0),
        ).push(pin::level_of_bool((b & 0b0000_1000) != 0)).push(
            pin::level_of_bool((b & 0b0000_0100) != 0),
        ).push(pin::level_of_bool((b & 0b0000_0010) != 0)).push(
            pin::level_of_bool((b & 0b0000_0001) != 0),
        ),
{
    assert(bits_msb(b) =~= Seq::<PinState>::empty().push(
        pin::level_of_bool((b & 0b1000_0000) != 0),
    ).push(pin::level_of_bool((b & 0b0100_0000) != 0)).push(
        pin::level_of_bool((b & 0b0010_0000) != 0),
    ).push(pin::level_of_bool((b & 0b0001_0000) != 0)).push(
        pin::level_of_bool((b & 0b0000_1000) != 0),
    ).push(pin::level_of_bool((b & 0b0000_0100) != 0)).push(
        pin::level_of_bool((b & 0b0000_0010) != 0),
    ).push(pin::level_of_bool((b & 0b0000_0001) != 0)));
}

/// The byte recomposed, most significant first, from eight levels written
/// out one push at a time.
pub proof fn lemma_byte_of_msb_levels(
    b7: PinState,
    b6: PinState,
    b5: PinState,
    b4: PinState,
    b3: PinState,
    b2: PinState,
    b1: PinState,
    b0: PinState,
)
    ensures
        byte_of_msb(
            Seq::<PinState>::empty().push(b7).push(b6).push(b5).push(b4).push(b3).push(b2).push(
                b1,
            ).push(b0),
        ) == (b7.as_bit() << 7) | (b6.as_bit() << 6) | (b5.as_bit() << 5) | (b4.as_bit() << 4) | (
        b3.as_bit() << 3) | (b2.as_bit() << 2) | (b1.as_bit() << 1) | b0.as_bit(),
{
}

/// Cross-order relationship: the most-significant-first decomposition of a
/// byte, reversed, is its least-significant-first decomposition.
pub proof fn lemma_msb_reverse_lsb(b: u8)
    ensures
        bits_msb(b).reverse() == bits_lsb(b),
{
    assert(bits_msb(b).reverse() =~= bits_lsb(b));
}

} // verus!
