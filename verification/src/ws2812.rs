//! WS2812 line coding for an SPI bus.
//!
//! Every data bit of the LED protocol is stretched to four SPI bits, so one
//! data byte becomes four SPI bytes, each carrying two data bits. A frame is
//! the coded pixels in green-red-blue order followed by a run of zero bytes
//! that holds the line low long enough to latch the colours.

use vstd::prelude::*;
use crate::pixel::Rgb8;

verus! {

/// Number of zero bytes that form the latch gap after the last pixel.
pub const WS2812_RESET_BYTES: usize = 140;

/// Number of SPI bytes that carry one pixel.
pub const BYTES_PER_PIXEL: usize = 12;

/// The SPI byte that carries the two data bits `pair` (0 to 3).
pub open spec fn line_code(pair: int) -> u8 {
    if pair == 0 {
        0x88
    } else if pair == 1 {
        0x8E
    } else if pair == 2 {
        0xE8
    } else {
        0xEE
    }
}

/// The two data bits that the SPI byte `code` carries, if it is one of the four codes.
pub open spec fn line_decode(code: u8) -> Option<int> {
    if code == 0x88 {
        Some(0)
    } else if code == 0x8E {
        Some(1)
    } else if code == 0xE8 {
        Some(2)
    } else if code == 0xEE {
        Some(3)
    } else {
        None
    }
}

/// The `k`-th pair of bits of `data`, counted from the most significant pair.
pub open spec fn bit_pair(data: u8, k: int) -> int {
    if k == 0 {
        data as int / 64
    } else if k == 1 {
        (data as int / 16) % 4
    } else if k == 2 {
        (data as int / 4) % 4
    } else {
        data as int % 4
    }
}

/// The four SPI bytes for one data byte, most significant pair first.
pub open spec fn encoded_byte(data: u8) -> Seq<u8> {
    seq![
        line_code(bit_pair(data, 0)),
        line_code(bit_pair(data, 1)),
        line_code(bit_pair(data, 2)),
        line_code(bit_pair(data, 3)),
    ]
}

/// The data byte that four SPI bytes stand for, if all four are line codes.
pub open spec fn decoded_byte(codes: Seq<u8>) -> Option<u8>
    recommends
        codes.len() == 4,
{
    match (line_decode(codes[0]), line_decode(codes[1]), line_decode(codes[2]), line_decode(codes[3])) {
        (Some(a), Some(b), Some(c), Some(d)) => Some((a * 64 + b * 16 + c * 4 + d) as u8),
        _ => None,
    }
}

/// The twelve SPI bytes for one pixel: green, then red, then blue.
pub open spec fn encoded_pixel(pixel: Rgb8) -> Seq<u8> {
    encoded_byte(pixel.g) + encoded_byte(pixel.r) + encoded_byte(pixel.b)
}

/// Byte `i` of the coded form of a run of pixels.
pub open spec fn encoded_pixels_at(pixels: Seq<Rgb8>, i: int) -> u8 {
    encoded_pixel(pixels[i / 12])[i % 12]
}

/// The coded form of a run of pixels, twelve bytes each, in order.
pub open spec fn encoded_pixels(pixels: Seq<Rgb8>) -> Seq<u8> {
    Seq::new(12 * pixels.len(), |i: int| encoded_pixels_at(pixels, i))
}

/// A whole frame on the wire: the coded pixels followed by the latch gap.
pub open spec fn encoded_frame(pixels: Seq<Rgb8>) -> Seq<u8> {
    encoded_pixels(pixels) + Seq::new(WS2812_RESET_BYTES as nat, |i: int| 0u8)
}

/// Decoding the four SPI bytes of any data byte gives that byte back.
pub proof fn lemma_encode_byte_round_trip(data: u8)
    ensures
        encoded_byte(data).len() == 4,
        decoded_byte(encoded_byte(data)) == Some(data),
{
    let d = data as int;
    assert(d == (d / 64) * 64 + ((d / 16) % 4) * 16 + ((d / 4) % 4) * 4 + d % 4);
    assert(0 <= d / 64 < 4);
}

/// Two data bytes with the same SPI coding are the same byte.
pub proof fn lemma_encode_byte_injective(a: u8, b: u8)
    requires
        encoded_byte(a) == encoded_byte(b),
    ensures
        a == b,
{
    lemma_encode_byte_round_trip(a);
    lemma_encode_byte_round_trip(b);
}

fn pattern_for(pair: u8) -> (code: u8)
    requires
        pair < 4,
    ensures
        code == line_code(pair as int),
{
    // High time first, then the low time: two data bits per SPI byte.
    let patterns: [u8; 4] = [0b1000_1000, 0b1000_1110, 0b1110_1000, 0b1110_1110];
    patterns[pair as usize]
}

/// Fills `buffer` with the latch gap.
pub fn encode_reset(buffer: &mut [u8; WS2812_RESET_BYTES])
    ensures
        final(buffer)@ == Seq::new(WS2812_RESET_BYTES as nat, |i: int| 0u8),
{
    let mut i: usize = 0;
    while i < WS2812_RESET_BYTES
        invariant
            i <= WS2812_RESET_BYTES,
            forall|j: int| 0 <= j < i ==> buffer@[j] == 0u8,
        decreases WS2812_RESET_BYTES - i,
    {
        buffer[i] = 0;
        i += 1;
    }
    assert(buffer@ =~= Seq::new(WS2812_RESET_BYTES as nat, |i: int| 0u8));
}

/// Codes one data byte into four SPI bytes.
pub fn encode_byte(buffer: &mut [u8; 4], data: u8)
    ensures
        final(buffer)@ == encoded_byte(data),
{
    let p0: u8 = data >> 6;
    let p1: u8 = (data >> 4) & 3;
    let p2: u8 = (data >> 2) & 3;
    let p3: u8 = data & 3;
    assert(data >> 6 == data / 64) by (bit_vector);
    assert((data >> 4) & 3 == (data / 16) % 4) by (bit_vector);
    assert((data >> 2) & 3 == (data / 4) % 4) by (bit_vector);
    assert(data & 3 == data % 4) by (bit_vector);
    buffer[0] = pattern_for(p0);
    buffer[1] = pattern_for(p1);
    buffer[2] = pattern_for(p2);
    buffer[3] = pattern_for(p3);
    assert(buffer@ =~= encoded_byte(data));
}

fn pair_of(code: u8) -> (pair: Option<u8>)
    ensures
        pair is Some == line_decode(code) is Some,
        pair matches Some(p) ==> p == line_decode(code)->Some_0 && p < 4,
{
    if code == 0x88 {
        Some(0)
    } else if code == 0x8E {
        Some(1)
    } else if code == 0xE8 {
        Some(2)
    } else if code == 0xEE {
        Some(3)
    } else {
        None
    }
}

/// Reads back the data byte that four SPI bytes stand for; `None` when one
/// of them is no line code.
pub fn decode_byte(codes: &[u8; 4]) -> (data: Option<u8>)
    ensures
        data == decoded_byte(codes@),
{
    let a = pair_of(codes[0]);
    let b = pair_of(codes[1]);
    let c = pair_of(codes[2]);
    let d = pair_of(codes[3]);
    match (a, b, c, d) {
        (Some(a), Some(b), Some(c), Some(d)) => Some(a * 64 + b * 16 + c * 4 + d),
        _ => None,
    }
}

/// Codes one pixel into twelve SPI bytes, green first.
pub fn encode_pixel(buffer: &mut [u8; 12], pixel: &Rgb8)
    ensures
        final(buffer)@ == encoded_pixel(*pixel),
{
    let mut part: [u8; 4] = [0; 4];
    encode_byte(&mut part, pixel.g);
    let ghost green = part@;
    buffer[0] = part[0];
    buffer[1] = part[1];
    buffer[2] = part[2];
    buffer[3] = part[3];
    encode_byte(&mut part, pixel.r);
    buffer[4] = part[0];
    buffer[5] = part[1];
    buffer[6] = part[2];
    buffer[7] = part[3];
    encode_byte(&mut part, pixel.b);
    buffer[8] = part[0];
    buffer[9] = part[1];
    buffer[10] = part[2];
    buffer[11] = part[3];
    assert(buffer@ =~= encoded_pixel(*pixel));
}

/// Codes a whole frame into the front of `buffer`: every pixel in order, then
/// the latch gap. Bytes behind the gap are left as they were.
#[verifier::rlimit(40)]
pub fn encode_sequence<const N: usize, const B: usize>(buffer: &mut [u8; B], pixels: &[Rgb8; N])
    requires
        B >= 12 * N + WS2812_RESET_BYTES,
    ensures
        final(buffer)@.subrange(0, 12 * N + WS2812_RESET_BYTES) == encoded_frame(pixels@),
        forall|i: int| 12 * N + WS2812_RESET_BYTES <= i < B ==> final(buffer)@[i] == old(buffer)@[i],
{
    let mut index: usize = 0;
    let mut p: usize = 0;
    while p < N
        invariant
            p <= N,
            index == 12 * p,
            B >= 12 * N + WS2812_RESET_BYTES,
            forall|i: int| 0 <= i < index ==> buffer@[i] == encoded_pixels_at(pixels@, i),
            forall|i: int| index <= i < B ==> buffer@[i] == old(buffer)@[i],
        decreases N - p,
    {
        let mut chunk: [u8; 12] = [0; 12];
        encode_pixel(&mut chunk, &pixels[p]);
        let mut k: usize = 0;
        while k < 12
            invariant
                k <= 12,
                p < N,
                index == 12 * p,
                B >= 12 * N + WS2812_RESET_BYTES,
                chunk@ == encoded_pixel(pixels@[p as int]),
                forall|i: int| 0 <= i < index + k ==> buffer@[i] == encoded_pixels_at(pixels@, i),
                forall|i: int| index + k <= i < B ==> buffer@[i] == old(buffer)@[i],
            decreases 12 - k,
        {
            buffer[index + k] = chunk[k];
            assert((index + k) as int / 12 == p as int && (index + k) as int % 12 == k as int);
            k += 1;
        }
        index += 12;
        p += 1;
    }
    let mut z: usize = 0;
    while z < WS2812_RESET_BYTES
        invariant
            z <= WS2812_RESET_BYTES,
            index == 12 * N,
            B >= 12 * N + WS2812_RESET_BYTES,
            forall|i: int| 0 <= i < index ==> buffer@[i] == encoded_pixels_at(pixels@, i),
            forall|i: int| index <= i < index + z ==> buffer@[i] == 0u8,
            forall|i: int| index + z <= i < B ==> buffer@[i] == old(buffer)@[i],
        decreases WS2812_RESET_BYTES - z,
    {
        buffer[index + z] = 0;
        z += 1;
    }
    assert(buffer@.subrange(0, 12 * N + WS2812_RESET_BYTES) =~= encoded_frame(pixels@));
}

} // verus!
