//! From raw audio bytes to the samples of one analysis frame.
//!
//! Audio arrives as interleaved stereo: eight bytes per moment, a signed
//! little-endian 32-bit sample for the left channel followed by one for the
//! right. A frame is 256 such moments. USB packets carry the same samples as
//! 32-bit words and are relayed in 2048-byte blocks.

use vstd::prelude::*;
use vstd::slice::slice_subrange;

verus! {

/// Bytes of one stereo moment: two samples of four bytes.
pub const SAMPLE_SIZE: usize = 8;

/// Moments in one analysis frame.
pub const SAMPLES_TO_TAKE: usize = 256;

/// Bytes of one analysis frame.
pub const FRAME_BYTES: usize = 2048;

/// Most samples that are kept per channel.
pub const MAX_SAMPLES: usize = 512;

/// Length of the transform input.
pub const FFT_LENGTH: usize = 512;

/// Full scale of a 24-bit sample: samples are divided by it before the transform.
pub const SAMPLE_FULL_SCALE: i32 = 8_388_608;

/// Number of input channels of the USB audio function.
pub const INPUT_CHANNEL_COUNT: usize = 2;

/// Sample rate of both audio sources.
pub const SAMPLE_RATE_HZ: u32 = 48_000;

/// Bytes of one USB audio sample.
pub const USB_SAMPLE_BYTES: usize = 4;

/// Bytes of audio per millisecond: one full-speed USB frame.
pub const USB_FRAME_SIZE: usize = 384;

/// Largest USB audio packet: one frame and a margin.
pub const USB_MAX_PACKET_SIZE: usize = 448;

/// Most samples in one USB audio packet.
pub const USB_MAX_SAMPLE_COUNT: usize = 112;

/// Bytes of one relayed block of USB audio.
pub const RELAY_BLOCK_BYTES: usize = 2048;

/// Why a block of audio was discarded.
#[derive(Clone, Copy, Debug, PartialEq, Eq, Structural)]
pub enum AudioError {
    /// The length of the block is no multiple of eight.
    MalformedFrame,
}

impl AudioError {
    /// A short description for the log.
    pub fn message(&self) -> (text: &'static str)
        ensures
            text@ == "Buffer length must be a multiple of 8"@,
    {
        "Buffer length must be a multiple of 8"
    }
}

/// `heapless::Vec`: a vector that holds at most `N` items in place.
#[verifier::external_type_specification]
#[verifier::external_body]
#[verifier::reject_recursive_types(T)]
pub struct ExHeaplessVec<T, const N: usize>(heapless::Vec<T, N>);

/// The samples that a bounded sample vector holds, in order.
pub uninterp spec fn samples_of(v: heapless::Vec<i32, 512>) -> Seq<i32>;

/// `heapless::Vec::new`: an empty vector.
#[verifier::external_body]
fn samples_new() -> (v: heapless::Vec<i32, 512>)
    ensures
        samples_of(v) == Seq::<i32>::empty(),
{
    heapless::Vec::new()
}

/// `heapless::Vec::push`: appends `x` and returns `true` while the vector
/// holds fewer than 512 samples; leaves a full vector as it is and returns `false`.
#[verifier::external_body]
fn samples_push(v: &mut heapless::Vec<i32, 512>, x: i32) -> (pushed: bool)
    ensures
        pushed == (samples_of(*old(v)).len() < 512),
        samples_of(*final(v)) == if pushed {
            samples_of(*old(v)).push(x)
        } else {
            samples_of(*old(v))
        },
{
    v.push(x).is_ok()
}

/// The unsigned value of four bytes, low byte first.
pub open spec fn word32(b0: u8, b1: u8, b2: u8, b3: u8) -> int {
    b0 as int + 256 * (b1 as int) + 65536 * (b2 as int) + 16777216 * (b3 as int)
}

/// The signed 32-bit sample with the given bytes, low byte first.
pub open spec fn sample32(b0: u8, b1: u8, b2: u8, b3: u8) -> i32 {
    let v = word32(b0, b1, b2, b3);
    if v >= 0x8000_0000 {
        (v - 0x1_0000_0000) as i32
    } else {
        v as i32
    }
}

/// The sample that starts at byte `at` of `data`.
pub open spec fn sample_at(data: Seq<u8>, at: int) -> i32 {
    sample32(data[at], data[at + 1], data[at + 2], data[at + 3])
}

/// Number of samples per channel that a block of `len` bytes yields.
pub open spec fn sample_count(len: nat) -> nat {
    if len / 8 < 512 {
        len / 8
    } else {
        512
    }
}

/// The left channel of a block: the first sample of every moment.
pub open spec fn left_samples(data: Seq<u8>) -> Seq<i32> {
    Seq::new(sample_count(data.len()), |k: int| sample_at(data, 8 * k))
}

/// The right channel of a block: the second sample of every moment.
pub open spec fn right_samples(data: Seq<u8>) -> Seq<i32> {
    Seq::new(sample_count(data.len()), |k: int| sample_at(data, 8 * k + 4))
}

fn read_sample(data: &[u8], at: usize) -> (s: i32)
    requires
        at + 4 <= data.len(),
    ensures
        s == sample_at(data@, at as int),
{
    let v: u32 = data[at] as u32 + 256 * (data[at + 1] as u32) + 65536 * (data[at + 2] as u32)
        + 16777216 * (data[at + 3] as u32);
    if v >= 0x8000_0000 {
        ((v - 0x8000_0000) as i32) - 0x4000_0000 - 0x4000_0000
    } else {
        v as i32
    }
}

/// Splits a block of interleaved stereo into its two channels.
///
/// A block whose length is no multiple of eight is rejected. Otherwise both
/// channels hold one sample per moment, for the first 512 moments of the block.
pub fn process_audio_samples(buffer: &[u8]) -> (r: Result<
    (heapless::Vec<i32, 512>, heapless::Vec<i32, 512>),
    AudioError,
>)
    ensures
        r is Err == (buffer.len() % 8 != 0),
        r matches Ok((left, right)) ==> samples_of(left) == left_samples(buffer@) && samples_of(
            right,
        ) == right_samples(buffer@),
{
    if buffer.len() % 8 != 0 {
        return Err(AudioError::MalformedFrame);
    }
    let mut left = samples_new();
    let mut right = samples_new();
    let moments: usize = buffer.len() / 8;
    let mut k: usize = 0;
    while k < moments
        invariant
            k <= moments,
            moments == buffer.len() / 8,
            samples_of(left) =~= Seq::new(
                if k < 512 { k as nat } else { 512nat },
                |j: int| sample_at(buffer@, 8 * j),
            ),
            samples_of(right) =~= Seq::new(
                if k < 512 { k as nat } else { 512nat },
                |j: int| sample_at(buffer@, 8 * j + 4),
            ),
        decreases moments - k,
    {
        let left_value = read_sample(buffer, 8 * k);
        let _ = samples_push(&mut left, left_value);
        let right_value = read_sample(buffer, 8 * k + 4);
        let _ = samples_push(&mut right, right_value);
        k += 1;
    }
    Ok((left, right))
}

/// The newest frame among the first `available` bytes of `buffer`, once
/// there is a whole one: the last 2048 of those bytes.
pub fn newest_frame(buffer: &[u8], available: usize) -> (frame: Option<&[u8]>)
    requires
        available <= buffer.len(),
    ensures
        frame is Some == (available >= FRAME_BYTES),
        frame matches Some(f) ==> f@ == buffer@.subrange(
            available - FRAME_BYTES,
            available as int,
        ),
{
    if available >= FRAME_BYTES {
        Some(slice_subrange(buffer, available - FRAME_BYTES, available))
    } else {
        None
    }
}

/// The frame at the start of a relayed block, once the block holds a whole one.
pub fn first_frame(buffer: &[u8]) -> (frame: Option<&[u8]>)
    ensures
        frame is Some == (buffer.len() >= FRAME_BYTES),
        frame matches Some(f) ==> f@ == buffer@.subrange(0, FRAME_BYTES as int),
{
    if buffer.len() >= FRAME_BYTES {
        Some(slice_subrange(buffer, 0, FRAME_BYTES))
    } else {
        None
    }
}

/// A whole frame yields 256 samples per channel.
pub proof fn lemma_frame_sample_count(frame: Seq<u8>)
    requires
        frame.len() == FRAME_BYTES,
    ensures
        frame.len() % 8 == 0,
        left_samples(frame).len() == SAMPLES_TO_TAKE,
        right_samples(frame).len() == SAMPLES_TO_TAKE,
{
}

/// Where the samples of a frame stand in the transform input.
#[derive(Clone, Copy, Debug, PartialEq, Eq, Structural)]
pub struct FrameLayout {
    /// Number of samples that are used: at most 512.
    pub sample_count: usize,
    /// Number of zeros in front of the samples.
    pub left_padding: usize,
}

/// Places `samples` samples in the middle of the 512 transform inputs: what
/// does not fit is dropped, and the zeros that fill up are split evenly,
/// the odd one going behind.
pub fn frame_layout(samples: usize) -> (layout: FrameLayout)
    ensures
        layout.sample_count == if samples < FFT_LENGTH { samples } else { FFT_LENGTH },
        layout.left_padding == (FFT_LENGTH - layout.sample_count) / 2,
        layout.left_padding + layout.sample_count <= FFT_LENGTH,
{
    let sample_count: usize = if samples < FFT_LENGTH { samples } else { FFT_LENGTH };
    let padding_count: usize = FFT_LENGTH - sample_count;
    FrameLayout { sample_count, left_padding: padding_count / 2 }
}

/// The consumption rate that the feedback endpoint reports, in 10.14 fixed
/// point samples per millisecond.
pub open spec fn feedback_of(sample_rate_hz: u32) -> int {
    (sample_rate_hz as int * 16384) / 1000
}

/// Computes the feedback value for a sample rate below 2^18 Hz.
pub fn feedback_value(sample_rate_hz: u32) -> (value: u32)
    requires
        sample_rate_hz < 262_144,
    ensures
        value == feedback_of(sample_rate_hz),
{
    (sample_rate_hz * 16384) / 1000
}

/// The feedback packet: the low three bytes of the feedback value, low byte first.
pub fn feedback_packet(sample_rate_hz: u32) -> (packet: [u8; 3])
    requires
        sample_rate_hz < 262_144,
    ensures
        packet@ == seq![
            (feedback_of(sample_rate_hz) % 256) as u8,
            ((feedback_of(sample_rate_hz) / 256) % 256) as u8,
            ((feedback_of(sample_rate_hz) / 65536) % 256) as u8,
        ],
{
    let value: u32 = feedback_value(sample_rate_hz);
    let packet: [u8; 3] = [
        (value % 256) as u8,
        ((value / 256) % 256) as u8,
        ((value / 65536) % 256) as u8,
    ];
    assert(packet@ =~= seq![
        (feedback_of(sample_rate_hz) % 256) as u8,
        ((feedback_of(sample_rate_hz) / 256) % 256) as u8,
        ((feedback_of(sample_rate_hz) / 65536) % 256) as u8,
    ]);
    packet
}

/// The words of a USB audio packet.
pub open spec fn packet_words(data: Seq<u8>) -> Seq<u32> {
    Seq::new(
        data.len() / 4,
        |k: int| word32(data[4 * k], data[4 * k + 1], data[4 * k + 2], data[4 * k + 3]) as u32,
    )
}

/// Reads a USB audio packet as little-endian 32-bit words. A packet whose
/// length is no multiple of four is skipped.
pub fn parse_usb_packet(data: &[u8]) -> (words: Option<Vec<u32>>)
    ensures
        words is Some == (data.len() % 4 == 0),
        words matches Some(w) ==> w@ == packet_words(data@),
{
    let word_count: usize = data.len() / USB_SAMPLE_BYTES;
    if word_count * USB_SAMPLE_BYTES != data.len() {
        return None;
    }
    let mut words: Vec<u32> = Vec::new();
    let mut w: usize = 0;
    while w < word_count
        invariant
            w <= word_count,
            word_count * 4 == data.len(),
            words@ =~= Seq::new(
                w as nat,
                |k: int|
                    word32(data@[4 * k], data@[4 * k + 1], data@[4 * k + 2], data@[4 * k + 3])
                        as u32,
            ),
        decreases word_count - w,
    {
        let at: usize = w * USB_SAMPLE_BYTES;
        let word: u32 = data[at] as u32 + 256 * (data[at + 1] as u32) + 65536 * (data[at
            + 2] as u32) + 16777216 * (data[at + 3] as u32);
        words.push(word);
        w += 1;
    }
    Some(words)
}

/// Byte `i` of a run of words written low byte first.
pub open spec fn word_byte(words: Seq<u32>, i: int) -> u8 {
    let word = words[i / 4] as int;
    if i % 4 == 0 {
        (word % 256) as u8
    } else if i % 4 == 1 {
        ((word / 256) % 256) as u8
    } else if i % 4 == 2 {
        ((word / 65536) % 256) as u8
    } else {
        (word / 16777216) as u8
    }
}

/// Number of bytes that `count` words take in a relayed block: what goes
/// beyond the block is dropped.
pub open spec fn packed_len(count: nat) -> nat {
    if count < 512 {
        4 * count
    } else {
        2048
    }
}

/// Writes the samples into the front of a relayed block, four bytes each,
/// low byte first, and returns the number of bytes written. Samples that do
/// not fit are dropped; bytes behind the samples are left as they were.
pub fn pack_samples(samples: &[u32], buffer: &mut [u8; 2048]) -> (written: usize)
    ensures
        written == packed_len(samples@.len()),
        forall|i: int| 0 <= i < written ==> final(buffer)@[i] == word_byte(samples@, i),
        forall|i: int| written <= i < 2048 ==> final(buffer)@[i] == old(buffer)@[i],
{
    let count: usize = if samples.len() < 512 { samples.len() } else { 512 };
    let mut k: usize = 0;
    while k < count
        invariant
            k <= count <= 512,
            count <= samples.len(),
            forall|i: int| 0 <= i < 4 * k ==> buffer@[i] == word_byte(samples@, i),
            forall|i: int| 4 * k <= i < 2048 ==> buffer@[i] == old(buffer)@[i],
        decreases count - k,
    {
        let word: u32 = samples[k];
        let at: usize = 4 * k;
        buffer[at] = (word % 256) as u8;
        buffer[at + 1] = ((word / 256) % 256) as u8;
        buffer[at + 2] = ((word / 65536) % 256) as u8;
        buffer[at + 3] = (word / 16777216) as u8;
        assert forall|i: int| 0 <= i < 4 * (k + 1) implies buffer@[i] == word_byte(samples@, i) by {
            if i >= 4 * k {
                assert(i / 4 == k as int);
            }
        }
        k += 1;
    }
    4 * count
}

} // verus!
