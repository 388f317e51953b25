//! Reading audio out of a WAVE file held in memory.
//!
//! A WAVE file is a `RIFF` container of chunks. Each chunk has a four-byte
//! tag and a little-endian 32-bit size, followed by that many bytes. The
//! `fmt ` chunk describes the audio and the `data` chunk holds it.

use vstd::prelude::*;
use vstd::arithmetic::div_mod::lemma_fundamental_div_mod_converse;
use vstd::slice::slice_subrange;
use crate::adpcm::codes_used;
use crate::adpcm::decoded_count;
use crate::adpcm::sample_at;
use crate::adpcm::voices_after;
use crate::adpcm::AdpcmDecoder;
use crate::adpcm::Voice;

verus! {

/// Audio format tag of uncompressed PCM.
pub const FORMAT_PCM: u16 = 1;

/// Audio format tag of IMA ADPCM.
pub const FORMAT_IMA_ADPCM: u16 = 17;

/// Length of the smallest file that is looked at.
pub const MIN_WAVE_BYTES: usize = 44;

/// What the `fmt ` and `data` chunks say about the audio.
#[derive(Clone, Copy, Debug, PartialEq, Eq, Structural)]
pub struct WaveHeader {
    pub sample_rate: u32,
    pub bits_per_sample: u16,
    pub num_channels: u16,
    /// Where the audio starts in the file.
    pub data_offset: usize,
    /// Length of the audio in bytes, as the `data` chunk declares it.
    pub data_size: usize,
    /// 1 for PCM, 17 for IMA ADPCM.
    pub audio_format: u16,
    /// Length of one ADPCM block in bytes.
    pub block_align: u16,
}

/// Why a file was not accepted.
#[derive(Clone, Copy, Debug, PartialEq, Eq, Structural)]
pub enum WaveError {
    /// The file is shorter than 44 bytes.
    TooSmall,
    /// The file does not start with `RIFF`, or is not of type `WAVE`.
    InvalidHeader,
    /// The `fmt ` chunk declares fewer than 16 bytes, or the file ends
    /// before the 16 bytes are over.
    InvalidFmtChunk,
    /// No `data` chunk follows the `fmt ` chunk.
    DataChunkNotFound,
    /// There is no `fmt ` chunk.
    FmtChunkNotFound,
}

impl WaveError {
    /// A short description for the log.
    pub fn message(&self) -> (text: &'static str)
        ensures
            text@ == match *self {
                WaveError::TooSmall => "WAVE file too small"@,
                WaveError::InvalidHeader => "Invalid WAVE file header"@,
                WaveError::InvalidFmtChunk => "Invalid fmt chunk size"@,
                WaveError::DataChunkNotFound => "data chunk not found"@,
                WaveError::FmtChunkNotFound => "fmt chunk not found"@,
            },
    {
        match self {
            WaveError::TooSmall => "WAVE file too small",
            WaveError::InvalidHeader => "Invalid WAVE file header",
            WaveError::InvalidFmtChunk => "Invalid fmt chunk size",
            WaveError::DataChunkNotFound => "data chunk not found",
            WaveError::FmtChunkNotFound => "fmt chunk not found",
        }
    }
}

/// The unsigned 16-bit number at `at`, low byte first.
pub open spec fn le16(data: Seq<u8>, at: int) -> int {
    data[at] as int + 256 * (data[at + 1] as int)
}

/// The unsigned 32-bit number at `at`, low byte first.
pub open spec fn le32(data: Seq<u8>, at: int) -> int {
    data[at] as int + 256 * (data[at + 1] as int) + 65536 * (data[at + 2] as int) + 16777216 * (
    data[at + 3] as int)
}

/// The four bytes at `at` are the tag.
pub open spec fn tag_at(data: Seq<u8>, at: int, tag: Seq<u8>) -> bool {
    data[at] == tag[0] && data[at + 1] == tag[1] && data[at + 2] == tag[2] && data[at + 3]
        == tag[3]
}

/// The tag `RIFF`.
pub open spec fn riff_tag() -> Seq<u8> {
    seq![0x52u8, 0x49u8, 0x46u8, 0x46u8]
}

/// The tag `WAVE`.
pub open spec fn wave_tag() -> Seq<u8> {
    seq![0x57u8, 0x41u8, 0x56u8, 0x45u8]
}

/// The tag `fmt `.
pub open spec fn fmt_tag() -> Seq<u8> {
    seq![0x66u8, 0x6Du8, 0x74u8, 0x20u8]
}

/// The tag `data`.
pub open spec fn data_tag() -> Seq<u8> {
    seq![0x64u8, 0x61u8, 0x74u8, 0x61u8]
}

/// Where the first chunk with the tag starts, walking the chunks from
/// `offset`. A chunk is looked at only when more than its eight header
/// bytes are left.
pub open spec fn find_chunk(data: Seq<u8>, offset: int, tag: Seq<u8>) -> Option<int>
    decreases (if offset < data.len() { data.len() - offset } else { 0 }),
{
    if 0 <= offset && offset + 8 < data.len() {
        if tag_at(data, offset, tag) {
            Some(offset)
        } else {
            proof {
                assert(le32(data, offset + 4) >= 0);
            }
            find_chunk(data, offset + 8 + le32(data, offset + 4), tag)
        }
    } else {
        None
    }
}

/// The header that a file declares.
pub open spec fn parsed_header(data: Seq<u8>) -> Result<WaveHeader, WaveError> {
    if data.len() < MIN_WAVE_BYTES {
        Err(WaveError::TooSmall)
    } else if !tag_at(data, 0, riff_tag()) || !tag_at(data, 8, wave_tag()) {
        Err(WaveError::InvalidHeader)
    } else {
        match find_chunk(data, 12, fmt_tag()) {
            None => Err(WaveError::FmtChunkNotFound),
            Some(fmt) => if le32(data, fmt + 4) < 16 || fmt + 24 > data.len() {
                Err(WaveError::InvalidFmtChunk)
            } else {
                match find_chunk(data, fmt + 8 + le32(data, fmt + 4), data_tag()) {
                    None => Err(WaveError::DataChunkNotFound),
                    Some(chunk) => Ok(
                        WaveHeader {
                            sample_rate: le32(data, fmt + 12) as u32,
                            bits_per_sample: le16(data, fmt + 22) as u16,
                            num_channels: le16(data, fmt + 10) as u16,
                            data_offset: (chunk + 8) as usize,
                            data_size: le32(data, chunk + 4) as usize,
                            audio_format: le16(data, fmt + 8) as u16,
                            block_align: le16(data, fmt + 20) as u16,
                        },
                    ),
                }
            },
        }
    }
}

fn read_le16(data: &[u8], at: usize) -> (v: u16)
    requires
        at + 2 <= data.len(),
    ensures
        v == le16(data@, at as int),
{
    data[at] as u16 + 256 * (data[at + 1] as u16)
}

fn read_le32(data: &[u8], at: usize) -> (v: u32)
    requires
        at + 4 <= data.len(),
    ensures
        v == le32(data@, at as int),
{
    data[at] as u32 + 256 * (data[at + 1] as u32) + 65536 * (data[at + 2] as u32) + 16777216 * (
    data[at + 3] as u32)
}

fn has_tag(data: &[u8], at: usize, tag: &[u8; 4]) -> (r: bool)
    requires
        at + 4 <= data.len(),
    ensures
        r == tag_at(data@, at as int, tag@),
{
    data[at] == tag[0] && data[at + 1] == tag[1] && data[at + 2] == tag[2] && data[at + 3]
        == tag[3]
}

fn locate_chunk(data: &[u8], start: usize, tag: &[u8; 4]) -> (r: Option<usize>)
    requires
        start <= data.len(),
    ensures
        r is Some == find_chunk(data@, start as int, tag@) is Some,
        r matches Some(at) ==> find_chunk(data@, start as int, tag@) == Some(at as int) && at + 8
            < data.len(),
{
    let mut offset: usize = start;
    while data.len() - offset > 8
        invariant
            offset <= data.len(),
            find_chunk(data@, start as int, tag@) == find_chunk(data@, offset as int, tag@),
        decreases data.len() - offset,
    {
        if has_tag(data, offset, tag) {
            return Some(offset);
        }
        let size: u32 = read_le32(data, offset + 4);
        let room: usize = data.len() - offset - 8;
        if size as u64 >= room as u64 {
            assert(find_chunk(data@, offset + 8 + size, tag@) is None);
            return None;
        }
        offset = offset + 8 + size as usize;
    }
    None
}

/// Reads the header of a WAVE file: the audio description from the first
/// `fmt ` chunk and the place of the audio from the first `data` chunk
/// behind it.
pub fn parse_wave_header(data: &[u8]) -> (r: Result<WaveHeader, WaveError>)
    ensures
        r == parsed_header(data@),
{
    if data.len() < MIN_WAVE_BYTES {
        return Err(WaveError::TooSmall);
    }
    let riff: [u8; 4] = [0x52, 0x49, 0x46, 0x46];
    let wave: [u8; 4] = [0x57, 0x41, 0x56, 0x45];
    let fmt_name: [u8; 4] = [0x66, 0x6D, 0x74, 0x20];
    let data_name: [u8; 4] = [0x64, 0x61, 0x74, 0x61];
    assert(riff@ =~= riff_tag() && wave@ =~= wave_tag() && fmt_name@ =~= fmt_tag() && data_name@
        =~= data_tag());
    if !has_tag(data, 0, &riff) || !has_tag(data, 8, &wave) {
        return Err(WaveError::InvalidHeader);
    }
    let fmt: usize = match locate_chunk(data, 12, &fmt_name) {
        Some(at) => at,
        None => {
            return Err(WaveError::FmtChunkNotFound);
        },
    };
    let chunk_size: u32 = read_le32(data, fmt + 4);
    if chunk_size < 16 || data.len() - fmt < 24 {
        return Err(WaveError::InvalidFmtChunk);
    }
    let audio_format = read_le16(data, fmt + 8);
    let num_channels = read_le16(data, fmt + 10);
    let sample_rate = read_le32(data, fmt + 12);
    let block_align = read_le16(data, fmt + 20);
    let bits_per_sample = read_le16(data, fmt + 22);
    let room: usize = data.len() - fmt - 8;
    if chunk_size as u64 > room as u64 {
        return Err(WaveError::DataChunkNotFound);
    }
    let chunk: usize = match locate_chunk(data, fmt + 8 + chunk_size as usize, &data_name) {
        Some(at) => at,
        None => {
            return Err(WaveError::DataChunkNotFound);
        },
    };
    let data_size: u32 = read_le32(data, chunk + 4);
    Ok(
        WaveHeader {
            sample_rate,
            bits_per_sample,
            num_channels,
            data_offset: chunk + 8,
            data_size: data_size as usize,
            audio_format,
            block_align,
        },
    )
}


/// Where a player stands: its place in the audio, the state of the ADPCM
/// decoder, and the samples of the last decoded block that are not yet played.
pub struct Playback {
    /// Offset into the audio of the next byte or block.
    pub position: int,
    /// The decoder's channel states.
    pub voices: Seq<Voice>,
    /// The buffer that blocks are decoded into.
    pub decoded: Seq<i32>,
    /// Index in `decoded` of the next sample to play.
    pub decoded_pos: int,
    /// Number of samples in `decoded` that belong to the last block.
    pub decoded_len: int,
}

/// The four bytes of a sample, low byte first.
pub open spec fn sample_bytes(s: i32) -> Seq<u8> {
    let u = if s < 0 {
        s + 0x1_0000_0000
    } else {
        s as int
    };
    seq![
        (u % 256) as u8,
        ((u / 256) % 256) as u8,
        ((u / 65536) % 256) as u8,
        (u / 16777216) as u8,
    ]
}

/// Decoder channels at rest.
pub open spec fn rested_voices() -> Seq<Voice> {
    Seq::new(2, |ch: int| Voice { predictor: 0, step_index: 0 })
}

/// Decoding can go on: there are one or two channels, a block holds at
/// least its header and fits the audio, and the decode buffer has room.
pub open spec fn can_refill(audio_len: int, block: int, channels: int, room: int) -> bool {
    1 <= channels <= 2 && 4 * channels <= block <= audio_len && room >= 1
}

/// The player after it decoded the next block. When less than a block is
/// left, it starts over at the beginning with the decoder at rest.
pub open spec fn refilled(p: Playback, audio: Seq<u8>, block: int, channels: int) -> Playback {
    let wrapped = p.position + block > audio.len();
    let start = if wrapped {
        0
    } else {
        p.position
    };
    let before = if wrapped {
        rested_voices()
    } else {
        p.voices
    };
    let input = audio.subrange(start, start + block);
    let count = decoded_count(block, channels, p.decoded.len() as int);
    Playback {
        position: start + block,
        voices: voices_after(
            before,
            input,
            channels,
            codes_used(block, channels, p.decoded.len() as int) as nat,
        ),
        decoded: Seq::new(
            p.decoded.len(),
            |k: int|
                if k < count {
                    sample_at(before, input, channels, k) as i32
                } else {
                    p.decoded[k]
                },
        ),
        decoded_pos: 0,
        decoded_len: count,
    }
}

/// The player after it played one sample.
pub open spec fn advanced(p: Playback) -> Playback {
    Playback { decoded_pos: p.decoded_pos + 1, ..p }
}

/// The next `wanted` bytes of ADPCM audio: the samples that are left of the
/// last block, then block after block, four bytes per sample. Of the last
/// sample only as many bytes are given as are wanted.
pub open spec fn played_bytes(
    p: Playback,
    audio: Seq<u8>,
    block: int,
    channels: int,
    wanted: nat,
) -> Seq<u8>
    decreases wanted, (if p.decoded_pos < p.decoded_len { 0int } else { 1int }),
{
    if wanted == 0 {
        Seq::<u8>::empty()
    } else if p.decoded_pos < p.decoded_len {
        let take = if wanted < 4 {
            wanted as int
        } else {
            4
        };
        sample_bytes(p.decoded[p.decoded_pos]).take(take) + played_bytes(
            advanced(p),
            audio,
            block,
            channels,
            (wanted - take) as nat,
        )
    } else if can_refill(audio.len() as int, block, channels, p.decoded.len() as int) {
        played_bytes(refilled(p, audio, block, channels), audio, block, channels, wanted)
    } else {
        Seq::<u8>::empty()
    }
}

/// Where the player stands after `played_bytes`. A sample of which only a
/// part was wanted counts as played.
pub open spec fn played_state(
    p: Playback,
    audio: Seq<u8>,
    block: int,
    channels: int,
    wanted: nat,
) -> Playback
    decreases wanted, (if p.decoded_pos < p.decoded_len { 0int } else { 1int }),
{
    if wanted == 0 {
        p
    } else if p.decoded_pos < p.decoded_len {
        let take = if wanted < 4 {
            wanted as int
        } else {
            4
        };
        played_state(advanced(p), audio, block, channels, (wanted - take) as nat)
    } else if can_refill(audio.len() as int, block, channels, p.decoded.len() as int) {
        played_state(refilled(p, audio, block, channels), audio, block, channels, wanted)
    } else {
        p
    }
}

/// Number of decoded samples that are not yet played.
pub open spec fn samples_left(decoded_pos: int, decoded_len: int) -> int {
    if decoded_pos < decoded_len {
        decoded_len - decoded_pos
    } else {
        0
    }
}

/// The inputs on which `read_fake_i2s_samples` comes to an end: the audio
/// lies in the file and the position in the audio; PCM audio is not empty
/// unless nothing is wanted; for ADPCM the samples that count as decoded lie
/// in the decode buffer, and either they cover what is wanted or decoding
/// can go on.
pub open spec fn playable(
    file_len: int,
    wanted: int,
    position: int,
    header: WaveHeader,
    room: int,
    decoded_pos: int,
    decoded_len: int,
) -> bool {
    &&& header.data_offset + header.data_size <= file_len
    &&& position <= header.data_size
    &&& header.audio_format != FORMAT_IMA_ADPCM ==> wanted == 0 || header.data_size > 0
    &&& header.audio_format == FORMAT_IMA_ADPCM ==> decoded_len <= room
    &&& header.audio_format == FORMAT_IMA_ADPCM ==> wanted <= 4 * samples_left(
        decoded_pos,
        decoded_len,
    ) || can_refill(
        header.data_size as int,
        header.block_align as int,
        header.num_channels as int,
        room,
    )
}

/// Byte `k` of PCM audio played from `position`: the audio goes round.
pub open spec fn pcm_byte(audio: Seq<u8>, position: int, k: int) -> u8 {
    audio[(position + k) % (audio.len() as int)]
}

/// The position after `count` bytes of PCM audio were played from `position`.
pub open spec fn pcm_position(audio_len: int, position: int, count: int) -> int {
    if count == 0 {
        position
    } else {
        (position + count - 1) % audio_len + 1
    }
}

/// Decides `playable`.
pub fn can_play(
    file_len: usize,
    wanted: usize,
    position: usize,
    header: &WaveHeader,
    room: usize,
    decoded_pos: usize,
    decoded_len: usize,
) -> (r: bool)
    ensures
        r == playable(
            file_len as int,
            wanted as int,
            position as int,
            *header,
            room as int,
            decoded_pos as int,
            decoded_len as int,
        ),
{
    if header.data_offset > file_len || header.data_size > file_len - header.data_offset {
        return false;
    }
    if position > header.data_size {
        return false;
    }
    if header.audio_format != FORMAT_IMA_ADPCM {
        return wanted == 0 || header.data_size > 0;
    }
    if decoded_len > room {
        return false;
    }
    let left: usize = if decoded_pos < decoded_len { decoded_len - decoded_pos } else { 0 };
    if wanted / 4 < left || (wanted / 4 == left && wanted % 4 == 0) {
        return true;
    }
    let channels: usize = header.num_channels as usize;
    let block: usize = header.block_align as usize;
    1 <= channels && channels <= 2 && 4 * channels <= block && block <= header.data_size && room
        >= 1
}

fn bytes_of_sample(s: i32) -> (bytes: [u8; 4])
    ensures
        bytes@ == sample_bytes(s),
{
    let u: u32 = if s < 0 {
        ((s + 0x4000_0000 + 0x4000_0000) as u32) + 0x8000_0000
    } else {
        s as u32
    };
    let bytes: [u8; 4] = [
        (u % 256) as u8,
        ((u / 256) % 256) as u8,
        ((u / 65536) % 256) as u8,
        (u / 16777216) as u8,
    ];
    assert(bytes@ =~= sample_bytes(s));
    bytes
}


/// The player that the arguments of `read_fake_i2s_samples` stand for.
pub open spec fn playback_of(
    position: usize,
    decoder: AdpcmDecoder,
    decode_buffer: Seq<i32>,
    decode_buffer_pos: usize,
    decode_buffer_len: usize,
) -> Playback {
    Playback {
        position: position as int,
        voices: decoder@,
        decoded: decode_buffer,
        decoded_pos: decode_buffer_pos as int,
        decoded_len: decode_buffer_len as int,
    }
}

#[verifier::rlimit(40)]
fn read_pcm(audio: &[u8], buffer: &mut [u8], position: &mut usize) -> (written: usize)
    requires
        *old(position) <= audio.len(),
        old(buffer)@.len() == 0 || audio.len() > 0,
    ensures
        written == old(buffer)@.len(),
        final(buffer)@.len() == old(buffer)@.len(),
        forall|k: int|
            0 <= k < written ==> #[trigger] final(buffer)@[k] == pcm_byte(
                audio@,
                *old(position) as int,
                k,
            ),
        *final(position) == pcm_position(
            audio.len() as int,
            *old(position) as int,
            written as int,
        ),
{
    let wanted: usize = buffer.len();
    let length: usize = audio.len();
    let ghost start: int = *position as int;
    let ghost mut laps: int = 0;
    let mut written: usize = 0;
    while written < wanted
        invariant
            written <= wanted,
            wanted == buffer@.len(),
            length == audio.len(),
            wanted == 0 || length > 0,
            *position <= length,
            laps >= 0,
            start + written == laps * length + *position,
            written == wanted && wanted > 0 ==> *position > 0,
            wanted == 0 ==> *position == start,
            forall|k: int| 0 <= k < written ==> #[trigger] buffer@[k] == pcm_byte(audio@, start, k),
        decreases wanted - written, (if *position == length { 1int } else { 0int }),
    {
        let remaining: usize = length - *position;
        if remaining == 0 {
            // Start over at the beginning.
            *position = 0;
            proof {
                assert((laps + 1) * length == laps * length + length) by (nonlinear_arith);
                laps = laps + 1;
            }
            continue;
        }
        let to_copy: usize = if wanted - written < remaining { wanted - written } else { remaining };
        let mut j: usize = 0;
        while j < to_copy
            invariant
                j <= to_copy,
                to_copy <= wanted - written,
                to_copy <= length - *position,
                wanted == buffer@.len(),
                length == audio.len(),
                length > 0,
                laps >= 0,
                start + written == laps * length + *position,
                forall|k: int|
                    0 <= k < written + j ==> #[trigger] buffer@[k] == pcm_byte(audio@, start, k),
            decreases to_copy - j,
        {
            proof {
                lemma_fundamental_div_mod_converse(
                    start + written + j,
                    length as int,
                    laps,
                    *position + j,
                );
            }
            buffer[written + j] = audio[*position + j];
            j += 1;
        }
        *position += to_copy;
        written += to_copy;
    }
    proof {
        if wanted > 0 {
            lemma_fundamental_div_mod_converse(
                start + wanted - 1,
                length as int,
                laps,
                *position - 1,
            );
        }
    }
    written
}

#[verifier::rlimit(40)]
fn read_adpcm(
    audio: &[u8],
    buffer: &mut [u8],
    position: &mut usize,
    block_size: usize,
    num_channels: usize,
    decoder: &mut AdpcmDecoder,
    decode_buffer: &mut [i32],
    decode_buffer_pos: &mut usize,
    decode_buffer_len: &mut usize,
) -> (written: usize)
    requires
        *old(position) <= audio.len(),
        block_size <= 65535,
        *old(decode_buffer_len) <= old(decode_buffer)@.len(),
        old(buffer)@.len() <= 4 * samples_left(
            *old(decode_buffer_pos) as int,
            *old(decode_buffer_len) as int,
        ) || can_refill(
            audio.len() as int,
            block_size as int,
            num_channels as int,
            old(decode_buffer)@.len() as int,
        ),
    ensures
        written == old(buffer)@.len(),
        final(buffer)@.len() == old(buffer)@.len(),
        final(buffer)@ == played_bytes(
            playback_of(
                *old(position),
                *old(decoder),
                old(decode_buffer)@,
                *old(decode_buffer_pos),
                *old(decode_buffer_len),
            ),
            audio@,
            block_size as int,
            num_channels as int,
            old(buffer)@.len(),
        ),
        playback_of(
            *final(position),
            *final(decoder),
            final(decode_buffer)@,
            *final(decode_buffer_pos),
            *final(decode_buffer_len),
        ) == played_state(
            playback_of(
                *old(position),
                *old(decoder),
                old(decode_buffer)@,
                *old(decode_buffer_pos),
                *old(decode_buffer_len),
            ),
            audio@,
            block_size as int,
            num_channels as int,
            old(buffer)@.len(),
        ),
{
    let wanted: usize = buffer.len();
    let room: usize = decode_buffer.len();
    let ghost first = playback_of(
        *position,
        *decoder,
        decode_buffer@,
        *decode_buffer_pos,
        *decode_buffer_len,
    );
    let ghost block = block_size as int;
    let ghost channels = num_channels as int;
    let mut written: usize = 0;
    assert(buffer@.take(0) + played_bytes(first, audio@, block, channels, wanted as nat)
        =~= played_bytes(first, audio@, block, channels, wanted as nat));
    while written < wanted
        invariant
            written <= wanted,
            wanted == buffer@.len(),
            room == decode_buffer@.len(),
            block == block_size,
            block_size <= 65535,
            channels == num_channels,
            *position <= audio.len(),
            *decode_buffer_len <= room,
            wanted - written <= 4 * samples_left(
                *decode_buffer_pos as int,
                *decode_buffer_len as int,
            ) || can_refill(audio.len() as int, block, channels, room as int),
            played_bytes(first, audio@, block, channels, wanted as nat) == buffer@.take(
                written as int,
            ) + played_bytes(
                playback_of(
                    *position,
                    *decoder,
                    decode_buffer@,
                    *decode_buffer_pos,
                    *decode_buffer_len,
                ),
                audio@,
                block,
                channels,
                (wanted - written) as nat,
            ),
            played_state(first, audio@, block, channels, wanted as nat) == played_state(
                playback_of(
                    *position,
                    *decoder,
                    decode_buffer@,
                    *decode_buffer_pos,
                    *decode_buffer_len,
                ),
                audio@,
                block,
                channels,
                (wanted - written) as nat,
            ),
        decreases wanted - written, (if *decode_buffer_pos < *decode_buffer_len { 0int } else { 1int }),
    {
        let ghost now = playback_of(
            *position,
            *decoder,
            decode_buffer@,
            *decode_buffer_pos,
            *decode_buffer_len,
        );
        let ghost done = buffer@.take(written as int);
        if *decode_buffer_pos < *decode_buffer_len {
            // Play a sample that is already decoded.
            let sample: i32 = decode_buffer[*decode_buffer_pos];
            *decode_buffer_pos += 1;
            let bytes = bytes_of_sample(sample);
            let to_write: usize = if wanted - written < 4 { wanted - written } else { 4 };
            let mut j: usize = 0;
            while j < to_write
                invariant
                    j <= to_write <= 4,
                    to_write <= wanted - written,
                    wanted == buffer@.len(),
                    buffer@.take(written as int) == done,
                    forall|i: int| 0 <= i < j ==> buffer@[written + i] == bytes@[i],
                decreases to_write - j,
            {
                buffer[written + j] = bytes[j];
                assert(buffer@.take(written as int) =~= done);
                j += 1;
            }
            assert(buffer@.take(written + to_write) =~= done + sample_bytes(sample).take(
                to_write as int,
            ));
            assert(playback_of(
                *position,
                *decoder,
                decode_buffer@,
                *decode_buffer_pos,
                *decode_buffer_len,
            ) == advanced(now));
            assert(played_bytes(first, audio@, block, channels, wanted as nat) =~= buffer@.take(
                written + to_write,
            ) + played_bytes(
                advanced(now),
                audio@,
                block,
                channels,
                (wanted - written - to_write) as nat,
            ));
            written += to_write;
        } else {
            // Decode the next block, starting over when the audio is used up.
            if block_size > audio.len() - *position {
                *position = 0;
                decoder.reset();
            }
            let ghost before = decoder@;
            let ghost earlier = decode_buffer@;
            let input = slice_subrange(audio, *position, *position + block_size);
            *decode_buffer_len = decoder.decode_block(input, decode_buffer, num_channels);
            *decode_buffer_pos = 0;
            *position += block_size;
            proof {
                let next = refilled(now, audio@, block, channels);
                assert(before == if now.position + block > audio.len() {
                    rested_voices()
                } else {
                    now.voices
                });
                assert(decode_buffer@ =~= next.decoded);
                assert(playback_of(
                    *position,
                    *decoder,
                    decode_buffer@,
                    *decode_buffer_pos,
                    *decode_buffer_len,
                ) == next);
            }
        }
    }
    assert(buffer@.take(wanted as int) =~= buffer@);
    written
}

/// Fills `buffer` with audio from a WAVE file in memory and returns the
/// number of bytes written, which is the length of `buffer`. The audio goes
/// round: behind its end it starts over.
///
/// `file` is the whole file and `header` what `parse_wave_header` read from
/// it. PCM audio is copied as it stands. IMA ADPCM audio is decoded block by
/// block into `decode_buffer` and given out as little-endian 32-bit samples;
/// `decode_buffer_pos` and `decode_buffer_len` say which of the decoded
/// samples are still to come, so that the next call goes on where this one
/// stopped.
#[verifier::rlimit(40)]
pub fn read_fake_i2s_samples(
    file: &[u8],
    buffer: &mut [u8],
    position: &mut usize,
    header: &WaveHeader,
    decoder: &mut AdpcmDecoder,
    decode_buffer: &mut [i32],
    decode_buffer_pos: &mut usize,
    decode_buffer_len: &mut usize,
) -> (written: usize)
    requires
        playable(
            file.len() as int,
            old(buffer)@.len() as int,
            *old(position) as int,
            *header,
            old(decode_buffer)@.len() as int,
            *old(decode_buffer_pos) as int,
            *old(decode_buffer_len) as int,
        ),
    ensures
        written == old(buffer)@.len(),
        final(buffer)@.len() == old(buffer)@.len(),
        header.audio_format != FORMAT_IMA_ADPCM ==> forall|k: int|
            0 <= k < written ==> #[trigger] final(buffer)@[k] == pcm_byte(
                file@.subrange(
                    header.data_offset as int,
                    header.data_offset + header.data_size,
                ),
                *old(position) as int,
                k,
            ),
        header.audio_format != FORMAT_IMA_ADPCM ==> *final(position) == pcm_position(
            header.data_size as int,
            *old(position) as int,
            written as int,
        ),
        header.audio_format != FORMAT_IMA_ADPCM ==> *final(decoder) == *old(decoder),
        header.audio_format != FORMAT_IMA_ADPCM ==> final(decode_buffer)@ == old(decode_buffer)@,
        header.audio_format != FORMAT_IMA_ADPCM ==> *final(decode_buffer_pos) == *old(
            decode_buffer_pos,
        ) && *final(decode_buffer_len) == *old(decode_buffer_len),
        header.audio_format == FORMAT_IMA_ADPCM ==> final(buffer)@ == played_bytes(
            playback_of(
                *old(position),
                *old(decoder),
                old(decode_buffer)@,
                *old(decode_buffer_pos),
                *old(decode_buffer_len),
            ),
            file@.subrange(header.data_offset as int, header.data_offset + header.data_size),
            header.block_align as int,
            header.num_channels as int,
            old(buffer)@.len(),
        ),
        header.audio_format == FORMAT_IMA_ADPCM ==> playback_of(
            *final(position),
            *final(decoder),
            final(decode_buffer)@,
            *final(decode_buffer_pos),
            *final(decode_buffer_len),
        ) == played_state(
            playback_of(
                *old(position),
                *old(decoder),
                old(decode_buffer)@,
                *old(decode_buffer_pos),
                *old(decode_buffer_len),
            ),
            file@.subrange(header.data_offset as int, header.data_offset + header.data_size),
            header.block_align as int,
            header.num_channels as int,
            old(buffer)@.len(),
        ),
{
    let audio = slice_subrange(file, header.data_offset, header.data_offset + header.data_size);
    if header.audio_format == FORMAT_IMA_ADPCM {
        read_adpcm(
            audio,
            buffer,
            position,
            header.block_align as usize,
            header.num_channels as usize,
            decoder,
            decode_buffer,
            decode_buffer_pos,
            decode_buffer_len,
        )
    } else {
        read_pcm(audio, buffer, position)
    }
}

} // verus!
