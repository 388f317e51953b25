//! IMA ADPCM block decoding, as found in WAVE files.
//!
//! A block starts with four header bytes per channel: the first sample as a
//! little-endian signed 16-bit number, the step index, and a reserved byte.
//! The rest of the block is four-byte words that take turns between the
//! channels; every byte of a word holds two 4-bit codes, the low one first.
//! Each code moves the channel's predictor by a multiple of the current step
//! and then moves the step index.

use vstd::prelude::*;

verus! {

/// Step sizes, by step index.
pub const STEP_TABLE: [i32; 89] = [
    7, 8, 9, 10, 11, 12, 13, 14, 16, 17, 19, 21, 23, 25, 28, 31, 34, 37, 41, 45,
    50, 55, 60, 66, 73, 80, 88, 97, 107, 118, 130, 143, 157, 173, 190, 209, 230,
    253, 279, 307, 337, 371, 408, 449, 494, 544, 598, 658, 724, 796, 876, 963,
    1060, 1166, 1282, 1411, 1552, 1707, 1878, 2066, 2272, 2499, 2749, 3024, 3327,
    3660, 4026, 4428, 4871, 5358, 5894, 6484, 7132, 7845, 8630, 9493, 10442, 11487,
    12635, 13899, 15289, 16818, 18500, 20350, 22385, 24623, 27086, 29794, 32767,
];

/// Change of the step index, by code.
pub const INDEX_TABLE: [i32; 16] = [-1, -1, -1, -1, 2, 4, 6, 8, -1, -1, -1, -1, 2, 4, 6, 8];

/// Largest step index.
pub const MAX_STEP_INDEX: i32 = 88;

/// Factor that scales a 16-bit sample to the top of a 32-bit container.
pub const SAMPLE_SCALE: i32 = 65536;

/// The decoding state of one channel.
pub struct Voice {
    pub predictor: int,
    pub step_index: int,
}

/// `v` limited to the range from `low` to `high`.
pub open spec fn clamp(v: int, low: int, high: int) -> int {
    if v < low {
        low
    } else if v > high {
        high
    } else {
        v
    }
}

/// The distance that `code` moves the predictor at step size `step`: an
/// eighth of the step, plus the step, its half and its quarter for the three
/// low bits of the code that are set.
pub open spec fn code_distance(step: int, code: int) -> int {
    step / 8 + (if (code / 4) % 2 == 1 { step } else { 0 }) + (if (code / 2) % 2 == 1 {
        step / 2
    } else {
        0
    }) + (if code % 2 == 1 { step / 4 } else { 0 })
}

/// The channel state after one code: the predictor moves down when the top
/// bit of the code is set and up otherwise, and stays a 16-bit sample; the
/// step index moves by the table and stays in the table.
#[verifier::opaque]
pub open spec fn after_code(v: Voice, code: int) -> Voice {
    let distance = code_distance(STEP_TABLE[v.step_index] as int, code);
    let moved = if code >= 8 { v.predictor - distance } else { v.predictor + distance };
    Voice {
        predictor: clamp(moved, -32768, 32767),
        step_index: clamp(v.step_index + INDEX_TABLE[code], 0, 88),
    }
}

/// The signed 16-bit number with the given low and high byte.
pub open spec fn sample16(low: u8, high: u8) -> int {
    let v = low as int + 256 * (high as int);
    if v >= 32768 {
        v - 65536
    } else {
        v
    }
}

/// The state that the block header gives channel `ch`.
pub open spec fn header_voice(input: Seq<u8>, ch: int) -> Voice {
    Voice {
        predictor: sample16(input[4 * ch], input[4 * ch + 1]),
        step_index: if input[4 * ch + 2] > 88 { 88 } else { input[4 * ch + 2] as int },
    }
}

/// Number of complete four-byte words behind the header.
pub open spec fn word_count(input_len: int, channels: int) -> int {
    (input_len - 4 * channels) / 4
}

/// The `j`-th code of the block, counted over all channels in block order.
pub open spec fn code_at(input: Seq<u8>, channels: int, j: int) -> int {
    let byte = input[4 * channels + 4 * (j / 8) + (j % 8) / 2];
    if j % 2 == 0 {
        byte as int % 16
    } else {
        byte as int / 16
    }
}

/// The channel that the `j`-th code belongs to.
pub open spec fn channel_at(channels: int, j: int) -> int {
    (j / 8) % channels
}

/// The channel states after the header and the first `count` codes. Channels
/// that the block does not carry keep the state in `before`.
pub open spec fn voices_after(
    before: Seq<Voice>,
    input: Seq<u8>,
    channels: int,
    count: nat,
) -> Seq<Voice>
    decreases count,
{
    if count == 0 {
        Seq::new(2, |ch: int| if ch < channels { header_voice(input, ch) } else { before[ch] })
    } else {
        let j = count - 1;
        let earlier = voices_after(before, input, channels, j as nat);
        let ch = channel_at(channels, j);
        earlier.update(ch, after_code(earlier[ch], code_at(input, channels, j)))
    }
}

/// The `k`-th sample of the block: first the header sample of every
/// channel, then one sample per code, each scaled to 32 bits.
pub open spec fn sample_at(before: Seq<Voice>, input: Seq<u8>, channels: int, k: int) -> int {
    if k < channels {
        header_voice(input, k).predictor * 65536
    } else {
        let j = k - channels;
        voices_after(before, input, channels, (j + 1) as nat)[channel_at(channels, j)].predictor
            * 65536
    }
}

/// Number of samples that a block of `input_len` bytes yields into room for `room`.
pub open spec fn decoded_count(input_len: int, channels: int, room: int) -> int {
    let all = channels + 8 * word_count(input_len, channels);
    if room < all {
        room
    } else {
        all
    }
}

/// Number of codes that are decoded: all of the block, or as many as there
/// is room for behind the header samples.
pub open spec fn codes_used(input_len: int, channels: int, room: int) -> int {
    let all = 8 * word_count(input_len, channels);
    let left = if room > channels { room - channels } else { 0 };
    if left < all {
        left
    } else {
        all
    }
}

/// Every step size lies between 7 and 32767.
pub proof fn lemma_step_table_range(i: int)
    requires
        0 <= i < 89,
    ensures
        7 <= STEP_TABLE[i] <= 32767,
{
}

/// A code moves the predictor by less than twice the step size, and the
/// state stays a sample and a table position.
pub proof fn lemma_after_code_range(v: Voice, code: int)
    requires
        0 <= code < 16,
        0 <= v.step_index <= 88,
    ensures
        0 <= code_distance(STEP_TABLE[v.step_index] as int, code) <= 2 * STEP_TABLE[v.step_index],
        -32768 <= after_code(v, code).predictor <= 32767,
        0 <= after_code(v, code).step_index <= 88,
{
    reveal(after_code);
    lemma_step_table_range(v.step_index);
}

/// The smaller of two numbers.
pub open spec fn least(a: int, b: int) -> int {
    if a < b {
        a
    } else {
        b
    }
}

/// A channel state is a sample and a table position.
pub open spec fn voice_in_range(v: Voice) -> bool {
    -32768 <= v.predictor <= 32767 && 0 <= v.step_index <= 88
}

/// Where the codes of byte `byte` of word `word` stand in block order, which
/// channel they belong to, and what they are.
pub proof fn lemma_code_position(input: Seq<u8>, channels: int, word: int, byte: int)
    requires
        1 <= channels <= 2,
        0 <= word,
        0 <= byte < 4,
        4 * channels + 4 * word + byte < input.len(),
    ensures
        channel_at(channels, 8 * word + 2 * byte) == word % channels,
        channel_at(channels, 8 * word + 2 * byte + 1) == word % channels,
        code_at(input, channels, 8 * word + 2 * byte) == input[4 * channels + 4 * word + byte]
            % 16,
        code_at(input, channels, 8 * word + 2 * byte + 1) == input[4 * channels + 4 * word
            + byte] / 16,
        0 <= code_at(input, channels, 8 * word + 2 * byte) < 16,
        0 <= code_at(input, channels, 8 * word + 2 * byte + 1) < 16,
{
    let j = 8 * word + 2 * byte;
    assert(j / 8 == word && j % 8 == 2 * byte && j % 2 == 0);
    assert((j + 1) / 8 == word && (j + 1) % 8 == 2 * byte + 1 && (j + 1) % 2 == 1);
    assert((2 * byte) / 2 == byte && (2 * byte + 1) / 2 == byte);
}

/// The states of the channels that a block carries are samples and table
/// positions from the header on.
pub proof fn lemma_voices_stay_in_range(
    before: Seq<Voice>,
    input: Seq<u8>,
    channels: int,
    count: nat,
)
    requires
        1 <= channels <= 2,
        4 * channels <= input.len(),
        4 * channels + 4 * ((count + 7) / 8) <= input.len(),
    ensures
        voices_after(before, input, channels, count).len() == 2,
        forall|c: int|
            0 <= c < channels ==> voice_in_range(
                #[trigger] voices_after(before, input, channels, count)[c],
            ),
    decreases count,
{
    if count > 0 {
        let j = (count - 1) as int;
        lemma_voices_stay_in_range(before, input, channels, j as nat);
        let earlier = voices_after(before, input, channels, j as nat);
        let ch = channel_at(channels, j);
        let word = j / 8;
        let byte = (j % 8) / 2;
        lemma_code_position(input, channels, word, byte);
        assert(j == 8 * word + 2 * byte || j == 8 * word + 2 * byte + 1);
        assert(0 <= ch < channels);
        lemma_after_code_range(earlier[ch], code_at(input, channels, j));
    }
}

fn step_size(index: i32) -> (step: i32)
    requires
        0 <= index <= 88,
    ensures
        step == STEP_TABLE[index as int],
        7 <= step <= 32767,
{
    proof {
        lemma_step_table_range(index as int);
    }
    STEP_TABLE[index as usize]
}

fn index_change(code: u8) -> (change: i32)
    requires
        code < 16,
    ensures
        change == INDEX_TABLE[code as int],
        -1 <= change <= 8,
{
    INDEX_TABLE[code as usize]
}

/// IMA ADPCM decoder for up to two channels.
#[derive(Clone, Copy, Debug, PartialEq, Eq)]
pub struct AdpcmDecoder {
    predictor: [i32; 2],
    step_index: [i32; 2],
}

impl View for AdpcmDecoder {
    type V = Seq<Voice>;

    closed spec fn view(&self) -> Seq<Voice> {
        Seq::new(
            2,
            |ch: int|
                Voice {
                    predictor: self.predictor@[ch] as int,
                    step_index: self.step_index@[ch] as int,
                },
        )
    }
}

/// A decoder holds the state of two channels, whatever was decoded with it.
pub proof fn lemma_decoder_has_two_voices(d: AdpcmDecoder)
    ensures
        d@.len() == 2,
{
}

impl AdpcmDecoder {
    /// A decoder with both channels at rest.
    pub fn new() -> (d: Self)
        ensures
            d@ == Seq::new(2, |ch: int| Voice { predictor: 0, step_index: 0 }),
    {
        let d = Self { predictor: [0, 0], step_index: [0, 0] };
        assert(d@ =~= Seq::new(2, |ch: int| Voice { predictor: 0, step_index: 0 }));
        d
    }

    /// Puts both channels back to rest.
    pub fn reset(&mut self)
        ensures
            final(self)@ == Seq::new(2, |ch: int| Voice { predictor: 0, step_index: 0 }),
    {
        self.predictor = [0, 0];
        self.step_index = [0, 0];
        assert(self@ =~= Seq::new(2, |ch: int| Voice { predictor: 0, step_index: 0 }));
    }

    /// The current predictor of channel `ch`.
    pub fn predictor(&self, ch: usize) -> (p: i32)
        requires
            ch < 2,
        ensures
            p == self@[ch as int].predictor,
    {
        self.predictor[ch]
    }

    /// The current step index of channel `ch`.
    pub fn step_index(&self, ch: usize) -> (s: i32)
        requires
            ch < 2,
        ensures
            s == self@[ch as int].step_index,
    {
        self.step_index[ch]
    }

    #[verifier::rlimit(40)]
    fn apply_code(&mut self, ch: usize, code: u8)
        requires
            ch < 2,
            code < 16,
            -32768 <= old(self)@[ch as int].predictor <= 32767,
            0 <= old(self)@[ch as int].step_index <= 88,
        ensures
            final(self)@ == old(self)@.update(
                ch as int,
                after_code(old(self)@[ch as int], code as int),
            ),
    {
        proof {
            reveal(after_code);
        }
        let step: i32 = step_size(self.step_index[ch]);
        let mut diff: i32 = step / 8;
        if (code / 4) % 2 == 1 {
            diff += step;
        }
        if (code / 2) % 2 == 1 {
            diff += step / 2;
        }
        if code % 2 == 1 {
            diff += step / 4;
        }
        let mut predictor: i32 = self.predictor[ch];
        if code >= 8 {
            predictor -= diff;
        } else {
            predictor += diff;
        }
        if predictor < -32768 {
            predictor = -32768;
        } else if predictor > 32767 {
            predictor = 32767;
        }
        let mut index: i32 = self.step_index[ch] + index_change(code);
        if index < 0 {
            index = 0;
        } else if index > MAX_STEP_INDEX {
            index = MAX_STEP_INDEX;
        }
        self.predictor[ch] = predictor;
        self.step_index[ch] = index;
        assert(self@ =~= old(self)@.update(
            ch as int,
            after_code(old(self)@[ch as int], code as int),
        ));
    }

    #[verifier::rlimit(40)]
    fn play_code(&mut self, channel: usize, code: u8, output: &mut [i32], out_pos: usize) -> (next:
        usize)
        requires
            channel < 2,
            code < 16,
            voice_in_range(old(self)@[channel as int]),
            out_pos <= old(output)@.len(),
        ensures
            final(output)@.len() == old(output)@.len(),
            out_pos >= old(output)@.len() ==> next == out_pos && final(self)@ == old(self)@
                && final(output)@ == old(output)@,
            out_pos < old(output)@.len() ==> next == out_pos + 1 && final(self)@ == old(
                self,
            )@.update(channel as int, after_code(old(self)@[channel as int], code as int))
                && final(output)@ == old(output)@.update(
                out_pos as int,
                (after_code(old(self)@[channel as int], code as int).predictor * 65536) as i32,
            ),
    {
        if out_pos < output.len() {
            proof {
                lemma_after_code_range(self@[channel as int], code as int);
            }
            self.apply_code(channel, code);
            output[out_pos] = self.predictor(channel) * SAMPLE_SCALE;
            out_pos + 1
        } else {
            out_pos
        }
    }

    /// Decodes one block into `output` and returns the number of samples written.
    ///
    /// A block shorter than its header is left alone and yields nothing.
    /// Otherwise the header sets the state of every channel the block
    /// carries, and samples are written in block order until the block or the
    /// room in `output` runs out; codes for which there is no room are not
    /// decoded, so the state stops where the output stops.
    #[verifier::rlimit(40)]
    pub fn decode_block(&mut self, input: &[u8], output: &mut [i32], num_channels: usize) -> (count:
        usize)
        requires
            1 <= num_channels <= 2,
        ensures
            final(output)@.len() == old(output)@.len(),
            input.len() < 4 * num_channels ==> count == 0 && final(self)@ == old(self)@,
            input.len() < 4 * num_channels ==> final(output)@ == old(output)@,
            input.len() >= 4 * num_channels ==> count == decoded_count(
                input.len() as int,
                num_channels as int,
                old(output)@.len() as int,
            ),
            input.len() >= 4 * num_channels ==> final(self)@ == voices_after(
                old(self)@,
                input@,
                num_channels as int,
                codes_used(input.len() as int, num_channels as int, old(output)@.len() as int) as nat,
            ),
            input.len() >= 4 * num_channels ==> forall|k: int|
                0 <= k < count ==> #[trigger] final(output)@[k] == sample_at(
                    old(self)@,
                    input@,
                    num_channels as int,
                    k,
                ),
            forall|k: int| count <= k < old(output)@.len() ==> final(output)@[k] == old(output)@[k],
    {
        if input.len() < 4 * num_channels {
            return 0;
        }
        let room: usize = output.len();
        let ghost before = self@;
        assert(before.len() == 2);
        let ghost nc = num_channels as int;
        let ghost left: int = if room > nc { room - nc } else { 0 };
        let mut out_pos: usize = 0;

        // The header: first sample and step index of every channel.
        let mut ch: usize = 0;
        while ch < num_channels
            invariant
                ch <= num_channels <= 2,
                nc == num_channels,
                input.len() >= 4 * num_channels,
                output@.len() == room,
                old(output)@.len() == room,
                before.len() == 2,
                out_pos == if ch < room { ch } else { room },
                forall|c: int| 0 <= c < ch ==> #[trigger] self@[c] == header_voice(input@, c),
                forall|c: int| ch <= c < 2 ==> #[trigger] self@[c] == before[c],
                forall|k: int|
                    0 <= k < out_pos ==> #[trigger] output@[k] == sample_at(before, input@, nc, k),
                forall|k: int| out_pos <= k < room ==> output@[k] == old(output)@[k],
            decreases num_channels - ch,
        {
            let offset: usize = ch * 4;
            let low: u8 = input[offset];
            let high: u8 = input[offset + 1];
            let raw: i32 = low as i32 + 256 * (high as i32);
            let first: i32 = if raw >= 32768 { raw - 65536 } else { raw };
            let mut index: i32 = input[offset + 2] as i32;
            if index > MAX_STEP_INDEX {
                index = MAX_STEP_INDEX;
            }
            let ghost earlier = self@;
            self.predictor[ch] = first;
            self.step_index[ch] = index;
            assert(self@ =~= earlier.update(ch as int, header_voice(input@, ch as int)));
            if out_pos < room {
                output[out_pos] = first * SAMPLE_SCALE;
                out_pos += 1;
            }
            ch += 1;
        }
        assert(self@ =~= voices_after(before, input@, nc, 0));

        // The codes: four-byte words that take turns between the channels.
        let data_start: usize = num_channels * 4;
        let words: usize = (input.len() - data_start) / 4;
        let ghost base_pos: int = least(nc, room as int);
        let mut w: usize = 0;
        while w < words
            invariant
                w <= words,
                1 <= num_channels <= 2,
                nc == num_channels,
                data_start == 4 * num_channels,
                words == word_count(input.len() as int, nc),
                input.len() >= 4 * num_channels,
                output@.len() == room,
                old(output)@.len() == room,
                before.len() == 2,
                left == if room > nc { room - nc } else { 0 },
                base_pos == least(nc, room as int),
                out_pos == base_pos + least(8 * w, left),
                self@ == voices_after(before, input@, nc, least(8 * w, left) as nat),
                forall|k: int|
                    0 <= k < out_pos ==> #[trigger] output@[k] == sample_at(before, input@, nc, k),
                forall|k: int| out_pos <= k < room ==> output@[k] == old(output)@[k],
            decreases words - w,
        {
            let channel: usize = w % num_channels;
            let base: usize = data_start + 4 * w;
            let mut byte_idx: usize = 0;
            while byte_idx < 4
                invariant
                    byte_idx <= 4,
                    w < words,
                    1 <= num_channels <= 2,
                    nc == num_channels,
                    channel == w % num_channels,
                    base == 4 * nc + 4 * w,
                    words == word_count(input.len() as int, nc),
                    input.len() >= 4 * num_channels,
                    output@.len() == room,
                    old(output)@.len() == room,
                    before.len() == 2,
                    left == if room > nc { room - nc } else { 0 },
                    base_pos == least(nc, room as int),
                    out_pos == base_pos + least(8 * w + 2 * byte_idx, left),
                    self@ == voices_after(
                        before,
                        input@,
                        nc,
                        least(8 * w + 2 * byte_idx, left) as nat,
                    ),
                    forall|k: int|
                        0 <= k < out_pos ==> #[trigger] output@[k] == sample_at(
                            before,
                            input@,
                            nc,
                            k,
                        ),
                    forall|k: int| out_pos <= k < room ==> output@[k] == old(output)@[k],
                decreases 4 - byte_idx,
            {
                let byte: u8 = input[base + byte_idx];
                let ghost j: int = 8 * w + 2 * byte_idx;
                proof {
                    lemma_code_position(input@, nc, w as int, byte_idx as int);
                    lemma_voices_stay_in_range(before, input@, nc, least(j, left) as nat);
                }
                // Low code first.
                let ghost low_voices = self@;
                let ghost low_output = output@;
                let ghost low_pos = out_pos;
                out_pos = self.play_code(channel, byte % 16, output, out_pos);
                proof {
                    if low_pos < room {
                        assert(least(j, left) == j && least(j + 1, left) == j + 1);
                        assert(self@ == voices_after(before, input@, nc, (j + 1) as nat));
                        assert(low_pos == nc + j);
                        lemma_after_code_range(low_voices[channel as int], (byte % 16) as int);
                        assert(self@[channel as int] == after_code(
                            low_voices[channel as int],
                            (byte % 16) as int,
                        ));
                        assert(output@[low_pos as int] == sample_at(before, input@, nc, nc + j));
                    } else {
                        assert(least(j + 1, left) == least(j, left));
                    }
                    lemma_voices_stay_in_range(before, input@, nc, least(j + 1, left) as nat);
                }
                // High code next.
                let ghost high_voices = self@;
                let ghost high_pos = out_pos;
                out_pos = self.play_code(channel, byte / 16, output, out_pos);
                proof {
                    if high_pos < room {
                        assert(least(j + 1, left) == j + 1 && least(j + 2, left) == j + 2);
                        assert(self@ == voices_after(before, input@, nc, (j + 2) as nat));
                        assert(high_pos == nc + j + 1);
                        lemma_after_code_range(high_voices[channel as int], (byte / 16) as int);
                        assert(self@[channel as int] == after_code(
                            high_voices[channel as int],
                            (byte / 16) as int,
                        ));
                        assert(output@[high_pos as int] == sample_at(
                            before,
                            input@,
                            nc,
                            nc + j + 1,
                        ));
                    } else {
                        assert(least(j + 2, left) == least(j + 1, left));
                    }
                }
                byte_idx += 1;
            }
            w += 1;
        }
        out_pos
    }
}

} // verus!
