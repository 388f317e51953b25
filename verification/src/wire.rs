//! The compact binary form of the configuration document.
//!
//! Fields are written in declaration order with nothing between them.
//! Unsigned integers and variant indices are little-endian base-128 varints,
//! real numbers are four little-endian bytes, `u8` and `bool` are one byte,
//! and fixed arrays are their elements in order without a length.

use vstd::prelude::*;
use crate::config::AggregationMethod;
use crate::config::AppConfig;
use crate::config::ChannelConfig;
use crate::config::FFTSize;
use crate::config::FloatBits;
use crate::config::NeopixelMatrixPattern;

verus! {

/// Why a configuration could not be written or read.
#[derive(Clone, Copy, Debug, PartialEq, Eq, Structural)]
pub enum ConfigError {
    /// The serialized form is longer than the buffer it was asked to fit.
    BufferFull,
    /// The input ended inside a field.
    UnexpectedEnd,
    /// A varint runs past the longest form of its type, or its last byte
    /// carries bits that the type has no room for.
    BadVarint,
    /// A boolean byte is neither 0 nor 1.
    BadBool,
    /// A variant index names no variant.
    BadVariant,
    /// An index does not fit the machine word.
    ValueTooLarge,
}

/// A position in the input together with the value read before it.
pub type Taken<T> = Result<(T, int), ConfigError>;

/// What an executable reader returned, with the position as a mathematical integer.
pub open spec fn lift<T>(r: Result<(T, usize), ConfigError>) -> Taken<T> {
    match r {
        Ok((v, p)) => Ok((v, p as int)),
        Err(e) => Err(e),
    }
}

/// The varint form of `v`: seven bits per byte, low bits first, with the top
/// bit set on every byte but the last.
pub open spec fn varint_bytes(v: nat) -> Seq<u8>
    decreases v,
{
    if v < 128 {
        seq![v as u8]
    } else {
        seq![(v % 128 + 128) as u8] + varint_bytes(v / 128)
    }
}

/// One more than the largest value that a varint of at most `max_bytes`
/// bytes can hold when its last permitted byte may not exceed `last_max`.
pub open spec fn varint_bound(max_bytes: nat, last_max: u8) -> nat
    decreases max_bytes,
{
    if max_bytes <= 1 {
        (last_max + 1) as nat
    } else {
        128 * varint_bound((max_bytes - 1) as nat, last_max)
    }
}

/// Reads a varint of at most `max_bytes` bytes at `pos`. Forms that are
/// longer than needed are read like the shortest one.
pub open spec fn take_varint(data: Seq<u8>, pos: int, max_bytes: nat, last_max: u8) -> Taken<nat>
    decreases max_bytes,
{
    if max_bytes == 0 {
        Err(ConfigError::BadVarint)
    } else if pos >= data.len() {
        Err(ConfigError::UnexpectedEnd)
    } else if data[pos] < 128 {
        if max_bytes == 1 && data[pos] > last_max {
            Err(ConfigError::BadVarint)
        } else {
            Ok((data[pos] as nat, pos + 1))
        }
    } else {
        match take_varint(data, pos + 1, (max_bytes - 1) as nat, last_max) {
            Ok((v, p)) => Ok((((data[pos] - 128) + 128 * v) as nat, p)),
            Err(e) => Err(e),
        }
    }
}

/// Reads a `u32`: at most five bytes, the fifth at most 15.
pub open spec fn take_u32(data: Seq<u8>, pos: int) -> Taken<u32> {
    match take_varint(data, pos, 5, 15) {
        Ok((v, p)) => Ok((v as u32, p)),
        Err(e) => Err(e),
    }
}

/// Reads a `u64`: at most ten bytes, the tenth at most 1.
pub open spec fn take_u64(data: Seq<u8>, pos: int) -> Taken<u64> {
    match take_varint(data, pos, 10, 1) {
        Ok((v, p)) => Ok((v as u64, p)),
        Err(e) => Err(e),
    }
}

/// Reads an index: a `u64` on the wire that has to fit the machine word.
pub open spec fn take_usize(data: Seq<u8>, pos: int) -> Taken<usize> {
    match take_u64(data, pos) {
        Ok((v, p)) => if v > usize::MAX {
            Err(ConfigError::ValueTooLarge)
        } else {
            Ok((v as usize, p))
        },
        Err(e) => Err(e),
    }
}

/// Reads one byte.
pub open spec fn take_byte(data: Seq<u8>, pos: int) -> Taken<u8> {
    if pos >= data.len() {
        Err(ConfigError::UnexpectedEnd)
    } else {
        Ok((data[pos], pos + 1))
    }
}

/// Reads a boolean: the byte 0 or 1.
pub open spec fn take_bool(data: Seq<u8>, pos: int) -> Taken<bool> {
    match take_byte(data, pos) {
        Ok((b, p)) => if b == 0 {
            Ok((false, p))
        } else if b == 1 {
            Ok((true, p))
        } else {
            Err(ConfigError::BadBool)
        },
        Err(e) => Err(e),
    }
}

/// The value of four bytes read as a little-endian word.
pub open spec fn word_of(b0: u8, b1: u8, b2: u8, b3: u8) -> u32 {
    (b0 as int + 256 * (b1 as int) + 65536 * (b2 as int) + 16777216 * (b3 as int)) as u32
}

/// The four bytes of a real number, low byte first.
pub open spec fn float_bytes(f: FloatBits) -> Seq<u8> {
    seq![
        (f.bits % 256) as u8,
        ((f.bits / 256) % 256) as u8,
        ((f.bits / 65536) % 256) as u8,
        (f.bits / 16777216) as u8,
    ]
}

/// Reads a real number: any four bytes.
pub open spec fn take_float(data: Seq<u8>, pos: int) -> Taken<FloatBits> {
    if pos + 4 > data.len() {
        Err(ConfigError::UnexpectedEnd)
    } else {
        Ok(
            (
                FloatBits { bits: word_of(data[pos], data[pos + 1], data[pos + 2], data[pos + 3]) },
                pos + 4,
            ),
        )
    }
}

/// Reads the index of one of three variants.
pub open spec fn take_variant(data: Seq<u8>, pos: int) -> Taken<u32> {
    match take_u32(data, pos) {
        Ok((v, p)) => if v < 3 {
            Ok((v, p))
        } else {
            Err(ConfigError::BadVariant)
        },
        Err(e) => Err(e),
    }
}

/// The largest values that five and ten varint bytes can hold are those of
/// `u32` and `u64`.
pub proof fn lemma_varint_bounds()
    ensures
        varint_bound(5, 15) == 0x1_0000_0000,
        varint_bound(10, 1) == 0x1_0000_0000_0000_0000,
{
    reveal_with_fuel(varint_bound, 11);
}

/// A varint that is read lies below the bound of its type and ends inside the input.
pub proof fn lemma_take_varint_range(data: Seq<u8>, pos: int, max_bytes: nat, last_max: u8)
    requires
        0 <= pos,
        last_max < 128,
    ensures
        take_varint(data, pos, max_bytes, last_max) matches Ok((v, p)) ==> v < varint_bound(
            max_bytes,
            last_max,
        ) && pos < p <= data.len() && p <= pos + max_bytes,
    decreases max_bytes,
{
    if max_bytes > 0 && pos < data.len() && data[pos] >= 128 {
        lemma_take_varint_range(data, pos + 1, (max_bytes - 1) as nat, last_max);
    }
    if max_bytes > 1 {
        lemma_varint_bound_grows((max_bytes - 1) as nat, last_max);
    }
}

/// The bound is positive.
pub proof fn lemma_varint_bound_grows(max_bytes: nat, last_max: u8)
    ensures
        varint_bound(max_bytes, last_max) >= last_max + 1,
    decreases max_bytes,
{
    if max_bytes > 1 {
        lemma_varint_bound_grows((max_bytes - 1) as nat, last_max);
    }
}

/// The varint form has at least one byte, and seven bits of room per byte.
pub proof fn lemma_varint_bytes_len(v: nat, max_bytes: nat, last_max: u8)
    requires
        max_bytes >= 1,
        last_max < 128,
        v < varint_bound(max_bytes, last_max),
    ensures
        1 <= varint_bytes(v).len() <= max_bytes,
    decreases v,
{
    if v >= 128 {
        lemma_varint_bytes_len(v / 128, (max_bytes - 1) as nat, last_max);
    }
}

/// Reading the varint form of `v`, wherever it stands in the input, gives `v`
/// and stops right behind it.
pub proof fn lemma_take_varint_of_bytes(
    data: Seq<u8>,
    pos: int,
    v: nat,
    max_bytes: nat,
    last_max: u8,
)
    requires
        0 <= pos,
        pos + varint_bytes(v).len() <= data.len(),
        forall|i: int| 0 <= i < varint_bytes(v).len() ==> data[pos + i] == varint_bytes(v)[i],
        max_bytes >= 1,
        last_max < 128,
        v < varint_bound(max_bytes, last_max),
    ensures
        take_varint(data, pos, max_bytes, last_max) == Ok::<(nat, int), ConfigError>(
            (v, pos + varint_bytes(v).len()),
        ),
    decreases v,
{
    assert(data[pos + 0] == varint_bytes(v)[0]);
    if v >= 128 {
        let rest = varint_bytes(v / 128);
        assert forall|i: int| 0 <= i < rest.len() implies data[pos + 1 + i] == rest[i] by {
            assert(data[pos + (i + 1)] == varint_bytes(v)[i + 1]);
        }
        lemma_take_varint_of_bytes(data, pos + 1, v / 128, (max_bytes - 1) as nat, last_max);
    }
}


/// `part` stands in `data` at `pos`.
pub open spec fn holds_at(data: Seq<u8>, pos: int, part: Seq<u8>) -> bool {
    &&& 0 <= pos
    &&& pos + part.len() <= data.len()
    &&& forall|i: int| 0 <= i < part.len() ==> data[pos + i] == part[i]
}

/// Where a concatenation stands, both of its halves stand, one behind the other.
pub proof fn lemma_holds_at_split(data: Seq<u8>, pos: int, a: Seq<u8>, b: Seq<u8>)
    requires
        holds_at(data, pos, a + b),
    ensures
        holds_at(data, pos, a),
        holds_at(data, pos + a.len(), b),
{
    assert forall|i: int| 0 <= i < a.len() implies data[pos + i] == a[i] by {
        assert((a + b)[i] == a[i]);
    }
    assert forall|i: int| 0 <= i < b.len() implies data[pos + a.len() + i] == b[i] by {
        assert((a + b)[a.len() + i] == b[i]);
        assert(data[pos + (a.len() + i)] == (a + b)[a.len() + i]);
    }
}

/// Position of an aggregation method in its declaration.
pub open spec fn aggregate_index(a: AggregationMethod) -> nat {
    match a {
        AggregationMethod::Sum => 0,
        AggregationMethod::Max => 1,
        AggregationMethod::Average => 2,
    }
}

/// The aggregation method at a position below three.
pub open spec fn aggregate_of(i: u32) -> AggregationMethod {
    if i == 0 {
        AggregationMethod::Sum
    } else if i == 1 {
        AggregationMethod::Max
    } else {
        AggregationMethod::Average
    }
}

/// Position of a transform size in its declaration.
pub open spec fn fft_index(f: FFTSize) -> nat {
    match f {
        FFTSize::Size128 => 0,
        FFTSize::Size256 => 1,
        FFTSize::Size512 => 2,
    }
}

/// The transform size at a position below three.
pub open spec fn fft_of(i: u32) -> FFTSize {
    if i == 0 {
        FFTSize::Size128
    } else if i == 1 {
        FFTSize::Size256
    } else {
        FFTSize::Size512
    }
}

/// The serialized form of one channel.
pub open spec fn channel_bytes(c: ChannelConfig) -> Seq<u8> {
    varint_bytes(c.start_index as nat) + varint_bytes(c.end_index as nat) + float_bytes(c.premult)
        + float_bytes(c.noise_gate) + seq![c.exponent] + float_bytes(c.color@[0]) + float_bytes(
        c.color@[1],
    ) + float_bytes(c.color@[2]) + varint_bytes(aggregate_index(c.aggregate))
}

/// The serialized form of a run of channels: one after the other.
pub open spec fn channels_bytes(channels: Seq<ChannelConfig>) -> Seq<u8>
    decreases channels.len(),
{
    if channels.len() == 0 {
        Seq::<u8>::empty()
    } else {
        channels_bytes(channels.drop_last()) + channel_bytes(channels.last())
    }
}

/// The serialized form of a pattern: its variant index, then its channels.
pub open spec fn pattern_bytes(p: NeopixelMatrixPattern) -> Seq<u8> {
    varint_bytes(p.kind() as nat) + channels_bytes(p.channels())
}

/// The serialized form of a configuration document.
pub open spec fn config_bytes(c: AppConfig) -> Seq<u8> {
    varint_bytes(c.config_version as nat) + varint_bytes(c.sample_count as nat) + varint_bytes(
        fft_index(c.fft_size),
    ) + seq![if c.use_hann_window { 1u8 } else { 0u8 }] + pattern_bytes(c.pattern)
}

/// Reads one channel.
pub open spec fn take_channel(data: Seq<u8>, pos: int) -> Taken<ChannelConfig> {
    match take_usize(data, pos) {
        Err(e) => Err(e),
        Ok((start_index, p1)) => match take_usize(data, p1) {
            Err(e) => Err(e),
            Ok((end_index, p2)) => match take_float(data, p2) {
                Err(e) => Err(e),
                Ok((premult, p3)) => match take_float(data, p3) {
                    Err(e) => Err(e),
                    Ok((noise_gate, p4)) => match take_byte(data, p4) {
                        Err(e) => Err(e),
                        Ok((exponent, p5)) => match take_float(data, p5) {
                            Err(e) => Err(e),
                            Ok((red, p6)) => match take_float(data, p6) {
                                Err(e) => Err(e),
                                Ok((green, p7)) => match take_float(data, p7) {
                                    Err(e) => Err(e),
                                    Ok((blue, p8)) => match take_variant(data, p8) {
                                        Err(e) => Err(e),
                                        Ok((aggregate, p9)) => Ok(
                                            (
                                                ChannelConfig {
                                                    start_index,
                                                    end_index,
                                                    premult,
                                                    noise_gate,
                                                    exponent,
                                                    color: [red, green, blue],
                                                    aggregate: aggregate_of(aggregate),
                                                },
                                                p9,
                                            ),
                                        ),
                                    },
                                },
                            },
                        },
                    },
                },
            },
        },
    }
}

/// Reads `count` channels, one after the other.
pub open spec fn take_channels(data: Seq<u8>, pos: int, count: nat) -> Taken<Seq<ChannelConfig>>
    decreases count,
{
    if count == 0 {
        Ok((Seq::<ChannelConfig>::empty(), pos))
    } else {
        match take_channels(data, pos, (count - 1) as nat) {
            Err(e) => Err(e),
            Ok((front, p)) => match take_channel(data, p) {
                Err(e) => Err(e),
                Ok((last, q)) => Ok((front.push(last), q)),
            },
        }
    }
}

/// Number of channels of the pattern with the given variant index.
pub open spec fn channel_count_of(kind: u32) -> nat {
    if kind == 1 {
        8
    } else {
        4
    }
}

/// The pattern with the given variant index and channels.
pub open spec fn pattern_of(kind: u32, s: Seq<ChannelConfig>) -> NeopixelMatrixPattern {
    if kind == 0 {
        NeopixelMatrixPattern::Stripes([s[0], s[1], s[2], s[3]])
    } else if kind == 1 {
        NeopixelMatrixPattern::Bars([s[0], s[1], s[2], s[3], s[4], s[5], s[6], s[7]])
    } else {
        NeopixelMatrixPattern::Quarters([s[0], s[1], s[2], s[3]])
    }
}

/// Reads a pattern.
pub open spec fn take_pattern(data: Seq<u8>, pos: int) -> Taken<NeopixelMatrixPattern> {
    match take_variant(data, pos) {
        Err(e) => Err(e),
        Ok((kind, p)) => match take_channels(data, p, channel_count_of(kind)) {
            Err(e) => Err(e),
            Ok((channels, q)) => Ok((pattern_of(kind, channels), q)),
        },
    }
}

/// Reads a configuration document.
pub open spec fn take_config(data: Seq<u8>, pos: int) -> Taken<AppConfig> {
    match take_u32(data, pos) {
        Err(e) => Err(e),
        Ok((config_version, p1)) => match take_usize(data, p1) {
            Err(e) => Err(e),
            Ok((sample_count, p2)) => match take_variant(data, p2) {
                Err(e) => Err(e),
                Ok((fft, p3)) => match take_bool(data, p3) {
                    Err(e) => Err(e),
                    Ok((use_hann_window, p4)) => match take_pattern(data, p4) {
                        Err(e) => Err(e),
                        Ok((pattern, p5)) => Ok(
                            (
                                AppConfig {
                                    config_version,
                                    sample_count,
                                    fft_size: fft_of(fft),
                                    use_hann_window,
                                    pattern,
                                },
                                p5,
                            ),
                        ),
                    },
                },
            },
        },
    }
}

/// The document that `data` starts with. Bytes behind it are not looked at.
pub open spec fn parse_config(data: Seq<u8>) -> Result<AppConfig, ConfigError> {
    match take_config(data, 0) {
        Ok((c, _)) => Ok(c),
        Err(e) => Err(e),
    }
}


/// What the varint reader returned, with value and position as mathematical integers.
pub open spec fn lift_value(r: Result<(u64, usize), ConfigError>) -> Taken<nat> {
    match r {
        Ok((v, p)) => Ok((v as nat, p as int)),
        Err(e) => Err(e),
    }
}

fn read_varint(data: &[u8], pos: usize, max_bytes: usize, last_max: u8) -> (r: Result<
    (u64, usize),
    ConfigError,
>)
    requires
        pos <= data.len(),
        last_max < 128,
        varint_bound(max_bytes as nat, last_max) <= 0x1_0000_0000_0000_0000,
    ensures
        lift_value(r) == take_varint(data@, pos as int, max_bytes as nat, last_max),
        r matches Ok((_, p)) ==> pos < p <= data.len(),
    decreases max_bytes,
{
    if max_bytes == 0 {
        return Err(ConfigError::BadVarint);
    }
    if pos >= data.len() {
        return Err(ConfigError::UnexpectedEnd);
    }
    let byte: u8 = data[pos];
    if byte < 128 {
        if max_bytes == 1 && byte > last_max {
            return Err(ConfigError::BadVarint);
        }
        return Ok((byte as u64, pos + 1));
    }
    proof {
        lemma_take_varint_range(data@, pos + 1, (max_bytes - 1) as nat, last_max);
        lemma_varint_bound_grows((max_bytes - 1) as nat, last_max);
    }
    match read_varint(data, pos + 1, max_bytes - 1, last_max) {
        Ok((v, p)) => Ok(((byte - 128) as u64 + 128 * v, p)),
        Err(e) => Err(e),
    }
}

fn read_u32(data: &[u8], pos: usize) -> (r: Result<(u32, usize), ConfigError>)
    requires
        pos <= data.len(),
    ensures
        lift(r) == take_u32(data@, pos as int),
        r matches Ok((_, p)) ==> pos < p <= data.len(),
{
    proof {
        lemma_varint_bounds();
        reveal_with_fuel(varint_bound, 6);
        lemma_take_varint_range(data@, pos as int, 5, 15);
    }
    match read_varint(data, pos, 5, 15) {
        Ok((v, p)) => Ok((v as u32, p)),
        Err(e) => Err(e),
    }
}

fn read_usize(data: &[u8], pos: usize) -> (r: Result<(usize, usize), ConfigError>)
    requires
        pos <= data.len(),
    ensures
        lift(r) == take_usize(data@, pos as int),
        r matches Ok((_, p)) ==> pos < p <= data.len(),
{
    proof {
        lemma_varint_bounds();
        lemma_take_varint_range(data@, pos as int, 10, 1);
    }
    match read_varint(data, pos, 10, 1) {
        Ok((v, p)) => {
            if v > usize::MAX as u64 {
                Err(ConfigError::ValueTooLarge)
            } else {
                Ok((v as usize, p))
            }
        },
        Err(e) => Err(e),
    }
}

fn read_byte(data: &[u8], pos: usize) -> (r: Result<(u8, usize), ConfigError>)
    requires
        pos <= data.len(),
    ensures
        lift(r) == take_byte(data@, pos as int),
        r matches Ok((_, p)) ==> pos < p <= data.len(),
{
    if pos >= data.len() {
        Err(ConfigError::UnexpectedEnd)
    } else {
        Ok((data[pos], pos + 1))
    }
}

fn read_bool(data: &[u8], pos: usize) -> (r: Result<(bool, usize), ConfigError>)
    requires
        pos <= data.len(),
    ensures
        lift(r) == take_bool(data@, pos as int),
        r matches Ok((_, p)) ==> pos < p <= data.len(),
{
    let (b, p) = read_byte(data, pos)?;
    if b == 0 {
        Ok((false, p))
    } else if b == 1 {
        Ok((true, p))
    } else {
        Err(ConfigError::BadBool)
    }
}

fn read_float(data: &[u8], pos: usize) -> (r: Result<(FloatBits, usize), ConfigError>)
    requires
        pos <= data.len(),
    ensures
        lift(r) == take_float(data@, pos as int),
        r matches Ok((_, p)) ==> pos < p <= data.len(),
{
    if data.len() - pos < 4 {
        return Err(ConfigError::UnexpectedEnd);
    }
    let b0: u32 = data[pos] as u32;
    let b1: u32 = data[pos + 1] as u32;
    let b2: u32 = data[pos + 2] as u32;
    let b3: u32 = data[pos + 3] as u32;
    let bits: u32 = b0 + 256 * b1 + 65536 * b2 + 16777216 * b3;
    Ok((FloatBits { bits }, pos + 4))
}

fn read_variant(data: &[u8], pos: usize) -> (r: Result<(u32, usize), ConfigError>)
    requires
        pos <= data.len(),
    ensures
        lift(r) == take_variant(data@, pos as int),
        r matches Ok((v, p)) ==> pos < p <= data.len() && v < 3,
{
    let (v, p) = read_u32(data, pos)?;
    if v < 3 {
        Ok((v, p))
    } else {
        Err(ConfigError::BadVariant)
    }
}

fn aggregate_from(i: u32) -> (a: AggregationMethod)
    ensures
        a == aggregate_of(i),
{
    if i == 0 {
        AggregationMethod::Sum
    } else if i == 1 {
        AggregationMethod::Max
    } else {
        AggregationMethod::Average
    }
}

fn fft_from(i: u32) -> (f: FFTSize)
    ensures
        f == fft_of(i),
{
    if i == 0 {
        FFTSize::Size128
    } else if i == 1 {
        FFTSize::Size256
    } else {
        FFTSize::Size512
    }
}

#[verifier::rlimit(40)]
fn read_channel(data: &[u8], pos: usize) -> (r: Result<(ChannelConfig, usize), ConfigError>)
    requires
        pos <= data.len(),
    ensures
        lift(r) == take_channel(data@, pos as int),
        r matches Ok((_, p)) ==> pos < p <= data.len(),
{
    let (start_index, p1) = read_usize(data, pos)?;
    let (end_index, p2) = read_usize(data, p1)?;
    let (premult, p3) = read_float(data, p2)?;
    let (noise_gate, p4) = read_float(data, p3)?;
    let (exponent, p5) = read_byte(data, p4)?;
    let (red, p6) = read_float(data, p5)?;
    let (green, p7) = read_float(data, p6)?;
    let (blue, p8) = read_float(data, p7)?;
    let (aggregate, p9) = read_variant(data, p8)?;
    let c = ChannelConfig {
        start_index,
        end_index,
        premult,
        noise_gate,
        exponent,
        color: [red, green, blue],
        aggregate: aggregate_from(aggregate),
    };
    proof {
        let t = take_channel(data@, pos as int);
        assert(t is Ok);
        assert(t->Ok_0.0.color =~= c.color);
    }
    Ok((c, p9))
}

#[verifier::rlimit(40)]
fn read_four(data: &[u8], pos: usize) -> (r: Result<([ChannelConfig; 4], usize), ConfigError>)
    requires
        pos <= data.len(),
    ensures
        match r {
            Ok((channels, p)) => take_channels(data@, pos as int, 4) == Ok::<
                (Seq<ChannelConfig>, int),
                ConfigError,
            >((channels@, p as int)) && pos <= p <= data.len(),
            Err(e) => take_channels(data@, pos as int, 4) == Err::<
                (Seq<ChannelConfig>, int),
                ConfigError,
            >(e),
        },
{
    let mut channels: [ChannelConfig; 4] = [ChannelConfig::new_filler(); 4];
    let mut p: usize = pos;
    let mut i: usize = 0;
    while i < 4
        invariant
            i <= 4,
            pos <= p <= data.len(),
            take_channels(data@, pos as int, i as nat) matches Ok((front, q)) && front
                =~= channels@.take(i as int) && q == p,
        decreases 4 - i,
    {
        proof {
            reveal_with_fuel(take_channels, 2);
        }
        match read_channel(data, p) {
            Ok((c, q)) => {
                let ghost front = channels@.take(i as int);
                channels[i] = c;
                assert(channels@.take(i + 1) =~= front.push(c));
                p = q;
            },
            Err(e) => {
                proof {
                    lemma_take_channels_fails(data@, pos as int, (i + 1) as nat, 4, e);
                }
                return Err(e);
            },
        }
        i += 1;
    }
    assert(channels@.take(4) =~= channels@);
    Ok((channels, p))
}

#[verifier::rlimit(40)]
fn read_eight(data: &[u8], pos: usize) -> (r: Result<([ChannelConfig; 8], usize), ConfigError>)
    requires
        pos <= data.len(),
    ensures
        match r {
            Ok((channels, p)) => take_channels(data@, pos as int, 8) == Ok::<
                (Seq<ChannelConfig>, int),
                ConfigError,
            >((channels@, p as int)) && pos <= p <= data.len(),
            Err(e) => take_channels(data@, pos as int, 8) == Err::<
                (Seq<ChannelConfig>, int),
                ConfigError,
            >(e),
        },
{
    let mut channels: [ChannelConfig; 8] = [ChannelConfig::new_filler(); 8];
    let mut p: usize = pos;
    let mut i: usize = 0;
    while i < 8
        invariant
            i <= 8,
            pos <= p <= data.len(),
            take_channels(data@, pos as int, i as nat) matches Ok((front, q)) && front
                =~= channels@.take(i as int) && q == p,
        decreases 8 - i,
    {
        proof {
            reveal_with_fuel(take_channels, 2);
        }
        match read_channel(data, p) {
            Ok((c, q)) => {
                let ghost front = channels@.take(i as int);
                channels[i] = c;
                assert(channels@.take(i + 1) =~= front.push(c));
                p = q;
            },
            Err(e) => {
                proof {
                    lemma_take_channels_fails(data@, pos as int, (i + 1) as nat, 8, e);
                }
                return Err(e);
            },
        }
        i += 1;
    }
    assert(channels@.take(8) =~= channels@);
    Ok((channels, p))
}

/// Once a channel cannot be read, reading more channels fails in the same way.
pub proof fn lemma_take_channels_fails(
    data: Seq<u8>,
    pos: int,
    count: nat,
    more: nat,
    e: ConfigError,
)
    requires
        count <= more,
        take_channels(data, pos, count) == Err::<(Seq<ChannelConfig>, int), ConfigError>(e),
    ensures
        take_channels(data, pos, more) == Err::<(Seq<ChannelConfig>, int), ConfigError>(e),
    decreases more,
{
    if count < more {
        lemma_take_channels_fails(data, pos, count, (more - 1) as nat, e);
    }
}

fn read_pattern(data: &[u8], pos: usize) -> (r: Result<
    (NeopixelMatrixPattern, usize),
    ConfigError,
>)
    requires
        pos <= data.len(),
    ensures
        lift(r) == take_pattern(data@, pos as int),
        r matches Ok((_, p)) ==> pos < p <= data.len(),
{
    let (kind, p) = read_variant(data, pos)?;
    if kind == 1 {
        let (channels, q) = read_eight(data, p)?;
        let pattern = NeopixelMatrixPattern::Bars(channels);
        proof {
            let s = channels@;
            let other: [ChannelConfig; 8] = [s[0], s[1], s[2], s[3], s[4], s[5], s[6], s[7]];
            assert(other =~= channels);
        }
        Ok((pattern, q))
    } else {
        let (channels, q) = read_four(data, p)?;
        proof {
            let s = channels@;
            let other: [ChannelConfig; 4] = [s[0], s[1], s[2], s[3]];
            assert(other =~= channels);
        }
        if kind == 0 {
            Ok((NeopixelMatrixPattern::Stripes(channels), q))
        } else {
            Ok((NeopixelMatrixPattern::Quarters(channels), q))
        }
    }
}

fn read_config(data: &[u8], pos: usize) -> (r: Result<(AppConfig, usize), ConfigError>)
    requires
        pos <= data.len(),
    ensures
        lift(r) == take_config(data@, pos as int),
{
    let (config_version, p1) = read_u32(data, pos)?;
    let (sample_count, p2) = read_usize(data, p1)?;
    let (fft, p3) = read_variant(data, p2)?;
    let (use_hann_window, p4) = read_bool(data, p3)?;
    let (pattern, p5) = read_pattern(data, p4)?;
    Ok(
        (
            AppConfig {
                config_version,
                sample_count,
                fft_size: fft_from(fft),
                use_hann_window,
                pattern,
            },
            p5,
        ),
    )
}


fn write_varint(out: &mut Vec<u8>, v: u64)
    ensures
        final(out)@ == old(out)@ + varint_bytes(v as nat),
{
    let mut value: u64 = v;
    while value >= 128
        invariant
            out@ + varint_bytes(value as nat) == old(out)@ + varint_bytes(v as nat),
        decreases value,
    {
        let ghost before = out@;
        out.push((value % 128) as u8 + 128);
        assert(out@ + varint_bytes((value / 128) as nat) =~= before + varint_bytes(value as nat));
        value = value / 128;
    }
    let ghost before = out@;
    out.push(value as u8);
    assert(out@ =~= before + varint_bytes(value as nat));
}

fn write_float(out: &mut Vec<u8>, f: FloatBits)
    ensures
        final(out)@ == old(out)@ + float_bytes(f),
{
    let bits: u32 = f.bits;
    out.push((bits % 256) as u8);
    out.push(((bits / 256) % 256) as u8);
    out.push(((bits / 65536) % 256) as u8);
    out.push((bits / 16777216) as u8);
    assert(out@ =~= old(out)@ + float_bytes(f));
}

fn aggregate_position(a: AggregationMethod) -> (i: u64)
    ensures
        i == aggregate_index(a),
{
    match a {
        AggregationMethod::Sum => 0,
        AggregationMethod::Max => 1,
        AggregationMethod::Average => 2,
    }
}

fn write_channel(out: &mut Vec<u8>, c: &ChannelConfig)
    ensures
        final(out)@ == old(out)@ + channel_bytes(*c),
{
    write_varint(out, c.start_index as u64);
    write_varint(out, c.end_index as u64);
    write_float(out, c.premult);
    write_float(out, c.noise_gate);
    out.push(c.exponent);
    write_float(out, c.color[0]);
    write_float(out, c.color[1]);
    write_float(out, c.color[2]);
    write_varint(out, aggregate_position(c.aggregate));
    assert(out@ =~= old(out)@ + channel_bytes(*c));
}

fn write_pattern(out: &mut Vec<u8>, pattern: &NeopixelMatrixPattern)
    ensures
        final(out)@ == old(out)@ + pattern_bytes(*pattern),
{
    let kind: u64 = match pattern {
        NeopixelMatrixPattern::Stripes(_) => 0,
        NeopixelMatrixPattern::Bars(_) => 1,
        NeopixelMatrixPattern::Quarters(_) => 2,
    };
    write_varint(out, kind);
    let ghost base = out@;
    let n = pattern.channel_count();
    let mut i: usize = 0;
    assert(channels_bytes(pattern.channels().take(0)) =~= Seq::<u8>::empty());
    while i < n
        invariant
            i <= n,
            n == pattern.channels().len(),
            base == old(out)@ + varint_bytes(pattern.kind() as nat),
            out@ == base + channels_bytes(pattern.channels().take(i as int)),
        decreases n - i,
    {
        let c = pattern.channel(i);
        let ghost before = out@;
        write_channel(out, &c);
        proof {
            let next = pattern.channels().take(i + 1);
            assert(next.drop_last() =~= pattern.channels().take(i as int));
            assert(next.last() == c);
            assert(out@ =~= base + channels_bytes(next));
        }
        i += 1;
    }
    assert(pattern.channels().take(n as int) =~= pattern.channels());
    assert(out@ =~= old(out)@ + pattern_bytes(*pattern));
}

impl AppConfig {
    /// Serializes the document into at most `B` bytes.
    ///
    /// Fails with `BufferFull`, and only so, when the serialized form is
    /// longer than `B`.
    pub fn to_bytes<const B: usize>(&self) -> (r: Result<Vec<u8>, ConfigError>)
        ensures
            match r {
                Ok(bytes) => bytes@ == config_bytes(*self) && bytes@.len() <= B,
                Err(e) => e == ConfigError::BufferFull && config_bytes(*self).len() > B,
            },
    {
        let mut out: Vec<u8> = Vec::new();
        write_varint(&mut out, self.config_version as u64);
        write_varint(&mut out, self.sample_count as u64);
        let fft: u64 = match self.fft_size {
            FFTSize::Size128 => 0,
            FFTSize::Size256 => 1,
            FFTSize::Size512 => 2,
        };
        write_varint(&mut out, fft);
        out.push(if self.use_hann_window { 1 } else { 0 });
        write_pattern(&mut out, &self.pattern);
        assert(out@ =~= config_bytes(*self));
        if out.len() > B {
            Err(ConfigError::BufferFull)
        } else {
            Ok(out)
        }
    }

    /// Reads the document that `data` starts with; bytes behind it are ignored.
    pub fn from_bytes(data: &[u8]) -> (r: Result<Self, ConfigError>)
        ensures
            r == parse_config(data@),
    {
        match read_config(data, 0) {
            Ok((c, _)) => Ok(c),
            Err(e) => Err(e),
        }
    }
}

/// The four bytes of a real number read back as a word give its bit pattern.
pub proof fn lemma_take_float_of_bytes(data: Seq<u8>, pos: int, f: FloatBits)
    requires
        holds_at(data, pos, float_bytes(f)),
    ensures
        take_float(data, pos) == Ok::<(FloatBits, int), ConfigError>((f, pos + 4)),
{
    let s = float_bytes(f);
    assert(data[pos + 0] == s[0]);
    assert(data[pos + 1] == s[1]);
    assert(data[pos + 2] == s[2]);
    assert(data[pos + 3] == s[3]);
}

/// Reading an index back gives the index.
pub proof fn lemma_take_usize_of_bytes(data: Seq<u8>, pos: int, v: usize)
    requires
        holds_at(data, pos, varint_bytes(v as nat)),
    ensures
        take_usize(data, pos) == Ok::<(usize, int), ConfigError>(
            (v, pos + varint_bytes(v as nat).len()),
        ),
{
    lemma_varint_bounds();
    lemma_take_varint_of_bytes(data, pos, v as nat, 10, 1);
}

/// Reading a variant index below three back gives the index.
pub proof fn lemma_take_variant_of_bytes(data: Seq<u8>, pos: int, v: u32)
    requires
        v < 3,
        holds_at(data, pos, varint_bytes(v as nat)),
    ensures
        take_variant(data, pos) == Ok::<(u32, int), ConfigError>((v, pos + 1)),
{
    lemma_varint_bounds();
    lemma_take_varint_of_bytes(data, pos, v as nat, 5, 15);
}

/// Reading a serialized channel back gives the channel.
#[verifier::rlimit(40)]
pub proof fn lemma_take_channel_of_bytes(data: Seq<u8>, pos: int, c: ChannelConfig)
    requires
        holds_at(data, pos, channel_bytes(c)),
    ensures
        take_channel(data, pos) == Ok::<(ChannelConfig, int), ConfigError>(
            (c, pos + channel_bytes(c).len()),
        ),
{
    let a1 = varint_bytes(c.start_index as nat);
    let a2 = varint_bytes(c.end_index as nat);
    let a3 = float_bytes(c.premult);
    let a4 = float_bytes(c.noise_gate);
    let a5 = seq![c.exponent];
    let a6 = float_bytes(c.color@[0]);
    let a7 = float_bytes(c.color@[1]);
    let a8 = float_bytes(c.color@[2]);
    let a9 = varint_bytes(aggregate_index(c.aggregate));
    lemma_holds_at_split(data, pos, a1 + a2 + a3 + a4 + a5 + a6 + a7 + a8, a9);
    lemma_holds_at_split(data, pos, a1 + a2 + a3 + a4 + a5 + a6 + a7, a8);
    lemma_holds_at_split(data, pos, a1 + a2 + a3 + a4 + a5 + a6, a7);
    lemma_holds_at_split(data, pos, a1 + a2 + a3 + a4 + a5, a6);
    lemma_holds_at_split(data, pos, a1 + a2 + a3 + a4, a5);
    lemma_holds_at_split(data, pos, a1 + a2 + a3, a4);
    lemma_holds_at_split(data, pos, a1 + a2, a3);
    lemma_holds_at_split(data, pos, a1, a2);
    let p1 = pos + a1.len();
    let p2 = p1 + a2.len();
    let p3 = p2 + 4;
    let p4 = p3 + 4;
    let p5 = p4 + 1;
    let p6 = p5 + 4;
    let p7 = p6 + 4;
    let p8 = p7 + 4;
    lemma_take_usize_of_bytes(data, pos, c.start_index);
    lemma_take_usize_of_bytes(data, p1, c.end_index);
    lemma_take_float_of_bytes(data, p2, c.premult);
    lemma_take_float_of_bytes(data, p3, c.noise_gate);
    assert(data[p4 + 0] == a5[0]);
    lemma_take_float_of_bytes(data, p5, c.color@[0]);
    lemma_take_float_of_bytes(data, p6, c.color@[1]);
    lemma_take_float_of_bytes(data, p7, c.color@[2]);
    lemma_take_variant_of_bytes(data, p8, aggregate_index(c.aggregate) as u32);
    let color: [FloatBits; 3] = [c.color@[0], c.color@[1], c.color@[2]];
    assert(color =~= c.color);
}

/// Reading a serialized run of channels back gives the run.
pub proof fn lemma_take_channels_of_bytes(data: Seq<u8>, pos: int, channels: Seq<ChannelConfig>)
    requires
        holds_at(data, pos, channels_bytes(channels)),
    ensures
        take_channels(data, pos, channels.len()) == Ok::<(Seq<ChannelConfig>, int), ConfigError>(
            (channels, pos + channels_bytes(channels).len()),
        ),
    decreases channels.len(),
{
    if channels.len() == 0 {
        assert(channels =~= Seq::<ChannelConfig>::empty());
    } else {
        let front = channels.drop_last();
        lemma_holds_at_split(data, pos, channels_bytes(front), channel_bytes(channels.last()));
        lemma_take_channels_of_bytes(data, pos, front);
        lemma_take_channel_of_bytes(
            data,
            pos + channels_bytes(front).len(),
            channels.last(),
        );
        assert(front.push(channels.last()) =~= channels);
    }
}

/// Reading a serialized pattern back gives the pattern.
pub proof fn lemma_take_pattern_of_bytes(data: Seq<u8>, pos: int, p: NeopixelMatrixPattern)
    requires
        holds_at(data, pos, pattern_bytes(p)),
    ensures
        take_pattern(data, pos) == Ok::<(NeopixelMatrixPattern, int), ConfigError>(
            (p, pos + pattern_bytes(p).len()),
        ),
{
    let kind = p.kind() as u32;
    lemma_holds_at_split(data, pos, varint_bytes(p.kind() as nat), channels_bytes(p.channels()));
    lemma_take_variant_of_bytes(data, pos, kind);
    lemma_take_channels_of_bytes(data, pos + 1, p.channels());
    let s = p.channels();
    match p {
        NeopixelMatrixPattern::Stripes(c) => {
            let other: [ChannelConfig; 4] = [s[0], s[1], s[2], s[3]];
            assert(other =~= c);
        },
        NeopixelMatrixPattern::Bars(c) => {
            let other: [ChannelConfig; 8] = [s[0], s[1], s[2], s[3], s[4], s[5], s[6], s[7]];
            assert(other =~= c);
        },
        NeopixelMatrixPattern::Quarters(c) => {
            let other: [ChannelConfig; 4] = [s[0], s[1], s[2], s[3]];
            assert(other =~= c);
        },
    }
}

/// Reading a serialized document back gives the document, whatever follows it.
#[verifier::rlimit(40)]
pub proof fn lemma_config_round_trip(c: AppConfig, tail: Seq<u8>)
    ensures
        parse_config(config_bytes(c) + tail) == Ok::<AppConfig, ConfigError>(c),
        take_config(config_bytes(c) + tail, 0) == Ok::<(AppConfig, int), ConfigError>(
            (c, config_bytes(c).len() as int),
        ),
{
    let data = config_bytes(c) + tail;
    let a1 = varint_bytes(c.config_version as nat);
    let a2 = varint_bytes(c.sample_count as nat);
    let a3 = varint_bytes(fft_index(c.fft_size));
    let a4 = seq![if c.use_hann_window { 1u8 } else { 0u8 }];
    let a5 = pattern_bytes(c.pattern);
    assert(holds_at(data, 0, config_bytes(c)));
    lemma_holds_at_split(data, 0, a1 + a2 + a3 + a4, a5);
    lemma_holds_at_split(data, 0, a1 + a2 + a3, a4);
    lemma_holds_at_split(data, 0, a1 + a2, a3);
    lemma_holds_at_split(data, 0, a1, a2);
    lemma_varint_bounds();
    lemma_take_varint_of_bytes(data, 0, c.config_version as nat, 5, 15);
    let p1 = a1.len() as int;
    lemma_take_usize_of_bytes(data, p1, c.sample_count);
    let p2 = p1 + a2.len();
    lemma_take_variant_of_bytes(data, p2, fft_index(c.fft_size) as u32);
    let p3 = p2 + 1;
    assert(data[p3 + 0] == a4[0]);
    lemma_take_pattern_of_bytes(data, p3 + 1, c.pattern);
}

} // verus!
