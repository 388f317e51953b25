//! The built-in configurations.
//!
//! Every preset analyses 256 samples with a 512-point transform behind a
//! Hann window and sums the bins of each band.

use vstd::prelude::*;
use crate::config::AggregationMethod;
use crate::config::AppConfig;
use crate::config::ChannelConfig;
use crate::config::FFTSize;
use crate::config::FloatBits;
use crate::config::NeopixelMatrixPattern;
use crate::config::CONFIG_MAX_BYTES;
use crate::config::CONFIG_VERSION;
use crate::config::ONE_BITS;
use crate::wire::channel_bytes;
use crate::wire::channels_bytes;
use crate::wire::config_bytes;
use crate::wire::varint_bytes;

verus! {

/// Bit pattern of 0.01.
pub const HUNDREDTH_BITS: u32 = 0x3C23_D70A;

/// Bit pattern of 0.498.
pub const HALF_TINT_BITS: u32 = 0x3EFE_F9DB;

/// Bit pattern of 2.0.
pub const TWO_BITS: u32 = 0x4000_0000;

/// Bit pattern of 3.0.
pub const THREE_BITS: u32 = 0x4040_0000;

/// Bit pattern of 5.0.
pub const FIVE_BITS: u32 = 0x40A0_0000;

/// Bit pattern of 10.0.
pub const TEN_BITS: u32 = 0x4120_0000;

/// A summed band from bin `start` to bin `end` with the given gain, gate,
/// exponent and tint, all real numbers as bit patterns.
pub open spec fn band(
    start: usize,
    end: usize,
    premult: u32,
    noise_gate: u32,
    exponent: u8,
    red: u32,
    green: u32,
    blue: u32,
) -> ChannelConfig {
    ChannelConfig {
        start_index: start,
        end_index: end,
        premult: FloatBits { bits: premult },
        noise_gate: FloatBits { bits: noise_gate },
        exponent,
        color: [FloatBits { bits: red }, FloatBits { bits: green }, FloatBits { bits: blue }],
        aggregate: AggregationMethod::Sum,
    }
}

/// A band of the gated presets: gain 3, gate 0.01, exponent 6.
pub open spec fn gated(start: usize, end: usize, red: u32, green: u32, blue: u32) -> ChannelConfig {
    band(start, end, THREE_BITS, HUNDREDTH_BITS, 6, red, green, blue)
}

/// A band of the ungated bar preset: no gate, linear magnitude.
pub open spec fn linear(
    start: usize,
    end: usize,
    premult: u32,
    red: u32,
    green: u32,
    blue: u32,
) -> ChannelConfig {
    band(start, end, premult, 0, 1, red, green, blue)
}

/// A document with the settings that all presets share.
pub open spec fn preset(pattern: NeopixelMatrixPattern) -> AppConfig {
    AppConfig {
        config_version: CONFIG_VERSION,
        sample_count: 256,
        fft_size: FFTSize::Size512,
        use_hann_window: true,
        pattern,
    }
}

/// The four bands of the quadrant presets tinted red, green, blue and white.
pub open spec fn four_bands(first_end: usize, second_start: usize) -> [ChannelConfig; 4] {
    [
        gated(1, first_end, ONE_BITS, 0, 0),
        gated(second_start, 10, 0, ONE_BITS, 0),
        gated(11, 15, 0, 0, ONE_BITS),
        gated(16, 25, ONE_BITS, ONE_BITS, ONE_BITS),
    ]
}

/// The stripes preset: bands 1, 2-10, 11-15 and 16-25.
pub open spec fn stripes_preset() -> AppConfig {
    preset(NeopixelMatrixPattern::Stripes(four_bands(1, 2)))
}

/// The quarters preset: bands 1-4, 5-10, 11-15 and 16-25.
pub open spec fn quarters_preset() -> AppConfig {
    preset(NeopixelMatrixPattern::Quarters(four_bands(4, 5)))
}

/// The gated bar preset: eight bands in the colours of the rainbow.
pub open spec fn bars_preset() -> AppConfig {
    preset(
        NeopixelMatrixPattern::Bars(
            [
                gated(1, 2, ONE_BITS, 0, 0),
                gated(3, 4, ONE_BITS, HALF_TINT_BITS, 0),
                gated(5, 7, ONE_BITS, ONE_BITS, 0),
                gated(8, 10, 0, ONE_BITS, 0),
                gated(11, 14, 0, ONE_BITS, ONE_BITS),
                gated(15, 18, 0, 0, ONE_BITS),
                gated(19, 22, HALF_TINT_BITS, 0, ONE_BITS),
                gated(23, 25, ONE_BITS, 0, ONE_BITS),
            ],
        ),
    )
}

/// The ungated bar preset, with gains that grow with frequency.
pub open spec fn bars2_preset() -> AppConfig {
    preset(
        NeopixelMatrixPattern::Bars(
            [
                linear(1, 1, TWO_BITS, ONE_BITS, 0, 0),
                linear(2, 3, THREE_BITS, ONE_BITS, HALF_TINT_BITS, 0),
                linear(4, 5, THREE_BITS, ONE_BITS, ONE_BITS, 0),
                linear(6, 10, FIVE_BITS, 0, ONE_BITS, 0),
                linear(11, 14, TEN_BITS, 0, ONE_BITS, ONE_BITS),
                linear(15, 18, TEN_BITS, 0, 0, ONE_BITS),
                linear(19, 22, TEN_BITS, HALF_TINT_BITS, 0, ONE_BITS),
                linear(23, 100, TEN_BITS, ONE_BITS, 0, ONE_BITS),
            ],
        ),
    )
}

fn make_band(
    start: usize,
    end: usize,
    premult: u32,
    noise_gate: u32,
    exponent: u8,
    red: u32,
    green: u32,
    blue: u32,
) -> (c: ChannelConfig)
    ensures
        c == band(start, end, premult, noise_gate, exponent, red, green, blue),
{
    let c = ChannelConfig {
        start_index: start,
        end_index: end,
        premult: FloatBits { bits: premult },
        noise_gate: FloatBits { bits: noise_gate },
        exponent,
        color: [FloatBits { bits: red }, FloatBits { bits: green }, FloatBits { bits: blue }],
        aggregate: AggregationMethod::Sum,
    };
    assert(c.color =~= band(start, end, premult, noise_gate, exponent, red, green, blue).color);
    c
}

fn make_gated(start: usize, end: usize, red: u32, green: u32, blue: u32) -> (c: ChannelConfig)
    ensures
        c == gated(start, end, red, green, blue),
{
    make_band(start, end, THREE_BITS, HUNDREDTH_BITS, 6, red, green, blue)
}

fn make_linear(start: usize, end: usize, premult: u32, red: u32, green: u32, blue: u32) -> (c:
    ChannelConfig)
    ensures
        c == linear(start, end, premult, red, green, blue),
{
    make_band(start, end, premult, 0, 1, red, green, blue)
}

fn make_four(first_end: usize, second_start: usize) -> (bands: [ChannelConfig; 4])
    ensures
        bands == four_bands(first_end, second_start),
{
    let bands = [
        make_gated(1, first_end, ONE_BITS, 0, 0),
        make_gated(second_start, 10, 0, ONE_BITS, 0),
        make_gated(11, 15, 0, 0, ONE_BITS),
        make_gated(16, 25, ONE_BITS, ONE_BITS, ONE_BITS),
    ];
    assert(bands =~= four_bands(first_end, second_start));
    bands
}

fn make_preset(pattern: NeopixelMatrixPattern) -> (c: AppConfig)
    ensures
        c == preset(pattern),
{
    AppConfig {
        config_version: CONFIG_VERSION,
        sample_count: 256,
        fft_size: FFTSize::Size512,
        use_hann_window: true,
        pattern,
    }
}

impl AppConfig {
    /// The stripes preset.
    pub fn stripes() -> (c: Self)
        ensures
            c == stripes_preset(),
            c.valid(),
    {
        make_preset(NeopixelMatrixPattern::Stripes(make_four(1, 2)))
    }

    /// The gated bar preset.
    pub fn bars() -> (c: Self)
        ensures
            c == bars_preset(),
            c.valid(),
    {
        let bands = [
            make_gated(1, 2, ONE_BITS, 0, 0),
            make_gated(3, 4, ONE_BITS, HALF_TINT_BITS, 0),
            make_gated(5, 7, ONE_BITS, ONE_BITS, 0),
            make_gated(8, 10, 0, ONE_BITS, 0),
            make_gated(11, 14, 0, ONE_BITS, ONE_BITS),
            make_gated(15, 18, 0, 0, ONE_BITS),
            make_gated(19, 22, HALF_TINT_BITS, 0, ONE_BITS),
            make_gated(23, 25, ONE_BITS, 0, ONE_BITS),
        ];
        assert(bands =~= bars_preset().pattern->Bars_0);
        make_preset(NeopixelMatrixPattern::Bars(bands))
    }

    /// The quarters preset.
    pub fn quarters() -> (c: Self)
        ensures
            c == quarters_preset(),
            c.valid(),
    {
        make_preset(NeopixelMatrixPattern::Quarters(make_four(4, 5)))
    }

    /// The ungated bar preset.
    pub fn bars2() -> (c: Self)
        ensures
            c == bars2_preset(),
            c.valid(),
    {
        let bands = [
            make_linear(1, 1, TWO_BITS, ONE_BITS, 0, 0),
            make_linear(2, 3, THREE_BITS, ONE_BITS, HALF_TINT_BITS, 0),
            make_linear(4, 5, THREE_BITS, ONE_BITS, ONE_BITS, 0),
            make_linear(6, 10, FIVE_BITS, 0, ONE_BITS, 0),
            make_linear(11, 14, TEN_BITS, 0, ONE_BITS, ONE_BITS),
            make_linear(15, 18, TEN_BITS, 0, 0, ONE_BITS),
            make_linear(19, 22, TEN_BITS, HALF_TINT_BITS, 0, ONE_BITS),
            make_linear(23, 100, TEN_BITS, ONE_BITS, 0, ONE_BITS),
        ];
        assert(bands =~= bars2_preset().pattern->Bars_0);
        make_preset(NeopixelMatrixPattern::Bars(bands))
    }
}

impl Default for AppConfig {
    /// The configuration that the firmware starts with: the ungated bar preset.
    fn default() -> (c: Self)
        ensures
            c == bars2_preset(),
            c.valid(),
    {
        Self::bars2()
    }
}

/// A channel whose band lies below bin 128 takes 24 bytes on the wire.
pub proof fn lemma_small_channel_length(c: ChannelConfig)
    requires
        c.start_index < 128,
        c.end_index < 128,
    ensures
        channel_bytes(c).len() == 24,
{
    reveal_with_fuel(varint_bytes, 2);
}

/// A run of channels whose bands lie below bin 128 takes 24 bytes each.
pub proof fn lemma_small_channels_length(channels: Seq<ChannelConfig>)
    requires
        forall|i: int|
            0 <= i < channels.len() ==> (#[trigger] channels[i]).start_index < 128
                && channels[i].end_index < 128,
    ensures
        channels_bytes(channels).len() == 24 * channels.len(),
    decreases channels.len(),
{
    if channels.len() > 0 {
        lemma_small_channels_length(channels.drop_last());
        lemma_small_channel_length(channels.last());
    }
}

/// Every preset fits the GATT attribute: the quadrant presets take 102
/// bytes and the bar presets 198.
#[verifier::rlimit(40)]
pub proof fn lemma_presets_fit()
    ensures
        config_bytes(stripes_preset()).len() == 102,
        config_bytes(quarters_preset()).len() == 102,
        config_bytes(bars_preset()).len() == 198,
        config_bytes(bars2_preset()).len() == 198,
        198 <= CONFIG_MAX_BYTES,
{
    reveal_with_fuel(varint_bytes, 3);
    lemma_small_channels_length(stripes_preset().pattern.channels());
    lemma_small_channels_length(quarters_preset().pattern.channels());
    lemma_small_channels_length(bars_preset().pattern.channels());
    lemma_small_channels_length(bars2_preset().pattern.channels());
}

} // verus!
