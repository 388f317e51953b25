//! The configuration document that the host editor and the firmware exchange.
//!
//! Real-valued settings are held as IEEE-754 single precision bit patterns,
//! so that a document survives a trip over the wire bit for bit.

use vstd::prelude::*;

verus! {

/// Version number carried by every configuration document.
pub const CONFIG_VERSION: u32 = 1;

/// Number of bins of the 512-point real transform; bin indices lie below it.
pub const SPECTRUM_BINS: usize = 256;

/// Largest serialized configuration that fits the GATT attribute.
pub const CONFIG_MAX_BYTES: usize = 200;

/// Bit pattern of the single precision number 1.0.
pub const ONE_BITS: u32 = 0x3F80_0000;

/// Bit pattern of positive infinity, the largest pattern that is not a NaN
/// among those with a clear sign bit.
pub const INFINITY_BITS: u32 = 0x7F80_0000;

/// Bit pattern of negative zero.
pub const NEGATIVE_ZERO_BITS: u32 = 0x8000_0000;

/// A single precision number, held as its IEEE-754 bit pattern.
#[derive(Clone, Copy, Debug, PartialEq, Eq, Structural)]
pub struct FloatBits {
    pub bits: u32,
}

impl FloatBits {
    /// The number with the given bit pattern.
    pub fn from_bits(bits: u32) -> (f: Self)
        ensures
            f.bits == bits,
    {
        FloatBits { bits }
    }

    /// The bit pattern of the number.
    pub fn to_bits(self) -> (bits: u32)
        ensures
            bits == self.bits,
    {
        self.bits
    }

    /// The number compares greater than or equal to zero: its sign bit is
    /// clear and it is no NaN, or it is negative zero.
    pub open spec fn non_negative(self) -> bool {
        self.bits <= INFINITY_BITS || self.bits == NEGATIVE_ZERO_BITS
    }

    /// The number lies between zero and one, ends included. Among patterns
    /// with a clear sign bit the numbers are ordered as their patterns are.
    pub open spec fn in_unit_interval(self) -> bool {
        self.bits <= ONE_BITS || self.bits == NEGATIVE_ZERO_BITS
    }

    /// Decides `non_negative`.
    pub fn is_non_negative(self) -> (r: bool)
        ensures
            r == self.non_negative(),
    {
        self.bits <= INFINITY_BITS || self.bits == NEGATIVE_ZERO_BITS
    }

    /// Decides `in_unit_interval`.
    pub fn is_in_unit_interval(self) -> (r: bool)
        ensures
            r == self.in_unit_interval(),
    {
        self.bits <= ONE_BITS || self.bits == NEGATIVE_ZERO_BITS
    }
}

/// How the shaped values of a channel's bins are combined.
#[derive(Clone, Copy, Debug, PartialEq, Eq, Structural)]
pub enum AggregationMethod {
    Sum,
    Max,
    Average,
}

/// The curve applied to a bin's squared magnitude `v` before aggregation.
#[derive(Clone, Copy, Debug, PartialEq, Eq, Structural)]
pub enum Shaping {
    /// `sqrt(v)`: the linear magnitude.
    SquareRoot,
    /// `v` itself.
    Identity,
    /// `v` raised to the given power.
    Power(u8),
    /// `sqrt(v)` raised to the given power.
    RootPower(u8),
}

/// The curve that an exponent setting selects.
pub open spec fn shaping_for(exponent: u8) -> Shaping {
    if exponent == 1 {
        Shaping::SquareRoot
    } else if exponent == 2 {
        Shaping::Identity
    } else if exponent % 2 == 0 {
        Shaping::Power(exponent / 2)
    } else {
        Shaping::RootPower(exponent)
    }
}

/// Maps one band of the spectrum to a colour.
#[derive(Clone, Copy, Debug, PartialEq, Eq)]
pub struct ChannelConfig {
    /// First bin of the band.
    pub start_index: usize,
    /// Last bin of the band; it belongs to the band.
    pub end_index: usize,
    /// Gain applied to a bin before its magnitude is taken.
    pub premult: FloatBits,
    /// Squared magnitudes below this threshold count as silence.
    pub noise_gate: FloatBits,
    /// Selects the shaping curve.
    pub exponent: u8,
    /// Red, green and blue tint, each between zero and one.
    pub color: [FloatBits; 3],
    pub aggregate: AggregationMethod,
}

impl ChannelConfig {
    /// The band lies inside the spectrum, gain and gate are not negative and
    /// the tint lies in the unit interval.
    pub open spec fn valid(self) -> bool {
        &&& self.start_index <= self.end_index
        &&& self.end_index < SPECTRUM_BINS
        &&& self.premult.non_negative()
        &&& self.noise_gate.non_negative()
        &&& self.color@[0].in_unit_interval()
        &&& self.color@[1].in_unit_interval()
        &&& self.color@[2].in_unit_interval()
    }

    /// Decides `valid`.
    pub fn is_valid(&self) -> (r: bool)
        ensures
            r == self.valid(),
    {
        self.start_index <= self.end_index && self.end_index < SPECTRUM_BINS
            && self.premult.is_non_negative() && self.noise_gate.is_non_negative()
            && self.color[0].is_in_unit_interval() && self.color[1].is_in_unit_interval()
            && self.color[2].is_in_unit_interval()
    }

    /// The channel that fills the gaps when a pattern grows: unit gain, no
    /// gate, linear magnitude, white, summed, on bin zero.
    pub open spec fn filler() -> Self {
        ChannelConfig {
            start_index: 0,
            end_index: 0,
            premult: FloatBits { bits: ONE_BITS },
            noise_gate: FloatBits { bits: 0 },
            exponent: 1,
            color: [
                FloatBits { bits: ONE_BITS },
                FloatBits { bits: ONE_BITS },
                FloatBits { bits: ONE_BITS },
            ],
            aggregate: AggregationMethod::Sum,
        }
    }

    /// Builds the filler channel.
    pub fn new_filler() -> (c: Self)
        ensures
            c == Self::filler(),
            c.valid(),
    {
        let one = FloatBits { bits: ONE_BITS };
        let c = ChannelConfig {
            start_index: 0,
            end_index: 0,
            premult: one,
            noise_gate: FloatBits { bits: 0 },
            exponent: 1,
            color: [one, one, one],
            aggregate: AggregationMethod::Sum,
        };
        assert(c.color =~= Self::filler().color);
        c
    }

    /// The shaping curve of this channel.
    pub fn shaping(&self) -> (s: Shaping)
        ensures
            s == shaping_for(self.exponent),
    {
        if self.exponent == 1 {
            Shaping::SquareRoot
        } else if self.exponent == 2 {
            Shaping::Identity
        } else if self.exponent % 2 == 0 {
            Shaping::Power(self.exponent / 2)
        } else {
            Shaping::RootPower(self.exponent)
        }
    }

    /// The band as a half-open range of bins, `start_index` up to and
    /// including `end_index`, when it lies inside the spectrum.
    pub fn bins(&self) -> (range: Option<(usize, usize)>)
        ensures
            range == if self.start_index <= self.end_index && self.end_index < SPECTRUM_BINS {
                Some((self.start_index, (self.end_index + 1) as usize))
            } else {
                None::<(usize, usize)>
            },
            range matches Some((from, to)) ==> from < to <= SPECTRUM_BINS,
    {
        if self.start_index <= self.end_index && self.end_index < SPECTRUM_BINS {
            Some((self.start_index, self.end_index + 1))
        } else {
            None
        }
    }
}

/// The pattern shown on the matrix, with one channel per region.
#[derive(Clone, Copy, Debug, PartialEq, Eq)]
pub enum NeopixelMatrixPattern {
    Stripes([ChannelConfig; 4]),
    Bars([ChannelConfig; 8]),
    Quarters([ChannelConfig; 4]),
}

impl NeopixelMatrixPattern {
    /// The channels of the pattern, in order.
    pub open spec fn channels(self) -> Seq<ChannelConfig> {
        match self {
            NeopixelMatrixPattern::Stripes(c) => c@,
            NeopixelMatrixPattern::Bars(c) => c@,
            NeopixelMatrixPattern::Quarters(c) => c@,
        }
    }

    /// Position of the variant in the declaration: 0, 1 or 2.
    pub open spec fn kind(self) -> int {
        match self {
            NeopixelMatrixPattern::Stripes(_) => 0,
            NeopixelMatrixPattern::Bars(_) => 1,
            NeopixelMatrixPattern::Quarters(_) => 2,
        }
    }

    /// Every channel is valid.
    pub open spec fn valid(self) -> bool {
        forall|i: int| 0 <= i < self.channels().len() ==> (#[trigger] self.channels()[i]).valid()
    }

    /// Number of channels: four for the quadrant patterns, eight for bars.
    pub fn channel_count(&self) -> (n: usize)
        ensures
            n == self.channels().len(),
            n == if self.kind() == 1 { 8usize } else { 4usize },
    {
        match self {
            NeopixelMatrixPattern::Stripes(_) => 4,
            NeopixelMatrixPattern::Bars(_) => 8,
            NeopixelMatrixPattern::Quarters(_) => 4,
        }
    }

    /// Channel `i` of the pattern.
    pub fn channel(&self, i: usize) -> (c: ChannelConfig)
        requires
            i < self.channels().len(),
        ensures
            c == self.channels()[i as int],
    {
        match self {
            NeopixelMatrixPattern::Stripes(c) => c[i],
            NeopixelMatrixPattern::Bars(c) => c[i],
            NeopixelMatrixPattern::Quarters(c) => c[i],
        }
    }

    /// Decides `valid`.
    pub fn is_valid(&self) -> (r: bool)
        ensures
            r == self.valid(),
    {
        let n = self.channel_count();
        let mut i: usize = 0;
        while i < n
            invariant
                i <= n,
                n == self.channels().len(),
                forall|j: int| 0 <= j < i ==> (#[trigger] self.channels()[j]).valid(),
            decreases n - i,
        {
            let c = self.channel(i);
            if !c.is_valid() {
                return false;
            }
            i += 1;
        }
        true
    }
}

/// Length of the transform that a document asks for.
#[derive(Clone, Copy, Debug, PartialEq, Eq, Structural)]
pub enum FFTSize {
    Size128,
    Size256,
    Size512,
}

impl FFTSize {
    /// The number of points that the variant names.
    pub fn points(&self) -> (n: usize)
        ensures
            n == match *self {
                FFTSize::Size128 => 128usize,
                FFTSize::Size256 => 256usize,
                FFTSize::Size512 => 512usize,
            },
    {
        match self {
            FFTSize::Size128 => 128,
            FFTSize::Size256 => 256,
            FFTSize::Size512 => 512,
        }
    }
}

/// The configuration document.
#[derive(Clone, Copy, Debug, PartialEq, Eq)]
pub struct AppConfig {
    pub config_version: u32,
    /// Number of samples handed to the transform per frame.
    pub sample_count: usize,
    pub fft_size: FFTSize,
    pub use_hann_window: bool,
    pub pattern: NeopixelMatrixPattern,
}

impl AppConfig {
    /// Every channel of the pattern is valid.
    pub open spec fn valid(self) -> bool {
        self.pattern.valid()
    }

    /// Decides `valid`.
    pub fn is_valid(&self) -> (r: bool)
        ensures
            r == self.valid(),
    {
        self.pattern.is_valid()
    }
}

} // verus!
