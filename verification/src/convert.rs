//! Changing the pattern of a document without losing what the user set.
//!
//! The leading channels of the old pattern are carried over, as many as both
//! patterns have; where the new pattern has more channels, the rest are
//! filler channels.

use vstd::prelude::*;
use crate::config::AppConfig;
use crate::config::ChannelConfig;
use crate::config::NeopixelMatrixPattern;

verus! {

/// Channel `i` after a conversion: the old channel where there is one, the
/// filler channel otherwise.
pub open spec fn carried(pattern: NeopixelMatrixPattern, i: int) -> ChannelConfig {
    if i < pattern.channels().len() {
        pattern.channels()[i]
    } else {
        ChannelConfig::filler()
    }
}

/// The first `n` channels after a conversion.
pub open spec fn carried_channels(pattern: NeopixelMatrixPattern, n: nat) -> Seq<ChannelConfig> {
    Seq::new(n, |i: int| carried(pattern, i))
}

/// The pattern with variant index `selected` that carries over the channels
/// of `pattern`. The same variant, or an index that names none, leaves the
/// pattern as it is.
pub open spec fn converted(pattern: NeopixelMatrixPattern, selected: int) -> NeopixelMatrixPattern {
    if selected == pattern.kind() || selected < 0 || selected > 2 {
        pattern
    } else if selected == 0 {
        NeopixelMatrixPattern::Stripes(
            [
                carried(pattern, 0),
                carried(pattern, 1),
                carried(pattern, 2),
                carried(pattern, 3),
            ],
        )
    } else if selected == 1 {
        NeopixelMatrixPattern::Bars(
            [
                carried(pattern, 0),
                carried(pattern, 1),
                carried(pattern, 2),
                carried(pattern, 3),
                carried(pattern, 4),
                carried(pattern, 5),
                carried(pattern, 6),
                carried(pattern, 7),
            ],
        )
    } else {
        NeopixelMatrixPattern::Quarters(
            [
                carried(pattern, 0),
                carried(pattern, 1),
                carried(pattern, 2),
                carried(pattern, 3),
            ],
        )
    }
}

fn carry_four(pattern: &NeopixelMatrixPattern) -> (channels: [ChannelConfig; 4])
    ensures
        channels@ == carried_channels(*pattern, 4),
{
    let mut channels: [ChannelConfig; 4] = [ChannelConfig::new_filler(); 4];
    let n = pattern.channel_count();
    let mut i: usize = 0;
    while i < 4
        invariant
            i <= 4,
            n == pattern.channels().len(),
            n >= 4,
            forall|j: int| 0 <= j < i ==> channels@[j] == carried(*pattern, j),
        decreases 4 - i,
    {
        channels[i] = pattern.channel(i);
        i += 1;
    }
    assert(channels@ =~= carried_channels(*pattern, 4));
    channels
}

/// The four channels of a stripes pattern that carries over `pattern`.
pub fn convert_to_stripes(pattern: &NeopixelMatrixPattern) -> (channels: [ChannelConfig; 4])
    ensures
        channels@ == carried_channels(*pattern, 4),
{
    carry_four(pattern)
}

/// The eight channels of a bar pattern that carries over `pattern`.
pub fn convert_to_bars(pattern: &NeopixelMatrixPattern) -> (channels: [ChannelConfig; 8])
    ensures
        channels@ == carried_channels(*pattern, 8),
{
    let mut channels: [ChannelConfig; 8] = [ChannelConfig::new_filler(); 8];
    let n = pattern.channel_count();
    let mut i: usize = 0;
    while i < n
        invariant
            i <= n <= 8,
            n == pattern.channels().len(),
            forall|j: int| 0 <= j < i ==> channels@[j] == carried(*pattern, j),
            forall|j: int| i <= j < 8 ==> channels@[j] == ChannelConfig::filler(),
        decreases n - i,
    {
        channels[i] = pattern.channel(i);
        i += 1;
    }
    assert(channels@ =~= carried_channels(*pattern, 8));
    channels
}

/// The four channels of a quarters pattern that carries over `pattern`.
pub fn convert_to_quarters(pattern: &NeopixelMatrixPattern) -> (channels: [ChannelConfig; 4])
    ensures
        channels@ == carried_channels(*pattern, 4),
{
    carry_four(pattern)
}

/// Switches the document to the pattern with variant index `selected_idx`
/// (0 stripes, 1 bars, 2 quarters), carrying the channels over. Nothing
/// happens when the document already has that pattern or the index names none.
pub fn convert_pattern_if_needed(cfg: &mut AppConfig, selected_idx: usize)
    ensures
        final(cfg).pattern == converted(old(cfg).pattern, selected_idx as int),
        final(cfg).config_version == old(cfg).config_version,
        final(cfg).sample_count == old(cfg).sample_count,
        final(cfg).fft_size == old(cfg).fft_size,
        final(cfg).use_hann_window == old(cfg).use_hann_window,
        old(cfg).valid() ==> final(cfg).valid(),
{
    let current: usize = match cfg.pattern {
        NeopixelMatrixPattern::Stripes(_) => 0,
        NeopixelMatrixPattern::Bars(_) => 1,
        NeopixelMatrixPattern::Quarters(_) => 2,
    };
    if selected_idx == current || selected_idx > 2 {
        return;
    }
    let ghost before = cfg.pattern;
    if selected_idx == 0 {
        let channels = convert_to_stripes(&cfg.pattern);
        assert(channels =~= converted(before, 0)->Stripes_0);
        cfg.pattern = NeopixelMatrixPattern::Stripes(channels);
    } else if selected_idx == 1 {
        let channels = convert_to_bars(&cfg.pattern);
        assert(channels =~= converted(before, 1)->Bars_0);
        cfg.pattern = NeopixelMatrixPattern::Bars(channels);
    } else {
        let channels = convert_to_quarters(&cfg.pattern);
        assert(channels =~= converted(before, 2)->Quarters_0);
        cfg.pattern = NeopixelMatrixPattern::Quarters(channels);
    }
    proof {
        lemma_conversion_keeps_validity(before, selected_idx as int);
    }
}

/// A conversion keeps the channels that both patterns have, and a valid
/// pattern stays valid.
pub proof fn lemma_conversion_keeps_validity(pattern: NeopixelMatrixPattern, selected: int)
    ensures
        forall|i: int|
            0 <= i < pattern.channels().len() && i < converted(pattern, selected).channels().len()
                ==> #[trigger] converted(pattern, selected).channels()[i] == pattern.channels()[i],
        pattern.valid() ==> converted(pattern, selected).valid(),
        0 <= selected <= 2 ==> converted(pattern, selected).kind() == selected,
{
}

/// Converting to bars and back gives the pattern that was there.
pub proof fn lemma_conversion_through_bars(pattern: NeopixelMatrixPattern)
    requires
        pattern.kind() != 1,
    ensures
        converted(converted(pattern, 1), pattern.kind()) == pattern,
{
    let there = converted(pattern, 1);
    let back = converted(there, pattern.kind());
    match pattern {
        NeopixelMatrixPattern::Stripes(c) => {
            assert(back->Stripes_0 =~= c);
        },
        NeopixelMatrixPattern::Bars(c) => {},
        NeopixelMatrixPattern::Quarters(c) => {
            assert(back->Quarters_0 =~= c);
        },
    }
}

} // verus!
