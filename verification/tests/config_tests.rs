use diskomator::config::{
    shaping_for, AggregationMethod, AppConfig, ChannelConfig, FFTSize, FloatBits,
    NeopixelMatrixPattern, Shaping, CONFIG_VERSION,
};
use diskomator::wire::ConfigError;

fn bits(x: f32) -> FloatBits {
    FloatBits::from_bits(x.to_bits())
}

fn channel(start: usize, end: usize, premult: f32, gate: f32, exponent: u8, color: [f32; 3]) -> ChannelConfig {
    ChannelConfig {
        start_index: start,
        end_index: end,
        premult: bits(premult),
        noise_gate: bits(gate),
        exponent,
        color: [bits(color[0]), bits(color[1]), bits(color[2])],
        aggregate: AggregationMethod::Sum,
    }
}

type WireChannel = (usize, usize, f32, f32, u8, [f32; 3], u32);

fn wire_channel(c: &ChannelConfig) -> WireChannel {
    let aggregate = match c.aggregate {
        AggregationMethod::Sum => 0,
        AggregationMethod::Max => 1,
        AggregationMethod::Average => 2,
    };
    (
        c.start_index,
        c.end_index,
        f32::from_bits(c.premult.to_bits()),
        f32::from_bits(c.noise_gate.to_bits()),
        c.exponent,
        [
            f32::from_bits(c.color[0].to_bits()),
            f32::from_bits(c.color[1].to_bits()),
            f32::from_bits(c.color[2].to_bits()),
        ],
        aggregate,
    )
}

fn fft_index(f: FFTSize) -> u32 {
    match f {
        FFTSize::Size128 => 0,
        FFTSize::Size256 => 1,
        FFTSize::Size512 => 2,
    }
}

/// What postcard writes for the same fields, as tuples of plain values.
fn postcard_bytes(c: &AppConfig) -> Vec<u8> {
    let mut buffer = [0u8; 512];
    let head = (c.config_version, c.sample_count, fft_index(c.fft_size), c.use_hann_window);
    let used = match &c.pattern {
        NeopixelMatrixPattern::Stripes(ch) => {
            let four: [WireChannel; 4] = [wire_channel(&ch[0]), wire_channel(&ch[1]), wire_channel(&ch[2]), wire_channel(&ch[3])];
            postcard::to_slice(&(head, 0u32, four), &mut buffer).unwrap().len()
        }
        NeopixelMatrixPattern::Bars(ch) => {
            let eight: [WireChannel; 8] = [
                wire_channel(&ch[0]), wire_channel(&ch[1]), wire_channel(&ch[2]), wire_channel(&ch[3]),
                wire_channel(&ch[4]), wire_channel(&ch[5]), wire_channel(&ch[6]), wire_channel(&ch[7]),
            ];
            postcard::to_slice(&(head, 1u32, eight), &mut buffer).unwrap().len()
        }
        NeopixelMatrixPattern::Quarters(ch) => {
            let four: [WireChannel; 4] = [wire_channel(&ch[0]), wire_channel(&ch[1]), wire_channel(&ch[2]), wire_channel(&ch[3])];
            postcard::to_slice(&(head, 2u32, four), &mut buffer).unwrap().len()
        }
    };
    buffer[..used].to_vec()
}

const BARS2_BYTES: [u8; 198] = [
    1, 128, 2, 2, 1, 1, 1, 1, 0, 0, 0, 64, 0, 0, 0, 0, 1, 0, 0, 128, 63, 0, 0, 0, 0, 0, 0, 0, 0, 0,
    2, 3, 0, 0, 64, 64, 0, 0, 0, 0, 1, 0, 0, 128, 63, 219, 249, 254, 62, 0, 0, 0, 0, 0, 4, 5, 0, 0,
    64, 64, 0, 0, 0, 0, 1, 0, 0, 128, 63, 0, 0, 128, 63, 0, 0, 0, 0, 0, 6, 10, 0, 0, 160, 64, 0, 0,
    0, 0, 1, 0, 0, 0, 0, 0, 0, 128, 63, 0, 0, 0, 0, 0, 11, 14, 0, 0, 32, 65, 0, 0, 0, 0, 1, 0, 0, 0,
    0, 0, 0, 128, 63, 0, 0, 128, 63, 0, 15, 18, 0, 0, 32, 65, 0, 0, 0, 0, 1, 0, 0, 0, 0, 0, 0, 0, 0,
    0, 0, 128, 63, 0, 19, 22, 0, 0, 32, 65, 0, 0, 0, 0, 1, 219, 249, 254, 62, 0, 0, 0, 0, 0, 0, 128,
    63, 0, 23, 100, 0, 0, 32, 65, 0, 0, 0, 0, 1, 0, 0, 128, 63, 0, 0, 0, 0, 0, 0, 128, 63, 0,
];

#[test]
fn default_is_the_ungated_bar_preset() {
    let c = AppConfig::default();
    assert_eq!(c, AppConfig::bars2());
    assert_eq!(c.config_version, CONFIG_VERSION);
    assert_eq!(c.sample_count, 256);
    assert_eq!(c.fft_size, FFTSize::Size512);
    assert!(c.use_hann_window);
    match c.pattern {
        NeopixelMatrixPattern::Bars(ch) => {
            assert_eq!(ch[0], channel(1, 1, 2.0, 0.0, 1, [1.0, 0.0, 0.0]));
            assert_eq!(ch[1], channel(2, 3, 3.0, 0.0, 1, [1.0, 0.498, 0.0]));
            assert_eq!(ch[3], channel(6, 10, 5.0, 0.0, 1, [0.0, 1.0, 0.0]));
            assert_eq!(ch[7], channel(23, 100, 10.0, 0.0, 1, [1.0, 0.0, 1.0]));
        }
        _ => panic!("bars expected"),
    }
}

#[test]
fn presets_have_the_listed_bands() {
    match AppConfig::stripes().pattern {
        NeopixelMatrixPattern::Stripes(ch) => {
            assert_eq!(ch[0], channel(1, 1, 3.0, 0.01, 6, [1.0, 0.0, 0.0]));
            assert_eq!(ch[1], channel(2, 10, 3.0, 0.01, 6, [0.0, 1.0, 0.0]));
            assert_eq!(ch[2], channel(11, 15, 3.0, 0.01, 6, [0.0, 0.0, 1.0]));
            assert_eq!(ch[3], channel(16, 25, 3.0, 0.01, 6, [1.0, 1.0, 1.0]));
        }
        _ => panic!("stripes expected"),
    }
    match AppConfig::quarters().pattern {
        NeopixelMatrixPattern::Quarters(ch) => {
            assert_eq!(ch[0], channel(1, 4, 3.0, 0.01, 6, [1.0, 0.0, 0.0]));
            assert_eq!(ch[1], channel(5, 10, 3.0, 0.01, 6, [0.0, 1.0, 0.0]));
        }
        _ => panic!("quarters expected"),
    }
    match AppConfig::bars().pattern {
        NeopixelMatrixPattern::Bars(ch) => {
            assert_eq!(ch[0], channel(1, 2, 3.0, 0.01, 6, [1.0, 0.0, 0.0]));
            assert_eq!(ch[1], channel(3, 4, 3.0, 0.01, 6, [1.0, 0.498, 0.0]));
            assert_eq!(ch[6], channel(19, 22, 3.0, 0.01, 6, [0.498, 0.0, 1.0]));
            assert_eq!(ch[7], channel(23, 25, 3.0, 0.01, 6, [1.0, 0.0, 1.0]));
        }
        _ => panic!("bars expected"),
    }
}

#[test]
fn presets_are_valid() {
    for c in [AppConfig::stripes(), AppConfig::bars(), AppConfig::quarters(), AppConfig::bars2()] {
        assert!(c.is_valid());
    }
}

#[test]
fn default_preset_serializes_to_the_known_bytes() {
    let bytes = AppConfig::default().to_bytes::<200>().unwrap();
    assert_eq!(bytes.len(), 198);
    assert_eq!(bytes.as_slice(), &BARS2_BYTES[..]);
}

#[test]
fn presets_round_trip() {
    for c in [AppConfig::stripes(), AppConfig::bars(), AppConfig::quarters(), AppConfig::bars2()] {
        let bytes = c.to_bytes::<200>().unwrap();
        assert_eq!(AppConfig::from_bytes(&bytes), Ok(c));
    }
}

#[test]
fn quadrant_presets_take_102_bytes() {
    assert_eq!(AppConfig::stripes().to_bytes::<200>().unwrap().len(), 102);
    assert_eq!(AppConfig::quarters().to_bytes::<200>().unwrap().len(), 102);
    assert_eq!(AppConfig::bars().to_bytes::<200>().unwrap().len(), 198);
}

#[test]
fn serialized_form_is_what_postcard_writes() {
    let mut odd = AppConfig::quarters();
    odd.config_version = 0xFFFF_FFFF;
    odd.sample_count = 300;
    odd.fft_size = FFTSize::Size128;
    odd.use_hann_window = false;
    if let NeopixelMatrixPattern::Quarters(ch) = &mut odd.pattern {
        ch[0].start_index = 16_384;
        ch[0].end_index = usize::MAX;
        ch[0].aggregate = AggregationMethod::Average;
        ch[1].aggregate = AggregationMethod::Max;
        ch[2].premult = bits(f32::NAN);
        ch[3].noise_gate = bits(-0.0);
        ch[3].exponent = 255;
    }
    for c in [AppConfig::stripes(), AppConfig::bars(), AppConfig::quarters(), AppConfig::bars2(), odd] {
        let ours = c.to_bytes::<512>().unwrap();
        assert_eq!(ours, postcard_bytes(&c));
        assert_eq!(AppConfig::from_bytes(&ours), Ok(c));
    }
}

#[test]
fn postcard_reads_what_we_write() {
    let c = AppConfig::bars();
    let bytes = c.to_bytes::<200>().unwrap();
    type Mirror = ((u32, usize, u32, bool), u32, [WireChannel; 8]);
    let (head, kind, channels): Mirror = postcard::from_bytes(&bytes).unwrap();
    assert_eq!(head, (1, 256, 2, true));
    assert_eq!(kind, 1);
    if let NeopixelMatrixPattern::Bars(ch) = c.pattern {
        for i in 0..8 {
            assert_eq!(channels[i], wire_channel(&ch[i]));
        }
    }
}

#[test]
fn to_bytes_reports_a_full_buffer() {
    let c = AppConfig::bars2();
    assert_eq!(c.to_bytes::<197>(), Err(ConfigError::BufferFull));
    assert!(c.to_bytes::<198>().is_ok());
    assert_eq!(AppConfig::stripes().to_bytes::<0>(), Err(ConfigError::BufferFull));
}

#[test]
fn trailing_bytes_are_ignored() {
    let c = AppConfig::stripes();
    let mut bytes = c.to_bytes::<200>().unwrap();
    bytes.extend_from_slice(&[0xFF, 0xFF, 0xFF]);
    assert_eq!(AppConfig::from_bytes(&bytes), Ok(c));
}

#[test]
fn truncated_input_is_an_unexpected_end() {
    let bytes = AppConfig::bars2().to_bytes::<200>().unwrap();
    for cut in 0..bytes.len() {
        assert_eq!(AppConfig::from_bytes(&bytes[..cut]), Err(ConfigError::UnexpectedEnd), "cut at {}", cut);
    }
}

#[test]
fn postcard_fails_where_we_fail() {
    type Mirror = ((u32, usize, u32, bool), u32, [WireChannel; 8]);
    let bytes = AppConfig::bars2().to_bytes::<200>().unwrap();
    for cut in 0..bytes.len() {
        assert_eq!(
            postcard::from_bytes::<Mirror>(&bytes[..cut]).err(),
            Some(postcard::Error::DeserializeUnexpectedEnd),
            "cut at {}",
            cut
        );
    }
    let mut bad_bool = bytes.clone();
    bad_bool[4] = 2;
    assert_eq!(
        postcard::from_bytes::<Mirror>(&bad_bool).err(),
        Some(postcard::Error::DeserializeBadBool)
    );
    assert_eq!(AppConfig::from_bytes(&bad_bool), Err(ConfigError::BadBool));
    let mut long_index = vec![bytes[0]];
    long_index.extend_from_slice(&bytes[1..6]);
    long_index.extend_from_slice(&[0x80, 0x80, 0x80, 0x80, 0x80, 0x80, 0x80, 0x80, 0x80, 0x02]);
    long_index.extend_from_slice(&bytes[7..]);
    assert_eq!(
        postcard::from_bytes::<Mirror>(&long_index).err(),
        Some(postcard::Error::DeserializeBadVarint)
    );
    assert_eq!(AppConfig::from_bytes(&long_index), Err(ConfigError::BadVarint));
}

#[test]
fn bad_fields_are_told_apart() {
    let good = AppConfig::stripes().to_bytes::<200>().unwrap();
    // config_version: a sixth varint byte
    let mut bytes = vec![0x80, 0x80, 0x80, 0x80, 0x80, 0x00];
    bytes.extend_from_slice(&good[1..]);
    assert_eq!(AppConfig::from_bytes(&bytes), Err(ConfigError::BadVarint));
    // config_version: fifth byte carries more than four bits
    let mut bytes = vec![0xFF, 0xFF, 0xFF, 0xFF, 0x10];
    bytes.extend_from_slice(&good[1..]);
    assert_eq!(AppConfig::from_bytes(&bytes), Err(ConfigError::BadVarint));
    // fft size: a fourth variant
    let mut bytes = good.clone();
    bytes[3] = 3;
    assert_eq!(AppConfig::from_bytes(&bytes), Err(ConfigError::BadVariant));
    // use_hann_window: neither 0 nor 1
    let mut bytes = good.clone();
    bytes[4] = 2;
    assert_eq!(AppConfig::from_bytes(&bytes), Err(ConfigError::BadBool));
    // pattern: a fourth variant
    let mut bytes = good.clone();
    bytes[5] = 7;
    assert_eq!(AppConfig::from_bytes(&bytes), Err(ConfigError::BadVariant));
    // aggregate of the first channel: a fourth variant
    let mut bytes = good.clone();
    bytes[6 + 23] = 3;
    assert_eq!(AppConfig::from_bytes(&bytes), Err(ConfigError::BadVariant));
}

#[test]
fn varints_are_read_as_postcard_reads_them() {
    let good = AppConfig::stripes().to_bytes::<200>().unwrap();
    let heads: [&[u8]; 7] = [
        &[0x00],
        &[0x80, 0x00],
        &[0xFF, 0xFF, 0xFF, 0xFF, 0x0F],
        &[0xFF, 0xFF, 0xFF, 0xFF, 0x10],
        &[0x80, 0x80, 0x80, 0x80, 0x80],
        &[0x80, 0x80, 0x80, 0x80, 0x00],
        &[0xAC, 0x02],
    ];
    for head in heads {
        let mut bytes = head.to_vec();
        bytes.extend_from_slice(&good[1..]);
        let theirs = postcard::take_from_bytes::<u32>(&bytes);
        let ours = AppConfig::from_bytes(&bytes);
        match theirs {
            Ok((v, _)) => assert_eq!(ours.unwrap().config_version, v),
            Err(postcard::Error::DeserializeBadVarint) => assert_eq!(ours, Err(ConfigError::BadVarint)),
            Err(e) => panic!("unexpected {:?}", e),
        }
    }
    // sample_count is a 64-bit varint: ten bytes at most, the tenth at most 1
    let counts: [&[u8]; 4] = [
        &[0xFF, 0xFF, 0xFF, 0xFF, 0xFF, 0xFF, 0xFF, 0xFF, 0xFF, 0x01],
        &[0xFF, 0xFF, 0xFF, 0xFF, 0xFF, 0xFF, 0xFF, 0xFF, 0xFF, 0x02],
        &[0x80, 0x80, 0x80, 0x80, 0x80, 0x80, 0x80, 0x80, 0x80, 0x80],
        &[0x80, 0x80, 0x80, 0x80, 0x80, 0x80, 0x80, 0x80, 0x80, 0x00],
    ];
    for count in counts {
        let mut bytes = vec![good[0]];
        bytes.extend_from_slice(count);
        bytes.extend_from_slice(&good[3..]);
        let theirs = postcard::take_from_bytes::<u64>(&bytes[1..]);
        let ours = AppConfig::from_bytes(&bytes);
        match theirs {
            Ok((v, _)) => assert_eq!(ours.unwrap().sample_count as u64, v),
            Err(postcard::Error::DeserializeBadVarint) => assert_eq!(ours, Err(ConfigError::BadVarint)),
            Err(e) => panic!("unexpected {:?}", e),
        }
    }
}

#[test]
fn channel_validity_follows_the_invariants() {
    let good = channel(0, 255, 0.0, 0.0, 1, [0.0, 1.0, 0.5]);
    assert!(good.is_valid());
    assert!(!channel(5, 4, 1.0, 0.0, 1, [1.0, 1.0, 1.0]).is_valid());
    assert!(!channel(0, 256, 1.0, 0.0, 1, [1.0, 1.0, 1.0]).is_valid());
    assert!(!channel(0, 1, -1.0, 0.0, 1, [1.0, 1.0, 1.0]).is_valid());
    assert!(!channel(0, 1, 1.0, -0.5, 1, [1.0, 1.0, 1.0]).is_valid());
    assert!(!channel(0, 1, 1.0, 0.0, 1, [1.000_000_1, 1.0, 1.0]).is_valid());
    assert!(!channel(0, 1, 1.0, 0.0, 1, [1.0, -0.1, 1.0]).is_valid());
    assert!(!channel(0, 1, 1.0, 0.0, 1, [1.0, 1.0, f32::NAN]).is_valid());
    assert!(!channel(0, 1, f32::NAN, 0.0, 1, [1.0, 1.0, 1.0]).is_valid());
    assert!(channel(0, 1, f32::INFINITY, -0.0, 1, [-0.0, 1.0, 1.0]).is_valid());
    let mut c = AppConfig::bars();
    assert!(c.is_valid());
    if let NeopixelMatrixPattern::Bars(ch) = &mut c.pattern {
        ch[7].end_index = 256;
    }
    assert!(!c.is_valid());
}

#[test]
fn float_checks_agree_with_float_comparison() {
    let samples = [0.0f32, -0.0, 1.0, 0.5, 1e-40, 0.999_999_9, 1.000_000_1, 2.0, -1e-40, -1.0,
        f32::INFINITY, f32::NEG_INFINITY, f32::NAN, f32::MAX, f32::MIN_POSITIVE];
    for x in samples {
        assert_eq!(bits(x).is_non_negative(), x >= 0.0, "{}", x);
        assert_eq!(bits(x).is_in_unit_interval(), (0.0..=1.0).contains(&x), "{}", x);
    }
}

#[test]
fn shaping_follows_the_exponent() {
    let mut c = channel(0, 0, 1.0, 0.0, 1, [1.0, 1.0, 1.0]);
    assert_eq!(c.shaping(), Shaping::SquareRoot);
    c.exponent = 2;
    assert_eq!(c.shaping(), Shaping::Identity);
    c.exponent = 6;
    assert_eq!(c.shaping(), Shaping::Power(3));
    c.exponent = 4;
    assert_eq!(c.shaping(), Shaping::Power(2));
    c.exponent = 3;
    assert_eq!(c.shaping(), Shaping::RootPower(3));
    c.exponent = 255;
    assert_eq!(c.shaping(), Shaping::RootPower(255));
    c.exponent = 0;
    assert_eq!(c.shaping(), Shaping::Power(0));
}

#[test]
fn bins_are_the_inclusive_band() {
    assert_eq!(channel(1, 1, 1.0, 0.0, 1, [1.0; 3]).bins(), Some((1, 2)));
    assert_eq!(channel(23, 100, 1.0, 0.0, 1, [1.0; 3]).bins(), Some((23, 101)));
    assert_eq!(channel(0, 255, 1.0, 0.0, 1, [1.0; 3]).bins(), Some((0, 256)));
    assert_eq!(channel(0, 256, 1.0, 0.0, 1, [1.0; 3]).bins(), None);
    assert_eq!(channel(9, 8, 1.0, 0.0, 1, [1.0; 3]).bins(), None);
}

#[test]
fn fft_sizes_name_their_points() {
    assert_eq!(FFTSize::Size128.points(), 128);
    assert_eq!(FFTSize::Size256.points(), 256);
    assert_eq!(FFTSize::Size512.points(), 512);
}

#[test]
fn pattern_reports_its_channels() {
    let p = AppConfig::bars().pattern;
    assert_eq!(p.channel_count(), 8);
    assert_eq!(p.channel(2), channel(5, 7, 3.0, 0.01, 6, [1.0, 1.0, 0.0]));
    assert_eq!(AppConfig::stripes().pattern.channel_count(), 4);
    assert_eq!(ChannelConfig::new_filler(), channel(0, 0, 1.0, 0.0, 1, [1.0, 1.0, 1.0]));
    let _ = shaping_for;
}
