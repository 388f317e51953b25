use diskomator::config::{AppConfig, ChannelConfig, NeopixelMatrixPattern};
use diskomator::convert::{convert_pattern_if_needed, convert_to_bars, convert_to_quarters, convert_to_stripes};

#[test]
fn same_pattern_is_left_alone() {
    for (mut c, idx) in [(AppConfig::stripes(), 0), (AppConfig::bars(), 1), (AppConfig::quarters(), 2)] {
        let before = c;
        convert_pattern_if_needed(&mut c, idx);
        assert_eq!(c, before);
    }
}

#[test]
fn unknown_index_is_left_alone() {
    let mut c = AppConfig::bars();
    convert_pattern_if_needed(&mut c, 3);
    assert_eq!(c, AppConfig::bars());
    convert_pattern_if_needed(&mut c, usize::MAX);
    assert_eq!(c, AppConfig::bars());
}

#[test]
fn growing_pads_with_the_filler() {
    let mut c = AppConfig::stripes();
    let old = match c.pattern {
        NeopixelMatrixPattern::Stripes(ch) => ch,
        _ => panic!("stripes expected"),
    };
    convert_pattern_if_needed(&mut c, 1);
    match c.pattern {
        NeopixelMatrixPattern::Bars(ch) => {
            assert_eq!(&ch[..4], &old[..]);
            for i in 4..8 {
                assert_eq!(ch[i], ChannelConfig::new_filler());
            }
        }
        _ => panic!("bars expected"),
    }
    assert_eq!(c.sample_count, 256);
    assert!(c.is_valid());
}

#[test]
fn shrinking_keeps_the_leading_channels() {
    let mut c = AppConfig::bars2();
    let old = match c.pattern {
        NeopixelMatrixPattern::Bars(ch) => ch,
        _ => panic!("bars expected"),
    };
    convert_pattern_if_needed(&mut c, 2);
    match c.pattern {
        NeopixelMatrixPattern::Quarters(ch) => assert_eq!(&ch[..], &old[..4]),
        _ => panic!("quarters expected"),
    }
    convert_pattern_if_needed(&mut c, 0);
    match c.pattern {
        NeopixelMatrixPattern::Stripes(ch) => assert_eq!(&ch[..], &old[..4]),
        _ => panic!("stripes expected"),
    }
}

#[test]
fn conversions_copy_by_position() {
    let bars = AppConfig::bars().pattern;
    let stripes = AppConfig::stripes().pattern;
    assert_eq!(convert_to_stripes(&bars)[3], bars.channel(3));
    assert_eq!(convert_to_quarters(&bars)[0], bars.channel(0));
    assert_eq!(convert_to_bars(&bars)[7], bars.channel(7));
    assert_eq!(convert_to_bars(&stripes)[3], stripes.channel(3));
    assert_eq!(convert_to_bars(&stripes)[4], ChannelConfig::new_filler());
    assert_eq!(convert_to_stripes(&stripes)[2], stripes.channel(2));
}
