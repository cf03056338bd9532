use hextime::formatting::Color;
use hextime::seg::{Scheme, Segment};
use hextime::term::TermColor;
use hextime::HexTime;

fn spell(bytes: &[u8]) -> u32 {
    let mut value: u32 = 0;
    for byte in bytes {
        value = value * 256 + u32::from(*byte);
    }
    value
}

#[test]
fn bytes_come_most_significant_first() {
    assert_eq!(HexTime(0x0102_0304).bytes(), vec![0x01, 0x02, 0x03, 0x04]);
    assert_eq!(HexTime(0x1234_5678).bytes(), vec![0x12, 0x34, 0x56, 0x78]);
    assert_eq!(HexTime(0x6543_21fe).bytes(), vec![0x65, 0x43, 0x21, 0xfe]);
}

#[test]
fn bytes_of_the_epoch_are_zero() {
    assert_eq!(HexTime(0).bytes(), vec![0, 0, 0, 0]);
}

#[test]
fn bytes_of_the_last_second_are_all_ones() {
    assert_eq!(HexTime(0xFFFF_FFFF).bytes(), vec![0xFF, 0xFF, 0xFF, 0xFF]);
}

#[test]
fn bytes_of_single_set_bytes() {
    assert_eq!(HexTime(0xFF00_0000).bytes(), vec![0xFF, 0, 0, 0]);
    assert_eq!(HexTime(0x00FF_0000).bytes(), vec![0, 0xFF, 0, 0]);
    assert_eq!(HexTime(0x0000_FF00).bytes(), vec![0, 0, 0xFF, 0]);
    assert_eq!(HexTime(0x0000_00FF).bytes(), vec![0, 0, 0, 0xFF]);
    assert_eq!(HexTime(0x8000_0001).bytes(), vec![0x80, 0, 0, 0x01]);
}

#[test]
fn bytes_spell_the_time_again() {
    let times = [
        0u32,
        1,
        255,
        256,
        65_535,
        65_536,
        16_777_215,
        16_777_216,
        1_600_000_000,
        0x7FFF_FFFF,
        0x8000_0000,
        0xDEAD_BEEF,
        0xFFFF_FFFE,
        0xFFFF_FFFF,
    ];
    for time in times {
        let bytes = HexTime(time).bytes();
        assert_eq!(bytes.len(), 4);
        assert_eq!(spell(&bytes), time);
        assert_eq!(bytes, time.to_be_bytes().to_vec());
    }
}

#[test]
fn bytes_spell_every_time_of_a_sweep() {
    let mut time: u32 = 0;
    loop {
        assert_eq!(HexTime(time).bytes(), time.to_be_bytes().to_vec());
        match time.checked_add(0x0001_0203) {
            Some(next) => time = next,
            None => break,
        }
    }
}

#[test]
fn segmented_counts_offsets_down_to_the_seconds() {
    let segments = HexTime(0xA1B2_C3D4).segmented();
    assert_eq!(segments.len(), 4);
    let offsets: Vec<usize> = segments.iter().map(|pair| pair.0.offset()).collect();
    let bytes: Vec<u8> = segments.iter().map(|pair| pair.1).collect();
    assert_eq!(offsets, vec![3, 2, 1, 0]);
    assert_eq!(bytes, vec![0xA1, 0xB2, 0xC3, 0xD4]);
}

#[test]
fn segmented_keeps_the_bytes_of_bytes() {
    for time in [0u32, 59, 0x0000_0100, 1_700_000_000, 0xFFFF_FFFF] {
        let bytes: Vec<u8> = HexTime(time).segmented().iter().map(|pair| pair.1).collect();
        assert_eq!(bytes, HexTime(time).bytes());
    }
}

#[test]
fn segment_keeps_its_offset() {
    for offset in 0..8 {
        assert_eq!(Segment::new(offset).offset(), offset);
    }
}

#[test]
fn segment_colors_for_a_status_bar() {
    assert_eq!(Color::from(Segment::new(0)), Color::LightGray);
    assert_eq!(Color::from(Segment::new(1)), Color::Green);
    assert_eq!(Color::from(Segment::new(2)), Color::Gray);
    assert_eq!(Color::from(Segment::new(3)), Color::Gray);
    assert_eq!(Color::from(Segment::new(7)), Color::Gray);
}

#[test]
fn segment_colors_for_a_terminal() {
    assert_eq!(TermColor::from(Segment::new(0)), TermColor::White);
    assert_eq!(TermColor::from(Segment::new(1)), TermColor::Green);
    assert_eq!(TermColor::from(Segment::new(2)), TermColor::DarkGrey);
    assert_eq!(TermColor::from(Segment::new(3)), TermColor::DarkGrey);
    assert_eq!(TermColor::from(Segment::new(7)), TermColor::DarkGrey);
}

#[test]
fn four_tone_colors_by_position() {
    let colors: Vec<Option<Color>> = (0..4).map(|position| Scheme::FourTone.classify(position)).collect();
    assert_eq!(
        colors,
        vec![Some(Color::Gray), Some(Color::Gray), Some(Color::Green), Some(Color::LightGray)]
    );
}

#[test]
fn four_tone_colors_are_the_segment_colors() {
    let segments = HexTime(0).segmented();
    for position in 0..4 {
        assert_eq!(Scheme::FourTone.classify(position), Some(Color::from(segments[position].0)));
    }
}

#[test]
fn two_tone_colors_by_position() {
    assert_eq!(Scheme::TwoTone.classify(0), None);
    assert_eq!(Scheme::TwoTone.classify(1), None);
    assert_eq!(Scheme::TwoTone.classify(2), Some(Color::Cyan));
    assert_eq!(Scheme::TwoTone.classify(3), Some(Color::LightGray));
}

#[test]
fn no_color_past_the_fourth_byte() {
    assert_eq!(Scheme::FourTone.classify(4), None);
    assert_eq!(Scheme::TwoTone.classify(4), None);
    assert_eq!(Scheme::FourTone.classify(usize::MAX), None);
    assert_eq!(Scheme::TwoTone.classify(usize::MAX), None);
}
