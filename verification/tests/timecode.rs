use musicbrainz_cuesheet::text::{digit_str, push_decimal, push_signed_decimal, push_two_digits};
use musicbrainz_cuesheet::timecode::{millisecond_to_mmssff, to_timecode};

fn fields(timecode: &str) -> (u128, u128, u128) {
    let parts: Vec<&str> = timecode.split(':').collect();
    assert_eq!(parts.len(), 3, "{}", timecode);
    assert!(parts[0].len() >= 2, "{}", timecode);
    assert_eq!(parts[1].len(), 2, "{}", timecode);
    assert_eq!(parts[2].len(), 2, "{}", timecode);
    for part in &parts {
        assert!(part.chars().all(|c| c.is_ascii_digit()), "{}", timecode);
    }
    (parts[0].parse().unwrap(), parts[1].parse().unwrap(), parts[2].parse().unwrap())
}

#[test]
fn zero_is_all_zeros() {
    assert_eq!(millisecond_to_mmssff(0), "00:00:00");
    assert_eq!(to_timecode(0), "00:00:00");
}

#[test]
fn a_rounded_up_last_frame_carries_into_the_second() {
    assert_eq!(millisecond_to_mmssff(999), "00:01:00");
    assert_eq!(millisecond_to_mmssff(993), "00:00:74");
    assert_eq!(millisecond_to_mmssff(994), "00:01:00");
}

#[test]
fn one_minute() {
    assert_eq!(millisecond_to_mmssff(60000), "01:00:00");
}

#[test]
fn a_carry_in_the_last_second_reaches_the_minute() {
    assert_eq!(millisecond_to_mmssff(59999), "01:00:00");
    assert_eq!(millisecond_to_mmssff(59000), "00:59:00");
    assert_eq!(millisecond_to_mmssff(3599999), "60:00:00");
}

#[test]
fn frames_round_to_the_nearest_with_halves_up() {
    assert_eq!(millisecond_to_mmssff(6), "00:00:00");
    assert_eq!(millisecond_to_mmssff(7), "00:00:01");
    assert_eq!(millisecond_to_mmssff(13), "00:00:01");
    assert_eq!(millisecond_to_mmssff(20), "00:00:02");
    assert_eq!(millisecond_to_mmssff(500), "00:00:38");
    assert_eq!(millisecond_to_mmssff(1500), "00:01:38");
    assert_eq!(millisecond_to_mmssff(180000), "03:00:00");
    assert_eq!(millisecond_to_mmssff(380000), "06:20:00");
    assert_eq!(millisecond_to_mmssff(754321), "12:34:24");
}

#[test]
fn minutes_are_not_cut_to_two_digits() {
    assert_eq!(millisecond_to_mmssff(5_999_000), "99:59:00");
    assert_eq!(millisecond_to_mmssff(6_000_000), "100:00:00");
    assert_eq!(millisecond_to_mmssff(u32::MAX), "71582:47:22");
    assert_eq!(to_timecode(60_000_000_000), "1000000:00:00");
    assert_eq!(
        to_timecode(u128::MAX),
        "5671372782015641057722910123862803:31:34"
    );
}

#[test]
fn every_timecode_has_the_pattern() {
    let mut ms: u32 = 0;
    while ms < 4_000_000 {
        let (minutes, seconds, frames) = fields(&millisecond_to_mmssff(ms));
        assert!(seconds < 60);
        assert!(frames < 75);
        let total = (minutes * 60 + seconds) * 75 + frames;
        assert_eq!(total, (ms as u128 * 75 + 500) / 1000);
        ms += 37;
    }
    for ms in [u32::MAX, u32::MAX - 1, 59_999, 3_599_999, 1_000_000_007] {
        let (_, seconds, frames) = fields(&millisecond_to_mmssff(ms));
        assert!(seconds < 60);
        assert!(frames < 75);
    }
}

#[test]
fn frames_agree_with_floating_point_rounding() {
    let ms_per_frame: f64 = 1000.0 / 75.0;
    for ms in 0u32..1000 {
        let rounded = ((ms as f64) / ms_per_frame).round() as u128;
        let (minutes, seconds, frames) = fields(&millisecond_to_mmssff(ms));
        assert_eq!(minutes, 0);
        if rounded < 75 {
            assert_eq!((seconds, frames), (0, rounded), "{}", ms);
        } else {
            assert_eq!((seconds, frames), (1, 0), "{}", ms);
        }
    }
}

#[test]
fn both_entry_points_agree() {
    for ms in [0u32, 1, 74, 75, 999, 1000, 59_999, 60_000, 123_456_789, u32::MAX] {
        assert_eq!(millisecond_to_mmssff(ms), to_timecode(ms as u128));
    }
}

#[test]
fn decimal_numerals() {
    let mut out = String::from("n=");
    push_decimal(&mut out, 0);
    out.push(',');
    push_decimal(&mut out, 9);
    out.push(',');
    push_decimal(&mut out, 10);
    out.push(',');
    push_decimal(&mut out, 1_234_567_890);
    out.push(',');
    push_decimal(&mut out, u128::MAX);
    assert_eq!(out, "n=0,9,10,1234567890,340282366920938463463374607431768211455");
}

#[test]
fn two_digit_numerals_pad_and_never_cut() {
    let mut out = String::new();
    for n in [0u128, 5, 9, 10, 42, 99, 100, 12345] {
        push_two_digits(&mut out, n);
        out.push(' ');
    }
    assert_eq!(out, "00 05 09 10 42 99 100 12345 ");
}

#[test]
fn signed_numerals() {
    let mut out = String::new();
    for n in [0i64, 7, -7, 2024, -262143, i64::MAX, i64::MIN] {
        push_signed_decimal(&mut out, n);
        out.push(' ');
    }
    assert_eq!(out, "0 7 -7 2024 -262143 9223372036854775807 -9223372036854775808 ");
}

#[test]
fn digit_texts() {
    let digits: Vec<&str> = (0u8..10).map(digit_str).collect();
    assert_eq!(digits.concat(), "0123456789");
}
