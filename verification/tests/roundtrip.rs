use witchfile::digits::{parse_dec_prefix, u64_to_dec};
use witchfile::size::{humanize_size, parse_size, render_size, SizeDisplay, SizeUnit, GB, TB};

#[test]
fn parse_recovers_rendered_sizes_exactly() {
    let displays = [
        SizeDisplay { tenths: 0, unit: SizeUnit::B },
        SizeDisplay { tenths: 10230, unit: SizeUnit::B },
        SizeDisplay { tenths: 10, unit: SizeUnit::K },
        SizeDisplay { tenths: 15, unit: SizeUnit::K },
        SizeDisplay { tenths: 10240, unit: SizeUnit::K },
        SizeDisplay { tenths: 99, unit: SizeUnit::M },
        SizeDisplay { tenths: 105, unit: SizeUnit::G },
        SizeDisplay { tenths: 184467, unit: SizeUnit::T },
    ];
    for d in displays {
        let shown = render_size(&d);
        assert_eq!(parse_size(shown.as_str()), Some(d), "display {shown}");
    }
}

#[test]
fn parse_recovers_every_humanized_sample() {
    let samples = [
        0u64,
        1,
        512,
        1023,
        1024,
        1536,
        1587,
        10 * 1024,
        1024 * 1024,
        5 * 1024 * 1024 + 7,
        GB,
        3 * GB + GB / 2,
        TB,
        u64::MAX,
    ];
    for bytes in samples {
        let d = humanize_size(bytes);
        let shown = render_size(&d);
        assert_eq!(parse_size(shown.as_str()), Some(d), "bytes {bytes}");
    }
}

#[test]
fn parse_rejects_malformed_displays() {
    for s in [
        "", "K", "1K", "12", "1.5K", "1..5 K", "1.55 K", "x K", "1 q", "1. K", ". K", " K",
        "1,5 K", "-1 K", "1.5 KB",
    ] {
        assert_eq!(parse_size(s), None, "input {s:?}");
    }
}

#[test]
fn parse_accepts_a_zero_fraction() {
    assert_eq!(parse_size("1.0 K"), Some(SizeDisplay { tenths: 10, unit: SizeUnit::K }));
    assert_eq!(parse_size("7 B"), Some(SizeDisplay { tenths: 70, unit: SizeUnit::B }));
}

#[test]
fn parse_rejects_values_past_the_tenths_range() {
    // u64::MAX is 18446744073709551615; tenths of that many units overflow
    assert_eq!(parse_size("18446744073709551615 T"), None);
    // the largest representable tenths value still parses
    assert_eq!(
        parse_size("1844674407370955161.5 T"),
        Some(SizeDisplay { tenths: u64::MAX, unit: SizeUnit::T })
    );
}

#[test]
fn decimal_rendering_and_reading() {
    assert_eq!(u64_to_dec(0), "0");
    assert_eq!(u64_to_dec(7), "7");
    assert_eq!(u64_to_dec(1234567890), "1234567890");
    assert_eq!(u64_to_dec(u64::MAX), "18446744073709551615");
    let s = "18446744073709551615";
    assert_eq!(parse_dec_prefix(s, s.len()), Some(u64::MAX));
    // one past the largest sixty-four-bit value is rejected
    let s = "18446744073709551616";
    assert_eq!(parse_dec_prefix(s, s.len()), None);
    assert_eq!(parse_dec_prefix("12a", 3), None);
    assert_eq!(parse_dec_prefix("12a", 2), Some(12));
}
