use witchfile::elapsed::{
    elapsed_seconds, humanize_elapsed, render_elapsed, ElapsedDisplay, TimeUnit,
};
use witchfile::size::{humanize_size, render_size, SizeDisplay, SizeUnit, GB, KB, MB, TB};

fn unit_rank(u: TimeUnit) -> u32 {
    match u {
        TimeUnit::Seconds => 0,
        TimeUnit::Minutes => 1,
        TimeUnit::Hours => 2,
        TimeUnit::Days => 3,
    }
}

#[test]
fn size_of_zero_is_zero_bytes() {
    let d = humanize_size(0);
    assert_eq!(d, SizeDisplay { tenths: 0, unit: SizeUnit::B });
    assert_eq!(render_size(&d), "0 B");
}

#[test]
fn size_below_one_kibibyte_stays_in_bytes() {
    let d = humanize_size(1023);
    assert_eq!(d, SizeDisplay { tenths: 10230, unit: SizeUnit::B });
    assert_eq!(render_size(&d), "1023 B");
}

#[test]
fn size_at_one_kibibyte_scales() {
    let d = humanize_size(1024);
    assert_eq!(d, SizeDisplay { tenths: 10, unit: SizeUnit::K });
    assert_eq!(render_size(&d), "1 K");
}

#[test]
fn size_with_a_half_step() {
    let d = humanize_size(1536);
    assert_eq!(d, SizeDisplay { tenths: 15, unit: SizeUnit::K });
    assert_eq!(render_size(&d), "1.5 K");
}

#[test]
fn size_at_one_tebibyte_scales() {
    let d = humanize_size(TB);
    assert_eq!(d, SizeDisplay { tenths: 10, unit: SizeUnit::T });
    assert_eq!(render_size(&d), "1 T");
}

#[test]
fn size_boundaries_belong_to_the_larger_unit() {
    assert_eq!(humanize_size(MB).unit, SizeUnit::M);
    assert_eq!(humanize_size(MB - 1).unit, SizeUnit::K);
    assert_eq!(humanize_size(GB).unit, SizeUnit::G);
    assert_eq!(humanize_size(GB - 1).unit, SizeUnit::M);
    assert_eq!(humanize_size(TB - 1).unit, SizeUnit::G);
    assert_eq!(humanize_size(KB - 1).unit, SizeUnit::B);
}

#[test]
fn size_rounds_half_away_from_zero() {
    // 1075.2 bytes per tenth of a K: 1587 bytes = 15.498... tenths -> 15
    assert_eq!(humanize_size(1587).tenths, 15);
    // 1588 bytes * 10 + 512 = 16392; 16392 / 1024 = 16.00... -> 16
    assert_eq!(humanize_size(1588).tenths, 16);
    // exactly half a tenth rounds up: 1.05 K = 1075.2 bytes, take 1076
    assert_eq!(humanize_size(1076).tenths, 11);
}

#[test]
fn elapsed_brackets() {
    assert_eq!(humanize_elapsed(0), ElapsedDisplay { amount: 0, unit: TimeUnit::Seconds });
    assert_eq!(humanize_elapsed(59), ElapsedDisplay { amount: 59, unit: TimeUnit::Seconds });
    assert_eq!(humanize_elapsed(60), ElapsedDisplay { amount: 1, unit: TimeUnit::Minutes });
    assert_eq!(humanize_elapsed(90), ElapsedDisplay { amount: 2, unit: TimeUnit::Minutes });
    assert_eq!(humanize_elapsed(3599), ElapsedDisplay { amount: 60, unit: TimeUnit::Minutes });
    assert_eq!(humanize_elapsed(3600), ElapsedDisplay { amount: 1, unit: TimeUnit::Hours });
    assert_eq!(humanize_elapsed(86399), ElapsedDisplay { amount: 24, unit: TimeUnit::Hours });
    assert_eq!(humanize_elapsed(86400), ElapsedDisplay { amount: 1, unit: TimeUnit::Days });
    assert_eq!(humanize_elapsed(129600), ElapsedDisplay { amount: 2, unit: TimeUnit::Days });
}

#[test]
fn elapsed_rendering() {
    assert_eq!(render_elapsed(&humanize_elapsed(45)), "45 sec(s) ago");
    assert_eq!(render_elapsed(&humanize_elapsed(90)), "2 min(s) ago");
    assert_eq!(render_elapsed(&humanize_elapsed(7200)), "2 hr(s) ago");
    assert_eq!(render_elapsed(&humanize_elapsed(259200)), "3 day(s) ago");
}

#[test]
fn elapsed_unit_is_monotonic() {
    let samples = [
        0u64, 1, 59, 60, 61, 3599, 3600, 3601, 86399, 86400, 100000, 10000000,
    ];
    for w in samples.windows(2) {
        let r1 = unit_rank(humanize_elapsed(w[0]).unit);
        let r2 = unit_rank(humanize_elapsed(w[1]).unit);
        assert!(r1 <= r2, "ranks at {} and {}", w[0], w[1]);
    }
}

#[test]
fn future_timestamps_count_as_zero() {
    assert_eq!(elapsed_seconds(100, 40), 0);
    assert_eq!(elapsed_seconds(40, 100), 60);
    assert_eq!(elapsed_seconds(7, 7), 0);
}
