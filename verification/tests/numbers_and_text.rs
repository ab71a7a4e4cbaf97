use cinematic::commands::DEFAULT_THUMBNAIL_SECS;
use cinematic::double::Double;
use cinematic::player::controls::MAX_VOLUME;
use cinematic::player::controls::MIN_SPEED;
use cinematic::progress::is_resumable;
use cinematic::progress::persist_snapshot;
use cinematic::progress::progress_update;
use cinematic::progress::resume_position_for;
use cinematic::progress::should_mark_watched;
use cinematic::progress::WatchMarks;
use cinematic::progress::MIN_RESUME_SECS;
use cinematic::models::PlayerStateSnapshot;
use cinematic::text::has_member;
use cinematic::text::has_prefix;
use cinematic::text::has_text;
use cinematic::text::print_decimal;
use cinematic::text::print_signed;
use cinematic::text::split_once;
use cinematic::text::split_pieces;
use cinematic::text::trim;
use cinematic::wrapping::to_low_half;
use cinematic::wrapping::to_signed;

fn d(x: f64) -> Double {
    Double { bits: x.to_bits() }
}

fn samples() -> Vec<f64> {
    vec![
        0.0,
        -0.0,
        1.0,
        -1.0,
        4.999,
        5.0,
        5.001,
        99.5,
        100.0,
        1e300,
        -1e300,
        f64::MIN_POSITIVE,
        5e-324,
        f64::INFINITY,
        f64::NEG_INFINITY,
        f64::NAN,
    ]
}

#[test]
fn constants_are_the_numbers_they_stand_for() {
    assert_eq!(MIN_RESUME_SECS, 5.0f64.to_bits());
    assert_eq!(MIN_SPEED, 0.1f64.to_bits());
    assert_eq!(MAX_VOLUME, 100.0f64.to_bits());
    assert_eq!(DEFAULT_THUMBNAIL_SECS, 5.0f64.to_bits());
}

#[test]
fn doubles_compare_as_the_machine_does() {
    for a in samples() {
        for b in samples() {
            assert_eq!(d(a).gt(d(b)), a > b, "{a} > {b}");
            assert_eq!(d(a).ge(d(b)), a >= b, "{a} >= {b}");
            let max = f64::from_bits(d(a).max(d(b)).bits);
            assert!(max == a.max(b) || (max.is_nan() && a.max(b).is_nan()));
            let min = f64::from_bits(d(a).min(d(b)).bits);
            assert!(min == a.min(b) || (min.is_nan() && a.min(b).is_nan()));
        }
        assert_eq!(d(a).nan(), a.is_nan());
        let clamped = f64::from_bits(d(a).clamp(d(0.0), d(100.0)).bits);
        let expected = a.clamp(0.0, 100.0);
        assert!(clamped == expected || (clamped.is_nan() && expected.is_nan()));
    }
}

#[test]
fn doubles_are_floored_as_the_machine_does() {
    for a in [0.0, 0.5, 0.999, 1.0, 1.5, 4095.75, 5.0, 1e15, 4503599627370497.5, 1e18, 9.3e18, 1e300, f64::INFINITY] {
        assert_eq!(d(a).floor_to_i64(), a.floor() as i64, "{a}");
    }
    assert_eq!(d(f64::from_bits(1)).floor_to_i64(), 0);
}

#[test]
fn negative_positions_become_the_start() {
    assert_eq!(d(-3.5).at_least_zero(), d(0.0));
    assert_eq!(d(f64::NAN).at_least_zero(), d(0.0));
    assert_eq!(d(3.5).at_least_zero(), d(3.5));
    assert_eq!(resume_position_for(None), d(0.0));
    assert_eq!(resume_position_for(Some(d(-1.0))), d(0.0));
    assert_eq!(resume_position_for(Some(d(42.25))), d(42.25));
    assert!(!is_resumable(d(4.999)));
    assert!(is_resumable(d(5.0)));
    assert!(!is_resumable(d(f64::NAN)));
}

fn marks(length: f64) -> Option<WatchMarks> {
    Some(WatchMarks {
        length_secs: d(length),
        grace_mark_secs: d(length - 15.0),
        ratio_mark_secs: d(length * 0.98),
    })
}

#[test]
fn a_video_counts_as_watched_near_its_end() {
    // Short: the ratio decides; long: the grace time does.
    assert!(!should_mark_watched(d(97.9), marks(100.0)));
    assert!(should_mark_watched(d(98.0), marks(100.0)));
    assert!(!should_mark_watched(d(3584.0), marks(3600.0)));
    assert!(should_mark_watched(d(3585.0), marks(3600.0)));
    assert!(!should_mark_watched(d(10.0), None));
    assert!(!should_mark_watched(d(10.0), marks(0.0)));
    assert!(!should_mark_watched(d(10.0), marks(-5.0)));
    assert!(!should_mark_watched(d(f64::NAN), marks(100.0)));
    assert!(should_mark_watched(d(1.0), marks(1.0)));
}

#[test]
fn progress_is_kept_or_reset() {
    assert!(progress_update("v", d(4.0), false).is_none());
    let kept = progress_update("v", d(40.0), false).unwrap();
    assert_eq!(kept.video_id, "v");
    assert_eq!(kept.progress_secs, d(40.0));
    assert!(!kept.mark_watched);
    let reset = progress_update("v", d(4.0), true).unwrap();
    assert_eq!(reset.progress_secs, d(0.0));
    assert!(reset.mark_watched);
    assert_eq!(reset.clone().video_id, "v");
}

#[test]
fn a_state_without_a_video_keeps_nothing() {
    let mut snapshot = PlayerStateSnapshot::default();
    snapshot.position_secs = d(60.0);
    assert!(persist_snapshot(&snapshot, None).is_none());
    snapshot.video_id = Some("v".to_string());
    assert_eq!(persist_snapshot(&snapshot, None).unwrap().progress_secs, d(60.0));
    assert!(persist_snapshot(&snapshot, marks(60.5)).unwrap().mark_watched);
}

#[test]
fn numbers_are_printed_in_decimal() {
    for n in [0, 1, 9, 10, 11, 99, 100, 65535, u64::MAX] {
        assert_eq!(print_decimal(n), n.to_string());
    }
    for n in [0, -1, 7, -10, i64::MAX, i64::MIN] {
        assert_eq!(print_signed(n), n.to_string());
    }
}

#[test]
fn numbers_wrap_as_casts_do() {
    for n in [0u64, 1, i64::MAX as u64, i64::MAX as u64 + 1, u64::MAX, u64::MAX - 41] {
        assert_eq!(to_signed(n), n as i64);
    }
    for n in [0i64, -1, 1, i32::MAX as i64, i32::MAX as i64 + 1, i32::MIN as i64 - 1, i64::MIN, i64::MAX, 0x1_2345_6789] {
        assert_eq!(to_low_half(n), n as i32);
    }
}

#[test]
fn text_is_taken_apart_as_std_does() {
    for s in ["", "  a b \r\n", "\u{a0}x\u{2003}", "\u{85}\u{3000}", "plain", "\u{200b}x"] {
        assert_eq!(trim(s), s.trim());
    }
    for (s, part) in [("abcabc", "bc"), ("abc", "x"), ("", ""), ("aab", "ab"), ("é=ü", "=")] {
        assert_eq!(has_text(s, part), s.contains(part));
        assert_eq!(has_prefix(s, part), s.starts_with(part));
        assert_eq!(
            split_once(s, part),
            s.split_once(part).map(|(a, b)| (a.to_string(), b.to_string()))
        );
    }
    let expected: Vec<String> = "a\nb\n\nc".split('\n').map(|p| p.to_string()).collect();
    assert_eq!(split_pieces("a\nb\n\nc", '\n'), expected);
    let list = vec!["x".to_string(), "yz".to_string()];
    assert!(has_member(&list, "yz"));
    assert!(!has_member(&list, "y"));
}
