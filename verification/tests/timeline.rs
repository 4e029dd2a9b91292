use video_exporter::timeline::{
    detect_timeline_duration, timeline_span, DetectedDuration, TimelineKind, TimelineSpan,
};

fn span(kind: TimelineKind, min: i64, max: i64) -> TimelineSpan {
    TimelineSpan { kind, min, max }
}

#[test]
fn no_timelines_no_duration() {
    assert_eq!(detect_timeline_duration(&vec![]), None);
}

#[test]
fn short_timelines_are_ignored() {
    // 3 steps at 30 per second is exactly a tenth of a second: not enough.
    let ts = vec![
        span(TimelineKind::Sequence, 10, 13),
        span(TimelineKind::DurationNs, 0, 100_000_000),
        span(TimelineKind::TimestampNs, 5, 5),
    ];
    assert_eq!(detect_timeline_duration(&ts), None);
}

#[test]
fn just_over_a_tenth_of_a_second_counts() {
    let ts = vec![span(TimelineKind::Sequence, 10, 14)];
    assert_eq!(
        detect_timeline_duration(&ts),
        Some(DetectedDuration { index: 0, kind: TimelineKind::Sequence, span: 4 })
    );
    let ts = vec![span(TimelineKind::TimestampNs, 0, 100_000_001)];
    assert_eq!(
        detect_timeline_duration(&ts),
        Some(DetectedDuration { index: 0, kind: TimelineKind::TimestampNs, span: 100_000_001 })
    );
}

#[test]
fn time_based_timelines_win_over_longer_sequences() {
    let ts = vec![
        span(TimelineKind::Sequence, 0, 1_000_000_000_000),
        span(TimelineKind::DurationNs, 0, 200_000_000),
    ];
    assert_eq!(
        detect_timeline_duration(&ts),
        Some(DetectedDuration { index: 1, kind: TimelineKind::DurationNs, span: 200_000_000 })
    );
}

#[test]
fn sequence_used_when_no_time_based_timeline_qualifies() {
    let ts = vec![
        span(TimelineKind::DurationNs, 0, 50),
        span(TimelineKind::Sequence, 0, 300),
        span(TimelineKind::Sequence, 0, 900),
    ];
    assert_eq!(
        detect_timeline_duration(&ts),
        Some(DetectedDuration { index: 2, kind: TimelineKind::Sequence, span: 900 })
    );
}

#[test]
fn longest_wins_and_first_of_equals() {
    let ts = vec![
        span(TimelineKind::TimestampNs, 0, 5_000_000_000),
        span(TimelineKind::DurationNs, 0, 9_000_000_000),
        span(TimelineKind::TimestampNs, 1_000_000_000, 10_000_000_000),
    ];
    assert_eq!(
        detect_timeline_duration(&ts),
        Some(DetectedDuration { index: 1, kind: TimelineKind::DurationNs, span: 9_000_000_000 })
    );
}

#[test]
fn span_is_the_distance_between_ends() {
    assert_eq!(timeline_span(&span(TimelineKind::Sequence, 20, 5)), 15);
    assert_eq!(timeline_span(&span(TimelineKind::Sequence, -5, 5)), 10);
    assert_eq!(timeline_span(&span(TimelineKind::TimestampNs, i64::MIN, i64::MAX)), u64::MAX);
}
