use vstd::prelude::*;

verus! {

/// How a timeline counts time.
#[derive(Clone, Copy, Debug, PartialEq, Eq, Structural)]
pub enum TimelineKind {
    /// Frame or sequence numbers; taken to run at 30 per second.
    Sequence,
    /// Durations in nanoseconds.
    DurationNs,
    /// Timestamps in nanoseconds.
    TimestampNs,
}

/// The range of times that a timeline of a recording covers.
#[derive(Clone, Copy, Debug, PartialEq, Eq, Structural)]
pub struct TimelineSpan {
    pub kind: TimelineKind,
    pub min: i64,
    pub max: i64,
}

/// The timeline whose length sets the length of the video.
#[derive(Clone, Copy, Debug, PartialEq, Eq, Structural)]
pub struct DetectedDuration {
    /// Its position in the list that was searched.
    pub index: usize,
    /// How it counts time.
    pub kind: TimelineKind,
    /// Its length, in its own unit (sequence steps or nanoseconds).
    pub span: u64,
}

/// Nanosecond timelines measure real time; sequence timelines do not.
pub open spec fn is_time_based(kind: TimelineKind) -> bool {
    kind != TimelineKind::Sequence
}

/// The length of a timeline in its own unit.
pub open spec fn span_of(t: TimelineSpan) -> int {
    if t.max >= t.min {
        t.max - t.min
    } else {
        t.min - t.max
    }
}

/// The length, in the timeline's unit, that must be exceeded for a timeline to
/// last more than a tenth of a second: 3 steps at 30 per second, or 10^8 ns.
pub open spec fn min_span(kind: TimelineKind) -> int {
    if is_time_based(kind) {
        100_000_000
    } else {
        3
    }
}

/// The timeline lasts more than a tenth of a second and is in the group
/// `time_based` (nanosecond timelines) or `!time_based` (sequence timelines).
pub open spec fn in_group(t: TimelineSpan, time_based: bool) -> bool {
    &&& span_of(t) > min_span(t.kind)
    &&& is_time_based(t.kind) == time_based
}

/// Among the first `n` timelines, `i` is the longest of its group, and the
/// first of those that long.
pub open spec fn longest_in_prefix(ts: Seq<TimelineSpan>, n: int, i: int, time_based: bool) -> bool {
    &&& 0 <= i < n <= ts.len()
    &&& in_group(ts[i], time_based)
    &&& forall|j: int|
        0 <= j < n && #[trigger] in_group(ts[j], time_based) ==> span_of(ts[j]) <= span_of(ts[i])
    &&& forall|j: int| 0 <= j < i && #[trigger] in_group(ts[j], time_based) ==> span_of(ts[j]) < span_of(ts[i])
}

/// Some timeline of the group lasts more than a tenth of a second.
pub open spec fn group_nonempty(ts: Seq<TimelineSpan>, time_based: bool) -> bool {
    exists|j: int| 0 <= j < ts.len() && #[trigger] in_group(ts[j], time_based)
}

/// The timeline that sets the video's length: the longest nanosecond timeline
/// if one lasts more than a tenth of a second, else the longest such sequence
/// timeline; the first of equally long ones.
pub open spec fn is_detected(ts: Seq<TimelineSpan>, i: int) -> bool {
    longest_in_prefix(ts, ts.len() as int, i, group_nonempty(ts, true))
}

/// DurationNs and TimestampNs timelines count nanoseconds and must exceed 10^8
/// of them (a tenth of a second); Sequence timelines count steps at 30 per
/// second and must exceed 3 of them.
pub proof fn lemma_kind_units(kind: TimelineKind)
    ensures
        is_time_based(kind) <==> (kind == TimelineKind::DurationNs || kind
            == TimelineKind::TimestampNs),
        min_span(kind) == (if kind == TimelineKind::Sequence {
            3int
        } else {
            100_000_000int
        }),
{
}

/// At most one timeline is the detected one: the choice is fully determined
/// by the list of timelines.
pub proof fn lemma_detected_is_unique(ts: Seq<TimelineSpan>, i: int, j: int)
    requires
        is_detected(ts, i),
        is_detected(ts, j),
    ensures
        i == j,
{
    let g = group_nonempty(ts, true);
    if i < j {
        assert(in_group(ts[i], g));
    } else if j < i {
        assert(in_group(ts[j], g));
    }
}

/// Nanosecond timelines win: when any nanosecond timeline lasts more than a
/// tenth of a second, the detected timeline is a nanosecond timeline, and a
/// sequence timeline is detected only when none does.
pub proof fn lemma_time_based_preferred(ts: Seq<TimelineSpan>, i: int)
    requires
        is_detected(ts, i),
    ensures
        is_time_based(ts[i].kind) <==> group_nonempty(ts, true),
{
}

/// What the detected timeline is, stated by the kinds and limits themselves.
proof fn lemma_detected_by_kind(ts: Seq<TimelineSpan>, i: int)
    requires
        is_detected(ts, i),
    ensures
        0 <= i < ts.len(),
        (ts[i].kind == TimelineKind::DurationNs || ts[i].kind == TimelineKind::TimestampNs)
            ==> span_of(ts[i]) > 100_000_000,
        ts[i].kind == TimelineKind::Sequence ==> span_of(ts[i]) > 3,
        ts[i].kind != TimelineKind::Sequence ==> forall|j: int|
            0 <= j < ts.len() && #[trigger] ts[j].kind != TimelineKind::Sequence && span_of(ts[j])
                > 100_000_000 ==> span_of(ts[j]) <= span_of(ts[i]),
        ts[i].kind == TimelineKind::Sequence ==> forall|j: int|
            0 <= j < ts.len() ==> {
                &&& #[trigger] ts[j].kind != TimelineKind::Sequence ==> span_of(ts[j]) <= 100_000_000
                &&& ts[j].kind == TimelineKind::Sequence && span_of(ts[j]) > 3 ==> span_of(ts[j])
                    <= span_of(ts[i])
            },
        forall|j: int|
            0 <= j < i && (#[trigger] ts[j].kind != TimelineKind::Sequence) == (ts[i].kind
                != TimelineKind::Sequence) && span_of(ts[j]) > (if ts[j].kind
                == TimelineKind::Sequence {
                3int
            } else {
                100_000_000int
            }) ==> span_of(ts[j]) < span_of(ts[i]),
{
    let g = group_nonempty(ts, true);
    assert(in_group(ts[i], g));
    if ts[i].kind != TimelineKind::Sequence {
        assert forall|j: int|
            0 <= j < ts.len() && #[trigger] ts[j].kind != TimelineKind::Sequence && span_of(ts[j])
                > 100_000_000 implies span_of(ts[j]) <= span_of(ts[i]) by {
            assert(in_group(ts[j], g));
        }
    } else {
        assert forall|j: int| 0 <= j < ts.len() implies {
            &&& #[trigger] ts[j].kind != TimelineKind::Sequence ==> span_of(ts[j]) <= 100_000_000
            &&& ts[j].kind == TimelineKind::Sequence && span_of(ts[j]) > 3 ==> span_of(ts[j])
                <= span_of(ts[i])
        } by {
            if ts[j].kind != TimelineKind::Sequence && span_of(ts[j]) > 100_000_000 {
                assert(in_group(ts[j], true));
            }
            if ts[j].kind == TimelineKind::Sequence && span_of(ts[j]) > 3 {
                assert(in_group(ts[j], g));
            }
        }
    }
    assert forall|j: int|
        0 <= j < i && (#[trigger] ts[j].kind != TimelineKind::Sequence) == (ts[i].kind
            != TimelineKind::Sequence) && span_of(ts[j]) > (if ts[j].kind
            == TimelineKind::Sequence {
            3int
        } else {
            100_000_000int
        }) implies span_of(ts[j]) < span_of(ts[i]) by {
        assert(in_group(ts[j], g));
    }
}

/// When nothing is detected, every timeline lasts a tenth of a second or less.
proof fn lemma_nothing_detected_by_kind(ts: Seq<TimelineSpan>)
    requires
        !group_nonempty(ts, true),
        !group_nonempty(ts, false),
    ensures
        forall|j: int|
            0 <= j < ts.len() ==> if #[trigger] ts[j].kind == TimelineKind::Sequence {
                span_of(ts[j]) <= 3
            } else {
                span_of(ts[j]) <= 100_000_000
            },
{
    assert forall|j: int| 0 <= j < ts.len() implies if #[trigger] ts[j].kind
        == TimelineKind::Sequence {
        span_of(ts[j]) <= 3
    } else {
        span_of(ts[j]) <= 100_000_000
    } by {
        assert(!in_group(ts[j], true));
        assert(!in_group(ts[j], false));
    }
}

/// The length of a timeline in its own unit.
pub fn timeline_span(t: &TimelineSpan) -> (r: u64)
    ensures
        r == span_of(*t),
        // The distance between the two ends, whichever is larger.
        r == t.max - t.min || r == t.min - t.max,
        t.max - t.min <= r && t.min - t.max <= r,
{
    if t.max >= t.min {
        (t.max as i128 - t.min as i128) as u64
    } else {
        (t.min as i128 - t.max as i128) as u64
    }
}

/// Picks the timeline whose length sets the length of the video, when no
/// duration was configured: timelines that last a tenth of a second or less
/// are ignored, nanosecond timelines are preferred over sequence timelines,
/// and within a group the longest wins, the first of equally long ones.
/// `None` when no timeline lasts more than a tenth of a second.
pub fn detect_timeline_duration(timelines: &Vec<TimelineSpan>) -> (r: Option<DetectedDuration>)
    ensures
        match r {
            None => !group_nonempty(timelines@, true) && !group_nonempty(timelines@, false),
            Some(d) => {
                &&& is_detected(timelines@, d.index as int)
                &&& d.kind == timelines@[d.index as int].kind
                &&& d.span == span_of(timelines@[d.index as int])
            },
        },
        // The same, stated by the kinds and the tenth-of-a-second limits themselves:
        // DurationNs and TimestampNs timelines count nanoseconds (more than 10^8 of
        // them is more than a tenth of a second), Sequence timelines count steps at
        // 30 per second (more than 3 of them).
        r matches Some(d) ==> {
            let t = timelines@[d.index as int];
            &&& d.index < timelines@.len()
            &&& d.kind == t.kind
            &&& d.span == t.max - t.min || d.span == t.min - t.max
            &&& t.max - t.min <= d.span && t.min - t.max <= d.span
            &&& (d.kind == TimelineKind::DurationNs || d.kind == TimelineKind::TimestampNs)
                ==> d.span > 100_000_000
            &&& d.kind == TimelineKind::Sequence ==> d.span > 3
        },
        // Nanosecond timelines win over sequence timelines, and the longest one
        // of the winning kind is taken.
        r matches Some(d) ==> d.kind != TimelineKind::Sequence ==> forall|j: int|
            0 <= j < timelines@.len() && #[trigger] timelines@[j].kind != TimelineKind::Sequence && (
            timelines@[j].max - timelines@[j].min > 100_000_000 || timelines@[j].min
                - timelines@[j].max > 100_000_000) ==> timelines@[j].max - timelines@[j].min
                <= d.span && timelines@[j].min - timelines@[j].max <= d.span,
        r matches Some(d) ==> d.kind == TimelineKind::Sequence ==> forall|j: int|
            0 <= j < timelines@.len() ==> {
                &&& #[trigger] timelines@[j].kind != TimelineKind::Sequence ==> timelines@[j].max
                    - timelines@[j].min <= 100_000_000 && timelines@[j].min - timelines@[j].max
                    <= 100_000_000
                &&& timelines@[j].kind == TimelineKind::Sequence && (timelines@[j].max
                    - timelines@[j].min > 3 || timelines@[j].min - timelines@[j].max > 3)
                    ==> timelines@[j].max - timelines@[j].min <= d.span && timelines@[j].min
                    - timelines@[j].max <= d.span
            },
        // Of equally long timelines of the winning kind, the first is taken.
        r matches Some(d) ==> forall|j: int|
            0 <= j < d.index && (#[trigger] timelines@[j].kind != TimelineKind::Sequence) == (d.kind
                != TimelineKind::Sequence) && (if timelines@[j].kind == TimelineKind::Sequence {
                timelines@[j].max - timelines@[j].min > 3 || timelines@[j].min - timelines@[j].max
                    > 3
            } else {
                timelines@[j].max - timelines@[j].min > 100_000_000 || timelines@[j].min
                    - timelines@[j].max > 100_000_000
            }) ==> timelines@[j].max - timelines@[j].min < d.span && timelines@[j].min
                - timelines@[j].max < d.span,
        // Nothing is detected only when every timeline lasts a tenth of a second or less.
        r is None ==> forall|j: int|
            0 <= j < timelines@.len() ==> if #[trigger] timelines@[j].kind
                == TimelineKind::Sequence {
                timelines@[j].max - timelines@[j].min <= 3 && timelines@[j].min - timelines@[j].max
                    <= 3
            } else {
                timelines@[j].max - timelines@[j].min <= 100_000_000 && timelines@[j].min
                    - timelines@[j].max <= 100_000_000
            },
{
    let ghost ts = timelines@;
    let n = timelines.len();
    let mut best_time: Option<usize> = None;
    let mut best_time_span: u64 = 0;
    let mut best_seq: Option<usize> = None;
    let mut best_seq_span: u64 = 0;
    let mut i: usize = 0;
    while i < n
        invariant
            i <= n == ts.len(),
            ts == timelines@,
            match best_time {
                None => forall|j: int| 0 <= j < i ==> !#[trigger] in_group(ts[j], true),
                Some(k) => longest_in_prefix(ts, i as int, k as int, true) && best_time_span
                    == span_of(ts[k as int]),
            },
            match best_seq {
                None => forall|j: int| 0 <= j < i ==> !#[trigger] in_group(ts[j], false),
                Some(k) => longest_in_prefix(ts, i as int, k as int, false) && best_seq_span
                    == span_of(ts[k as int]),
            },
        decreases n - i,
    {
        let t = timelines[i];
        let span = timeline_span(&t);
        let time_based = match t.kind {
            TimelineKind::Sequence => false,
            _ => true,
        };
        if time_based {
            if span > 100_000_000 {
                if best_time.is_none() || span > best_time_span {
                    best_time = Some(i);
                    best_time_span = span;
                }
            }
        } else {
            if span > 3 {
                if best_seq.is_none() || span > best_seq_span {
                    best_seq = Some(i);
                    best_seq_span = span;
                }
            }
        }
        i = i + 1;
    }
    match best_time {
        Some(k) => {
            assert(in_group(ts[k as int], true));
            proof { lemma_detected_by_kind(ts, k as int); }
            Some(DetectedDuration { index: k, kind: timelines[k].kind, span: best_time_span })
        },
        None => {
            match best_seq {
                Some(k) => {
                    assert(in_group(ts[k as int], false));
                    proof { lemma_detected_by_kind(ts, k as int); }
                    Some(DetectedDuration { index: k, kind: timelines[k].kind, span: best_seq_span })
                },
                None => {
                    proof { lemma_nothing_detected_by_kind(ts); }
                    None
                },
            }
        },
    }
}

} // verus!
