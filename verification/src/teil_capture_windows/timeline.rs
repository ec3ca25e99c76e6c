//! The timeline of a whole recording: what its video shows of the time between its start and
//! its end, however often it was paused in between.

use vstd::math::max;
use vstd::prelude::*;

use super::recorder::{
    law_recorded_dimensions_are_even, law_recordings_start_in_order, limited, resolved, status_of,
    video_duration, EncoderPlan, RecOptions, RecReason, RecState, Selection, Shared, Target,
};
use crate::mode::CaptureMode;

verus! {

/// What happens to a recording while it runs.
pub ghost enum Event {
    /// A frame with this timestamp arrives, of this size, and is written where it is wanted.
    Frame { ts: i64, width: u32, height: u32 },
    /// The user pauses.
    Pause { now: u64 },
    /// The user resumes.
    Resume { now: u64 },
}

/// A frame that was written.
pub ghost struct SentFrame {
    /// The timestamp that it arrived with.
    pub raw: int,
    /// The timestamp that it was written with.
    pub out: int,
    /// The time spent paused until then, in units of timestamps.
    pub paused: int,
}

/// A recording, with the frames that were written so far and the number of pauses that are
/// over.
pub ghost struct Session {
    pub shared: Shared,
    pub sent: Seq<SentFrame>,
    pub pauses: nat,
}

impl Session {
    /// A recording of `target` that starts at `now`.
    pub open spec fn started(target: Target, opts: RecOptions, now: u64) -> Session {
        Session { shared: Shared::planned(target, opts, now), sent: Seq::empty(), pauses: 0 }
    }

    /// Whether a frame that arrives is written: it is taken, and gets a timestamp.
    pub open spec fn is_written(self, ts: i64, width: u32, height: u32) -> bool {
        &&& self.shared.frame_step(Some(ts), width, height) is Take
        &&& self.shared.start_ts(ts) == ts || self.shared.last_out_ts < self.shared.out_ts(ts)
    }

    /// Whether an event can happen: a frame's distance to the first one can be held, with
    /// and without pauses, and clock readings are in order.
    pub open spec fn admits(self, event: Event) -> bool {
        match event {
            Event::Frame { ts, .. } => {
                &&& i64::MIN < ts
                &&& i64::MIN <= ts - self.shared.start_ts(ts) <= i64::MAX
                &&& i64::MIN <= self.shared.out_ts(ts) <= i64::MAX
            },
            Event::Pause { now } => self.shared.wf(now),
            Event::Resume { now } => self.shared.wf(now),
        }
    }

    /// The recording after an event.
    pub open spec fn after(self, event: Event) -> Session {
        match event {
            Event::Frame { ts, width, height } => if self.is_written(ts, width, height) {
                Session {
                    shared: self.shared.written(ts),
                    sent: self.sent.push(
                        SentFrame {
                            raw: ts as int,
                            out: self.shared.out_ts(ts),
                            paused: self.shared.paused_total_100ns as int,
                        },
                    ),
                    ..self
                }
            } else {
                self
            },
            Event::Pause { now } => if self.shared.state == RecState::Recording {
                Session { shared: self.shared.paused_at(now), ..self }
            } else {
                self
            },
            Event::Resume { now } => if self.shared.state == RecState::Paused {
                Session {
                    shared: self.shared.resumed_at(now),
                    pauses: self.pauses + 1,
                    ..self
                }
            } else {
                self
            },
        }
    }

    /// The recording after some events, in order.
    pub open spec fn after_all(self, events: Seq<Event>) -> Session
        decreases events.len(),
    {
        if events.len() == 0 {
            self
        } else {
            self.after_all(events.drop_last()).after(events.last())
        }
    }

    /// Whether some events can happen, in order.
    pub open spec fn admits_all(self, events: Seq<Event>) -> bool
        decreases events.len(),
    {
        events.len() > 0 ==> {
            &&& self.admits_all(events.drop_last())
            &&& self.after_all(events.drop_last()).admits(events.last())
        }
    }

    /// The written timestamps count from the first frame, less the pauses, and increase.
    pub open spec fn in_time(self) -> bool {
        &&& forall|i: int|
            #![trigger self.sent[i]]
            0 <= i < self.sent.len() ==> self.sent[i].out == self.sent[i].raw - self.sent[0].raw
                - self.sent[i].paused
        &&& forall|i: int, j: int|
            #![trigger self.sent[i], self.sent[j]]
            0 <= i < j < self.sent.len() ==> self.sent[i].out < self.sent[j].out
    }

    /// What is kept of the frames that were written.
    spec fn is_noted(self) -> bool {
        &&& self.shared.timeline_wf()
        &&& self.shared.first_ts is None <==> self.sent.len() == 0
        &&& self.sent.len() > 0 ==> {
            &&& self.shared.first_ts == Some(self.sent[0].raw as i64)
            &&& i64::MIN <= self.sent[0].raw <= i64::MAX
            &&& self.shared.last_out_ts == self.sent.last().out
            &&& self.shared.last_sent_raw_ts == self.sent.last().raw
            &&& self.sent.last().paused <= self.shared.paused_total_100ns
        }
    }

    /// What is kept of the start and of the pauses.
    spec fn is_counted(self, target: Target, opts: RecOptions, start: u64) -> bool {
        &&& self.shared.started == start
        &&& self.shared.fps == Shared::planned(target, opts, start).fps
        &&& self.shared.max_bytes == opts.max_bytes
        &&& self.shared.dims == target.dims
        &&& self.shared.writing
        &&& 0 <= self.shared.paused_accum - 100 * self.shared.paused_total_100ns <= 99 * self.pauses
        &&& self.shared.state == RecState::Recording || self.shared.state == RecState::Paused
    }
}

proof fn lemma_event_keeps_time(s: Session, event: Event)
    requires
        s.is_noted(),
        s.in_time(),
        s.admits(event),
    ensures
        s.after(event).is_noted(),
        s.after(event).in_time(),
{
    if let Event::Frame { ts, width, height } = event {
        if s.is_written(ts, width, height) {
            let t = s.after(event);
            assert(t.sent.drop_last() =~= s.sent);
            assert forall|i: int|
                #![trigger t.sent[i]]
                0 <= i < s.sent.len() implies t.sent[i] == s.sent[i] by {}
            if s.sent.len() > 0 {
                assert(t.sent[0] == s.sent[0]);
                assert(s.shared.start_ts(ts) == s.sent[0].raw);
                assert(ts > s.shared.last_sent_raw_ts);
                assert(s.sent[s.sent.len() - 1].out < s.shared.out_ts(ts));
            }
        }
    }
}

proof fn lemma_event_keeps_count(s: Session, event: Event, target: Target, opts: RecOptions, start: u64)
    requires
        s.is_counted(target, opts, start),
        s.admits(event),
    ensures
        s.after(event).is_counted(target, opts, start),
{
}

proof fn lemma_sessions_keep(target: Target, opts: RecOptions, start: u64, events: Seq<Event>)
    requires
        Session::started(target, opts, start).admits_all(events),
    ensures
        Session::started(target, opts, start).after_all(events).is_noted(),
        Session::started(target, opts, start).after_all(events).in_time(),
        Session::started(target, opts, start).after_all(events).is_counted(target, opts, start),
    decreases events.len(),
{
    let s = Session::started(target, opts, start);
    if events.len() == 0 {
        law_recordings_start_in_order(target, opts, start);
    } else {
        lemma_sessions_keep(target, opts, start, events.drop_last());
        let before = s.after_all(events.drop_last());
        lemma_event_keeps_time(before, events.last());
        lemma_event_keeps_count(before, events.last(), target, opts, start);
    }
}

/// Over a whole recording, a frame is written with the time since the first frame, less the
/// time spent paused until then; the timestamps increase from frame to frame; and they start
/// at 0, where no pause came before the first frame.
pub proof fn law_written_timeline_has_no_gaps(
    target: Target,
    opts: RecOptions,
    start: u64,
    events: Seq<Event>,
)
    requires
        Session::started(target, opts, start).admits_all(events),
    ensures
        ({
            let s = Session::started(target, opts, start).after_all(events);
            &&& s.in_time()
            &&& s.sent.len() > 0 && s.sent[0].paused == 0 ==> s.sent[0].out == 0
        }),
{
    lemma_sessions_keep(target, opts, start, events);
}

/// However a recording was paused and resumed, its status tells that it ended at its size
/// limit exactly where it was started with one and its file has reached it; nobody needs to
/// stop it. A recording that was started without a limit goes on at any size.
pub proof fn law_sessions_end_at_the_limit_they_started_with(
    target: Target,
    opts: RecOptions,
    start: u64,
    events: Seq<Event>,
    now: u64,
    bytes: u64,
)
    requires
        Session::started(target, opts, start).admits_all(events),
    ensures
        ({
            let s = Session::started(target, opts, start).after_all(events).shared;
            let status = status_of(limited(Some(s), bytes), now, bytes);
            if 0 < opts.max_bytes <= bytes {
                status.state == RecState::Stopped && status.reason == RecReason::SizeLimit
            } else {
                limited(Some(s), bytes) == Some(s) && status.state == s.state
            }
        }),
{
    lemma_sessions_keep(target, opts, start, events);
}

/// When the recording was last running: at the start of the pause that it is in, if any, else
/// `now`.
pub open spec fn last_running(s: Shared, now: u64) -> u64 {
    match s.pause_started {
        Some(p) => p,
        None => now,
    }
}

/// Whether frames come in soon: the first one that is written was captured at most `first_lag`
/// nanoseconds after the start, and the last one at most `last_lag` before the end of the
/// recorded time. `epoch` is where the timestamps' own clock starts.
pub open spec fn frames_come_in(
    s: Session,
    now: u64,
    epoch: int,
    first_lag: int,
    last_lag: int,
) -> bool {
    let end = last_running(s.shared, now);
    &&& s.sent.len() > 0
    &&& s.shared.started <= epoch + 100 * s.sent[0].raw <= s.shared.started + first_lag
    &&& end - last_lag <= epoch + 100 * s.sent.last().raw <= end
}

/// The video lasts as long as was recorded, pauses taken out. However late the first frame and
/// the last one come, its duration falls short of that time by less than the two lags and a
/// millisecond for rounding, less the time that the last frame is shown. And where a frame was
/// written since the last pause, it exceeds that time by at most the time that the last frame
/// is shown and a timestamp unit for each pause.
pub proof fn law_video_lasts_for_the_recorded_time(
    target: Target,
    opts: RecOptions,
    start: u64,
    events: Seq<Event>,
    now: u64,
    epoch: int,
    first_lag: int,
    last_lag: int,
)
    requires
        ({
            let s = Session::started(target, opts, start).after_all(events);
            &&& Session::started(target, opts, start).admits_all(events)
            &&& s.shared.wf(now)
            &&& frames_come_in(s, now, epoch, first_lag, last_lag)
        }),
    ensures
        ({
            let s = Session::started(target, opts, start).after_all(events);
            let duration = video_duration(s.shared.last_out_ts as int, s.shared.fps as int);
            let shown = 100 * (10_000_000int / s.shared.fps as int);
            let recorded = s.shared.elapsed(now);
            &&& recorded - first_lag - last_lag + shown - 1_000_000 < duration * 1_000_000
            &&& s.sent.last().paused == s.shared.paused_total_100ns ==> duration * 1_000_000
                <= recorded + shown + 99 * s.pauses
        }),
{
    lemma_sessions_keep(target, opts, start, events);
    let s = Session::started(target, opts, start).after_all(events);
    let last = s.sent[s.sent.len() - 1];
    assert(last.out == last.raw - s.sent[0].raw - last.paused);
    let fps = s.shared.fps as int;
    assert(fps == 30 || fps == 60);
    let frame = 10_000_000int / fps;
    assert(frame == 10_000_000int / max(fps, 1));
    assert(video_duration(s.shared.last_out_ts as int, fps) == max(last.out + frame, 0) / 10_000);
    assert(s.shared.elapsed(now) == last_running(s.shared, now) - start - s.shared.paused_accum);
}

/// A recording that is stopped ends with a file of the size that its encoder was set up for,
/// and of the duration that `law_video_lasts_for_the_recorded_time` speaks of, as soon as one
/// frame was written; stopping changes neither.
pub proof fn law_stopping_keeps_the_video(
    target: Target,
    opts: RecOptions,
    start: u64,
    events: Seq<Event>,
    now: u64,
)
    requires
        Session::started(target, opts, start).admits_all(events),
    ensures
        ({
            let s = Session::started(target, opts, start).after_all(events);
            let stopped = s.shared.stopped_at(now);
            &&& stopped.writing
            &&& stopped.first_ts is Some <==> s.sent.len() > 0
            &&& s.sent.len() > 0 ==> stopped.last_out_ts == s.sent.last().out
            &&& stopped.last_out_ts == s.shared.last_out_ts
            &&& stopped.fps == s.shared.fps
            &&& stopped.dims == target.dims
            &&& stopped.dims == (
                EncoderPlan::planned(target, opts).width,
                EncoderPlan::planned(target, opts).height,
            )
        }),
{
    lemma_sessions_keep(target, opts, start, events);
}

/// Whether some events are all frames that arrive.
pub open spec fn are_frames(events: Seq<Event>) -> bool {
    forall|i: int| 0 <= i < events.len() ==> (#[trigger] events[i]) is Frame
}

proof fn lemma_frames_keep_the_clock(s: Session, first: Seq<Event>, frames: Seq<Event>)
    requires
        are_frames(frames),
        s.admits_all(first + frames),
    ensures
        s.admits_all(first),
        ({
            let (a, b) = (s.after_all(first), s.after_all(first + frames));
            &&& a.pauses == b.pauses
            &&& a.shared.state == b.shared.state
            &&& a.shared.started == b.shared.started
            &&& a.shared.pause_started == b.shared.pause_started
            &&& a.shared.paused_accum == b.shared.paused_accum
            &&& a.shared.paused_total_100ns == b.shared.paused_total_100ns
        }),
    decreases frames.len(),
{
    if frames.len() == 0 {
        assert(first + frames =~= first);
    } else {
        assert((first + frames).drop_last() =~= first + frames.drop_last());
        assert((first + frames).last() == frames[frames.len() - 1]);
        lemma_frames_keep_the_clock(s, first, frames.drop_last());
    }
}

/// A recording with one pause: frames, a pause, frames, and frames again after it.
pub open spec fn with_a_pause(
    before: Seq<Event>,
    paused: u64,
    during: Seq<Event>,
    resumed: u64,
    later: Seq<Event>,
) -> Seq<Event> {
    (before.push(Event::Pause { now: paused }) + during).push(Event::Resume { now: resumed })
        + later
}

proof fn lemma_one_pause(
    s: Session,
    before: Seq<Event>,
    paused: u64,
    during: Seq<Event>,
    resumed: u64,
    later: Seq<Event>,
)
    requires
        s.shared.state == RecState::Recording,
        s.shared.pause_started is None,
        s.shared.paused_accum == 0,
        s.shared.paused_total_100ns == 0,
        s.pauses == 0,
        are_frames(before),
        are_frames(during),
        are_frames(later),
        s.admits_all(with_a_pause(before, paused, during, resumed, later)),
    ensures
        ({
            let e = s.after_all(with_a_pause(before, paused, during, resumed, later));
            &&& s.shared.started <= paused <= resumed
            &&& e.pauses == 1
            &&& e.shared.started == s.shared.started
            &&& e.shared.state == RecState::Recording
            &&& e.shared.pause_started is None
            &&& e.shared.paused_accum == resumed - paused
            &&& e.shared.paused_total_100ns == (resumed - paused) / 100
        }),
{
    let pause = Event::Pause { now: paused };
    let resume = Event::Resume { now: resumed };
    let one = before.push(pause);
    let two = one + during;
    let three = two.push(resume);
    lemma_frames_keep_the_clock(s, three, later);
    assert(three.drop_last() =~= two);
    assert(three.last() == resume);
    lemma_frames_keep_the_clock(s, one, during);
    assert(one.drop_last() =~= before);
    assert(one.last() == pause);
    assert(Seq::<Event>::empty() + before =~= before);
    lemma_frames_keep_the_clock(s, Seq::empty(), before);
}

/// A pause is not in the video: a recording that is paused once, resumed and stopped lasts for
/// the time before the pause and the time after it together, within half a second, where the
/// first frame and the last one are together at most half a second late. And where the target
/// came of a selection, the video has an even width and height.
pub proof fn law_a_pause_is_not_in_the_video(
    target: Target,
    opts: RecOptions,
    start: u64,
    before: Seq<Event>,
    paused: u64,
    during: Seq<Event>,
    resumed: u64,
    later: Seq<Event>,
    now: u64,
    epoch: int,
    first_lag: int,
    last_lag: int,
)
    requires
        are_frames(before),
        are_frames(during),
        are_frames(later),
        resumed <= now,
        first_lag + last_lag <= 500_000_000,
        ({
            let events = with_a_pause(before, paused, during, resumed, later);
            let s = Session::started(target, opts, start).after_all(events);
            &&& Session::started(target, opts, start).admits_all(events)
            &&& frames_come_in(s, now, epoch, first_lag, last_lag)
            &&& s.sent.last().paused == s.shared.paused_total_100ns
        }),
    ensures
        ({
            let events = with_a_pause(before, paused, during, resumed, later);
            let s = Session::started(target, opts, start).after_all(events);
            let stopped = s.shared.stopped_at(now);
            let duration = video_duration(stopped.last_out_ts as int, stopped.fps as int);
            let recorded = (paused - start) + (now - resumed);
            &&& stopped.writing && stopped.first_ts is Some
            &&& recorded - 500_000_000 <= duration * 1_000_000 <= recorded + 500_000_000
            &&& stopped.dims == target.dims
            &&& forall|mode: CaptureMode, selection: Selection|
                #![trigger resolved(mode, selection)]
                resolved(mode, selection) == Some(target) ==> stopped.dims.0 % 2 == 0
                    && stopped.dims.1 % 2 == 0
        }),
{
    let first = Session::started(target, opts, start);
    let events = with_a_pause(before, paused, during, resumed, later);
    let s = first.after_all(events);
    lemma_one_pause(first, before, paused, during, resumed, later);
    lemma_sessions_keep(target, opts, start, events);
    assert(s.shared.wf(now));
    law_video_lasts_for_the_recorded_time(
        target,
        opts,
        start,
        events,
        now,
        epoch,
        first_lag,
        last_lag,
    );
    law_stopping_keeps_the_video(target, opts, start, events, now);
    let fps = s.shared.fps as int;
    assert(fps == 30 || fps == 60);
    assert(s.shared.elapsed(now) == (paused - start) + (now - resumed));
    assert forall|mode: CaptureMode, selection: Selection|
        #![trigger resolved(mode, selection)]
        resolved(mode, selection) == Some(target) implies target.dims.0 % 2 == 0 && target.dims.1
        % 2 == 0 by {
        law_recorded_dimensions_are_even(mode, selection);
    }
}

} // verus!
