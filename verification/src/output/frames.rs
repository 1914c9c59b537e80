//! The frame stream of a job.
//!
//! The stream decides and the caller acts: the caller hands the stream an
//! [`Event`], the stream answers with a [`Step`], which either ends the
//! caller's request for a frame or names the one call to the host that the
//! caller has to make next.  The answer of the host is the next event.

use vstd::prelude::*;

use super::error::Error;
use super::frame::{decode_frame, decoded_samples, frame_fits, image_samples, image_size, Image};
use super::output_info::OutputInfo;
use super::timestamp::{frame_time, FrameRate, Timestamp};

verus! {

/// The time between two checkpoints, in milliseconds.
pub const CHECKPOINT_MILLIS: u64 = 1000;

/// What the stream is waiting for.
#[derive(Debug, Clone, Copy, PartialEq, Eq, Structural)]
pub enum Phase {
    /// For the caller to ask for a frame.
    Ready,
    /// For the host to say whether the job is to be aborted.
    AskedAbort,
    /// For the host to have refreshed its preview.
    AskedPreview,
    /// For the host to have displayed the remaining time.
    AskedRestTime,
    /// For the host to hand over a frame.
    AskedVideo,
    /// For nothing: the stream was aborted or has failed.
    Finished,
}

/// What the caller tells the stream.
#[derive(Debug)]
pub enum Event {
    /// A frame is wanted; `now` is the reading of a clock in milliseconds.
    Poll { now: u64 },
    /// The host's answer to the question whether to abort.
    IsAbort(i32),
    /// The host's answer to the request to refresh the preview.
    UpdatePreview(i32),
    /// The host's answer to the request to display the remaining time.
    RestTimeDisp(i32),
    /// The bytes that the host handed over for the frame asked for.
    GetVideo(Vec<u8>),
}

/// What the stream tells the caller.
pub enum Step {
    /// There is no further frame.
    End,
    /// The next frame and its presentation time.
    Frame(Image, Timestamp),
    /// The request for a frame has failed.
    Failed(Error),
    /// Ask the host whether to abort.
    IsAbort,
    /// Ask the host to refresh the preview.
    UpdatePreview,
    /// Ask the host to display the remaining time: `now` of `total` frames
    /// are done.
    RestTimeDisp { now: i32, total: i32 },
    /// Ask the host for the frame with the index `frame`.
    GetVideo { frame: i32 },
}

/// A [`Step`] without the frame it may carry.
pub enum StepKind {
    End,
    Frame,
    Failed(Error),
    IsAbort,
    UpdatePreview,
    RestTimeDisp { now: int, total: int },
    GetVideo { frame: int },
}

impl Step {
    /// The step without the frame it may carry.
    pub open spec fn kind(self) -> StepKind {
        match self {
            Step::End => StepKind::End,
            Step::Frame(_, _) => StepKind::Frame,
            Step::Failed(e) => StepKind::Failed(e),
            Step::IsAbort => StepKind::IsAbort,
            Step::UpdatePreview => StepKind::UpdatePreview,
            Step::RestTimeDisp { now, total } => StepKind::RestTimeDisp {
                now: now as int,
                total: total as int,
            },
            Step::GetVideo { frame } => StepKind::GetVideo { frame: frame as int },
        }
    }
}

/// The state of a frame stream.
pub struct FramesView {
    /// The width of a frame.
    pub w: u32,
    /// The height of a frame.
    pub h: u32,
    /// The number of frames of the job.
    pub n: u32,
    /// The frame rate of the job.
    pub frame_rate: FrameRate,
    /// The number of frames handed out so far, which is the index of the next.
    pub frame: int,
    /// The clock reading at the last checkpoint, or at the start.
    pub last_time: u64,
    /// What the stream is waiting for.
    pub phase: Phase,
}

/// Whether a checkpoint is due at the clock reading `now`, when the last one
/// was at `last_time`.
pub open spec fn checkpoint_due(last_time: u64, now: u64) -> bool {
    now - last_time >= CHECKPOINT_MILLIS
}

impl FramesView {
    /// The number of frames that the stream hands out.  The host counts
    /// frames with a signed integer: a number beyond its range stands for
    /// no frame at all.
    pub open spec fn total(self) -> int {
        if self.n <= i32::MAX {
            self.n as int
        } else {
            0
        }
    }

    /// Whether the state is one that a stream can be in.
    pub open spec fn wf(self) -> bool {
        &&& 0 <= self.frame <= self.total()
        &&& (self.phase == Phase::AskedAbort || self.phase == Phase::AskedPreview || self.phase
            == Phase::AskedRestTime || self.phase == Phase::AskedVideo) ==> self.frame
            < self.total()
    }

    /// The state with another phase.
    pub open spec fn at(self, phase: Phase) -> FramesView {
        FramesView { phase, ..self }
    }

    /// What the stream does on `event`: its next state, and its answer.
    pub open spec fn next(self, event: Event) -> (FramesView, StepKind) {
        match (self.phase, event) {
            (Phase::Ready, Event::Poll { now }) => {
                if self.frame >= self.total() {
                    (self, StepKind::End)
                } else if checkpoint_due(self.last_time, now) {
                    (
                        FramesView { last_time: now, phase: Phase::AskedAbort, ..self },
                        StepKind::IsAbort,
                    )
                } else {
                    (self.at(Phase::AskedVideo), StepKind::GetVideo { frame: self.frame })
                }
            },
            (Phase::Finished, Event::Poll { now }) => (self, StepKind::End),
            (Phase::AskedAbort, Event::IsAbort(answer)) => {
                if answer != 0 {
                    (self.at(Phase::Finished), StepKind::End)
                } else {
                    (self.at(Phase::AskedPreview), StepKind::UpdatePreview)
                }
            },
            (Phase::AskedPreview, Event::UpdatePreview(answer)) => {
                if answer == 0 {
                    (self.at(Phase::Ready), StepKind::Failed(Error::PreviewUpdateFailed))
                } else {
                    (
                        self.at(Phase::AskedRestTime),
                        StepKind::RestTimeDisp { now: self.frame, total: self.total() },
                    )
                }
            },
            (Phase::AskedRestTime, Event::RestTimeDisp(answer)) => {
                if answer == 0 {
                    (self.at(Phase::Ready), StepKind::Failed(Error::RestTimeDisplayFailed))
                } else {
                    (self.at(Phase::AskedVideo), StepKind::GetVideo { frame: self.frame })
                }
            },
            (Phase::AskedVideo, Event::GetVideo(data)) => {
                if !frame_fits(data@.len(), self.w, self.h) {
                    (self.at(Phase::Finished), StepKind::Failed(Error::FrameTooShort))
                } else if self.frame_rate.numer == 0 {
                    (self.at(Phase::Finished), StepKind::Failed(Error::ZeroFrameRate))
                } else {
                    (
                        FramesView { frame: self.frame + 1, phase: Phase::Ready, ..self },
                        StepKind::Frame,
                    )
                }
            },
            _ => (self, StepKind::Failed(Error::UnexpectedEvent)),
        }
    }
}

/// The frames of a job, one after the other, with their presentation times.
///
/// Once a second the stream has the host asked whether the job is to be
/// aborted, its preview refreshed and the remaining time displayed.  After
/// an abort the stream hands out no further frame: whether a stream ended
/// because it was aborted is for the caller to ask the host.
pub struct Frames<'a> {
    info: &'a OutputInfo<'a>,
    total: i32,
    frame: i32,
    last_time: u64,
    phase: Phase,
}

impl<'a> View for Frames<'a> {
    type V = FramesView;

    closed spec fn view(&self) -> FramesView {
        FramesView {
            w: self.info@.w,
            h: self.info@.h,
            n: self.info@.n,
            frame_rate: self.info@.frame_rate,
            frame: self.frame as int,
            last_time: self.last_time,
            phase: self.phase,
        }
    }
}

impl<'a> Frames<'a> {
    #[verifier::type_invariant]
    closed spec fn inv(self) -> bool {
        &&& self@.wf()
        &&& self.total == self@.total()
    }

    /// The stream of the frames of the job `info`, started at the clock
    /// reading `now`.
    pub fn new(info: &'a OutputInfo<'a>, now: u64) -> (frames: Self)
        ensures
            frames@ == (FramesView {
                w: info@.w,
                h: info@.h,
                n: info@.n,
                frame_rate: info@.frame_rate,
                frame: 0,
                last_time: now,
                phase: Phase::Ready,
            }),
            frames@.wf(),
    {
        let n: u32 = *info.n();
        let total: i32 = if n <= 0x7fff_ffff {
            n as i32
        } else {
            0
        };
        Frames { info, total, frame: 0, last_time: now, phase: Phase::Ready }
    }

    /// What the stream is waiting for.
    pub fn phase(&self) -> (phase: Phase)
        ensures
            phase == self@.phase,
    {
        self.phase
    }

    /// The number of frames handed out so far.
    pub fn frame(&self) -> (frame: i32)
        ensures
            frame == self@.frame,
            self@.wf(),
    {
        proof {
            use_type_invariant(self);
        }
        self.frame
    }

    /// Takes `event` and says what is to be done next.
    ///
    /// A frame that the stream hands out is the image of the bytes that the
    /// event brought, and its time is that of the frames handed out so far,
    /// itself included.
    pub fn next(&mut self, event: Event) -> (step: Step)
        ensures
            old(self)@.wf(),
            final(self)@.wf(),
            final(self)@ == old(self)@.next(event).0,
            step.kind() == old(self)@.next(event).1,
            match step {
                Step::Frame(img, time) => {
                    &&& event is GetVideo
                    &&& image_size(img) == (old(self)@.w, old(self)@.h)
                    &&& image_samples(img) == decoded_samples(
                        event->GetVideo_0@,
                        old(self)@.w,
                        old(self)@.h,
                    )
                    &&& time.is_time_of(final(self)@.frame, old(self)@.frame_rate)
                },
                _ => true,
            },
    {
        proof {
            use_type_invariant(&*self);
        }
        let info = self.info;
        let total = self.total;
        let frame = self.frame;
        let last_time = self.last_time;
        match (self.phase, event) {
            (Phase::Ready, Event::Poll { now }) => {
                if frame >= total {
                    Step::End
                } else if now >= last_time && now - last_time >= CHECKPOINT_MILLIS {
                    *self = Frames { info, total, frame, last_time: now, phase: Phase::AskedAbort };
                    Step::IsAbort
                } else {
                    *self = Frames { info, total, frame, last_time, phase: Phase::AskedVideo };
                    Step::GetVideo { frame }
                }
            },
            (Phase::Finished, Event::Poll { now }) => Step::End,
            (Phase::AskedAbort, Event::IsAbort(answer)) => {
                if info.should_abort(answer) {
                    *self = Frames { info, total, frame, last_time, phase: Phase::Finished };
                    Step::End
                } else {
                    *self = Frames { info, total, frame, last_time, phase: Phase::AskedPreview };
                    Step::UpdatePreview
                }
            },
            (Phase::AskedPreview, Event::UpdatePreview(answer)) => {
                match info.update_preview(answer) {
                    Err(e) => {
                        *self = Frames { info, total, frame, last_time, phase: Phase::Ready };
                        Step::Failed(e)
                    },
                    Ok(_) => {
                        *self = Frames {
                            info,
                            total,
                            frame,
                            last_time,
                            phase: Phase::AskedRestTime,
                        };
                        Step::RestTimeDisp { now: frame, total }
                    },
                }
            },
            (Phase::AskedRestTime, Event::RestTimeDisp(answer)) => {
                match info.rest_time_disp(answer) {
                    Err(e) => {
                        *self = Frames { info, total, frame, last_time, phase: Phase::Ready };
                        Step::Failed(e)
                    },
                    Ok(_) => {
                        *self = Frames { info, total, frame, last_time, phase: Phase::AskedVideo };
                        Step::GetVideo { frame }
                    },
                }
            },
            (Phase::AskedVideo, Event::GetVideo(data)) => {
                let img = match info.get_video(&data) {
                    Err(e) => {
                        *self = Frames { info, total, frame, last_time, phase: Phase::Finished };
                        return Step::Failed(e);
                    },
                    Ok(img) => img,
                };
                let time = match frame_time(frame + 1, info.frame_rate()) {
                    Err(e) => {
                        *self = Frames { info, total, frame, last_time, phase: Phase::Finished };
                        return Step::Failed(e);
                    },
                    Ok(time) => time,
                };
                *self = Frames { info, total, frame: frame + 1, last_time, phase: Phase::Ready };
                Step::Frame(img, time)
            },
            _ => Step::Failed(Error::UnexpectedEvent),
        }
    }
}

/// The state of a stream that started in `start` and has taken `events`.
pub open spec fn run(start: FramesView, events: Seq<Event>) -> FramesView
    decreases events.len(),
{
    if events.len() == 0 {
        start
    } else {
        run(start, events.drop_last()).next(events.last()).0
    }
}

/// The answer of a stream that started in `start` to the last of `events`.
pub open spec fn answer(start: FramesView, events: Seq<Event>) -> StepKind {
    run(start, events.drop_last()).next(events.last()).1
}

/// The number of frames that a stream that started in `start` hands out in
/// answer to `events`.
pub open spec fn frames_yielded(start: FramesView, events: Seq<Event>) -> int
    decreases events.len(),
{
    if events.len() == 0 {
        0
    } else {
        frames_yielded(start, events.drop_last()) + if answer(start, events) is Frame {
            1int
        } else {
            0int
        }
    }
}

/// Whether `event` is the host's word, given at a checkpoint of a stream in
/// the state `v`, that the job is to be aborted.
pub open spec fn is_abort(v: FramesView, event: Event) -> bool {
    &&& v.phase == Phase::AskedAbort
    &&& event is IsAbort
    &&& event->IsAbort_0 != 0
}

/// Whether `event` brings a stream in the state `v` a frame that it cannot
/// hand out: the bytes are too few, or the frame rate is zero.
pub open spec fn is_lost_frame(v: FramesView, event: Event) -> bool {
    &&& v.phase == Phase::AskedVideo
    &&& event is GetVideo
    &&& (!frame_fits(event->GetVideo_0@.len(), v.w, v.h) || v.frame_rate.numer == 0)
}

/// Whether a stream that started in `start` takes `events` without an abort
/// and without losing a frame.
pub open spec fn undisturbed(start: FramesView, events: Seq<Event>) -> bool {
    forall|i: int|
        #![trigger events[i]]
        0 <= i < events.len() ==> !is_abort(run(start, events.take(i)), events[i])
            && !is_lost_frame(run(start, events.take(i)), events[i])
}

/// One event keeps a stream well formed, leaves the job as it is, and moves
/// the stream on by one frame exactly when it hands one out.
pub proof fn lemma_next_keeps_count(v: FramesView, event: Event)
    requires
        v.wf(),
    ensures
        v.next(event).0.wf(),
        v.next(event).0.w == v.w,
        v.next(event).0.h == v.h,
        v.next(event).0.n == v.n,
        v.next(event).0.frame_rate == v.frame_rate,
        v.next(event).0.frame == v.frame + if v.next(event).1 is Frame {
            1int
        } else {
            0int
        },
        v.next(event).0.phase == Phase::Finished ==> v.phase == Phase::Finished || is_abort(
            v,
            event,
        ) || is_lost_frame(v, event),
{
}

/// The index of the next frame counts the frames handed out: whatever the
/// events, a stream is as many frames on as it has handed out, and it never
/// hands out more frames than the job has.
pub proof fn lemma_run_counts_frames(start: FramesView, events: Seq<Event>)
    requires
        start.wf(),
    ensures
        run(start, events).wf(),
        run(start, events).w == start.w,
        run(start, events).h == start.h,
        run(start, events).n == start.n,
        run(start, events).frame_rate == start.frame_rate,
        run(start, events).frame == start.frame + frames_yielded(start, events),
        start.frame + frames_yielded(start, events) <= start.total(),
    decreases events.len(),
{
    if events.len() > 0 {
        lemma_run_counts_frames(start, events.drop_last());
        lemma_next_keeps_count(run(start, events.drop_last()), events.last());
    }
}

/// What holds of events holds of all but the last of them, and the state
/// before the last is that after the others.
proof fn lemma_undisturbed_front(start: FramesView, events: Seq<Event>)
    requires
        events.len() > 0,
        undisturbed(start, events),
    ensures
        undisturbed(start, events.drop_last()),
        !is_abort(run(start, events.drop_last()), events.last()),
        !is_lost_frame(run(start, events.drop_last()), events.last()),
{
    let front = events.drop_last();
    assert(front =~= events.take(events.len() - 1));
    assert forall|i: int| 0 <= i < front.len() implies !is_abort(
        run(start, front.take(i)),
        #[trigger] front[i],
    ) && !is_lost_frame(run(start, front.take(i)), front[i]) by {
        assert(front.take(i) =~= events.take(i));
        assert(front[i] == events[i]);
    }
    assert(events.last() == events[events.len() - 1]);
}

/// A stream that is neither aborted nor loses a frame does not finish early.
pub proof fn lemma_undisturbed_goes_on(start: FramesView, events: Seq<Event>)
    requires
        start.wf(),
        start.phase != Phase::Finished,
        undisturbed(start, events),
    ensures
        run(start, events).phase != Phase::Finished,
    decreases events.len(),
{
    if events.len() > 0 {
        lemma_undisturbed_front(start, events);
        lemma_undisturbed_goes_on(start, events.drop_last());
    }
}

/// A stream that is read to its end, and was neither aborted nor lost a
/// frame on the way, has handed out every frame of the job.
pub proof fn lemma_drained_stream_yields_all(start: FramesView, events: Seq<Event>)
    requires
        start.wf(),
        start.frame == 0,
        start.phase == Phase::Ready,
        events.len() > 0,
        undisturbed(start, events),
        answer(start, events) is End,
    ensures
        frames_yielded(start, events) == start.total(),
{
    lemma_undisturbed_front(start, events);
    lemma_undisturbed_goes_on(start, events.drop_last());
    lemma_run_counts_frames(start, events.drop_last());
}

/// Events taken one after the other: the state after both runs, and the
/// frames of both.
pub proof fn lemma_run_append(start: FramesView, first: Seq<Event>, second: Seq<Event>)
    ensures
        run(start, first + second) == run(run(start, first), second),
        frames_yielded(start, first + second) == frames_yielded(start, first) + frames_yielded(
            run(start, first),
            second,
        ),
    decreases second.len(),
{
    if second.len() == 0 {
        assert(first + second =~= first);
    } else {
        assert((first + second).drop_last() =~= first + second.drop_last());
        assert((first + second).last() == second.last());
        lemma_run_append(start, first, second.drop_last());
    }
}

/// A stream that has finished stays finished and hands out nothing.
pub proof fn lemma_finished_stays(v: FramesView, events: Seq<Event>)
    requires
        v.phase == Phase::Finished,
    ensures
        run(v, events) == v,
        frames_yielded(v, events) == 0,
    decreases events.len(),
{
    if events.len() > 0 {
        lemma_finished_stays(v, events.drop_last());
    }
}

/// Once the host has said at a checkpoint that the job is to be aborted, the
/// stream hands out no further frame, whatever comes later; and the frames it
/// has handed out are fewer than the job has.
pub proof fn lemma_abort_ends_stream(
    start: FramesView,
    before: Seq<Event>,
    event: Event,
    later: Seq<Event>,
)
    requires
        start.wf(),
        start.frame == 0,
        is_abort(run(start, before), event),
    ensures
        answer(start, before.push(event)) is End,
        frames_yielded(start, before.push(event) + later) == frames_yielded(start, before),
        frames_yielded(start, before) < start.total(),
{
    let upto = before.push(event);
    assert(upto.drop_last() =~= before);
    assert(upto.last() == event);
    lemma_run_counts_frames(start, before);
    lemma_run_append(start, upto, later);
    lemma_finished_stays(run(start, upto), later);
}

} // verus!
