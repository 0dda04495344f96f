//! Videos of a fixed length: a recording of the screen, and a synthetic test
//! video that needs no screen.
//!
//! A run decides and the caller performs: [`run_capture`] and [`run_gradient`]
//! return the first thing to do, and `react` takes what came of it. The first
//! failure ends a run.

use crate::capture::{
    CaptureConfig, ScalerSettings, CAPTURE_FILE_FPS, CAPTURE_FILE_SECONDS, CAPTURE_HEIGHT,
    CAPTURE_WIDTH, GRADIENT_FPS, GRADIENT_SECONDS,
};
use crate::pixels::RawFrame;
use crate::report::{video_report, video_text};
use crate::video::Pixel;
use vstd::prelude::*;

verus! {

/// The number of frames in a recording.
pub open spec fn capture_frames() -> int {
    CAPTURE_FILE_FPS * CAPTURE_FILE_SECONDS
}

/// The number of frames in a test video.
pub open spec fn gradient_frames() -> int {
    GRADIENT_FPS * GRADIENT_SECONDS
}

/// What the caller of a recording is to do next.
#[derive(Debug)]
pub enum CaptureAction<F, E> {
    /// Start capturing the screen.
    StartStream(CaptureConfig),
    /// Open an encoder.
    OpenEncoder { width: u32, height: u32, fps: i32 },
    /// Open a scaler.
    OpenScaler(ScalerSettings),
    /// Create the output file.
    CreateFile(&'static str),
    /// Wait for a captured frame.
    Receive,
    /// Have the scaler convert this frame.
    Scale(RawFrame),
    /// Encode this frame to the file, with this timestamp.
    Encode { frame: F, pts: i64 },
    /// Stop capturing.
    StopStream,
    /// Flush the encoder to the file.
    FinishEncoder,
    /// The recording is complete; say so.
    Finished(String),
    /// The recording is over without success.
    Failed(E),
}

/// What came of an action of a recording.
#[derive(Debug)]
pub enum CaptureReply<F, E> {
    Done,
    /// The frame that was captured.
    Captured(RawFrame),
    /// The frame that was converted.
    Scaled(F),
    Failed(E),
}

/// A recording of the screen, by the step that it is waiting for.
#[derive(Clone, Copy, Debug)]
pub enum CaptureRun {
    StartingStream,
    OpeningEncoder,
    OpeningScaler,
    CreatingFile,
    Receiving { frame: u32 },
    Scaling { frame: u32 },
    Encoding { frame: u32 },
    StoppingStream,
    FinishingEncoder,
    Finished,
    Failed,
}

impl CaptureRun {
    /// Only frames of the recording are worked on.
    pub open spec fn wf(self) -> bool {
        match self {
            CaptureRun::Receiving { frame }
            | CaptureRun::Scaling { frame }
            | CaptureRun::Encoding { frame } => frame < capture_frames(),
            _ => true,
        }
    }

    /// The step after this one.
    pub open spec fn successor(self) -> CaptureRun {
        match self {
            CaptureRun::StartingStream => CaptureRun::OpeningEncoder,
            CaptureRun::OpeningEncoder => CaptureRun::OpeningScaler,
            CaptureRun::OpeningScaler => CaptureRun::CreatingFile,
            CaptureRun::CreatingFile => CaptureRun::Receiving { frame: 0 },
            CaptureRun::Receiving { frame } => CaptureRun::Scaling { frame },
            CaptureRun::Scaling { frame } => CaptureRun::Encoding { frame },
            CaptureRun::Encoding { frame } => if frame + 1 < capture_frames() {
                CaptureRun::Receiving { frame: (frame + 1) as u32 }
            } else {
                CaptureRun::StoppingStream
            },
            CaptureRun::StoppingStream => CaptureRun::FinishingEncoder,
            CaptureRun::FinishingEncoder => CaptureRun::Finished,
            CaptureRun::Finished => CaptureRun::Finished,
            CaptureRun::Failed => CaptureRun::Failed,
        }
    }
}

/// Whether `reply` can be what came of the action that a recording waits for.
pub open spec fn capture_reply_fits<F, E>(run: CaptureRun, reply: CaptureReply<F, E>) -> bool {
    match run {
        CaptureRun::Receiving { .. } => reply is Captured || reply is Failed,
        CaptureRun::Scaling { .. } => reply is Scaled || reply is Failed,
        CaptureRun::Finished | CaptureRun::Failed => false,
        _ => reply is Done || reply is Failed,
    }
}

/// The state of a recording after a reply.
pub open spec fn capture_next<F, E>(run: CaptureRun, reply: CaptureReply<F, E>) -> CaptureRun {
    if reply is Failed {
        CaptureRun::Failed
    } else {
        run.successor()
    }
}

/// Whether `action` is what a recording at `next` asks for, after `reply`.
pub open spec fn capture_action_follows<F, E>(
    next: CaptureRun,
    reply: CaptureReply<F, E>,
    action: CaptureAction<F, E>,
) -> bool {
    match next {
        CaptureRun::StartingStream => action == CaptureAction::<F, E>::StartStream(
            CaptureConfig::at_rate(Some(CAPTURE_FILE_FPS)),
        ),
        CaptureRun::OpeningEncoder => action == (CaptureAction::<F, E>::OpenEncoder {
            width: CAPTURE_WIDTH,
            height: CAPTURE_HEIGHT,
            fps: CAPTURE_FILE_FPS as i32,
        }),
        CaptureRun::OpeningScaler => action == CaptureAction::<F, E>::OpenScaler(
            ScalerSettings::for_capture(),
        ),
        CaptureRun::CreatingFile => action matches CaptureAction::CreateFile(name) && name@
            == "capture.h264"@,
        CaptureRun::Receiving { .. } => action is Receive,
        CaptureRun::Scaling { .. } => reply matches CaptureReply::Captured(raw) && action
            == CaptureAction::<F, E>::Scale(raw),
        CaptureRun::Encoding { frame } => reply matches CaptureReply::Scaled(scaled) && action == (
        CaptureAction::<F, E>::Encode { frame: scaled, pts: frame as i64 }),
        CaptureRun::StoppingStream => action is StopStream,
        CaptureRun::FinishingEncoder => action is FinishEncoder,
        CaptureRun::Finished => action matches CaptureAction::Finished(line) && line@
            == video_text(
            "capture.h264"@,
            capture_frames() as u32,
            CAPTURE_WIDTH,
            CAPTURE_HEIGHT,
            CAPTURE_FILE_FPS,
        ),
        CaptureRun::Failed => reply matches CaptureReply::Failed(error) && action
            == CaptureAction::<F, E>::Failed(error),
    }
}

/// Start a recording of the screen: capture real frames, convert them to what
/// the encoder takes, encode, and write a fixed-length H.264 file.
pub fn run_capture<F, E>() -> (r: (CaptureRun, CaptureAction<F, E>))
    ensures
        r.0 is StartingStream,
        r.1 matches CaptureAction::StartStream(config) && config.width == CAPTURE_WIDTH
            && config.height == CAPTURE_HEIGHT && config.format == Pixel::BGRA && config.fps == Some(
            CAPTURE_FILE_FPS,
        ),
        r.1 == CaptureAction::<F, E>::StartStream(
            CaptureConfig::at_rate(Some(CAPTURE_FILE_FPS)),
        ),
{
    (
        CaptureRun::StartingStream,
        CaptureAction::StartStream(CaptureConfig::new(Some(CAPTURE_FILE_FPS))),
    )
}

impl CaptureRun {
    /// Whether [`CaptureRun::react`] may be called with this reply.
    pub fn awaits<F, E>(&self, reply: &CaptureReply<F, E>) -> (r: bool)
        ensures
            r == (self.wf() && capture_reply_fits(*self, *reply)),
    {
        let count: u32 = CAPTURE_FILE_FPS * CAPTURE_FILE_SECONDS;
        match (*self, reply) {
            (CaptureRun::Finished | CaptureRun::Failed, _) => false,
            (CaptureRun::Receiving { frame }, CaptureReply::Captured(_)) => frame < count,
            (CaptureRun::Receiving { frame }, CaptureReply::Failed(_)) => frame < count,
            (CaptureRun::Receiving { .. }, _) => false,
            (CaptureRun::Scaling { frame }, CaptureReply::Scaled(_)) => frame < count,
            (CaptureRun::Scaling { frame }, CaptureReply::Failed(_)) => frame < count,
            (CaptureRun::Scaling { .. }, _) => false,
            (CaptureRun::Encoding { frame }, CaptureReply::Done) => frame < count,
            (CaptureRun::Encoding { frame }, CaptureReply::Failed(_)) => frame < count,
            (CaptureRun::Encoding { .. }, _) => false,
            (_, CaptureReply::Done) => true,
            (_, CaptureReply::Failed(_)) => true,
            (_, _) => false,
        }
    }

    /// Take what came of the last action and say what follows.
    pub fn react<F, E>(self, reply: CaptureReply<F, E>) -> (r: (CaptureRun, CaptureAction<F, E>))
        requires
            self.wf(),
            capture_reply_fits(self, reply),
        ensures
            reply matches CaptureReply::Failed(error) ==> r.1 == CaptureAction::<F, E>::Failed(error),
            reply matches CaptureReply::Captured(raw) ==> r.1 matches CaptureAction::Scale(handed)
                && handed.width == raw.width && handed.height == raw.height && handed.bgra@
                == raw.bgra@,
            reply matches CaptureReply::Scaled(scaled) ==> r.1 matches CaptureAction::Encode {
                frame,
                pts,
            } && frame == scaled && self == (CaptureRun::Scaling { frame: pts as u32 }) && pts >= 0,
            r.0.wf(),
            r.0 == capture_next(self, reply),
            capture_action_follows(r.0, reply, r.1),
    {
        match reply {
            CaptureReply::Failed(error) => (CaptureRun::Failed, CaptureAction::Failed(error)),
            CaptureReply::Captured(raw) => match self {
                CaptureRun::Receiving { frame } => (
                    CaptureRun::Scaling { frame },
                    CaptureAction::Scale(raw),
                ),
                _ => vstd::pervasive::unreached(),
            },
            CaptureReply::Scaled(scaled) => match self {
                CaptureRun::Scaling { frame } => (
                    CaptureRun::Encoding { frame },
                    CaptureAction::Encode { frame: scaled, pts: frame as i64 },
                ),
                _ => vstd::pervasive::unreached(),
            },
            CaptureReply::Done => self.advance(),
        }
    }

    /// Go on after a step that only had to be done.
    fn advance<F, E>(self) -> (r: (CaptureRun, CaptureAction<F, E>))
        requires
            self.wf(),
            capture_reply_fits(self, CaptureReply::<F, E>::Done),
        ensures
            r.0.wf(),
            r.0 == self.successor(),
            capture_action_follows(r.0, CaptureReply::<F, E>::Done, r.1),
    {
        match self {
            CaptureRun::StartingStream => (
                CaptureRun::OpeningEncoder,
                CaptureAction::OpenEncoder {
                    width: CAPTURE_WIDTH,
                    height: CAPTURE_HEIGHT,
                    fps: CAPTURE_FILE_FPS as i32,
                },
            ),
            CaptureRun::OpeningEncoder => (
                CaptureRun::OpeningScaler,
                CaptureAction::OpenScaler(ScalerSettings::new()),
            ),
            CaptureRun::OpeningScaler => (
                CaptureRun::CreatingFile,
                CaptureAction::CreateFile("capture.h264"),
            ),
            CaptureRun::CreatingFile => (
                CaptureRun::Receiving { frame: 0 },
                CaptureAction::Receive,
            ),
            CaptureRun::Encoding { frame } => {
                if frame + 1 < CAPTURE_FILE_FPS * CAPTURE_FILE_SECONDS {
                    (CaptureRun::Receiving { frame: frame + 1 }, CaptureAction::Receive)
                } else {
                    (CaptureRun::StoppingStream, CaptureAction::StopStream)
                }
            },
            CaptureRun::StoppingStream => (
                CaptureRun::FinishingEncoder,
                CaptureAction::FinishEncoder,
            ),
            _ => (
                CaptureRun::Finished,
                CaptureAction::Finished(
                    video_report(
                        "capture.h264",
                        CAPTURE_FILE_FPS * CAPTURE_FILE_SECONDS,
                        CAPTURE_WIDTH,
                        CAPTURE_HEIGHT,
                        CAPTURE_FILE_FPS,
                    ),
                ),
            ),
        }
    }
}

/// What the caller of a test video is to do next.
#[derive(Debug)]
pub enum GradientAction<E> {
    /// Open an encoder.
    OpenEncoder { width: u32, height: u32, fps: i32 },
    /// Create the output file.
    CreateFile(&'static str),
    /// Build the gradient frame of this size and number, and encode it to the
    /// file.
    Encode { width: u32, height: u32, frame_num: u32 },
    /// Flush the encoder to the file.
    FinishEncoder,
    /// The video is complete; say so.
    Finished(String),
    /// The video is over without success.
    Failed(E),
}

/// A test video, by the step that it is waiting for.
#[derive(Clone, Copy, Debug)]
pub enum GradientRun {
    OpeningEncoder,
    CreatingFile,
    Encoding { frame: u32 },
    FinishingEncoder,
    Finished,
    Failed,
}

impl GradientRun {
    /// Only frames of the video are worked on.
    pub open spec fn wf(self) -> bool {
        self matches GradientRun::Encoding { frame } ==> frame < gradient_frames()
    }

    /// Whether the video is still being made.
    pub open spec fn is_running(self) -> bool {
        !(self is Finished) && !(self is Failed)
    }

    /// The step after this one.
    pub open spec fn successor(self) -> GradientRun {
        match self {
            GradientRun::OpeningEncoder => GradientRun::CreatingFile,
            GradientRun::CreatingFile => GradientRun::Encoding { frame: 0 },
            GradientRun::Encoding { frame } => if frame + 1 < gradient_frames() {
                GradientRun::Encoding { frame: (frame + 1) as u32 }
            } else {
                GradientRun::FinishingEncoder
            },
            GradientRun::FinishingEncoder => GradientRun::Finished,
            GradientRun::Finished => GradientRun::Finished,
            GradientRun::Failed => GradientRun::Failed,
        }
    }
}

/// The state of a test video after a reply.
pub open spec fn gradient_next<E>(run: GradientRun, reply: Result<(), E>) -> GradientRun {
    if reply is Err {
        GradientRun::Failed
    } else {
        run.successor()
    }
}

/// Whether `action` is what a test video at `next` asks for, after `reply`.
pub open spec fn gradient_action_follows<E>(
    next: GradientRun,
    reply: Result<(), E>,
    action: GradientAction<E>,
) -> bool {
    match next {
        GradientRun::OpeningEncoder => action == (GradientAction::<E>::OpenEncoder {
            width: CAPTURE_WIDTH,
            height: CAPTURE_HEIGHT,
            fps: GRADIENT_FPS,
        }),
        GradientRun::CreatingFile => action matches GradientAction::CreateFile(name) && name@
            == "out.h264"@,
        GradientRun::Encoding { frame } => action == (GradientAction::<E>::Encode {
            width: CAPTURE_WIDTH,
            height: CAPTURE_HEIGHT,
            frame_num: frame,
        }),
        GradientRun::FinishingEncoder => action is FinishEncoder,
        GradientRun::Finished => action matches GradientAction::Finished(line) && line@
            == video_text(
            "out.h264"@,
            gradient_frames() as u32,
            CAPTURE_WIDTH,
            CAPTURE_HEIGHT,
            GRADIENT_FPS as u32,
        ),
        GradientRun::Failed => reply matches Err(error) && action == GradientAction::<E>::Failed(
            error,
        ),
    }
}

/// Start a test video: encode synthetic gradient frames straight to a file, with
/// no screen capture involved.
pub fn run_gradient<E>() -> (r: (GradientRun, GradientAction<E>))
    ensures
        r.0 is OpeningEncoder,
        r.1 == (GradientAction::<E>::OpenEncoder {
            width: CAPTURE_WIDTH,
            height: CAPTURE_HEIGHT,
            fps: GRADIENT_FPS,
        }),
{
    (
        GradientRun::OpeningEncoder,
        GradientAction::OpenEncoder {
            width: CAPTURE_WIDTH,
            height: CAPTURE_HEIGHT,
            fps: GRADIENT_FPS,
        },
    )
}

impl GradientRun {
    /// Whether [`GradientRun::react`] may be called.
    pub fn awaits(&self) -> (r: bool)
        ensures
            r == (self.wf() && self.is_running()),
    {
        match *self {
            GradientRun::Finished | GradientRun::Failed => false,
            GradientRun::Encoding { frame } => frame < GRADIENT_FPS as u32 * GRADIENT_SECONDS,
            _ => true,
        }
    }

    /// Take what came of the last action and say what follows.
    pub fn react<E>(self, reply: Result<(), E>) -> (r: (GradientRun, GradientAction<E>))
        requires
            self.wf(),
            self.is_running(),
        ensures
            r.0.wf(),
            r.0 == gradient_next(self, reply),
            gradient_action_follows(r.0, reply, r.1),
    {
        match reply {
            Err(error) => (GradientRun::Failed, GradientAction::Failed(error)),
            Ok(()) => match self {
                GradientRun::OpeningEncoder => (
                    GradientRun::CreatingFile,
                    GradientAction::CreateFile("out.h264"),
                ),
                GradientRun::CreatingFile => GradientRun::encode(0),
                GradientRun::Encoding { frame } => {
                    if frame + 1 < GRADIENT_FPS as u32 * GRADIENT_SECONDS {
                        GradientRun::encode(frame + 1)
                    } else {
                        (GradientRun::FinishingEncoder, GradientAction::FinishEncoder)
                    }
                },
                _ => (
                    GradientRun::Finished,
                    GradientAction::Finished(
                        video_report(
                            "out.h264",
                            GRADIENT_FPS as u32 * GRADIENT_SECONDS,
                            CAPTURE_WIDTH,
                            CAPTURE_HEIGHT,
                            GRADIENT_FPS as u32,
                        ),
                    ),
                ),
            },
        }
    }

    fn encode<E>(frame: u32) -> (r: (GradientRun, GradientAction<E>))
        ensures
            r.0 == (GradientRun::Encoding { frame }),
            r.1 == (GradientAction::<E>::Encode {
                width: CAPTURE_WIDTH,
                height: CAPTURE_HEIGHT,
                frame_num: frame,
            }),
    {
        (
            GradientRun::Encoding { frame },
            GradientAction::Encode {
                width: CAPTURE_WIDTH,
                height: CAPTURE_HEIGHT,
                frame_num: frame,
            },
        )
    }
}

/// The state of a recording after a sequence of replies.
pub open spec fn capture_after<F, E>(replies: Seq<CaptureReply<F, E>>) -> CaptureRun
    decreases replies.len(),
{
    if replies.len() == 0 {
        CaptureRun::StartingStream
    } else {
        capture_next(capture_after(replies.drop_last()), replies.last())
    }
}

/// Whether every reply of a sequence fits the state at which it comes.
pub open spec fn capture_replies_fit<F, E>(replies: Seq<CaptureReply<F, E>>) -> bool
    decreases replies.len(),
{
    replies.len() > 0 ==> {
        &&& capture_replies_fit(replies.drop_last())
        &&& capture_reply_fits(capture_after(replies.drop_last()), replies.last())
    }
}

/// The state of a recording that has had `n` replies, none of them a failure:
/// four to set up, three for each frame, two to take down.
pub open spec fn capture_script(n: int) -> CaptureRun {
    let i = n - 4;
    if n == 0 {
        CaptureRun::StartingStream
    } else if n == 1 {
        CaptureRun::OpeningEncoder
    } else if n == 2 {
        CaptureRun::OpeningScaler
    } else if n == 3 {
        CaptureRun::CreatingFile
    } else if i < 3 * capture_frames() {
        if i % 3 == 0 {
            CaptureRun::Receiving { frame: (i / 3) as u32 }
        } else if i % 3 == 1 {
            CaptureRun::Scaling { frame: (i / 3) as u32 }
        } else {
            CaptureRun::Encoding { frame: (i / 3) as u32 }
        }
    } else if i == 3 * capture_frames() {
        CaptureRun::StoppingStream
    } else if i == 3 * capture_frames() + 1 {
        CaptureRun::FinishingEncoder
    } else {
        CaptureRun::Finished
    }
}

/// A recording follows its script: it captures, converts and encodes its frames
/// one at a time, with the frame's number as its timestamp, and stops the stream
/// and flushes the encoder after the last. The first failure ends it.
pub proof fn law_recording_follows_its_script<F, E>(replies: Seq<CaptureReply<F, E>>)
    requires
        capture_replies_fit(replies),
    ensures
        capture_after(replies).wf(),
        replies.len() <= 3 * capture_frames() + 6,
        capture_after(replies) == (if replies.len() > 0 && replies.last() is Failed {
            CaptureRun::Failed
        } else {
            capture_script(replies.len() as int)
        }),
    decreases replies.len(),
{
    if replies.len() > 0 {
        law_recording_follows_its_script(replies.drop_last());
    }
}

/// A recording that is finished has encoded exactly as many frames as its length
/// and rate ask for, each with the timestamp that is its place among them.
pub proof fn law_recording_is_complete<F, E>(replies: Seq<CaptureReply<F, E>>, n: int)
    requires
        capture_replies_fit(replies),
        capture_after(replies) is Finished,
        0 <= n < capture_frames(),
    ensures
        replies.len() == 3 * capture_frames() + 6,
        capture_after(replies.take(4 + 3 * n)) == (CaptureRun::Receiving { frame: n as u32 }),
        capture_after(replies.take(5 + 3 * n)) == (CaptureRun::Scaling { frame: n as u32 }),
        capture_after(replies.take(6 + 3 * n)) == (CaptureRun::Encoding { frame: n as u32 }),
        replies[4 + 3 * n] is Captured,
        replies[5 + 3 * n] is Scaled,
        replies[6 + 3 * n] is Done,
{
    law_recording_follows_its_script(replies);
    lemma_capture_prefix(replies, 4 + 3 * n);
    lemma_capture_prefix(replies, 5 + 3 * n);
    lemma_capture_prefix(replies, 6 + 3 * n);
}

/// A frame is encoded under its number: what a recording asks for when its
/// `n`th frame, counted from zero, has been converted is to encode that frame,
/// with `n` as its timestamp.
pub proof fn law_recorded_frames_are_numbered<F, E>(
    replies: Seq<CaptureReply<F, E>>,
    n: int,
    action: CaptureAction<F, E>,
)
    requires
        capture_replies_fit(replies),
        capture_after(replies) is Finished,
        0 <= n < capture_frames(),
        capture_action_follows(
            capture_after(replies.take(6 + 3 * n)),
            replies[5 + 3 * n],
            action,
        ),
    ensures
        replies[5 + 3 * n] matches CaptureReply::Scaled(scaled) && action == (CaptureAction::<
            F,
            E,
        >::Encode { frame: scaled, pts: n as i64 }),
{
    law_recording_is_complete(replies, n);
}

/// A prefix of a recording that did not fail is a recording that did not fail.
proof fn lemma_capture_prefix<F, E>(replies: Seq<CaptureReply<F, E>>, n: int)
    requires
        capture_replies_fit(replies),
        !(capture_after(replies) is Failed),
        0 <= n < replies.len(),
    ensures
        capture_replies_fit(replies.take(n)),
        capture_after(replies.take(n)) == capture_script(n),
        capture_reply_fits(capture_script(n), replies[n]),
        !(replies[n] is Failed),
    decreases replies.len(),
{
    let before = replies.drop_last();
    law_recording_follows_its_script(replies);
    law_recording_follows_its_script(before);
    if n < before.len() {
        lemma_capture_prefix(before, n);
        assert(before.take(n) =~= replies.take(n));
    } else {
        assert(before =~= replies.take(n));
    }
}

/// The state of a test video after a sequence of replies.
pub open spec fn gradient_after<E>(replies: Seq<Result<(), E>>) -> GradientRun
    decreases replies.len(),
{
    if replies.len() == 0 {
        GradientRun::OpeningEncoder
    } else {
        gradient_next(gradient_after(replies.drop_last()), replies.last())
    }
}

/// Whether every reply of a sequence comes while the video is being made.
pub open spec fn gradient_replies_fit<E>(replies: Seq<Result<(), E>>) -> bool
    decreases replies.len(),
{
    replies.len() > 0 ==> {
        &&& gradient_replies_fit(replies.drop_last())
        &&& gradient_after(replies.drop_last()).is_running()
    }
}

/// A test video encodes the gradient frames from the first to the last, each
/// once and in order, and flushes the encoder after the last. The first failure
/// ends it.
pub proof fn law_test_video_follows_its_script<E>(replies: Seq<Result<(), E>>)
    requires
        gradient_replies_fit(replies),
    ensures
        gradient_after(replies).wf(),
        replies.len() <= gradient_frames() + 3,
        gradient_after(replies) == (if replies.len() > 0 && replies.last() is Err {
            GradientRun::Failed
        } else if replies.len() == 0 {
            GradientRun::OpeningEncoder
        } else if replies.len() == 1 {
            GradientRun::CreatingFile
        } else if replies.len() - 2 < gradient_frames() {
            GradientRun::Encoding { frame: (replies.len() - 2) as u32 }
        } else if replies.len() - 2 == gradient_frames() {
            GradientRun::FinishingEncoder
        } else {
            GradientRun::Finished
        }),
    decreases replies.len(),
{
    if replies.len() > 0 {
        law_test_video_follows_its_script(replies.drop_last());
    }
}

} // verus!
