//! One frame of the screen, saved as an image.
//!
//! A run decides and the caller performs: [`run_screenshot`] returns the first
//! thing to do, and [`ScreenshotRun::react`] takes what came of it. The first
//! failure ends a run.

use crate::capture::{CaptureConfig, CAPTURE_HEIGHT, CAPTURE_WIDTH};
use crate::pixels::{law_packed_size, packed, rows_fit, rows_present, swap_red_blue, Frame};
use crate::report::{image_report, image_text};
use crate::video::Pixel;
use image::RgbaImage;
use vstd::prelude::*;

verus! {

/// A picture that an image file can be made of.
#[derive(Debug)]
pub struct StillImage {
    pub width: u32,
    pub height: u32,
    pub rgba: Vec<u8>,
}

impl StillImage {
    /// Every pixel of the picture is there, and a row has an addressable size.
    pub open spec fn wf(self) -> bool {
        &&& 4 * self.width <= usize::MAX
        &&& 4 * (self.width * self.height) <= self.rgba@.len()
    }
}

/// Why no image was saved.
#[derive(Debug)]
pub enum ScreenshotError<E> {
    /// The capture stream, or the image file, failed.
    Step(E),
    /// The frame has fewer bytes than its size asks for, or a size that is not
    /// addressable.
    SizeMismatch,
}

/// What the caller is to do next.
#[derive(Debug)]
pub enum ScreenshotAction<E> {
    /// Start capturing the screen.
    StartStream(CaptureConfig),
    /// Wait for a captured frame.
    Receive,
    /// Stop capturing.
    StopStream,
    /// Save this picture to this file.
    Save { image: StillImage, file: &'static str },
    /// The image is saved; say so.
    Finished(String),
    /// Nothing was saved.
    Failed(ScreenshotError<E>),
}

/// What came of an action.
#[derive(Debug)]
pub enum ScreenshotReply<E> {
    Done,
    /// The frame that was captured.
    Captured(Frame),
    Failed(E),
}

/// A screenshot, by the step that it is waiting for.
#[derive(Debug)]
pub enum ScreenshotRun {
    StartingStream,
    Receiving,
    StoppingStream { frame: Frame },
    Saving { width: u32, height: u32 },
    Finished,
    Failed,
}

/// Whether a frame has all the bytes that its size asks for, in rows of an
/// addressable size.
pub open spec fn is_complete(frame: Frame) -> bool {
    &&& 4 * frame.width <= usize::MAX
    &&& 4 * (frame.width * frame.height) <= frame.rgba@.len()
}

/// Calls `RgbaImage::from_raw`, which makes an image of the samples as they are,
/// unless they are too few for four to a pixel or the samples of one row cannot
/// be counted in a `usize`, and `RgbaImage::into_raw`, which hands the samples of
/// an image back.
#[verifier::external_body]
fn samples_of_image(width: u32, height: u32, samples: Vec<u8>) -> (raw: Option<Vec<u8>>)
    ensures
        raw is Some <==> (4 * width <= usize::MAX && 4 * (width * height) <= samples@.len()),
        raw matches Some(bytes) ==> bytes@ == samples@,
{
    RgbaImage::from_raw(width, height, samples).map(RgbaImage::into_raw)
}

impl<E> ScreenshotError<E> {
    /// The words for an error that was found here; the others have their own.
    pub fn text(&self) -> (r: Option<&'static str>)
        ensures
            self is Step ==> r is None,
            self is SizeMismatch ==> r is Some && r->0@
                == "frame buffer size did not match dimensions"@,
    {
        match self {
            ScreenshotError::Step(_) => None,
            ScreenshotError::SizeMismatch => Some("frame buffer size did not match dimensions"),
        }
    }
}

/// Make a picture of a frame, if the frame is complete.
pub fn still_image(frame: Frame) -> (image: Option<StillImage>)
    ensures
        image is Some <==> is_complete(frame),
        image matches Some(still) ==> {
            &&& still.wf()
            &&& still.width == frame.width
            &&& still.height == frame.height
            &&& still.rgba@ == frame.rgba@
        },
{
    match samples_of_image(frame.width, frame.height, frame.rgba) {
        Some(rgba) => Some(StillImage { width: frame.width, height: frame.height, rgba }),
        None => None,
    }
}

/// Whether `reply` can be what came of the action that a screenshot waits for.
pub open spec fn reply_fits<E>(run: ScreenshotRun, reply: ScreenshotReply<E>) -> bool {
    match run {
        ScreenshotRun::Receiving => reply is Captured || reply is Failed,
        ScreenshotRun::Finished | ScreenshotRun::Failed => false,
        _ => reply is Done || reply is Failed,
    }
}

/// The state of a screenshot after a reply.
pub open spec fn next_state<E>(run: ScreenshotRun, reply: ScreenshotReply<E>) -> ScreenshotRun {
    match (run, reply) {
        (_, ScreenshotReply::Failed(_)) => ScreenshotRun::Failed,
        (_, ScreenshotReply::Captured(frame)) => ScreenshotRun::StoppingStream { frame },
        (ScreenshotRun::StartingStream, _) => ScreenshotRun::Receiving,
        (ScreenshotRun::StoppingStream { frame }, _) => if is_complete(frame) {
            ScreenshotRun::Saving { width: frame.width, height: frame.height }
        } else {
            ScreenshotRun::Failed
        },
        (_, _) => ScreenshotRun::Finished,
    }
}

/// Whether `action` is what a screenshot at `run` asks for on `reply`.
pub open spec fn action_follows<E>(
    run: ScreenshotRun,
    reply: ScreenshotReply<E>,
    action: ScreenshotAction<E>,
) -> bool {
    match (run, reply) {
        (_, ScreenshotReply::Failed(error)) => action == ScreenshotAction::Failed(
            ScreenshotError::Step(error),
        ),
        (_, ScreenshotReply::Captured(_)) => action is StopStream,
        (ScreenshotRun::StartingStream, _) => action is Receive,
        (ScreenshotRun::StoppingStream { frame }, _) => if is_complete(frame) {
            &&& action matches ScreenshotAction::Save { image, file }
            &&& image.wf()
            &&& image.width == frame.width
            &&& image.height == frame.height
            &&& image.rgba@ == frame.rgba@
            &&& file@ == "frame.png"@
        } else {
            action == ScreenshotAction::<E>::Failed(ScreenshotError::SizeMismatch)
        },
        (ScreenshotRun::Saving { width, height }, _) => action matches ScreenshotAction::Finished(
            line,
        ) && line@ == image_text("frame.png"@, width, height),
        (_, _) => false,
    }
}

/// Start a screenshot.
pub fn run_screenshot<E>() -> (r: (ScreenshotRun, ScreenshotAction<E>))
    ensures
        r.0 is StartingStream,
        r.1 matches ScreenshotAction::StartStream(config) && config.width == CAPTURE_WIDTH
            && config.height == CAPTURE_HEIGHT && config.format == Pixel::BGRA && config.fps is None,
        r.1 == ScreenshotAction::<E>::StartStream(CaptureConfig::at_rate(None)),
{
    (ScreenshotRun::StartingStream, ScreenshotAction::StartStream(CaptureConfig::new(None)))
}

impl ScreenshotRun {
    /// Whether [`ScreenshotRun::react`] may be called with this reply.
    pub fn awaits<E>(&self, reply: &ScreenshotReply<E>) -> (r: bool)
        ensures
            r == reply_fits(*self, *reply),
    {
        match (self, reply) {
            (ScreenshotRun::Finished | ScreenshotRun::Failed, _) => false,
            (_, ScreenshotReply::Failed(_)) => true,
            (ScreenshotRun::Receiving, ScreenshotReply::Captured(_)) => true,
            (ScreenshotRun::Receiving, _) => false,
            (_, ScreenshotReply::Done) => true,
            (_, _) => false,
        }
    }

    /// Take what came of the last action and say what follows.
    pub fn react<E>(self, reply: ScreenshotReply<E>) -> (r: (ScreenshotRun, ScreenshotAction<E>))
        requires
            reply_fits(self, reply),
        ensures
            reply matches ScreenshotReply::Failed(error) ==> r.1 == ScreenshotAction::Failed(
                ScreenshotError::Step(error),
            ),
            r.1 matches ScreenshotAction::Save { image, file } ==> {
                &&& self matches ScreenshotRun::StoppingStream { frame }
                &&& image.width == frame.width
                &&& image.height == frame.height
                &&& image.rgba@ == frame.rgba@
                &&& file@ == "frame.png"@
            },
            r.0 == next_state(self, reply),
            action_follows(self, reply, r.1),
    {
        match reply {
            ScreenshotReply::Failed(error) => (
                ScreenshotRun::Failed,
                ScreenshotAction::Failed(ScreenshotError::Step(error)),
            ),
            ScreenshotReply::Captured(frame) => (
                ScreenshotRun::StoppingStream { frame },
                ScreenshotAction::StopStream,
            ),
            ScreenshotReply::Done => match self {
                ScreenshotRun::StartingStream => (
                    ScreenshotRun::Receiving,
                    ScreenshotAction::Receive,
                ),
                ScreenshotRun::StoppingStream { frame } => match still_image(frame) {
                    Some(image) => (
                        ScreenshotRun::Saving { width: image.width, height: image.height },
                        ScreenshotAction::Save { image, file: "frame.png" },
                    ),
                    None => (
                        ScreenshotRun::Failed,
                        ScreenshotAction::Failed(ScreenshotError::SizeMismatch),
                    ),
                },
                ScreenshotRun::Saving { width, height } => (
                    ScreenshotRun::Finished,
                    ScreenshotAction::Finished(image_report("frame.png", width, height)),
                ),
                _ => vstd::pervasive::unreached(),
            },
        }
    }
}

/// The state of a screenshot after a sequence of replies.
pub open spec fn state_after<E>(replies: Seq<ScreenshotReply<E>>) -> ScreenshotRun
    decreases replies.len(),
{
    if replies.len() == 0 {
        ScreenshotRun::StartingStream
    } else {
        next_state(state_after(replies.drop_last()), replies.last())
    }
}

/// Whether every reply of a sequence fits the state at which it comes.
pub open spec fn replies_fit<E>(replies: Seq<ScreenshotReply<E>>) -> bool
    decreases replies.len(),
{
    replies.len() > 0 ==> {
        &&& replies_fit(replies.drop_last())
        &&& reply_fits(state_after(replies.drop_last()), replies.last())
    }
}

/// Whether a screenshot has had as many replies as its state asks for.
pub open spec fn is_at_step<E>(replies: Seq<ScreenshotReply<E>>) -> bool {
    match state_after(replies) {
        ScreenshotRun::StartingStream => replies.len() == 0,
        ScreenshotRun::Receiving => replies.len() == 1,
        ScreenshotRun::StoppingStream { frame } => replies.len() == 2 && replies[1]
            == ScreenshotReply::<E>::Captured(frame),
        ScreenshotRun::Saving { .. } => replies.len() == 3,
        ScreenshotRun::Finished => replies.len() == 4,
        ScreenshotRun::Failed => true,
    }
}

/// The picture that is saved is the first frame that was captured: it has the
/// frame's size and bytes, and the stream was stopped before it is saved.
pub proof fn law_saved_picture_is_the_first_frame<E>(
    replies: Seq<ScreenshotReply<E>>,
    action: ScreenshotAction<E>,
)
    requires
        replies.len() > 0,
        replies_fit(replies),
        action_follows(state_after(replies.drop_last()), replies.last(), action),
        action is Save,
    ensures
        replies.len() == 3,
        replies[2] is Done,
        replies[1] matches ScreenshotReply::Captured(frame) && is_complete(frame)
            && action->image.width == frame.width && action->image.height == frame.height
            && action->image.rgba@ == frame.rgba@,
{
    let before = replies.drop_last();
    lemma_steps(before);
    assert(state_after(before) is StoppingStream);
    assert(before[1] == replies[1]);
}

/// A screenshot takes its four steps once each, in order: it ends after the
/// fourth, or with a failure before.
pub proof fn law_screenshot_takes_four_steps<E>(replies: Seq<ScreenshotReply<E>>)
    requires
        replies_fit(replies),
    ensures
        replies.len() <= 4,
        state_after(replies) is Finished ==> replies.len() == 4,
        replies.len() == 4 ==> state_after(replies) is Finished || state_after(replies) is Failed,
{
    lemma_steps(replies);
}

proof fn lemma_steps<E>(replies: Seq<ScreenshotReply<E>>)
    requires
        replies_fit(replies),
    ensures
        is_at_step(replies),
        replies.len() <= 4,
    decreases replies.len(),
{
    if replies.len() > 0 {
        lemma_steps(replies.drop_last());
    }
}

/// The bytes taken from a capture buffer make a picture of the captured size
/// exactly if the buffer reaches into its last row.
pub proof fn law_full_buffer_makes_a_picture(
    src: Seq<u8>,
    width: int,
    height: int,
    stride: int,
    frame: Frame,
)
    requires
        rows_fit(src.len() as int, width, height, stride),
        frame.width == width,
        frame.height == height,
        frame.rgba@ == swap_red_blue(
            packed(src, 4 * width, rows_present(src.len() as int, height, stride), stride),
        ),
        0 < width,
        0 < height,
    ensures
        is_complete(frame) <==> (height - 1) * stride < src.len(),
        is_complete(frame) ==> frame.rgba@.len() == 4 * (width * height),
{
    law_packed_size(src, width, height, stride);
    assert(4 * width <= 4 * (width * height)) by (nonlinear_arith)
        requires
            0 < width,
            0 < height,
    ;
}

} // verus!
