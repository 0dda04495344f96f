//! Laws on runs that end by themselves: recordings, test videos and screenshots.

use crate::capture::{ScalerFilter, CAPTURE_FILE_FPS, CAPTURE_HEIGHT, CAPTURE_WIDTH};
use crate::pixels::RawFrame;
use crate::recording::{
    capture_action_follows, capture_after, capture_next, capture_replies_fit, capture_reply_fits,
    gradient_action_follows, gradient_after, gradient_next, gradient_replies_fit,
    law_recording_follows_its_script, law_test_video_follows_its_script, CaptureAction,
    CaptureReply, CaptureRun, GradientAction, GradientRun,
};
use crate::report::{decimal, image_text, size_text, video_text};
use crate::screenshot;
use crate::screenshot::{ScreenshotAction, ScreenshotError, ScreenshotReply, ScreenshotRun};
use crate::video::Pixel;
use vstd::prelude::*;

verus! {

/// Whether `actions` are what a recording asks for, one on each of `replies`.
pub open spec fn is_capture_trace<F, E>(
    replies: Seq<CaptureReply<F, E>>,
    actions: Seq<CaptureAction<F, E>>,
) -> bool
    decreases replies.len(),
{
    &&& replies.len() == actions.len()
    &&& replies.len() > 0 ==> {
        &&& is_capture_trace(replies.drop_last(), actions.drop_last())
        &&& capture_reply_fits(capture_after(replies.drop_last()), replies.last())
        &&& capture_action_follows(capture_after(replies), replies.last(), actions.last())
    }
}

/// The frames that were captured, in order.
pub open spec fn frames_captured<F, E>(replies: Seq<CaptureReply<F, E>>) -> Seq<RawFrame>
    decreases replies.len(),
{
    if replies.len() == 0 {
        Seq::empty()
    } else {
        let before = frames_captured(replies.drop_last());
        match replies.last() {
            CaptureReply::Captured(raw) => before.push(raw),
            _ => before,
        }
    }
}

/// The frames that were handed to the scaler, in order.
pub open spec fn frames_to_scale<F, E>(actions: Seq<CaptureAction<F, E>>) -> Seq<RawFrame>
    decreases actions.len(),
{
    if actions.len() == 0 {
        Seq::empty()
    } else {
        let before = frames_to_scale(actions.drop_last());
        match actions.last() {
            CaptureAction::Scale(raw) => before.push(raw),
            _ => before,
        }
    }
}

/// The frames that came out of the scaler, in order.
pub open spec fn frames_converted<F, E>(replies: Seq<CaptureReply<F, E>>) -> Seq<F>
    decreases replies.len(),
{
    if replies.len() == 0 {
        Seq::empty()
    } else {
        let before = frames_converted(replies.drop_last());
        match replies.last() {
            CaptureReply::Scaled(frame) => before.push(frame),
            _ => before,
        }
    }
}

/// The frames that were handed to the encoder, with their timestamps, in order.
pub open spec fn frames_to_encode<F, E>(actions: Seq<CaptureAction<F, E>>) -> Seq<(F, i64)>
    decreases actions.len(),
{
    if actions.len() == 0 {
        Seq::empty()
    } else {
        let before = frames_to_encode(actions.drop_last());
        match actions.last() {
            CaptureAction::Encode { frame, pts } => before.push((frame, pts)),
            _ => before,
        }
    }
}

/// A recording hands on what it gets: the frames handed to the scaler are, in
/// order, the frames captured, and the frames handed to the encoder are, in
/// order, the frames converted, with timestamps that count them from zero.
pub proof fn law_recording_hands_its_frames_on<F, E>(
    replies: Seq<CaptureReply<F, E>>,
    actions: Seq<CaptureAction<F, E>>,
)
    requires
        is_capture_trace(replies, actions),
    ensures
        frames_to_scale(actions) == frames_captured(replies),
        frames_to_encode(actions).len() == frames_converted(replies).len(),
        forall|i: int|
            #![trigger frames_to_encode(actions)[i]]
            0 <= i < frames_to_encode(actions).len() ==> frames_to_encode(actions)[i] == (
                frames_converted(replies)[i],
                i as i64,
            ),
{
    lemma_capture_trace(replies, actions);
}

proof fn lemma_capture_trace<F, E>(
    replies: Seq<CaptureReply<F, E>>,
    actions: Seq<CaptureAction<F, E>>,
)
    requires
        is_capture_trace(replies, actions),
    ensures
        frames_to_scale(actions) == frames_captured(replies),
        frames_to_encode(actions).len() == frames_converted(replies).len(),
        forall|i: int|
            #![trigger frames_to_encode(actions)[i]]
            0 <= i < frames_to_encode(actions).len() ==> frames_to_encode(actions)[i] == (
                frames_converted(replies)[i],
                i as i64,
            ),
        capture_replies_fit(replies),
        capture_after(replies).wf(),
        match capture_after(replies) {
            CaptureRun::Receiving { frame } | CaptureRun::Scaling { frame } => frame
                == frames_converted(replies).len(),
            CaptureRun::Encoding { frame } => frame + 1 == frames_converted(replies).len(),
            CaptureRun::StoppingStream | CaptureRun::FinishingEncoder | CaptureRun::Finished => true,
            CaptureRun::Failed => true,
            _ => frames_converted(replies).len() == 0,
        },
    decreases replies.len(),
{
    if replies.len() > 0 {
        lemma_capture_trace(replies.drop_last(), actions.drop_last());
        let before = frames_to_encode(actions.drop_last());
        assert forall|i: int|
            #![trigger frames_to_encode(actions)[i]]
            0 <= i < frames_to_encode(actions).len() implies frames_to_encode(actions)[i] == (
            frames_converted(replies)[i],
            i as i64,
        ) by {
            if i < before.len() {
                assert(frames_to_encode(actions)[i] == before[i]);
            }
        }
    }
}

/// On a captured frame of any size, a recording asks to scale that frame: with
/// its width, its height and its bytes.
pub proof fn law_captured_frame_goes_to_the_scaler<F, E>(
    run: CaptureRun,
    raw: RawFrame,
    action: CaptureAction<F, E>,
)
    requires
        run.wf(),
        capture_reply_fits(run, CaptureReply::<F, E>::Captured(raw)),
        capture_action_follows(
            capture_next(run, CaptureReply::<F, E>::Captured(raw)),
            CaptureReply::<F, E>::Captured(raw),
            action,
        ),
    ensures
        run is Receiving,
        action matches CaptureAction::Scale(handed) && handed.width == raw.width && handed.height
            == raw.height && handed.bgra@ == raw.bgra@,
{
}

/// What a recording asks for depends only on how many replies it has had, and on
/// what the last of them brought: three set-up actions behind the start of the
/// stream, then for each of 300 frames a wait, a conversion of what was captured
/// and an encoding of what was converted, then the stream is stopped, the encoder
/// flushed, and the end told.
pub proof fn law_recording_step<F, E>(
    replies: Seq<CaptureReply<F, E>>,
    action: CaptureAction<F, E>,
)
    requires
        replies.len() > 0,
        capture_replies_fit(replies),
        !(replies.last() is Failed),
        capture_action_follows(capture_after(replies), replies.last(), action),
    ensures
        ({
            let n = replies.len() as int;
            &&& n <= 906
            &&& n == 1 ==> (action matches CaptureAction::OpenEncoder { width, height, fps } && width
                == CAPTURE_WIDTH && height == CAPTURE_HEIGHT && fps == CAPTURE_FILE_FPS)
            &&& n == 2 ==> (action matches CaptureAction::OpenScaler(scaler) && scaler.from
                == Pixel::BGRA && scaler.to == Pixel::YUV420P && scaler.width == CAPTURE_WIDTH
                && scaler.height == CAPTURE_HEIGHT && scaler.filter == ScalerFilter::FastBilinear)
            &&& n == 3 ==> (action matches CaptureAction::CreateFile(name) && name@
                == "capture.h264"@)
            &&& 4 <= n < 904 && n % 3 == 1 ==> action is Receive
            &&& 4 <= n < 904 && n % 3 == 2 ==> (replies.last() matches CaptureReply::Captured(raw)
                && action matches CaptureAction::Scale(handed) && handed == raw)
            &&& 4 <= n < 904 && n % 3 == 0 ==> (replies.last() matches CaptureReply::Scaled(scaled)
                && action matches CaptureAction::Encode { frame, pts } && frame == scaled && pts
                == (n - 6) / 3)
            &&& n == 904 ==> action is StopStream
            &&& n == 905 ==> action is FinishEncoder
            &&& n == 906 ==> (action matches CaptureAction::Finished(line) && line@
                == "saved capture.h264 (300 frames, 1280x720 @ 30fps)"@)
        }),
{
    law_recording_follows_its_script(replies);
    if replies.len() == 906 {
        lemma_recording_line();
    }
}

proof fn lemma_recording_line()
    ensures
        video_text("capture.h264"@, 300, 1280, 720, 30)
            == "saved capture.h264 (300 frames, 1280x720 @ 30fps)"@,
{
    lemma_size_and_rate();
    reveal_strlit("capture.h264");
    reveal_strlit("saved capture.h264 (300 frames, 1280x720 @ 30fps)");
    assert(decimal(3) =~= seq!['3']);
    assert(decimal(30) =~= seq!['3', '0']);
    assert(decimal(300) =~= seq!['3', '0', '0']);
    assert(video_text("capture.h264"@, 300, 1280, 720, 30)
        =~= "saved capture.h264 (300 frames, 1280x720 @ 30fps)"@);
}

proof fn lemma_gradient_line()
    ensures
        video_text("out.h264"@, 150, 1280, 720, 30)
            == "saved out.h264 (150 frames, 1280x720 @ 30fps)"@,
{
    lemma_size_and_rate();
    reveal_strlit("out.h264");
    reveal_strlit("saved out.h264 (150 frames, 1280x720 @ 30fps)");
    assert(decimal(1) =~= seq!['1']);
    assert(decimal(15) =~= seq!['1', '5']);
    assert(decimal(150) =~= seq!['1', '5', '0']);
    assert(video_text("out.h264"@, 150, 1280, 720, 30)
        =~= "saved out.h264 (150 frames, 1280x720 @ 30fps)"@);
}

proof fn lemma_size_and_rate()
    ensures
        size_text(1280, 720) == seq!['1', '2', '8', '0', 'x', '7', '2', '0'],
        decimal(30) == seq!['3', '0'],
        "saved "@ == seq!['s', 'a', 'v', 'e', 'd', ' '],
        " ("@ == seq![' ', '('],
        " frames, "@ == seq![' ', 'f', 'r', 'a', 'm', 'e', 's', ',', ' '],
        " @ "@ == seq![' ', '@', ' '],
        "fps)"@ == seq!['f', 'p', 's', ')'],
{
    reveal_strlit("saved ");
    reveal_strlit(" (");
    reveal_strlit(" frames, ");
    reveal_strlit("x");
    reveal_strlit(" @ ");
    reveal_strlit("fps)");
    assert(decimal(1) =~= seq!['1']);
    assert(decimal(12) =~= seq!['1', '2']);
    assert(decimal(128) =~= seq!['1', '2', '8']);
    assert(decimal(1280) =~= seq!['1', '2', '8', '0']);
    assert(decimal(7) =~= seq!['7']);
    assert(decimal(72) =~= seq!['7', '2']);
    assert(decimal(720) =~= seq!['7', '2', '0']);
    assert(decimal(3) =~= seq!['3']);
    assert(decimal(30) =~= seq!['3', '0']);
    assert("x"@ =~= seq!['x']);
    assert(size_text(1280, 720) =~= seq!['1', '2', '8', '0', 'x', '7', '2', '0']);
    assert("saved "@ =~= seq!['s', 'a', 'v', 'e', 'd', ' ']);
    assert(" ("@ =~= seq![' ', '(']);
    assert(" frames, "@ =~= seq![' ', 'f', 'r', 'a', 'm', 'e', 's', ',', ' ']);
    assert(" @ "@ =~= seq![' ', '@', ' ']);
    assert("fps)"@ =~= seq!['f', 'p', 's', ')']);
}

/// A failure ends a recording: it is handed on as it came, at whatever step it
/// came, and nothing is awaited after it.
pub proof fn law_recording_ends_with_a_failure<F, E>(
    run: CaptureRun,
    error: E,
    action: CaptureAction<F, E>,
    later: CaptureReply<F, E>,
)
    requires
        capture_action_follows(
            capture_next(run, CaptureReply::<F, E>::Failed(error)),
            CaptureReply::<F, E>::Failed(error),
            action,
        ),
    ensures
        action == CaptureAction::<F, E>::Failed(error),
        !capture_reply_fits(capture_next(run, CaptureReply::<F, E>::Failed(error)), later),
{
}

/// Only a failure makes a recording fail.
pub proof fn law_recording_fails_only_on_a_failure<F, E>(
    run: CaptureRun,
    reply: CaptureReply<F, E>,
    action: CaptureAction<F, E>,
)
    requires
        run.wf(),
        capture_reply_fits(run, reply),
        capture_action_follows(capture_next(run, reply), reply, action),
    ensures
        action is Failed <==> reply is Failed,
        capture_next(run, reply) is Failed <==> reply is Failed,
{
}

/// A recording awaits every outcome of its steps: a captured frame where it
/// waits for one, a converted frame where it converts, that it was done
/// elsewhere, and a failure at every step.
pub proof fn law_recording_awaits_every_outcome<F, E>(run: CaptureRun, reply: CaptureReply<F, E>)
    ensures
        reply is Failed ==> (capture_reply_fits(run, reply) <==> !(run is Finished) && !(
        run is Failed)),
        reply is Captured ==> (capture_reply_fits(run, reply) <==> run is Receiving),
        reply is Scaled ==> (capture_reply_fits(run, reply) <==> run is Scaling),
        reply is Done ==> (capture_reply_fits(run, reply) <==> !(run is Receiving) && !(
        run is Scaling) && !(run is Finished) && !(run is Failed)),
        run.wf() <==> match run {
            CaptureRun::Receiving { frame }
            | CaptureRun::Scaling { frame }
            | CaptureRun::Encoding { frame } => frame < 300,
            _ => true,
        },
{
}

/// What a test video asks for depends only on how many replies it has had: a
/// file, then the gradient frames 0 to 149, each of the capture size, then the
/// encoder is flushed and the end told.
pub proof fn law_test_video_step<E>(replies: Seq<Result<(), E>>, action: GradientAction<E>)
    requires
        replies.len() > 0,
        gradient_replies_fit(replies),
        gradient_action_follows(gradient_after(replies), replies.last(), action),
    ensures
        ({
            let n = replies.len() as int;
            match replies.last() {
                Err(error) => action == GradientAction::<E>::Failed(error),
                Ok(()) => {
                    &&& n <= 153
                    &&& n == 1 ==> (action matches GradientAction::CreateFile(name) && name@
                        == "out.h264"@)
                    &&& 2 <= n < 152 ==> (action matches GradientAction::Encode {
                        width,
                        height,
                        frame_num,
                    } && width == CAPTURE_WIDTH && height == CAPTURE_HEIGHT && frame_num == n - 2)
                    &&& n == 152 ==> action is FinishEncoder
                    &&& n == 153 ==> (action matches GradientAction::Finished(line) && line@
                        == "saved out.h264 (150 frames, 1280x720 @ 30fps)"@)
                },
            }
        }),
{
    law_test_video_follows_its_script(replies);
    if replies.len() == 153 {
        lemma_gradient_line();
    }
}

/// A test video is running until it is finished or has failed, and a failure is
/// the only way to fail.
pub proof fn law_test_video_runs_on<E>(run: GradientRun, reply: Result<(), E>)
    ensures
        run.is_running() <==> !(run is Finished) && !(run is Failed),
        run.is_running() ==> (gradient_next(run, reply) is Failed <==> reply is Err),
        run.wf() <==> (run matches GradientRun::Encoding { frame } ==> frame < 150),
{
}

/// What a screenshot asks for depends only on how many replies it has had, and
/// on the frame that was captured: wait for a frame, stop the stream, save that
/// frame, and tell its size.
pub proof fn law_screenshot_step<E>(replies: Seq<ScreenshotReply<E>>, action: ScreenshotAction<E>)
    requires
        replies.len() > 0,
        screenshot::replies_fit(replies),
        !(replies.last() is Failed),
        screenshot::action_follows(
            screenshot::state_after(replies.drop_last()),
            replies.last(),
            action,
        ),
    ensures
        ({
            let n = replies.len() as int;
            &&& n <= 4
            &&& n == 1 ==> action is Receive
            &&& n == 2 ==> action is StopStream
            &&& n == 3 ==> (replies[1] matches ScreenshotReply::Captured(frame) && if 4 * frame.width
                <= usize::MAX && 4 * (frame.width * frame.height) <= frame.rgba@.len() {
                action matches ScreenshotAction::Save { image, file } && image.width == frame.width
                    && image.height == frame.height && image.rgba@ == frame.rgba@ && file@
                    == "frame.png"@
            } else {
                action == ScreenshotAction::<E>::Failed(ScreenshotError::SizeMismatch)
            })
            &&& n == 4 ==> (replies[1] matches ScreenshotReply::Captured(frame)
                && action matches ScreenshotAction::Finished(line) && line@ == "saved "@
                + "frame.png"@ + " ("@ + decimal(frame.width as nat) + "x"@ + decimal(
                frame.height as nat,
            ) + ")"@)
        }),
{
    lemma_screenshot_states(replies.drop_last());
    let before = replies.drop_last();
    if replies.len() > 1 {
        assert(before[0] == replies[0]);
    }
    if replies.len() > 2 {
        assert(before[1] == replies[1]);
    }
    if replies.len() == 4 {
        assert(screenshot::state_after(before) is Saving);
        assert(replies[1] matches ScreenshotReply::Captured(frame) && "saved "@ + "frame.png"@
            + " ("@ + decimal(frame.width as nat) + "x"@ + decimal(frame.height as nat) + ")"@
            =~= image_text("frame.png"@, frame.width, frame.height));
    }
}

proof fn lemma_screenshot_states<E>(replies: Seq<ScreenshotReply<E>>)
    requires
        screenshot::replies_fit(replies),
    ensures
        match screenshot::state_after(replies) {
            ScreenshotRun::StartingStream => replies.len() == 0,
            ScreenshotRun::Receiving => replies.len() == 1,
            ScreenshotRun::StoppingStream { frame } => replies.len() == 2 && replies[1]
                == ScreenshotReply::<E>::Captured(frame),
            ScreenshotRun::Saving { width, height } => {
                &&& replies.len() == 3
                &&& replies[1] matches ScreenshotReply::Captured(frame)
                &&& frame.width == width
                &&& frame.height == height
            },
            ScreenshotRun::Finished => replies.len() == 4,
            ScreenshotRun::Failed => replies.len() > 0,
        },
    decreases replies.len(),
{
    if replies.len() > 0 {
        let before = replies.drop_last();
        lemma_screenshot_states(before);
        if before.len() > 1 {
            assert(before[1] == replies[1]);
        }
    }
}

/// A failure ends a screenshot: it is handed on as it came, and nothing is
/// awaited after it. A frame that is too short ends it too.
pub proof fn law_screenshot_ends_with_a_failure<E>(
    run: ScreenshotRun,
    reply: ScreenshotReply<E>,
    action: ScreenshotAction<E>,
    later: ScreenshotReply<E>,
)
    requires
        screenshot::reply_fits(run, reply),
        screenshot::action_follows(run, reply, action),
    ensures
        reply matches ScreenshotReply::Failed(error) ==> action == ScreenshotAction::Failed(
            ScreenshotError::Step(error),
        ),
        action is Failed <==> screenshot::next_state(run, reply) is Failed,
        action is Failed ==> !screenshot::reply_fits(screenshot::next_state(run, reply), later),
        action is Failed ==> reply is Failed || run is StoppingStream,
{
}

/// A screenshot awaits every outcome of its steps.
pub proof fn law_screenshot_awaits_every_outcome<E>(run: ScreenshotRun, reply: ScreenshotReply<E>)
    ensures
        reply is Failed ==> (screenshot::reply_fits(run, reply) <==> !(run is Finished) && !(
        run is Failed)),
        reply is Captured ==> (screenshot::reply_fits(run, reply) <==> run is Receiving),
        reply is Done ==> (screenshot::reply_fits(run, reply) <==> run is StartingStream
            || run is StoppingStream || run is Saving),
{
}

} // verus!
