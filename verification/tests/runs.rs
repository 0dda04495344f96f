use remotebridge::capture::{
    Mode, ScalerFilter, CAPTURE_FILE_FPS, CAPTURE_FILE_SECONDS, FRAME_QUEUE, GRADIENT_FPS, GRADIENT_SECONDS,
};
use remotebridge::encoder::{EncoderAction, H264Encoder};
use remotebridge::pixels::{bgra_to_rgba, Frame, RawFrame};
use remotebridge::recording::{
    run_capture, run_gradient, CaptureAction, CaptureReply, CaptureRun, GradientAction,
    GradientRun,
};
use remotebridge::report::{image_report, video_report};
use remotebridge::screenshot::{
    run_screenshot, still_image, ScreenshotAction, ScreenshotError, ScreenshotReply, ScreenshotRun,
};
use remotebridge::streaming::{run_webrtc, StreamAction, StreamReply, StreamRun};
use remotebridge::video::Pixel;

fn raw(tag: u8) -> RawFrame {
    RawFrame {
        width: 1,
        height: 1,
        bgra: vec![tag; 4],
    }
}

fn args(rest: &[&str]) -> Vec<String> {
    let mut args = vec!["host".to_string()];
    args.extend(rest.iter().map(|s| s.to_string()));
    args
}

#[test]
fn first_argument_chooses_the_mode() {
    assert_eq!(Mode::from_args(&args(&["gradient"])), Mode::Gradient);
    assert_eq!(Mode::from_args(&args(&["capture"])), Mode::Capture);
    assert_eq!(Mode::from_args(&args(&["webrtc", "capture"])), Mode::Webrtc);
    assert_eq!(Mode::from_args(&args(&["x", "capture"])), Mode::Screenshot);
    assert_eq!(Mode::from_args(&args(&["Gradient"])), Mode::Screenshot);
    assert_eq!(Mode::from_args(&args(&[])), Mode::Screenshot);
    assert_eq!(Mode::from_args(&Vec::new()), Mode::Screenshot);
}

#[test]
fn reports_name_file_and_size() {
    assert_eq!(
        video_report("capture.h264", 300, 1280, 720, 30),
        "saved capture.h264 (300 frames, 1280x720 @ 30fps)"
    );
    assert_eq!(image_report("frame.png", 0, 4294967295), "saved frame.png (0x4294967295)");
}

#[test]
fn test_video_crosses_a_few_keyframes() {
    let (encoder, _): (H264Encoder, EncoderAction<()>) = H264Encoder::new(2, 2, GRADIENT_FPS);
    assert!(GRADIENT_FPS as u32 * GRADIENT_SECONDS >= 3 * encoder.settings.gop);
}

#[test]
fn queue_is_short() {
    assert_eq!(FRAME_QUEUE, 4);
}

#[test]
fn recording_encodes_every_frame_once() {
    let (mut run, mut action): (CaptureRun, CaptureAction<u8, &str>) = run_capture();
    let mut pts = Vec::new();
    let mut order = Vec::new();
    let line = loop {
        let reply = match action {
            CaptureAction::StartStream(config) => {
                assert_eq!((config.width, config.height), (1280, 720));
                assert_eq!(config.format, Pixel::BGRA);
                assert_eq!(config.fps, Some(30));
                order.push("start");
                CaptureReply::Done
            }
            CaptureAction::OpenEncoder { width, height, fps } => {
                assert_eq!((width, height, fps), (1280, 720, 30));
                order.push("encoder");
                CaptureReply::Done
            }
            CaptureAction::OpenScaler(scaler) => {
                assert_eq!((scaler.from, scaler.to), (Pixel::BGRA, Pixel::YUV420P));
                assert_eq!((scaler.width, scaler.height), (1280, 720));
                assert_eq!(scaler.filter, ScalerFilter::FastBilinear);
                order.push("scaler");
                CaptureReply::Done
            }
            CaptureAction::CreateFile(name) => {
                assert_eq!(name, "capture.h264");
                order.push("file");
                CaptureReply::Done
            }
            CaptureAction::Receive => CaptureReply::Captured(raw(pts.len() as u8)),
            CaptureAction::Scale(frame) => CaptureReply::Scaled(frame.bgra[0]),
            CaptureAction::Encode { frame, pts: stamp } => {
                assert_eq!(frame, pts.len() as u8);
                pts.push(stamp);
                CaptureReply::Done
            }
            CaptureAction::StopStream => {
                order.push("stop");
                CaptureReply::Done
            }
            CaptureAction::FinishEncoder => {
                order.push("finish");
                CaptureReply::Done
            }
            CaptureAction::Finished(line) => break line,
            CaptureAction::Failed(_) => unreachable!(),
        };
        assert!(run.awaits(&reply));
        (run, action) = run.react(reply);
    };
    assert_eq!(order, vec!["start", "encoder", "scaler", "file", "stop", "finish"]);
    assert_eq!(pts, (0..300).collect::<Vec<i64>>());
    assert_eq!(pts.len() as u32, CAPTURE_FILE_FPS * CAPTURE_FILE_SECONDS);
    assert_eq!(line, "saved capture.h264 (300 frames, 1280x720 @ 30fps)");
    assert!(matches!(run, CaptureRun::Finished));
}

#[test]
fn recording_ends_with_the_first_failure() {
    for state in [
        CaptureRun::StartingStream,
        CaptureRun::OpeningEncoder,
        CaptureRun::OpeningScaler,
        CaptureRun::CreatingFile,
        CaptureRun::Receiving { frame: 0 },
        CaptureRun::Scaling { frame: 1 },
        CaptureRun::Encoding { frame: 299 },
        CaptureRun::StoppingStream,
        CaptureRun::FinishingEncoder,
    ] {
        let reply: CaptureReply<u8, &str> = CaptureReply::Failed("lost");
        assert!(state.awaits(&reply));
        let (state, action) = state.react(reply);
        assert!(matches!(action, CaptureAction::Failed("lost")));
        assert!(matches!(state, CaptureRun::Failed));
        assert!(!state.awaits(&CaptureReply::<u8, &str>::Done));
    }
}

#[test]
fn recording_tells_replies_that_do_not_fit() {
    type Reply = CaptureReply<u8, &'static str>;
    assert!(!CaptureRun::StartingStream.awaits(&Reply::Scaled(0)));
    assert!(!CaptureRun::Receiving { frame: 0 }.awaits(&Reply::Done));
    assert!(!CaptureRun::Receiving { frame: 300 }.awaits(&Reply::Captured(raw(0))));
    assert!(!CaptureRun::Scaling { frame: 0 }.awaits(&Reply::Captured(raw(0))));
    assert!(!CaptureRun::Encoding { frame: 300 }.awaits(&Reply::Done));
    assert!(!CaptureRun::Finished.awaits(&Reply::Done));
}

#[test]
fn test_video_encodes_the_gradient_frames() {
    let (mut run, mut action): (GradientRun, GradientAction<&str>) = run_gradient();
    let mut frames = Vec::new();
    let mut order = Vec::new();
    let line = loop {
        match action {
            GradientAction::OpenEncoder { width, height, fps } => {
                assert_eq!((width, height, fps), (1280, 720, 30));
                order.push("encoder");
            }
            GradientAction::CreateFile(name) => {
                assert_eq!(name, "out.h264");
                order.push("file");
            }
            GradientAction::Encode {
                width,
                height,
                frame_num,
            } => {
                assert_eq!((width, height), (1280, 720));
                frames.push(frame_num);
            }
            GradientAction::FinishEncoder => order.push("finish"),
            GradientAction::Finished(line) => break line,
            GradientAction::Failed(_) => unreachable!(),
        }
        assert!(run.awaits());
        (run, action) = run.react(Ok(()));
    };
    assert_eq!(order, vec!["encoder", "file", "finish"]);
    assert_eq!(frames, (0..150).collect::<Vec<u32>>());
    assert_eq!(line, "saved out.h264 (150 frames, 1280x720 @ 30fps)");
    assert!(!run.awaits());
}

#[test]
fn test_video_ends_with_the_first_failure() {
    let (run, action): (GradientRun, GradientAction<&str>) =
        GradientRun::Encoding { frame: 7 }.react(Err("full"));
    assert!(matches!(action, GradientAction::Failed("full")));
    assert!(!run.awaits());
    assert!(!GradientRun::Encoding { frame: 150 }.awaits());
}

/// A stream that is about to wait for its first frame.
fn streaming() -> StreamRun {
    let (run, action): (StreamRun, StreamAction<u8, &str>) = run_webrtc();
    assert!(matches!(action, StreamAction::Connect("ws://localhost:8080/ws?role=host")));
    let (run, action) = run.react(StreamReply::<u8, &str>::Done);
    assert!(matches!(action, StreamAction::ShakeHands));
    let (run, action) = run.react(StreamReply::<u8, &str>::Done);
    assert!(matches!(action, StreamAction::StartStream(config) if config.fps == Some(30)));
    let (run, action) = run.react(StreamReply::<u8, &str>::Done);
    assert!(matches!(
        action,
        StreamAction::OpenEncoder {
            width: 1280,
            height: 720,
            fps: 30
        }
    ));
    let (run, action) = run.react(StreamReply::<u8, &str>::Done);
    assert!(matches!(
        action,
        StreamAction::OpenScaler(scaler) if scaler.filter == ScalerFilter::FastBilinear
    ));
    let (run, action) = run.react(StreamReply::<u8, &str>::Done);
    assert!(matches!(action, StreamAction::Announce("streaming, ctrl-c to stop")));
    let (run, action) = run.react(StreamReply::<u8, &str>::Done);
    assert!(matches!(action, StreamAction::Receive));
    run
}

#[test]
fn stream_sends_every_packet_that_has_data() {
    let mut run = streaming();
    let packets: Vec<Vec<u8>> = vec![vec![1], vec![], vec![2, 3], vec![]];
    let mut sent = Vec::new();
    for (n, packet) in packets.iter().enumerate() {
        let (next, action) = run.react(StreamReply::<u8, &str>::Captured(raw(n as u8)));
        assert!(matches!(action, StreamAction::Scale(frame) if frame.bgra == vec![n as u8; 4]));
        let (next, action) = next.react(StreamReply::<u8, &str>::Scaled(n as u8 + 10));
        match action {
            StreamAction::Encode { frame, pts } => {
                assert_eq!(frame, n as u8 + 10);
                assert_eq!(pts, n as i64);
            }
            _ => unreachable!(),
        }
        let (next, action) = next.react(StreamReply::<u8, &str>::Encoded(packet.clone()));
        match action {
            StreamAction::SendSample { data, rate } => {
                assert_eq!(rate, 30);
                sent.push(data);
                let (next, action) = next.react(StreamReply::<u8, &str>::Done);
                assert!(matches!(action, StreamAction::Receive));
                run = next;
            }
            StreamAction::Receive => run = next,
            _ => unreachable!(),
        }
    }
    assert_eq!(sent, vec![vec![1], vec![2, 3]]);
    let (run, action) = run.react(StreamReply::<u8, &str>::Ended);
    assert!(matches!(action, StreamAction::StopStream));
    let (run, action) = run.react(StreamReply::<u8, &str>::Done);
    assert!(matches!(action, StreamAction::Finished));
    assert!(!run.awaits(&StreamReply::<u8, &str>::Done));
}

#[test]
fn stream_ends_with_the_first_failure() {
    for state in [
        StreamRun::Connecting,
        StreamRun::ShakingHands,
        StreamRun::StartingStream,
        StreamRun::OpeningEncoder,
        StreamRun::OpeningScaler,
        StreamRun::Scaling { next_pts: 3 },
        StreamRun::Encoding { next_pts: 3 },
        StreamRun::SendingSample { next_pts: 3 },
        StreamRun::StoppingStream,
    ] {
        let reply: StreamReply<u8, &str> = StreamReply::Failed("lost");
        assert!(state.awaits(&reply));
        let (state, action) = state.react(reply);
        assert!(matches!(action, StreamAction::Failed("lost")));
        assert!(matches!(state, StreamRun::Failed));
    }
}

#[test]
fn stream_tells_replies_that_do_not_fit() {
    type Reply = StreamReply<u8, &'static str>;
    assert!(!StreamRun::Announcing.awaits(&Reply::Failed("x")));
    assert!(!StreamRun::Receiving { next_pts: 0 }.awaits(&Reply::Failed("x")));
    assert!(!StreamRun::Scaling { next_pts: i64::MAX }.awaits(&Reply::Scaled(0)));
    assert!(StreamRun::Scaling {
        next_pts: i64::MAX - 1
    }
    .awaits(&Reply::Scaled(0)));
    assert!(!StreamRun::Encoding { next_pts: 0 }.awaits(&Reply::Done));
}

#[test]
fn screenshot_saves_the_first_frame() {
    let (run, action): (ScreenshotRun, ScreenshotAction<&str>) = run_screenshot();
    match action {
        ScreenshotAction::StartStream(config) => {
            assert_eq!((config.width, config.height), (1280, 720));
            assert_eq!(config.fps, None);
        }
        _ => unreachable!(),
    }
    let (run, action) = run.react(ScreenshotReply::<&str>::Done);
    assert!(matches!(action, ScreenshotAction::Receive));
    let frame = bgra_to_rgba(&[1, 2, 3, 4, 5, 6, 7, 8], 2, 1, 8);
    let (run, action) = run.react(ScreenshotReply::<&str>::Captured(frame));
    assert!(matches!(action, ScreenshotAction::StopStream));
    let (run, action) = run.react(ScreenshotReply::<&str>::Done);
    match action {
        ScreenshotAction::Save { image, file } => {
            assert_eq!(file, "frame.png");
            assert_eq!((image.width, image.height), (2, 1));
            assert_eq!(image.rgba, vec![3, 2, 1, 4, 7, 6, 5, 8]);
        }
        _ => unreachable!(),
    }
    let (run, action) = run.react(ScreenshotReply::<&str>::Done);
    assert!(matches!(action, ScreenshotAction::Finished(line) if line == "saved frame.png (2x1)"));
    assert!(!run.awaits(&ScreenshotReply::<&str>::Done));
}

#[test]
fn incomplete_frame_is_no_picture() {
    let frame = bgra_to_rgba(&[1, 2, 3, 4], 1, 2, 4);
    let run = ScreenshotRun::StoppingStream { frame };
    let (run, action) = run.react(ScreenshotReply::<&str>::Done);
    match action {
        ScreenshotAction::Failed(error) => {
            assert!(matches!(error, ScreenshotError::SizeMismatch));
            assert_eq!(error.text(), Some("frame buffer size did not match dimensions"));
        }
        _ => unreachable!(),
    }
    assert!(matches!(run, ScreenshotRun::Failed));
}

#[test]
fn still_image_needs_four_bytes_per_pixel() {
    let frame = |width: u32, height: u32, len: usize| Frame {
        width,
        height,
        rgba: (0..len).map(|i| i as u8).collect(),
    };
    assert!(still_image(frame(2, 3, 23)).is_none());
    let image = still_image(frame(2, 3, 25)).unwrap();
    assert_eq!((image.width, image.height), (2, 3));
    assert_eq!(image.rgba, (0..25).collect::<Vec<u8>>());
    assert!(still_image(frame(u32::MAX, u32::MAX, 4)).is_none());
    assert!(still_image(frame(0, u32::MAX, 0)).is_some());
    // The samples of one row have to be countable, also where there is no row.
    let wide = 1u32 << 30;
    let countable = (wide as usize).checked_mul(4).is_some();
    assert_eq!(still_image(frame(wide, 0, 0)).is_some(), countable);
}

#[test]
fn screenshot_ends_with_the_first_failure() {
    for state in [
        ScreenshotRun::StartingStream,
        ScreenshotRun::Receiving,
        ScreenshotRun::StoppingStream {
            frame: Frame {
                width: 0,
                height: 0,
                rgba: vec![],
            },
        },
        ScreenshotRun::Saving {
            width: 1,
            height: 1,
        },
    ] {
        let reply = ScreenshotReply::Failed("lost");
        assert!(state.awaits(&reply));
        let (state, action) = state.react(reply);
        match action {
            ScreenshotAction::Failed(error) => {
                assert!(matches!(error, ScreenshotError::Step("lost")));
                assert_eq!(error.text(), None);
            }
            _ => unreachable!(),
        }
        assert!(matches!(state, ScreenshotRun::Failed));
    }
    assert!(!ScreenshotRun::Receiving.awaits(&ScreenshotReply::<&str>::Done));
}
