use remotebridge::encoder::{
    EncoderAction, EncoderError, EncoderReply, EncoderStage, H264Encoder, Rational,
};
use remotebridge::video::Pixel;

type Action = EncoderAction<&'static str>;
type Reply = EncoderReply<&'static str>;

fn open_encoder() -> H264Encoder {
    let (mut encoder, action): (H264Encoder, Action) = H264Encoder::new(1280, 720, 30);
    assert!(matches!(action, EncoderAction::Init));
    let action: Action = encoder.react(EncoderReply::Done);
    assert!(matches!(action, EncoderAction::FindCodec));
    let action: Action = encoder.react(EncoderReply::Done);
    assert!(matches!(action, EncoderAction::CreateContext));
    let action: Action = encoder.react(EncoderReply::Done);
    assert!(matches!(action, EncoderAction::Open));
    let action: Action = encoder.react(EncoderReply::Done);
    assert!(matches!(action, EncoderAction::Opened));
    assert_eq!(encoder.stage, EncoderStage::Ready);
    encoder
}

/// Feed replies until the encoder reports an end, collecting what it writes.
fn drain(encoder: &mut H264Encoder, replies: Vec<Reply>) -> (Vec<u8>, Action) {
    let mut out = Vec::new();
    for reply in replies {
        assert!(encoder.awaits(&reply));
        match encoder.react(reply) {
            EncoderAction::ReceivePacket => {}
            EncoderAction::Write(data) => out.extend(data),
            end => return (out, end),
        }
    }
    panic!("the replies ran out");
}

#[test]
fn settings_are_for_low_latency() {
    let (encoder, _): (H264Encoder, Action) = H264Encoder::new(640, 480, 60);
    let settings = &encoder.settings;
    assert_eq!(settings.codec, "libx264");
    assert_eq!((settings.width, settings.height), (640, 480));
    assert_eq!(settings.format, Pixel::YUV420P);
    assert_eq!(settings.time_base, Rational { num: 1, den: 60 });
    assert_eq!(settings.frame_rate, Rational { num: 60, den: 1 });
    assert_eq!(settings.gop, 60);
    assert_eq!(settings.max_b_frames, 0);
    let options: Vec<(&str, &str)> = settings.options.iter().map(|o| (o.key, o.value)).collect();
    assert_eq!(
        options,
        vec![("preset", "veryfast"), ("tune", "zerolatency"), ("crf", "23")]
    );
}

#[test]
fn negative_rate_wraps_in_the_keyframe_distance() {
    let (encoder, _): (H264Encoder, Action) = H264Encoder::new(2, 2, -1);
    assert_eq!(encoder.settings.gop, u32::MAX);
    assert_eq!(encoder.settings.time_base, Rational { num: 1, den: -1 });
}

#[test]
fn opening_goes_through_its_steps() {
    let encoder = open_encoder();
    assert_eq!(encoder.settings.gop, 30);
}

#[test]
fn missing_codec_is_reported() {
    let (mut encoder, _): (H264Encoder, Action) = H264Encoder::new(2, 2, 30);
    let _: Action = encoder.react(EncoderReply::Done);
    match encoder.react(Reply::NotFound) {
        EncoderAction::Failed(error) => {
            assert!(matches!(error, EncoderError::CodecNotFound));
            assert_eq!(error.text(), Some("libx264 not found in this FFmpeg build"));
        }
        _ => unreachable!(),
    }
    assert_eq!(encoder.stage, EncoderStage::Closed);
}

#[test]
fn failure_to_open_closes_the_encoder() {
    for steps in [0, 2, 3] {
        let (mut encoder, _): (H264Encoder, Action) = H264Encoder::new(2, 2, 30);
        for _ in 0..steps {
            let _: Action = encoder.react(EncoderReply::Done);
        }
        match encoder.react(Reply::Failed("broken")) {
            EncoderAction::Failed(error) => {
                assert!(matches!(error, EncoderError::Codec("broken")));
                assert_eq!(error.text(), None);
            }
            _ => unreachable!(),
        }
        assert_eq!(encoder.stage, EncoderStage::Closed);
    }
}

#[test]
fn packets_are_written_in_order_until_the_codec_refuses() {
    let mut encoder = open_encoder();
    assert_eq!(encoder.encode("frame"), "frame");
    let (out, end) = drain(
        &mut encoder,
        vec![
            Reply::Done,
            Reply::Packet(Some(vec![1, 2])),
            Reply::Done,
            Reply::Packet(None),
            Reply::Packet(Some(vec![3])),
            Reply::Done,
            Reply::Failed("again"),
        ],
    );
    assert_eq!(out, vec![1, 2, 3]);
    assert!(matches!(end, EncoderAction::Encoded));
    assert_eq!(encoder.stage, EncoderStage::Ready);
}

#[test]
fn refused_frame_and_failed_write_are_failures() {
    let mut encoder = open_encoder();
    encoder.encode(());
    let (out, end) = drain(&mut encoder, vec![Reply::Failed("refused")]);
    assert!(out.is_empty());
    assert!(matches!(end, EncoderAction::Failed(EncoderError::Codec("refused"))));
    assert_eq!(encoder.stage, EncoderStage::Ready);
    encoder.encode(());
    let (out, end) = drain(
        &mut encoder,
        vec![
            Reply::Done,
            Reply::Packet(Some(vec![7])),
            Reply::Failed("disk full"),
        ],
    );
    assert_eq!(out, vec![7]);
    assert!(matches!(end, EncoderAction::Failed(EncoderError::Codec("disk full"))));
    assert_eq!(encoder.stage, EncoderStage::Ready);
}

#[test]
fn finish_flushes_and_closes() {
    let encoder = open_encoder();
    let (mut encoder, action): (H264Encoder, Action) = encoder.finish();
    assert!(matches!(action, EncoderAction::SendEof));
    let (out, end) = drain(
        &mut encoder,
        vec![
            Reply::Done,
            Reply::Packet(Some(vec![9, 8])),
            Reply::Done,
            Reply::Failed("end of file"),
        ],
    );
    assert_eq!(out, vec![9, 8]);
    assert!(matches!(end, EncoderAction::Finished));
    assert_eq!(encoder.stage, EncoderStage::Closed);
}

#[test]
fn failed_flush_closes_too() {
    let (mut encoder, _): (H264Encoder, Action) = open_encoder().finish();
    let (_, end) = drain(&mut encoder, vec![Reply::Failed("gone")]);
    assert!(matches!(end, EncoderAction::Failed(EncoderError::Codec("gone"))));
    assert_eq!(encoder.stage, EncoderStage::Closed);
}

#[test]
fn replies_that_do_not_fit_are_told() {
    let encoder = open_encoder();
    assert!(!encoder.awaits(&Reply::Done));
    let (fresh, _): (H264Encoder, Action) = H264Encoder::new(2, 2, 30);
    assert!(fresh.awaits(&Reply::Done));
    assert!(fresh.awaits(&Reply::Failed("x")));
    assert!(!fresh.awaits(&Reply::NotFound));
    assert!(!fresh.awaits(&Reply::Packet(None)));
}
