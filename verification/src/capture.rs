//! What the program can be asked to do, and the settings it captures with.

use crate::video::Pixel;
use vstd::prelude::*;

verus! {

pub const CAPTURE_WIDTH: u32 = 1280;

pub const CAPTURE_HEIGHT: u32 = 720;

/// Frame rate and length of the synthetic test video: long enough to cross a
/// few keyframes and to show visible motion.
pub const GRADIENT_FPS: i32 = 30;

pub const GRADIENT_SECONDS: u32 = 5;

/// Frame rate of captured video, and the length of a recording. 30fps is plenty
/// for screen content and keeps the encoder's workload modest.
pub const CAPTURE_FILE_FPS: u32 = 30;

pub const CAPTURE_FILE_SECONDS: u32 = 10;

/// How many captured frames may wait for the streaming encoder.
pub const FRAME_QUEUE: usize = 4;

/// What to do, as the first argument says.
#[derive(Clone, Copy, Debug, PartialEq, Eq, Structural)]
pub enum Mode {
    /// Encode a synthetic test video to a file.
    Gradient,
    /// Record the screen to a file.
    Capture,
    /// Stream the screen to a viewer.
    Webrtc,
    /// Save one frame as an image.
    Screenshot,
}

/// How a capture stream is configured.
#[derive(Clone, Copy, Debug)]
pub struct CaptureConfig {
    pub width: u32,
    pub height: u32,
    pub format: Pixel,
    /// The rate to ask for; without one the stream has its own.
    pub fps: Option<u32>,
}

/// How a scaler samples the picture.
#[derive(Clone, Copy, Debug, PartialEq, Eq, Structural)]
pub enum ScalerFilter {
    FastBilinear,
    Bilinear,
    Bicubic,
}

/// How captured frames are made into frames for the encoder.
#[derive(Clone, Copy, Debug)]
pub struct ScalerSettings {
    pub from: Pixel,
    pub to: Pixel,
    pub width: u32,
    pub height: u32,
    pub filter: ScalerFilter,
}

impl CaptureConfig {
    /// BGRA at the capture size.
    pub open spec fn at_rate(fps: Option<u32>) -> CaptureConfig {
        CaptureConfig { width: CAPTURE_WIDTH, height: CAPTURE_HEIGHT, format: Pixel::BGRA, fps }
    }

    pub fn new(fps: Option<u32>) -> (config: CaptureConfig)
        ensures
            config.width == CAPTURE_WIDTH,
            config.height == CAPTURE_HEIGHT,
            config.format == Pixel::BGRA,
            config.fps == fps,
            config == CaptureConfig::at_rate(fps),
    {
        CaptureConfig { width: CAPTURE_WIDTH, height: CAPTURE_HEIGHT, format: Pixel::BGRA, fps }
    }
}

impl ScalerSettings {
    /// A pure format conversion, with no resize and the cheapest filter.
    pub open spec fn for_capture() -> ScalerSettings {
        ScalerSettings {
            from: Pixel::BGRA,
            to: Pixel::YUV420P,
            width: CAPTURE_WIDTH,
            height: CAPTURE_HEIGHT,
            filter: ScalerFilter::FastBilinear,
        }
    }

    pub fn new() -> (settings: ScalerSettings)
        ensures
            settings.from == Pixel::BGRA,
            settings.to == Pixel::YUV420P,
            settings.width == CAPTURE_WIDTH,
            settings.height == CAPTURE_HEIGHT,
            settings.filter == ScalerFilter::FastBilinear,
            settings == ScalerSettings::for_capture(),
    {
        ScalerSettings {
            from: Pixel::BGRA,
            to: Pixel::YUV420P,
            width: CAPTURE_WIDTH,
            height: CAPTURE_HEIGHT,
            filter: ScalerFilter::FastBilinear,
        }
    }
}

impl Mode {
    /// The mode that an argument names; any other, or none, means a screenshot.
    pub open spec fn named(argument: Option<Seq<char>>) -> Mode {
        if argument == Some("gradient"@) {
            Mode::Gradient
        } else if argument == Some("capture"@) {
            Mode::Capture
        } else if argument == Some("webrtc"@) {
            Mode::Webrtc
        } else {
            Mode::Screenshot
        }
    }

    /// Choose the mode by the argument behind the program's name.
    pub fn from_args(args: &Vec<String>) -> (mode: Mode)
        ensures
            mode == Mode::named(
                if args@.len() > 1 {
                    Some(args@[1]@)
                } else {
                    None
                },
            ),
    {
        if args.len() < 2 {
            return Mode::Screenshot;
        }
        if args[1] == "gradient".to_owned() {
            Mode::Gradient
        } else if args[1] == "capture".to_owned() {
            Mode::Capture
        } else if args[1] == "webrtc".to_owned() {
            Mode::Webrtc
        } else {
            Mode::Screenshot
        }
    }
}

} // verus!
