//! Laws on what is configured, chosen and told.

use crate::capture::{
    CaptureConfig, Mode, ScalerFilter, ScalerSettings, CAPTURE_HEIGHT, CAPTURE_WIDTH,
};
use crate::encoder::EncoderSettings;
use crate::report::{decimal, digit_char, image_text, video_text};
use crate::video::Pixel;
use vstd::prelude::*;

verus! {

/// Every capture configuration, with or without a rate, asks for the capture
/// size in BGRA, which is what the packing of captured buffers reads, and for
/// exactly the rate that was given.
pub proof fn law_capture_is_bgra_at_capture_size(fps: Option<u32>)
    ensures
        CaptureConfig::at_rate(fps).width == CAPTURE_WIDTH,
        CaptureConfig::at_rate(fps).height == CAPTURE_HEIGHT,
        CaptureConfig::at_rate(fps).format == Pixel::BGRA,
        CaptureConfig::at_rate(fps).fps == fps,
{
}

/// The stages of the pipeline fit together: the scaler reads the format and the
/// size that is captured, and produces the format and the size that an encoder
/// opened for the capture takes.
pub proof fn law_pipeline_fits_together(
    fps: Option<u32>,
    settings: EncoderSettings,
    rate: i32,
)
    requires
        settings.are_for(CAPTURE_WIDTH, CAPTURE_HEIGHT, rate),
    ensures
        ScalerSettings::for_capture().from == CaptureConfig::at_rate(fps).format,
        ScalerSettings::for_capture().width == CaptureConfig::at_rate(fps).width,
        ScalerSettings::for_capture().height == CaptureConfig::at_rate(fps).height,
        ScalerSettings::for_capture().to == settings.format,
        ScalerSettings::for_capture().width == settings.width,
        ScalerSettings::for_capture().height == settings.height,
        ScalerSettings::for_capture().filter == ScalerFilter::FastBilinear,
        settings.format == Pixel::YUV420P,
{
}

/// An encoder is set up for its own picture and rate: its size is the picture's,
/// a frame lasts one unit of the time base, the keyframe distance is the rate as
/// a 32-bit count, no frame waits for a later one, and nothing is held back for
/// lookahead.
pub proof fn law_encoder_is_for_its_picture(
    settings: EncoderSettings,
    width: u32,
    height: u32,
    fps: i32,
)
    requires
        settings.are_for(width, height, fps),
    ensures
        settings.codec@ == "libx264"@,
        settings.width == width,
        settings.height == height,
        settings.format == Pixel::YUV420P,
        settings.time_base.num == 1 && settings.time_base.den == fps,
        settings.frame_rate.num == fps && settings.frame_rate.den == 1,
        fps >= 0 ==> settings.gop == fps,
        (settings.gop - fps) % 0x1_0000_0000 == 0,
        settings.max_b_frames == 0,
        settings.options@.len() == 3,
        settings.options@[0].key@ == "preset"@,
        settings.options@[0].value@ == "veryfast"@,
        settings.options@[1].key@ == "tune"@,
        settings.options@[1].value@ == "zerolatency"@,
        settings.options@[2].key@ == "crf"@,
        settings.options@[2].value@ == "23"@,
{
}

/// Each mode has one name, and whatever is not one of the three names, or is not
/// there, means a screenshot.
pub proof fn law_modes_by_name(argument: Option<Seq<char>>)
    ensures
        Mode::named(argument) == Mode::Gradient <==> argument == Some("gradient"@),
        Mode::named(argument) == Mode::Capture <==> argument == Some("capture"@),
        Mode::named(argument) == Mode::Webrtc <==> argument == Some("webrtc"@),
        Mode::named(argument) == Mode::Screenshot <==> !(argument == Some("gradient"@) || argument
            == Some("capture"@) || argument == Some("webrtc"@)),
{
    reveal_strlit("gradient");
    reveal_strlit("capture");
    reveal_strlit("webrtc");
    assert("gradient"@.len() == 8 && "capture"@.len() == 7 && "webrtc"@.len() == 6);
}

/// The number that a string of decimal digits stands for.
pub open spec fn value_of(digits: Seq<char>) -> int
    decreases digits.len(),
{
    if digits.len() == 0 {
        0
    } else {
        10 * value_of(digits.drop_last()) + (digits.last() as int - '0' as int)
    }
}

/// A number in decimal notation reads back as that number, is written in digits
/// only, and has no leading zero unless it is zero itself.
pub proof fn law_decimal_reads_back(n: nat)
    ensures
        value_of(decimal(n)) == n,
        decimal(n).len() > 0,
        forall|i: int| 0 <= i < decimal(n).len() ==> '0' <= #[trigger] decimal(n)[i] <= '9',
        n > 0 ==> decimal(n)[0] != '0',
        n == 0 ==> decimal(n).len() == 1,
    decreases n,
{
    if n < 10 {
        assert(decimal(n) =~= seq![digit_char(n)]);
        assert(decimal(n).drop_last() =~= Seq::<char>::empty());
        assert(value_of(decimal(n).drop_last()) == 0);
    } else {
        law_decimal_reads_back(n / 10);
        assert(decimal(n).drop_last() =~= decimal(n / 10));
    }
}

/// The line for a video names the file and, in this order, the number of frames,
/// the width, the height and the rate, between fixed words.
pub proof fn law_video_line(file: Seq<char>, frames: u32, width: u32, height: u32, fps: u32)
    ensures
        video_text(file, frames, width, height, fps) == "saved "@ + (file + (" ("@ + (decimal(
            frames as nat,
        ) + (" frames, "@ + (decimal(width as nat) + ("x"@ + (decimal(height as nat) + (" @ "@ + (
        decimal(fps as nat) + "fps)"@))))))))),
{
    assert(video_text(file, frames, width, height, fps) =~= "saved "@ + (file + (" ("@ + (decimal(
        frames as nat,
    ) + (" frames, "@ + (decimal(width as nat) + ("x"@ + (decimal(height as nat) + (" @ "@ + (
    decimal(fps as nat) + "fps)"@))))))))));
}

/// The line for an image names the file and, in this order, the width and the
/// height, between fixed words.
pub proof fn law_image_line(file: Seq<char>, width: u32, height: u32)
    ensures
        image_text(file, width, height) == "saved "@ + (file + (" ("@ + (decimal(width as nat) + (
        "x"@ + (decimal(height as nat) + ")"@))))),
{
    assert(image_text(file, width, height) =~= "saved "@ + (file + (" ("@ + (decimal(width as nat)
        + ("x"@ + (decimal(height as nat) + ")"@))))));
}

} // verus!
