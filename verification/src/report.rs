//! The lines that tell what was saved.

use vstd::prelude::*;
use vstd::string::*;

verus! {

/// The character of a decimal digit.
pub open spec fn digit_char(d: nat) -> char {
    (48 + d) as char
}

/// A number in decimal notation, without leading zeros.
pub open spec fn decimal(n: nat) -> Seq<char>
    decreases n,
{
    if n < 10 {
        seq![digit_char(n)]
    } else {
        decimal(n / 10).push(digit_char(n % 10))
    }
}

/// The text of a picture size.
pub open spec fn size_text(width: u32, height: u32) -> Seq<char> {
    decimal(width as nat) + "x"@ + decimal(height as nat)
}

/// The text for a video file.
pub open spec fn video_text(
    file: Seq<char>,
    frames: u32,
    width: u32,
    height: u32,
    fps: u32,
) -> Seq<char> {
    "saved "@ + file + " ("@ + decimal(frames as nat) + " frames, "@ + size_text(width, height)
        + " @ "@ + decimal(fps as nat) + "fps)"@
}

/// The text for an image file.
pub open spec fn image_text(file: Seq<char>, width: u32, height: u32) -> Seq<char> {
    "saved "@ + file + " ("@ + size_text(width, height) + ")"@
}

fn digit_str(d: u32) -> (s: &'static str)
    requires
        d < 10,
    ensures
        s@ == seq![digit_char(d as nat)],
{
    proof {
        reveal_strlit("0");
        reveal_strlit("1");
        reveal_strlit("2");
        reveal_strlit("3");
        reveal_strlit("4");
        reveal_strlit("5");
        reveal_strlit("6");
        reveal_strlit("7");
        reveal_strlit("8");
        reveal_strlit("9");
    }
    let s = match d {
        0 => "0",
        1 => "1",
        2 => "2",
        3 => "3",
        4 => "4",
        5 => "5",
        6 => "6",
        7 => "7",
        8 => "8",
        _ => "9",
    };
    assert(s@ =~= seq![digit_char(d as nat)]);
    s
}

/// Append a number in decimal notation.
fn append_decimal(out: &mut String, n: u32)
    ensures
        final(out)@ == old(out)@ + decimal(n as nat),
    decreases n,
{
    let ghost before = out@;
    if n >= 10 {
        append_decimal(out, n / 10);
    }
    out.append(digit_str(n % 10));
    assert(out@ =~= before + decimal(n as nat));
}

fn append_size(out: &mut String, width: u32, height: u32)
    ensures
        final(out)@ == old(out)@ + size_text(width, height),
{
    let ghost before = out@;
    append_decimal(out, width);
    out.append("x");
    append_decimal(out, height);
    assert(out@ =~= before + size_text(width, height));
}

/// Tell that a video file was saved.
pub fn video_report(file: &str, frames: u32, width: u32, height: u32, fps: u32) -> (line: String)
    ensures
        line@ == video_text(file@, frames, width, height, fps),
{
    let mut line = "saved ".to_owned();
    line.append(file);
    line.append(" (");
    append_decimal(&mut line, frames);
    line.append(" frames, ");
    append_size(&mut line, width, height);
    line.append(" @ ");
    append_decimal(&mut line, fps);
    line.append("fps)");
    assert(line@ =~= video_text(file@, frames, width, height, fps));
    line
}

/// Tell that an image file was saved.
pub fn image_report(file: &str, width: u32, height: u32) -> (line: String)
    ensures
        line@ == image_text(file@, width, height),
{
    let mut line = "saved ".to_owned();
    line.append(file);
    line.append(" (");
    append_size(&mut line, width, height);
    line.append(")");
    assert(line@ =~= image_text(file@, width, height));
    line
}

} // verus!
