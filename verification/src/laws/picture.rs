//! Laws on pixels: where each pixel of a picture is found in what is made of it.

use crate::pixels::{
    law_pixels_keep_their_place, packed, rows_fit, rows_present, swap_red_blue, Frame,
    RawFrame,
};
use crate::screenshot::{is_complete, StillImage};
use crate::video::{
    bgra_layout_fits, chroma_side, gradient_layout_fits, lemma_plane_at, neutral, packed_byte,
    plane_of, ramp, Pixel, VideoFrame,
};
use vstd::arithmetic::div_mod::lemma_fundamental_div_mod;
use vstd::arithmetic::mul::{lemma_mul_inequality, lemma_mul_is_distributive_add_other_way};
use vstd::prelude::*;

verus! {

/// The rows that are taken of a buffer are those below `height` that start
/// inside it: all of them, and no others.
pub proof fn law_rows_that_start_inside_are_taken(len: int, height: int, stride: int, row: int)
    requires
        0 <= len,
        0 <= height,
        0 < stride,
        0 <= row,
    ensures
        row < rows_present(len, height, stride) <==> row < height && row * stride < len,
        0 <= rows_present(len, height, stride) <= height,
{
    let chunks = (len + stride - 1) / stride;
    lemma_fundamental_div_mod(len + stride - 1, stride);
    assert(stride * chunks == chunks * stride) by (nonlinear_arith);
    assert(chunks >= 0) by (nonlinear_arith)
        requires
            stride * chunks + (len + stride - 1) % stride == len + stride - 1,
            (len + stride - 1) % stride < stride,
            stride > 0,
            len >= 0,
    ;
    if row < chunks {
        lemma_mul_inequality(row + 1, chunks, stride);
        lemma_mul_is_distributive_add_other_way(stride, row, 1);
    } else {
        lemma_mul_inequality(chunks, row, stride);
    }
}

/// A buffer fits exactly if the picture is addressable and every row below
/// `height` that starts inside the buffer has all of its pixels, before the next
/// row starts and before the buffer ends.
pub proof fn law_buffer_fits_row_by_row(len: int, width: int, height: int, stride: int)
    requires
        0 <= len,
        0 <= width,
        0 <= height,
    ensures
        rows_fit(len, width, height, stride) <==> {
            &&& stride > 0
            &&& 4 * (width * height) <= isize::MAX
            &&& forall|row: int|
                #![trigger row * stride]
                0 <= row < height && row * stride < len ==> 4 * width <= stride && row * stride + 4
                    * width <= len
        },
{
    if stride > 0 {
        let rows = rows_present(len, height, stride);
        law_rows_that_start_inside_are_taken(len, height, stride, 0);
        if rows > 0 {
            law_rows_that_start_inside_are_taken(len, height, stride, rows - 1);
            assert((rows - 1) * stride < len);
            assert(0 * stride == 0);
        }
        if rows_fit(len, width, height, stride) {
            assert forall|row: int|
                #![trigger row * stride]
                0 <= row < height && row * stride < len implies 4 * width <= stride && row * stride
                + 4 * width <= len by {
                law_rows_that_start_inside_are_taken(len, height, stride, row);
                lemma_mul_inequality(row, rows - 1, stride);
            }
        }
    }
}

/// A packed buffer has four bytes for each pixel of the rows that are taken, and
/// nothing else; the swap keeps their number.
pub proof fn law_packed_bytes_are_counted(src: Seq<u8>, width: int, height: int, stride: int)
    requires
        0 <= width,
        0 <= height,
        0 < stride,
    ensures
        ({
            let rows = rows_present(src.len() as int, height, stride);
            let bgra = packed(src, 4 * width, rows, stride);
            bgra.len() == 4 * (width * rows) && swap_red_blue(bgra).len() == 4 * (width * rows)
        }),
{
    let rows = rows_present(src.len() as int, height, stride);
    law_rows_that_start_inside_are_taken(src.len() as int, height, stride, 0);
    assert((4 * width) * rows == 4 * (width * rows)) by (nonlinear_arith);
    assert(width * rows >= 0) by (nonlinear_arith)
        requires
            0 <= width,
            0 <= rows,
    ;
}

/// An image of a buffer that holds every row shows the screen: the pixel at each
/// row and column has the red, green, blue and alpha that the buffer has there.
pub proof fn law_image_shows_the_buffer(
    src: Seq<u8>,
    width: int,
    height: int,
    stride: int,
    frame: Frame,
    x: int,
    y: int,
)
    requires
        0 < stride,
        4 * width <= stride,
        height * stride <= src.len(),
        4 * (width * height) <= isize::MAX,
        0 <= x < width <= u32::MAX,
        0 <= y < height <= u32::MAX,
        frame.is_image_of(src, width, height, stride),
    ensures
        frame.width == width,
        frame.height == height,
        ({
            let to = 4 * (y * frame.width + x);
            let from = y * stride + 4 * x;
            &&& frame.rgba@.len() == 4 * (width * height)
            &&& 0 <= to && to + 4 <= frame.rgba@.len()
            &&& frame.rgba@[to] == src[from + 2]
            &&& frame.rgba@[to + 1] == src[from + 1]
            &&& frame.rgba@[to + 2] == src[from]
            &&& frame.rgba@[to + 3] == src[from + 3]
        }),
{
    let len = src.len() as int;
    lemma_full_buffer(len, width, height, stride);
    law_packed_bytes_are_counted(src, width, height, stride);
    law_pixels_keep_their_place(src, width, height, stride, y, x);
}

/// A packed frame of a buffer that holds every row shows the screen in the
/// buffer's own byte order.
pub proof fn law_packed_frame_shows_the_buffer(
    src: Seq<u8>,
    width: int,
    height: int,
    stride: int,
    frame: RawFrame,
    x: int,
    y: int,
    channel: int,
)
    requires
        0 < stride,
        4 * width <= stride,
        height * stride <= src.len(),
        4 * (width * height) <= isize::MAX,
        0 <= x < width <= u32::MAX,
        0 <= y < height <= u32::MAX,
        0 <= channel < 4,
        frame.is_packed_from(src, width, height, stride),
    ensures
        frame.width == width,
        frame.height == height,
        frame.bgra@.len() == 4 * (width * height),
        frame.bgra@[4 * (y * frame.width + x) + channel] == src[y * stride + 4 * x + channel],
{
    let len = src.len() as int;
    lemma_full_buffer(len, width, height, stride);
    law_packed_bytes_are_counted(src, width, height, stride);
    law_pixels_keep_their_place(src, width, height, stride, y, x);
    let to = 4 * (y * width + x);
    let from = y * stride + 4 * x;
    assert(frame.bgra@.subrange(to, to + 4)[channel] == src.subrange(from, from + 4)[channel]);
}

proof fn lemma_full_buffer(len: int, width: int, height: int, stride: int)
    requires
        0 < stride,
        0 <= width,
        4 * width <= stride,
        0 < height,
        height * stride <= len,
        4 * (width * height) <= isize::MAX,
    ensures
        rows_present(len, height, stride) == height,
        rows_fit(len, width, height, stride),
{
    assert(height * stride >= 0) by (nonlinear_arith)
        requires
            height > 0,
            stride > 0,
    ;
    lemma_mul_is_distributive_add_other_way(stride, height - 1, 1);
    law_rows_that_start_inside_are_taken(len, height, stride, height - 1);
}

/// A frame can be made a picture exactly if it has four bytes for each of its
/// pixels and a row of it is addressable.
pub proof fn law_picture_needs_four_bytes_per_pixel(frame: Frame, image: StillImage)
    requires
        image.width == frame.width,
        image.height == frame.height,
        image.rgba@ == frame.rgba@,
    ensures
        is_complete(frame) <==> 4 * frame.width <= usize::MAX && 4 * (frame.width * frame.height)
            <= frame.rgba@.len(),
        is_complete(frame) <==> image.wf(),
{
}

/// A frame can be laid out exactly if its rows fit in the stride, the plane is
/// addressable, and the frame has four bytes for each of its pixels.
pub proof fn law_layout_needs_whole_rows(raw: RawFrame, stride: int)
    ensures
        bgra_layout_fits(raw, stride) <==> 4 * raw.width <= stride && stride * raw.height
            <= isize::MAX && 4 * (raw.width * raw.height) <= raw.bgra@.len(),
{
}

/// Laying a frame out keeps every pixel at its row and column: the four bytes at
/// each place of the plane are the four bytes that the packed frame has there.
pub proof fn law_laid_out_frame_shows_the_frame(
    raw: RawFrame,
    stride: int,
    frame: VideoFrame,
    x: int,
    y: int,
    channel: int,
)
    requires
        bgra_layout_fits(raw, stride),
        frame.is_layout_of(raw, stride),
        0 <= x < raw.width,
        0 <= y < raw.height,
        0 <= channel < 4,
    ensures
        frame.format == Pixel::BGRA,
        frame.width == raw.width,
        frame.height == raw.height,
        frame.pts is None,
        frame.planes@.len() == 1,
        frame.planes@[0].stride == stride,
        frame.planes@[0].data@.len() == stride * raw.height,
        frame.planes@[0].data@[y * stride + 4 * x + channel] == raw.bgra@[4 * (y * raw.width + x)
            + channel],
{
    lemma_plane_at(
        raw.height as int,
        4 * raw.width,
        stride,
        packed_byte(raw.bgra@, 4 * raw.width),
        y,
        4 * x + channel,
    );
    assert(y * (4 * raw.width) == 4 * (y * raw.width)) by (nonlinear_arith);
}

/// Three strides carry a gradient exactly if each row of a plane fits: a byte
/// for every column of luma, a byte for every two columns of chroma, where a
/// single last column counts as two; and the planes are addressable.
pub proof fn law_gradient_layout_needs_whole_rows(width: u32, height: u32, strides: Seq<usize>)
    ensures
        gradient_layout_fits(width, height, strides) <==> {
            &&& strides.len() == 3
            &&& width <= strides[0]
            &&& width <= 2 * strides[1]
            &&& width <= 2 * strides[2]
            &&& strides[0] * height <= isize::MAX
            &&& strides[1] * ((height + 1) / 2) <= isize::MAX
            &&& strides[2] * ((height + 1) / 2) <= isize::MAX
        },
{
}

/// A gradient frame is the gray ramp in every pixel: the luma of a pixel is its
/// column plus the frame number, modulo 256, and both chroma samples that the
/// pixel shares with its neighbours are 128. A chroma plane has one row for
/// every two rows of the picture: half as many if the height is even.
pub proof fn law_gradient_frame_is_a_gray_ramp(
    width: u32,
    height: u32,
    frame_num: u32,
    strides: Seq<usize>,
    frame: VideoFrame,
    plane: int,
    x: int,
    y: int,
)
    requires
        gradient_layout_fits(width, height, strides),
        frame.is_gradient(width, height, frame_num, strides),
        1 <= plane < 3,
        0 <= x < width,
        0 <= y < height,
    ensures
        frame.format == Pixel::YUV420P,
        frame.width == width,
        frame.height == height,
        frame.pts matches Some(pts) && pts == frame_num,
        frame.planes@.len() == 3,
        frame.planes@[0].stride == strides[0],
        frame.planes@[plane].stride == strides[plane],
        frame.planes@[0].data@.len() == strides[0] * height,
        frame.planes@[0].data@[y * strides[0] + x] == (x + frame_num) % 256,
        height as int % 2 == 0 ==> frame.planes@[plane].data@.len() == strides[plane] * (height as int
            / 2),
        height as int % 2 == 1 ==> frame.planes@[plane].data@.len() == strides[plane] * (height as int
            / 2 + 1),
        frame.planes@[plane].data@[(y / 2) * strides[plane] + x / 2] == 128,
{
    lemma_plane_at(
        height as int,
        width as int,
        strides[0] as int,
        ramp(frame_num as int),
        y,
        x,
    );
    lemma_plane_at(
        chroma_side(height as int),
        chroma_side(width as int),
        strides[plane] as int,
        neutral(),
        y / 2,
        x / 2,
    );
    assert(frame.planes@[plane].stride == strides[plane]);
    assert(frame.planes@[0].stride == strides[0]);
}

} // verus!
