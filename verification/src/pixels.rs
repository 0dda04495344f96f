//! Captured pixels: taking the row padding out of a capture buffer and putting
//! its channels in the order an image file wants.

use vstd::arithmetic::div_mod::{lemma_fundamental_div_mod, lemma_fundamental_div_mod_converse};
use vstd::arithmetic::mul::{lemma_mul_inequality, lemma_mul_is_distributive_add_other_way};
use vstd::prelude::*;

verus! {

/// One captured frame, already converted to tightly packed RGBA.
#[derive(Debug)]
pub struct Frame {
    pub width: u32,
    pub height: u32,
    pub rgba: Vec<u8>,
}

/// One captured frame, still in BGRA order but with the row padding stripped.
#[derive(Debug)]
pub struct RawFrame {
    pub width: u32,
    pub height: u32,
    pub bgra: Vec<u8>,
}

/// How many rows of a buffer of `len` bytes are taken: one for every `stride`
/// bytes, the last of which may be incomplete, and never more than `height`.
pub open spec fn rows_present(len: int, height: int, stride: int) -> int {
    let chunks = (len + stride - 1) / stride;
    if height < chunks {
        height
    } else {
        chunks
    }
}

/// Whether a buffer of `len` bytes can be read as rows of `width` four-byte
/// pixels that start `stride` bytes apart: every row that is taken holds all
/// of its pixels, and the packed result has an addressable size.
pub open spec fn rows_fit(len: int, width: int, height: int, stride: int) -> bool {
    let rows = rows_present(len, height, stride);
    &&& stride > 0
    &&& 4 * (width * height) <= isize::MAX
    &&& rows > 0 ==> 4 * width <= stride && (rows - 1) * stride + 4 * width <= len
}

/// The first `row_bytes` bytes of each of the first `rows` rows of `src`, one
/// row directly behind the other.
pub open spec fn packed(src: Seq<u8>, row_bytes: int, rows: int, stride: int) -> Seq<u8> {
    Seq::new((row_bytes * rows) as nat, |i: int| src[(i / row_bytes) * stride + i % row_bytes])
}

/// Where the byte at `i` comes from when the first and the third byte of every
/// four-byte pixel change places.
pub open spec fn swapped_index(i: int) -> int {
    if i % 4 == 0 {
        i + 2
    } else if i % 4 == 2 {
        i - 2
    } else {
        i
    }
}

/// Four-byte pixels with their first and third byte exchanged.
pub open spec fn swap_red_blue(pixels: Seq<u8>) -> Seq<u8> {
    Seq::new(pixels.len(), |i: int| pixels[swapped_index(i)])
}

impl RawFrame {
    /// This is the packed frame of a captured buffer.
    pub open spec fn is_packed_from(
        self,
        src: Seq<u8>,
        width: int,
        height: int,
        stride: int,
    ) -> bool {
        &&& self.width == width % 0x1_0000_0000
        &&& self.height == height % 0x1_0000_0000
        &&& self.bgra@ == packed(
            src,
            4 * width,
            rows_present(src.len() as int, height, stride),
            stride,
        )
    }
}

impl Frame {
    /// This is the image of a captured buffer.
    pub open spec fn is_image_of(
        self,
        src: Seq<u8>,
        width: int,
        height: int,
        stride: int,
    ) -> bool {
        &&& self.width == width % 0x1_0000_0000
        &&& self.height == height % 0x1_0000_0000
        &&& self.rgba@ == swap_red_blue(
            packed(src, 4 * width, rows_present(src.len() as int, height, stride), stride),
        )
    }
}

/// One more row appends that row's bytes.
proof fn lemma_packed_step(src: Seq<u8>, row_bytes: int, rows: int, stride: int)
    requires
        0 <= row_bytes <= stride,
        0 <= rows,
        rows * stride + row_bytes <= src.len(),
    ensures
        packed(src, row_bytes, rows + 1, stride) == packed(src, row_bytes, rows, stride)
            + src.subrange(rows * stride, rows * stride + row_bytes),
        0 <= rows * stride,
        packed(src, row_bytes, rows, stride).len() == row_bytes * rows,
{
    assert(rows * stride >= 0) by (nonlinear_arith)
        requires
            rows >= 0,
            stride >= 0,
    ;
    assert(row_bytes * rows >= 0) by (nonlinear_arith)
        requires
            rows >= 0,
            row_bytes >= 0,
    ;
    assert(row_bytes * (rows + 1) == row_bytes * rows + row_bytes) by (nonlinear_arith);
    let longer = packed(src, row_bytes, rows + 1, stride);
    let shorter = packed(src, row_bytes, rows, stride);
    let row = src.subrange(rows * stride, rows * stride + row_bytes);
    assert forall|i: int| 0 <= i < longer.len() implies longer[i] == (shorter + row)[i] by {
        if i >= row_bytes * rows {
            let j = i - row_bytes * rows;
            assert(row_bytes * rows == rows * row_bytes) by (nonlinear_arith);
            lemma_fundamental_div_mod_converse(i, row_bytes, rows, j);
            assert((shorter + row)[i] == row[j]);
        }
    }
    assert(longer =~= shorter + row);
}

/// A row that is taken lies inside the buffer.
proof fn lemma_row_in_bounds(len: int, width: int, height: int, stride: int, row: int)
    requires
        rows_fit(len, width, height, stride),
        0 <= width,
        0 <= row < rows_present(len, height, stride),
    ensures
        0 <= row * stride,
        row * stride + 4 * width <= len,
        row * stride < len,
        4 * width <= stride,
{
    let rows = rows_present(len, height, stride);
    lemma_mul_inequality(row, rows - 1, stride);
    assert(row * stride >= 0) by (nonlinear_arith)
        requires
            row >= 0,
            stride > 0,
    ;
    lemma_fundamental_div_mod(len + stride - 1, stride);
    let chunks = (len + stride - 1) / stride;
    assert(row + 1 <= chunks);
    lemma_mul_inequality(row + 1, chunks, stride);
    assert(stride * chunks == chunks * stride) by (nonlinear_arith);
    lemma_mul_is_distributive_add_other_way(stride, row, 1);
}

/// A row that starts inside the buffer, below `height`, is taken.
proof fn lemma_row_present(len: int, height: int, stride: int, row: int)
    requires
        stride > 0,
        0 <= row < height,
        row * stride < len,
    ensures
        row < rows_present(len, height, stride),
{
    let chunks = (len + stride - 1) / stride;
    lemma_fundamental_div_mod(len + stride - 1, stride);
    if chunks <= row {
        lemma_mul_inequality(chunks, row, stride);
        assert(stride * chunks == chunks * stride) by (nonlinear_arith);
    }
}

/// The swap works pixel by pixel, so it can be done piece by piece.
proof fn lemma_swap_append(a: Seq<u8>, b: Seq<u8>)
    requires
        a.len() % 4 == 0,
        b.len() % 4 == 0,
    ensures
        swap_red_blue(a + b) == swap_red_blue(a) + swap_red_blue(b),
{
    assert(swap_red_blue(a + b) =~= swap_red_blue(a) + swap_red_blue(b));
}

/// What is kept of a count that has to fit in 32 bits.
fn low_u32(n: usize) -> (r: u32)
    ensures
        r == n as int % 0x1_0000_0000,
{
    let wide: u64 = n as u64;
    assert(wide as u32 == wide % 0x1_0000_0000) by (bit_vector);
    wide as u32
}

/// Strip the row padding from a captured BGRA buffer.
/// `stride` is bytes per row in the source, which may exceed width * 4.
pub fn pack_bgra(src: &[u8], width: usize, height: usize, stride: usize) -> (frame: RawFrame)
    requires
        rows_fit(src@.len() as int, width as int, height as int, stride as int),
    ensures
        frame.is_packed_from(src@, width as int, height as int, stride as int),
        frame.width == width as int % 0x1_0000_0000,
        frame.height == height as int % 0x1_0000_0000,
        frame.bgra@ == packed(
            src@,
            4 * width,
            rows_present(src@.len() as int, height as int, stride as int),
            stride as int,
        ),
{
    let ghost len = src@.len() as int;
    let ghost rows = rows_present(len, height as int, stride as int);
    assert(width * height >= 0) by (nonlinear_arith);
    let mut bgra: Vec<u8> = Vec::with_capacity(width * height * 4);
    let mut row: usize = 0;
    let mut start: usize = 0;
    proof {
        lemma_rows_nonnegative(len, height as int, stride as int);
        assert(bgra@ =~= packed(src@, 4 * width, 0, stride as int));
    }
    while row < height && start < src.len()
        invariant
            len == src@.len(),
            rows == rows_present(len, height as int, stride as int),
            rows_fit(len, width as int, height as int, stride as int),
            0 <= row <= rows,
            start == row * stride || start == len && row == rows,
            bgra@ == packed(src@, 4 * width, row as int, stride as int),
        decreases height - row,
    {
        proof {
            lemma_row_present(len, height as int, stride as int, row as int);
            lemma_row_in_bounds(len, width as int, height as int, stride as int, row as int);
            lemma_packed_step(src@, 4 * width, row as int, stride as int);
        }
        bgra.extend_from_slice(&src[start..start + width * 4]);
        assert(bgra@ =~= packed(src@, 4 * width, row + 1, stride as int));
        start = next_row(src.len(), height, stride, row, start);
        row += 1;
    }
    proof {
        if row < rows {
            lemma_row_in_bounds(len, width as int, height as int, stride as int, row as int);
        }
    }
    RawFrame { width: low_u32(width), height: low_u32(height), bgra }
}

/// Copy a padded BGRA buffer into a tight RGBA buffer.
/// `stride` is bytes per row in the source, which may exceed width * 4.
pub fn bgra_to_rgba(src: &[u8], width: usize, height: usize, stride: usize) -> (frame: Frame)
    requires
        rows_fit(src@.len() as int, width as int, height as int, stride as int),
    ensures
        frame.is_image_of(src@, width as int, height as int, stride as int),
        frame.width == width as int % 0x1_0000_0000,
        frame.height == height as int % 0x1_0000_0000,
        frame.rgba@ == swap_red_blue(
            packed(
                src@,
                4 * width,
                rows_present(src@.len() as int, height as int, stride as int),
                stride as int,
            ),
        ),
{
    let ghost len = src@.len() as int;
    let ghost rows = rows_present(len, height as int, stride as int);
    assert(width * height >= 0) by (nonlinear_arith);
    let mut rgba: Vec<u8> = Vec::with_capacity(width * height * 4);
    let mut row: usize = 0;
    let mut start: usize = 0;
    proof {
        lemma_rows_nonnegative(len, height as int, stride as int);
        assert(rgba@ =~= swap_red_blue(packed(src@, 4 * width, 0, stride as int)));
    }
    while row < height && start < src.len()
        invariant
            len == src@.len(),
            rows == rows_present(len, height as int, stride as int),
            rows_fit(len, width as int, height as int, stride as int),
            0 <= row <= rows,
            start == row * stride || start == len && row == rows,
            rgba@ == swap_red_blue(packed(src@, 4 * width, row as int, stride as int)),
        decreases height - row,
    {
        let ghost done = packed(src@, 4 * width, row as int, stride as int);
        proof {
            lemma_row_present(len, height as int, stride as int, row as int);
            lemma_row_in_bounds(len, width as int, height as int, stride as int, row as int);
            lemma_packed_step(src@, 4 * width, row as int, stride as int);
            assert(done.len() % 4 == 0) by {
                assert((4 * width) * row == 4 * (width * row)) by (nonlinear_arith);
            }
            assert(rgba@ =~= swap_red_blue(done) + swap_red_blue(
                src@.subrange(start as int, start as int),
            ));
        }
        let mut col: usize = 0;
        while col < width
            invariant
                len == src@.len() <= usize::MAX,
                col <= width,
                start + 4 * width <= len,
                done.len() % 4 == 0,
                rgba@ == swap_red_blue(done) + swap_red_blue(
                    src@.subrange(start as int, start + 4 * col),
                ),
            decreases width - col,
        {
            let at: usize = start + col * 4;
            rgba.push(src[at + 2]);
            rgba.push(src[at + 1]);
            rgba.push(src[at]);
            rgba.push(src[at + 3]);
            assert(rgba@ =~= swap_red_blue(done) + swap_red_blue(
                src@.subrange(start as int, start + 4 * (col + 1)),
            ));
            col += 1;
        }
        proof {
            lemma_swap_append(done, src@.subrange(start as int, start + 4 * width));
        }
        start = next_row(src.len(), height, stride, row, start);
        row += 1;
    }
    proof {
        if row < rows {
            lemma_row_in_bounds(len, width as int, height as int, stride as int, row as int);
        }
    }
    Frame { width: low_u32(width), height: low_u32(height), rgba }
}

/// Where the row after `row` starts, or the end of the buffer if there is none.
fn next_row(len: usize, height: usize, stride: usize, row: usize, start: usize) -> (next: usize)
    requires
        stride > 0,
        row < rows_present(len as int, height as int, stride as int),
        start == row * stride,
        start < len,
    ensures
        next == (row + 1) * stride || next == len && row + 1 == rows_present(
            len as int,
            height as int,
            stride as int,
        ),
{
    proof {
        lemma_mul_is_distributive_add_other_way(stride as int, row as int, 1);
    }
    if len - start > stride {
        start + stride
    } else {
        proof {
            let rows = rows_present(len as int, height as int, stride as int);
            let chunks = (len + stride - 1) / stride as int;
            lemma_fundamental_div_mod(len + stride - 1, stride as int);
            assert(stride * chunks == chunks * stride) by (nonlinear_arith);
            if row + 1 < chunks {
                lemma_mul_inequality(row + 2, chunks, stride as int);
                lemma_mul_is_distributive_add_other_way(stride as int, row as int, 2);
            }
        }
        len
    }
}

/// Whether a captured buffer can be packed: the condition under which
/// [`pack_bgra`] and [`bgra_to_rgba`] may be called.
pub fn buffer_fits(len: usize, width: usize, height: usize, stride: usize) -> (r: bool)
    ensures
        r == rows_fit(len as int, width as int, height as int, stride as int),
{
    if stride == 0 {
        return false;
    }
    assert(width * height >= 0) by (nonlinear_arith);
    match width.checked_mul(height) {
        None => false,
        Some(pixels) => {
            if pixels > isize::MAX as usize / 4 {
                return false;
            }
            let mut rows: usize = len / stride;
            let ghost q = len as int / stride as int;
            let ghost m = len as int % stride as int;
            proof {
                lemma_fundamental_div_mod(len as int, stride as int);
                lemma_mul_inequality(1, stride as int, q);
                assert(stride * q == q * stride) by (nonlinear_arith);
            }
            if len % stride != 0 {
                rows += 1;
            }
            proof {
                if m == 0 {
                    lemma_fundamental_div_mod_converse(len + stride - 1, stride as int, q, stride - 1);
                } else {
                    lemma_mul_is_distributive_add_other_way(stride as int, q, 1);
                    lemma_fundamental_div_mod_converse(len + stride - 1, stride as int, q + 1, m - 1);
                }
            }
            if height < rows {
                rows = height;
            }
            if rows == 0 {
                return true;
            }
            if width > stride / 4 {
                return false;
            }
            assert((rows - 1) * stride <= len) by {
                assert(rows - 1 <= len as int / stride as int);
                lemma_fundamental_div_mod(len as int, stride as int);
                lemma_mul_inequality(rows - 1, len as int / stride as int, stride as int);
                assert(stride * (len as int / stride as int) == (len as int / stride as int) * stride)
                    by (nonlinear_arith);
            }
            assert((rows - 1) * stride >= 0) by (nonlinear_arith)
                requires
                    rows >= 1,
            ;
            len - (rows - 1) * stride >= width * 4
        },
    }
}

proof fn lemma_rows_nonnegative(len: int, height: int, stride: int)
    requires
        0 <= len,
        0 <= height,
        0 < stride,
    ensures
        0 <= rows_present(len, height, stride) <= height,
{
    assert((len + stride - 1) / stride >= 0) by (nonlinear_arith)
        requires
            len >= 0,
            stride > 0,
    ;
}

/// The bytes of a packed buffer are counted: `row_bytes` for each row.
proof fn lemma_packed_len(src: Seq<u8>, row_bytes: int, rows: int, stride: int)
    requires
        0 <= row_bytes,
        0 <= rows,
    ensures
        packed(src, row_bytes, rows, stride).len() == row_bytes * rows,
{
    assert(row_bytes * rows >= 0) by (nonlinear_arith)
        requires
            rows >= 0,
            row_bytes >= 0,
    ;
}

/// Exchanging the outer channels twice gives the pixels back.
pub proof fn law_swap_undoes_itself(pixels: Seq<u8>)
    requires
        pixels.len() % 4 == 0,
    ensures
        swap_red_blue(swap_red_blue(pixels)) == pixels,
{
    assert(swap_red_blue(swap_red_blue(pixels)) =~= pixels);
}

/// A packed BGRA frame and an RGBA frame of one buffer are each other's channel
/// swap, so neither conversion loses anything that the other keeps.
pub proof fn law_frames_of_one_buffer(
    src: Seq<u8>,
    width: int,
    height: int,
    stride: int,
    bgra: Seq<u8>,
    rgba: Seq<u8>,
)
    requires
        0 <= width,
        0 <= height,
        rows_fit(src.len() as int, width, height, stride),
        bgra == packed(src, 4 * width, rows_present(src.len() as int, height, stride), stride),
        rgba == swap_red_blue(
            packed(src, 4 * width, rows_present(src.len() as int, height, stride), stride),
        ),
    ensures
        rgba == swap_red_blue(bgra),
        bgra == swap_red_blue(rgba),
        bgra.len() == rgba.len(),
{
    let rows = rows_present(src.len() as int, height, stride);
    lemma_rows_nonnegative(src.len() as int, height, stride);
    lemma_packed_len(src, 4 * width, rows, stride);
    assert((4 * width) * rows == 4 * (width * rows)) by (nonlinear_arith);
    law_swap_undoes_itself(bgra);
}

/// Each pixel of the image is the pixel that stands in the buffer at the same
/// row and column, and its red, green, blue and alpha come from the bytes where
/// a BGRA buffer keeps them.
pub proof fn law_pixels_keep_their_place(
    src: Seq<u8>,
    width: int,
    height: int,
    stride: int,
    row: int,
    col: int,
)
    requires
        rows_fit(src.len() as int, width, height, stride),
        0 <= row < rows_present(src.len() as int, height, stride),
        0 <= col < width,
    ensures
        ({
            let bgra = packed(
                src,
                4 * width,
                rows_present(src.len() as int, height, stride),
                stride,
            );
            let rgba = swap_red_blue(bgra);
            let from = row * stride + 4 * col;
            let to = 4 * (row * width + col);
            &&& 0 <= to && to + 4 <= bgra.len()
            &&& 0 <= from && from + 4 <= src.len()
            &&& bgra.subrange(to, to + 4) == src.subrange(from, from + 4)
            &&& rgba[to] == src[from + 2]
            &&& rgba[to + 1] == src[from + 1]
            &&& rgba[to + 2] == src[from]
            &&& rgba[to + 3] == src[from + 3]
        }),
{
    let rows = rows_present(src.len() as int, height, stride);
    let row_bytes = 4 * width;
    let bgra = packed(src, row_bytes, rows, stride);
    let from = row * stride + 4 * col;
    let to = 4 * (row * width + col);
    lemma_row_in_bounds(src.len() as int, width, height, stride, row);
    lemma_packed_len(src, row_bytes, rows, stride);
    assert(4 * (row * width) == row * row_bytes) by (nonlinear_arith)
        requires
            row_bytes == 4 * width,
    ;
    assert(row * row_bytes >= 0) by (nonlinear_arith)
        requires
            row >= 0,
            row_bytes >= 0,
    ;
    assert(row * row_bytes + row_bytes <= row_bytes * rows) by (nonlinear_arith)
        requires
            row + 1 <= rows,
            row_bytes >= 0,
    ;
    assert forall|c: int| 0 <= c < 4 implies #[trigger] bgra[to + c] == src[from + c] by {
        lemma_fundamental_div_mod_converse(to + c, row_bytes, row, 4 * col + c);
    }
    assert(bgra[to + 0] == src[from + 0]);
    assert(bgra[to + 1] == src[from + 1]);
    assert(bgra[to + 2] == src[from + 2]);
    assert(bgra[to + 3] == src[from + 3]);
    assert(bgra.subrange(to, to + 4) =~= src.subrange(from, from + 4));
}

/// Whether two buffers have the same bytes in the visible part of their rows.
pub open spec fn visible_bytes_agree(
    a: Seq<u8>,
    a_stride: int,
    b: Seq<u8>,
    b_stride: int,
    rows: int,
    row_bytes: int,
) -> bool {
    forall|row: int, at: int|
        #![trigger a[row * a_stride + at]]
        0 <= row < rows && 0 <= at < row_bytes ==> a[row * a_stride + at] == b[row * b_stride + at]
}

/// The padding behind each row has no influence: two buffers of which equally
/// many rows are taken, and which agree on the visible pixels of those, are
/// packed to the same bytes. Their lengths and strides may differ.
pub proof fn law_padding_is_ignored(
    a: Seq<u8>,
    b: Seq<u8>,
    width: int,
    height: int,
    a_stride: int,
    b_stride: int,
)
    requires
        0 <= width,
        0 <= height,
        rows_fit(a.len() as int, width, height, a_stride),
        rows_fit(b.len() as int, width, height, b_stride),
        rows_present(a.len() as int, height, a_stride) == rows_present(
            b.len() as int,
            height,
            b_stride,
        ),
        visible_bytes_agree(
            a,
            a_stride,
            b,
            b_stride,
            rows_present(a.len() as int, height, a_stride),
            4 * width,
        ),
    ensures
        ({
            let a_bytes = packed(
                a,
                4 * width,
                rows_present(a.len() as int, height, a_stride),
                a_stride,
            );
            let b_bytes = packed(
                b,
                4 * width,
                rows_present(b.len() as int, height, b_stride),
                b_stride,
            );
            a_bytes == b_bytes && swap_red_blue(a_bytes) == swap_red_blue(b_bytes)
        }),
{
    let rows = rows_present(a.len() as int, height, a_stride);
    let row_bytes = 4 * width;
    lemma_rows_nonnegative(a.len() as int, height, a_stride);
    lemma_packed_len(a, row_bytes, rows, a_stride);
    assert forall|i: int| 0 <= i < row_bytes * rows implies packed(a, row_bytes, rows, a_stride)[i]
        == packed(b, row_bytes, rows, b_stride)[i] by {
        lemma_index_split(i, row_bytes, rows);
        assert(a[(i / row_bytes) * a_stride + i % row_bytes] == b[(i / row_bytes) * b_stride + i
            % row_bytes]);
    }
    assert(packed(a, row_bytes, rows, a_stride) =~= packed(b, row_bytes, rows, b_stride));
}

/// A buffer that holds `height` whole rows, or all but the padding of the last,
/// has every row taken.
pub proof fn law_full_buffer_has_all_rows(len: int, height: int, stride: int)
    requires
        0 <= len,
        0 <= height,
        0 < stride,
        height > 0 ==> (height - 1) * stride < len,
    ensures
        rows_present(len, height, stride) == height,
{
    lemma_rows_nonnegative(len, height, stride);
    if height > 0 {
        lemma_row_present(len, height, stride, height - 1);
    }
}

/// Two buffers that hold all of their rows and agree on the visible pixels give
/// the same picture, whatever follows each row or the last of them.
pub proof fn law_padding_of_full_buffers_is_ignored(
    a: Seq<u8>,
    b: Seq<u8>,
    width: int,
    height: int,
    a_stride: int,
    b_stride: int,
)
    requires
        0 <= width,
        0 <= height,
        a.len() >= height * a_stride,
        b.len() >= height * b_stride,
        rows_fit(a.len() as int, width, height, a_stride),
        rows_fit(b.len() as int, width, height, b_stride),
        visible_bytes_agree(a, a_stride, b, b_stride, height, 4 * width),
    ensures
        rows_present(a.len() as int, height, a_stride) == height,
        rows_present(b.len() as int, height, b_stride) == height,
        packed(a, 4 * width, height, a_stride) == packed(b, 4 * width, height, b_stride),
        swap_red_blue(packed(a, 4 * width, height, a_stride)) == swap_red_blue(
            packed(b, 4 * width, height, b_stride),
        ),
{
    if height > 0 {
        lemma_mul_is_distributive_add_other_way(a_stride, height - 1, 1);
        lemma_mul_is_distributive_add_other_way(b_stride, height - 1, 1);
    }
    law_full_buffer_has_all_rows(a.len() as int, height, a_stride);
    law_full_buffer_has_all_rows(b.len() as int, height, b_stride);
    law_padding_is_ignored(a, b, width, height, a_stride, b_stride);
}

/// An index into packed rows names a row and a place in it.
pub(crate) proof fn lemma_index_split(i: int, row_bytes: int, rows: int)
    requires
        0 <= i < row_bytes * rows,
        0 <= row_bytes,
        0 <= rows,
    ensures
        0 <= i / row_bytes < rows,
        0 <= i % row_bytes < row_bytes,
{
    assert(row_bytes > 0) by (nonlinear_arith)
        requires
            0 <= i < row_bytes * rows,
            0 <= row_bytes,
    ;
    lemma_fundamental_div_mod(i, row_bytes);
    assert(0 <= i / row_bytes < rows) by (nonlinear_arith)
        requires
            i == row_bytes * (i / row_bytes) + i % row_bytes,
            0 <= i % row_bytes < row_bytes,
            0 <= i < row_bytes * rows,
            row_bytes > 0,
    ;
}

/// A buffer that reaches into its last row yields every pixel of the picture;
/// one that ends earlier yields fewer bytes than the picture has.
pub proof fn law_packed_size(src: Seq<u8>, width: int, height: int, stride: int)
    requires
        0 < width,
        0 < height,
        rows_fit(src.len() as int, width, height, stride),
    ensures
        ({
            let rows = rows_present(src.len() as int, height, stride);
            let size = packed(src, 4 * width, rows, stride).len();
            &&& (height - 1) * stride < src.len() ==> size == 4 * (width * height)
            &&& (height - 1) * stride >= src.len() ==> size < 4 * (width * height)
        }),
{
    let len = src.len() as int;
    let rows = rows_present(len, height, stride);
    lemma_rows_nonnegative(len, height, stride);
    lemma_packed_len(src, 4 * width, rows, stride);
    if (height - 1) * stride < len {
        lemma_row_present(len, height, stride, height - 1);
        assert((4 * width) * height == 4 * (width * height)) by (nonlinear_arith);
    } else {
        if rows == height {
            lemma_row_in_bounds(len, width, height, stride, height - 1);
        }
        assert((4 * width) * rows < 4 * (width * height)) by (nonlinear_arith)
            requires
                0 < width,
                0 <= rows < height,
        ;
    }
}

} // verus!
