//! Frames as the encoder takes them: planes of bytes whose rows start a stride
//! apart. The stride is the encoder's choice and may exceed the visible row.

use crate::pixels::{lemma_index_split, packed, RawFrame};
use vstd::arithmetic::div_mod::{lemma_fundamental_div_mod, lemma_fundamental_div_mod_converse};
use vstd::arithmetic::mul::{lemma_mul_inequality, lemma_mul_is_distributive_add_other_way};
use vstd::prelude::*;

verus! {

/// How the pixels of a frame are stored.
#[derive(Clone, Copy, Debug, PartialEq, Eq, Structural)]
pub enum Pixel {
    /// One plane, four bytes per pixel.
    BGRA,
    /// Three planes: luma, then two chroma planes of half width and half height.
    YUV420P,
}

/// One plane of a frame: rows that start `stride` bytes apart.
#[derive(Debug)]
pub struct Plane {
    pub stride: usize,
    pub data: Vec<u8>,
}

/// A picture in the layout that the encoder works on.
#[derive(Debug)]
pub struct VideoFrame {
    pub format: Pixel,
    pub width: u32,
    pub height: u32,
    pub planes: Vec<Plane>,
    /// Presentation timestamp, in units of the encoder's time base.
    pub pts: Option<i64>,
}

/// Half of a picture's side, as a chroma plane has it; an odd side rounds up.
pub open spec fn chroma_side(side: int) -> int {
    (side + 1) / 2
}

impl VideoFrame {
    /// The number of planes in this frame's format.
    pub open spec fn plane_count(self) -> int {
        match self.format {
            Pixel::BGRA => 1,
            Pixel::YUV420P => 3,
        }
    }

    /// The number of rows in plane `index`.
    pub open spec fn plane_rows(self, index: int) -> int {
        if self.format == Pixel::YUV420P && index > 0 {
            chroma_side(self.height as int)
        } else {
            self.height as int
        }
    }

    /// The planes are those of the format, and each holds all of its rows.
    pub open spec fn wf(self) -> bool {
        &&& self.planes@.len() == self.plane_count()
        &&& forall|i: int|
            #![trigger self.planes@[i]]
            0 <= i < self.planes@.len() ==> self.planes@[i].data@.len() == self.planes@[i].stride
                * self.plane_rows(i)
    }
}

/// A plane of `rows` rows in which row `r` holds `visible(r, c)` in column `c`
/// and zeros from column `row_bytes` on.
pub open spec fn plane_of(
    rows: int,
    row_bytes: int,
    stride: int,
    visible: spec_fn(int, int) -> u8,
) -> Seq<u8> {
    Seq::new(
        (stride * rows) as nat,
        |i: int|
            if i % stride < row_bytes {
                visible(i / stride, i % stride)
            } else {
                0
            },
    )
}

/// The byte that a packed frame has at a row and a column of bytes.
pub open spec fn packed_byte(bgra: Seq<u8>, row_bytes: int) -> spec_fn(int, int) -> u8 {
    |row: int, col: int| bgra[row * row_bytes + col]
}

/// The luma ramp: it rises with the column and moves with the frame number.
pub open spec fn ramp(frame_num: int) -> spec_fn(int, int) -> u8 {
    |row: int, col: int| ((col + frame_num) % 256) as u8
}

/// The chroma value that adds no color, everywhere.
pub open spec fn neutral() -> spec_fn(int, int) -> u8 {
    |row: int, col: int| 128
}

impl VideoFrame {
    /// This is a captured frame, laid out in rows of `stride` bytes.
    pub open spec fn is_layout_of(self, raw: RawFrame, stride: int) -> bool {
        &&& self.wf()
        &&& self.format == Pixel::BGRA
        &&& self.width == raw.width
        &&& self.height == raw.height
        &&& self.pts is None
        &&& self.planes@[0].stride == stride
        &&& self.planes@[0].data@ == plane_of(
            raw.height as int,
            4 * raw.width,
            stride,
            packed_byte(raw.bgra@, 4 * raw.width),
        )
    }

    /// This is the gradient of a size and a number, laid out in these strides.
    pub open spec fn is_gradient(
        self,
        width: u32,
        height: u32,
        frame_num: u32,
        strides: Seq<usize>,
    ) -> bool {
        &&& self.wf()
        &&& self.format == Pixel::YUV420P
        &&& self.width == width
        &&& self.height == height
        &&& self.pts == Some(frame_num as i64)
        &&& forall|i: int| 0 <= i < 3 ==> (#[trigger] self.planes@[i]).stride == strides[i]
        &&& self.planes@[0].data@ == plane_of(
            height as int,
            width as int,
            strides[0] as int,
            ramp(frame_num as int),
        )
        &&& forall|i: int|
            1 <= i < 3 ==> (#[trigger] self.planes@[i]).data@ == plane_of(
                chroma_side(height as int),
                chroma_side(width as int),
                strides[i] as int,
                neutral(),
            )
    }
}

/// Whether the rows of a captured frame fit in rows of `stride` bytes, and the
/// frame holds all of its rows.
pub open spec fn bgra_layout_fits(raw: RawFrame, stride: int) -> bool {
    &&& 4 * raw.width <= stride
    &&& stride * raw.height <= isize::MAX
    &&& 4 * (raw.width * raw.height) <= raw.bgra@.len()
}

/// Whether three strides can carry the planes of a picture.
pub open spec fn gradient_layout_fits(width: u32, height: u32, strides: Seq<usize>) -> bool {
    &&& strides.len() == 3
    &&& width <= strides[0]
    &&& chroma_side(width as int) <= strides[1]
    &&& chroma_side(width as int) <= strides[2]
    &&& strides[0] * height <= isize::MAX
    &&& strides[1] * chroma_side(height as int) <= isize::MAX
    &&& strides[2] * chroma_side(height as int) <= isize::MAX
}

/// A byte of row `row` and column `col` in a plane.
proof fn lemma_plane_index(row: int, col: int, stride: int)
    requires
        0 <= row,
        0 <= col < stride,
    ensures
        (row * stride + col) / stride == row,
        (row * stride + col) % stride == col,
{
    lemma_fundamental_div_mod_converse(row * stride + col, stride, row, col);
}

proof fn lemma_row_end(row: int, rows: int, stride: int)
    requires
        0 <= row < rows,
        0 <= stride,
    ensures
        0 <= row * stride,
        row * stride + stride == (row + 1) * stride,
        (row + 1) * stride <= stride * rows,
{
    assert(row * stride >= 0) by (nonlinear_arith)
        requires
            row >= 0,
            stride >= 0,
    ;
    lemma_mul_is_distributive_add_other_way(stride, row, 1);
    lemma_mul_inequality(row + 1, rows, stride);
    assert(stride * rows == rows * stride) by (nonlinear_arith);
}

/// Append zeros until the row is `stride` bytes long.
fn pad_row(data: &mut Vec<u8>, row_bytes: usize, stride: usize)
    requires
        row_bytes <= stride,
        old(data)@.len() + (stride - row_bytes) <= isize::MAX,
    ensures
        final(data)@ == old(data)@ + Seq::new((stride - row_bytes) as nat, |i: int| 0u8),
{
    let ghost before = data@;
    let mut col: usize = row_bytes;
    assert(data@ =~= before + Seq::new(0, |i: int| 0u8));
    while col < stride
        invariant
            row_bytes <= col <= stride,
            data@ == before + Seq::new((col - row_bytes) as nat, |i: int| 0u8),
        decreases stride - col,
    {
        data.push(0);
        col += 1;
        assert(data@ =~= before + Seq::new((col - row_bytes) as nat, |i: int| 0u8));
    }
}

/// A finished row extends a plane by exactly that row.
proof fn lemma_plane_step(
    done: Seq<u8>,
    line: Seq<u8>,
    row: int,
    rows: int,
    row_bytes: int,
    stride: int,
    visible: spec_fn(int, int) -> u8,
)
    requires
        0 <= row < rows,
        0 <= row_bytes <= stride,
        done == plane_of(rows, row_bytes, stride, visible).subrange(0, row * stride),
        0 <= row * stride <= stride * rows,
        line.len() == row_bytes,
        forall|c: int| 0 <= c < row_bytes ==> #[trigger] line[c] == visible(row, c),
    ensures
        (row + 1) * stride <= stride * rows,
        done + line + Seq::new((stride - row_bytes) as nat, |i: int| 0u8) == plane_of(
            rows,
            row_bytes,
            stride,
            visible,
        ).subrange(0, (row + 1) * stride),
{
    lemma_row_end(row, rows, stride);
    let plane = plane_of(rows, row_bytes, stride, visible);
    let padded = done + line + Seq::new((stride - row_bytes) as nat, |i: int| 0u8);
    let target = plane.subrange(0, (row + 1) * stride);
    assert forall|i: int| 0 <= i < target.len() implies padded[i] == target[i] by {
        if i >= row * stride {
            let c = i - row * stride;
            lemma_plane_index(row, c, stride);
            if c < row_bytes {
                assert(padded[i] == line[c]);
            }
        }
    }
    assert(padded =~= target);
}

/// Copy a tightly packed frame into rows of `stride` bytes.
pub fn bgra_frame(raw: &RawFrame, stride: usize) -> (frame: VideoFrame)
    requires
        bgra_layout_fits(*raw, stride as int),
    ensures
        frame.is_layout_of(*raw, stride as int),
        frame.wf(),
        frame.format == Pixel::BGRA,
        frame.width == raw.width,
        frame.height == raw.height,
        frame.pts is None,
        frame.planes@[0].stride == stride,
        frame.planes@[0].data@ == plane_of(
            raw.height as int,
            4 * raw.width,
            stride as int,
            packed_byte(raw.bgra@, 4 * raw.width),
        ),
{
    let width_bytes: usize = raw.width as usize * 4;
    let ghost visible = packed_byte(raw.bgra@, 4 * raw.width);
    let ghost rows = raw.height as int;
    let ghost plane = plane_of(rows, 4 * raw.width, stride as int, visible);
    let mut data: Vec<u8> = Vec::new();
    assert(data@ =~= plane.subrange(0, 0));
    assert(raw.bgra@.len() == raw.bgra.len());
    let mut row: u32 = 0;
    let mut at: usize = 0;
    while row < raw.height
        invariant
            bgra_layout_fits(*raw, stride as int),
            raw.bgra@.len() <= usize::MAX,
            width_bytes == 4 * raw.width,
            visible == packed_byte(raw.bgra@, 4 * raw.width),
            rows == raw.height,
            plane == plane_of(rows, 4 * raw.width, stride as int, visible),
            row <= raw.height,
            at == row * width_bytes,
            0 <= row * stride <= stride * rows,
            data@ == plane.subrange(0, row * stride),
        decreases raw.height - row,
    {
        proof {
            lemma_row_end(row as int, rows, stride as int);
            lemma_row_end(row as int, rows, width_bytes as int);
            assert(width_bytes * rows == 4 * (raw.width * raw.height)) by (nonlinear_arith)
                requires
                    width_bytes == 4 * raw.width,
                    rows == raw.height,
            ;
        }
        let ghost done = data@;
        let ghost line = raw.bgra@.subrange(at as int, at + width_bytes);
        data.extend_from_slice(&raw.bgra.as_slice()[at..at + width_bytes]);
        assert(data@ =~= done + line);
        pad_row(&mut data, width_bytes, stride);
        proof {
            lemma_plane_step(done, line, row as int, rows, 4 * raw.width, stride as int, visible);
        }
        at += width_bytes;
        row += 1;
    }
    proof {
        assert(raw.height * stride == stride * raw.height) by (nonlinear_arith);
        assert(data@ =~= plane);
    }
    let plane = Plane { stride, data };
    VideoFrame {
        format: Pixel::BGRA,
        width: raw.width,
        height: raw.height,
        planes: vec![plane],
        pts: None,
    }
}

/// The luma plane of a gradient frame.
fn luma_plane(width: u32, height: u32, stride: usize, frame_num: u32) -> (plane: Plane)
    requires
        width <= stride,
        stride * height <= isize::MAX,
    ensures
        plane.stride == stride,
        plane.data@ == plane_of(
            height as int,
            width as int,
            stride as int,
            ramp(frame_num as int),
        ),
{
    let ghost visible = ramp(frame_num as int);
    let ghost rows = height as int;
    let ghost plane = plane_of(rows, width as int, stride as int, visible);
    let mut data: Vec<u8> = Vec::new();
    assert(data@ =~= plane.subrange(0, 0));
    let mut row: u32 = 0;
    while row < height
        invariant
            width <= stride,
            stride * height <= isize::MAX,
            visible == ramp(frame_num as int),
            rows == height,
            plane == plane_of(rows, width as int, stride as int, visible),
            row <= height,
            0 <= row * stride <= stride * rows,
            data@ == plane.subrange(0, row * stride),
        decreases height - row,
    {
        proof {
            lemma_row_end(row as int, rows, stride as int);
        }
        let ghost done = data@;
        let ghost line = Seq::new(width as nat, |c: int| visible(row as int, c));
        let mut col: u32 = 0;
        assert(data@ =~= done + line.subrange(0, 0));
        while col < width
            invariant
                col <= width,
                visible == ramp(frame_num as int),
                line == Seq::new(width as nat, |c: int| visible(row as int, c)),
                data@ == done + line.subrange(0, col as int),
            decreases width - col,
        {
            data.push(((col as u64 + frame_num as u64) % 256) as u8);
            col += 1;
            assert(data@ =~= done + line.subrange(0, col as int));
        }
        assert(data@ =~= done + line);
        pad_row(&mut data, width as usize, stride);
        proof {
            lemma_plane_step(done, line, row as int, rows, width as int, stride as int, visible);
        }
        row += 1;
    }
    proof {
        assert(height * stride == stride * height) by (nonlinear_arith);
        assert(data@ =~= plane);
    }
    Plane { stride, data }
}

/// Half of a side, rounded up.
fn half_up(side: u32) -> (half: u32)
    ensures
        half == chroma_side(side as int),
{
    side / 2 + side % 2
}

/// A chroma plane that adds no color.
fn chroma_plane(width: u32, height: u32, stride: usize) -> (plane: Plane)
    requires
        chroma_side(width as int) <= stride,
        stride * chroma_side(height as int) <= isize::MAX,
    ensures
        plane.stride == stride,
        plane.data@ == plane_of(
            chroma_side(height as int),
            chroma_side(width as int),
            stride as int,
            neutral(),
        ),
{
    let chroma_width: u32 = half_up(width);
    let chroma_height: u32 = half_up(height);
    let ghost visible = neutral();
    let ghost rows = chroma_height as int;
    let ghost plane = plane_of(rows, chroma_width as int, stride as int, visible);
    let mut data: Vec<u8> = Vec::new();
    assert(data@ =~= plane.subrange(0, 0));
    let mut row: u32 = 0;
    while row < chroma_height
        invariant
            chroma_width <= stride,
            stride * chroma_height <= isize::MAX,
            visible == neutral(),
            rows == chroma_height,
            plane == plane_of(rows, chroma_width as int, stride as int, visible),
            row <= chroma_height,
            0 <= row * stride <= stride * rows,
            data@ == plane.subrange(0, row * stride),
        decreases chroma_height - row,
    {
        proof {
            lemma_row_end(row as int, rows, stride as int);
        }
        let ghost done = data@;
        let ghost line = Seq::new(chroma_width as nat, |c: int| 128u8);
        let mut col: u32 = 0;
        assert(data@ =~= done + line.subrange(0, 0));
        while col < chroma_width
            invariant
                col <= chroma_width,
                line == Seq::new(chroma_width as nat, |c: int| 128u8),
                data@ == done + line.subrange(0, col as int),
            decreases chroma_width - col,
        {
            data.push(128);
            col += 1;
            assert(data@ =~= done + line.subrange(0, col as int));
        }
        assert(data@ =~= done + line);
        pad_row(&mut data, chroma_width as usize, stride);
        proof {
            lemma_plane_step(
                done,
                line,
                row as int,
                rows,
                chroma_width as int,
                stride as int,
                visible,
            );
        }
        row += 1;
    }
    proof {
        assert(chroma_height * stride == stride * chroma_height) by (nonlinear_arith);
        assert(data@ =~= plane);
    }
    Plane { stride, data }
}

/// Build one synthetic YUV420P test frame: a horizontal luma ramp that shifts
/// sideways with `frame_num`, so playback shows motion instead of a static
/// image. Chroma is held at 128 (neutral), so it renders grayscale.
pub fn gradient_frame(width: u32, height: u32, frame_num: u32, strides: [usize; 3]) -> (frame:
    VideoFrame)
    requires
        gradient_layout_fits(width, height, strides@),
    ensures
        frame.is_gradient(width, height, frame_num, strides@),
        frame.wf(),
        frame.format == Pixel::YUV420P,
        frame.width == width,
        frame.height == height,
        frame.pts == Some(frame_num as i64),
        forall|i: int| 0 <= i < 3 ==> (#[trigger] frame.planes@[i]).stride == strides@[i],
        frame.planes@[0].data@ == plane_of(
            height as int,
            width as int,
            strides@[0] as int,
            ramp(frame_num as int),
        ),
        forall|i: int|
            1 <= i < 3 ==> (#[trigger] frame.planes@[i]).data@ == plane_of(
                chroma_side(height as int),
                chroma_side(width as int),
                strides@[i] as int,
                neutral(),
            ),
{
    let luma = luma_plane(width, height, strides[0], frame_num);
    let blue = chroma_plane(width, height, strides[1]);
    let red = chroma_plane(width, height, strides[2]);
    VideoFrame {
        format: Pixel::YUV420P,
        width,
        height,
        planes: vec![luma, blue, red],
        pts: Some(frame_num as i64),
    }
}

/// Whether `rows` rows of `stride` bytes have an addressable size.
fn plane_size_fits(stride: usize, rows: u32) -> (r: bool)
    ensures
        r == (stride * rows <= isize::MAX),
{
    let bytes: u128 = stride as u128;
    assert(stride * rows <= 0xffff_ffff_ffff_ffff * 0xffff_ffff) by (nonlinear_arith)
        requires
            stride <= 0xffff_ffff_ffff_ffff,
            rows <= 0xffff_ffff,
    ;
    bytes * (rows as u128) <= isize::MAX as u128
}

/// Whether [`bgra_frame`] may be called with this stride.
pub fn bgra_stride_fits(raw: &RawFrame, stride: usize) -> (r: bool)
    ensures
        r == bgra_layout_fits(*raw, stride as int),
{
    assert(raw.bgra@.len() == raw.bgra.len());
    assert(raw.width * raw.height <= 0xffff_ffff * 0xffff_ffff) by (nonlinear_arith)
        requires
            raw.width <= 0xffff_ffff,
            raw.height <= 0xffff_ffff,
    ;
    assert(raw.width * raw.height >= 0) by (nonlinear_arith);
    let pixels: u128 = raw.width as u128 * raw.height as u128;
    raw.width as u64 * 4 <= stride as u64 && plane_size_fits(stride, raw.height) && pixels * 4
        <= raw.bgra.len() as u128
}

/// Whether [`gradient_frame`] may be called with these strides.
pub fn gradient_strides_fit(width: u32, height: u32, strides: [usize; 3]) -> (r: bool)
    ensures
        r == gradient_layout_fits(width, height, strides@),
{
    let rows: u32 = half_up(height);
    let cols: u64 = half_up(width) as u64;
    width as u64 <= strides[0] as u64 && cols <= strides[1] as u64 && cols <= strides[2] as u64
        && plane_size_fits(strides[0], height) && plane_size_fits(strides[1], rows)
        && plane_size_fits(strides[2], rows)
}

/// What stands at a row and a column of a plane.
pub(crate) proof fn lemma_plane_at(
    rows: int,
    row_bytes: int,
    stride: int,
    visible: spec_fn(int, int) -> u8,
    row: int,
    col: int,
)
    requires
        0 <= row < rows,
        0 <= col < row_bytes <= stride,
    ensures
        0 <= row * stride + col < plane_of(rows, row_bytes, stride, visible).len(),
        plane_of(rows, row_bytes, stride, visible)[row * stride + col] == visible(row, col),
{
    lemma_row_end(row, rows, stride);
    lemma_plane_index(row, col, stride);
}

/// Laying a frame out in rows of any stride keeps all of its pixels: taking the
/// padding out again gives the frame's own bytes.
pub proof fn law_layout_keeps_pixels(raw: RawFrame, stride: int)
    requires
        bgra_layout_fits(raw, stride),
    ensures
        ({
            let row_bytes = 4 * raw.width;
            let rows = raw.height as int;
            packed(
                plane_of(rows, row_bytes, stride, packed_byte(raw.bgra@, row_bytes)),
                row_bytes,
                rows,
                stride,
            ) == raw.bgra@.subrange(0, 4 * (raw.width * raw.height))
        }),
{
    let row_bytes = 4 * raw.width;
    let rows = raw.height as int;
    let visible = packed_byte(raw.bgra@, row_bytes);
    let plane = plane_of(rows, row_bytes, stride, visible);
    let back = packed(plane, row_bytes, rows, stride);
    assert(row_bytes * rows == 4 * (raw.width * raw.height)) by (nonlinear_arith)
        requires
            row_bytes == 4 * raw.width,
            rows == raw.height,
    ;
    assert(row_bytes * rows >= 0) by (nonlinear_arith)
        requires
            row_bytes >= 0,
            rows >= 0,
    ;
    assert forall|i: int| 0 <= i < row_bytes * rows implies back[i] == raw.bgra@[i] by {
        lemma_index_split(i, row_bytes, rows);
        lemma_plane_at(rows, row_bytes, stride, visible, i / row_bytes, i % row_bytes);
        lemma_fundamental_div_mod(i, row_bytes);
        assert(row_bytes * (i / row_bytes) == (i / row_bytes) * row_bytes) by (nonlinear_arith);
    }
    assert(back =~= raw.bgra@.subrange(0, 4 * (raw.width * raw.height)));
}

/// The byte of a plane at a row and a column.
pub open spec fn sample_at(plane: Seq<u8>, stride: int, row: int, col: int) -> u8 {
    plane[row * stride + col]
}

/// Chroma is neutral over the whole picture, also where an odd side makes the
/// chroma planes reach beyond it: the gradient is gray.
pub proof fn law_gradient_is_gray(width: int, height: int, stride: int, row: int, col: int)
    requires
        chroma_side(width) <= stride,
        0 <= row < chroma_side(height),
        0 <= col < chroma_side(width),
    ensures
        sample_at(
            plane_of(chroma_side(height), chroma_side(width), stride, neutral()),
            stride,
            row,
            col,
        ) == 128,
{
    lemma_plane_at(chroma_side(height), chroma_side(width), stride, neutral(), row, col);
}

/// The gradient moves: every frame shows the one before it shifted by one
/// column, whatever the strides of the two.
pub proof fn law_gradient_moves(
    width: int,
    height: int,
    frame_num: int,
    stride: int,
    next_stride: int,
    row: int,
    col: int,
)
    requires
        0 <= frame_num,
        0 <= row < height,
        0 <= col < width - 1,
        width <= stride,
        width <= next_stride,
    ensures
        sample_at(plane_of(height, width, next_stride, ramp(frame_num + 1)), next_stride, row, col)
            == sample_at(plane_of(height, width, stride, ramp(frame_num)), stride, row, col + 1),
{
    lemma_plane_at(height, width, next_stride, ramp(frame_num + 1), row, col);
    lemma_plane_at(height, width, stride, ramp(frame_num), row, col + 1);
}

/// Whether two planes show the same in `rows` rows of `row_bytes` columns.
pub open spec fn show_the_same(
    a: Seq<u8>,
    a_stride: int,
    b: Seq<u8>,
    b_stride: int,
    rows: int,
    row_bytes: int,
) -> bool {
    forall|row: int, col: int|
        0 <= row < rows && 0 <= col < row_bytes ==> #[trigger] sample_at(a, a_stride, row, col)
            == sample_at(b, b_stride, row, col)
}

/// The gradient's motion repeats after 256 frames and not before: two frames
/// show the same luma exactly if their numbers agree modulo 256, whatever the
/// strides of the two.
pub proof fn law_gradient_repeats(
    width: int,
    height: int,
    m: int,
    n: int,
    m_stride: int,
    n_stride: int,
)
    requires
        0 <= m,
        0 <= n,
        0 < width,
        0 < height,
        width <= m_stride,
        width <= n_stride,
    ensures
        show_the_same(
            plane_of(height, width, m_stride, ramp(m)),
            m_stride,
            plane_of(height, width, n_stride, ramp(n)),
            n_stride,
            height,
            width,
        ) <==> m % 256 == n % 256,
{
    let a = plane_of(height, width, m_stride, ramp(m));
    let b = plane_of(height, width, n_stride, ramp(n));
    if m % 256 == n % 256 {
        assert forall|row: int, col: int| 0 <= row < height && 0 <= col < width implies
            #[trigger] sample_at(a, m_stride, row, col) == sample_at(b, n_stride, row, col) by {
            lemma_luma_at(width, height, m_stride, m, row, col);
            lemma_luma_at(width, height, n_stride, n, row, col);
            lemma_same_shade(col, m, n);
        }
    } else {
        lemma_luma_at(width, height, m_stride, m, 0, 0);
        lemma_luma_at(width, height, n_stride, n, 0, 0);
        assert(sample_at(a, m_stride, 0, 0) != sample_at(b, n_stride, 0, 0));
    }
}

/// The luma of a gradient frame at a row and a column.
proof fn lemma_luma_at(
    width: int,
    height: int,
    stride: int,
    frame_num: int,
    row: int,
    col: int,
)
    requires
        0 <= frame_num,
        0 <= row < height,
        0 <= col < width <= stride,
    ensures
        sample_at(plane_of(height, width, stride, ramp(frame_num)), stride, row, col) == (col
            + frame_num) % 256,
{
    lemma_plane_at(height, width, stride, ramp(frame_num), row, col);
}

proof fn lemma_same_shade(col: int, m: int, n: int)
    requires
        m % 256 == n % 256,
    ensures
        (col + m) % 256 == (col + n) % 256,
{
}

} // verus!
