use vstd::prelude::*;
use std::collections::VecDeque;


verus! {

/// A captured frame in NV12 layout: a full-resolution luma plane followed
/// by an interleaved half-resolution chroma plane, each with its row stride.
#[derive(Debug)]
pub struct YUVFrame {
    pub display_time: u64,
    pub width: i32,
    pub height: i32,
    pub luminance_bytes: Vec<u8>,
    pub luminance_stride: i32,
    pub chrominance_bytes: Vec<u8>,
    pub chrominance_stride: i32,
}

/// The pixels handed to the encoder: an NV12 frame or a packed BGR0 buffer.
pub enum FrameData<'a> {
    NV12(&'a YUVFrame),
    BGR0(&'a [u8]),
}

/// Number of rows a plane of `len` bytes holds at `stride` bytes per row,
/// the last one possibly short.
pub open spec fn row_count(len: int, stride: int) -> int {
    if stride > 0 { (len + stride - 1) / stride } else { 0 }
}

/// Of the first `rows` rows copied to rows `line_size` bytes apart, the
/// last one that can reach byte `d` of the target: later rows overwrite
/// earlier ones where rows are wider than `line_size`.
pub open spec fn covering_row(d: int, line_size: int, rows: int) -> int {
    if line_size > 0 && d / line_size < rows {
        d / line_size
    } else {
        rows - 1
    }
}

/// Byte `d` of a target plane after the first `rows` rows of `width` bytes
/// of `source` (rows `stride` apart) are copied, one after the other, to
/// rows `line_size` bytes apart: the byte of the last row written over it,
/// or its value in `old` where no row reaches it.
pub open spec fn copied_byte(
    source: Seq<u8>,
    stride: int,
    line_size: int,
    width: int,
    rows: int,
    old: Seq<u8>,
    d: int,
) -> u8 {
    let r = covering_row(d, line_size, rows);
    if rows > 0 && r * line_size <= d && d - r * line_size < width {
        source[r * stride + (d - r * line_size)]
    } else {
        old[d]
    }
}

/// Whether a plane of `src_len` bytes at `stride` bytes per row can be
/// copied into an encoder buffer of `dest_len` bytes with rows `line_size`
/// bytes apart, `width` bytes per row: either the strides agree and the
/// lengths match, or every source row holds `width` bytes and every target
/// row fits.
pub open spec fn copy_fits(src_len: int, stride: int, line_size: int, width: int, dest_len: int) -> bool {
    if stride == line_size {
        dest_len == src_len
    } else {
        &&& stride > 0
        &&& row_count(src_len, stride) > 0 ==> {
            &&& width <= stride
            &&& (row_count(src_len, stride) - 1) * stride + width <= src_len
            &&& (row_count(src_len, stride) - 1) * line_size + width <= dest_len
        }
    }
}

/// The encoder buffer `old` after a plane is copied into it.
pub open spec fn plane_after(source: Seq<u8>, stride: int, line_size: int, width: int, old: Seq<u8>) -> Seq<u8> {
    if stride == line_size {
        source
    } else {
        Seq::new(
            old.len(),
            |d: int| copied_byte(source, stride, line_size, width, row_count(source.len() as int, stride), old, d),
        )
    }
}

/// Row by row: after a copy between different strides into rows at least
/// `width` bytes apart, the first `width` bytes of target row `r` are the
/// first `width` bytes of source row `r`, for every row of the source.
pub proof fn law_rows_copied(
    source: Seq<u8>,
    stride: int,
    line_size: int,
    width: int,
    old: Seq<u8>,
    r: int,
    c: int,
)
    requires
        stride != line_size,
        width <= line_size,
        copy_fits(source.len() as int, stride, line_size, width, old.len() as int),
        0 <= r < row_count(source.len() as int, stride),
        0 <= c < width,
    ensures
        r * line_size + c < old.len(),
        plane_after(source, stride, line_size, width, old)[r * line_size + c] == source[r * stride + c],
{
    let rows = row_count(source.len() as int, stride);
    lemma_row_offsets(r, rows, line_size, width, c, stride);
    lemma_div_mod_of(r, line_size, c);
}

proof fn lemma_div_mod_of(q: int, d: int, r: int)
    requires
        d > 0,
        q >= 0,
        0 <= r < d,
    ensures
        (q * d + r) / d == q,
        (q * d + r) % d == r,
{
    vstd::arithmetic::div_mod::lemma_fundamental_div_mod_converse(q * d + r, d, q, r);
}

proof fn lemma_split(x: int, d: int)
    requires
        d > 0,
    ensures
        x == (x / d) * d + x % d,
{
    vstd::arithmetic::div_mod::lemma_fundamental_div_mod(x, d);
    assert(d * (x / d) == (x / d) * d) by (nonlinear_arith);
}

proof fn lemma_row_count(len: int, stride: int)
    requires
        len >= 0,
        stride > 0,
    ensures
        len % stride == 0 ==> row_count(len, stride) == len / stride,
        len % stride != 0 ==> row_count(len, stride) == len / stride + 1 && len / stride < len,
{
    let q = len / stride;
    let r = len % stride;
    lemma_split(len, stride);
    if r == 0 {
        lemma_div_mod_of(q, stride, stride - 1);
        assert(len + stride - 1 == q * stride + (stride - 1));
    } else {
        lemma_div_mod_of(q + 1, stride, r - 1);
        assert((q + 1) * stride == q * stride + stride) by (nonlinear_arith);
        assert(len + stride - 1 == (q + 1) * stride + (r - 1));
        assert(q * stride >= q) by (nonlinear_arith)
            requires q >= 0, stride > 0;
        assert(q >= 0) by (nonlinear_arith)
            requires len >= 0, stride > 0, q == len / stride;
    }
}

proof fn lemma_row_offsets(r: int, rows: int, line_size: int, width: int, c: int, stride: int)
    requires
        0 <= r < rows,
        0 <= c < width,
        line_size >= 0,
        width <= stride,
    ensures
        r * line_size + c <= (rows - 1) * line_size + c,
        r * stride + c <= (rows - 1) * stride + c,
        r * line_size >= 0,
        r * stride >= 0,
{
    assert(r * line_size <= (rows - 1) * line_size) by (nonlinear_arith)
        requires 0 <= r < rows, line_size >= 0;
    assert(r * stride <= (rows - 1) * stride) by (nonlinear_arith)
        requires 0 <= r < rows, width <= stride, 0 <= c < width;
    assert(r * line_size >= 0) by (nonlinear_arith)
        requires 0 <= r, line_size >= 0;
    assert(r * stride >= 0) by (nonlinear_arith)
        requires 0 <= r, width <= stride, 0 <= c < width;
}

/// Copying row `r` after rows `0..r`: the bytes row `r` reaches take its
/// bytes, every other byte is as after rows `0..r`.
proof fn lemma_copied_step(
    source: Seq<u8>,
    stride: int,
    line_size: int,
    width: int,
    r: int,
    old: Seq<u8>,
    d: int,
)
    requires
        line_size >= 0,
        width >= 0,
        r >= 0,
        d >= 0,
    ensures
        copied_byte(source, stride, line_size, width, r + 1, old, d) == (if r * line_size <= d && d
            - r * line_size < width {
            source[r * stride + (d - r * line_size)]
        } else {
            copied_byte(source, stride, line_size, width, r, old, d)
        }),
{
    let ls = line_size;
    assert((r + 1) * ls == r * ls + ls) by (nonlinear_arith);
    if r > 0 {
        assert((r - 1) * ls == r * ls - ls) by (nonlinear_arith);
    }
    if ls > 0 {
        lemma_split(d, ls);
        let q = d / ls;
        assert(0 <= d % ls < ls);
        if q < r {
            assert(q * ls <= (r - 1) * ls) by (nonlinear_arith)
                requires q < r, ls > 0;
            assert(d < r * ls);
        } else if q == r {
        } else {
            assert(q * ls >= (r + 1) * ls) by (nonlinear_arith)
                requires q >= r + 1, ls > 0;
        }
    }
}

/// Copies the rows of a strided plane into an encoder buffer whose rows are
/// `encoder_line_size` bytes apart, keeping `width` bytes of each row and
/// writing the rows in order. When both strides agree the whole plane is
/// copied in one piece.
pub fn copy_nv12(
    source: &[u8],
    stride: usize,
    encoder_line_size: usize,
    width: usize,
    destination: &mut Vec<u8>,
)
    requires
        copy_fits(
            source@.len() as int,
            stride as int,
            encoder_line_size as int,
            width as int,
            old(destination)@.len() as int,
        ),
    ensures
        final(destination)@ == plane_after(
            source@,
            stride as int,
            encoder_line_size as int,
            width as int,
            old(destination)@,
        ),
{
    if stride == encoder_line_size {
        let n = source.len();
        let mut k: usize = 0;
        while k < n
            invariant
                n == source@.len(),
                destination@.len() == n,
                k <= n,
                forall|j: int| 0 <= j < k ==> #[trigger] destination@[j] == source@[j],
            decreases n - k,
        {
            destination[k] = source[k];
            k += 1;
        }
        assert(destination@ =~= source@);
        return;
    }
    let len = source.len();
    let dlen = destination.len();
    let q = len / stride;
    proof {
        lemma_row_count(len as int, stride as int);
    }
    let rows = if len % stride == 0 { q } else { q + 1 };
    let ghost old_dest = destination@;
    let ghost ls = encoder_line_size as int;
    let ghost w = width as int;
    let mut r: usize = 0;
    while r < rows
        invariant
            len == source@.len(),
            dlen == old_dest.len(),
            destination@.len() == dlen,
            rows as int == row_count(len as int, stride as int),
            stride > 0,
            ls == encoder_line_size,
            w == width,
            rows > 0 ==> width <= stride,
            rows > 0 ==> (rows - 1) * stride + width <= len,
            rows > 0 ==> (rows - 1) * encoder_line_size + width <= dlen,
            r <= rows,
            forall|d: int|
                0 <= d < dlen ==> #[trigger] destination@[d] == copied_byte(
                    source@, stride as int, ls, w, r as int, old_dest, d),
        decreases rows - r,
    {
        let ghost base = r * encoder_line_size;
        let ghost src_base = r * stride;
        let mut c: usize = 0;
        while c < width
            invariant
                len == source@.len(),
                dlen == old_dest.len(),
                destination@.len() == dlen,
                stride > 0,
                ls == encoder_line_size,
                w == width,
                width <= stride,
                (rows - 1) * stride + width <= len,
                (rows - 1) * encoder_line_size + width <= dlen,
                r < rows,
                base == r * encoder_line_size,
                src_base == r * stride,
                c <= width,
                forall|d: int|
                    0 <= d < dlen ==> #[trigger] destination@[d] == (if base <= d && d - base < c {
                        source@[src_base + (d - base)]
                    } else {
                        copied_byte(source@, stride as int, ls, w, r as int, old_dest, d)
                    }),
            decreases width - c,
        {
            proof {
                lemma_row_offsets(r as int, rows as int, ls, w, c as int, stride as int);
            }
            let di = r * encoder_line_size + c;
            let si = r * stride + c;
            destination[di] = source[si];
            c += 1;
        }
        assert forall|d: int| 0 <= d < dlen implies #[trigger] destination@[d] == copied_byte(
            source@, stride as int, ls, w, r as int + 1, old_dest, d) by {
            lemma_copied_step(source@, stride as int, ls, w, r as int, old_dest, d);
        }
        r += 1;
    }
    assert(destination@ =~= plane_after(source@, stride as int, ls, w, old_dest));
}

/// Whether the encoder's planes can take `frame` in pixel format
/// `pixel_format` at `width` by `height` pixels: NV12 frames need the `nv12`
/// format and BGR0 buffers the `bgra` format, as the encoder refuses any other
/// pairing; the rows of an NV12 frame are copied `plane0_len / height` bytes
/// apart in both planes.
pub open spec fn frame_fits(
    frame: FrameData,
    pixel_format: Seq<char>,
    width: int,
    height: int,
    plane0_len: int,
    plane1_len: int,
) -> bool {
    match frame {
        FrameData::NV12(f) => {
            &&& pixel_format == "nv12"@
            &&& height > 0
            &&& f.luminance_stride >= 0
            &&& f.chrominance_stride >= 0
            &&& copy_fits(f.luminance_bytes@.len() as int, f.luminance_stride as int, plane0_len / height, width, plane0_len)
            &&& copy_fits(f.chrominance_bytes@.len() as int, f.chrominance_stride as int, plane0_len / height, width, plane1_len)
        },
        FrameData::BGR0(b) => {
            &&& pixel_format == "bgra"@
            &&& plane0_len == b@.len()
        },
    }
}

/// Writes a frame's pixels into the encoder's first two planes. An NV12
/// frame fills the luma plane and the chroma plane row by row; a BGR0 buffer
/// is copied whole into the first plane.
pub fn write_frame(
    frame: &FrameData,
    pixel_format: &str,
    width: usize,
    height: usize,
    plane0: &mut Vec<u8>,
    plane1: &mut Vec<u8>,
)
    requires
        frame_fits(*frame, pixel_format@, width as int, height as int, old(plane0)@.len() as int, old(plane1)@.len() as int),
    ensures
        match *frame {
            FrameData::NV12(f) => {
                &&& final(plane0)@ == plane_after(
                    f.luminance_bytes@,
                    f.luminance_stride as int,
                    (old(plane0)@.len() as int) / (height as int),
                    width as int,
                    old(plane0)@,
                )
                &&& final(plane1)@ == plane_after(
                    f.chrominance_bytes@,
                    f.chrominance_stride as int,
                    (old(plane0)@.len() as int) / (height as int),
                    width as int,
                    old(plane1)@,
                )
            },
            FrameData::BGR0(b) => final(plane0)@ == b@ && final(plane1)@ == old(plane1)@,
        },
{
    match frame {
        FrameData::NV12(f) => {
            let line_size = plane0.len() / height;
            copy_nv12(f.luminance_bytes.as_slice(), f.luminance_stride as usize, line_size, width, plane0);
            copy_nv12(f.chrominance_bytes.as_slice(), f.chrominance_stride as usize, line_size, width, plane1);
        },
        FrameData::BGR0(b) => {
            let n = b.len();
            copy_nv12(b, n, n, 0, plane0);
        },
    }
}

/// Frames handed back after encoding, kept for reuse, oldest first, with
/// the picture size of the frames to allocate when none can be reused.
pub struct FramePool<F> {
    frames: VecDeque<F>,
    width: u32,
    height: u32,
}

impl<F> View for FramePool<F> {
    type V = Seq<F>;

    /// The pooled frames, oldest first.
    closed spec fn view(&self) -> Seq<F> {
        self.frames@
    }
}

impl<F> FramePool<F> {
    /// The width of the frames the pool allocates.
    pub closed spec fn frame_width(&self) -> u32 {
        self.width
    }

    /// The height of the frames the pool allocates.
    pub closed spec fn frame_height(&self) -> u32 {
        self.height
    }

    /// The width of the frames the pool allocates.
    pub fn width(&self) -> (w: u32)
        ensures
            w == self.frame_width(),
    {
        self.width
    }

    /// The height of the frames the pool allocates.
    pub fn height(&self) -> (h: u32)
        ensures
            h == self.frame_height(),
    {
        self.height
    }

    /// An empty pool for frames of `width` by `height` pixels.
    pub fn new(width: u32, height: u32) -> (pool: Self)
        ensures
            pool@ == Seq::<F>::empty(),
            pool.frame_width() == width,
            pool.frame_height() == height,
    {
        FramePool { frames: VecDeque::new(), width, height }
    }

    /// Puts a frame back into the pool after it was used.
    pub fn put(&mut self, frame: F)
        ensures
            final(self)@ == old(self)@.push(frame),
            final(self).frame_width() == old(self).frame_width(),
            final(self).frame_height() == old(self).frame_height(),
    {
        self.frames.push_back(frame);
    }

    /// Takes the oldest pooled frame to try for reuse, or `None` when the
    /// pool is empty and a new frame must be allocated.
    pub fn take(&mut self) -> (frame: Option<F>)
        ensures
            old(self)@.len() == 0 ==> frame is None && final(self)@ == old(self)@,
            old(self)@.len() > 0 ==> frame == Some(old(self)@[0]) && final(self)@ == old(
                self,
            )@.drop_first(),
            final(self).frame_width() == old(self).frame_width(),
            final(self).frame_height() == old(self).frame_height(),
    {
        let frame = self.frames.pop_front();
        proof {
            if old(self)@.len() > 0 {
                assert(old(self)@.subrange(1, old(self)@.len() as int) =~= old(self)@.drop_first());
            }
        }
        frame
    }

    /// Returns a taken frame that is still in use elsewhere to the front of
    /// the pool, where the next `take` finds it again.
    pub fn give_back(&mut self, frame: F)
        ensures
            final(self)@ == seq![frame] + old(self)@,
            final(self).frame_width() == old(self).frame_width(),
            final(self).frame_height() == old(self).frame_height(),
    {
        self.frames.push_front(frame);
    }
}

/// The picture type requested of the encoder for a frame.
#[derive(PartialEq, Eq, Structural, Debug, Clone, Copy)]
pub enum PictureType {
    /// An intra (key) frame, decodable on its own.
    Intra,
    /// Whatever the encoder chooses.
    Unspecified,
}

/// The picture type of the next frame: an intra frame when one was asked
/// for since the last frame, the request being used up.
pub fn next_picture_type(force_idr: &mut bool) -> (t: PictureType)
    ensures
        t == (if *old(force_idr) { PictureType::Intra } else { PictureType::Unspecified }),
        !*final(force_idr),
{
    let requested = *force_idr;
    *force_idr = false;
    if requested {
        PictureType::Intra
    } else {
        PictureType::Unspecified
    }
}

} // verus!
