//! Byte-level bookkeeping of the raw-video capture step: the padded row
//! stride the GPU copy uses, the staging-buffer size, and the trimming of
//! row padding that turns a mapped staging buffer into one headerless
//! RGBA8 frame. The offscreen texture, staging buffer and output file live
//! with the caller and are sized exactly as this state dictates.

use vstd::prelude::*;
use crate::utils::round_up_to_multiple;
use crate::utils::multiple_of;

verus! {

/// GPU texture-to-buffer copies require row strides padded to this many bytes.
pub const ROW_BYTE_ALIGNMENT: u32 = 256;

/// Bytes per RGBA8 pixel.
pub const BYTES_PER_PIXEL: u32 = 4;

/// The padded byte stride of one texture row of `width` pixels.
pub open spec fn padded_row_bytes(width: int) -> int {
    round_up_to_multiple(width * BYTES_PER_PIXEL, ROW_BYTE_ALIGNMENT as int)
}

/// Bytes of one trimmed output frame at `width x height`.
pub open spec fn frame_bytes(width: int, height: int) -> int {
    width * height * BYTES_PER_PIXEL
}

/// State of the optional capture step.
pub struct CaptureModule {
    /// Whether frames are being captured; starts off, toggled at runtime.
    pub enabled: bool,
    /// Pixel width of the offscreen render target.
    pub width: u32,
    /// Pixel height of the offscreen render target.
    pub height: u32,
}

/// Dimensions small enough that every byte count below fits its type.
pub open spec fn dims_ok(width: int, height: int) -> bool {
    &&& width * BYTES_PER_PIXEL + ROW_BYTE_ALIGNMENT <= u32::MAX
    &&& padded_row_bytes(width) * height <= u64::MAX
}

impl CaptureModule {
    pub open spec fn wf(&self) -> bool {
        dims_ok(self.width as int, self.height as int)
    }

    /// Sets up capture for a window of the given pixel size; capture
    /// starts disabled and is only toggled at runtime.
    pub fn new(width: u32, height: u32) -> (r: Self)
        requires
            dims_ok(width as int, height as int),
        ensures
            r.wf(),
            !r.enabled,
            r.width == width,
            r.height == height,
    {
        CaptureModule { enabled: false, width, height }
    }

    /// Tracks a window resize: the offscreen target and staging buffer are
    /// recreated at the new size; the enabled flag is untouched.
    pub fn resize(&mut self, width: u32, height: u32)
        requires
            dims_ok(width as int, height as int),
        ensures
            final(self).wf(),
            final(self).enabled == old(self).enabled,
            final(self).width == width,
            final(self).height == height,
    {
        self.width = width;
        self.height = height;
    }

    /// The byte stride of one row in the staging buffer.
    pub fn padded_bytes_per_row(&self) -> (r: u32)
        requires
            self.wf(),
        ensures
            r == padded_row_bytes(self.width as int),
    {
        multiple_of(self.width * BYTES_PER_PIXEL, ROW_BYTE_ALIGNMENT)
    }

    /// The staging buffer holds every padded row of the texture.
    pub fn staging_buffer_size(&self) -> (r: u64)
        requires
            self.wf(),
        ensures
            r == padded_row_bytes(self.width as int) * self.height,
    {
        self.padded_bytes_per_row() as u64 * self.height as u64
    }
}

/// Where byte `j` of the trimmed frame sits in the padded staging data:
/// `j` names row `j / (width * 4)`, column `j % (width * 4)`.
pub open spec fn source_index(width: int, j: int) -> int {
    (j / (width * BYTES_PER_PIXEL)) * padded_row_bytes(width) + j % (width * BYTES_PER_PIXEL)
}

/// Trims the per-row alignment padding out of a mapped staging buffer,
/// yielding exactly one headerless RGBA8 frame: `height` rows of
/// `width * 4` bytes, each row the prefix of the corresponding padded row.
pub fn extract_frame(data: &Vec<u8>, width: u32, height: u32) -> (frame: Vec<u8>)
    requires
        dims_ok(width as int, height as int),
        data@.len() >= padded_row_bytes(width as int) * height,
    ensures
        frame@.len() == frame_bytes(width as int, height as int),
        forall|j: int| 0 <= j < frame@.len()
            ==> #[trigger] frame@[j] == data@[source_index(width as int, j)],
{
    let row_len: usize = (width * BYTES_PER_PIXEL) as usize;
    let stride: usize = multiple_of(width * BYTES_PER_PIXEL, ROW_BYTE_ALIGNMENT) as usize;
    let data_len: usize = data.len();
    let mut frame: Vec<u8> = Vec::new();
    let mut y: usize = 0;
    while y < height as usize
        invariant
            dims_ok(width as int, height as int),
            data@.len() >= padded_row_bytes(width as int) * height,
            row_len == width * BYTES_PER_PIXEL,
            stride == padded_row_bytes(width as int),
            data_len == data@.len(),
            y <= height,
            frame@.len() == y * row_len,
            forall|j: int| 0 <= j < frame@.len()
                ==> #[trigger] frame@[j] == data@[source_index(width as int, j)],
        decreases height - y,
    {
        let mut i: usize = 0;
        while i < row_len
            invariant
                dims_ok(width as int, height as int),
                data@.len() >= padded_row_bytes(width as int) * height,
                row_len == width * BYTES_PER_PIXEL,
                stride == padded_row_bytes(width as int),
                data_len == data@.len(),
                y < height as usize,
                i <= row_len,
                frame@.len() == y * row_len + i,
                forall|j: int| 0 <= j < frame@.len()
                    ==> #[trigger] frame@[j] == data@[source_index(width as int, j)],
            decreases row_len - i,
        {
            proof {
                lemma_trim_step(width as int, height as int, y as int, i as int);
            }
            frame.push(data[y * stride + i]);
            i = i + 1;
        }
        proof {
            assert((y as int + 1) * (row_len as int) == y as int * (row_len as int) + row_len)
                by (nonlinear_arith);
        }
        y = y + 1;
    }
    proof {
        lemma_rows_cover_frame(width as int, height as int);
    }
    frame
}

/// `height` full rows of `width * 4` bytes make up one whole frame.
proof fn lemma_rows_cover_frame(width: int, height: int)
    ensures
        height * (width * BYTES_PER_PIXEL) == frame_bytes(width, height),
{
    let b = BYTES_PER_PIXEL as int;
    vstd::arithmetic::mul::lemma_mul_is_associative(height, width, b);
    vstd::arithmetic::mul::lemma_mul_is_commutative(height, width);
}

/// Byte `(y, i)` of the trim loop lands at flat index `y * row + i` of the
/// frame, inside both the frame and the padded staging data.
proof fn lemma_trim_step(width: int, height: int, y: int, i: int)
    requires
        dims_ok(width, height),
        0 <= y < height,
        0 <= i < width * BYTES_PER_PIXEL,
    ensures
        0 <= y * (width * BYTES_PER_PIXEL) + i,
        y * (width * BYTES_PER_PIXEL) + i + 1 <= frame_bytes(width, height),
        0 <= y * padded_row_bytes(width) + i,
        y * padded_row_bytes(width) + i < padded_row_bytes(width) * height,
        source_index(width, y * (width * BYTES_PER_PIXEL) + i)
            == y * padded_row_bytes(width) + i,
{
    let row_len = width * BYTES_PER_PIXEL;
    let stride = padded_row_bytes(width);
    assert(i < stride);
    assert(0 <= y * row_len && y * row_len + row_len <= height * row_len)
        by (nonlinear_arith)
        requires 0 <= y, y < height, row_len >= 0,
    ;
    lemma_rows_cover_frame(width, height);
    assert(0 <= y * stride && y * stride + stride <= height * stride)
        by (nonlinear_arith)
        requires 0 <= y, y < height, stride >= 0,
    ;
    vstd::arithmetic::mul::lemma_mul_is_commutative(stride, height);
    vstd::arithmetic::div_mod::lemma_fundamental_div_mod_converse(
        y * row_len + i, row_len, y, i);
}

/// The capture output stream: the frames laid end to end, with no
/// separators or headers between them.
pub open spec fn capture_stream(frames: Seq<Seq<u8>>) -> Seq<u8> {
    frames.flatten()
}

/// After capturing `k` frames at one resolution the output holds exactly
/// `k * width * height * 4` bytes.
pub proof fn lemma_capture_stream_len(frames: Seq<Seq<u8>>, width: int, height: int)
    requires
        forall|k: int| 0 <= k < frames.len()
            ==> #[trigger] frames[k].len() == frame_bytes(width, height),
    ensures
        capture_stream(frames).len() == frames.len() * frame_bytes(width, height),
    decreases frames.len(),
{
    if frames.len() == 0 {
        assert(capture_stream(frames).len() == 0);
    } else {
        let rest = frames.drop_first();
        assert(forall|k: int| 0 <= k < rest.len()
            ==> #[trigger] rest[k].len() == frame_bytes(width, height));
        lemma_capture_stream_len(rest, width, height);
        let fl = frame_bytes(width, height);
        assert(capture_stream(frames).len() == fl + rest.len() * fl);
        assert(fl + rest.len() * fl == (rest.len() + 1) * fl) by (nonlinear_arith);
    }
}

} // verus!
