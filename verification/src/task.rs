//! The callback-driven video stream: a linear frame buffer that samples are
//! copied into row by row, the numbering of its frames, and the decisions
//! of the sample callback.

use crate::camera::{hw_timestamp_ns, no_frame_metadata, timestamp_ns, FrameMetadata, FrameInfo, PixelFormat};
use crate::device::NegotiatedFormat;
use vstd::arithmetic::div_mod::{lemma_fundamental_div_mod, lemma_fundamental_div_mod_converse};
use vstd::prelude::*;

verus! {

/// The handle that identifies this backend on the frames it delivers.
#[derive(Debug, Clone, Copy, PartialEq, Eq, Structural, PartialOrd, Ord, Hash)]
pub struct MsmfHandle;

/// The handle that every frame of this backend carries.
pub const MSMF_HANDLE_INSTANCE: MsmfHandle = MsmfHandle;

// ---------------------------------------------------------------------
// Copying samples

/// Where byte `i` of a linear frame whose rows are `line_width` bytes long
/// comes from in a source whose rows start `pitch` bytes apart.
pub open spec fn strided_source_index(i: int, line_width: int, pitch: int) -> int {
    (i / line_width) * pitch + i % line_width
}

/// A source of `src_len` bytes holds `height` rows of `line_width` bytes
/// that start `pitch` bytes apart.
pub open spec fn source_holds_rows(src_len: int, pitch: int, line_width: int, height: int) -> bool {
    height == 0 || (height - 1) * pitch + line_width <= src_len
}

/// Tells whether a source of `src_len` bytes holds `height` rows of
/// `line_width` bytes that start `pitch` bytes apart.
pub fn source_holds_rows_checked(src_len: usize, pitch: usize, line_width: usize, height: usize) -> (ok: bool)
    ensures
        ok == source_holds_rows(src_len as int, pitch as int, line_width as int, height as int),
{
    if height == 0 {
        return true;
    }
    match (height - 1).checked_mul(pitch) {
        Some(start) => match start.checked_add(line_width) {
            Some(end) => end <= src_len,
            None => false,
        },
        None => false,
    }
}

proof fn lemma_row_index(y: int, x: int, w: int)
    requires
        0 <= y,
        0 <= x < w,
    ensures
        (y * w + x) / w == y,
        (y * w + x) % w == x,
{
    lemma_fundamental_div_mod_converse(y * w + x, w, y, x);
}

/// Copies a sample whose rows start `pitch` bytes apart into `dst`, which
/// holds `height` rows of `line_width` bytes with no gap between them.
pub fn copy_rows(dst: &mut Vec<u8>, src: &[u8], pitch: usize, line_width: usize, height: usize)
    requires
        old(dst)@.len() == line_width * height,
        source_holds_rows(src@.len() as int, pitch as int, line_width as int, height as int),
    ensures
        final(dst)@.len() == old(dst)@.len(),
        forall|i: int| 0 <= i < final(dst)@.len() ==>
            #[trigger] final(dst)@[i] == src@[strided_source_index(i, line_width as int, pitch as int)],
{
    let n = dst.len();
    let src_len = src.len();
    if pitch == line_width {
        assert(n <= src@.len()) by (nonlinear_arith)
            requires
                n == line_width * height,
                height == 0 || (height - 1) * pitch + line_width <= src@.len(),
                pitch == line_width,
        ;
        let mut i: usize = 0;
        while i < n
            invariant
                dst@.len() == n,
                n <= src@.len(),
                i <= n,
                forall|k: int| 0 <= k < i ==> #[trigger] dst@[k] == src@[k],
            decreases n - i,
        {
            dst.set(i, src[i]);
            i = i + 1;
        }
        assert forall|k: int| 0 <= k < n implies #[trigger] dst@[k]
            == src@[strided_source_index(k, line_width as int, pitch as int)] by {
            assert(line_width != 0) by (nonlinear_arith)
                requires
                    n == line_width * height,
                    0 <= k < n,
            ;
            lemma_fundamental_div_mod(k, line_width as int);
            assert((k / line_width as int) * (line_width as int) == (line_width as int) * (k
                / line_width as int)) by (nonlinear_arith);
        }
    } else {
        let mut y: usize = 0;
        while y < height
            invariant
                dst@.len() == n,
                n == line_width * height,
                source_holds_rows(src@.len() as int, pitch as int, line_width as int, height as int),
                y <= height,
                src_len == src@.len(),
                forall|k: int| 0 <= k < y * line_width ==>
                    #[trigger] dst@[k] == src@[strided_source_index(k, line_width as int, pitch as int)],
            decreases height - y,
        {
            assert(y * pitch + line_width <= src@.len() && y * line_width + line_width <= n)
                by (nonlinear_arith)
                requires
                    y < height,
                    (height - 1) * pitch + line_width <= src@.len(),
                    n == line_width * height,
            ;
            let row_src: usize = y * pitch;
            let row_dst: usize = y * line_width;
            let mut x: usize = 0;
            while x < line_width
                invariant
                    dst@.len() == n,
                    y < height,
                    row_src == y * pitch,
                    row_dst == y * line_width,
                    row_src + line_width <= src@.len(),
                    src_len == src@.len(),
                    row_dst + line_width <= n,
                    x <= line_width,
                    forall|k: int| 0 <= k < row_dst + x ==>
                        #[trigger] dst@[k] == src@[strided_source_index(k, line_width as int, pitch as int)],
                decreases line_width - x,
            {
                proof {
                    lemma_row_index(y as int, x as int, line_width as int);
                }
                dst.set(row_dst + x, src[row_src + x]);
                x = x + 1;
            }
            assert((y + 1) * line_width == row_dst + line_width) by (nonlinear_arith)
                requires
                    row_dst == y * line_width,
            ;
            y = y + 1;
        }
        assert(height * line_width == n) by (nonlinear_arith)
            requires
                n == line_width * height,
        ;
    }
}

/// Copies the bytes of a contiguous sample into the front of `dst`, as many
/// as both hold.
pub fn copy_prefix(dst: &mut Vec<u8>, src: &[u8])
    ensures
        final(dst)@.len() == old(dst)@.len(),
        forall|i: int| 0 <= i < final(dst)@.len() ==> #[trigger] final(dst)@[i] == if i < src@.len() {
            src@[i]
        } else {
            old(dst)@[i]
        },
{
    let n = if src.len() < dst.len() {
        src.len()
    } else {
        dst.len()
    };
    let mut i: usize = 0;
    while i < n
        invariant
            dst@.len() == old(dst)@.len(),
            n <= src@.len(),
            n <= dst@.len(),
            n == src@.len() || n == dst@.len(),
            i <= n,
            forall|k: int| 0 <= k < dst@.len() ==> #[trigger] dst@[k] == if k < i {
                src@[k]
            } else {
                old(dst)@[k]
            },
        decreases n - i,
    {
        dst.set(i, src[i]);
        i = i + 1;
    }
}

// ---------------------------------------------------------------------
// The stream

/// A callback-driven stream: the linear buffer that frames are copied into
/// and the frames delivered so far.
#[derive(Debug)]
pub struct MsmfStream {
    pub linear_buffer: Vec<u8>,
    pub width: u32,
    pub height: u32,
    pub format: PixelFormat,
    /// The number of bytes in one row of the image.
    pub line_width_bytes: usize,
    pub sequence: u64,
}

/// The number of bytes in a row `width` pixels wide at `bpp` bits per pixel.
pub open spec fn line_width_of(width: u32, bpp: u32) -> int {
    width * bpp / 8
}

/// Tells whether a linear buffer for the negotiated format at `bpp` bits
/// per pixel can be sized without overflow.
pub fn fits_frame_buffer(fmt: &NegotiatedFormat, bpp: u32) -> (ok: bool)
    ensures
        ok == (fmt.width * bpp <= u32::MAX && line_width_of(fmt.width, bpp) * fmt.height <= usize::MAX),
{
    match fmt.width.checked_mul(bpp) {
        Some(bits) => {
            let line_width = (bits / 8) as usize;
            line_width.checked_mul(fmt.height as usize).is_some()
        },
        None => false,
    }
}

impl MsmfStream {
    /// The linear buffer holds exactly the rows of one frame.
    pub open spec fn wf(&self) -> bool {
        self.linear_buffer@.len() == self.line_width_bytes * self.height
    }

    /// A stream for the negotiated format at `bpp` bits per pixel, with a
    /// zeroed buffer of one frame and no frame delivered.
    pub fn new(fmt: &NegotiatedFormat, bpp: u32) -> (s: Self)
        requires
            fmt.width * bpp <= u32::MAX,
            line_width_of(fmt.width, bpp) * fmt.height <= usize::MAX,
        ensures
            s.wf(),
            s.width == fmt.width,
            s.height == fmt.height,
            s.format == fmt.format,
            s.line_width_bytes == line_width_of(fmt.width, bpp),
            s.sequence == 0,
            forall|i: int| 0 <= i < s.linear_buffer@.len() ==> #[trigger] s.linear_buffer@[i] == 0,
    {
        let line_width_bytes = (fmt.width * bpp / 8) as usize;
        let total_size = line_width_bytes * fmt.height as usize;
        let linear_buffer = vec![0u8; total_size];
        MsmfStream {
            linear_buffer,
            width: fmt.width,
            height: fmt.height,
            format: fmt.format,
            line_width_bytes,
            sequence: 0,
        }
    }

    /// Copies a two-dimensional sample whose rows start `pitch` bytes apart
    /// into the linear buffer.
    pub fn copy_2d_sample(&mut self, scanlines: &[u8], pitch: usize)
        requires
            old(self).wf(),
            source_holds_rows(scanlines@.len() as int, pitch as int, old(self).line_width_bytes as int, old(self).height as int),
        ensures
            final(self).wf(),
            final(self).linear_buffer@.len() == old(self).linear_buffer@.len(),
            forall|i: int| 0 <= i < final(self).linear_buffer@.len() ==>
                #[trigger] final(self).linear_buffer@[i]
                    == scanlines@[strided_source_index(i, old(self).line_width_bytes as int, pitch as int)],
            final(self).width == old(self).width,
            final(self).height == old(self).height,
            final(self).format == old(self).format,
            final(self).line_width_bytes == old(self).line_width_bytes,
            final(self).sequence == old(self).sequence,
    {
        let line_width = self.line_width_bytes;
        let height = self.height as usize;
        copy_rows(&mut self.linear_buffer, scanlines, pitch, line_width, height);
    }

    /// Copies a contiguous sample into the front of the linear buffer, as
    /// many bytes as both hold.
    pub fn copy_contiguous_sample(&mut self, data: &[u8])
        requires
            old(self).wf(),
        ensures
            final(self).wf(),
            final(self).linear_buffer@.len() == old(self).linear_buffer@.len(),
            forall|i: int| 0 <= i < final(self).linear_buffer@.len() ==>
                #[trigger] final(self).linear_buffer@[i] == if i < data@.len() {
                    data@[i]
                } else {
                    old(self).linear_buffer@[i]
                },
            final(self).width == old(self).width,
            final(self).height == old(self).height,
            final(self).format == old(self).format,
            final(self).line_width_bytes == old(self).line_width_bytes,
            final(self).sequence == old(self).sequence,
    {
        copy_prefix(&mut self.linear_buffer, data);
    }

    /// Numbers the frame that the linear buffer now holds, given its Media
    /// Foundation timestamp.
    pub fn finish_frame(&mut self, timestamp: i64) -> (frame: FrameInfo)
        requires
            0 <= timestamp,
            timestamp_ns(timestamp) <= u64::MAX,
            old(self).sequence < u64::MAX,
        ensures
            final(self).sequence == old(self).sequence + 1,
            final(self).linear_buffer == old(self).linear_buffer,
            final(self).width == old(self).width,
            final(self).height == old(self).height,
            final(self).format == old(self).format,
            final(self).line_width_bytes == old(self).line_width_bytes,
            frame == (FrameInfo {
                width: old(self).width,
                height: old(self).height,
                stride: old(self).line_width_bytes,
                format: old(self).format,
                sequence: final(self).sequence,
                hw_raw_ns: timestamp_ns(timestamp) as u64,
                metadata: no_frame_metadata(),
            }),
    {
        let hw_ns = hw_timestamp_ns(timestamp);
        self.sequence = self.sequence + 1;
        FrameInfo {
            width: self.width,
            height: self.height,
            stride: self.line_width_bytes,
            format: self.format,
            sequence: self.sequence,
            hw_raw_ns: hw_ns,
            metadata: FrameMetadata::default(),
        }
    }
}

// ---------------------------------------------------------------------
// The sample callback

/// What the sample callback does with a completed read.
#[derive(Debug, Clone, Copy, PartialEq, Eq, Structural)]
pub struct SampleCallbackActions {
    /// Put the sample in the shared slot and record its timestamp.
    pub store_sample: bool,
    /// Wake the waiting frame request.
    pub notify: bool,
    /// Ask the reader for the next sample.
    pub request_next: bool,
}

/// Decides what the sample callback does: nothing once the stream is
/// stopped or the read failed; else it stores a sample that came and wakes
/// the waiting request, and asks for the next sample while the reader
/// still exists.
pub fn on_read_sample(is_running: bool, read_ok: bool, has_sample: bool, reader_alive: bool) -> (actions: SampleCallbackActions)
    ensures
        actions == (if !is_running || !read_ok {
            SampleCallbackActions { store_sample: false, notify: false, request_next: false }
        } else {
            SampleCallbackActions { store_sample: has_sample, notify: has_sample, request_next: reader_alive }
        }),
{
    if !is_running || !read_ok {
        return SampleCallbackActions { store_sample: false, notify: false, request_next: false };
    }
    SampleCallbackActions { store_sample: has_sample, notify: has_sample, request_next: reader_alive }
}

/// A contiguous copy of a whole frame is a strided copy whose pitch is the
/// row length.
pub proof fn lemma_unit_pitch_is_identity(i: int, line_width: int)
    requires
        0 <= i,
        0 < line_width,
    ensures
        strided_source_index(i, line_width, line_width) == i,
{
    lemma_fundamental_div_mod(i, line_width);
    assert((i / line_width) * line_width == line_width * (i / line_width)) by (nonlinear_arith);
}

} // verus!
