//! The polling video stream: its state, the decisions of the sample-reading
//! loop and the numbering of frames.

use crate::camera::{hw_timestamp_ns, no_frame_metadata, timestamp_ns, FrameMetadata, CameraError, FrameInfo, PixelFormat};
use crate::device::NegotiatedFormat;
use vstd::prelude::*;

verus! {

/// A marker for the buffers that this backend hands out.
#[derive(Debug)]
pub struct MsmfBufferHandle;

/// How many times a frame request reads a sample before it gives up.
pub const SAMPLE_READ_ATTEMPTS: u32 = 10;

/// How long, in milliseconds, a frame request waits after a read that gave
/// no sample.
pub const SAMPLE_RETRY_DELAY_MS: u64 = 10;

/// The state of a video stream of one negotiated format.
#[derive(Debug, Clone, Copy, PartialEq, Eq, Structural)]
pub struct MsmfStream {
    pub width: u32,
    pub height: u32,
    pub format: PixelFormat,
    pub is_streaming: bool,
    /// The number of frames delivered so far.
    pub sequence: u64,
}

/// The stream after `start`.
pub open spec fn spec_started(s: MsmfStream) -> MsmfStream {
    MsmfStream { is_streaming: true, ..s }
}

/// The stream after `stop`.
pub open spec fn spec_stopped(s: MsmfStream) -> MsmfStream {
    MsmfStream { is_streaming: false, ..s }
}

/// The stream after it delivered a frame.
pub open spec fn spec_after_frame(s: MsmfStream) -> MsmfStream {
    MsmfStream { sequence: (s.sequence + 1) as u64, ..s }
}

/// The stride of a frame `width` pixels wide at `bpp` bits per pixel.
pub open spec fn spec_stride(width: u32, bpp: u32) -> int {
    width * bpp / 8
}

/// What a read of a sample gave.
#[derive(Debug)]
pub enum ReadOutcome {
    /// The read failed; the text says why.
    Failed(String),
    /// The read succeeded without a sample.
    NoSample,
    /// The read gave a sample.
    Sample,
}

/// What a frame request does after a read.
#[derive(Debug)]
pub enum ReadStep {
    /// Take the sample and deliver it.
    Deliver,
    /// Wait `SAMPLE_RETRY_DELAY_MS` and read again.
    Retry,
    /// Wait `SAMPLE_RETRY_DELAY_MS`, then fail with the error.
    GiveUp(CameraError),
    /// Fail with the error at once.
    Fail(CameraError),
}

/// Decides what a frame request does after its `reads_done`-th read: a
/// failed read fails the request with its message, a sample is delivered,
/// and a read without a sample is tried again until `SAMPLE_READ_ATTEMPTS`
/// reads have been made, after which the request gives up.
pub fn next_read_step(reads_done: u32, outcome: ReadOutcome) -> (step: ReadStep)
    requires
        1 <= reads_done <= SAMPLE_READ_ATTEMPTS,
    ensures
        match outcome {
            ReadOutcome::Failed(msg) => step matches ReadStep::Fail(CameraError::Io(m)) && m@ == msg@,
            ReadOutcome::Sample => step is Deliver,
            ReadOutcome::NoSample => if reads_done < SAMPLE_READ_ATTEMPTS {
                step is Retry
            } else {
                step matches ReadStep::GiveUp(CameraError::Io(m)) && m@ == "No sample received"@
            },
        },
{
    match outcome {
        ReadOutcome::Failed(msg) => ReadStep::Fail(CameraError::Io(msg)),
        ReadOutcome::Sample => ReadStep::Deliver,
        ReadOutcome::NoSample => {
            if reads_done < SAMPLE_READ_ATTEMPTS {
                ReadStep::Retry
            } else {
                ReadStep::GiveUp(CameraError::Io("No sample received".to_owned()))
            }
        },
    }
}

impl MsmfStream {
    /// A stream of the negotiated format, not started, that has delivered
    /// no frame.
    pub fn new(fmt: &NegotiatedFormat, buf_count: usize) -> (res: Result<Self, CameraError>)
        ensures
            res matches Ok(s) && s == (MsmfStream {
                width: fmt.width,
                height: fmt.height,
                format: fmt.format,
                is_streaming: false,
                sequence: 0,
            }),
    {
        Ok(MsmfStream {
            width: fmt.width,
            height: fmt.height,
            format: fmt.format,
            is_streaming: false,
            sequence: 0,
        })
    }

    /// Starts the stream.
    pub fn start(&mut self)
        ensures
            *final(self) == spec_started(*old(self)),
    {
        self.is_streaming = true;
    }

    /// Stops the stream.
    pub fn stop(&mut self)
        ensures
            *final(self) == spec_stopped(*old(self)),
    {
        self.is_streaming = false;
    }

    /// A frame request on a stream that is not started fails before it
    /// reads anything.
    pub fn check_started(&self) -> (res: Result<(), CameraError>)
        ensures
            res is Ok <==> self.is_streaming,
            res matches Err(e) ==> e matches CameraError::Io(m) && m@ == "Stream not started"@,
    {
        if !self.is_streaming {
            Err(CameraError::Io("Stream not started".to_owned()))
        } else {
            Ok(())
        }
    }

    /// Numbers the frame that a request delivers, given its Media
    /// Foundation timestamp and the bits per pixel of the format.
    pub fn finish_frame(&mut self, timestamp: i64, bpp: u32) -> (frame: FrameInfo)
        requires
            0 <= timestamp,
            timestamp_ns(timestamp) <= u64::MAX,
            old(self).sequence < u64::MAX,
            old(self).width * bpp <= u32::MAX,
        ensures
            *final(self) == spec_after_frame(*old(self)),
            frame == (FrameInfo {
                width: old(self).width,
                height: old(self).height,
                stride: spec_stride(old(self).width, bpp) as usize,
                format: old(self).format,
                sequence: final(self).sequence,
                hw_raw_ns: timestamp_ns(timestamp) as u64,
                metadata: no_frame_metadata(),
            }),
    {
        let hw_ns = hw_timestamp_ns(timestamp);
        self.sequence = self.sequence + 1;
        FrameInfo {
            width: self.width,
            height: self.height,
            stride: (self.width * bpp / 8) as usize,
            format: self.format,
            sequence: self.sequence,
            hw_raw_ns: hw_ns,
            metadata: FrameMetadata::default(),
        }
    }
}

/// Stopping a started stream leaves it as stopping it would have without
/// the start; a started stream is streaming and a stopped one is not.
pub proof fn lemma_stop_undoes_start(s: MsmfStream)
    ensures
        spec_stopped(spec_started(s)) == spec_stopped(s),
        spec_started(s).is_streaming,
        !spec_stopped(s).is_streaming,
        spec_stopped(s).is_streaming == s.is_streaming ==> spec_stopped(s) == s,
{
}

/// Starting, stopping and delivering frames keep the format; every frame
/// advances the sequence by one.
pub proof fn lemma_frames_are_numbered(s: MsmfStream)
    requires
        s.sequence < u64::MAX,
    ensures
        spec_after_frame(s).sequence == s.sequence + 1,
        spec_after_frame(s).width == s.width && spec_after_frame(s).height == s.height
            && spec_after_frame(s).format == s.format,
        spec_after_frame(s).is_streaming == s.is_streaming,
        spec_started(s).sequence == s.sequence && spec_stopped(s).sequence == s.sequence,
{
}

/// A request made of a stream.
#[derive(Debug, Clone, Copy, PartialEq, Eq, Structural)]
pub enum StreamRequest {
    Start,
    Stop,
    /// A frame request; `sample_arrived` tells whether its reads gave a
    /// sample, and not an error or nothing.
    NextFrame { sample_arrived: bool },
}

/// Whether a frame request delivers a frame on the stream in state `s`: it
/// does where the stream is started and a sample arrived; else it fails
/// and leaves the stream as it was.
pub open spec fn delivers(s: MsmfStream, req: StreamRequest) -> bool {
    req matches StreamRequest::NextFrame { sample_arrived } && s.is_streaming && sample_arrived
}

/// The stream after one request.
pub open spec fn spec_step(s: MsmfStream, req: StreamRequest) -> MsmfStream {
    match req {
        StreamRequest::Start => spec_started(s),
        StreamRequest::Stop => spec_stopped(s),
        StreamRequest::NextFrame { .. } => if delivers(s, req) {
            spec_after_frame(s)
        } else {
            s
        },
    }
}

/// The stream after a run of requests, in order.
pub open spec fn spec_run(s: MsmfStream, reqs: Seq<StreamRequest>) -> MsmfStream
    decreases reqs.len(),
{
    if reqs.len() == 0 {
        s
    } else {
        spec_step(spec_run(s, reqs.drop_last()), reqs.last())
    }
}

/// How many of a run of requests deliver a frame.
pub open spec fn frames_delivered(s: MsmfStream, reqs: Seq<StreamRequest>) -> nat
    decreases reqs.len(),
{
    if reqs.len() == 0 {
        0
    } else {
        let prev = spec_run(s, reqs.drop_last());
        frames_delivered(s, reqs.drop_last()) + if delivers(prev, reqs.last()) {
            1nat
        } else {
            0nat
        }
    }
}

/// Over any run of starts, stops and frame requests, the stream's sequence
/// counts the frames delivered, the format never changes, and each frame
/// that a request delivers carries one more than the frame before it: a
/// stream made by `new` numbers its frames 1, 2, 3, ... and a failed request
/// numbers none.
pub proof fn lemma_run_numbers_frames(s: MsmfStream, reqs: Seq<StreamRequest>)
    requires
        s.sequence + reqs.len() <= u64::MAX,
    ensures
        spec_run(s, reqs).sequence == s.sequence + frames_delivered(s, reqs),
        frames_delivered(s, reqs) <= reqs.len(),
        spec_run(s, reqs).width == s.width,
        spec_run(s, reqs).height == s.height,
        spec_run(s, reqs).format == s.format,
        reqs.len() > 0 && delivers(spec_run(s, reqs.drop_last()), reqs.last()) ==>
            spec_run(s, reqs).sequence == spec_run(s, reqs.drop_last()).sequence + 1,
        reqs.len() > 0 && !delivers(spec_run(s, reqs.drop_last()), reqs.last()) ==>
            spec_run(s, reqs).sequence == spec_run(s, reqs.drop_last()).sequence,
    decreases reqs.len(),
{
    if reqs.len() > 0 {
        lemma_run_numbers_frames(s, reqs.drop_last());
    }
}

} // verus!
