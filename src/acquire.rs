use vstd::prelude::*;

use crate::pipeline::{BYTES_PER_SAMPLE, FRAME_HEIGHT, FRAME_WIDTH};

verus! {

/// Bytes of a full raw frame: 256 by 192 samples of two bytes.
pub const FRAME_BYTES: usize = 98304;

/// Timeout of one bulk read, in milliseconds.
pub const BULK_TIMEOUT_MS: u64 = 1000;

/// Data endpoint read first.
pub const PRIMARY_ENDPOINT: u8 = 0x81;

/// Data endpoint read when the first gives nothing.
pub const SECONDARY_ENDPOINT: u8 = 0x82;

/// What the frame reader should do next.
#[derive(Clone, Copy, Debug, PartialEq, Eq, Structural)]
pub enum ReadStep {
    /// Read a frame from the data endpoint at `endpoint`.
    ReadEndpoint { endpoint: u8 },
    /// The last read returned `len` bytes: hand them out.
    Delivered { len: usize },
    /// Every candidate endpoint has been tried without data.
    NoData,
}

/// Reads raw frames from the data endpoints once streaming has been set up,
/// trying candidate endpoints in order.
pub struct UVCStream {
    frame_size: usize,
    endpoints: Vec<u8>,
}

/// The step after `tried` candidates have been read, the last of which returned
/// `last` bytes (`None` when it failed).
pub open spec fn read_step_spec(endpoints: Seq<u8>, tried: int, last: Option<usize>) -> ReadStep {
    if tried > 0 && last is Some && last->Some_0 > 0 {
        ReadStep::Delivered { len: last->Some_0 }
    } else if tried < endpoints.len() {
        ReadStep::ReadEndpoint { endpoint: endpoints[tried] }
    } else {
        ReadStep::NoData
    }
}

impl UVCStream {
    /// The candidate endpoints, in the order in which they are read.
    pub closed spec fn endpoints_spec(&self) -> Seq<u8> {
        self.endpoints@
    }

    /// The size of a full frame, in bytes.
    pub closed spec fn frame_size_spec(&self) -> nat {
        self.frame_size as nat
    }

    /// A reader for the camera's frames, on the primary and then the secondary
    /// endpoint.
    pub fn new() -> (r: Self)
        ensures
            r.endpoints_spec() == seq![PRIMARY_ENDPOINT, SECONDARY_ENDPOINT],
            r.frame_size_spec() == FRAME_BYTES,
            FRAME_BYTES == BYTES_PER_SAMPLE * FRAME_WIDTH * FRAME_HEIGHT,
    {
        let endpoints: Vec<u8> = vec![PRIMARY_ENDPOINT, SECONDARY_ENDPOINT];
        assert(endpoints@ =~= seq![PRIMARY_ENDPOINT, SECONDARY_ENDPOINT]);
        UVCStream { frame_size: FRAME_BYTES, endpoints }
    }

    /// A reader for frames of `frame_size` bytes on the given candidate
    /// endpoints, read in order.
    pub fn with_endpoints(frame_size: usize, endpoints: Vec<u8>) -> (r: Self)
        ensures
            r.endpoints_spec() == endpoints@,
            r.frame_size_spec() == frame_size,
    {
        UVCStream { frame_size, endpoints }
    }

    /// The size of a full frame, in bytes: the size of the buffer to read into.
    pub fn frame_size(&self) -> (r: usize)
        ensures
            r == self.frame_size_spec(),
    {
        self.frame_size
    }

    /// The number of candidate endpoints.
    pub fn endpoint_count(&self) -> (r: usize)
        ensures
            r == self.endpoints_spec().len(),
    {
        self.endpoints.len()
    }

    /// What to do after `tried` candidates have been read, the last of which
    /// returned `last` bytes (`None` when it failed). Any non-zero count is
    /// delivered; an empty or failed read moves on to the next candidate.
    pub fn read_step(&self, tried: usize, last: Option<usize>) -> (r: ReadStep)
        ensures
            r == read_step_spec(self.endpoints_spec(), tried as int, last),
    {
        if tried > 0 && matches!(last, Some(n) if n > 0) {
            ReadStep::Delivered { len: last.unwrap() }
        } else if tried < self.endpoints.len() {
            ReadStep::ReadEndpoint { endpoint: self.endpoints[tried] }
        } else {
            ReadStep::NoData
        }
    }

    /// The frame handed out after a read of `len` bytes into `buf`: the bytes
    /// read, as they came, even when fewer than a full frame.
    pub fn take_frame(&self, buf: Vec<u8>, len: usize) -> (r: Vec<u8>)
        ensures
            len <= buf@.len() ==> r@ == buf@.subrange(0, len as int),
            len > buf@.len() ==> r@ == buf@,
    {
        let mut buf = buf;
        buf.truncate(len);
        buf
    }
}

/// The reader reports no data only once every candidate has been tried: an
/// empty or failed read on one endpoint moves on to the next.
pub proof fn lemma_fallback_before_failure(endpoints: Seq<u8>, tried: int, last: Option<usize>)
    requires
        0 <= tried < endpoints.len(),
        last is None || last->Some_0 == 0,
    ensures
        read_step_spec(endpoints, tried, last) == (ReadStep::ReadEndpoint { endpoint: endpoints[tried] }),
{
}

} // verus!
