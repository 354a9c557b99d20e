//! Video frames as plain values: a byte buffer, the picture size, and the
//! time the frame was taken.

use crate::utils::timestamp::Timestamp;
use vstd::prelude::*;
use vstd::slice::slice_subrange;

verus! {

/// A byte buffer of which the first `size` bytes are in use.
#[derive(Debug)]
pub struct Buffer {
    pub data: Vec<u8>,
    pub size: usize,
}

impl Buffer {
    /// All bytes of the buffer, used or not.
    #[inline]
    pub fn data(&self) -> (r: &[u8])
        ensures
            r@ == self.data@,
    {
        self.data.as_slice()
    }

    /// The number of bytes in use.
    #[inline]
    pub fn size(&self) -> (r: usize)
        ensures
            r == self.size,
    {
        self.size
    }

    /// A readable map of the bytes in use. The buffer must hold as many bytes
    /// as it says are in use.
    pub fn map_readable(&self) -> (r: Result<BufferMap<'_>, ()>)
        requires
            self.size <= self.data@.len(),
        ensures
            r.is_ok(),
            r.unwrap().data@ == self.data@.subrange(0, self.size as int),
    {
        Ok(BufferMap { data: slice_subrange(self.data.as_slice(), 0, self.size) })
    }
}

impl Clone for Buffer {
    fn clone(&self) -> (r: Self)
        ensures
            r.data@ == self.data@,
            r.size == self.size,
    {
        Buffer { data: self.data.clone(), size: self.size }
    }
}

/// The bytes of a buffer that are in use, borrowed for reading.
pub struct BufferMap<'a> {
    pub data: &'a [u8],
}

impl BufferMap<'_> {
    /// The mapped bytes.
    #[inline]
    pub fn as_slice(&self) -> (r: &[u8])
        ensures
            r@ == self.data@,
    {
        self.data
    }
}

/// The size of a picture in pixels.
#[derive(Debug, Clone, Copy)]
pub struct VideoInfo {
    pub width: u32,
    pub height: u32,
}

impl VideoInfo {
    /// The width in pixels.
    #[inline]
    pub fn width(&self) -> (r: u32)
        ensures
            r == self.width,
    {
        self.width
    }

    /// The height in pixels.
    #[inline]
    pub fn height(&self) -> (r: u32)
        ensures
            r == self.height,
    {
        self.height
    }
}

/// One frame of video.
#[derive(Debug)]
pub struct VideoFrame {
    pub id: usize,
    pub buffer: Buffer,
    pub info: VideoInfo,
    pub pts: Timestamp,
}

impl Clone for VideoFrame {
    fn clone(&self) -> (r: Self)
        ensures
            r.id == self.id,
            r.buffer.data@ == self.buffer.data@,
            r.buffer.size == self.buffer.size,
            r.info == self.info,
            r.pts == self.pts,
    {
        VideoFrame { id: self.id, buffer: self.buffer.clone(), info: self.info, pts: self.pts }
    }
}

} // verus!
