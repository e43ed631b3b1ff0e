//! A lease on a span of the device buffer.
use crate::device::Request;
use vstd::prelude::*;

verus! {

/// A claimed span of the device buffer, as samples of type `T`.
///
/// The samples can be written in any order and any number of times. The
/// lease ends with [`Buffer::finish`], which takes the lease and hands the
/// samples over for the device; there is no other way to end it.
#[derive(Debug)]
pub struct Buffer<T> {
    samples: Vec<T>,
    frames: u32,
}

impl<T> View for Buffer<T> {
    type V = Seq<T>;

    /// The samples of the span, in the order in which the device plays them.
    closed spec fn view(&self) -> Seq<T> {
        self.samples@
    }
}

impl<T> Buffer<T> {
    /// Number of frames that the lease claims.
    pub closed spec fn frames(&self) -> u32 {
        self.frames
    }

    /// Wraps a claimed region.
    pub(crate) fn issue(samples: Vec<T>, frames: u32) -> (buffer: Buffer<T>)
        ensures
            buffer@ == samples@,
            buffer.frames() == frames,
    {
        Buffer { samples, frames }
    }

    /// Number of frames that the lease claims.
    pub fn get_frames(&self) -> (frames: u32)
        ensures
            frames == self.frames(),
    {
        self.frames
    }

    /// Number of samples in the span.
    pub fn len(&self) -> (len: usize)
        ensures
            len == self@.len(),
    {
        self.samples.len()
    }

    /// The span, for writing. What is written is what [`Buffer::finish`]
    /// hands over; what is left alone keeps the value it had.
    pub fn get_buffer(&mut self) -> (slice: &mut [T])
        ensures
            slice@ == old(self)@,
            final(self)@ == final(slice)@,
            final(self).frames() == old(self).frames(),
    {
        self.samples.as_mut_slice()
    }

    /// Ends the lease: asks for the commit of exactly the claimed frames and
    /// hands over the samples as they were written, in the same order.
    pub fn finish(self) -> (commit: (Request, Vec<T>))
        ensures
            commit.0 == (Request::ReleaseBuffer { frames: self.frames() }),
            commit.1@ == self@,
    {
        (Request::ReleaseBuffer { frames: self.frames }, self.samples)
    }
}

} // verus!
