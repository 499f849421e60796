//! Taking a frame in: the handle on the engine, the dimensions to ask it for,
//! the reading of its answers, and the bytes to hand over.

use crate::codes::{Codes, Scan};
use crate::error::Error;
use vstd::prelude::*;

verus! {

/// The integer that the engine receives for the dimension `n`: `n` itself up
/// to the largest value of its signed 32-bit integers, and `n - 2^32`, a
/// negative number, beyond.
pub open spec fn c_int(n: u32) -> int {
    if n <= 0x7fff_ffff {
        n as int
    } else {
        n - 0x1_0000_0000
    }
}

/// The number of pixels, one byte each, of a frame of the given dimensions.
pub open spec fn frame_len(width: i32, height: i32) -> int {
    width * height
}

/// QR code decoder: the one owner of an engine context `E`.
///
/// The context is the caller's business. This crate never looks into it; it
/// keeps it in one place, lends it out for the length of a scan, and lets it
/// go when the coder goes.
pub struct QrCoder<E>(pub E);

impl<E> QrCoder<E> {
    /// Creates a `QrCoder` around the context that the engine allocated.
    /// Without a context there is no coder: the allocation failed.
    pub fn new(engine: Option<E>) -> (coder: Result<QrCoder<E>, Error>)
        ensures
            match coder {
                Ok(coder) => engine == Some(coder.0),
                Err(e) => engine is None && e == Error::Alloc,
            },
    {
        match engine {
            Some(engine) => Ok(QrCoder(engine)),
            None => Err(Error::Alloc),
        }
    }

    /// The dimensions to ask the engine for, as its own integers, so that its
    /// buffer holds a frame of `width` by `height` pixels.
    pub fn resize(&self, width: u32, height: u32) -> (request: (i32, i32))
        ensures
            request.0 == c_int(width),
            request.1 == c_int(height),
    {
        assert(width <= 0x7fff_ffffu32 ==> (width as i32) == width) by (bit_vector);
        assert(width > 0x7fff_ffffu32 ==> (width as i32) == width - 0x1_0000_0000) by (bit_vector);
        assert(height <= 0x7fff_ffffu32 ==> (height as i32) == height) by (bit_vector);
        assert(height > 0x7fff_ffffu32 ==> (height as i32) == height - 0x1_0000_0000)
            by (bit_vector);
        (
            #[verifier::truncate]
            (width as i32),
            #[verifier::truncate]
            (height as i32),
        )
    }

    /// Reads the engine's answer to a resize: a negative status means that it
    /// could not allocate the buffer. The coder is as good as before.
    pub fn resized(&self, status: i32) -> (done: Result<(), Error>)
        ensures
            match done {
                Ok(_) => status >= 0,
                Err(e) => status < 0 && e == Error::Alloc,
            },
    {
        if status < 0 {
            Err(Error::Alloc)
        } else {
            Ok(())
        }
    }

    /// The pixels to copy into the engine's buffer, whose actual dimensions
    /// the engine reported as `width` and `height`: the first
    /// `width * height` bytes of `src`, row after row. A buffer that holds
    /// fewer bytes than that is refused as short, and nothing of it is handed
    /// over; so are dimensions that describe no buffer, their product being
    /// negative.
    pub fn frame<'s>(&self, src: &'s [u8], width: i32, height: i32) -> (pixels: Result<
        &'s [u8],
        Error,
    >)
        ensures
            pixels is Ok <==> 0 <= frame_len(width, height) <= src@.len(),
            match pixels {
                Ok(pixels) => pixels@ == src@.subrange(0, frame_len(width, height)),
                Err(e) => e == Error::Short,
            },
            src@.len() == frame_len(width, height) ==> pixels is Ok && pixels->Ok_0@ == src@,
    {
        assert(-0x4000_0000_0000_0000 <= width * height <= 0x4000_0000_0000_0000)
            by (nonlinear_arith)
            requires
                -0x8000_0000 <= width <= 0x7fff_ffff,
                -0x8000_0000 <= height <= 0x7fff_ffff,
        ;
        let required: i64 = (width as i64) * (height as i64);
        if required < 0 || (src.len() as u64) < (required as u64) {
            return Err(Error::Short);
        }
        assert(src@.subrange(0, src@.len() as int) == src@);
        Ok(&src[0..required as usize])
    }

    /// Starts the scan of the frame that the engine has just searched and in
    /// which it reported `count` candidates. The scan borrows the context
    /// until it ends; a frame without candidates gives a scan that is
    /// exhausted from the start.
    pub fn codes(&mut self, count: i32) -> (codes: Codes<'_, E>)
        ensures
            codes@ == Scan::start(count as int),
            count <= 0 ==> codes@.pending() is None,
            *codes.engine == old(self).0,
            final(self).0 == *final(codes.engine),
    {
        Codes::new(count, &mut self.0)
    }
}

} // verus!
