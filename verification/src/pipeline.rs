//! The capture session: the library's count of the stream's hardware
//! buffers and what one redraw does with the bytes of the buffer that the
//! stream hands out.
//!
//! The buffers themselves are the driver's. The caller locks the one that
//! the stream hands out and releases it when its lock ends; this module
//! counts along and decodes the bytes in between.

use vstd::prelude::*;
use crate::frame::{
    decode_frame, frame_is, framed, is_decoded, DecodedFrame, FrameError, FrameView, RawImage,
};
use crate::target::{CaptureConfiguration, BUFFER_COUNT};

verus! {

/// What a buffer pool counts: how many buffers the stream has and how many
/// of them are with the driver, free to be filled.
pub struct PoolView {
    pub capacity: nat,
    pub available: nat,
}

impl PoolView {
    /// The count after one buffer was locked for reading, if one was free.
    pub open spec fn locked(self) -> PoolView {
        if self.available > 0 {
            PoolView { capacity: self.capacity, available: (self.available - 1) as nat }
        } else {
            self
        }
    }

    /// The count after one buffer was handed back to the driver.
    pub open spec fn released(self) -> PoolView {
        if self.available < self.capacity {
            PoolView { capacity: self.capacity, available: self.available + 1 }
        } else {
            self
        }
    }
}

/// The library's count of the hardware buffers of a stream: a buffer is
/// counted as with the driver or as locked by the reader, and never more
/// are counted as with the driver than the stream has. The pool holds no
/// buffer and releases none: it counts what the caller's lock on the
/// driver's buffer does.
#[derive(Clone, Copy, Debug, PartialEq, Eq)]
pub struct BufferPool {
    capacity: usize,
    available: usize,
}

impl View for BufferPool {
    type V = PoolView;

    closed spec fn view(&self) -> PoolView {
        PoolView { capacity: self.capacity as nat, available: self.available as nat }
    }
}

impl BufferPool {
    #[verifier::type_invariant]
    spec fn well_formed(self) -> bool {
        self.available <= self.capacity
    }

    /// The count for a stream of `capacity` buffers, all with the driver.
    pub fn new(capacity: usize) -> (pool: BufferPool)
        ensures
            pool@ == (PoolView { capacity: capacity as nat, available: capacity as nat }),
    {
        BufferPool { capacity, available: capacity }
    }

    /// The number of buffers of the stream.
    pub fn capacity(&self) -> (capacity: usize)
        ensures
            capacity == self@.capacity,
    {
        self.capacity
    }

    /// The number of buffers that are counted as with the driver.
    pub fn available(&self) -> (available: usize)
        ensures
            available == self@.available,
            available <= self@.capacity,
    {
        proof {
            use_type_invariant(self);
        }
        self.available
    }

    /// Counts one buffer as locked for reading. `false`, and nothing
    /// changed, if every buffer is counted as locked already.
    pub fn lock(&mut self) -> (locked: bool)
        ensures
            locked == (old(self)@.available > 0),
            final(self)@ == old(self)@.locked(),
    {
        proof {
            use_type_invariant(&*self);
        }
        if self.available > 0 {
            self.available = self.available - 1;
            true
        } else {
            false
        }
    }

    /// Counts one buffer as handed back to the driver. Nothing changes if
    /// every buffer is counted as with the driver already.
    pub fn release(&mut self)
        ensures
            final(self)@ == old(self)@.released(),
    {
        proof {
            use_type_invariant(&*self);
        }
        if self.available < self.capacity {
            self.available = self.available + 1;
        }
    }
}

/// What the stream handed out for one redraw.
#[derive(Debug)]
pub enum Acquired<'a> {
    /// The bytes of the filled buffer, readable while the caller holds the
    /// lock on it.
    Buffer(&'a [u8]),
    /// No buffer; the cause is in words.
    Failed(String),
}

/// What one redraw ends in.
#[derive(Debug, PartialEq, Eq)]
pub enum TickOutcome {
    /// A frame to upload and show.
    Show(DecodedFrame),
    /// Nothing to show; the failure is to be logged.
    Skip(FrameError),
}

/// `outcome` shows the frame `expected`, or skips with the error `expected`.
pub open spec fn outcome_is(outcome: TickOutcome, expected: Result<FrameView, FrameError>) -> bool {
    match outcome {
        TickOutcome::Show(frame) => expected == Ok::<FrameView, FrameError>(frame@),
        TickOutcome::Skip(error) => expected == Err::<FrameView, FrameError>(error),
    }
}

/// What a session is: the configuration of its camera and its buffers.
pub struct SessionView {
    pub configuration: CaptureConfiguration,
    pub pool: PoolView,
}

/// A streaming session on the configured camera: the configuration and the
/// count of the stream's buffers. Between two redraws every one of the
/// `BUFFER_COUNT` buffers is counted as with the driver.
#[derive(Debug)]
pub struct CaptureSession {
    configuration: CaptureConfiguration,
    pool: BufferPool,
}

impl View for CaptureSession {
    type V = SessionView;

    closed spec fn view(&self) -> SessionView {
        SessionView { configuration: self.configuration, pool: self.pool@ }
    }
}

/// The count of a session between two redraws.
pub open spec fn pool_at_rest() -> PoolView {
    PoolView { capacity: BUFFER_COUNT as nat, available: BUFFER_COUNT as nat }
}

/// What a redraw ends in, taken as the result of decoding.
pub open spec fn decoded_of(outcome: TickOutcome) -> Result<DecodedFrame, FrameError> {
    match outcome {
        TickOutcome::Show(frame) => Ok(frame),
        TickOutcome::Skip(error) => Err(error),
    }
}

/// What `tick` makes of a session: it leaves the session as it was. Without
/// a buffer it skips with the cause; with one it shows a frame of the
/// negotiated size or skips with the decoder's failure.
pub open spec fn ticked(
    before: SessionView,
    acquired: Acquired,
    after: SessionView,
    outcome: TickOutcome,
) -> bool {
    &&& after == before
    &&& match acquired {
        Acquired::Failed(cause) => outcome == TickOutcome::Skip(FrameError::Acquire(cause)),
        Acquired::Buffer(data) => is_decoded(decoded_of(outcome), data@, before.configuration),
    }
}

/// What `deliver` makes of a session: it leaves the session as it was. It
/// shows the picture if that has the negotiated size, and skips with the
/// failure if not, or if the decoder had refused.
pub open spec fn delivered(
    before: SessionView,
    decoded: Result<RawImage, String>,
    after: SessionView,
    outcome: TickOutcome,
) -> bool {
    &&& after == before
    &&& match decoded {
        Ok(image) => outcome_is(
            outcome,
            framed(image.width, image.height, image.pixels@, before.configuration),
        ),
        Err(cause) => outcome == TickOutcome::Skip(FrameError::Decode(cause)),
    }
}

/// Decodes the bytes of a buffer that is counted as locked: the bytes are
/// read under the lock and not otherwise.
fn decode_locked(pool: &BufferPool, data: &[u8], configuration: &CaptureConfiguration) -> (res:
    Result<DecodedFrame, FrameError>)
    requires
        pool@.available < pool@.capacity,
    ensures
        is_decoded(res, data@, *configuration),
{
    decode_frame(data, configuration)
}

/// Takes what the decoder made of a buffer that is counted as locked.
fn framed_locked(
    pool: &BufferPool,
    decoded: Result<RawImage, String>,
    configuration: &CaptureConfiguration,
) -> (res: Result<DecodedFrame, FrameError>)
    requires
        pool@.available < pool@.capacity,
    ensures
        match decoded {
            Ok(image) => frame_is(
                res,
                framed(image.width, image.height, image.pixels@, *configuration),
            ),
            Err(cause) => res == Err::<DecodedFrame, FrameError>(FrameError::Decode(cause)),
        },
{
    match decoded {
        Ok(image) => DecodedFrame::from_image(image, configuration),
        Err(cause) => Err(FrameError::Decode(cause)),
    }
}

impl CaptureSession {
    #[verifier::type_invariant]
    spec fn at_rest(self) -> bool {
        self.pool@ == pool_at_rest()
    }

    /// The session of a stream that was opened with `BUFFER_COUNT` buffers
    /// on a camera with `configuration`.
    pub fn new(configuration: CaptureConfiguration) -> (session: CaptureSession)
        ensures
            session@ == (SessionView { configuration, pool: pool_at_rest() }),
    {
        CaptureSession { configuration, pool: BufferPool::new(BUFFER_COUNT) }
    }

    /// The configuration of the camera, the same for the whole session.
    pub fn configuration(&self) -> (configuration: CaptureConfiguration)
        ensures
            configuration == self@.configuration,
    {
        self.configuration
    }

    /// The number of buffers that are counted as with the driver: all of
    /// them.
    pub fn available_buffers(&self) -> (available: usize)
        ensures
            available == self@.pool.available,
            available == BUFFER_COUNT,
    {
        proof {
            use_type_invariant(self);
        }
        self.pool.available()
    }

    /// One redraw, to be called while the caller holds the lock on the
    /// buffer that the stream handed out. The bytes are decoded; the count
    /// has one buffer locked meanwhile and has it handed back afterwards,
    /// whether decoding succeeded or not. Without a buffer there is nothing
    /// to count. The session is afterwards as it was before. The driver's
    /// buffer itself is released by the caller's lock, when that ends.
    pub fn tick(&mut self, acquired: Acquired) -> (outcome: TickOutcome)
        ensures
            ticked(old(self)@, acquired, final(self)@, outcome),
    {
        proof {
            use_type_invariant(&*self);
        }
        match acquired {
            Acquired::Failed(cause) => TickOutcome::Skip(FrameError::Acquire(cause)),
            Acquired::Buffer(data) => {
                let mut pool = self.pool;
                pool.lock();
                let decoded = decode_locked(&pool, data, &self.configuration);
                pool.release();
                self.pool = pool;
                match decoded {
                    Ok(frame) => TickOutcome::Show(frame),
                    Err(error) => TickOutcome::Skip(error),
                }
            },
        }
    }

    /// One redraw on a buffer of which the caller says what the decoder made
    /// of it: a picture, or a refusal with its cause in words. The buffer is
    /// counted as locked and as handed back as in `tick`.
    pub fn deliver(&mut self, decoded: Result<RawImage, String>) -> (outcome: TickOutcome)
        ensures
            delivered(old(self)@, decoded, final(self)@, outcome),
    {
        proof {
            use_type_invariant(&*self);
        }
        let mut pool = self.pool;
        pool.lock();
        let frame = framed_locked(&pool, decoded, &self.configuration);
        pool.release();
        self.pool = pool;
        match frame {
            Ok(frame) => TickOutcome::Show(frame),
            Err(error) => TickOutcome::Skip(error),
        }
    }
}

/// A buffer that was counted as locked for reading and then as handed back
/// is counted as with the driver again: the count is as it was before the
/// lock.
pub proof fn lemma_release_undoes_lock(pool: PoolView)
    requires
        0 < pool.available <= pool.capacity,
    ensures
        pool.locked().released() == pool,
{
}

/// A redraw that fails does not stand in the way of the next. Whatever one
/// redraw was given and ended in, the session is afterwards as it was, and
/// a picture of the negotiated size that the decoder makes of the next
/// buffer is shown.
pub proof fn lemma_failure_does_not_stick(
    first: SessionView,
    bad: Acquired,
    second: SessionView,
    skipped: TickOutcome,
    image: RawImage,
    third: SessionView,
    outcome: TickOutcome,
)
    requires
        ticked(first, bad, second, skipped),
        delivered(second, Ok(image), third, outcome),
        image.width == first.configuration.width,
        image.height == first.configuration.height,
        image.pixels@.len() == first.configuration.size().rgba_len(),
    ensures
        third == first,
        outcome matches TickOutcome::Show(frame) && frame@ == (FrameView {
            size: first.configuration.size(),
            pixels: image.pixels@,
        }),
{
}

/// The same after a redraw whose decoder result was given: a refusal, or a
/// picture of another size, leaves the session as it was, and the next
/// redraw ends in what it would have ended in as the first.
pub proof fn lemma_refusal_does_not_stick(
    first: SessionView,
    refused: Result<RawImage, String>,
    second: SessionView,
    skipped: TickOutcome,
    decoded: Result<RawImage, String>,
    third: SessionView,
    outcome: TickOutcome,
)
    requires
        delivered(first, refused, second, skipped),
        delivered(second, decoded, third, outcome),
    ensures
        third == first,
        delivered(first, decoded, first, outcome),
{
}

} // verus!
