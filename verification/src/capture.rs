//! Frames of the screen, and the buffers that they are kept in.
use std::collections::VecDeque;
use vstd::prelude::*;

verus! {

/// A way to capture the screen.
pub trait ScreenCaptureBackend {
    /// Captures a frame, once it is ready.
    fn capture_frame(&mut self) -> Result<PooledFrame, String>;

    fn width(&self) -> u32;

    fn height(&self) -> u32;
}

/// How many bytes a pixel has: blue, green, red and alpha.
pub const BYTES_PER_PIXEL: u32 = 4;

/// How many buffers are made beforehand: one to be filled, one to be encoded, and one to spare.
pub const POOL_SIZE: usize = 3;

/// How many bytes a frame of a size has.
pub fn frame_bytes(width: u32, height: u32) -> (r: u32)
    requires
        width * height * BYTES_PER_PIXEL <= u32::MAX,
    ensures
        r == width * height * BYTES_PER_PIXEL,
{
    assert(width * height <= width * height * 4) by (nonlinear_arith)
        requires
            width >= 0,
            height >= 0,
    ;
    width * height * BYTES_PER_PIXEL
}

/// A frame in a buffer of the pool.
pub struct PooledFrame {
    data: Vec<u8>,
}

impl View for PooledFrame {
    type V = Seq<u8>;

    closed spec fn view(&self) -> Seq<u8> {
        self.data@
    }
}

impl PooledFrame {
    /// How many bytes the frame has.
    pub fn len(&self) -> (r: usize)
        ensures
            r == self@.len(),
    {
        self.data.len()
    }

    /// The bytes of the frame.
    pub fn as_bytes(&self) -> (r: &[u8])
        ensures
            r@ == self@,
    {
        self.data.as_slice()
    }
}

/// The buffers that are free.
pub struct FramePool {
    free: VecDeque<Vec<u8>>,
}

impl View for FramePool {
    type V = Seq<Vec<u8>>;

    closed spec fn view(&self) -> Seq<Vec<u8>> {
        self.free@
    }
}

/// What a frame holds once the screen was copied into it: the bytes of the screen, whose fourth
/// of each pixel the screen leaves undefined, with full alpha there.
pub open spec fn opaque_pixels(screen: Seq<u8>) -> Seq<u8> {
    Seq::new(
        screen.len(),
        |i: int|
            if i % 4 == 3 {
                0xFF
            } else {
                screen[i]
            },
    )
}

impl FramePool {
    /// A pool of buffers for frames of the given size.
    pub fn new(frame_bytes: usize) -> (r: Self)
        ensures
            r@.len() == POOL_SIZE,
            forall|i: int|
                0 <= i < POOL_SIZE ==> (#[trigger] r@[i])@ == Seq::new(
                    frame_bytes as nat,
                    |k: int| 0u8,
                ),
    {
        let mut free: VecDeque<Vec<u8>> = VecDeque::new();
        for n in 0..POOL_SIZE
            invariant
                free@.len() == n,
                forall|i: int|
                    0 <= i < n ==> (#[trigger] free@[i])@ == Seq::new(
                        frame_bytes as nat,
                        |k: int| 0u8,
                    ),
        {
            let buffer = zeroed(frame_bytes);
            free.push_back(buffer);
        }
        FramePool { free }
    }

    /// A frame of what is on the screen, in the buffer that has been free for the longest, or in a
    /// new one where none is.
    pub fn fill_frame(&mut self, screen: &[u8]) -> (r: PooledFrame)
        ensures
            r@ == opaque_pixels(screen@),
            final(self)@ == if old(self)@.len() > 0 {
                old(self)@.skip(1)
            } else {
                old(self)@
            },
    {
        let taken = self.free.pop_front();
        let mut data: Vec<u8> = match taken {
            Some(buffer) => buffer,
            None => Vec::new(),
        };
        assert(self@ =~= if old(self)@.len() > 0 {
            old(self)@.skip(1)
        } else {
            old(self)@
        });
        data.clear();
        for i in 0..screen.len()
            invariant
                data@ == opaque_pixels(screen@).take(i as int),
        {
            let byte: u8 = if i % 4 == 3 {
                0xFF
            } else {
                screen[i]
            };
            data.push(byte);
            assert(opaque_pixels(screen@).take(i + 1) =~= opaque_pixels(screen@).take(
                i as int,
            ).push(byte));
        }
        assert(opaque_pixels(screen@).take(screen@.len() as int) =~= opaque_pixels(screen@));
        PooledFrame { data }
    }

    /// Takes the buffer of a frame back, once the frame has been encoded.
    pub fn give_back(&mut self, frame: PooledFrame)
        ensures
            final(self)@.len() == old(self)@.len() + 1,
            final(self)@.drop_last() == old(self)@,
            final(self)@.last()@ == frame@,
    {
        self.free.push_back(frame.data);
        assert(self@.drop_last() =~= old(self)@);
    }
}

fn zeroed(n: usize) -> (r: Vec<u8>)
    ensures
        r@ == Seq::new(n as nat, |k: int| 0u8),
{
    let mut r: Vec<u8> = Vec::new();
    for i in 0..n
        invariant
            r@ == Seq::new(i as nat, |k: int| 0u8),
    {
        r.push(0);
        assert(r@ =~= Seq::new((i + 1) as nat, |k: int| 0u8));
    }
    r
}

/// Every pixel of a frame is opaque and has the colours of the screen.
pub proof fn frames_are_opaque(screen: Seq<u8>, pixel: int)
    requires
        0 <= pixel,
        4 * pixel + 3 < screen.len(),
    ensures
        opaque_pixels(screen).len() == screen.len(),
        opaque_pixels(screen)[4 * pixel] == screen[4 * pixel],
        opaque_pixels(screen)[4 * pixel + 1] == screen[4 * pixel + 1],
        opaque_pixels(screen)[4 * pixel + 2] == screen[4 * pixel + 2],
        opaque_pixels(screen)[4 * pixel + 3] == 0xFF,
{
}

/// A frame has the screen's bytes, with 255 as every fourth, and a size of four bytes per pixel; it
/// comes from the buffer that has been free for the longest, and goes behind all others.
pub proof fn frames_are_copied_and_pooled(
    p: &mut FramePool,
    screen: &[u8],
    f: PooledFrame,
    i: int,
    q: &mut FramePool,
    back: PooledFrame,
    frame: &PooledFrame,
    bytes: &[u8],
    len: usize,
    width: u32,
    height: u32,
    size: u32,
)
    requires
        call_ensures(FramePool::fill_frame, (p, screen), f),
        call_ensures(FramePool::give_back, (q, back), ()),
        call_ensures(PooledFrame::as_bytes, (frame,), bytes),
        call_ensures(PooledFrame::len, (frame,), len),
        width * height * 4 <= 0xffff_ffff,
        call_ensures(frame_bytes, (width, height), size),
    ensures
        f@.len() == screen@.len(),
        0 <= i < screen@.len() && i % 4 == 3 ==> f@[i] == 255,
        0 <= i < screen@.len() && i % 4 != 3 ==> f@[i] == screen@[i],
        old(p)@.len() > 0 ==> final(p)@.len() == old(p)@.len() - 1,
        old(p)@.len() == 0 ==> final(p)@.len() == 0,
        0 <= i < final(p)@.len() ==> final(p)@[i] == old(p)@[i + 1],
        final(q)@.len() == old(q)@.len() + 1,
        0 <= i < old(q)@.len() ==> final(q)@[i] == old(q)@[i],
        final(q)@.last()@ == back@,
        bytes@ == frame@ && len == frame@.len(),
        size == 4 * (width * height),
{
    if 0 <= i < old(q)@.len() {
        assert(final(q)@.drop_last()[i] == old(q)@[i]);
    }
}

/// A new pool has three buffers of zeros of the given size.
pub proof fn pools_start_with_three_buffers(n: usize, p: FramePool, i: int, k: int)
    requires
        call_ensures(FramePool::new, (n,), p),
    ensures
        p@.len() == 3,
        0 <= i < 3 ==> p@[i]@.len() == n && (0 <= k < n ==> p@[i]@[k] == 0),
{
}

} // verus!
