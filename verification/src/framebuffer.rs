//! The layout of a frame buffer in the camera/display RAM (CDRAM).
//!
//! A frame buffer holds four bytes per pixel, in rows of a fixed pitch of
//! 960 pixels, and takes whole 256 KiB pages of CDRAM.

use vstd::prelude::*;

verus! {

/// Bytes of CDRAM in one page; a frame buffer takes whole pages.
pub const CDRAM_FB_PAGE_SIZE: usize = 262144;

/// Pixels in one row of a frame buffer, whatever its width.
pub const FRAMEBUFFER_PITCH: u32 = 960;

/// Bytes per pixel in the pixel format that frame buffers use.
pub const BYTES_PER_PIXEL: usize = 4;

/// The kernel's code of the pixel format A8B8G8R8.
pub const SCE_DISPLAY_PIXELFORMAT_A8B8G8R8: u32 = 0;

/// The kernel's code of the memory type for user read-write CDRAM.
pub const SCE_KERNEL_MEMBLOCK_TYPE_USER_CDRAM_RW: u32 = 0x09408060;

/// The kernel's code for a frame buffer change that takes effect at once.
pub const SCE_DISPLAY_SETBUF_IMMEDIATE: u32 = 0;

/// The kernel's code for a frame buffer change that waits for the next frame.
pub const SCE_DISPLAY_SETBUF_NEXTFRAME: u32 = 1;

/// When the display switches to a new frame buffer.
#[non_exhaustive]
#[derive(Clone, Copy, Debug)]
pub enum Mode {
    NextFrame,
    Immediate,
}

impl Mode {
    /// The kernel's code of the mode.
    pub fn raw(self) -> (r: u32)
        ensures
            self is NextFrame ==> r == SCE_DISPLAY_SETBUF_NEXTFRAME,
            self is Immediate ==> r == SCE_DISPLAY_SETBUF_IMMEDIATE,
    {
        match self {
            Mode::NextFrame => SCE_DISPLAY_SETBUF_NEXTFRAME,
            Mode::Immediate => SCE_DISPLAY_SETBUF_IMMEDIATE,
        }
    }
}

/// One of the resolutions that the display supports.
#[derive(Clone, Copy, Debug)]
pub struct Resolution {
    width: u32,
    height: u32,
}

/// The display supports these resolutions and no others.
pub open spec fn is_supported(width: u32, height: u32) -> bool {
    ||| width == 960 && height == 544
    ||| width == 720 && height == 408
    ||| width == 640 && height == 368
    ||| width == 480 && height == 272
}

impl Resolution {
    #[verifier::type_invariant]
    spec fn supported(self) -> bool {
        is_supported(self.width, self.height)
    }

    /// The width in pixels.
    pub closed spec fn spec_width(self) -> u32 {
        self.width
    }

    /// The height in pixels.
    pub closed spec fn spec_height(self) -> u32 {
        self.height
    }

    /// 960 by 544 pixels, the native resolution of the screen.
    pub fn w960h544() -> (r: Resolution)
        ensures
            r.spec_width() == 960,
            r.spec_height() == 544,
    {
        Resolution { width: 960, height: 544 }
    }

    /// 720 by 408 pixels.
    pub fn w720h408() -> (r: Resolution)
        ensures
            r.spec_width() == 720,
            r.spec_height() == 408,
    {
        Resolution { width: 720, height: 408 }
    }

    /// 640 by 368 pixels.
    pub fn w640h368() -> (r: Resolution)
        ensures
            r.spec_width() == 640,
            r.spec_height() == 368,
    {
        Resolution { width: 640, height: 368 }
    }

    /// 480 by 272 pixels.
    pub fn w480h272() -> (r: Resolution)
        ensures
            r.spec_width() == 480,
            r.spec_height() == 272,
    {
        Resolution { width: 480, height: 272 }
    }

    /// The width in pixels.
    pub fn width(self) -> (w: u32)
        ensures
            w == self.spec_width(),
            is_supported(w, self.spec_height()),
    {
        proof {
            use_type_invariant(&self);
        }
        self.width
    }

    /// The height in pixels.
    pub fn height(self) -> (h: u32)
        ensures
            h == self.spec_height(),
            is_supported(self.spec_width(), h),
    {
        proof {
            use_type_invariant(&self);
        }
        self.height
    }

    /// The width and the height, in that order.
    pub fn shape(self) -> (s: [u32; 2])
        ensures
            s@ == seq![self.spec_width(), self.spec_height()],
    {
        [self.width, self.height]
    }
}

/// Bytes of pixel data in a frame buffer of `height` rows.
pub open spec fn pixel_bytes(height: int) -> int {
    BYTES_PER_PIXEL * (FRAMEBUFFER_PITCH * height)
}

/// Bytes of CDRAM that a frame buffer of `height` rows takes: its pixel data
/// rounded up to whole pages.
pub fn frame_buffer_size(resolution: Resolution) -> (size: usize)
    ensures
        size % CDRAM_FB_PAGE_SIZE == 0,
        pixel_bytes(resolution.spec_height() as int) <= size,
        size < pixel_bytes(resolution.spec_height() as int) + CDRAM_FB_PAGE_SIZE,
{
    let height = resolution.height();
    let pitch: u32 = FRAMEBUFFER_PITCH;
    let bytes: usize = BYTES_PER_PIXEL * (pitch * height) as usize;
    let size: usize = (bytes + CDRAM_FB_PAGE_SIZE - 1) / CDRAM_FB_PAGE_SIZE * CDRAM_FB_PAGE_SIZE;
    proof {
        lemma_round_up(bytes as int, CDRAM_FB_PAGE_SIZE as int);
    }
    size
}

/// Rounding `n` up to a multiple of `page` gives a multiple of `page` that is
/// at least `n` and below `n + page`.
proof fn lemma_round_up(n: int, page: int)
    requires
        0 <= n,
        0 < page,
    ensures
        ((n + page - 1) / page * page) % page == 0,
        n <= (n + page - 1) / page * page,
        (n + page - 1) / page * page < n + page,
{
    let q = (n + page - 1) / page;
    let r = (n + page - 1) % page;
    assert(n + page - 1 == q * page + r && 0 <= r < page) by (nonlinear_arith)
        requires
            0 < page,
            q == (n + page - 1) / page,
            r == (n + page - 1) % page,
    ;
    assert((q * page) % page == 0) by (nonlinear_arith)
        requires
            0 < page,
    ;
}

/// A frame buffer: a block of CDRAM that the display shows.
pub struct FrameBuffer {
    memblock: i32,
    resolution: Resolution,
    pitch: u32,
    size: usize,
}

impl FrameBuffer {
    #[verifier::type_invariant]
    spec fn well_formed(self) -> bool {
        &&& self.memblock > 0
        &&& self.pitch == FRAMEBUFFER_PITCH
        &&& self.size % CDRAM_FB_PAGE_SIZE == 0
        &&& pixel_bytes(self.resolution.spec_height() as int) <= self.size
        &&& self.size < pixel_bytes(self.resolution.spec_height() as int) + CDRAM_FB_PAGE_SIZE
    }

    /// The uid of the CDRAM block that holds the pixels.
    pub closed spec fn spec_memblock(self) -> i32 {
        self.memblock
    }

    /// The resolution shown.
    pub closed spec fn spec_resolution(self) -> Resolution {
        self.resolution
    }

    /// The pixels in one row.
    pub closed spec fn spec_pitch(self) -> u32 {
        self.pitch
    }

    /// The bytes of CDRAM taken.
    pub closed spec fn spec_size(self) -> usize {
        self.size
    }

    /// The frame buffer of the given resolution that lives in the CDRAM block
    /// `memblock`, which was allocated with `frame_buffer_size(resolution)`
    /// bytes.
    pub fn new(resolution: Resolution, memblock: i32) -> (fb: FrameBuffer)
        requires
            memblock > 0,
        ensures
            fb.spec_memblock() == memblock,
            fb.spec_resolution() == resolution,
            fb.spec_pitch() == FRAMEBUFFER_PITCH,
            fb.spec_size() % CDRAM_FB_PAGE_SIZE == 0,
            pixel_bytes(resolution.spec_height() as int) <= fb.spec_size(),
            fb.spec_size() < pixel_bytes(resolution.spec_height() as int) + CDRAM_FB_PAGE_SIZE,
    {
        let size = frame_buffer_size(resolution);
        FrameBuffer { memblock, resolution, pitch: FRAMEBUFFER_PITCH, size }
    }

    /// The uid of the CDRAM block that holds the pixels.
    pub fn memblock(&self) -> (m: i32)
        ensures
            m == self.spec_memblock(),
            m > 0,
    {
        proof {
            use_type_invariant(self);
        }
        self.memblock
    }

    /// The bytes of CDRAM taken, a whole number of pages.
    pub fn size(&self) -> (s: usize)
        ensures
            s == self.spec_size(),
            s % CDRAM_FB_PAGE_SIZE == 0,
            pixel_bytes(self.spec_resolution().spec_height() as int) <= s,
            s < pixel_bytes(self.spec_resolution().spec_height() as int) + CDRAM_FB_PAGE_SIZE,
    {
        proof {
            use_type_invariant(self);
        }
        self.size
    }

    /// The resolution shown.
    pub fn resolution(&self) -> (r: Resolution)
        ensures
            r == self.spec_resolution(),
    {
        self.resolution
    }

    /// The width in pixels.
    pub fn width(&self) -> (w: u32)
        ensures
            w == self.spec_resolution().spec_width(),
    {
        self.resolution.width()
    }

    /// The height in pixels.
    pub fn height(&self) -> (h: u32)
        ensures
            h == self.spec_resolution().spec_height(),
    {
        self.resolution.height()
    }

    /// The pixels in one row, which is 960 whatever the width.
    pub fn pitch(&self) -> (p: u32)
        ensures
            p == self.spec_pitch(),
            p == FRAMEBUFFER_PITCH,
    {
        proof {
            use_type_invariant(self);
        }
        self.pitch
    }
}

} // verus!
