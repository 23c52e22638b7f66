//! Fitting captured frames to an encoder: cropping to even dimensions and scaling down.
use vstd::prelude::*;

use crate::buffer::{as_slice, from_vec};
use crate::media::{MediaError, PixelFormat, Resolution, ScreenCapturer, VideoFrame};
use crate::text::push_decimal;
use crate::time::Duration;

verus! {

/// Where byte `c` of the pixel in column `x` of row `y` stands, in a packed image of four bytes to
/// the pixel and `w` pixels to the row.
pub open spec fn offset(w: int, x: int, y: int, c: int) -> int {
    (y * w + x) * 4 + c
}

/// `out` is the packed image of `w` by `h` pixels that holds every `step`-th pixel of every
/// `step`-th row of `src`, a packed image of `src_w` pixels to the row.
pub open spec fn sampled(
    src: Seq<u8>,
    src_w: int,
    w: int,
    h: int,
    step: int,
    out: Seq<u8>,
) -> bool {
    &&& out.len() == w * h * 4
    &&& forall|x: int, y: int, c: int|
        #![trigger out[offset(w, x, y, c)]]
        0 <= x < w && 0 <= y < h && 0 <= c < 4 ==> out[offset(w, x, y, c)] == src[offset(
            src_w,
            x * step,
            y * step,
            c,
        )]
}

/// Offsets grow with rows, and with columns within a row.
proof fn lemma_offset_below(w: int, x: int, y: int, c: int, x2: int, y2: int)
    requires
        0 <= x < w,
        0 <= x2,
        0 <= c < 4,
        0 <= y,
        y < y2 || (y == y2 && x < x2),
    ensures
        0 <= offset(w, x, y, c) < offset(w, x2, y2, 0),
{
    assert(0 <= y * w) by (nonlinear_arith)
        requires
            0 <= y,
            0 < w,
    ;
    if y < y2 {
        assert(y * w + w <= y2 * w) by (nonlinear_arith)
            requires
                y + 1 <= y2,
                0 < w,
        ;
    }
}

/// Take every `step`-th pixel of every `step`-th row of a packed image, `w` by `h` of them.
fn sample(src: &[u8], src_w: usize, w: usize, h: usize, step: usize) -> (out: Vec<u8>)
    requires
        w > 0,
        h > 0,
        step > 0,
        (w - 1) * step < src_w,
        offset(src_w as int, (w - 1) * step, (h - 1) * step, 3) < src@.len(),
    ensures
        sampled(src@, src_w as int, w as int, h as int, step as int, out@),
{
    let len: usize = src.len();
    let mut out: Vec<u8> = Vec::new();
    let mut y: usize = 0;
    while y < h
        invariant
            w > 0,
            h > 0,
            step > 0,
            y <= h,
            len == src@.len(),
            (w - 1) * step < src_w,
            offset(src_w as int, (w - 1) * step, (h - 1) * step, 3) < src@.len(),
            out@.len() == offset(w as int, 0, y as int, 0),
            forall|px: int, py: int, c: int|
                #![trigger out@[offset(w as int, px, py, c)]]
                0 <= px < w && 0 <= py < y && 0 <= c < 4 ==> out@[offset(w as int, px, py, c)]
                    == src@[offset(src_w as int, px * step, py * step, c)],
        decreases h - y,
    {
        let mut x: usize = 0;
        while x < w
            invariant
                w > 0,
                h > 0,
                step > 0,
                x <= w,
                y < h,
                len == src@.len(),
                (w - 1) * step < src_w,
                offset(src_w as int, (w - 1) * step, (h - 1) * step, 3) < src@.len(),
                out@.len() == offset(w as int, x as int, y as int, 0),
                forall|px: int, py: int, c: int|
                    #![trigger out@[offset(w as int, px, py, c)]]
                    0 <= px < w && 0 <= py && 0 <= c < 4 && (py < y || (py == y && px < x))
                        ==> out@[offset(w as int, px, py, c)] == src@[offset(
                        src_w as int,
                        px * step,
                        py * step,
                        c,
                    )],
            decreases w - x,
        {
            proof {
                lemma_sample_in_bounds(src_w as int, w as int, h as int, step as int, x as int, y as int);
            }
            let sx: usize = x * step;
            let sy: usize = y * step;
            let at: usize = (sy * src_w + sx) * 4;
            let ghost before = out@;
            out.push(src[at]);
            out.push(src[at + 1]);
            out.push(src[at + 2]);
            out.push(src[at + 3]);
            proof {
                assert forall|px: int, py: int, c: int|
                    #![trigger out@[offset(w as int, px, py, c)]]
                    0 <= px < w && 0 <= py && 0 <= c < 4 && (py < y || (py == y && px <= x)) implies out@[offset(
                    w as int,
                    px,
                    py,
                    c,
                )] == src@[offset(src_w as int, px * step, py * step, c)] by {
                    if py < y || px < x {
                        lemma_offset_below(w as int, px, py, c, x as int, y as int);
                        assert(before[offset(w as int, px, py, c)] == out@[offset(
                            w as int,
                            px,
                            py,
                            c,
                        )]);
                    }
                }
            }
            x = x + 1;
        }
        y = y + 1;
        proof {
            assert((y - 1) * w + w == y * w) by (nonlinear_arith);
        }
    }
    proof {
        assert(h * w == w * h) by (nonlinear_arith);
    }
    out
}

/// Sampled pixels lie within the image, and so do the steps of finding them within the range of
/// their type.
proof fn lemma_sample_in_bounds(src_w: int, w: int, h: int, step: int, x: int, y: int)
    requires
        0 <= x < w,
        0 <= y < h,
        step > 0,
        (w - 1) * step < src_w,
    ensures
        0 <= x * step <= (w - 1) * step,
        0 <= y * step <= (h - 1) * step,
        0 <= y * step <= (y * step) * src_w,
        0 <= offset(src_w, x * step, y * step, 0),
        offset(src_w, x * step, y * step, 3) <= offset(src_w, (w - 1) * step, (h - 1) * step, 3),
{
    assert(0 <= x * step <= (w - 1) * step) by (nonlinear_arith)
        requires
            0 <= x <= w - 1,
            step > 0,
    ;
    assert(0 <= y * step <= (h - 1) * step) by (nonlinear_arith)
        requires
            0 <= y <= h - 1,
            step > 0,
    ;
    let a = y * step;
    let b = (h - 1) * step;
    assert(0 <= a <= a * src_w && a * src_w <= b * src_w) by (nonlinear_arith)
        requires
            0 <= a <= b,
            src_w >= 1,
    ;
}

/// The largest even number that is not above `v`.
pub open spec fn even_floor(v: u32) -> u32 {
    (v - v % 2) as u32
}

/// The size without its odd column and row.
pub open spec fn even_size(r: Resolution) -> Resolution {
    Resolution { width: even_floor(r.width), height: even_floor(r.height) }
}

/// Bytes up to the end of the last row that a crop to even dimensions takes.
pub open spec fn crop_reach(r: Resolution) -> int {
    offset(r.width as int, even_floor(r.width) - 1, even_floor(r.height) - 1, 3) + 1
}

/// `r` is what cropping the frame to even dimensions gives. Even frames pass; the others must be
/// BGRA, have an even part, and hold all the rows of it.
pub open spec fn crops_to(frame: VideoFrame, r: Result<VideoFrame, MediaError>) -> bool {
    let size = frame.resolution;
    let even = even_size(size);
    if even == size {
        r == Ok::<VideoFrame, MediaError>(frame)
    } else if frame.format != PixelFormat::Bgra8 {
        r matches Err(MediaError::Unsupported(m)) && m@ == "EvenDimCapturer can only crop Bgra8, got "@
            + frame.format.label()
    } else if even.width == 0 || even.height == 0 {
        r matches Err(MediaError::Capture(m)) && m@
            == "display too small to crop to even dimensions: "@ + crate::text::decimal(
            size.width as nat,
        ) + "x"@ + crate::text::decimal(size.height as nat)
    } else if frame.pixels().len() < crop_reach(size) {
        r matches Err(MediaError::Capture(m)) && m@ == "crop row out of bounds"@
    } else {
        &&& r matches Ok(out)
        &&& out.format == PixelFormat::Bgra8
        &&& out.resolution == even
        &&& out.frame_id == frame.frame_id
        &&& out.capture_ts_us == frame.capture_ts_us
        &&& sampled(
            frame.pixels(),
            size.width as int,
            even.width as int,
            even.height as int,
            1,
            out.pixels(),
        )
    }
}

/// Crop a frame to even dimensions.
pub fn crop_to_even(frame: VideoFrame) -> (r: Result<VideoFrame, MediaError>)
    ensures
        crops_to(frame, r),
{
    let w: u32 = frame.resolution.width;
    let h: u32 = frame.resolution.height;
    let ew: u32 = even(w);
    let eh: u32 = even(h);
    if ew == w && eh == h {
        return Ok(frame);
    }
    match frame.format {
        PixelFormat::Bgra8 => {},
        other => {
            let mut m = "EvenDimCapturer can only crop Bgra8, got ".to_owned();
            m.append(other.name());
            return Err(MediaError::Unsupported(m));
        },
    }
    if ew == 0 || eh == 0 {
        let mut m = "display too small to crop to even dimensions: ".to_owned();
        push_decimal(&mut m, w as u64);
        m.append("x");
        push_decimal(&mut m, h as u64);
        return Err(MediaError::Capture(m));
    }
    let src: &[u8] = as_slice(&frame.data);
    proof {
        assert((eh - 1) * w <= 0xFFFF_FFFF * 0xFFFF_FFFF) by (nonlinear_arith)
            requires
                0 <= eh - 1 <= 0xFFFF_FFFF,
                0 <= w <= 0xFFFF_FFFF,
        ;
        assert((ew - 1) * 1 == ew - 1 && (eh - 1) * 1 == eh - 1);
    }
    let reach: u128 = ((eh as u128 - 1) * (w as u128) + (ew as u128 - 1)) * 4 + 4;
    if (src.len() as u128) < reach {
        return Err(MediaError::Capture("crop row out of bounds".to_owned()));
    }
    let out = sample(src, w as usize, ew as usize, eh as usize, 1);
    Ok(
        VideoFrame {
            data: from_vec(out),
            format: PixelFormat::Bgra8,
            resolution: Resolution::new(ew, eh),
            frame_id: frame.frame_id,
            capture_ts_us: frame.capture_ts_us,
        },
    )
}

/// The largest even number that is not above `v`.
fn even(v: u32) -> (r: u32)
    ensures
        r == even_floor(v),
{
    v - v % 2
}

/// The answer `got` of a capturer becomes `r`: frames are cropped to even dimensions, and
/// everything else is passed on.
pub open spec fn crops_answer(
    got: Result<Option<VideoFrame>, MediaError>,
    r: Result<Option<VideoFrame>, MediaError>,
) -> bool {
    match got {
        Ok(Some(frame)) => match r {
            Ok(Some(out)) => crops_to(frame, Ok(out)),
            Ok(None) => false,
            Err(e) => crops_to(frame, Err(e)),
        },
        _ => r == got,
    }
}

/// A capturer whose frames are cropped to even dimensions.
pub struct EvenDimCapturer<C> {
    inner: C,
}

impl<C: ScreenCapturer> EvenDimCapturer<C> {
    /// The capturer that the frames come from.
    pub closed spec fn source(self) -> C {
        self.inner
    }

    /// Crop the frames of `inner`.
    pub fn new(inner: C) -> (r: Self)
        ensures
            r.source() == inner,
    {
        EvenDimCapturer { inner }
    }
}

impl<C: ScreenCapturer> ScreenCapturer for EvenDimCapturer<C> {
    open spec fn size(&self) -> Resolution {
        even_size(self.source().size())
    }

    open spec fn layout(&self) -> PixelFormat {
        self.source().layout()
    }

    open spec fn asked(&self) -> u64 {
        self.source().asked()
    }

    open spec fn offers(
        &self,
        timeout: Duration,
        r: Result<Option<VideoFrame>, MediaError>,
        after: Resolution,
    ) -> bool {
        exists|got: Result<Option<VideoFrame>, MediaError>, then_size: Resolution|
            {
                &&& #[trigger] self.source().offers(timeout, got, then_size)
                &&& crops_answer(got, r)
                &&& after == even_size(then_size)
            }
    }

    fn next_frame(&mut self, timeout: Duration) -> (r: Result<Option<VideoFrame>, MediaError>) {
        let got = self.inner.next_frame(timeout);
        let ghost answer = got;
        let r = match got {
            Ok(Some(frame)) => match crop_to_even(frame) {
                Ok(out) => Ok(Some(out)),
                Err(e) => Err(e),
            },
            Ok(None) => Ok(None),
            Err(e) => Err(e),
        };
        assert(old(self).source().offers(timeout, answer, self.source().size()));
        assert(crops_answer(answer, r));
        r
    }

    fn resolution(&self) -> (r: Resolution) {
        let r = self.inner.resolution();
        Resolution::new(even(r.width), even(r.height))
    }

    fn pixel_format(&self) -> (r: PixelFormat) {
        self.inner.pixel_format()
    }
}

/// The larger of a width and one.
pub open spec fn at_least_one(max_width: u32) -> int {
    if max_width == 0 {
        1
    } else {
        max_width as int
    }
}

/// How many times wider than `max_width` a frame is, rounded up; a width limit of zero counts as
/// one.
pub open spec fn scale_factor(width: u32, max_width: u32) -> u32 {
    ((width + at_least_one(max_width) - 1) / at_least_one(max_width)) as u32
}

/// The step at which a frame of the given width is sampled: one where it fits.
pub open spec fn scale_step(width: u32, max_width: u32) -> u32 {
    if width <= at_least_one(max_width) {
        1
    } else {
        scale_factor(width, max_width)
    }
}

/// The size of a frame that is sampled at `step`.
pub open spec fn scaled_size(r: Resolution, step: u32) -> Resolution {
    Resolution { width: r.width / step, height: r.height / step }
}

/// `r` is what sampling the frame at `step` gives. At step one the frame passes; otherwise it must
/// be BGRA, be large enough to keep a pixel, and be packed.
pub open spec fn scales_to(frame: VideoFrame, step: u32, r: Result<VideoFrame, MediaError>) -> bool {
    let size = frame.resolution;
    let small = scaled_size(size, step);
    if step <= 1 {
        r == Ok::<VideoFrame, MediaError>(frame)
    } else if frame.format != PixelFormat::Bgra8 {
        r matches Err(MediaError::Unsupported(m)) && m@
            == "DownscaleCapturer can only downscale Bgra8, got "@ + frame.format.label()
    } else if small.width == 0 || small.height == 0 {
        r matches Err(MediaError::Capture(m)) && m@ == "downscale factor "@ + crate::text::decimal(
            step as nat,
        ) + " too large for "@ + crate::text::decimal(size.width as nat) + "x"@
            + crate::text::decimal(size.height as nat) + " frame"@
    } else if !frame.consistent() {
        r matches Err(MediaError::Capture(m)) && m@ == not_packed(frame)
    } else {
        &&& r matches Ok(out)
        &&& out.format == PixelFormat::Bgra8
        &&& out.resolution == small
        &&& out.frame_id == frame.frame_id
        &&& out.capture_ts_us == frame.capture_ts_us
        &&& sampled(
            frame.pixels(),
            size.width as int,
            small.width as int,
            small.height as int,
            step as int,
            out.pixels(),
        )
    }
}

/// What is said of a frame that is not packed.
pub open spec fn not_packed(frame: VideoFrame) -> Seq<char> {
    "DownscaleCapturer: packed stride assumed (width×4="@ + crate::text::decimal(
        (frame.resolution.width * 4) as nat,
    ) + "×"@ + crate::text::decimal(frame.resolution.height as nat) + "="@ + crate::text::decimal(
        frame.format.saturated_len(frame.resolution) as nat,
    ) + " bytes) but frame.data.len()="@ + crate::text::decimal(frame.pixels().len())
        + " — row-padded frames are unsupported"@
}

/// Scale a frame down by sampling it at `step`.
pub fn scale_down(frame: VideoFrame, step: u32) -> (r: Result<VideoFrame, MediaError>)
    ensures
        scales_to(frame, step, r),
{
    if step <= 1 {
        return Ok(frame);
    }
    match frame.format {
        PixelFormat::Bgra8 => {},
        other => {
            let mut m = "DownscaleCapturer can only downscale Bgra8, got ".to_owned();
            m.append(other.name());
            return Err(MediaError::Unsupported(m));
        },
    }
    let w: u32 = frame.resolution.width;
    let h: u32 = frame.resolution.height;
    let dw: u32 = w / step;
    let dh: u32 = h / step;
    if dw == 0 || dh == 0 {
        let mut m = "downscale factor ".to_owned();
        push_decimal(&mut m, step as u64);
        m.append(" too large for ");
        push_decimal(&mut m, w as u64);
        m.append("x");
        push_decimal(&mut m, h as u64);
        m.append(" frame");
        return Err(MediaError::Capture(m));
    }
    if frame.validate_len().is_err() {
        let mut m = "DownscaleCapturer: packed stride assumed (width×4=".to_owned();
        push_decimal(&mut m, w as u64 * 4);
        m.append("×");
        push_decimal(&mut m, h as u64);
        m.append("=");
        push_decimal(&mut m, frame.format.frame_len(frame.resolution) as u64);
        m.append(" bytes) but frame.data.len()=");
        push_decimal(&mut m, as_slice(&frame.data).len() as u64);
        m.append(" — row-padded frames are unsupported");
        return Err(MediaError::Capture(m));
    }
    proof {
        lemma_scaled_fits(w as int, h as int, step as int);
    }
    let out = sample(
        as_slice(&frame.data),
        w as usize,
        dw as usize,
        dh as usize,
        step as usize,
    );
    Ok(
        VideoFrame {
            data: from_vec(out),
            format: PixelFormat::Bgra8,
            resolution: Resolution::new(dw, dh),
            frame_id: frame.frame_id,
            capture_ts_us: frame.capture_ts_us,
        },
    )
}

/// The last sampled pixel lies in the image.
proof fn lemma_scaled_fits(w: int, h: int, step: int)
    requires
        w >= 0,
        h >= 0,
        step > 0,
        w / step > 0,
        h / step > 0,
    ensures
        (w / step - 1) * step < w,
        (h / step - 1) * step < h,
        offset(w, (w / step - 1) * step, (h / step - 1) * step, 3) < w * h * 4,
{
    vstd::arithmetic::div_mod::lemma_fundamental_div_mod(w, step);
    vstd::arithmetic::div_mod::lemma_fundamental_div_mod(h, step);
    let a = w / step;
    let b = h / step;
    assert((a - 1) * step == step * a - step && (b - 1) * step == step * b - step)
        by (nonlinear_arith);
    let x = (a - 1) * step;
    let y = (b - 1) * step;
    assert(y * w + w <= w * h) by (nonlinear_arith)
        requires
            y + 1 <= h,
            w >= 0,
    ;
}

/// The answer `got` of a capturer becomes `r`: frames are sampled at `step`, and everything else
/// is passed on.
pub open spec fn scales_answer(
    got: Result<Option<VideoFrame>, MediaError>,
    step: u32,
    r: Result<Option<VideoFrame>, MediaError>,
) -> bool {
    match got {
        Ok(Some(frame)) => match r {
            Ok(Some(out)) => scales_to(frame, step, Ok(out)),
            Ok(None) => false,
            Err(e) => scales_to(frame, step, Err(e)),
        },
        _ => r == got,
    }
}

/// A capturer whose frames are scaled down to a width.
pub struct DownscaleCapturer<C> {
    inner: C,
    max_width: u32,
}

impl<C: ScreenCapturer> DownscaleCapturer<C> {
    /// The capturer that the frames come from.
    pub closed spec fn source(self) -> C {
        self.inner
    }

    /// The width that frames are scaled down to.
    pub closed spec fn width_limit(self) -> u32 {
        self.max_width
    }

    /// Scale the frames of `inner` down so that none is wider than `max_width`, which counts as
    /// one where it is zero.
    pub fn new(inner: C, max_width: u32) -> (r: Self)
        ensures
            r.source() == inner,
            r.width_limit() == max_width,
    {
        DownscaleCapturer { inner, max_width }
    }

    /// The step at which frames are sampled.
    pub fn factor(&self) -> (r: u32)
        ensures
            r == scale_step(self.source().size().width, self.width_limit()),
            r >= 1,
    {
        let w: u32 = self.inner.resolution().width;
        let max_w: u32 = if self.max_width == 0 {
            1
        } else {
            self.max_width
        };
        if w <= max_w {
            return 1;
        }
        let n: u64 = w as u64 + max_w as u64 - 1;
        proof {
            lemma_factor_bounds(w as int, max_w as int);
        }
        (n / max_w as u64) as u32
    }
}

/// A width above the limit takes a step of at least one, and not more than itself.
proof fn lemma_factor_bounds(w: int, m: int)
    requires
        1 <= m < w,
    ensures
        1 <= (w + m - 1) / m <= w,
{
    vstd::arithmetic::div_mod::lemma_fundamental_div_mod(w + m - 1, m);
    let q = (w + m - 1) / m;
    assert(1 <= q <= w) by (nonlinear_arith)
        requires
            w + m - 1 == m * q + (w + m - 1) % m,
            0 <= (w + m - 1) % m < m,
            1 <= m < w,
    ;
}

impl<C: ScreenCapturer> ScreenCapturer for DownscaleCapturer<C> {
    open spec fn size(&self) -> Resolution {
        scaled_size(
            self.source().size(),
            scale_step(self.source().size().width, self.width_limit()),
        )
    }

    open spec fn layout(&self) -> PixelFormat {
        self.source().layout()
    }

    open spec fn asked(&self) -> u64 {
        self.source().asked()
    }

    open spec fn offers(
        &self,
        timeout: Duration,
        r: Result<Option<VideoFrame>, MediaError>,
        after: Resolution,
    ) -> bool {
        exists|got: Result<Option<VideoFrame>, MediaError>, then_size: Resolution|
            {
                let step = scale_step(then_size.width, self.width_limit());
                &&& #[trigger] self.source().offers(timeout, got, then_size)
                &&& scales_answer(got, step, r)
                &&& after == scaled_size(then_size, step)
            }
    }

    fn next_frame(&mut self, timeout: Duration) -> (r: Result<Option<VideoFrame>, MediaError>) {
        let got = self.inner.next_frame(timeout);
        let ghost answer = got;
        let step: u32 = self.factor();
        let r = match got {
            Ok(Some(frame)) => match scale_down(frame, step) {
                Ok(out) => Ok(Some(out)),
                Err(e) => Err(e),
            },
            Ok(None) => Ok(None),
            Err(e) => Err(e),
        };
        assert(old(self).source().offers(timeout, answer, self.source().size()));
        assert(scales_answer(answer, step, r));
        r
    }

    fn resolution(&self) -> (r: Resolution) {
        let r = self.inner.resolution();
        let step: u32 = self.factor();
        Resolution::new(r.width / step, r.height / step)
    }

    fn pixel_format(&self) -> (r: PixelFormat) {
        self.inner.pixel_format()
    }
}

/// Cropped dimensions are even, and cut off one column and one row at most.
pub proof fn law_cropped_size_is_even(r: Resolution)
    ensures
        even_size(r).width % 2 == 0,
        even_size(r).height % 2 == 0,
        r.width - even_size(r).width <= 1,
        r.height - even_size(r).height <= 1,
{
}

/// A cropped frame is as long as its size calls for.
pub proof fn law_cropped_frames_are_consistent(frame: VideoFrame, out: VideoFrame)
    requires
        frame.consistent(),
        crops_to(frame, Ok(out)),
    ensures
        out.consistent(),
        out.resolution == even_size(frame.resolution),
{
}

/// A consistent BGRA frame with at least two columns and two rows is always cropped.
pub proof fn law_consistent_frames_are_cropped(frame: VideoFrame, r: Result<VideoFrame, MediaError>)
    requires
        frame.consistent(),
        frame.format == PixelFormat::Bgra8,
        frame.resolution.width >= 2,
        frame.resolution.height >= 2,
        crops_to(frame, r),
    ensures
        r is Ok,
{
    let w = frame.resolution.width as int;
    let h = frame.resolution.height as int;
    let x = even_floor(frame.resolution.width) - 1;
    let y = even_floor(frame.resolution.height) - 1;
    assert(y * w + x + 1 <= w * h) by (nonlinear_arith)
        requires
            0 <= y <= h - 1,
            x <= w - 1,
            w >= 0,
    ;
}

/// Cropping a cropped frame changes nothing.
pub proof fn law_cropping_is_idempotent(
    frame: VideoFrame,
    once: VideoFrame,
    twice: Result<VideoFrame, MediaError>,
)
    requires
        crops_to(frame, Ok(once)),
        crops_to(once, twice),
    ensures
        twice == Ok::<VideoFrame, MediaError>(once),
{
}

/// A scaled frame is not wider than the limit, and no smaller step would do: at one less, the
/// width is above the limit before rounding.
pub proof fn law_scaled_width_fits(width: u32, max_width: u32)
    ensures
        ({
            let step = scale_step(width, max_width);
            &&& step >= 1
            &&& width / step <= at_least_one(max_width)
            &&& width > at_least_one(max_width) ==> (step - 1) * at_least_one(max_width) < width
        }),
{
    let w = width as int;
    let m = at_least_one(max_width);
    if w > m {
        lemma_factor_bounds(w, m);
        let q = (w + m - 1) / m;
        vstd::arithmetic::div_mod::lemma_fundamental_div_mod(w + m - 1, m);
        vstd::arithmetic::div_mod::lemma_fundamental_div_mod(w, q);
        let d = w / q;
        assert(d <= m) by (nonlinear_arith)
            requires
                w + m - 1 == m * q + (w + m - 1) % m,
                0 <= (w + m - 1) % m < m,
                w == q * d + w % q,
                0 <= w % q,
                q >= 1,
                m >= 1,
        ;
        assert((q - 1) * m < w) by (nonlinear_arith)
            requires
                w + m - 1 == m * q + (w + m - 1) % m,
                0 <= (w + m - 1) % m,
                m >= 1,
        ;
    } else {
        assert(width / 1 == width);
    }
}

/// A scaled frame is as long as its size calls for.
pub proof fn law_scaled_frames_are_consistent(frame: VideoFrame, step: u32, out: VideoFrame)
    requires
        frame.consistent(),
        scales_to(frame, step, Ok(out)),
    ensures
        out.consistent(),
{
}

/// A frame of even dimensions passes as it is. Another one is cropped by its last column or row or
/// both: every pixel that is left keeps its place and its bytes.
pub proof fn law_cropping_keeps_the_pixels(
    frame: VideoFrame,
    out: VideoFrame,
    x: int,
    y: int,
    c: int,
)
    requires
        crops_to(frame, Ok(out)),
        frame.format == PixelFormat::Bgra8,
        0 <= x < out.resolution.width,
        0 <= y < out.resolution.height,
        0 <= c < 4,
    ensures
        out.pixels()[(y * out.resolution.width + x) * 4 + c] == frame.pixels()[(y
            * frame.resolution.width + x) * 4 + c],
        out.format == frame.format,
        out.frame_id == frame.frame_id,
        out.capture_ts_us == frame.capture_ts_us,
        out.resolution.width == frame.resolution.width - frame.resolution.width % 2,
        out.resolution.height == frame.resolution.height - frame.resolution.height % 2,
        out.resolution != frame.resolution ==> out.pixels().len() == out.resolution.width
            * out.resolution.height * 4,
{
    let (w, h) = (out.resolution.width as int, out.resolution.height as int);
    if even_size(frame.resolution) != frame.resolution {
        let p = out.pixels();
        assert(p[offset(w, x, y, c)] == frame.pixels()[offset(
            frame.resolution.width as int,
            x * 1,
            y * 1,
            c,
        )]);
    }
}

/// What is refused by cropping: of frames with an odd dimension, those that are not BGRA, have a
/// single column or row or none, or hold too few bytes. Frames of even dimensions never are.
pub proof fn law_what_cannot_be_cropped(frame: VideoFrame, r: Result<VideoFrame, MediaError>)
    requires
        crops_to(frame, r),
    ensures
        ({
            let (w, h) = (frame.resolution.width as int, frame.resolution.height as int);
            let odd = w % 2 == 1 || h % 2 == 1;
            &&& !odd ==> r == Ok::<VideoFrame, MediaError>(frame)
            &&& odd && frame.format != PixelFormat::Bgra8 ==> r is Err && r->Err_0 is Unsupported
            &&& odd && frame.format == PixelFormat::Bgra8 && (w < 2 || h < 2) ==> r is Err
                && r->Err_0 is Capture
            &&& odd && frame.format == PixelFormat::Bgra8 && w >= 2 && h >= 2
                && frame.pixels().len() < ((h - h % 2 - 1) * w + (w - w % 2)) * 4 ==> r is Err
                && r->Err_0 is Capture
            &&& odd && frame.format == PixelFormat::Bgra8 && w >= 2 && h >= 2
                && frame.pixels().len() >= ((h - h % 2 - 1) * w + (w - w % 2)) * 4 ==> r is Ok
        }),
{
}

/// At a step of one a frame passes as it is. At a larger step every `step`-th pixel of every
/// `step`-th row is kept, byte for byte.
pub proof fn law_scaling_samples_the_pixels(
    frame: VideoFrame,
    step: u32,
    out: VideoFrame,
    x: int,
    y: int,
    c: int,
)
    requires
        scales_to(frame, step, Ok(out)),
        frame.format == PixelFormat::Bgra8,
        step >= 1,
        0 <= x < out.resolution.width,
        0 <= y < out.resolution.height,
        0 <= c < 4,
    ensures
        out.pixels()[(y * out.resolution.width + x) * 4 + c] == frame.pixels()[(y * step
            * frame.resolution.width + x * step) * 4 + c],
        out.format == frame.format,
        out.frame_id == frame.frame_id,
        out.capture_ts_us == frame.capture_ts_us,
        out.resolution.width == frame.resolution.width / step,
        out.resolution.height == frame.resolution.height / step,
        step > 1 ==> out.pixels().len() == out.resolution.width * out.resolution.height * 4,
{
    let (w, h) = (out.resolution.width as int, out.resolution.height as int);
    if step > 1 {
        let p = out.pixels();
        assert(p[offset(w, x, y, c)] == frame.pixels()[offset(
            frame.resolution.width as int,
            x * step,
            y * step,
            c,
        )]);
    } else {
        assert(y * 1 == y && x * 1 == x);
        assert(frame.resolution.width / 1 == frame.resolution.width);
        assert(frame.resolution.height / 1 == frame.resolution.height);
    }
}

/// What is refused by scaling: at a step above one, frames that are not BGRA, are narrower or lower
/// than the step, or are not as long as their size calls for. At a step of one nothing is.
pub proof fn law_what_cannot_be_scaled(
    frame: VideoFrame,
    step: u32,
    r: Result<VideoFrame, MediaError>,
)
    requires
        scales_to(frame, step, r),
        step >= 1,
    ensures
        step == 1 ==> r == Ok::<VideoFrame, MediaError>(frame),
        step > 1 && frame.format != PixelFormat::Bgra8 ==> r is Err && r->Err_0 is Unsupported,
        step > 1 && frame.format == PixelFormat::Bgra8 ==> (r is Ok <==> frame.resolution.width
            >= step && frame.resolution.height >= step && frame.pixels().len()
            == frame.resolution.width * frame.resolution.height * 4),
        step > 1 && frame.format == PixelFormat::Bgra8 && r is Err ==> r->Err_0 is Capture,
{
    let (w, h, s) = (frame.resolution.width as int, frame.resolution.height as int, step as int);
    vstd::arithmetic::div_mod::lemma_fundamental_div_mod(w, s);
    vstd::arithmetic::div_mod::lemma_fundamental_div_mod(h, s);
    vstd::arithmetic::div_mod::lemma_mod_bound(w, s);
    vstd::arithmetic::div_mod::lemma_mod_bound(h, s);
    assert(w >= s <==> w / s >= 1) by (nonlinear_arith)
        requires
            w == s * (w / s) + w % s,
            0 <= w % s < s,
            w >= 0,
    ;
    assert(h >= s <==> h / s >= 1) by (nonlinear_arith)
        requires
            h == s * (h / s) + h % s,
            0 <= h % s < s,
            h >= 0,
    ;
    assert(w * h >= 0) by (nonlinear_arith)
        requires
            w >= 0,
            h >= 0,
    ;
}

/// The step is the least that covers the width: so many times the limit, but not one time less,
/// reach as far as the frame is wide. A limit of zero counts as one, and a frame that fits keeps
/// every pixel.
pub proof fn law_step_is_the_least(width: u32, max_width: u32)
    requires
        width > 0,
        max_width > 0,
    ensures
        width <= scale_step(width, max_width) * max_width,
        (scale_step(width, max_width) - 1) * max_width < width,
        scale_step(width, 0) == width,
        width <= max_width ==> scale_step(width, max_width) == 1,
{
    let (w, m) = (width as int, max_width as int);
    if w > m {
        lemma_factor_bounds(w, m);
        let q = (w + m - 1) / m;
        vstd::arithmetic::div_mod::lemma_fundamental_div_mod(w + m - 1, m);
        vstd::arithmetic::div_mod::lemma_mod_bound(w + m - 1, m);
        assert(m * q == q * m) by (nonlinear_arith);
        assert((q - 1) * m == q * m - m) by (nonlinear_arith);
    } else {
        assert(1 * m == m);
    }
    if w > 1 {
        assert((w + 1 - 1) / 1 == w);
    }
}

/// A capturer that has no frame, or fails, is passed on as it is; a frame is cropped or sampled.
pub proof fn law_only_frames_are_changed(
    got: Result<Option<VideoFrame>, MediaError>,
    step: u32,
    cropped: Result<Option<VideoFrame>, MediaError>,
    scaled: Result<Option<VideoFrame>, MediaError>,
)
    requires
        crops_answer(got, cropped),
        scales_answer(got, step, scaled),
    ensures
        got matches Ok(None) ==> cropped == got && scaled == got,
        got is Err ==> cropped == got && scaled == got,
        got matches Ok(Some(frame)) ==> {
            &&& cropped matches Ok(out) ==> out is Some && crops_to(frame, Ok(out->0))
            &&& cropped matches Err(e) ==> crops_to(frame, Err(e))
            &&& scaled matches Ok(out) ==> out is Some && scales_to(frame, step, Ok(out->0))
            &&& scaled matches Err(e) ==> scales_to(frame, step, Err(e))
        },
{
}

} // verus!
