//! A row-major RGB frame buffer.
use vstd::prelude::*;

verus! {

/// The RGB triple stored for pixel `(x, y)` of a frame `w` pixels wide.
pub open spec fn pixel_at(data: Seq<u8>, w: int, x: int, y: int) -> (u8, u8, u8) {
    (data[3 * (y * w + x)], data[3 * (y * w + x) + 1], data[3 * (y * w + x) + 2])
}

/// The bytes after pixel `(x, y)` of a frame `w` pixels wide is set to `rgb`.
pub open spec fn with_pixel(data: Seq<u8>, w: int, x: int, y: int, rgb: (u8, u8, u8)) -> Seq<u8> {
    data.update(3 * (y * w + x), rgb.0).update(3 * (y * w + x) + 1, rgb.1).update(
        3 * (y * w + x) + 2,
        rgb.2,
    )
}

/// Pixel `(x, y)` lies inside a `w` by `h` frame, and its three bytes inside the buffer.
pub proof fn lemma_pixel_in_bounds(w: int, h: int, x: int, y: int)
    requires
        0 <= x < w,
        0 <= y < h,
    ensures
        0 <= y * w + x < w * h,
        3 * (y * w + x) + 2 < 3 * (w * h),
{
    assert(y * w + x < w * h) by (nonlinear_arith)
        requires
            0 <= x < w,
            0 <= y < h,
    ;
    assert(0 <= y * w) by (nonlinear_arith)
        requires
            0 <= x < w,
            0 <= y < h,
    ;
}

/// Distinct pixels of a frame `w` pixels wide own distinct bytes.
pub proof fn lemma_pixels_distinct(w: int, x1: int, y1: int, x2: int, y2: int)
    requires
        0 <= x1 < w,
        0 <= x2 < w,
        0 <= y1,
        0 <= y2,
        x1 != x2 || y1 != y2,
    ensures
        y1 * w + x1 != y2 * w + x2,
{
    if y1 < y2 {
        assert(y1 * w + x1 < y2 * w + x2) by (nonlinear_arith)
            requires
                0 <= x1 < w,
                0 <= x2,
                y1 < y2,
        ;
    } else if y2 < y1 {
        assert(y2 * w + x2 < y1 * w + x1) by (nonlinear_arith)
            requires
                0 <= x2 < w,
                0 <= x1,
                y2 < y1,
        ;
    }
}

/// Setting one pixel changes that pixel and no other.
pub proof fn lemma_with_pixel(data: Seq<u8>, w: int, h: int, x: int, y: int, rgb: (u8, u8, u8))
    requires
        data.len() == 3 * (w * h),
        0 <= x < w,
        0 <= y < h,
    ensures
        with_pixel(data, w, x, y, rgb).len() == data.len(),
        pixel_at(with_pixel(data, w, x, y, rgb), w, x, y) == rgb,
        forall|qx: int, qy: int|
            0 <= qx < w && 0 <= qy < h && (qx != x || qy != y) ==> #[trigger] pixel_at(
                with_pixel(data, w, x, y, rgb),
                w,
                qx,
                qy,
            ) == pixel_at(data, w, qx, qy),
{
    lemma_pixel_in_bounds(w, h, x, y);
    assert forall|qx: int, qy: int|
        0 <= qx < w && 0 <= qy < h && (qx != x || qy != y) implies #[trigger] pixel_at(
            with_pixel(data, w, x, y, rgb),
            w,
            qx,
            qy,
        ) == pixel_at(data, w, qx, qy) by {
        lemma_pixel_in_bounds(w, h, qx, qy);
        lemma_pixels_distinct(w, x, y, qx, qy);
    }
}

/// A frame of `width * height` RGB pixels, three bytes each, row after row.
#[derive(Debug, Clone)]
pub struct Frame {
    pub data: Vec<u8>,
    pub width: usize,
    pub height: usize,
}

impl Frame {
    pub open spec fn wf(&self) -> bool {
        self.data@.len() == 3 * (self.width * self.height)
    }

    /// A black frame of `width` by `height` pixels.
    pub fn new(width: usize, height: usize) -> (r: Self)
        requires
            3 * (width * height) <= usize::MAX,
        ensures
            r.wf(),
            r.width == width,
            r.height == height,
            r.data@ == Seq::new(3 * (width * height) as nat, |i: int| 0u8),
    {
        Frame { data: crate::util::zeros(3 * (width * height)), width, height }
    }

    /// Sets pixel `(x, y)` to `rgb`; a pixel outside the frame is dropped.
    pub fn set_pixel(&mut self, x: usize, y: usize, rgb: (u8, u8, u8))
        requires
            old(self).wf(),
        ensures
            final(self).wf(),
            final(self).width == old(self).width,
            final(self).height == old(self).height,
            x < old(self).width && y < old(self).height ==> final(self).data@ == with_pixel(
                old(self).data@,
                old(self).width as int,
                x as int,
                y as int,
                rgb,
            ),
            !(x < old(self).width && y < old(self).height) ==> final(self).data@ == old(
                self,
            ).data@,
    {
        let n = self.data.len();
        if x < self.width && y < self.height {
            proof {
                lemma_pixel_in_bounds(self.width as int, self.height as int, x as int, y as int);
            }
            let base = 3 * (y * self.width + x);
            self.data.set(base, rgb.0);
            self.data.set(base + 1, rgb.1);
            self.data.set(base + 2, rgb.2);
        }
    }
}

} // verus!
