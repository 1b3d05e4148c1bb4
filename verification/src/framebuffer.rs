//! The color and depth target of the pipeline.
//!
//! A pixel is overwritten only when the incoming fragment is strictly nearer
//! than what the depth buffer holds, or right after a clear.

use vstd::prelude::*;

verus! {

/// Fixed-size color buffer with a matching depth buffer, plus the current
/// drawing color used by `point`.
pub struct Framebuffer {
    pub width: usize,
    pub height: usize,
    pub buffer: Vec<u32>,
    pub zbuffer: Vec<i64>,
    pub current_color: u32,
    pub background_color: u32,
}

pub open spec fn fb_wf(fb: Framebuffer) -> bool {
    &&& fb.width <= 4096
    &&& fb.height <= 4096
    &&& fb.buffer@.len() == fb.width * fb.height
    &&& fb.zbuffer@.len() == fb.width * fb.height
}

impl Framebuffer {
    pub fn new(width: usize, height: usize) -> (fb: Framebuffer)
        requires
            width <= 4096,
            height <= 4096,
        ensures
            fb_wf(fb),
            fb.width == width,
            fb.height == height,
            fb.current_color == 0xFFFFFFu32,
            fb.background_color == 0u32,
            forall|i: int| 0 <= i < fb.buffer@.len() ==> fb.buffer@[i] == 0u32,
            forall|i: int| 0 <= i < fb.zbuffer@.len() ==> fb.zbuffer@[i] == i64::MAX,
    {
        proof {
            assert((width as int) * (height as int) <= 16777216) by (nonlinear_arith)
                requires
                    0 <= (width as int) <= 4096,
                    0 <= (height as int) <= 4096,
            ;
        }
        let n: usize = width * height;
        let mut buffer: Vec<u32> = Vec::new();
        let mut zbuffer: Vec<i64> = Vec::new();
        let mut i: usize = 0;
        while i < n
            invariant
                i <= n,
                buffer@.len() == i,
                zbuffer@.len() == i,
                forall|k: int| 0 <= k < i ==> buffer@[k] == 0u32,
                forall|k: int| 0 <= k < i ==> zbuffer@[k] == i64::MAX,
            decreases n - i,
        {
            buffer.push(0);
            zbuffer.push(i64::MAX);
            i = i + 1;
        }
        Framebuffer {
            width,
            height,
            buffer,
            zbuffer,
            current_color: 0xFFFFFF,
            background_color: 0,
        }
    }

    pub fn set_current_color(&mut self, color: u32)
        ensures
            *final(self) == (Framebuffer { current_color: color, ..*old(self) }),
    {
        self.current_color = color;
    }

    pub fn set_background_color(&mut self, color: u32)
        ensures
            *final(self) == (Framebuffer { background_color: color, ..*old(self) }),
    {
        self.background_color = color;
    }

    /// Reset every pixel to the background color and every depth cell to
    /// the far sentinel.
    pub fn clear(&mut self)
        requires
            fb_wf(*old(self)),
        ensures
            fb_wf(*final(self)),
            final(self).width == old(self).width,
            final(self).height == old(self).height,
            final(self).current_color == old(self).current_color,
            final(self).background_color == old(self).background_color,
            forall|i: int|
                0 <= i < final(self).buffer@.len() ==> final(self).buffer@[i] == final(
                    self).background_color,
            forall|i: int|
                0 <= i < final(self).zbuffer@.len() ==> final(self).zbuffer@[i] == i64::MAX,
    {
        let n: usize = self.buffer.len();
        let mut i: usize = 0;
        while i < n
            invariant
                i <= n,
                self.buffer@.len() == n,
                self.zbuffer@.len() == n,
                self.width == old(self).width,
                self.height == old(self).height,
                self.current_color == old(self).current_color,
                self.background_color == old(self).background_color,
                n == self.width * self.height,
                forall|k: int| 0 <= k < i ==> self.buffer@[k] == self.background_color,
                forall|k: int| 0 <= k < i ==> self.zbuffer@[k] == i64::MAX,
            decreases n - i,
        {
            let bg = self.background_color;
            self.buffer[i] = bg;
            self.zbuffer[i] = i64::MAX;
            i = i + 1;
        }
    }

    /// Depth-tested write of the current color: the pixel changes exactly
    /// when the coordinates are in bounds and the fragment is strictly
    /// nearer than the stored depth.
    pub fn point(&mut self, x: usize, y: usize, depth: i64)
        requires
            fb_wf(*old(self)),
        ensures
            fb_wf(*final(self)),
            final(self).width == old(self).width,
            final(self).height == old(self).height,
            final(self).current_color == old(self).current_color,
            final(self).background_color == old(self).background_color,
            ({
                let idx = y * old(self).width + x;
                if x < old(self).width && y < old(self).height && depth < old(self).zbuffer@[
                    idx as int] {
                    final(self).buffer@ == old(self).buffer@.update(
                        idx as int,
                        old(self).current_color,
                    ) && final(self).zbuffer@ == old(self).zbuffer@.update(idx as int, depth)
                } else {
                    final(self).buffer@ == old(self).buffer@ && final(self).zbuffer@ == old(
                        self).zbuffer@
                }
            }),
    {
        if x < self.width && y < self.height {
            proof {
                let w = self.width as int;
                let h = self.height as int;
                assert((y as int) * w + (x as int) < w * h && w * h <= 16777216)
                    by (nonlinear_arith)
                    requires
                        0 <= (x as int) < w,
                        0 <= (y as int) < h,
                        w <= 4096,
                        h <= 4096,
                ;
            }
            let idx: usize = y * self.width + x;
            if depth < self.zbuffer[idx] {
                let c = self.current_color;
                self.buffer[idx] = c;
                self.zbuffer[idx] = depth;
            }
        }
    }
}

} // verus!
