//! The frame-based animation widget: a list of prebuilt art frames shown in
//! sequence, looping with an optional dwell or playing once and holding the
//! last frame.

use vstd::prelude::*;
use crate::art::AsciiCells;
use crate::art::blit;
use crate::art::visible_cells;

verus! {

/// An animation over prebuilt frames. Times are in milliseconds;
/// `anchor_ms` is the instant the animation (re)started.
pub struct AsciiAnimationWidget {
    pub frames: Vec<AsciiCells>,
    pub frame_duration_ms: u64,
    pub looping: bool,
    pub anchor_ms: u64,
    pub pause_at_end_ms: u64,
}

impl AsciiAnimationWidget {
    /// One pass over all frames, in milliseconds.
    pub open spec fn anim_ms(self) -> int {
        self.frame_duration_ms * self.frames@.len()
    }

    /// One full cycle: the pass plus the dwell at its end.
    pub open spec fn total_ms(self) -> int {
        self.anim_ms() + self.pause_at_end_ms
    }

    /// Positive frame time that fits the machine, and well-formed frames.
    pub open spec fn wf(self) -> bool {
        &&& 1 <= self.frame_duration_ms
        &&& self.anim_ms() + self.pause_at_end_ms <= u64::MAX
        &&& forall|i: int| 0 <= i < self.frames@.len() ==> (#[trigger] self.frames@[i]).wf()
    }

    /// The smaller of two values.
    pub open spec fn spec_min(a: int, b: int) -> int {
        if a < b {
            a
        } else {
            b
        }
    }

    /// The frame shown at `now`: elapsed time divided by the frame time,
    /// never past the last frame; when looping, elapsed time wraps at the
    /// cycle and the dwell shows the last frame. No frames means index zero.
    pub open spec fn frame_index_at(self, now: u64) -> int {
        let e = now - self.anchor_ms;
        let count = self.frames@.len() as int;
        if count == 0 {
            0
        } else if self.looping {
            let cyc = e % self.total_ms();
            if cyc >= self.anim_ms() {
                count - 1
            } else {
                Self::spec_min(cyc / (self.frame_duration_ms as int), count - 1)
            }
        } else {
            Self::spec_min(e / (self.frame_duration_ms as int), count - 1)
        }
    }

    /// Builds an animation over `frames`, anchored at `now_ms`, with no
    /// dwell.
    pub fn new(frames: Vec<AsciiCells>, frame_duration_ms: u64, looping: bool, now_ms: u64) -> (r:
        Self)
        requires
            1 <= frame_duration_ms,
            frame_duration_ms * frames@.len() <= u64::MAX,
            forall|i: int| 0 <= i < frames@.len() ==> (#[trigger] frames@[i]).wf(),
        ensures
            r.wf(),
            r.frames@ == frames@,
            r.frame_duration_ms == frame_duration_ms,
            r.looping == looping,
            r.anchor_ms == now_ms,
            r.pause_at_end_ms == 0,
    {
        AsciiAnimationWidget {
            frames,
            frame_duration_ms,
            looping,
            anchor_ms: now_ms,
            pause_at_end_ms: 0,
        }
    }

    /// A looping animation with the default frame time of 100 ms.
    pub fn looping(frames: Vec<AsciiCells>, now_ms: u64) -> (r: Self)
        requires
            100 * frames@.len() <= u64::MAX,
            forall|i: int| 0 <= i < frames@.len() ==> (#[trigger] frames@[i]).wf(),
        ensures
            r.wf(),
            r.frames@ == frames@,
            r.frame_duration_ms == 100,
            r.looping,
            r.anchor_ms == now_ms,
            r.pause_at_end_ms == 0,
    {
        Self::new(frames, 100, true, now_ms)
    }

    /// A one-shot animation with the default frame time of 100 ms.
    pub fn once(frames: Vec<AsciiCells>, now_ms: u64) -> (r: Self)
        requires
            100 * frames@.len() <= u64::MAX,
            forall|i: int| 0 <= i < frames@.len() ==> (#[trigger] frames@[i]).wf(),
        ensures
            r.wf(),
            r.frames@ == frames@,
            r.frame_duration_ms == 100,
            !r.looping,
            r.anchor_ms == now_ms,
            r.pause_at_end_ms == 0,
    {
        Self::new(frames, 100, false, now_ms)
    }

    /// Sets the frame time.
    pub fn with_frame_duration(self, duration_ms: u64) -> (r: Self)
        requires
            1 <= duration_ms,
            duration_ms * self.frames@.len() + self.pause_at_end_ms <= u64::MAX,
        ensures
            r == (AsciiAnimationWidget { frame_duration_ms: duration_ms, ..self }),
    {
        AsciiAnimationWidget { frame_duration_ms: duration_ms, ..self }
    }

    /// Sets the dwell held at the end of each pass before looping restarts.
    pub fn with_pause_at_end(self, pause_ms: u64) -> (r: Self)
        requires
            self.anim_ms() + pause_ms <= u64::MAX,
        ensures
            r == (AsciiAnimationWidget { pause_at_end_ms: pause_ms, ..self }),
    {
        AsciiAnimationWidget { pause_at_end_ms: pause_ms, ..self }
    }

    /// Restarts the animation at `now_ms`.
    pub fn reset(&mut self, now_ms: u64)
        ensures
            *final(self) == (AsciiAnimationWidget { anchor_ms: now_ms, ..*old(self) }),
    {
        self.anchor_ms = now_ms;
    }

    /// The frame to show at `now_ms`.
    fn current_frame_index(&self, now_ms: u64) -> (r: usize)
        requires
            self.wf(),
            now_ms >= self.anchor_ms,
        ensures
            r == self.frame_index_at(now_ms),
            self.frames@.len() > 0 ==> r < self.frames@.len(),
            self.frames@.len() == 0 ==> r == 0,
    {
        if self.frames.len() == 0 {
            return 0;
        }
        let count: u64 = self.frames.len() as u64;
        proof {
            assert(self.frame_duration_ms * count >= 1) by (nonlinear_arith)
                requires
                    self.frame_duration_ms >= 1,
                    count >= 1,
            ;
        }
        let anim: u64 = self.frame_duration_ms * count;
        let total: u64 = anim + self.pause_at_end_ms;
        let e: u64 = now_ms - self.anchor_ms;
        if self.looping {
            let cyc: u64 = e % total;
            if cyc >= anim {
                return self.frames.len() - 1;
            }
            let frames_elapsed: u64 = cyc / self.frame_duration_ms;
            if frames_elapsed >= count - 1 {
                self.frames.len() - 1
            } else {
                frames_elapsed as usize
            }
        } else {
            let frames_elapsed: u64 = e / self.frame_duration_ms;
            if frames_elapsed >= count - 1 {
                self.frames.len() - 1
            } else {
                frames_elapsed as usize
            }
        }
    }

    /// Whether a one-shot animation has played through; a looping or empty
    /// animation is never finished.
    pub fn is_finished(&self, now_ms: u64) -> (r: bool)
        requires
            self.wf(),
            now_ms >= self.anchor_ms,
        ensures
            r == (!self.looping && self.frames@.len() > 0 && now_ms - self.anchor_ms
                >= self.anim_ms()),
    {
        if self.looping || self.frames.len() == 0 {
            return false;
        }
        let count: u64 = self.frames.len() as u64;
        let total: u64 = self.frame_duration_ms * count;
        now_ms - self.anchor_ms >= total
    }

    /// The width of the first frame, or zero without frames (every frame is
    /// expected to be equally wide).
    pub fn get_width(&self) -> (r: u16)
        requires
            self.wf(),
        ensures
            self.frames@.len() == 0 ==> r == 0,
            self.frames@.len() > 0 ==> r == AsciiCells::spec_max_x(self.frames@[0].cells@) + 1,
    {
        if self.frames.len() == 0 {
            0
        } else {
            self.frames[0].get_width()
        }
    }

    /// The height of the first frame, or zero without frames.
    pub fn get_height(&self) -> (r: u16)
        requires
            self.wf(),
        ensures
            self.frames@.len() == 0 ==> r == 0,
            self.frames@.len() > 0 ==> r == AsciiCells::spec_max_y(self.frames@[0].cells@) + 1,
    {
        if self.frames.len() == 0 {
            0
        } else {
            self.frames[0].get_height()
        }
    }

    /// Draws the current frame's cells that fall inside `area`, clipping
    /// the rest away silently; an empty animation draws nothing.
    pub fn render_to_buffer(
        &self,
        area: ratatui::layout::Rect,
        buf: &mut ratatui::buffer::Buffer,
        now_ms: u64,
    )
        requires
            self.wf(),
            now_ms >= self.anchor_ms,
    {
        if self.frames.len() == 0 {
            return ;
        }
        let idx = self.current_frame_index(now_ms);
        let shown = visible_cells(&self.frames[idx].cells, area);
        blit(&shown, buf);
    }

    /// Draws the current frame, consuming the widget.
    pub fn render(
        self,
        area: ratatui::layout::Rect,
        buf: &mut ratatui::buffer::Buffer,
        now_ms: u64,
    )
        requires
            self.wf(),
            now_ms >= self.anchor_ms,
    {
        self.render_to_buffer(area, buf, now_ms);
    }
}

} // verus!
