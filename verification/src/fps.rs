//! A frame-rate counter: counts frames and, once per refresh interval,
//! derives the average render time and the frame rate from the elapsed
//! wall-clock time.
//!
//! The clock is read through one trusted wrapper; everything computed
//! from the reading is verified for every possible value of it.

use vstd::prelude::*;

verus! {

/// Relies on time::precise_time_ns: reads a high-resolution performance
/// counter in nanoseconds since an unspecified epoch. Nothing is promised
/// of the value.
#[verifier::external_body]
fn clock_ns() -> u64 {
    time::precise_time_ns()
}

/// Frame-rate bookkeeping between refreshes.
#[derive(Clone, Copy, Debug, PartialEq, Eq, Structural)]
pub struct FPS {
    /// Clock reading at the last refresh, in nanoseconds.
    pub updated_at_ns: u64,
    /// How often the derived figures are refreshed, in milliseconds.
    pub refresh_rate_ms: i64,
    /// Average render time of the last refresh window, in milliseconds;
    /// at least one once a window has closed.
    pub render_time: i64,
    /// Frames counted in the current window.
    pub frames_rendered: i64,
    /// Frame rate derived at the last refresh.
    pub last_fps: i64,
}

impl FPS {
    /// The counter's invariant: nothing is negative.
    pub open spec fn wf(self) -> bool {
        &&& 0 <= self.frames_rendered
        &&& 0 <= self.render_time
        &&& 0 <= self.last_fps
    }

    /// Milliseconds elapsed since the last refresh for a clock reading of
    /// `now_ns`: zero if the clock went backwards, and capped so the
    /// value fits the counter's arithmetic.
    pub open spec fn elapsed_millis(self, now_ns: u64) -> int {
        let raw = if now_ns >= self.updated_at_ns {
            (now_ns - self.updated_at_ns) / 1_000_000
        } else {
            0
        };
        if raw > i64::MAX {
            i64::MAX as int
        } else {
            raw
        }
    }

    /// The frame count after one more frame, saturating.
    pub open spec fn bumped_frames(self) -> int {
        if self.frames_rendered == i64::MAX {
            i64::MAX as int
        } else {
            self.frames_rendered + 1
        }
    }

    /// The counter after one frame ends at clock reading `now_ns`: within
    /// the refresh interval only the frame count moves; once the interval
    /// has elapsed, the average render time (at least one millisecond)
    /// and the frame rate are derived and the window restarts.
    pub open spec fn step_spec(self, now_ns: u64) -> FPS {
        let frames = self.bumped_frames();
        let elapsed = self.elapsed_millis(now_ns);
        if elapsed > self.refresh_rate_ms {
            let avg = elapsed / frames;
            let rt = if avg == 0 {
                1int
            } else {
                avg
            };
            FPS {
                updated_at_ns: now_ns,
                refresh_rate_ms: self.refresh_rate_ms,
                render_time: rt as i64,
                frames_rendered: 0,
                last_fps: (1000int / rt) as i64,
            }
        } else {
            FPS { frames_rendered: frames as i64, ..self }
        }
    }

    /// A counter that refreshes its figures every `refresh_rate_ms`
    /// milliseconds, with its window starting now.
    pub fn new(refresh_rate_ms: i64) -> (r: FPS)
        ensures
            r.wf(),
            r.refresh_rate_ms == refresh_rate_ms,
            r.render_time == 0,
            r.frames_rendered == 0,
            r.last_fps == 0,
    {
        FPS {
            updated_at_ns: clock_ns(),
            refresh_rate_ms,
            render_time: 0,
            frames_rendered: 0,
            last_fps: 0,
        }
    }

    /// Advances the counter for one frame ending at clock reading
    /// `now_ns`; the whole update rule is pinned by `step_spec`.
    pub fn record_frame(&mut self, now_ns: u64)
        requires
            old(self).wf(),
        ensures
            final(self).wf(),
            *final(self) == old(self).step_spec(now_ns),
    {
        let frames: i64 = if self.frames_rendered == i64::MAX {
            i64::MAX
        } else {
            self.frames_rendered + 1
        };
        let elapsed_ns: u64 = if now_ns >= self.updated_at_ns {
            now_ns - self.updated_at_ns
        } else {
            0
        };
        let whole_ms: u64 = elapsed_ns / 1_000_000;
        let elapsed_ms: i64 = if whole_ms > i64::MAX as u64 {
            i64::MAX
        } else {
            whole_ms as i64
        };
        if elapsed_ms > self.refresh_rate_ms {
            let avg: i64 = elapsed_ms / frames;
            self.updated_at_ns = now_ns;
            self.render_time = if avg == 0 {
                1
            } else {
                avg
            };
            self.last_fps = 1000 / self.render_time;
            self.frames_rendered = 0;
        } else {
            self.frames_rendered = frames;
        }
    }

    /// Ends one frame at the current clock reading. The new state is the
    /// step rule applied to some clock value.
    pub fn end_frame(&mut self)
        requires
            old(self).wf(),
        ensures
            final(self).wf(),
            exists|now_ns: u64| *final(self) == old(self).step_spec(now_ns),
    {
        let ghost pre = *self;
        let now_ns = clock_ns();
        self.record_frame(now_ns);
        proof {
            assert(*self == pre.step_spec(now_ns));
        }
    }

    /// The frame rate derived at the last refresh.
    pub fn current_fps(&self) -> (r: i64)
        ensures
            r == self.last_fps,
    {
        self.last_fps
    }

    /// The average render time derived at the last refresh.
    pub fn average_render_time(&self) -> (r: i64)
        ensures
            r == self.render_time,
    {
        self.render_time
    }

    /// Milliseconds elapsed since the last refresh, read from the clock.
    pub fn render_time(&self) -> (r: i64)
        ensures
            r >= 0,
            exists|now_ns: u64| r == self.elapsed_millis(now_ns),
    {
        let now_ns = clock_ns();
        let elapsed_ns: u64 = if now_ns >= self.updated_at_ns {
            now_ns - self.updated_at_ns
        } else {
            0
        };
        let whole_ms: u64 = elapsed_ns / 1_000_000;
        let r: i64 = if whole_ms > i64::MAX as u64 {
            i64::MAX
        } else {
            whole_ms as i64
        };
        proof {
            assert(r == self.elapsed_millis(now_ns));
        }
        r
    }
}

} // verus!
