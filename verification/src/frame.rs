//! The render loop as a state machine. Each iteration drains the window's
//! events, either exits or advances the animation and draws, and at the end
//! of the frame samples the clock. The decisions live here; opening the
//! window, drawing and reading the clock are the caller's.

use vstd::prelude::*;

use crate::anim::Progress;
use crate::anim::MAX_PROGRESS_MILLI;
use crate::anim::blend_x_milli;
use crate::anim::interpolated_translation;
use crate::events::Event;
use crate::events::has_exit_event;
use crate::events::should_exit;
use crate::timing::INITIAL_DT_MS;
use crate::timing::Timing;
use crate::timing::ticked;
use crate::vec3::Vec3Milli;

verus! {

/// Whether the loop keeps going. It starts `Running` and moves to `Exiting`
/// once, on a window-close request or an Escape press; `Exiting` is terminal.
#[derive(Clone, Copy, PartialEq, Eq, Structural, Debug)]
pub enum Mode {
    Running,
    Exiting,
}

/// What the caller does after a step: stop the loop, or render one frame
/// with the quad translated as given.
#[derive(Clone, Copy, PartialEq, Eq, Structural, Debug)]
pub enum FrameAction {
    Exit,
    Draw(Vec3Milli),
}

/// Everything the loop carries from one iteration to the next: whether it is
/// still running, the animation progress, and the frame timing.
#[derive(Clone, Copy, PartialEq, Eq, Structural, Debug)]
pub struct FrameState {
    pub mode: Mode,
    pub progress: Progress,
    pub timing: Timing,
}

impl FrameState {
    /// The loop's state at startup: running, progress zero, the clock just
    /// sampled at `start_ms`.
    pub fn new(start_ms: u64) -> (s: FrameState)
        ensures
            s.mode == Mode::Running,
            s.progress.milli == 0,
            s.timing == (Timing { curr_ms: start_ms, dt_ms: INITIAL_DT_MS }),
    {
        FrameState { mode: Mode::Running, progress: Progress::new(), timing: Timing::new(start_ms) }
    }

    /// One iteration's decisions, up to the draw call. If any drained event
    /// asks to exit, the loop stops within this very iteration and nothing
    /// else changes. Otherwise progress advances by the last frame's delta
    /// and the caller is told to draw with the translation interpolated at
    /// the new progress. Timing is untouched either way; it is updated by
    /// `end_frame` once the frame has been presented.
    pub fn step(&mut self, events: &Vec<Event>) -> (a: FrameAction)
        requires
            old(self).mode == Mode::Running,
            old(self).progress.milli + old(self).timing.dt_ms <= MAX_PROGRESS_MILLI,
        ensures
            final(self).timing == old(self).timing,
            has_exit_event(events@) ==> final(self).mode == Mode::Exiting
                && final(self).progress == old(self).progress
                && a == FrameAction::Exit,
            !has_exit_event(events@) ==> final(self).mode == Mode::Running
                && final(self).progress.milli == old(self).progress.milli
                    + old(self).timing.dt_ms
                && (a matches FrameAction::Draw(t)
                    && t.x == blend_x_milli(old(self).progress.milli + old(self).timing.dt_ms)
                    && t.y == 0
                    && t.z == 0),
    {
        if should_exit(events) {
            self.mode = Mode::Exiting;
            FrameAction::Exit
        } else {
            let dt_ms = self.timing.dt_ms;
            self.progress.advance(dt_ms);
            let t = interpolated_translation(self.progress.milli);
            FrameAction::Draw(t)
        }
    }

    /// End of an iteration, after the frame was presented: sample the clock
    /// at `now_ms` and derive the next frame's delta from it. Everything but
    /// the timing is untouched.
    pub fn end_frame(&mut self, now_ms: u64)
        requires
            old(self).timing.curr_ms <= now_ms,
        ensures
            final(self).timing == ticked(old(self).timing, now_ms),
            final(self).mode == old(self).mode,
            final(self).progress == old(self).progress,
    {
        self.timing.tick(now_ms);
    }
}

} // verus!
