//! The counters shared between the input side and the compute stages.

use vstd::prelude::*;

verus! {

/// How often a second the draw timer asks for a step.
pub const FRAMES_PER_SECOND: u64 = 1;

/// The period of the draw timer in whole seconds.
pub fn draw_timer_period_secs() -> (r: u64)
    ensures
        r == 1u64 / FRAMES_PER_SECOND,
{
    1 / FRAMES_PER_SECOND
}

/// The pause flag, the frame counter and the step budget.
///
/// `frame` counts the simulation advances made so far; its parity decides which storage
/// buffer is read and which is written. `frame_queue_count` is the step budget: the number
/// of advances that were asked for and not yet made.
#[derive(Clone, Copy, Debug, PartialEq, Eq, Structural)]
pub struct AutomataParams {
    pub is_paused: bool,
    pub frame: usize,
    pub frame_queue_count: usize,
}

impl Default for AutomataParams {
    /// Running, at frame zero, with nothing asked for.
    fn default() -> (r: AutomataParams)
        ensures
            r == (AutomataParams { is_paused: false, frame: 0, frame_queue_count: 0 }),
    {
        AutomataParams { is_paused: false, frame: 0, frame_queue_count: 0 }
    }
}

impl AutomataParams {
    /// The counters after the keys of one frame were read.
    pub open spec fn after_input(self, pause_pressed: bool, step_pressed: bool) -> AutomataParams {
        AutomataParams {
            is_paused: self.is_paused != pause_pressed,
            frame: self.frame,
            frame_queue_count: if step_pressed && self.frame_queue_count < usize::MAX {
                (self.frame_queue_count + 1) as usize
            } else {
                self.frame_queue_count
            },
        }
    }

    /// The counters after one tick of the draw timer, which only runs while not paused.
    pub open spec fn after_tick(self, timer_finished: bool) -> AutomataParams {
        AutomataParams {
            is_paused: self.is_paused,
            frame: self.frame,
            frame_queue_count: if !self.is_paused && timer_finished {
                1
            } else {
                self.frame_queue_count
            },
        }
    }

    /// Whether the draw timer advances on this frame: it stands still while paused.
    pub fn timer_runs(&self) -> (r: bool)
        ensures
            r == !self.is_paused,
    {
        !self.is_paused
    }
}

/// Applies the keys pressed on one frame: the pause key flips the pause flag, the step key
/// asks for one more step, so the step budget grows by one and stops at the largest value.
/// The frame counter is left alone.
pub fn update_input_state(params: &mut AutomataParams, pause_pressed: bool, step_pressed: bool)
    ensures
        *final(params) == old(params).after_input(pause_pressed, step_pressed),
{
    if pause_pressed {
        params.is_paused = !params.is_paused;
    }
    if step_pressed {
        params.frame_queue_count = params.frame_queue_count.saturating_add(1);
    }
}

/// Applies one tick of the draw timer: when the timer has just run out and the engine is
/// not paused, the step budget is set to one and the current frame is handed back for
/// reporting.
pub fn update_ready(params: &mut AutomataParams, timer_finished: bool) -> (reported: Option<usize>)
    ensures
        *final(params) == old(params).after_tick(timer_finished),
        reported == if !old(params).is_paused && timer_finished {
            Some(old(params).frame)
        } else {
            None
        },
{
    if params.is_paused || !timer_finished {
        return None;
    }
    params.frame_queue_count = 1;
    Some(params.frame)
}

} // verus!
