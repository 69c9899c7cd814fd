//! The game loop wrapper: frame timing and key-event effects.
//!
//! The host supplies every outside reading as a plain value — the clock in
//! milliseconds and the random draw for the sound id — and performs the
//! returned effects: executing the planned commands, playing the sound,
//! writing the log line.

use crate::commands::{GlCommand, TriangleUniform};
use crate::renderer::{spec_frame_commands, spec_setup_commands, Renderer};
use vstd::prelude::*;

verus! {

/// The number of distinct sound ids; a key press plays one of `0..SOUND_COUNT`.
pub const SOUND_COUNT: u64 = 100;

/// A log line the host should write, as data.
#[derive(Clone, Copy, Debug, PartialEq, Eq, Structural)]
pub enum LogEvent {
    KeyDown { code: u32 },
    KeyUp { code: u32 },
}

/// Everything one key event asks the host to do: play at most one sound,
/// and write exactly one log line.
#[derive(Clone, Copy, Debug, PartialEq, Eq, Structural)]
pub struct KeyEffect {
    /// The id of the sound to play, if any.
    pub sound: Option<u64>,
    /// The log line to write.
    pub log: LogEvent,
}

/// Everything one frame asks the host to do.
pub struct FrameOutput {
    /// Milliseconds elapsed since the previous frame.
    pub dt_millis: u64,
    /// The draw commands of this frame, to be executed in order.
    pub commands: Vec<GlCommand>,
}

/// The game: the renderer, the clock reading of the previous frame, and
/// the total time elapsed since the game began.
pub struct Game {
    pub renderer: Renderer,
    pub last_timestamp: u64,
    pub t: u64,
}

/// One step of the game's frame clock: the new state and the elapsed
/// delta, given the current clock reading.
pub open spec fn spec_game_step(g: Game, now_millis: u64) -> (Game, u64) {
    let dt = (now_millis - g.last_timestamp) as u64;
    (Game { renderer: g.renderer, last_timestamp: now_millis, t: (g.t + dt) as u64 }, dt)
}

impl Game {
    /// The game's internal invariant: the renderer is well formed, and the
    /// accumulated time never exceeds the last clock reading (it is the
    /// time elapsed since the first one), so the clock arithmetic cannot
    /// overflow.
    pub open spec fn wf(self) -> bool {
        self.renderer.wf() && self.t <= self.last_timestamp
    }

    /// Start the game at clock reading `now_millis`, with no time elapsed
    /// yet and the triangle's uniform configured as given. Returns the
    /// setup commands the host must execute once.
    pub fn new(now_millis: u64, uniform: TriangleUniform) -> (r: (Game, Vec<GlCommand>))
        ensures
            r.0.wf(),
            r.0.last_timestamp == now_millis,
            r.0.t == 0,
            r.0.renderer.triangle_renderer.uniform == uniform,
            r.1@ == spec_setup_commands(),
    {
        let (renderer, setup) = Renderer::new(uniform);
        (Game { renderer, last_timestamp: now_millis, t: 0 }, setup)
    }

    /// Advance one frame at clock reading `now_millis`: the reported delta
    /// is exactly the time since the previous frame, the clock state
    /// advances to `now_millis`, and the returned commands draw the frame
    /// at the new total time.
    pub fn frame(&mut self, now_millis: u64) -> (r: FrameOutput)
        requires
            old(self).wf(),
            now_millis >= old(self).last_timestamp,
        ensures
            final(self).wf(),
            (*final(self), r.dt_millis) == spec_game_step(*old(self), now_millis),
            r.dt_millis == now_millis - old(self).last_timestamp,
            final(self).last_timestamp == now_millis,
            final(self).t == old(self).t + r.dt_millis,
            final(self).renderer == old(self).renderer,
            r.commands@ == spec_frame_commands(
                old(self).renderer.triangle_renderer.uniform,
                final(self).t,
                old(self).renderer.triangle_renderer.num_verts,
            ),
    {
        let dt_millis = now_millis - self.last_timestamp;
        self.last_timestamp = now_millis;
        self.t = self.t + dt_millis;
        let commands = self.renderer.draw_frame(self.t);
        FrameOutput { dt_millis, commands }
    }

    /// Handle a key press: play exactly one sound, with an id drawn
    /// uniformly from `0..SOUND_COUNT` out of the host's random value, and
    /// log the key code.
    pub fn send_key_down(&mut self, code: u32, random: u64) -> (r: KeyEffect)
        ensures
            *final(self) == *old(self),
            r.sound == Some(random % SOUND_COUNT),
            (r.sound matches Some(id) && id < SOUND_COUNT),
            r.log == (LogEvent::KeyDown { code }),
    {
        KeyEffect { sound: Some(random % SOUND_COUNT), log: LogEvent::KeyDown { code } }
    }

    /// Handle a key release: log the key code, and play no sound.
    pub fn send_key_up(&mut self, code: u32) -> (r: KeyEffect)
        ensures
            *final(self) == *old(self),
            (r.sound is None),
            r.log == (LogEvent::KeyUp { code }),
    {
        KeyEffect { sound: None, log: LogEvent::KeyUp { code } }
    }
}

/// For any two consecutive frames at clock readings `t1 <= t2`, the delta
/// the second frame reports is exactly `t2 - t1`, and so never negative.
pub proof fn lemma_consecutive_frame_deltas(g: Game, t1: u64, t2: u64)
    requires
        g.wf(),
        g.last_timestamp <= t1,
        t1 <= t2,
    ensures
        spec_game_step(spec_game_step(g, t1).0, t2).1 == t2 - t1,
        spec_game_step(spec_game_step(g, t1).0, t2).1 >= 0,
{
}

} // verus!
