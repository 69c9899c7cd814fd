//! Verified core of a small two-pass animated-triangle demo.
//!
//! The library plans everything the demo decides — the one-time setup
//! sequence, the per-frame draw sequence, frame timing, and key-event
//! effects — as plain data with proved contracts. A thin host layer
//! executes the planned commands against the real graphics context and
//! feeds clock readings, random draws and driver outcomes back in.

use vstd::prelude::*;

pub mod commands;
pub mod game;
pub mod renderer;
pub mod shaders;

use crate::commands::{GlCommand, TriangleUniform};
use crate::game::{spec_game_step, FrameOutput, Game, KeyEffect};
use crate::renderer::{spec_frame_commands, spec_setup_commands};

verus! {

/// Calling an entry point in a state it does not allow.
#[derive(Clone, Copy, Debug, PartialEq, Eq, Structural)]
pub enum SessionError {
    /// A per-frame or key-event entry point was called before `init`.
    NotInitialized,
}

/// The demo's entry-point state machine: absent until `init`, then a
/// running game. Every per-frame or key-event entry point on an absent
/// game is a defined error, never silently ignored.
pub struct Session {
    pub game: Option<Game>,
}

impl Session {
    /// The session's internal invariant: once a game exists, it is well
    /// formed.
    pub open spec fn wf(self) -> bool {
        self.game matches Some(g) ==> g.wf()
    }

    /// A fresh session, before `init`.
    pub fn new() -> (s: Session)
        ensures
            s.wf(),
            (s.game is None),
    {
        Session { game: None }
    }

    /// Initialize (or reinitialize) the game at clock reading `now_millis`
    /// with the given triangle-uniform configuration. Returns the setup
    /// commands the host must execute.
    pub fn init(&mut self, now_millis: u64, uniform: TriangleUniform) -> (cmds: Vec<GlCommand>)
        ensures
            final(self).wf(),
            (final(self).game matches Some(g) && g.last_timestamp == now_millis && g.t == 0
                && g.renderer.triangle_renderer.uniform == uniform),
            cmds@ == spec_setup_commands(),
    {
        let (game, cmds) = Game::new(now_millis, uniform);
        self.game = Some(game);
        cmds
    }

    /// Advance one frame, or report that `init` has not run.
    pub fn frame(&mut self, now_millis: u64) -> (r: Result<FrameOutput, SessionError>)
        requires
            old(self).wf(),
            (old(self).game matches Some(g) ==> now_millis >= g.last_timestamp),
        ensures
            final(self).wf(),
            (old(self).game is None ==> r == Err::<FrameOutput, SessionError>(
                SessionError::NotInitialized,
            ) && final(self).game is None),
            (old(self).game matches Some(g) ==> r matches Ok(out) && final(self).game == Some(
                spec_game_step(g, now_millis).0,
            ) && out.dt_millis == spec_game_step(g, now_millis).1 && out.commands@
                == spec_frame_commands(
                g.renderer.triangle_renderer.uniform,
                spec_game_step(g, now_millis).0.t,
                g.renderer.triangle_renderer.num_verts,
            )),
    {
        match &mut self.game {
            Some(game) => Ok(game.frame(now_millis)),
            None => Err(SessionError::NotInitialized),
        }
    }

    /// Handle a key press, or report that `init` has not run.
    pub fn send_key_down(&mut self, code: u32, random: u64) -> (r: Result<KeyEffect, SessionError>)
        requires
            old(self).wf(),
        ensures
            final(self).wf(),
            final(self).game == old(self).game,
            (old(self).game is None ==> r == Err::<KeyEffect, SessionError>(
                SessionError::NotInitialized,
            )),
            (old(self).game is Some ==> (r matches Ok(e) && e.sound == Some(
                random % crate::game::SOUND_COUNT,
            ) && e.log == (crate::game::LogEvent::KeyDown { code }))),
    {
        match &mut self.game {
            Some(game) => Ok(game.send_key_down(code, random)),
            None => Err(SessionError::NotInitialized),
        }
    }

    /// Handle a key release, or report that `init` has not run.
    pub fn send_key_up(&mut self, code: u32) -> (r: Result<KeyEffect, SessionError>)
        requires
            old(self).wf(),
        ensures
            final(self).wf(),
            final(self).game == old(self).game,
            (old(self).game is None ==> r == Err::<KeyEffect, SessionError>(
                SessionError::NotInitialized,
            )),
            (old(self).game is Some ==> (r matches Ok(e) && e.sound is None && e.log == (
            crate::game::LogEvent::KeyUp { code }))),
    {
        match &mut self.game {
            Some(game) => Ok(game.send_key_up(code)),
            None => Err(SessionError::NotInitialized),
        }
    }
}

} // verus!
