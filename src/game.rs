//! Whether a launch is under way, and the decisions around starting the game.

use vstd::prelude::*;

use crate::text::{debug_quote, debug_quoted};

verus! {

/// Why the game was not launched.
#[derive(PartialEq, Eq, Debug)]
pub enum LaunchError {
    /// A launch is already under way.
    AlreadyLaunching,
    /// The game is already running.
    AlreadyRunning,
    /// The game executable is not at `path`, where the install path puts it.
    ExecutableMissing { path: String },
}

/// The sentence that describes a launch error.
pub open spec fn launch_error_text(e: LaunchError) -> Seq<char> {
    match e {
        LaunchError::AlreadyLaunching => "Game is already launching"@,
        LaunchError::AlreadyRunning => "Game is already running"@,
        LaunchError::ExecutableMissing { path } => "Game executable not found at: "@ + debug_quoted(
            path@,
        ),
    }
}

impl LaunchError {
    /// A sentence describing the error.
    pub fn message(&self) -> (r: String)
        ensures
            r@ == launch_error_text(*self),
    {
        match self {
            LaunchError::AlreadyLaunching => String::from_str("Game is already launching"),
            LaunchError::AlreadyRunning => String::from_str("Game is already running"),
            LaunchError::ExecutableMissing { path } => {
                let mut s = String::from_str("Game executable not found at: ");
                let quoted = debug_quote(path.as_str());
                s.append(quoted.as_str());
                s
            },
        }
    }
}

/// Whether a launch is under way.
pub struct GameState {
    launching: bool,
}

impl GameState {
    /// Whether a launch is under way.
    pub closed spec fn launching(&self) -> bool {
        self.launching
    }

    /// No launch under way.
    pub fn new() -> (r: GameState)
        ensures
            !r.launching(),
    {
        GameState { launching: false }
    }

    /// Whether a launch is under way.
    pub fn is_launching(&self) -> (r: bool)
        ensures
            r == self.launching(),
    {
        self.launching
    }

    /// Starts a launch, unless one is under way or the game is running.
    pub fn begin(&mut self, game_running: bool) -> (r: Result<(), LaunchError>)
        ensures
            old(self).launching() ==> r == Err::<(), LaunchError>(LaunchError::AlreadyLaunching)
                && final(self).launching(),
            !old(self).launching() && game_running ==> r == Err::<(), LaunchError>(
                LaunchError::AlreadyRunning,
            ) && !final(self).launching(),
            !old(self).launching() && !game_running ==> r is Ok && final(self).launching(),
    {
        if self.launching {
            return Err(LaunchError::AlreadyLaunching);
        }
        if game_running {
            return Err(LaunchError::AlreadyRunning);
        }
        self.launching = true;
        Ok(())
    }

    /// Ends the launch: the game exited, failed to start, or the state is reset.
    pub fn reset(&mut self)
        ensures
            !final(self).launching(),
    {
        self.launching = false;
    }
}

/// Decides whether a launch may start: not while one is under way, nor while
/// the game runs, nor when its executable (at `executable_path`) is missing.
/// On success a launch is under way; on any error none is, except that a
/// launch already under way is left so.
pub fn handle_launch_game(
    state: &mut GameState,
    game_running: bool,
    executable_path: &str,
    executable_exists: bool,
) -> (r: Result<(), LaunchError>)
    ensures
        old(state).launching() ==> r == Err::<(), LaunchError>(LaunchError::AlreadyLaunching)
            && final(state).launching(),
        !old(state).launching() && game_running ==> r == Err::<(), LaunchError>(
            LaunchError::AlreadyRunning,
        ) && !final(state).launching(),
        !old(state).launching() && !game_running && !executable_exists ==> (r matches Err(
            LaunchError::ExecutableMissing { path },
        ) && path@ == executable_path@) && !final(state).launching(),
        !old(state).launching() && !game_running && executable_exists ==> r is Ok
            && final(state).launching(),
{
    state.begin(game_running)?;
    if !executable_exists {
        state.reset();
        return Err(LaunchError::ExecutableMissing { path: String::from_str(executable_path) });
    }
    Ok(())
}

/// Clears the launch flag, as when the game has exited.
pub fn reset_launch_state(state: &mut GameState)
    ensures
        !final(state).launching(),
{
    state.reset();
}

/// The game counts as active while it runs or while it is being launched.
pub fn get_game_status(running: bool, state: &GameState) -> (r: bool)
    ensures
        r == (running || state.launching()),
{
    running || state.is_launching()
}

} // verus!
