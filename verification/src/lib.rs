//! Core model of a terminal-style font previewer: a fixed catalog of font
//! descriptors, a wraparound selection cursor, a three-phase application
//! state machine, and the pure render step that turns the current selection
//! into display commands for an external rendering engine.

use vstd::prelude::*;

pub mod font_info;
pub mod render;

verus! {

/// The application's three phases: waiting for font assets to resolve,
/// preparing the catalog and display surface, and running the previewer.
/// The progression is forward-only and ends in `Running`.
#[derive(Debug, Clone, Copy, Eq, PartialEq, Hash, Structural)]
pub enum AppState {
    AssetLoading,
    GameLoading,
    Running,
}

impl AppState {
    /// The phase that follows this one; `Running` is terminal.
    pub open spec fn next_spec(self) -> AppState {
        match self {
            AppState::AssetLoading => AppState::GameLoading,
            AppState::GameLoading => AppState::Running,
            AppState::Running => AppState::Running,
        }
    }

    /// Position of a phase in the forward progression.
    pub open spec fn phase_index(self) -> nat {
        match self {
            AppState::AssetLoading => 0,
            AppState::GameLoading => 1,
            AppState::Running => 2,
        }
    }

    /// Advance to the next phase once this one's work is complete.
    pub fn next_phase(self) -> (r: AppState)
        ensures
            r == self.next_spec(),
    {
        match self {
            AppState::AssetLoading => AppState::GameLoading,
            AppState::GameLoading => AppState::Running,
            AppState::Running => AppState::Running,
        }
    }

    /// Whether the previewer has reached its terminal, interactive phase.
    pub fn is_running(&self) -> (b: bool)
        ensures
            b == (*self is Running),
    {
        match self {
            AppState::Running => true,
            _ => false,
        }
    }
}

/// The phase progression never moves backward: each transition keeps or
/// raises the phase index, and only the terminal phase repeats itself.
pub proof fn lemma_phase_forward_only(s: AppState)
    ensures
        s.next_spec().phase_index() >= s.phase_index(),
        s.next_spec() == s <==> s is Running,
{
}

} // verus!
