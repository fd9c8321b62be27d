use vstd::prelude::*;

verus! {

/// The screens the application can show. Exactly one is active at any time;
/// a fresh application starts in `Loading`.
#[derive(Clone, Copy, Debug, PartialEq, Eq, Structural)]
pub enum AppState {
    Loading,
    Menu,
    InGame,
    Paused,
    Scoreboard,
    Cutscene,
}

/// The application's mode switcher: the active screen plus a single pending
/// transition request. Gameplay and UI code file requests at any point in a
/// tick; the surrounding loop applies the request once, at the tick boundary,
/// so no system ever observes a half-switched mode.
///
/// There is deliberately no legality table: any mode may request any other
/// mode, as the game's screens do. Restricting transitions is a caller's
/// configuration choice, not a rule of this type.
pub struct StateMachine {
    current: AppState,
    pending: Option<AppState>,
}

impl StateMachine {
    /// The active mode.
    pub closed spec fn spec_current(self) -> AppState {
        self.current
    }

    /// The transition request filed since the last tick boundary, if any.
    pub closed spec fn spec_pending(self) -> Option<AppState> {
        self.pending
    }

    pub fn new() -> (sm: StateMachine)
        ensures
            sm.spec_current() == AppState::Loading,
            sm.spec_pending() is None,
    {
        StateMachine { current: AppState::Loading, pending: None }
    }

    pub fn current(&self) -> (s: AppState)
        ensures
            s == self.spec_current(),
    {
        self.current
    }

    pub fn pending(&self) -> (p: Option<AppState>)
        ensures
            p == self.spec_pending(),
    {
        self.pending
    }

    /// File a request to switch to `next`. A later request in the same tick
    /// overwrites an earlier one: the slot holds at most one mode.
    pub fn request(&mut self, next: AppState)
        ensures
            final(self).spec_pending() == Some(next),
            final(self).spec_current() == old(self).spec_current(),
    {
        self.pending = Some(next);
    }

    /// Run at the tick boundary: switch to the pending mode, if one was
    /// requested, and clear the slot. Without a request, nothing changes.
    pub fn apply_pending(&mut self)
        ensures
            final(self).spec_pending() is None,
            final(self).spec_current() == match old(self).spec_pending() {
                Some(next) => next,
                None => old(self).spec_current(),
            },
    {
        if let Some(next) = self.pending {
            self.current = next;
        }
        self.pending = None;
    }
}

} // verus!
