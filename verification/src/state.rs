//! The screen state, the triggers it reacts to, and the transition table.

use vstd::prelude::*;

verus! {

/// The screen the client is on.
#[derive(Clone, Copy, PartialEq, Eq, Structural, Debug)]
pub enum GameState {
    MainMenu,
    Running,
}

/// A discrete input event that the state machine may react to.
#[derive(Clone, Copy, PartialEq, Eq, Structural, Debug)]
pub enum Trigger {
    /// The "Start" label was activated.
    Start,
    /// The "Settings" label was activated.
    Settings,
    /// The "Quit" label was activated.
    Quit,
    /// The Escape key went down.
    Escape,
    /// The F1 key went down.
    F1,
}

/// What the host has to do after a trigger was handled.
#[derive(Clone, Copy, PartialEq, Eq, Structural, Debug)]
pub enum Effect {
    /// Nothing: go on with the next frame.
    Nothing,
    /// End the process, with exit code 0.
    Terminate,
}

impl Trigger {
    /// Whether this trigger asks to end the process when the menu is shown.
    pub open spec fn is_exit(self) -> bool {
        self == Trigger::Quit || self == Trigger::Escape
    }
}

impl GameState {
    /// The transition table: the state that follows `self` on `t`.
    pub open spec fn next(self, t: Trigger) -> GameState {
        match (self, t) {
            (GameState::MainMenu, Trigger::Start) => GameState::Running,
            (GameState::Running, Trigger::F1) => GameState::MainMenu,
            _ => self,
        }
    }

    /// The effect that handling `t` in state `self` has on the process.
    pub open spec fn effect(self, t: Trigger) -> Effect {
        if self == GameState::MainMenu && t.is_exit() {
            Effect::Terminate
        } else {
            Effect::Nothing
        }
    }

    /// Handles one trigger: the following state and the effect for the host.
    pub fn step(self, t: Trigger) -> (r: (GameState, Effect))
        ensures
            r.0 == self.next(t),
            r.1 == self.effect(t),
    {
        match self {
            GameState::MainMenu => match t {
                Trigger::Start => (GameState::Running, Effect::Nothing),
                Trigger::Quit | Trigger::Escape => (GameState::MainMenu, Effect::Terminate),
                Trigger::Settings | Trigger::F1 => (GameState::MainMenu, Effect::Nothing),
            },
            GameState::Running => match t {
                Trigger::F1 => (GameState::MainMenu, Effect::Nothing),
                _ => (GameState::Running, Effect::Nothing),
            },
        }
    }
}

impl Default for GameState {
    fn default() -> (s: Self)
        ensures
            s == GameState::MainMenu,
    {
        GameState::MainMenu
    }
}

/// The owner of the current screen state, handed to every per-frame handler.
#[derive(Clone, Copy, Debug)]
pub struct StateResource {
    pub state: GameState,
}

impl StateResource {
    /// The state holder as it is at startup.
    pub fn new() -> (r: Self)
        ensures
            r.state == GameState::MainMenu,
    {
        StateResource { state: GameState::MainMenu }
    }

    /// The screen the client is on.
    pub fn current_state(&self) -> (s: GameState)
        ensures
            s == self.state,
    {
        self.state
    }

    /// Applies the transition table to one trigger and returns the effect.
    /// A trigger that the current state does not react to changes nothing.
    pub fn request_transition(&mut self, t: Trigger) -> (e: Effect)
        ensures
            final(self).state == old(self).state.next(t),
            e == old(self).state.effect(t),
    {
        let (next, effect) = self.state.step(t);
        self.state = next;
        effect
    }
}

impl Default for StateResource {
    fn default() -> (r: Self)
        ensures
            r.state == GameState::MainMenu,
    {
        StateResource::new()
    }
}

/// A trigger that ends the process leaves the state as it was, and only the
/// main menu reacts to one.
pub proof fn lemma_terminate_keeps_state(s: GameState, t: Trigger)
    ensures
        s.effect(t) == Effect::Terminate <==> s == GameState::MainMenu && t.is_exit(),
        s.effect(t) == Effect::Terminate ==> s.next(t) == s,
{
}

/// "Start" leads to the running screen from every state: it enters it from
/// the menu and changes nothing where the game already runs.
pub proof fn lemma_start_runs(s: GameState)
    ensures
        s.next(Trigger::Start) == GameState::Running,
        s.effect(Trigger::Start) == Effect::Nothing,
{
}

/// F1 leads to the main menu from every state: it leaves the running screen
/// and changes nothing where the menu is already shown.
pub proof fn lemma_f1_shows_menu(s: GameState)
    ensures
        s.next(Trigger::F1) == GameState::MainMenu,
        s.effect(Trigger::F1) == Effect::Nothing,
{
}

/// "Settings" is accepted and has no consequence in any state.
pub proof fn lemma_settings_is_inert(s: GameState)
    ensures
        s.next(Trigger::Settings) == s,
        s.effect(Trigger::Settings) == Effect::Nothing,
{
}

} // verus!
