//! The per-frame handlers: which screen is drawn for a state, and what the
//! interaction sampled in a frame does to the state.

use vstd::prelude::*;
use crate::history::fold_state;
use crate::state::{Effect, GameState, StateResource, Trigger};

verus! {

/// One of the two layouts that a frame can show.
#[derive(Clone, Copy, PartialEq, Eq, Structural, Debug)]
pub enum Screen {
    /// The side panel with the title and the three actionable labels.
    MenuPanel,
    /// The full-panel overlay with the centered placeholder label.
    PlayingOverlay,
}

/// An actionable label of the menu panel.
#[derive(Clone, Copy, PartialEq, Eq, Structural, Debug)]
pub enum MenuAction {
    Start,
    Settings,
    Quit,
}

impl MenuAction {
    /// The trigger that activating this label raises.
    pub open spec fn spec_trigger(self) -> Trigger {
        match self {
            MenuAction::Start => Trigger::Start,
            MenuAction::Settings => Trigger::Settings,
            MenuAction::Quit => Trigger::Quit,
        }
    }

    /// The text of this label.
    pub open spec fn spec_label(self) -> Seq<char> {
        match self {
            MenuAction::Start => "Start"@,
            MenuAction::Settings => "Settings"@,
            MenuAction::Quit => "Quit"@,
        }
    }

    /// The trigger that activating this label raises.
    pub fn trigger(self) -> (t: Trigger)
        ensures
            t == self.spec_trigger(),
    {
        match self {
            MenuAction::Start => Trigger::Start,
            MenuAction::Settings => Trigger::Settings,
            MenuAction::Quit => Trigger::Quit,
        }
    }

    /// The text of this label.
    pub fn label(self) -> (text: &'static str)
        ensures
            text@ == self.spec_label(),
    {
        match self {
            MenuAction::Start => "Start",
            MenuAction::Settings => "Settings",
            MenuAction::Quit => "Quit",
        }
    }
}

impl Screen {
    /// The screen that is drawn for `state`.
    pub open spec fn of(state: GameState) -> Screen {
        match state {
            GameState::MainMenu => Screen::MenuPanel,
            GameState::Running => Screen::PlayingOverlay,
        }
    }

    /// Whether the menu presenter draws in a pass that shows this screen.
    pub open spec fn shows_menu(self) -> bool {
        self == Screen::MenuPanel
    }

    /// Whether the running presenter draws in a pass that shows this screen.
    pub open spec fn shows_overlay(self) -> bool {
        self == Screen::PlayingOverlay
    }

    /// The clickable labels of this screen, from top to bottom.
    pub open spec fn spec_actions(self) -> Seq<MenuAction> {
        match self {
            Screen::MenuPanel => seq![MenuAction::Start, MenuAction::Settings, MenuAction::Quit],
            Screen::PlayingOverlay => Seq::empty(),
        }
    }

    /// The text of the large label of this screen.
    pub open spec fn spec_title(self) -> Seq<char> {
        match self {
            Screen::MenuPanel => "MY AWESOME GAME"@,
            Screen::PlayingOverlay => "PLAYING GAME!"@,
        }
    }

    /// The screen that is drawn for `state`.
    pub fn for_state(state: GameState) -> (screen: Screen)
        ensures
            screen == Screen::of(state),
    {
        match state {
            GameState::MainMenu => Screen::MenuPanel,
            GameState::Running => Screen::PlayingOverlay,
        }
    }

    /// The clickable labels of this screen, from top to bottom: three on the
    /// menu panel, none on the overlay.
    pub fn actions(self) -> (labels: Vec<MenuAction>)
        ensures
            labels@ == self.spec_actions(),
    {
        let mut labels: Vec<MenuAction> = Vec::new();
        match self {
            Screen::MenuPanel => {
                labels.push(MenuAction::Start);
                labels.push(MenuAction::Settings);
                labels.push(MenuAction::Quit);
            },
            Screen::PlayingOverlay => {},
        }
        proof {
            assert(labels@ =~= self.spec_actions());
        }
        labels
    }

    /// The text of the large label of this screen.
    pub fn title(self) -> (text: &'static str)
        ensures
            text@ == self.spec_title(),
    {
        match self {
            Screen::MenuPanel => "MY AWESOME GAME",
            Screen::PlayingOverlay => "PLAYING GAME!",
        }
    }
}

/// What the menu panel saw in one frame.
#[derive(Clone, Copy, Debug)]
pub struct MenuInput {
    pub start_clicked: bool,
    pub settings_clicked: bool,
    pub quit_clicked: bool,
    pub escape_pressed: bool,
}

impl MenuInput {
    /// The trigger that the menu panel raises for this input, if any. A
    /// request to end the process goes first, so that nothing is changed
    /// before the process ends.
    pub open spec fn spec_trigger(self) -> Option<Trigger> {
        if self.quit_clicked {
            Some(Trigger::Quit)
        } else if self.escape_pressed {
            Some(Trigger::Escape)
        } else if self.start_clicked {
            Some(Trigger::Start)
        } else if self.settings_clicked {
            Some(Trigger::Settings)
        } else {
            None
        }
    }

    /// This input with the flag of `action` set to `clicked` and every other
    /// flag as it is.
    pub open spec fn with_click(self, action: MenuAction, clicked: bool) -> MenuInput {
        match action {
            MenuAction::Start => MenuInput { start_clicked: clicked, ..self },
            MenuAction::Settings => MenuInput { settings_clicked: clicked, ..self },
            MenuAction::Quit => MenuInput { quit_clicked: clicked, ..self },
        }
    }

    /// The triggers of this input as a history: one trigger or none.
    pub open spec fn triggers(self) -> Seq<Trigger> {
        match self.spec_trigger() {
            Some(t) => seq![t],
            None => Seq::empty(),
        }
    }

    /// An input in which nothing happened.
    pub fn idle() -> (input: Self)
        ensures
            !input.start_clicked,
            !input.settings_clicked,
            !input.quit_clicked,
            !input.escape_pressed,
    {
        MenuInput {
            start_clicked: false,
            settings_clicked: false,
            quit_clicked: false,
            escape_pressed: false,
        }
    }

    /// Records whether the label of `action` was clicked in this frame: sets
    /// the flag of that label and leaves the others.
    pub fn record_click(&mut self, action: MenuAction, clicked: bool)
        ensures
            *final(self) == old(self).with_click(action, clicked),
    {
        match action {
            MenuAction::Start => {
                self.start_clicked = clicked;
            },
            MenuAction::Settings => {
                self.settings_clicked = clicked;
            },
            MenuAction::Quit => {
                self.quit_clicked = clicked;
            },
        }
    }

    /// The trigger that the menu panel raises for this input, if any.
    pub fn trigger(&self) -> (t: Option<Trigger>)
        ensures
            t == self.spec_trigger(),
    {
        if self.quit_clicked {
            Some(Trigger::Quit)
        } else if self.escape_pressed {
            Some(Trigger::Escape)
        } else if self.start_clicked {
            Some(Trigger::Start)
        } else if self.settings_clicked {
            Some(Trigger::Settings)
        } else {
            None
        }
    }
}

/// What the host sampled for one frame.
#[derive(Clone, Copy, Debug)]
pub struct FrameInput {
    /// Whether F1 went down in this frame.
    pub f1_pressed: bool,
    /// What the menu panel saw, where it was drawn.
    pub menu: MenuInput,
}

impl FrameInput {
    /// The triggers of this frame in the order in which the handlers raise
    /// them: the keyboard shortcut, then the menu panel.
    pub open spec fn triggers(self) -> Seq<Trigger> {
        if self.f1_pressed {
            seq![Trigger::F1] + self.menu.triggers()
        } else {
            self.menu.triggers()
        }
    }
}

/// What one frame showed and asks of the host.
#[derive(Clone, Copy, Debug)]
pub struct Frame {
    /// The one screen that was drawn.
    pub screen: Screen,
    /// What the host has to do before the next frame.
    pub effect: Effect,
}

/// The state after the keyboard shortcut handler.
pub open spec fn after_shortcuts(s: GameState, f1_pressed: bool) -> GameState {
    if f1_pressed {
        s.next(Trigger::F1)
    } else {
        s
    }
}

/// The state after the menu handler, in a pass that shows `shown`.
pub open spec fn after_menu(s: GameState, shown: Screen, input: MenuInput) -> GameState {
    match input.spec_trigger() {
        Some(t) => if shown.shows_menu() {
            s.next(t)
        } else {
            s
        },
        None => s,
    }
}

/// The effect of the menu handler, in a pass that shows `shown`.
pub open spec fn menu_effect(s: GameState, shown: Screen, input: MenuInput) -> Effect {
    match input.spec_trigger() {
        Some(t) => if shown.shows_menu() {
            s.effect(t)
        } else {
            Effect::Nothing
        },
        None => Effect::Nothing,
    }
}

/// The keyboard shortcut handler: F1 leaves the running screen for the menu.
pub fn game_state_shortcuts(state: &mut StateResource, f1_pressed: bool)
    ensures
        final(state).state == after_shortcuts(old(state).state, f1_pressed),
{
    if state.current_state() == GameState::Running && f1_pressed {
        state.request_transition(Trigger::F1);
    }
}

/// The menu handler. `shown` is the screen that was read when the draw pass
/// began. The handler acts only in a pass that shows the menu: "Start" enters
/// the running screen, "Quit" and Escape ask the host to end the process and
/// leave the state alone, "Settings" does nothing. What it writes is shown
/// from the next pass on.
pub fn ui_main_menu(
    state: &mut StateResource,
    shown: Screen,
    input: MenuInput,
) -> (effect: Effect)
    ensures
        final(state).state == after_menu(old(state).state, shown, input),
        effect == menu_effect(old(state).state, shown, input),
{
    if shown != Screen::MenuPanel {
        return Effect::Nothing;
    }
    match input.trigger() {
        Some(t) => state.request_transition(t),
        None => Effect::Nothing,
    }
}

/// The handler of the running screen: whether the overlay is drawn. `shown`
/// is the screen that was read when the draw pass began, so that a state
/// written earlier in the same pass is not drawn before the next one.
pub fn ui_running(shown: Screen) -> (drawn: bool)
    ensures
        drawn == shown.shows_overlay(),
{
    shown == Screen::PlayingOverlay
}

/// One frame: the keyboard shortcut, then one read of the screen for the draw
/// pass, then the menu handler on what that screen saw.
pub fn run_frame(state: &mut StateResource, input: FrameInput) -> (frame: Frame)
    ensures
        frame.screen == Screen::of(after_shortcuts(old(state).state, input.f1_pressed)),
        frame.effect == menu_effect(
            after_shortcuts(old(state).state, input.f1_pressed),
            frame.screen,
            input.menu,
        ),
        final(state).state == after_menu(
            after_shortcuts(old(state).state, input.f1_pressed),
            frame.screen,
            input.menu,
        ),
{
    game_state_shortcuts(state, input.f1_pressed);
    let screen = Screen::for_state(state.current_state());
    let effect = ui_main_menu(state, screen, input.menu);
    Frame { screen, effect }
}

/// For every state exactly one of the two screens is drawn: the menu panel
/// on the main menu, the overlay while the game runs.
pub proof fn lemma_one_screen(s: GameState)
    ensures
        (Screen::of(s) == Screen::MenuPanel) != (Screen::of(s) == Screen::PlayingOverlay),
        Screen::of(s) == Screen::MenuPanel <==> s == GameState::MainMenu,
        Screen::of(s) == Screen::PlayingOverlay <==> s == GameState::Running,
{
}

/// One draw pass draws exactly one screen, whatever the menu sees in it: the
/// screen of the state that the pass began with. A state that the menu handler
/// writes in the pass is the one that the next pass begins with.
pub proof fn lemma_one_screen_per_pass(s: GameState, input: MenuInput)
    ensures
        Screen::of(s).shows_menu() != Screen::of(s).shows_overlay(),
        Screen::of(s).shows_menu() <==> s == GameState::MainMenu,
        Screen::of(s).shows_overlay() <==> s == GameState::Running,
        ({
            let written = after_menu(s, Screen::of(s), input);
            s == GameState::MainMenu && written == GameState::Running
                ==> !Screen::of(s).shows_overlay() && Screen::of(written).shows_overlay()
        }),
{
}

/// In a pass that does not show the menu, the menu handler changes nothing
/// and asks for nothing, whatever input it is handed.
pub proof fn lemma_menu_idle_off_screen(s: GameState, shown: Screen, input: MenuInput)
    requires
        !shown.shows_menu(),
    ensures
        after_menu(s, shown, input) == s,
        menu_effect(s, shown, input) == Effect::Nothing,
{
}

/// A click on one label alone raises the trigger of that label, and a label
/// that was not clicked raises none.
pub proof fn lemma_single_click(input: MenuInput, action: MenuAction)
    requires
        !input.start_clicked,
        !input.settings_clicked,
        !input.quit_clicked,
        !input.escape_pressed,
    ensures
        input.with_click(action, true).spec_trigger() == Some(action.spec_trigger()),
        input.with_click(action, false).spec_trigger() == None::<Trigger>,
{
}

/// Only the menu panel offers labels to click, and each of them raises a
/// trigger that the running screen does not react to.
pub proof fn lemma_labels_belong_to_menu(s: GameState, i: int)
    requires
        0 <= i < Screen::of(s).spec_actions().len(),
    ensures
        s == GameState::MainMenu,
        GameState::Running.next(Screen::of(s).spec_actions()[i].spec_trigger())
            == GameState::Running,
{
}

/// The state that a frame ends in is the state machine folded over the
/// frame's triggers: the handlers' guards add nothing to the table.
pub proof fn lemma_frame_is_fold(s: GameState, input: FrameInput)
    ensures
        after_menu(
            after_shortcuts(s, input.f1_pressed),
            Screen::of(after_shortcuts(s, input.f1_pressed)),
            input.menu,
        ) == fold_state(s, input.triggers()),
{
    let menu = input.menu.triggers();
    let mid = after_shortcuts(s, input.f1_pressed);
    assert(fold_state(mid, menu) == after_menu(mid, Screen::of(mid), input.menu)) by {
        if menu.len() > 0 {
            assert(fold_state(mid, menu.drop_last()) == mid);
        }
    }
    if input.f1_pressed {
        let head = seq![Trigger::F1];
        assert(fold_state(s, head) == mid) by {
            assert(fold_state(s, head.drop_last()) == s);
        }
        crate::history::lemma_fold_concat(s, head, menu);
    }
}

/// A frame that asks to end the process has not touched the state since the
/// keyboard shortcut ran.
pub proof fn lemma_terminate_frame(s: GameState, input: FrameInput)
    requires
        menu_effect(
            after_shortcuts(s, input.f1_pressed),
            Screen::of(after_shortcuts(s, input.f1_pressed)),
            input.menu,
        ) == Effect::Terminate,
    ensures
        after_shortcuts(s, input.f1_pressed) == GameState::MainMenu,
        after_menu(
            after_shortcuts(s, input.f1_pressed),
            Screen::of(after_shortcuts(s, input.f1_pressed)),
            input.menu,
        ) == GameState::MainMenu,
        input.menu.quit_clicked || input.menu.escape_pressed,
{
}

} // verus!
