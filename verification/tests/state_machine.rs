use game_menu::state::{Effect, GameState, StateResource, Trigger};

const ALL_TRIGGERS: [Trigger; 5] =
    [Trigger::Start, Trigger::Settings, Trigger::Quit, Trigger::Escape, Trigger::F1];

#[test]
fn initial_state_is_main_menu() {
    assert_eq!(StateResource::new().current_state(), GameState::MainMenu);
    assert_eq!(StateResource::default().current_state(), GameState::MainMenu);
    assert_eq!(GameState::default(), GameState::MainMenu);
}

#[test]
fn start_from_menu_enters_running() {
    let mut holder = StateResource::new();
    let effect = holder.request_transition(Trigger::Start);
    assert_eq!(effect, Effect::Nothing);
    assert_eq!(holder.current_state(), GameState::Running);
}

#[test]
fn start_while_running_changes_nothing() {
    let mut holder = StateResource::new();
    holder.request_transition(Trigger::Start);
    let effect = holder.request_transition(Trigger::Start);
    assert_eq!(effect, Effect::Nothing);
    assert_eq!(holder.current_state(), GameState::Running);
}

#[test]
fn f1_in_menu_changes_nothing() {
    let mut holder = StateResource::new();
    let effect = holder.request_transition(Trigger::F1);
    assert_eq!(effect, Effect::Nothing);
    assert_eq!(holder.current_state(), GameState::MainMenu);
}

#[test]
fn f1_while_running_returns_to_menu() {
    let mut holder = StateResource { state: GameState::Running };
    let effect = holder.request_transition(Trigger::F1);
    assert_eq!(effect, Effect::Nothing);
    assert_eq!(holder.current_state(), GameState::MainMenu);
}

#[test]
fn quit_in_menu_terminates_and_keeps_state() {
    let mut holder = StateResource::new();
    let effect = holder.request_transition(Trigger::Quit);
    assert_eq!(effect, Effect::Terminate);
    assert_eq!(holder.current_state(), GameState::MainMenu);
}

#[test]
fn escape_in_menu_terminates_and_keeps_state() {
    let mut holder = StateResource::new();
    let effect = holder.request_transition(Trigger::Escape);
    assert_eq!(effect, Effect::Terminate);
    assert_eq!(holder.current_state(), GameState::MainMenu);
}

#[test]
fn quit_and_escape_while_running_are_ignored() {
    for t in [Trigger::Quit, Trigger::Escape] {
        let mut holder = StateResource { state: GameState::Running };
        let effect = holder.request_transition(t);
        assert_eq!(effect, Effect::Nothing);
        assert_eq!(holder.current_state(), GameState::Running);
    }
}

#[test]
fn settings_is_a_no_op_in_both_states() {
    for s in [GameState::MainMenu, GameState::Running] {
        let mut holder = StateResource { state: s };
        let effect = holder.request_transition(Trigger::Settings);
        assert_eq!(effect, Effect::Nothing);
        assert_eq!(holder.current_state(), s);
    }
}

#[test]
fn step_matches_the_whole_table() {
    let (menu, running) = (GameState::MainMenu, GameState::Running);
    let (nothing, terminate) = (Effect::Nothing, Effect::Terminate);
    let expected = [
        (menu, Trigger::Start, running, nothing),
        (menu, Trigger::Settings, menu, nothing),
        (menu, Trigger::Quit, menu, terminate),
        (menu, Trigger::Escape, menu, terminate),
        (menu, Trigger::F1, menu, nothing),
        (running, Trigger::Start, running, nothing),
        (running, Trigger::Settings, running, nothing),
        (running, Trigger::Quit, running, nothing),
        (running, Trigger::Escape, running, nothing),
        (running, Trigger::F1, menu, nothing),
    ];
    for (from, t, to, effect) in expected {
        assert_eq!(from.step(t), (to, effect));
    }
}

#[test]
fn terminate_never_comes_with_a_state_change() {
    for s in [GameState::MainMenu, GameState::Running] {
        for t in ALL_TRIGGERS {
            let (next, effect) = s.step(t);
            if effect == Effect::Terminate {
                assert_eq!(next, s);
                assert_eq!(s, GameState::MainMenu);
                assert!(t == Trigger::Quit || t == Trigger::Escape);
            }
        }
    }
}

#[test]
fn request_transition_agrees_with_step() {
    for s in [GameState::MainMenu, GameState::Running] {
        for t in ALL_TRIGGERS {
            let mut holder = StateResource { state: s };
            let effect = holder.request_transition(t);
            assert_eq!((holder.current_state(), effect), s.step(t));
        }
    }
}
