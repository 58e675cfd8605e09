use cursor_chase::phase::Phase;
use cursor_chase::phase::PhaseController;
use cursor_chase::window::WindowMode;

#[test]
fn controller_starts_in_menu() {
    let c = PhaseController::new();
    assert_eq!(c.current, Phase::Menu);
    assert_eq!(c.pending, None);
}

#[test]
fn requesting_current_phase_is_a_no_op() {
    let mut c = PhaseController::new();
    c.request(Phase::Menu);
    assert_eq!(c.pending, None);
    assert_eq!(c.begin_tick(), None);
    assert_eq!(c.current, Phase::Menu);
}

#[test]
fn requested_transition_runs_next_tick() {
    let mut c = PhaseController::new();
    c.request(Phase::Playing);
    assert_eq!(c.current, Phase::Menu);
    assert_eq!(c.pending, Some(Phase::Playing));
    assert_eq!(c.begin_tick(), Some((Phase::Menu, Phase::Playing)));
    assert_eq!(c.current, Phase::Playing);
    assert_eq!(c.pending, None);
}

#[test]
fn requesting_current_phase_keeps_earlier_request() {
    let mut c = PhaseController::new();
    c.request(Phase::Playing);
    c.request(Phase::Menu);
    assert_eq!(c.pending, Some(Phase::Playing));
}

#[test]
fn window_mode_toggles_both_ways() {
    assert_eq!(WindowMode::Windowed.toggled(), WindowMode::BorderlessFullscreen);
    assert_eq!(WindowMode::BorderlessFullscreen.toggled(), WindowMode::Windowed);
}
