use cursor_chase::color::ButtonColors;
use cursor_chase::color::Rgb;
use cursor_chase::menu::apply_color_writes;
use cursor_chase::menu::click_play_button;
use cursor_chase::menu::setup_menu;
use cursor_chase::menu::ButtonEvent;
use cursor_chase::menu::ButtonKind;
use cursor_chase::menu::ColorWrite;
use cursor_chase::menu::Interaction;
use cursor_chase::window::WindowMode;

fn gray(level: u16) -> Rgb {
    Rgb { red: level, green: level, blue: level }
}

#[test]
fn default_palette() {
    let colors = ButtonColors::default();
    assert_eq!(colors.normal, gray(150));
    assert_eq!(colors.hovered, gray(250));
}

#[test]
fn menu_scene_layout() {
    let colors = ButtonColors::default();
    let scene = setup_menu(&colors);
    assert_eq!(scene.camera.fixed_vertical, 720);
    assert_eq!(scene.play_button.kind, ButtonKind::Play);
    assert_eq!(scene.play_button.width_px, 120);
    assert_eq!(scene.play_button.height_px, 50);
    assert_eq!(scene.play_button.label, "Play");
    assert_eq!(scene.play_button.font_size_px, 40);
    assert_eq!(scene.play_button.text_color, gray(900));
    assert_eq!(scene.play_button.background, colors.normal);
    assert_eq!(scene.fullscreen_button.kind, ButtonKind::Fullscreen);
    assert_eq!(scene.fullscreen_button.width_px, 350);
    assert_eq!(scene.fullscreen_button.height_px, 50);
    assert_eq!(scene.fullscreen_button.label, "Toggle Fullscreen");
    assert_eq!(scene.fullscreen_button.font_size_px, 40);
    assert_eq!(scene.fullscreen_button.text_color, gray(900));
    assert_eq!(scene.fullscreen_button.background, colors.normal);
    assert_eq!(scene.title.scale_milli, 500);
}

#[test]
fn play_click_requests_playing_and_paints_nothing() {
    let colors = ButtonColors::default();
    let changed = vec![ButtonEvent { button: ButtonKind::Play, interaction: Interaction::Clicked }];
    let outcome = click_play_button(&colors, WindowMode::Windowed, &changed);
    assert!(outcome.play_requested);
    assert_eq!(outcome.mode, WindowMode::Windowed);
    assert_eq!(outcome.color_writes.len(), 0);
}

#[test]
fn fullscreen_click_toggles_mode() {
    let colors = ButtonColors::default();
    let changed =
        vec![ButtonEvent { button: ButtonKind::Fullscreen, interaction: Interaction::Clicked }];
    let outcome = click_play_button(&colors, WindowMode::Windowed, &changed);
    assert!(!outcome.play_requested);
    assert_eq!(outcome.mode, WindowMode::BorderlessFullscreen);
    assert_eq!(outcome.color_writes.len(), 0);
    let outcome = click_play_button(&colors, WindowMode::BorderlessFullscreen, &changed);
    assert_eq!(outcome.mode, WindowMode::Windowed);
}

#[test]
fn hover_and_leave_paint_palette_colors() {
    let colors = ButtonColors::default();
    let changed = vec![
        ButtonEvent { button: ButtonKind::Play, interaction: Interaction::Hovered },
        ButtonEvent { button: ButtonKind::Fullscreen, interaction: Interaction::Idle },
    ];
    let outcome = click_play_button(&colors, WindowMode::Windowed, &changed);
    assert!(!outcome.play_requested);
    assert_eq!(outcome.mode, WindowMode::Windowed);
    assert_eq!(
        outcome.color_writes,
        vec![
            ColorWrite { button: ButtonKind::Play, color: colors.hovered },
            ColorWrite { button: ButtonKind::Fullscreen, color: colors.normal },
        ]
    );
}

#[test]
fn unchanged_buttons_cause_no_writes() {
    let colors = ButtonColors::default();
    let mut scene = setup_menu(&colors);
    // A hover is painted once...
    let changed = vec![ButtonEvent { button: ButtonKind::Play, interaction: Interaction::Hovered }];
    let outcome = click_play_button(&colors, WindowMode::Windowed, &changed);
    apply_color_writes(&mut scene, &outcome.color_writes);
    assert_eq!(scene.play_button.background, colors.hovered);
    // ...and ticks in which nothing changed paint nothing at all.
    let changed: Vec<ButtonEvent> = Vec::new();
    let outcome = click_play_button(&colors, WindowMode::Windowed, &changed);
    assert_eq!(outcome.color_writes.len(), 0);
    apply_color_writes(&mut scene, &outcome.color_writes);
    assert_eq!(scene.play_button.background, colors.hovered);
    assert_eq!(scene.fullscreen_button.background, colors.normal);
}

#[test]
fn two_fullscreen_clicks_in_one_tick_cancel() {
    let colors = ButtonColors::default();
    let changed = vec![
        ButtonEvent { button: ButtonKind::Fullscreen, interaction: Interaction::Clicked },
        ButtonEvent { button: ButtonKind::Fullscreen, interaction: Interaction::Clicked },
    ];
    let outcome = click_play_button(&colors, WindowMode::Windowed, &changed);
    assert_eq!(outcome.mode, WindowMode::Windowed);
}
