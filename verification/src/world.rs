use vstd::prelude::*;
use crate::color::ButtonColors;
use crate::color::spec_button_colors;
use crate::geom::Vec2i;
use crate::geom::Vec3i;
use crate::menu::ButtonEvent;
use crate::menu::MenuScene;
use crate::menu::apply_color_writes;
use crate::menu::cleanup_menu;
use crate::menu::click_play_button;
use crate::menu::ButtonKind;
use crate::menu::lemma_apply_writes_backgrounds;
use crate::menu::lemma_apply_writes_keeps_wf;
use crate::menu::lemma_color_writes_use_palette;
use crate::menu::menu_scene_shape;
use crate::menu::spec_bg_after;
use crate::menu::menu_scene_initial;
use crate::menu::menu_scene_wf;
use crate::menu::setup_menu;
use crate::menu::spec_color_writes;
use crate::menu::spec_fullscreen_clicked;
use crate::menu::spec_mode_after;
use crate::menu::spec_play_clicked;
use crate::phase::Phase;
use crate::phase::PhaseController;
use crate::player::PlayerScene;
use crate::player::change_sprite;
use crate::player::move_player;
use crate::player::player_wf;
use crate::player::spawn_player;
use crate::player::spec_cycled_frame;
use crate::player::spec_is_centered;
use crate::player::spec_materials_grid;
use crate::player::update_mouse_location;
use crate::window::WindowMode;
use crate::window::WindowPos;
use crate::window::WindowSize;

verus! {

/// Everything the application owns: the phase state machine, the palette,
/// the scene of whichever phase is current, the cursor in world
/// coordinates, and the window mode.
pub struct GameWorld {
    pub controller: PhaseController,
    pub colors: ButtonColors,
    pub menu: Option<MenuScene>,
    pub player: Option<PlayerScene>,
    pub cursor: Vec2i,
    pub mode: WindowMode,
}

/// Everything the framework delivers for one tick: the primary window's
/// size if one exists, the cursor-moved events in order, the buttons whose
/// interaction state changed, and the arrow-key press edges.
pub struct TickInput {
    pub window: Option<WindowSize>,
    pub cursor_events: Vec<WindowPos>,
    pub changed_buttons: Vec<ButtonEvent>,
    pub left_pressed: bool,
    pub right_pressed: bool,
}

impl GameWorld {
    /// Phase exclusivity: while in `Menu` the menu entities are up and no
    /// player exists; while in `Playing` the menu is gone and exactly one
    /// player exists.
    pub open spec fn phase_exclusive(self) -> bool {
        match self.controller.current {
            Phase::Menu => self.menu is Some && self.player is None,
            Phase::Playing => self.menu is None && self.player is Some,
        }
    }

    /// The invariant every tick preserves: a lawful controller, phase
    /// exclusivity, a well-formed menu while it is up, and during `Playing`
    /// the materials atlas with a frame index valid against it.
    pub open spec fn wf(self) -> bool {
        &&& self.controller.wf()
        &&& self.phase_exclusive()
        &&& (self.controller.current is Menu ==> (self.menu matches Some(s) && menu_scene_wf(
            s,
            self.colors,
        )))
        &&& (self.controller.current is Playing ==> (self.player matches Some(ps) && ps.grid
            == spec_materials_grid() && player_wf(ps.player, ps.grid) && ps.player.scale_milli
            == 4000))
    }

    /// The phase the world is in once the transition step of a tick has run.
    pub open spec fn spec_phase_after_transition(self) -> Phase {
        match self.controller.pending {
            Some(p) => p,
            None => self.controller.current,
        }
    }

    /// Boot: phase `Menu` with nothing pending, the default palette, the
    /// menu built, no player, the cursor at the origin, a windowed window.
    pub fn new() -> (w: GameWorld)
        ensures
            w.wf(),
            w.controller == (PhaseController { current: Phase::Menu, pending: None }),
            w.colors == spec_button_colors(),
            w.menu matches Some(s) && menu_scene_initial(s, spec_button_colors()),
            w.player is None,
            w.cursor == (Vec2i { x: 0, y: 0 }),
            w.mode == WindowMode::Windowed,
    {
        let colors = ButtonColors::default();
        let scene = setup_menu(&colors);
        GameWorld {
            controller: PhaseController::new(),
            colors,
            menu: Some(scene),
            player: None,
            cursor: Vec2i::zero(),
            mode: WindowMode::Windowed,
        }
    }
}

/// What one tick does, in full. `w0` is the world before, `w1` after.
///
/// The tick first applies the transition requested last tick, running the
/// exit hooks of the old phase before the enter hooks of the new one; then
/// the cursor tracker; then the update hooks of the now-current phase. A
/// `Playing` request from a Play click takes effect only next tick.
pub open spec fn spec_ticked(w0: GameWorld, w1: GameWorld, input: TickInput) -> bool {
    let cur = w0.spec_phase_after_transition();
    let transitioned = w0.controller.pending is Some;
    let evs = input.changed_buttons@;
    &&& w1.controller.current == cur
    &&& (cur is Menu && spec_play_clicked(evs) ==> w1.controller.pending == Some(Phase::Playing))
    &&& (!(cur is Menu && spec_play_clicked(evs)) ==> w1.controller.pending is None)
    &&& w1.colors == w0.colors
    // The cursor tracker: no window or no event leaves the position alone;
    // otherwise the last event of the tick, re-centered.
    &&& (input.window is None ==> w1.cursor == w0.cursor)
    &&& (input.cursor_events@.len() == 0 ==> w1.cursor == w0.cursor)
    &&& (input.window matches Some(ws) ==> (input.cursor_events@.len() > 0 ==> spec_is_centered(
        w1.cursor,
        input.cursor_events@.last(),
        ws,
    )))
    &&& match cur {
        Phase::Menu => {
            let ws = spec_color_writes(w0.colors, evs);
            let base_play = if transitioned {
                w0.colors.normal
            } else {
                match w0.menu {
                    Some(s0) => s0.play_button.background,
                    None => w0.colors.normal,
                }
            };
            let base_fullscreen = if transitioned {
                w0.colors.normal
            } else {
                match w0.menu {
                    Some(s0) => s0.fullscreen_button.background,
                    None => w0.colors.normal,
                }
            };
            &&& w1.player is None
            &&& w1.mode == spec_mode_after(w0.mode, evs)
            &&& (w1.menu matches Some(s1) && menu_scene_shape(s1)
                && s1.play_button.background == spec_bg_after(base_play, ws, ButtonKind::Play)
                && s1.fullscreen_button.background == spec_bg_after(
                base_fullscreen,
                ws,
                ButtonKind::Fullscreen,
            ))
        },
        Phase::Playing => {
            &&& w1.menu is None
            &&& w1.mode == w0.mode
            &&& (w1.player matches Some(ps1) && {
                let start: int = if transitioned {
                    0
                } else {
                    match w0.player {
                        Some(ps0) => ps0.player.frame_index as int,
                        None => 0,
                    }
                };
                &&& ps1.grid == spec_materials_grid()
                &&& ps1.player.scale_milli == 4000
                &&& ps1.player.translation == (Vec3i { x: w1.cursor.x, y: w1.cursor.y, z: 0 })
                &&& ps1.player.frame_index == spec_cycled_frame(
                    start,
                    spec_materials_grid().spec_frame_count(),
                    input.left_pressed,
                    input.right_pressed,
                )
            })
        },
    }
}

impl GameWorld {
    /// One frame of the main loop. A fullscreen click with no primary
    /// window is fatal in the application, so that input is left out here.
    pub fn tick(&mut self, input: &TickInput)
        requires
            old(self).wf(),
            old(self).spec_phase_after_transition() is Menu && spec_fullscreen_clicked(
                input.changed_buttons@,
            ) ==> input.window is Some,
        ensures
            final(self).wf(),
            spec_ticked(*old(self), *final(self), *input),
    {
        // The transition requested last tick: all exit hooks of the old
        // phase, then all enter hooks of the new one.
        let transition = self.controller.begin_tick();
        match transition {
            Some((exited, entered)) => {
                match exited {
                    Phase::Menu => {
                        cleanup_menu(&mut self.menu);
                    },
                    Phase::Playing => {
                        self.player = None;
                    },
                }
                match entered {
                    Phase::Menu => {
                        let scene = setup_menu(&self.colors);
                        self.menu = Some(scene);
                    },
                    Phase::Playing => {
                        self.player = Some(spawn_player());
                    },
                }
            },
            None => {},
        }
        // The cursor tracker runs every tick, whatever the phase.
        self.cursor = update_mouse_location(self.cursor, input.window, &input.cursor_events);
        // The update hooks of the current phase.
        match self.controller.current {
            Phase::Menu => {
                let outcome = click_play_button(&self.colors, self.mode, &input.changed_buttons);
                proof {
                    lemma_color_writes_use_palette(self.colors, input.changed_buttons@);
                }
                match &mut self.menu {
                    Some(scene) => {
                        let ghost pre = *scene;
                        proof {
                            lemma_apply_writes_keeps_wf(
                                pre,
                                self.colors,
                                spec_color_writes(self.colors, input.changed_buttons@),
                            );
                            lemma_apply_writes_backgrounds(
                                pre,
                                spec_color_writes(self.colors, input.changed_buttons@),
                            );
                        }
                        apply_color_writes(scene, &outcome.color_writes);
                    },
                    None => {
                        proof {
                            assert(false);
                        }
                    },
                }
                self.mode = outcome.mode;
                if outcome.play_requested {
                    self.controller.request(Phase::Playing);
                }
            },
            Phase::Playing => {
                let cursor = self.cursor;
                match &mut self.player {
                    Some(ps) => {
                        let grid = ps.grid;
                        move_player(&mut ps.player, cursor);
                        change_sprite(&mut ps.player, &grid, input.left_pressed, input.right_pressed);
                    },
                    None => {
                        proof {
                            assert(false);
                        }
                    },
                }
            },
        }
    }
}

} // verus!
