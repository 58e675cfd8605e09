use vstd::prelude::*;
use vstd::string::StringExecFns;
use crate::color::ButtonColors;
use crate::color::Rgb;
use crate::color::spec_text_color;
use crate::window::WindowMode;
use crate::window::spec_toggled;

verus! {

/// Which named button an interaction belongs to.
#[derive(Clone, Copy, PartialEq, Eq, Structural, Debug)]
pub enum ButtonKind {
    Play,
    Fullscreen,
}

/// A button's interaction state as the framework reports it. `Idle` stands
/// for the framework's "no interaction" state.
#[derive(Clone, Copy, PartialEq, Eq, Structural, Debug)]
pub enum Interaction {
    Clicked,
    Hovered,
    Idle,
}

/// The menu's orthographic 2D camera: the visible vertical extent is fixed,
/// in world units; the horizontal extent follows the aspect ratio.
#[derive(Clone, Copy, PartialEq, Eq, Structural, Debug)]
pub struct Camera2d {
    pub fixed_vertical: u32,
}

/// One menu button: its layout in pixels, its background from the palette,
/// and its label text. Font size is in pixels; the text color is in
/// thousandths per channel.
pub struct Button {
    pub kind: ButtonKind,
    pub width_px: u32,
    pub height_px: u32,
    pub background: Rgb,
    pub label: String,
    pub font_size_px: u32,
    pub text_color: Rgb,
}

/// The title image, uniformly scaled; the scale is in thousandths, 500
/// standing for the renderer's 0.5.
#[derive(Clone, Copy, PartialEq, Eq, Structural, Debug)]
pub struct TitleSprite {
    pub scale_milli: u32,
}

/// Everything spawned on entering the menu, all tagged for bulk despawn on
/// exit: the camera, the two buttons (each with its child label text) and
/// the title image.
pub struct MenuScene {
    pub camera: Camera2d,
    pub play_button: Button,
    pub fullscreen_button: Button,
    pub title: TitleSprite,
}

/// The part of the menu that never changes while it is up: everything but
/// the button backgrounds, which hover changes may repaint.
pub open spec fn menu_scene_shape(s: MenuScene) -> bool {
    &&& s.camera.fixed_vertical == 720
    &&& s.play_button.kind == ButtonKind::Play
    &&& s.play_button.width_px == 120
    &&& s.play_button.height_px == 50
    &&& s.play_button.label@ == "Play"@
    &&& s.play_button.font_size_px == 40
    &&& s.play_button.text_color == spec_text_color()
    &&& s.fullscreen_button.kind == ButtonKind::Fullscreen
    &&& s.fullscreen_button.width_px == 350
    &&& s.fullscreen_button.height_px == 50
    &&& s.fullscreen_button.label@ == "Toggle Fullscreen"@
    &&& s.fullscreen_button.font_size_px == 40
    &&& s.fullscreen_button.text_color == spec_text_color()
    &&& s.title.scale_milli == 500
}

/// A freshly built menu: the fixed shape with both backgrounds at the
/// palette's normal color.
pub open spec fn menu_scene_initial(s: MenuScene, colors: ButtonColors) -> bool {
    &&& menu_scene_shape(s)
    &&& s.play_button.background == colors.normal
    &&& s.fullscreen_button.background == colors.normal
}

/// A menu as it may stand on any tick: the fixed shape, each background at
/// one of the two palette colors.
pub open spec fn menu_scene_wf(s: MenuScene, colors: ButtonColors) -> bool {
    &&& menu_scene_shape(s)
    &&& (s.play_button.background == colors.normal || s.play_button.background == colors.hovered)
    &&& (s.fullscreen_button.background == colors.normal || s.fullscreen_button.background
        == colors.hovered)
}

/// Entering the menu: the 720-unit camera, the Play and Toggle Fullscreen
/// buttons with their 40 px labels, and the half-scale title image.
pub fn setup_menu(colors: &ButtonColors) -> (r: MenuScene)
    ensures
        menu_scene_initial(r, *colors),
{
    MenuScene {
        camera: Camera2d { fixed_vertical: 720 },
        play_button: Button {
            kind: ButtonKind::Play,
            width_px: 120,
            height_px: 50,
            background: colors.normal,
            label: String::from_str("Play"),
            font_size_px: 40,
            text_color: Rgb::gray(900),
        },
        fullscreen_button: Button {
            kind: ButtonKind::Fullscreen,
            width_px: 350,
            height_px: 50,
            background: colors.normal,
            label: String::from_str("Toggle Fullscreen"),
            font_size_px: 40,
            text_color: Rgb::gray(900),
        },
        title: TitleSprite { scale_milli: 500 },
    }
}

/// Leaving the menu: every menu-tagged entity, descendants included, is
/// despawned.
pub fn cleanup_menu(menu: &mut Option<MenuScene>)
    ensures
        *final(menu) is None,
{
    *menu = None;
}

/// One button whose interaction state changed this tick. Buttons whose
/// state did not change are never reported.
#[derive(Clone, Copy, PartialEq, Eq, Structural, Debug)]
pub struct ButtonEvent {
    pub button: ButtonKind,
    pub interaction: Interaction,
}

/// A background repaint the menu update decided on.
#[derive(Clone, Copy, PartialEq, Eq, Structural, Debug)]
pub struct ColorWrite {
    pub button: ButtonKind,
    pub color: Rgb,
}

/// Did some changed button deliver a click on Play?
pub open spec fn spec_play_clicked(evs: Seq<ButtonEvent>) -> bool
    decreases evs.len(),
{
    evs.len() > 0 && {
        ||| spec_play_clicked(evs.drop_last())
        ||| evs.last() == (ButtonEvent { button: ButtonKind::Play, interaction: Interaction::Clicked })
    }
}

/// Did some changed button deliver a click on Toggle Fullscreen?
pub open spec fn spec_fullscreen_clicked(evs: Seq<ButtonEvent>) -> bool
    decreases evs.len(),
{
    evs.len() > 0 && {
        ||| spec_fullscreen_clicked(evs.drop_last())
        ||| evs.last() == (ButtonEvent {
            button: ButtonKind::Fullscreen,
            interaction: Interaction::Clicked,
        })
    }
}

/// The window mode after each fullscreen click of the tick, in event order,
/// has toggled it.
pub open spec fn spec_mode_after(m: WindowMode, evs: Seq<ButtonEvent>) -> WindowMode
    decreases evs.len(),
{
    if evs.len() == 0 {
        m
    } else {
        let prev = spec_mode_after(m, evs.drop_last());
        if evs.last() == (ButtonEvent {
            button: ButtonKind::Fullscreen,
            interaction: Interaction::Clicked,
        }) {
            spec_toggled(prev)
        } else {
            prev
        }
    }
}

/// The background repaint one changed interaction causes: hovering paints
/// the hovered color, returning to no interaction paints the normal color,
/// a click paints nothing.
pub open spec fn spec_write_of(colors: ButtonColors, ev: ButtonEvent) -> Option<ColorWrite> {
    match ev.interaction {
        Interaction::Clicked => None,
        Interaction::Hovered => Some(ColorWrite { button: ev.button, color: colors.hovered }),
        Interaction::Idle => Some(ColorWrite { button: ev.button, color: colors.normal }),
    }
}

/// All background repaints of one tick, in event order.
pub open spec fn spec_color_writes(colors: ButtonColors, evs: Seq<ButtonEvent>) -> Seq<ColorWrite>
    decreases evs.len(),
{
    if evs.len() == 0 {
        Seq::empty()
    } else {
        let rest = spec_color_writes(colors, evs.drop_last());
        match spec_write_of(colors, evs.last()) {
            Some(w) => rest.push(w),
            None => rest,
        }
    }
}

/// What one menu-update tick decided: whether Play was clicked, the window
/// mode after any fullscreen toggles, and the background repaints in event
/// order.
pub struct MenuUpdate {
    pub play_requested: bool,
    pub mode: WindowMode,
    pub color_writes: Vec<ColorWrite>,
}

/// The menu's per-tick button dispatch, over the buttons whose interaction
/// state changed this tick: a click on Play asks for the `Playing` phase, a
/// click on Toggle Fullscreen toggles the window mode, a hover change
/// repaints the background. A button whose state did not change is not in
/// `changed` and is not touched, so a button hovered across many ticks is
/// repainted only once.
pub fn click_play_button(colors: &ButtonColors, mode: WindowMode, changed: &Vec<ButtonEvent>) -> (r:
    MenuUpdate)
    ensures
        r.play_requested == spec_play_clicked(changed@),
        r.mode == spec_mode_after(mode, changed@),
        r.color_writes@ == spec_color_writes(*colors, changed@),
        changed@.len() == 0 ==> !r.play_requested && r.mode == mode && r.color_writes@.len() == 0,
{
    let mut play: bool = false;
    let mut m = mode;
    let mut writes: Vec<ColorWrite> = Vec::new();
    let mut idx: usize = 0;
    while idx < changed.len()
        invariant
            idx <= changed@.len(),
            play == spec_play_clicked(changed@.subrange(0, idx as int)),
            m == spec_mode_after(mode, changed@.subrange(0, idx as int)),
            writes@ == spec_color_writes(*colors, changed@.subrange(0, idx as int)),
        decreases changed@.len() - idx,
    {
        let ev = changed[idx];
        match ev.interaction {
            Interaction::Clicked => {
                match ev.button {
                    ButtonKind::Play => {
                        play = true;
                    },
                    ButtonKind::Fullscreen => {
                        m = m.toggled();
                    },
                }
            },
            Interaction::Hovered => {
                writes.push(ColorWrite { button: ev.button, color: colors.hovered });
            },
            Interaction::Idle => {
                writes.push(ColorWrite { button: ev.button, color: colors.normal });
            },
        }
        proof {
            assert(changed@.subrange(0, idx + 1) =~= changed@.subrange(0, idx as int).push(
                changed@[idx as int],
            ));
            assert(changed@.subrange(0, idx + 1).drop_last() =~= changed@.subrange(0, idx as int));
        }
        idx += 1;
    }
    proof {
        assert(changed@.subrange(0, changed@.len() as int) =~= changed@);
    }
    MenuUpdate { play_requested: play, mode: m, color_writes: writes }
}

/// The scene after one background repaint.
pub open spec fn spec_apply_write(s: MenuScene, w: ColorWrite) -> MenuScene {
    match w.button {
        ButtonKind::Play => MenuScene {
            play_button: Button { background: w.color, ..s.play_button },
            ..s
        },
        ButtonKind::Fullscreen => MenuScene {
            fullscreen_button: Button { background: w.color, ..s.fullscreen_button },
            ..s
        },
    }
}

/// The scene after each repaint of the tick, in order.
pub open spec fn spec_apply_writes(s: MenuScene, ws: Seq<ColorWrite>) -> MenuScene
    decreases ws.len(),
{
    if ws.len() == 0 {
        s
    } else {
        spec_apply_write(spec_apply_writes(s, ws.drop_last()), ws.last())
    }
}

/// Repaint the button backgrounds the menu update decided on, in order.
pub fn apply_color_writes(scene: &mut MenuScene, writes: &Vec<ColorWrite>)
    ensures
        *final(scene) == spec_apply_writes(*old(scene), writes@),
{
    let mut i: usize = 0;
    while i < writes.len()
        invariant
            i <= writes@.len(),
            *scene == spec_apply_writes(*old(scene), writes@.subrange(0, i as int)),
        decreases writes@.len() - i,
    {
        let w = writes[i];
        match w.button {
            ButtonKind::Play => {
                scene.play_button.background = w.color;
            },
            ButtonKind::Fullscreen => {
                scene.fullscreen_button.background = w.color;
            },
        }
        proof {
            assert(writes@.subrange(0, i + 1).drop_last() =~= writes@.subrange(0, i as int));
        }
        i += 1;
    }
    proof {
        assert(writes@.subrange(0, writes@.len() as int) =~= writes@);
    }
}

/// The background a button is left with after the repaints of one tick:
/// the last repaint naming that button wins; none leaves `bg` alone.
pub open spec fn spec_bg_after(bg: Rgb, ws: Seq<ColorWrite>, b: ButtonKind) -> Rgb
    decreases ws.len(),
{
    if ws.len() == 0 {
        bg
    } else if ws.last().button == b {
        ws.last().color
    } else {
        spec_bg_after(bg, ws.drop_last(), b)
    }
}

/// Applying repaints changes nothing but the two backgrounds, and leaves
/// each at what the last repaint of its button said.
pub proof fn lemma_apply_writes_backgrounds(s: MenuScene, ws: Seq<ColorWrite>)
    ensures
        spec_apply_writes(s, ws).play_button.background == spec_bg_after(
            s.play_button.background,
            ws,
            ButtonKind::Play,
        ),
        spec_apply_writes(s, ws).fullscreen_button.background == spec_bg_after(
            s.fullscreen_button.background,
            ws,
            ButtonKind::Fullscreen,
        ),
        menu_scene_shape(s) ==> menu_scene_shape(spec_apply_writes(s, ws)),
    decreases ws.len(),
{
    if ws.len() > 0 {
        lemma_apply_writes_backgrounds(s, ws.drop_last());
    }
}

/// Every repaint the dispatch decides on takes a color from the palette.
pub proof fn lemma_color_writes_use_palette(colors: ButtonColors, evs: Seq<ButtonEvent>)
    ensures
        forall|k: int|
            0 <= k < spec_color_writes(colors, evs).len() ==> (#[trigger] spec_color_writes(
                colors,
                evs,
            )[k].color == colors.normal || spec_color_writes(colors, evs)[k].color
                == colors.hovered),
    decreases evs.len(),
{
    if evs.len() > 0 {
        lemma_color_writes_use_palette(colors, evs.drop_last());
    }
}

/// Repaints drawn from the palette keep a menu well formed: they touch only
/// backgrounds and leave each at one of the two palette colors.
pub proof fn lemma_apply_writes_keeps_wf(s: MenuScene, colors: ButtonColors, ws: Seq<ColorWrite>)
    requires
        menu_scene_wf(s, colors),
        forall|k: int|
            0 <= k < ws.len() ==> (#[trigger] ws[k].color == colors.normal || ws[k].color
                == colors.hovered),
    ensures
        menu_scene_wf(spec_apply_writes(s, ws), colors),
    decreases ws.len(),
{
    if ws.len() > 0 {
        assert(forall|k: int|
            0 <= k < ws.drop_last().len() ==> (#[trigger] ws.drop_last()[k].color == colors.normal
                || ws.drop_last()[k].color == colors.hovered));
        lemma_apply_writes_keeps_wf(s, colors, ws.drop_last());
    }
}

/// Idempotent hover: a tick in which no button's interaction state changed
/// decides no background repaint and leaves any scene exactly as it was.
pub proof fn lemma_idempotent_hover(colors: ButtonColors, s: MenuScene)
    ensures
        spec_color_writes(colors, Seq::<ButtonEvent>::empty()) =~= Seq::<ColorWrite>::empty(),
        spec_apply_writes(s, spec_color_writes(colors, Seq::<ButtonEvent>::empty())) == s,
{
}

} // verus!
