use cursor_chase::geom::Vec2i;
use cursor_chase::geom::Vec3i;
use cursor_chase::player::change_sprite;
use cursor_chase::player::move_player;
use cursor_chase::player::spawn_player;
use cursor_chase::player::update_mouse_location;
use cursor_chase::window::WindowPos;
use cursor_chase::window::WindowSize;

#[test]
fn spawn_gives_materials_atlas_and_origin_player() {
    let scene = spawn_player();
    assert_eq!(scene.grid.cell_width, 16);
    assert_eq!(scene.grid.cell_height, 16);
    assert_eq!(scene.grid.columns, 10);
    assert_eq!(scene.grid.rows, 25);
    assert_eq!(scene.grid.frame_count(), 250);
    assert_eq!(scene.player.frame_index, 0);
    assert_eq!(scene.player.translation, Vec3i { x: 0, y: 0, z: 1 });
    assert_eq!(scene.player.scale_milli, 4000);
}

#[test]
fn frame_wrap_down() {
    let mut scene = spawn_player();
    let grid = scene.grid;
    assert_eq!(scene.player.frame_index, 0);
    change_sprite(&mut scene.player, &grid, true, false);
    assert_eq!(scene.player.frame_index, 249);
    change_sprite(&mut scene.player, &grid, false, true);
    assert_eq!(scene.player.frame_index, 0);
}

#[test]
fn frame_wrap_up() {
    let mut scene = spawn_player();
    let grid = scene.grid;
    scene.player.frame_index = 249;
    change_sprite(&mut scene.player, &grid, false, true);
    assert_eq!(scene.player.frame_index, 0);
}

#[test]
fn frame_steps_without_wrap() {
    let mut scene = spawn_player();
    let grid = scene.grid;
    scene.player.frame_index = 7;
    change_sprite(&mut scene.player, &grid, false, true);
    assert_eq!(scene.player.frame_index, 8);
    change_sprite(&mut scene.player, &grid, true, false);
    assert_eq!(scene.player.frame_index, 7);
}

#[test]
fn frame_both_edges_one_tick_cancel() {
    let mut scene = spawn_player();
    let grid = scene.grid;
    scene.player.frame_index = 0;
    change_sprite(&mut scene.player, &grid, true, true);
    assert_eq!(scene.player.frame_index, 0);
    scene.player.frame_index = 42;
    change_sprite(&mut scene.player, &grid, true, true);
    assert_eq!(scene.player.frame_index, 42);
}

#[test]
fn no_edge_leaves_frame_alone() {
    let mut scene = spawn_player();
    let grid = scene.grid;
    scene.player.frame_index = 13;
    change_sprite(&mut scene.player, &grid, false, false);
    assert_eq!(scene.player.frame_index, 13);
}

#[test]
fn player_follows_cursor_at_depth_zero() {
    let mut scene = spawn_player();
    move_player(&mut scene.player, Vec2i { x: 640, y: 360 });
    assert_eq!(scene.player.translation, Vec3i { x: 640, y: 360, z: 0 });
    assert_eq!(scene.player.frame_index, 0);
    assert_eq!(scene.player.scale_milli, 4000);
}

#[test]
fn cursor_centering() {
    let current = Vec2i { x: 5, y: 6 };
    let win = Some(WindowSize { width: 1280, height: 720 });
    let events = vec![WindowPos { x: 640, y: 360 }];
    assert_eq!(update_mouse_location(current, win, &events), Vec2i { x: 0, y: 0 });
    let events = vec![WindowPos { x: 1280, y: 720 }];
    assert_eq!(update_mouse_location(current, win, &events), Vec2i { x: 640, y: 360 });
    let events = vec![WindowPos { x: 0, y: 0 }];
    assert_eq!(update_mouse_location(current, win, &events), Vec2i { x: -640, y: -360 });
}

#[test]
fn cursor_halves_round_down() {
    let current = Vec2i { x: 0, y: 0 };
    let win = Some(WindowSize { width: 1281, height: 721 });
    let events = vec![WindowPos { x: 0, y: 0 }];
    assert_eq!(update_mouse_location(current, win, &events), Vec2i { x: -640, y: -360 });
}

#[test]
fn cursor_keeps_only_last_event() {
    let current = Vec2i { x: 1, y: 2 };
    let win = Some(WindowSize { width: 100, height: 100 });
    let events = vec![
        WindowPos { x: 10, y: 10 },
        WindowPos { x: 20, y: 20 },
        WindowPos { x: 70, y: 80 },
    ];
    assert_eq!(update_mouse_location(current, win, &events), Vec2i { x: 20, y: 30 });
}

#[test]
fn cursor_no_window_is_no_op() {
    let current = Vec2i { x: 9, y: -9 };
    let events = vec![WindowPos { x: 10, y: 10 }];
    assert_eq!(update_mouse_location(current, None, &events), current);
}

#[test]
fn cursor_no_events_is_no_op() {
    let current = Vec2i { x: 9, y: -9 };
    let win = Some(WindowSize { width: 100, height: 100 });
    let events: Vec<WindowPos> = Vec::new();
    assert_eq!(update_mouse_location(current, win, &events), current);
}
