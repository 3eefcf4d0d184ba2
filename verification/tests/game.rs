use dominoes::game::{DrawCmd, Game, TILE_COUNT, TILE_SIDE};
use dominoes::tile::{Domino, DominoValue};

#[test]
fn construction_defaults() {
    let g = Game::new();
    assert_eq!(g.tile_count(), 10);
    assert_eq!(g.tile_count(), TILE_COUNT);
    assert_eq!(g.position(), (0, 0));
    for i in 0..g.tile_count() {
        let d = g.tile_at(i);
        assert_eq!(d, Domino { top: DominoValue::One, bottom: DominoValue::Five });
    }
}

#[test]
fn movement_event_updates_position() {
    let mut g = Game::new();
    g.on_pointer_move(37, 52);
    assert_eq!(g.position(), (37, 52));
}

#[test]
fn movement_event_leaves_tiles_alone() {
    let mut g = Game::new();
    g.on_pointer_move(37, 52);
    g.on_pointer_move(1, 2);
    assert_eq!(g.tile_count(), 10);
    for i in 0..g.tile_count() {
        assert_eq!(g.tile_at(i), Domino { top: DominoValue::One, bottom: DominoValue::Five });
    }
}

#[test]
fn last_event_wins() {
    let mut g = Game::new();
    g.on_pointer_move(1, 10);
    g.on_pointer_move(2, 20);
    g.on_pointer_move(3, 30);
    assert_eq!(g.position(), (3, 30));
}

#[test]
fn negative_offsets_update_verbatim() {
    let mut g = Game::new();
    g.on_pointer_move(-5, -7);
    assert_eq!(g.position(), (-5, -7));
}

#[test]
fn out_of_surface_offsets_update_verbatim() {
    let mut g = Game::new();
    g.on_pointer_move(500000, 999999);
    assert_eq!(g.position(), (500000, 999999));
    g.on_pointer_move(i32::MIN, i32::MAX);
    assert_eq!(g.position(), (i32::MIN, i32::MAX));
}

#[test]
fn render_at_origin() {
    let g = Game::new();
    let cmds = g.render();
    assert_eq!(cmds.len(), 20);
    for i in 0..10 {
        assert_eq!(cmds[2 * i], DrawCmd::RectOutline { x: 0, y: 0, width: 10, height: 10 });
        assert_eq!(cmds[2 * i + 1], DrawCmd::Stroke);
    }
}

#[test]
fn render_after_movement() {
    let mut g = Game::new();
    g.on_pointer_move(37, 52);
    let cmds = g.render();
    assert_eq!(cmds.len(), 20);
    for i in 0..10 {
        assert_eq!(
            cmds[2 * i],
            DrawCmd::RectOutline { x: 37, y: 52, width: TILE_SIDE, height: TILE_SIDE }
        );
        assert_eq!(cmds[2 * i + 1], DrawCmd::Stroke);
    }
}

#[test]
fn render_is_idempotent() {
    let mut g = Game::new();
    g.on_pointer_move(11, -4);
    let first = g.render();
    let second = g.render();
    assert_eq!(first, second);
    let third = g.render();
    assert_eq!(second, third);
}

#[test]
fn render_does_not_touch_state() {
    let mut g = Game::new();
    g.on_pointer_move(8, 9);
    let _ = g.render();
    assert_eq!(g.position(), (8, 9));
    assert_eq!(g.tile_count(), 10);
}
