use bigboard::colors::ColorWheel;
use bigboard::colors::PALETTE_LEN;
use bigboard::colors::WheelColor;
use bigboard::game::GameState;
use bigboard::game::MILLIS_PER_UPDATE;
use bigboard::game::update_due;
use bigboard::grid::Cell;
use bigboard::grid::Cursor;
use bigboard::grid::Direction;
use bigboard::grid::DrawMode;
use bigboard::grid::GRID_HEIGHT;
use bigboard::grid::GRID_WIDTH;
use bigboard::grid::Grid;
use bigboard::grid::GridPosition;
use bigboard::grid::KeyCode;
use bigboard::grid::PixelRect;

#[test]
fn move_changes_exactly_one_axis() {
    let p = GridPosition::new(5, 7);
    let up = GridPosition::new_from_move(p, Direction::Up);
    assert_eq!(up, GridPosition::new(5, 6));
    let down = GridPosition::new_from_move(p, Direction::Down);
    assert_eq!(down, GridPosition::new(5, 8));
    let left = GridPosition::new_from_move(p, Direction::Left);
    assert_eq!(left, GridPosition::new(4, 7));
    let right = GridPosition::new_from_move(p, Direction::Right);
    assert_eq!(right, GridPosition::new(6, 7));
}

#[test]
fn move_does_not_mutate_input() {
    let p = GridPosition::new(0, 0);
    let _ = GridPosition::new_from_move(p, Direction::Down);
    assert_eq!(p, GridPosition::new(0, 0));
}

#[test]
fn positions_from_tuples() {
    let a: GridPosition = (3, -4).into();
    assert_eq!(a, GridPosition::new(3, -4));
    let b: GridPosition = (7usize, 9usize).into();
    assert_eq!(b, GridPosition::new(7, 9));
}

#[test]
fn rect_of_origin_cell() {
    let r = GridPosition::new(0, 0).to_rect();
    assert_eq!(r, PixelRect { x: 0, y: 0, w: 32, h: 32 });
}

#[test]
fn rect_scales_by_cell_size() {
    let r = GridPosition::new(2, 3).to_rect();
    assert_eq!(r, PixelRect { x: 64, y: 96, w: 32, h: 32 });
    let n = GridPosition::new(-1, -2).to_rect();
    assert_eq!(n, PixelRect { x: -32, y: -64, w: 32, h: 32 });
}

#[test]
fn rects_of_distinct_cells_do_not_overlap() {
    let a = GridPosition::new(0, 0).to_rect();
    let b = GridPosition::new(1, 0).to_rect();
    assert!(a.x + a.w <= b.x);
    let c = GridPosition::new(0, 1).to_rect();
    assert!(a.y + a.h <= c.y);
}

#[test]
fn wheel_starts_on_black() {
    let w = ColorWheel::new();
    assert_eq!(w.get_color(), WheelColor::Black);
}

#[test]
fn wheel_forward_reaches_white() {
    let mut w = ColorWheel::new();
    w.forward();
    assert_eq!(w.get_color(), WheelColor::White);
}

#[test]
fn wheel_full_turn_returns_to_start() {
    let mut w = ColorWheel::new();
    for _ in 0..PALETTE_LEN {
        w.forward();
    }
    assert_eq!(w.get_color(), WheelColor::Black);
    w.forward();
    w.forward();
    w.forward();
    let at_three = w.get_color();
    for _ in 0..PALETTE_LEN {
        w.forward();
    }
    assert_eq!(w.get_color(), at_three);
}

#[test]
fn wheel_backward_wraps_to_last_entry() {
    let mut w = ColorWheel::new();
    w.backward();
    assert_eq!(w.get_color(), WheelColor::Pink);
    w.forward();
    assert_eq!(w.get_color(), WheelColor::Black);
}

#[test]
fn get_color_is_idempotent() {
    let mut w = ColorWheel::new();
    w.forward();
    let first = w.get_color();
    let second = w.get_color();
    let third = w.get_color();
    assert_eq!(first, second);
    assert_eq!(second, third);
}

#[test]
fn keycodes_map_to_directions() {
    assert_eq!(Direction::from_keycode(KeyCode::Up), Some(Direction::Up));
    assert_eq!(Direction::from_keycode(KeyCode::Down), Some(Direction::Down));
    assert_eq!(Direction::from_keycode(KeyCode::Left), Some(Direction::Left));
    assert_eq!(Direction::from_keycode(KeyCode::Right), Some(Direction::Right));
    assert_eq!(Direction::from_keycode(KeyCode::Other), None);
}

#[test]
fn cell_draw_emits_once_until_dirtied_again() {
    let mut cell = Cell::new(WheelColor::Blue, DrawMode::Fill);
    let pos = GridPosition::new(1, 1);
    let first = cell.draw(pos).expect("a fresh cell needs painting");
    assert_eq!(first.rect, PixelRect { x: 32, y: 32, w: 32, h: 32 });
    assert_eq!(first.color, WheelColor::Blue);
    assert_eq!(first.mode, DrawMode::Fill);
    assert_eq!(cell.draw(pos), None);
    cell.set_color(WheelColor::Red);
    let again = cell.draw(pos).expect("a recolored cell needs painting");
    assert_eq!(again.color, WheelColor::Red);
}

#[test]
fn cursor_moves_and_repaints() {
    let mut cursor = Cursor::new(GridPosition::new(3, 4));
    let _ = cursor.draw();
    assert_eq!(cursor.draw(), None);
    cursor.move_to(Direction::Left);
    assert_eq!(cursor.pos, GridPosition::new(2, 4));
    let cmd = cursor.draw().expect("a moved cursor needs painting");
    assert_eq!(cmd.rect, PixelRect { x: 64, y: 128, w: 32, h: 32 });
    assert_eq!(cmd.mode, DrawMode::Line);
}

#[test]
fn grid_starts_all_background() {
    let grid = Grid::new();
    assert_eq!(grid.cells.len(), GRID_WIDTH);
    for column in &grid.cells {
        assert_eq!(column.len(), GRID_HEIGHT);
        for cell in column {
            assert_eq!(cell.color, WheelColor::White);
            assert_eq!(cell.draw_mode, DrawMode::Fill);
            assert!(cell.dirty);
        }
    }
}

#[test]
fn grid_first_frame_paints_every_cell_then_nothing() {
    let mut grid = Grid::new();
    let cmds = grid.draw();
    assert_eq!(cmds.len(), GRID_WIDTH * GRID_HEIGHT);
    assert_eq!(cmds[0].rect, PixelRect { x: 0, y: 0, w: 32, h: 32 });
    assert_eq!(cmds[1].rect, PixelRect { x: 0, y: 32, w: 32, h: 32 });
    assert_eq!(cmds[GRID_HEIGHT].rect, PixelRect { x: 32, y: 0, w: 32, h: 32 });
    assert_eq!(grid.draw(), Vec::new());
}

#[test]
fn arrow_keys_walk_the_cursor() {
    let mut state = GameState::new();
    assert_eq!(state.cursor.pos, GridPosition::new(10, 10));
    state.key_down_event(KeyCode::Up);
    assert_eq!(state.cursor.pos, GridPosition::new(10, 9));
    state.key_down_event(KeyCode::Right);
    assert_eq!(state.cursor.pos, GridPosition::new(11, 9));
}

#[test]
fn other_keys_change_nothing() {
    let mut state = GameState::new();
    state.key_down_event(KeyCode::Other);
    assert_eq!(state.cursor.pos, GridPosition::new(10, 10));
    assert_eq!(state.color_wheel.index, 0);
}

#[test]
fn scroll_down_selects_the_next_color() {
    let mut state = GameState::new();
    state.mouse_wheel_event(-3);
    assert_eq!(state.cursor.cell.color, WheelColor::White);
}

#[test]
fn scroll_up_selects_the_previous_color() {
    let mut state = GameState::new();
    state.mouse_wheel_event(3);
    assert_eq!(state.cursor.cell.color, WheelColor::Pink);
}

#[test]
fn zero_scroll_keeps_the_color() {
    let mut state = GameState::new();
    state.mouse_wheel_event(0);
    assert_eq!(state.color_wheel.index, 0);
    assert_eq!(state.cursor.cell.color, WheelColor::Black);
}

#[test]
fn frame_paints_grid_then_cursor() {
    let mut state = GameState::new();
    let cmds = state.draw();
    assert_eq!(cmds.len(), GRID_WIDTH * GRID_HEIGHT + 1);
    let cursor_cmd = cmds[cmds.len() - 1];
    assert_eq!(cursor_cmd.rect, PixelRect { x: 320, y: 320, w: 32, h: 32 });
    assert_eq!(cursor_cmd.mode, DrawMode::Line);
    assert_eq!(cursor_cmd.color, WheelColor::Black);
    assert_eq!(state.draw(), Vec::new());
    state.key_down_event(KeyCode::Down);
    let after_move = state.draw();
    assert_eq!(after_move.len(), 1);
    assert_eq!(after_move[0].rect, PixelRect { x: 320, y: 352, w: 32, h: 32 });
}

#[test]
fn update_gate_opens_at_the_fixed_period() {
    assert_eq!(MILLIS_PER_UPDATE, 125);
    assert!(!update_due(0));
    assert!(!update_due(124));
    assert!(update_due(125));
    assert!(update_due(1000));
}
