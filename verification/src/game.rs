//! The board's whole state and the reactions to the events that drive it:
//! key presses move the cursor, mouse-wheel ticks turn the color wheel and
//! recolor the cursor's outline, and each frame yields the draw commands a
//! renderer must issue.

use vstd::prelude::*;

use crate::colors::ColorWheel;
use crate::colors::WheelColor;
use crate::colors::step_backward;
use crate::colors::step_forward;
use crate::grid::Cursor;
use crate::grid::Direction;
use crate::grid::DrawCommand;
use crate::grid::DrawMode;
use crate::grid::GRID_HEIGHT;
use crate::grid::GRID_WIDTH;
use crate::grid::Grid;
use crate::grid::GridPosition;
use crate::grid::KeyCode;
use crate::grid::background_cell;
use crate::grid::cell_commands;
use crate::grid::dx;
use crate::grid::dy;
use crate::grid::grid_commands;
use crate::grid::rect_x;
use crate::grid::rect_y;
use crate::grid::spec_from_keycode;
use crate::grid::unit_step;

verus! {

/// Milliseconds between two state updates, from the fixed target rate of
/// eight updates per second.
pub const MILLIS_PER_UPDATE: u64 = 1000 / 8;

/// Whether enough wall-clock time has passed since the last update for the
/// fixed-timestep gate to run another one.
pub fn update_due(elapsed_millis: u64) -> (due: bool)
    ensures
        due == (elapsed_millis >= MILLIS_PER_UPDATE),
{
    elapsed_millis >= MILLIS_PER_UPDATE
}

/// The commands that paint the cursor: its one outline square, if it needs
/// painting.
pub open spec fn cursor_commands(c: Cursor) -> Seq<DrawCommand> {
    cell_commands(c.cell, c.pos.x as int, c.pos.y as int)
}

/// Everything the board owns: the color wheel, the cursor, and the grid of
/// cells. One exclusively-owned value of this type is threaded through every
/// event callback.
pub struct GameState {
    pub color_wheel: ColorWheel,
    pub cursor: Cursor,
    pub grid: Grid,
}

impl GameState {
    /// The wheel points at a palette entry and the grid has its full size.
    pub open spec fn wf(self) -> bool {
        &&& self.color_wheel.wf()
        &&& self.grid.wf()
    }

    /// A fresh board: the cursor at (10, 10) with a black outline, the wheel
    /// on its first entry, every grid cell set to the background color.
    pub fn new() -> (s: GameState)
        ensures
            s.wf(),
            s.color_wheel.index == 0,
            s.cursor.pos.x == 10,
            s.cursor.pos.y == 10,
            s.cursor.cell.color == WheelColor::Black,
            s.cursor.cell.draw_mode == DrawMode::Line,
            s.cursor.cell.dirty,
            forall|x: int, y: int|
                0 <= x < GRID_WIDTH as int && 0 <= y < GRID_HEIGHT as int ==> s.grid@[x][y]
                    == background_cell(),
    {
        let cursor_pos = GridPosition::new(10, 10);
        GameState {
            color_wheel: ColorWheel::new(),
            cursor: Cursor::new(cursor_pos),
            grid: Grid::new(),
        }
    }

    /// React to a key press: an arrow key moves the cursor one cell in its
    /// direction; every other key changes nothing.
    pub fn key_down_event(&mut self, key: KeyCode)
        requires
            key == KeyCode::Up ==> old(self).cursor.pos.y > i32::MIN,
            key == KeyCode::Down ==> old(self).cursor.pos.y < i32::MAX,
            key == KeyCode::Left ==> old(self).cursor.pos.x > i32::MIN,
            key == KeyCode::Right ==> old(self).cursor.pos.x < i32::MAX,
        ensures
            final(self).color_wheel == old(self).color_wheel,
            final(self).grid == old(self).grid,
            final(self).cursor.cell.color == old(self).cursor.cell.color,
            final(self).cursor.cell.draw_mode == old(self).cursor.cell.draw_mode,
            spec_from_keycode(key) matches Some(dir) ==> {
                &&& final(self).cursor.pos.x == old(self).cursor.pos.x + dx(dir)
                &&& final(self).cursor.pos.y == old(self).cursor.pos.y + dy(dir)
                &&& unit_step(old(self).cursor.pos, final(self).cursor.pos)
                &&& final(self).cursor.cell.dirty
            },
            spec_from_keycode(key) is None ==> *final(self) == *old(self),
    {
        if let Some(dir) = Direction::from_keycode(key) {
            self.cursor.move_to(dir);
        }
    }

    /// React to a mouse-wheel tick: scrolling up retreats the wheel one
    /// entry, scrolling down advances it one entry, a zero tick leaves it in
    /// place; either way the cursor's outline takes the wheel's current
    /// color.
    pub fn mouse_wheel_event(&mut self, y: i32)
        requires
            old(self).wf(),
        ensures
            final(self).wf(),
            final(self).grid == old(self).grid,
            final(self).cursor.pos == old(self).cursor.pos,
            final(self).cursor.cell.draw_mode == old(self).cursor.cell.draw_mode,
            y > 0 ==> final(self).color_wheel.index as int == step_backward(
                old(self).color_wheel.index as int,
            ),
            y < 0 ==> final(self).color_wheel.index as int == step_forward(
                old(self).color_wheel.index as int,
            ),
            y == 0 ==> final(self).color_wheel == old(self).color_wheel,
            final(self).cursor.cell.color == final(self).color_wheel.current_color(),
            final(self).cursor.cell.dirty,
    {
        if y > 0 {
            self.color_wheel.backward();
        } else if y < 0 {
            self.color_wheel.forward();
        }
        let color = self.color_wheel.get_color();
        self.cursor.set_color(color);
    }

    /// The draw commands of one frame: every grid cell that needs painting,
    /// then the cursor's outline if it needs painting. Everything comes back
    /// clean.
    pub fn draw(&mut self) -> (cmds: Vec<DrawCommand>)
        requires
            old(self).wf(),
            i32::MIN <= rect_x(old(self).cursor.pos) <= i32::MAX,
            i32::MIN <= rect_y(old(self).cursor.pos) <= i32::MAX,
        ensures
            final(self).wf(),
            final(self).color_wheel == old(self).color_wheel,
            final(self).cursor.pos == old(self).cursor.pos,
            final(self).cursor.cell.color == old(self).cursor.cell.color,
            final(self).cursor.cell.draw_mode == old(self).cursor.cell.draw_mode,
            !final(self).cursor.cell.dirty,
            cmds@ == grid_commands(old(self).grid@) + cursor_commands(old(self).cursor),
    {
        let mut cmds = self.grid.draw();
        let cursor_cmd = self.cursor.draw();
        match cursor_cmd {
            Some(c) => {
                cmds.push(c);
                proof {
                    assert(cmds@ =~= grid_commands(old(self).grid@) + cursor_commands(
                        old(self).cursor,
                    ));
                }
            },
            None => {
                proof {
                    assert(cmds@ =~= grid_commands(old(self).grid@) + cursor_commands(
                        old(self).cursor,
                    ));
                }
            },
        }
        cmds
    }
}

} // verus!
