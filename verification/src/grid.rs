//! The grid and cursor coordinate model: integer cell coordinates, their
//! conversion to pixel rectangles, directional movement, and the per-frame
//! computation of the draw commands that a renderer must issue.

use vstd::prelude::*;

use crate::colors::WheelColor;

verus! {

/// Cells per row of the fixed grid.
pub const GRID_WIDTH: usize = 30;

/// Cells per column of the fixed grid.
pub const GRID_HEIGHT: usize = 20;

/// Width of one cell, in pixels.
pub const CELL_WIDTH: i32 = 32;

/// Height of one cell, in pixels.
pub const CELL_HEIGHT: i32 = 32;

/// Width of the window that shows the whole grid, in pixels.
pub const SCREEN_WIDTH: i32 = 30 * 32;

/// Height of the window that shows the whole grid, in pixels.
pub const SCREEN_HEIGHT: i32 = 20 * 32;

/// A pixel-space rectangle: origin, width and height.
#[derive(Clone, Copy, Debug, PartialEq, Eq, Structural)]
pub struct PixelRect {
    pub x: i32,
    pub y: i32,
    pub w: i32,
    pub h: i32,
}

/// A pair of integer coordinates naming a cell of the grid.
///
/// No bounds are enforced, deliberately: the reference behavior lets the
/// cursor wander off the visible grid, and this model keeps that choice.
#[derive(Clone, Copy, Debug, PartialEq, Eq, Structural)]
pub struct GridPosition {
    pub x: i32,
    pub y: i32,
}

/// The four directions a cursor can move in.
#[derive(Clone, Copy, Debug, PartialEq, Eq, Structural)]
pub enum Direction {
    Up,
    Down,
    Left,
    Right,
}

/// What a key press means to the board: one of the four arrow keys, or any
/// other key, which the board ignores.
#[derive(Clone, Copy, Debug, PartialEq, Eq, Structural)]
pub enum KeyCode {
    Up,
    Down,
    Left,
    Right,
    Other,
}

/// Horizontal displacement of one step in direction `dir`.
pub open spec fn dx(dir: Direction) -> int {
    match dir {
        Direction::Left => -1,
        Direction::Right => 1,
        _ => 0,
    }
}

/// Vertical displacement of one step in direction `dir`.
pub open spec fn dy(dir: Direction) -> int {
    match dir {
        Direction::Up => -1,
        Direction::Down => 1,
        _ => 0,
    }
}

/// `q` lies exactly one cell away from `p`: one axis differs by exactly one
/// and the other axis is unchanged.
pub open spec fn unit_step(p: GridPosition, q: GridPosition) -> bool {
    ||| (q.x == p.x && (q.y == p.y + 1 || q.y == p.y - 1))
    ||| (q.y == p.y && (q.x == p.x + 1 || q.x == p.x - 1))
}

/// Pixel x-origin of the cell at `p`.
pub open spec fn rect_x(p: GridPosition) -> int {
    p.x * CELL_WIDTH
}

/// Pixel y-origin of the cell at `p`.
pub open spec fn rect_y(p: GridPosition) -> int {
    p.y * CELL_HEIGHT
}

/// The pixel rectangles of `p` and `q` share no pixel: they are separated on
/// the x axis or on the y axis by at least one full cell extent.
pub open spec fn rects_disjoint(p: GridPosition, q: GridPosition) -> bool {
    ||| rect_x(p) + CELL_WIDTH <= rect_x(q)
    ||| rect_x(q) + CELL_WIDTH <= rect_x(p)
    ||| rect_y(p) + CELL_HEIGHT <= rect_y(q)
    ||| rect_y(q) + CELL_HEIGHT <= rect_y(p)
}

/// The coordinate-to-rectangle map is injective, and stronger: distinct grid
/// positions map to non-overlapping pixel rectangles.
pub proof fn lemma_distinct_positions_give_disjoint_rects(p: GridPosition, q: GridPosition)
    requires
        p.x != q.x || p.y != q.y,
    ensures
        rects_disjoint(p, q),
        rect_x(p) != rect_x(q) || rect_y(p) != rect_y(q),
{
    if p.x != q.x {
        if p.x < q.x {
            assert((p.x + 1) * CELL_WIDTH <= q.x * CELL_WIDTH) by (nonlinear_arith)
                requires p.x + 1 <= q.x;
        } else {
            assert((q.x + 1) * CELL_WIDTH <= p.x * CELL_WIDTH) by (nonlinear_arith)
                requires q.x + 1 <= p.x;
        }
    } else {
        if p.y < q.y {
            assert((p.y + 1) * CELL_HEIGHT <= q.y * CELL_HEIGHT) by (nonlinear_arith)
                requires p.y + 1 <= q.y;
        } else {
            assert((q.y + 1) * CELL_HEIGHT <= p.y * CELL_HEIGHT) by (nonlinear_arith)
                requires q.y + 1 <= p.y;
        }
    }
}

impl GridPosition {
    /// A position from its two coordinates; any integers are accepted.
    pub fn new(x: i32, y: i32) -> (p: Self)
        ensures
            p.x == x,
            p.y == y,
    {
        GridPosition { x, y }
    }

    /// The position one cell away from `pos` in direction `dir`. The input is
    /// not mutated; the move changes exactly one axis by exactly one.
    pub fn new_from_move(pos: GridPosition, dir: Direction) -> (p: Self)
        requires
            i32::MIN <= pos.x + dx(dir) <= i32::MAX,
            i32::MIN <= pos.y + dy(dir) <= i32::MAX,
        ensures
            p.x == pos.x + dx(dir),
            p.y == pos.y + dy(dir),
            unit_step(pos, p),
    {
        match dir {
            Direction::Up => GridPosition::new(pos.x, pos.y - 1),
            Direction::Down => GridPosition::new(pos.x, pos.y + 1),
            Direction::Left => GridPosition::new(pos.x - 1, pos.y),
            Direction::Right => GridPosition::new(pos.x + 1, pos.y),
        }
    }

    /// The pixel rectangle of the cell at `self`, as the spec sees it.
    pub open spec fn spec_rect(self) -> PixelRect {
        PixelRect {
            x: (self.x * CELL_WIDTH) as i32,
            y: (self.y * CELL_HEIGHT) as i32,
            w: CELL_WIDTH,
            h: CELL_HEIGHT,
        }
    }

    /// The pixel rectangle of the cell at `self`: the affine map that scales
    /// grid coordinates by the fixed cell size.
    pub fn to_rect(self) -> (r: PixelRect)
        requires
            i32::MIN <= rect_x(self) <= i32::MAX,
            i32::MIN <= rect_y(self) <= i32::MAX,
        ensures
            r == self.spec_rect(),
            r.x == rect_x(self),
            r.y == rect_y(self),
            r.w == CELL_WIDTH,
            r.h == CELL_HEIGHT,
    {
        PixelRect {
            x: self.x * CELL_WIDTH,
            y: self.y * CELL_HEIGHT,
            w: CELL_WIDTH,
            h: CELL_HEIGHT,
        }
    }
}

impl From<(i32, i32)> for GridPosition {
    fn from(pos: (i32, i32)) -> Self {
        GridPosition { x: pos.0, y: pos.1 }
    }
}

impl vstd::std_specs::convert::FromSpecImpl<(i32, i32)> for GridPosition {
    open spec fn obeys_from_spec() -> bool {
        true
    }

    open spec fn from_spec(pos: (i32, i32)) -> GridPosition {
        GridPosition { x: pos.0, y: pos.1 }
    }
}

impl From<(usize, usize)> for GridPosition {
    fn from(pos: (usize, usize)) -> Self {
        GridPosition { x: pos.0 as i32, y: pos.1 as i32 }
    }
}

impl vstd::std_specs::convert::FromSpecImpl<(usize, usize)> for GridPosition {
    open spec fn obeys_from_spec() -> bool {
        true
    }

    open spec fn from_spec(pos: (usize, usize)) -> GridPosition {
        GridPosition { x: pos.0 as i32, y: pos.1 as i32 }
    }
}

/// What `from_keycode` answers for each key.
pub open spec fn spec_from_keycode(key: KeyCode) -> Option<Direction> {
    match key {
        KeyCode::Up => Some(Direction::Up),
        KeyCode::Down => Some(Direction::Down),
        KeyCode::Left => Some(Direction::Left),
        KeyCode::Right => Some(Direction::Right),
        KeyCode::Other => None,
    }
}

impl Direction {
    /// The direction an arrow key stands for; `None` for every other key,
    /// which is no error but "no applicable action".
    pub fn from_keycode(key: KeyCode) -> (d: Option<Direction>)
        ensures
            d == spec_from_keycode(key),
    {
        match key {
            KeyCode::Up => Some(Direction::Up),
            KeyCode::Down => Some(Direction::Down),
            KeyCode::Left => Some(Direction::Left),
            KeyCode::Right => Some(Direction::Right),
            KeyCode::Other => None,
        }
    }
}

/// How a cell is painted: a filled square, or only its outline.
#[derive(Clone, Copy, Debug, PartialEq, Eq, Structural)]
pub enum DrawMode {
    Fill,
    Line,
}

/// One rectangle a renderer must paint: where, in which color, and whether
/// filled or outlined.
#[derive(Clone, Copy, Debug, PartialEq, Eq, Structural)]
pub struct DrawCommand {
    pub rect: PixelRect,
    pub color: WheelColor,
    pub mode: DrawMode,
}

/// One colored square of the board, with the flag that says whether its
/// visual representation must be painted again before the next present.
#[derive(Clone, Copy, Debug, PartialEq, Eq, Structural)]
pub struct Cell {
    pub color: WheelColor,
    pub draw_mode: DrawMode,
    pub dirty: bool,
}

/// The command that paints cell `c` at position `pos`.
pub open spec fn cmd_for(c: Cell, pos: GridPosition) -> DrawCommand {
    DrawCommand { rect: pos.spec_rect(), color: c.color, mode: c.draw_mode }
}

/// `c` with its dirty flag cleared and everything else kept.
pub open spec fn cleaned(c: Cell) -> Cell {
    Cell { color: c.color, draw_mode: c.draw_mode, dirty: false }
}

impl Cell {
    /// A fresh cell; it starts dirty so that the first frame paints it.
    pub fn new(color: WheelColor, draw_mode: DrawMode) -> (c: Cell)
        ensures
            c.color == color,
            c.draw_mode == draw_mode,
            c.dirty,
    {
        Cell { color, draw_mode, dirty: true }
    }

    /// Repaint the cell in `color`; the change must reach the screen, so the
    /// cell becomes dirty.
    pub fn set_color(&mut self, color: WheelColor)
        ensures
            final(self).color == color,
            final(self).draw_mode == old(self).draw_mode,
            final(self).dirty,
    {
        self.color = color;
        self.dirty = true;
    }

    /// Mark the cell as needing a repaint.
    pub fn set_dirty(&mut self)
        ensures
            final(self).color == old(self).color,
            final(self).draw_mode == old(self).draw_mode,
            final(self).dirty,
    {
        self.dirty = true;
    }

    /// The draw command for this cell at `pos`, if it needs painting: a dirty
    /// cell yields its command and comes back clean, a clean cell yields
    /// nothing and is left as it is.
    pub fn draw(&mut self, pos: GridPosition) -> (cmd: Option<DrawCommand>)
        requires
            i32::MIN <= rect_x(pos) <= i32::MAX,
            i32::MIN <= rect_y(pos) <= i32::MAX,
        ensures
            final(self).color == old(self).color,
            final(self).draw_mode == old(self).draw_mode,
            !final(self).dirty,
            cmd == (if old(self).dirty {
                Some(cmd_for(*old(self), pos))
            } else {
                None::<DrawCommand>
            }),
    {
        if self.dirty {
            self.dirty = false;
            Some(DrawCommand { rect: pos.to_rect(), color: self.color, mode: self.draw_mode })
        } else {
            None
        }
    }
}

/// The user-controlled highlighted cell: a position and the outline square
/// drawn there.
#[derive(Clone, Copy, Debug, PartialEq, Eq, Structural)]
pub struct Cursor {
    pub pos: GridPosition,
    pub cell: Cell,
}

impl Cursor {
    /// A cursor at `pos`, outlined in the first palette color.
    pub fn new(pos: GridPosition) -> (c: Cursor)
        ensures
            c.pos == pos,
            c.cell.color == WheelColor::Black,
            c.cell.draw_mode == DrawMode::Line,
            c.cell.dirty,
    {
        Cursor { pos, cell: Cell::new(WheelColor::Black, DrawMode::Line) }
    }

    /// Recolor the cursor's outline.
    pub fn set_color(&mut self, color: WheelColor)
        ensures
            final(self).pos == old(self).pos,
            final(self).cell.color == color,
            final(self).cell.draw_mode == old(self).cell.draw_mode,
            final(self).cell.dirty,
    {
        self.cell.set_color(color);
    }

    /// Move the cursor one cell in direction `dir` and mark it for repaint.
    pub fn move_to(&mut self, dir: Direction)
        requires
            i32::MIN <= old(self).pos.x + dx(dir) <= i32::MAX,
            i32::MIN <= old(self).pos.y + dy(dir) <= i32::MAX,
        ensures
            final(self).pos.x == old(self).pos.x + dx(dir),
            final(self).pos.y == old(self).pos.y + dy(dir),
            unit_step(old(self).pos, final(self).pos),
            final(self).cell.color == old(self).cell.color,
            final(self).cell.draw_mode == old(self).cell.draw_mode,
            final(self).cell.dirty,
    {
        self.pos = GridPosition::new_from_move(self.pos, dir);
        self.cell.set_dirty();
    }

    /// The draw command for the cursor, if its square needs painting.
    pub fn draw(&mut self) -> (cmd: Option<DrawCommand>)
        requires
            i32::MIN <= rect_x(old(self).pos) <= i32::MAX,
            i32::MIN <= rect_y(old(self).pos) <= i32::MAX,
        ensures
            final(self).pos == old(self).pos,
            final(self).cell.color == old(self).cell.color,
            final(self).cell.draw_mode == old(self).cell.draw_mode,
            !final(self).cell.dirty,
            cmd == (if old(self).cell.dirty {
                Some(cmd_for(old(self).cell, old(self).pos))
            } else {
                None::<DrawCommand>
            }),
    {
        let pos = self.pos;
        self.cell.draw(pos)
    }
}

/// The cell every grid position starts with: white, filled, and dirty so that
/// the first frame paints it.
pub open spec fn background_cell() -> Cell {
    Cell { color: WheelColor::White, draw_mode: DrawMode::Fill, dirty: true }
}

/// The commands for the cell `c` standing at column `x`, row `y`: one command
/// if it is dirty, none otherwise.
pub open spec fn cell_commands(c: Cell, x: int, y: int) -> Seq<DrawCommand> {
    if c.dirty {
        seq![cmd_for(c, GridPosition { x: x as i32, y: y as i32 })]
    } else {
        Seq::empty()
    }
}

/// The commands for the column of cells `col` standing at column `x`, in row
/// order.
pub open spec fn column_commands(col: Seq<Cell>, x: int) -> Seq<DrawCommand>
    decreases col.len(),
{
    if col.len() == 0 {
        Seq::empty()
    } else {
        column_commands(col.drop_last(), x) + cell_commands(col.last(), x, col.len() - 1)
    }
}

/// The commands for the whole board `cells`, column by column, each column in
/// row order.
pub open spec fn grid_commands(cells: Seq<Seq<Cell>>) -> Seq<DrawCommand>
    decreases cells.len(),
{
    if cells.len() == 0 {
        Seq::empty()
    } else {
        grid_commands(cells.drop_last()) + column_commands(cells.last(), cells.len() - 1)
    }
}

/// The fixed board: one cell per grid coordinate, held column by column, so
/// that the cell at view index `[x][y]` is the cell at grid position `(x, y)`.
pub struct Grid {
    pub cells: Vec<Vec<Cell>>,
}

impl View for Grid {
    type V = Seq<Seq<Cell>>;

    open spec fn view(&self) -> Seq<Seq<Cell>> {
        self.cells@.map_values(|v: Vec<Cell>| v@)
    }
}

impl Grid {
    /// The board has exactly one cell per coordinate of the fixed grid.
    pub open spec fn wf(self) -> bool {
        &&& self@.len() == GRID_WIDTH as int
        &&& forall|x: int|
            0 <= x < self@.len() ==> (#[trigger] self@[x]).len() == GRID_HEIGHT as int
    }

    /// A fresh board, every cell set to the background color.
    pub fn new() -> (g: Grid)
        ensures
            g.wf(),
            forall|x: int, y: int|
                0 <= x < GRID_WIDTH as int && 0 <= y < GRID_HEIGHT as int ==> g@[x][y]
                    == background_cell(),
    {
        let mut cells: Vec<Vec<Cell>> = Vec::new();
        let mut x: usize = 0;
        while x < GRID_WIDTH
            invariant
                x <= GRID_WIDTH,
                cells@.len() == x as int,
                forall|i: int|
                    0 <= i < x as int ==> (#[trigger] cells@[i])@.len() == GRID_HEIGHT as int,
                forall|i: int, j: int|
                    0 <= i < x as int && 0 <= j < GRID_HEIGHT as int ==> cells@[i]@[j]
                        == background_cell(),
            decreases GRID_WIDTH - x,
        {
            let mut column: Vec<Cell> = Vec::new();
            let mut y: usize = 0;
            while y < GRID_HEIGHT
                invariant
                    y <= GRID_HEIGHT,
                    column@.len() == y as int,
                    forall|j: int| 0 <= j < y as int ==> column@[j] == background_cell(),
                decreases GRID_HEIGHT - y,
            {
                column.push(Cell::new(WheelColor::White, DrawMode::Fill));
                y = y + 1;
            }
            cells.push(column);
            x = x + 1;
        }
        Grid { cells }
    }

    /// The draw commands of one frame: one rectangle per cell that needs
    /// painting, column by column and in row order within a column. Every
    /// cell comes back clean, so a second frame with no change between the
    /// two paints nothing.
    pub fn draw(&mut self) -> (cmds: Vec<DrawCommand>)
        requires
            old(self).wf(),
        ensures
            final(self).wf(),
            cmds@ == grid_commands(old(self)@),
            forall|x: int, y: int|
                0 <= x < GRID_WIDTH as int && 0 <= y < GRID_HEIGHT as int
                    ==> final(self)@[x][y] == cleaned(old(self)@[x][y]),
    {
        let ghost orig = self@;
        let mut cmds: Vec<DrawCommand> = Vec::new();
        let mut new_cells: Vec<Vec<Cell>> = Vec::new();
        let mut x: usize = 0;
        proof {
            assert(cmds@ =~= grid_commands(orig.take(0)));
        }
        while x < GRID_WIDTH
            invariant
                self@ == orig,
                orig.len() == GRID_WIDTH as int,
                forall|i: int|
                    0 <= i < GRID_WIDTH as int ==> (#[trigger] orig[i]).len() == GRID_HEIGHT as int,
                x <= GRID_WIDTH,
                new_cells@.len() == x as int,
                forall|i: int|
                    0 <= i < x as int ==> (#[trigger] new_cells@[i])@.len() == GRID_HEIGHT as int,
                forall|i: int, j: int|
                    0 <= i < x as int && 0 <= j < GRID_HEIGHT as int ==> new_cells@[i]@[j]
                        == cleaned(orig[i][j]),
                cmds@ == grid_commands(orig.take(x as int)),
            decreases GRID_WIDTH - x,
        {
            let mut column: Vec<Cell> = Vec::new();
            let mut y: usize = 0;
            proof {
                assert(orig[x as int].take(0) =~= Seq::<Cell>::empty());
                assert(cmds@ =~= grid_commands(orig.take(x as int)) + column_commands(
                    orig[x as int].take(0),
                    x as int,
                ));
            }
            while y < GRID_HEIGHT
                invariant
                    self@ == orig,
                    orig.len() == GRID_WIDTH as int,
                    forall|i: int|
                        0 <= i < GRID_WIDTH as int ==> (#[trigger] orig[i]).len()
                            == GRID_HEIGHT as int,
                    x < GRID_WIDTH,
                    y <= GRID_HEIGHT,
                    column@.len() == y as int,
                    forall|j: int| 0 <= j < y as int ==> column@[j] == cleaned(orig[x as int][j]),
                    cmds@ == grid_commands(orig.take(x as int)) + column_commands(
                        orig[x as int].take(y as int),
                        x as int,
                    ),
                decreases GRID_HEIGHT - y,
            {
                let pos = GridPosition::from((x, y));
                proof {
                    assert(pos == GridPosition { x: x as i32, y: y as i32 });
                    assert(self@[x as int] == self.cells@[x as int]@);
                }
                let mut cell = self.cells[x][y];
                let cmd = cell.draw(pos);
                match cmd {
                    Some(c) => cmds.push(c),
                    None => (),
                }
                column.push(cell);
                proof {
                    assert(orig[x as int].take(y as int + 1).drop_last() =~= orig[x as int].take(
                        y as int,
                    ));
                    assert(orig[x as int].take(y as int + 1).last() == orig[x as int][y as int]);
                    assert(cmds@ =~= grid_commands(orig.take(x as int)) + column_commands(
                        orig[x as int].take(y as int + 1),
                        x as int,
                    ));
                }
                y = y + 1;
            }
            new_cells.push(column);
            proof {
                assert(orig[x as int].take(GRID_HEIGHT as int) =~= orig[x as int]);
                assert(orig.take(x as int + 1).drop_last() =~= orig.take(x as int));
                assert(orig.take(x as int + 1).last() == orig[x as int]);
                assert(cmds@ =~= grid_commands(orig.take(x as int + 1)));
            }
            x = x + 1;
        }
        proof {
            assert(orig.take(GRID_WIDTH as int) =~= orig);
        }
        self.cells = new_cells;
        cmds
    }
}

} // verus!
