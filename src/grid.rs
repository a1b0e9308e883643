use vstd::prelude::*;

use crate::robot::MousePos;

verus! {

/// A zero-based `(column, row)` position in an item grid.
#[derive(Debug, Copy, Clone, PartialEq, Eq, Structural)]
pub struct ItemPos(pub u32, pub u32);

/// The kinds of item whose grids the screen can show.
#[derive(Debug, Copy, Clone, PartialEq, Eq, Structural, Hash)]
pub enum ItemClass {
    White,
    Green,
    Red,
    Lunar,
    UseItem,
    BossItem,
}

/// The layout of the item picker and the screen it is shown on.
///
/// `grid_size` gives the columns and rows of each class's grid; the first
/// entry for a class is the one that counts.
pub struct ScreenInfo {
    pub item_icon_size: u32,
    pub item_icon_margin: u32,
    pub screen_size: (u32, u32),
    pub grid_size: Vec<(ItemClass, (u32, u32))>,
}

/// Why a grid position has no screen point.
#[derive(Debug, Copy, Clone, PartialEq, Eq, Structural)]
pub enum GridError {
    /// The screen description has no grid for the class.
    UnknownClass,
    /// The point does not fit in `i32` screen coordinates.
    OutOfRange,
}

/// The grid size of `class`: the first entry that names it.
pub open spec fn grid_lookup(entries: Seq<(ItemClass, (u32, u32))>, class: ItemClass) -> Option<
    (u32, u32),
>
    decreases entries.len(),
{
    if entries.len() == 0 {
        None
    } else if entries[0].0 == class {
        Some(entries[0].1)
    } else {
        grid_lookup(entries.drop_first(), class)
    }
}

pub open spec fn max0(v: int) -> int {
    if v > 0 {
        v
    } else {
        0
    }
}

/// Along one axis: the centre of cell `index` of a grid of `cells` icons of
/// size `icon`, `margin` apart, centred on a screen `screen_len` long.
/// Divisions are floor divisions; the margins before the cell are counted
/// as `max(index - 1, 0)`.
pub open spec fn cell_center(screen_len: int, icon: int, margin: int, cells: int, index: int) -> int {
    let grid = cells * icon + (cells - 1) * margin;
    screen_len / 2 - grid / 2 + icon / 2 + index * icon + max0(index - 1) * margin
}

pub open spec fn fits_i32(v: int) -> bool {
    i32::MIN <= v <= i32::MAX
}

impl ScreenInfo {
    pub open spec fn center_x(&self, columns: u32, pos: ItemPos) -> int {
        cell_center(
            self.screen_size.0 as int,
            self.item_icon_size as int,
            self.item_icon_margin as int,
            columns as int,
            pos.0 as int,
        )
    }

    pub open spec fn center_y(&self, rows: u32, pos: ItemPos) -> int {
        cell_center(
            self.screen_size.1 as int,
            self.item_icon_size as int,
            self.item_icon_margin as int,
            rows as int,
            pos.1 as int,
        )
    }

    /// The grid size of `class`, if the screen has a grid for it.
    pub fn grid_of(&self, class: &ItemClass) -> (r: Option<(u32, u32)>)
        ensures
            r == grid_lookup(self.grid_size@, *class),
    {
        let mut k: usize = 0;
        assert(self.grid_size@.skip(0) == self.grid_size@);
        while k < self.grid_size.len()
            invariant
                0 <= k <= self.grid_size@.len(),
                grid_lookup(self.grid_size@.skip(k as int), *class) == grid_lookup(
                    self.grid_size@,
                    *class,
                ),
            decreases self.grid_size@.len() - k,
        {
            let ghost rest = self.grid_size@.skip(k as int);
            assert(rest.drop_first() == self.grid_size@.skip(k + 1));
            if self.grid_size[k].0 == *class {
                return Some(self.grid_size[k].1);
            }
            k = k + 1;
        }
        None
    }
}

/// `v / 2`, rounded down.
fn floor_half(v: i128) -> (r: i128)
    requires
        v > i128::MIN + 1,
    ensures
        r == v / 2,
{
    if v >= 0 {
        v / 2
    } else {
        -((-v + 1) / 2)
    }
}

fn axis_center(screen_len: u32, icon: u32, margin: u32, cells: u32, index: u32) -> (r: i128)
    ensures
        r == cell_center(screen_len as int, icon as int, margin as int, cells as int, index as int),
{
    let lim: i128 = 0x1_0000_0000;
    proof {
        assert(0 <= cells * icon <= lim * lim) by (nonlinear_arith)
            requires
                0 <= cells < lim,
                0 <= icon < lim,
        ;
        assert(-lim <= (cells - 1) * margin <= lim * lim) by (nonlinear_arith)
            requires
                0 <= cells < lim,
                0 <= margin < lim,
        ;
        assert(0 <= index * icon <= lim * lim) by (nonlinear_arith)
            requires
                0 <= index < lim,
                0 <= icon < lim,
        ;
        assert(0 <= max0(index - 1) * margin <= lim * lim) by (nonlinear_arith)
            requires
                0 <= max0(index - 1) < lim,
                0 <= margin < lim,
        ;
    }
    let grid = (cells as i128) * (icon as i128) + ((cells as i128) - 1) * (margin as i128);
    let gaps: i128 = if index >= 1 {
        (index as i128) - 1
    } else {
        0
    };
    (screen_len / 2) as i128 - floor_half(grid) + (icon / 2) as i128 + (index as i128) * (
    icon as i128) + gaps * (margin as i128)
}

/// The screen point at the centre of the icon at `pos` in the grid of
/// `class`, the grid being centred on the screen.
pub fn item_to_screen_pos(screen: &ScreenInfo, class: &ItemClass, pos: ItemPos) -> (r: Result<
    MousePos,
    GridError,
>)
    ensures
        match grid_lookup(screen.grid_size@, *class) {
            None => r == Err::<MousePos, GridError>(GridError::UnknownClass),
            Some((columns, rows)) => {
                let x = screen.center_x(columns, pos);
                let y = screen.center_y(rows, pos);
                if fits_i32(x) && fits_i32(y) {
                    r == Ok::<MousePos, GridError>(MousePos(x as i32, y as i32))
                } else {
                    r == Err::<MousePos, GridError>(GridError::OutOfRange)
                }
            },
        },
{
    let (columns, rows) = match screen.grid_of(class) {
        Some(size) => size,
        None => {
            return Err(GridError::UnknownClass);
        },
    };
    let icon = screen.item_icon_size;
    let margin = screen.item_icon_margin;
    let (screen_width, screen_height) = screen.screen_size;
    let x = axis_center(screen_width, icon, margin, columns, pos.0);
    let y = axis_center(screen_height, icon, margin, rows, pos.1);
    if x < i32::MIN as i128 || x > i32::MAX as i128 || y < i32::MIN as i128 || y > i32::MAX as i128 {
        return Err(GridError::OutOfRange);
    }
    Ok(MousePos(x as i32, y as i32))
}

/// Centres of neighbouring cells lie one icon and one margin apart, from the
/// second cell on.
pub proof fn lemma_adjacent_cells_spacing(
    screen_len: int,
    icon: int,
    margin: int,
    cells: int,
    index: int,
)
    requires
        index >= 1,
    ensures
        cell_center(screen_len, icon, margin, cells, index + 1) - cell_center(
            screen_len,
            icon,
            margin,
            cells,
            index,
        ) == icon + margin,
{
    assert((index + 1) * icon == index * icon + icon) by (nonlinear_arith);
    assert(index * margin == (index - 1) * margin + margin) by (nonlinear_arith);
}

/// The centres of the first two cells lie one icon apart.
pub proof fn lemma_first_cells_spacing(screen_len: int, icon: int, margin: int, cells: int)
    ensures
        cell_center(screen_len, icon, margin, cells, 1) - cell_center(
            screen_len,
            icon,
            margin,
            cells,
            0,
        ) == icon,
{
}

} // verus!
