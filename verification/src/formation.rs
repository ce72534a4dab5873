//! The enemy grid: where each enemy of a fresh formation stands.
//!
//! A formation is a grid of `rows` by `cols` enemies with `padding` empty
//! cells between neighbours of a row. It is centred on the screen: the middle
//! of a row falls on the centre cell of the screen, for every parity of the
//! screen width, the padding and the number of columns.

use crate::coords::Position;
use vstd::prelude::*;

verus! {

/// The cell in the middle of a screen that is `total_area_width` cells wide.
pub open spec fn spec_center_cell(total_area_width: int) -> int {
    (total_area_width - 1) / 2
}

/// The number of cells from the first to the last enemy of a row, both
/// included.
pub open spec fn spec_enemies_width(padding: int, num_enemies_in_row: int) -> int {
    num_enemies_in_row + (num_enemies_in_row - 1) * padding
}

/// The distance from the first enemy of a row to the middle of the row.
pub open spec fn spec_enemies_center(padding: int, num_enemies_in_row: int) -> int {
    (spec_enemies_width(padding, num_enemies_in_row) - 1) / 2
}

/// The column of the screen on which the enemy in column `col` of the grid
/// stands.
pub open spec fn spec_enemy_x_pos(
    total_area_width: int,
    padding: int,
    num_enemies_in_row: int,
    col: int,
) -> int {
    (spec_center_cell(total_area_width) - spec_enemies_center(padding, num_enemies_in_row)) + (
    padding + 1) * col
}

/// The grids that can be placed: there is a screen and an enemy, the row is
/// not wider than twice the left half of the screen, and every number on the
/// way fits in `u64`.
pub open spec fn enemy_x_pos_defined(
    total_area_width: u64,
    padding: u64,
    num_enemies_in_row: u64,
    col: u64,
) -> bool {
    &&& total_area_width >= 1
    &&& num_enemies_in_row >= 1
    &&& padding < u64::MAX
    &&& spec_enemies_width(padding as int, num_enemies_in_row as int) <= u64::MAX
    &&& spec_enemies_center(padding as int, num_enemies_in_row as int) <= spec_center_cell(
        total_area_width as int,
    )
    &&& (padding + 1) * col <= u64::MAX
    &&& spec_enemy_x_pos(
        total_area_width as int,
        padding as int,
        num_enemies_in_row as int,
        col as int,
    ) <= u64::MAX
}

/// The column of the screen on which the enemy in column `col` of a centred
/// row stands.
pub fn get_enemy_x_pos(
    total_area_width: u64,
    padding: u64,
    num_enemies_in_row: u64,
    col: u64,
) -> (x: u64)
    requires
        enemy_x_pos_defined(total_area_width, padding, num_enemies_in_row, col),
    ensures
        x == spec_enemy_x_pos(
            total_area_width as int,
            padding as int,
            num_enemies_in_row as int,
            col as int,
        ),
{
    let center_cell: u64 = (total_area_width - 1) / 2;
    assert((num_enemies_in_row - 1) * padding <= u64::MAX) by (nonlinear_arith)
        requires
            num_enemies_in_row >= 1,
            num_enemies_in_row + (num_enemies_in_row - 1) * padding <= u64::MAX,
    ;
    let enemies_width: u64 = num_enemies_in_row + (num_enemies_in_row - 1) * padding;
    let enemies_center: u64 = (enemies_width - 1) / 2;
    (center_cell - enemies_center) + (padding + 1) * col
}

/// The column of the enemy in column `col` of a centred row, or `None` where
/// the grid cannot be placed.
pub fn checked_enemy_x_pos(
    total_area_width: u64,
    padding: u64,
    num_enemies_in_row: u64,
    col: u64,
) -> (x: Option<u64>)
    ensures
        x.is_some() == enemy_x_pos_defined(total_area_width, padding, num_enemies_in_row, col),
        x matches Some(column) ==> column == spec_enemy_x_pos(
            total_area_width as int,
            padding as int,
            num_enemies_in_row as int,
            col as int,
        ),
{
    if total_area_width == 0 || num_enemies_in_row == 0 || padding == u64::MAX {
        return None;
    }
    let gaps: u64 = match (num_enemies_in_row - 1).checked_mul(padding) {
        Some(gaps) => gaps,
        None => {
            return None;
        },
    };
    let enemies_width: u64 = match num_enemies_in_row.checked_add(gaps) {
        Some(width) => width,
        None => {
            return None;
        },
    };
    let center_cell: u64 = (total_area_width - 1) / 2;
    let enemies_center: u64 = (enemies_width - 1) / 2;
    if enemies_center > center_cell {
        return None;
    }
    let offset: u64 = match (padding + 1).checked_mul(col) {
        Some(offset) => offset,
        None => {
            return None;
        },
    };
    (center_cell - enemies_center).checked_add(offset)
}

/// The first and the last enemy of a row are equally far from the centre cell
/// of the screen, up to the one cell that parity can cost, and neighbours are
/// one padding apart.
pub proof fn lemma_row_is_centered(
    total_area_width: int,
    padding: int,
    num_enemies_in_row: int,
    col: int,
)
    requires
        total_area_width >= 1,
        num_enemies_in_row >= 1,
        padding >= 0,
    ensures
        ({
            let first = spec_enemy_x_pos(total_area_width, padding, num_enemies_in_row, 0);
            let last = spec_enemy_x_pos(
                total_area_width,
                padding,
                num_enemies_in_row,
                num_enemies_in_row - 1,
            );
            let center = spec_center_cell(total_area_width);
            &&& last - first == spec_enemies_width(padding, num_enemies_in_row) - 1
            &&& 0 <= (last - center) - (center - first) <= 1
            &&& (spec_enemies_width(padding, num_enemies_in_row) % 2 == 1 ==> last - center
                == center - first)
        }),
        spec_enemy_x_pos(total_area_width, padding, num_enemies_in_row, col + 1)
            - spec_enemy_x_pos(total_area_width, padding, num_enemies_in_row, col) == padding + 1,
{
    assert((padding + 1) * (col + 1) - (padding + 1) * col == padding + 1) by (nonlinear_arith);
    assert((padding + 1) * 0 == 0) by (nonlinear_arith);
    assert((padding + 1) * (num_enemies_in_row - 1) == num_enemies_in_row + (num_enemies_in_row
        - 1) * padding - 1) by (nonlinear_arith);
    assert((num_enemies_in_row - 1) * padding >= 0) by (nonlinear_arith)
        requires
            num_enemies_in_row >= 1,
            padding >= 0,
    ;
}

/// The shape and the place of a formation.
#[derive(Clone, Copy, Debug, PartialEq, Eq, Structural)]
pub struct Formation {
    /// Width of the screen in cells.
    pub total_area_width: u64,
    /// Empty cells between two neighbours of a row.
    pub padding: u64,
    pub num_enemies_in_row: u64,
    pub num_rows: u64,
    /// Row of the screen on which the first row of the grid stands.
    pub row_origin: u64,
    /// Distance between two rows of the grid.
    pub row_padding: u64,
}

impl Formation {
    /// The formation can be placed, and its cells are cells of the grid.
    pub open spec fn wf(&self) -> bool {
        &&& self.num_enemies_in_row >= 1
        &&& enemy_x_pos_defined(
            self.total_area_width,
            self.padding,
            self.num_enemies_in_row,
            (self.num_enemies_in_row - 1) as u64,
        )
        &&& spec_enemy_x_pos(
            self.total_area_width as int,
            self.padding as int,
            self.num_enemies_in_row as int,
            self.num_enemies_in_row - 1,
        ) <= i64::MAX
        &&& self.row_origin + self.num_rows * self.row_padding <= i64::MAX
        &&& self.num_rows * self.num_enemies_in_row <= usize::MAX
    }

    /// The cell of the enemy in row `row` and column `col` of the grid.
    pub open spec fn spec_cell(&self, row: int, col: int) -> Position {
        Position {
            x: spec_enemy_x_pos(
                self.total_area_width as int,
                self.padding as int,
                self.num_enemies_in_row as int,
                col,
            ) as i64,
            y: (self.row_origin + row * self.row_padding) as i64,
        }
    }

    /// The cells of row `row`, left to right.
    pub open spec fn spec_row(&self, row: int) -> Seq<Position> {
        Seq::new(self.num_enemies_in_row as nat, |col: int| self.spec_cell(row, col))
    }

    /// The cells of the first `rows` rows: top row first, each row left to
    /// right.
    pub open spec fn spec_rows(&self, rows: nat) -> Seq<Position>
        decreases rows,
    {
        if rows == 0 {
            Seq::empty()
        } else {
            self.spec_rows((rows - 1) as nat) + self.spec_row(rows - 1)
        }
    }

    /// The cells of the whole formation.
    pub open spec fn spec_cells(&self) -> Seq<Position> {
        self.spec_rows(self.num_rows as nat)
    }

    /// A formation has one cell per row and column.
    pub proof fn lemma_rows_len(&self, rows: nat)
        ensures
            self.spec_rows(rows).len() == rows * self.num_enemies_in_row,
        decreases rows,
    {
        if rows > 0 {
            self.lemma_rows_len((rows - 1) as nat);
            assert((rows - 1) * self.num_enemies_in_row + self.num_enemies_in_row == rows
                * self.num_enemies_in_row) by (nonlinear_arith);
        } else {
            assert(0 * self.num_enemies_in_row == 0) by (nonlinear_arith);
        }
    }

    /// Whether the formation can be placed.
    pub fn is_placeable(&self) -> (ok: bool)
        ensures
            ok == self.wf(),
    {
        if self.num_enemies_in_row == 0 {
            return false;
        }
        let last = checked_enemy_x_pos(
            self.total_area_width,
            self.padding,
            self.num_enemies_in_row,
            self.num_enemies_in_row - 1,
        );
        let last_fits = match last {
            Some(x) => x <= i64::MAX as u64,
            None => false,
        };
        let rows_fit = match self.num_rows.checked_mul(self.row_padding) {
            Some(height) => match self.row_origin.checked_add(height) {
                Some(bottom) => bottom <= i64::MAX as u64,
                None => false,
            },
            None => false,
        };
        let count_fits = match self.num_rows.checked_mul(self.num_enemies_in_row) {
            Some(count) => count <= usize::MAX as u64,
            None => false,
        };
        last_fits && rows_fit && count_fits
    }

    /// The cell of the enemy in row `row` and column `col` of the grid.
    pub fn cell(&self, row: u64, col: u64) -> (cell: Position)
        requires
            self.wf(),
            row < self.num_rows,
            col < self.num_enemies_in_row,
        ensures
            cell == self.spec_cell(row as int, col as int),
    {
        proof {
            self.lemma_cell_fits(row as int, col as int);
        }
        let x: u64 = get_enemy_x_pos(
            self.total_area_width,
            self.padding,
            self.num_enemies_in_row,
            col,
        );
        let y: u64 = self.row_origin + row * self.row_padding;
        Position { x: x as i64, y: y as i64 }
    }

    /// Every cell of a placeable formation can be computed as the last one
    /// can.
    pub proof fn lemma_cell_fits(&self, row: int, col: int)
        requires
            self.wf(),
            0 <= row < self.num_rows,
            0 <= col < self.num_enemies_in_row,
        ensures
            enemy_x_pos_defined(
                self.total_area_width,
                self.padding,
                self.num_enemies_in_row,
                col as u64,
            ),
            0 <= spec_enemy_x_pos(
                self.total_area_width as int,
                self.padding as int,
                self.num_enemies_in_row as int,
                col,
            ) <= spec_enemy_x_pos(
                self.total_area_width as int,
                self.padding as int,
                self.num_enemies_in_row as int,
                self.num_enemies_in_row - 1,
            ),
            0 <= row * self.row_padding <= self.num_rows * self.row_padding,
    {
        let step = self.padding + 1;
        let last = self.num_enemies_in_row - 1;
        assert(0 <= step * col <= step * last) by (nonlinear_arith)
            requires
                0 <= col <= last,
                step >= 1,
        ;
        assert(0 <= row * self.row_padding <= self.num_rows * self.row_padding)
            by (nonlinear_arith)
            requires
                0 <= row < self.num_rows,
                self.row_padding >= 0,
        ;
    }

    /// The cells of the formation: top row first, each row left to right.
    pub fn cells(&self) -> (cells: Vec<Position>)
        requires
            self.wf(),
        ensures
            cells@ == self.spec_cells(),
            cells@.len() == self.num_rows * self.num_enemies_in_row,
    {
        let mut cells: Vec<Position> = Vec::new();
        let mut row: u64 = 0;
        while row < self.num_rows
            invariant
                self.wf(),
                row <= self.num_rows,
                cells@ == self.spec_rows(row as nat),
            decreases self.num_rows - row,
        {
            let mut col: u64 = 0;
            while col < self.num_enemies_in_row
                invariant
                    self.wf(),
                    row < self.num_rows,
                    col <= self.num_enemies_in_row,
                    cells@ == self.spec_rows(row as nat) + self.spec_row(row as int).take(
                        col as int,
                    ),
                decreases self.num_enemies_in_row - col,
            {
                let cell = self.cell(row, col);
                cells.push(cell);
                col += 1;
            }
            row += 1;
        }
        proof {
            self.lemma_rows_len(self.num_rows as nat);
        }
        cells
    }
}

} // verus!
