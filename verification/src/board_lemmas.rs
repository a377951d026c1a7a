//! Facts about the model of the board: what a scan finds, what a lock fills,
//! and what a collapse leaves.

use crate::board::{
    block_of, collapsed, empty_grid, empty_row, full_row_count, grid_at, holds_block, in_grid,
    legal, locked, no_full_row, occupied_cells, row_full, row_stays, scan_order, surviving_rows,
    well_formed, CellState, Grid, BOARD_HEIGHT, BOARD_WIDTH,
};
use crate::piece::{lemma_cells_distinct, lemma_cells_near_anchor, Coord, GamePiece};
use vstd::prelude::*;

verus! {

/// What passes a test out of a sequence without repeats has no repeats.
proof fn lemma_filter_keeps_distinct<A>(s: Seq<A>, pred: spec_fn(A) -> bool)
    requires
        s.no_duplicates(),
    ensures
        s.filter(pred).no_duplicates(),
    decreases s.len(),
{
    reveal(Seq::filter);
    if s.len() > 0 {
        let rest = s.drop_last();
        lemma_filter_keeps_distinct(rest, pred);
        if rest.filter(pred).contains(s.last()) {
            rest.lemma_filter_contains_rev(pred, s.last());
            let i = choose|i: int| 0 <= i < rest.len() && rest[i] == s.last();
            assert(s[i] == s[s.len() - 1]);
        }
    }
}

/// Where every element passes the test, all of them stay.
proof fn lemma_filter_keeps_all<A>(s: Seq<A>, pred: spec_fn(A) -> bool)
    requires
        forall|i: int| 0 <= i < s.len() ==> pred(#[trigger] s[i]),
    ensures
        s.filter(pred) == s,
    decreases s.len(),
{
    reveal(Seq::filter);
    if s.len() > 0 {
        let rest = s.drop_last();
        assert forall|i: int| 0 <= i < rest.len() implies pred(#[trigger] rest[i]) by {
            assert(rest[i] == s[i]);
        }
        lemma_filter_keeps_all(rest, pred);
        assert(pred(s[s.len() - 1]));
        assert(rest.push(s.last()) =~= s);
    }
}

/// A scan visits no cell twice.
pub proof fn lemma_scan_order_distinct()
    ensures
        scan_order().no_duplicates(),
{
}

/// A scan finds the occupied cells of the board, each once, and nothing
/// else.
pub proof fn lemma_occupied_cells_exact(grid: Grid)
    ensures
        occupied_cells(grid).no_duplicates(),
        forall|cell: Coord| #[trigger]
            occupied_cells(grid).contains(cell) <==> in_grid(cell) && grid_at(grid, cell)
                is Occupied,
{
    let scan = scan_order();
    let test = holds_block(grid);
    let found = scan.filter(test);
    lemma_scan_order_distinct();
    lemma_filter_keeps_distinct(scan, test);
    assert forall|cell: Coord| #[trigger]
        found.contains(cell) <==> in_grid(cell) && grid_at(grid, cell) is Occupied by {
        if found.contains(cell) {
            let i = choose|i: int| 0 <= i < found.len() && found[i] == cell;
            scan.lemma_filter_pred(test, i);
            scan.lemma_filter_contains_rev(test, cell);
            let k = choose|k: int| 0 <= k < scan.len() && scan[k] == cell;
            assert(in_grid(scan[k]));
        }
        if in_grid(cell) && grid_at(grid, cell) is Occupied {
            let k = (BOARD_HEIGHT - 1 - cell.y) * BOARD_WIDTH + cell.x;
            assert(scan[k] == cell);
            scan.lemma_filter_contains(test, k);
        }
    }
}

/// Where no row is full, a collapse takes nothing out and leaves the grid as
/// it is.
pub proof fn lemma_collapse_without_full_row(grid: Grid)
    requires
        no_full_row(grid),
    ensures
        full_row_count(grid) == 0,
        collapsed(grid) == grid,
{
    lemma_filter_keeps_all(grid, row_stays());
    assert(collapsed(grid) =~= grid);
}

/// A lock on an empty board fills no row: a piece is four columns wide at
/// most, and a row has ten.
pub proof fn lemma_lock_on_empty_board_fills_no_row(piece: GamePiece)
    ensures
        no_full_row(locked(empty_grid(), piece)),
{
    let stack = locked(empty_grid(), piece);
    assert forall|y: int| 0 <= y < stack.len() implies !row_full(#[trigger] stack[y]) by {
        let x: int = if piece.position.x > 1 {
            0
        } else {
            9
        };
        let cell = Coord { x, y };
        if piece.covers(cell) {
            let i = choose|i: int| 0 <= i < 4 && piece.cells()[i] == cell;
            lemma_cells_near_anchor(piece, i);
        }
        assert(stack[y][x] is Empty);
    }
}

/// After a piece has locked on an empty board, the occupied cells are the
/// four cells of the piece and no others, each holds a block in the colour
/// of the piece, every other cell is empty, and a collapse changes nothing.
pub proof fn lemma_lock_on_empty_board(piece: GamePiece)
    requires
        legal(empty_grid(), piece),
    ensures
        forall|cell: Coord| #[trigger]
            occupied_cells(locked(empty_grid(), piece)).contains(cell) <==> piece.covers(cell),
        occupied_cells(locked(empty_grid(), piece)).len() == 4,
        forall|cell: Coord| #[trigger]
            piece.covers(cell) ==> grid_at(locked(empty_grid(), piece), cell) == block_of(piece),
        forall|cell: Coord|
            in_grid(cell) && !piece.covers(cell) ==> #[trigger] grid_at(
                locked(empty_grid(), piece),
                cell,
            ) is Empty,
        full_row_count(locked(empty_grid(), piece)) == 0,
        collapsed(locked(empty_grid(), piece)) == locked(empty_grid(), piece),
{
    let stack = locked(empty_grid(), piece);
    let found = occupied_cells(stack);
    lemma_occupied_cells_exact(stack);
    lemma_cells_distinct(piece);
    lemma_lock_on_empty_board_fills_no_row(piece);
    lemma_collapse_without_full_row(stack);
    assert forall|cell: Coord| #[trigger] found.contains(cell) <==> piece.covers(cell) by {
        if piece.covers(cell) {
            let i = choose|i: int| 0 <= i < 4 && piece.cells()[i] == cell;
            assert(in_grid(piece.cells()[i]));
        }
    }
    assert forall|cell: Coord| #[trigger] piece.covers(cell) implies grid_at(stack, cell)
        == block_of(piece) by {
        let i = choose|i: int| 0 <= i < 4 && piece.cells()[i] == cell;
        assert(in_grid(piece.cells()[i]));
    }
    assert(found.to_set() =~= piece.cells().to_set()) by {
        assert forall|cell: Coord| found.contains(cell) <==> piece.cells().contains(cell) by {
            if piece.cells().contains(cell) {
                let i = choose|i: int| 0 <= i < piece.cells().len() && piece.cells()[i] == cell;
                assert(piece.covers(cell));
            }
            if piece.covers(cell) {
                let i = choose|i: int| 0 <= i < 4 && piece.cells()[i] == cell;
                assert(piece.cells().contains(cell));
            }
        }
    }
    found.unique_seq_to_set();
    piece.cells().unique_seq_to_set();
}

/// Among the first `n` rows of a grid there are no more full rows than the
/// set `rows` has members, where that set holds the number of each of them.
proof fn lemma_full_rows_among(grid: Grid, n: int, rows: Set<int>)
    requires
        0 <= n <= grid.len(),
        rows.finite(),
        forall|y: int| 0 <= y < n && row_full(#[trigger] grid[y]) ==> rows.contains(y),
    ensures
        n - surviving_rows(grid.take(n)).len() <= rows.len(),
    decreases n,
{
    reveal(Seq::filter);
    if n > 0 {
        let y = n - 1;
        assert(grid.take(n).drop_last() =~= grid.take(y));
        assert(grid.take(n).last() == grid[y]);
        if row_full(grid[y]) {
            lemma_full_rows_among(grid, y, rows.remove(y));
        } else {
            lemma_full_rows_among(grid, y, rows);
        }
    }
}

/// A lock fills at most four rows: where no row was full before a legal
/// piece locked, at most four rows are full after it.
pub proof fn lemma_lock_fills_at_most_four_rows(grid: Grid, piece: GamePiece)
    requires
        well_formed(grid),
        no_full_row(grid),
        legal(grid, piece),
    ensures
        0 <= full_row_count(locked(grid, piece)) <= 4,
{
    let stack = locked(grid, piece);
    let cells = piece.cells();
    let rows = Set::<int>::empty().insert(cells[0].y).insert(cells[1].y).insert(
        cells[2].y,
    ).insert(cells[3].y);
    assert forall|y: int| 0 <= y < BOARD_HEIGHT && row_full(#[trigger] stack[y]) implies
        rows.contains(y) by {
        let x = choose|x: int| 0 <= x < grid[y].len() && !((#[trigger] grid[y][x]) is Occupied);
        assert(stack[y][x] is Occupied);
        assert(piece.covers(Coord { x, y }));
        let i = choose|i: int| 0 <= i < 4 && cells[i] == (Coord { x, y });
        assert(cells[i].y == y);
    }
    lemma_full_rows_among(stack, BOARD_HEIGHT as int, rows);
    assert(stack.take(BOARD_HEIGHT as int) =~= stack);
    stack.lemma_filter_len(row_stays());
}

/// A collapse leaves a grid of the board's measures without a full row.
pub proof fn lemma_collapse_leaves_no_full_row(grid: Grid)
    requires
        well_formed(grid),
    ensures
        well_formed(collapsed(grid)),
        no_full_row(collapsed(grid)),
{
    let kept = surviving_rows(grid);
    let after = collapsed(grid);
    grid.lemma_filter_len(row_stays());
    assert(empty_row()[0] is Empty);
    assert forall|y: int| 0 <= y < after.len() implies (#[trigger] after[y]).len() == BOARD_WIDTH
        && !row_full(after[y]) by {
        if y < kept.len() {
            grid.lemma_filter_pred(row_stays(), y);
            assert(kept.contains(kept[y]));
            grid.lemma_filter_contains_rev(row_stays(), kept[y]);
            let k = choose|k: int| 0 <= k < grid.len() && grid[k] == kept[y];
            assert(grid[k].len() == BOARD_WIDTH);
        } else {
            assert(after[y] == empty_row());
        }
    }
}

/// Where one row is full and no other, a collapse takes that row out, moves
/// every row above it down by one, and leaves the top row empty.
pub proof fn lemma_collapse_of_one_full_row(grid: Grid, row: int)
    requires
        well_formed(grid),
        0 <= row < BOARD_HEIGHT,
        row_full(grid[row]),
        forall|y: int| 0 <= y < BOARD_HEIGHT && y != row ==> !row_full(#[trigger] grid[y]),
    ensures
        full_row_count(grid) == 1,
        collapsed(grid) == grid.remove(row).push(empty_row()),
{
    let below = grid.take(row);
    let above = grid.skip(row + 1);
    let full = Seq::<Seq<CellState>>::empty().push(grid[row]);
    assert(grid =~= below + full + above);
    assert forall|i: int| 0 <= i < below.len() implies row_stays()(#[trigger] below[i]) by {
        assert(below[i] == grid[i]);
    }
    assert forall|i: int| 0 <= i < above.len() implies row_stays()(#[trigger] above[i]) by {
        assert(above[i] == grid[i + row + 1]);
    }
    lemma_filter_keeps_all(below, row_stays());
    lemma_filter_keeps_all(above, row_stays());
    reveal(Seq::filter);
    Seq::<Seq<CellState>>::empty().lemma_filter_push(grid[row], row_stays());
    assert(full.filter(row_stays()) =~= Seq::<Seq<CellState>>::empty());
    Seq::filter_distributes_over_add(below, full, row_stays());
    Seq::filter_distributes_over_add(below + full, above, row_stays());
    assert(surviving_rows(grid) =~= below + above);
    assert(collapsed(grid) =~= grid.remove(row).push(empty_row()));
}

} // verus!
