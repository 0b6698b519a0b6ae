//! What holds of the rules of the game, on every board.

use vstd::prelude::*;
use crate::board::{in_square, Board};
use crate::game::{Action, Button, Event, GameState};

verus! {

/// The cell under the pointer is the one cell whose square holds the
/// pointer: `hit` names the cell `(x, y)` if and only if `(x, y)` is on the
/// grid and the pointer lies in its square.
pub proof fn lemma_hit_is_the_cell_under_the_pointer(
    board: Board,
    x: int,
    y: int,
    px: int,
    py: int,
)
    requires
        board.well_formed(),
    ensures
        board.hit(px, py) == Some((x, y)) <==> board.on_grid(x, y) && in_square(x, y, px, py),
{
}

/// The grid never changes its size: the next generation, a press and a
/// release all give a well-formed board as wide and as high as before.
pub proof fn lemma_size_is_kept(board: Board, px: int, py: int)
    requires
        board.well_formed(),
    ensures
        board.step().well_formed(),
        board.step().width() == board.width(),
        board.step().height() == board.height(),
        board.toggle(px, py).well_formed(),
        board.toggle(px, py).width() == board.width(),
        board.toggle(px, py).height() == board.height(),
        board.release().well_formed(),
        board.release().width() == board.width(),
        board.release().height() == board.height(),
{
    if let Some((x, y)) = board.hit(px, py) {
        lemma_hit_is_the_cell_under_the_pointer(board, x, y, px, py);
    }
}

/// Nothing comes from nothing: the generation after one in which every cell
/// is dead has every cell dead too.
pub proof fn lemma_dead_board_stays_dead(board: Board)
    requires
        board.well_formed(),
        board.all_dead(),
    ensures
        board.step().all_dead(),
{
    lemma_size_is_kept(board, 0, 0);
    assert forall|x: int, y: int| board.step().on_grid(x, y) implies !#[trigger] board.step().cells[y][x] by {
        lemma_no_neighbors_on_dead_board(board, x, y);
    }
}

/// On a board on which every cell is dead, every neighbour count is 0.
pub proof fn lemma_no_neighbors_on_dead_board(board: Board, x: int, y: int)
    requires
        board.well_formed(),
        board.all_dead(),
    ensures
        board.neighbors(x, y) == 0,
{
}

/// A live cell with no live neighbour is dead in the next generation,
/// wherever on the grid it is.
pub proof fn lemma_lonely_cell_dies(board: Board, x: int, y: int)
    requires
        board.well_formed(),
        board.on_grid(x, y),
        board.cells[y][x],
        board.neighbors(x, y) == 0,
    ensures
        !board.step().cells[y][x],
{
}

/// A board whose only live cell is the one at `(x, y)` has every cell dead
/// in the next generation, wherever on the grid `(x, y)` is.
pub proof fn lemma_single_cell_dies_out(board: Board, x: int, y: int)
    requires
        board.well_formed(),
        board.on_grid(x, y),
        forall|i: int, j: int| board.on_grid(i, j) ==> (#[trigger] board.cells[j][i] <==> i == x && j == y),
    ensures
        board.neighbors(x, y) == 0,
        board.step().all_dead(),
{
    lemma_size_is_kept(board, 0, 0);
    assert forall|i: int, j: int| board.step().on_grid(i, j) implies !#[trigger] board.step().cells[j][i] by {
        assert(board.neighbors(i, j) <= 1);
    }
}

/// From the third row and the third column on, the neighbour count of a
/// cell is exactly the number of live cells among the eight around it. This
/// holds of every cell in the interior of the grid.
pub proof fn lemma_neighbors_exact_off_the_border(board: Board, x: int, y: int)
    requires
        board.well_formed(),
        2 <= x,
        2 <= y,
    ensures
        board.neighbors(x, y) == board.live_around(x, y),
{
}

/// On a grid of one row or of one column no position is counted, so every
/// neighbour count is 0 and the next generation has every cell dead.
pub proof fn lemma_single_line_dies_out(board: Board)
    requires
        board.well_formed(),
        board.width() == 1 || board.height() == 1,
    ensures
        forall|x: int, y: int| #[trigger] board.neighbors(x, y) == 0,
        board.step().all_dead(),
{
    lemma_size_is_kept(board, 0, 0);
}

/// A neighbour count is at least 0 and at most 8.
pub proof fn lemma_neighbors_bounds(board: Board, x: int, y: int)
    ensures
        0 <= board.neighbors(x, y) <= 8,
{
}

/// A press flips at most one cell: while the lock is open and the pointer
/// is over the cell `(x, y)`, that cell is flipped, every other cell is as
/// before, and the lock is closed.
pub proof fn lemma_toggle_flips_one_cell(board: Board, x: int, y: int, px: int, py: int)
    requires
        board.well_formed(),
        board.can_click,
        board.on_grid(x, y),
        in_square(x, y, px, py),
    ensures
        !board.toggle(px, py).can_click,
        board.toggle(px, py).cells[y][x] == !board.cells[y][x],
        forall|i: int, j: int|
            board.on_grid(i, j) && !(i == x && j == y) ==> #[trigger] board.toggle(px, py).cells[j][i]
                == board.cells[j][i],
{
    lemma_hit_is_the_cell_under_the_pointer(board, x, y, px, py);
}

/// Two presses at one position with no release between them change the
/// board once, not twice: the second press changes nothing.
pub proof fn lemma_second_toggle_changes_nothing(board: Board, px: int, py: int)
    requires
        board.well_formed(),
    ensures
        board.toggle(px, py).toggle(px, py) == board.toggle(px, py),
{
}

/// A press at a position that lies in the square of no cell changes
/// nothing: every cell is as before, and so is the lock.
pub proof fn lemma_toggle_off_the_grid(board: Board, px: int, py: int)
    requires
        board.well_formed(),
        forall|x: int, y: int| board.on_grid(x, y) ==> !in_square(x, y, px, py),
    ensures
        board.toggle(px, py) == board,
{
    if let Some((x, y)) = board.hit(px, py) {
        lemma_hit_is_the_cell_under_the_pointer(board, x, y, px, py);
    }
}

/// A press while the lock is closed changes nothing, and after a release
/// the next press over a cell flips it again.
pub proof fn lemma_release_opens_the_lock(board: Board, x: int, y: int, px: int, py: int)
    requires
        board.well_formed(),
        board.on_grid(x, y),
        in_square(x, y, px, py),
    ensures
        !board.can_click ==> board.toggle(px, py) == board,
        board.release().toggle(px, py).cells[y][x] == !board.cells[y][x],
{
    lemma_hit_is_the_cell_under_the_pointer(board.release(), x, y, px, py);
}

/// While the simulation is paused, a tick of the clock changes nothing;
/// while it runs, a tick advances the grid by one generation and changes
/// nothing else.
pub proof fn lemma_clock_advances_only_while_running(state: GameState)
    ensures
        !state.running ==> state.next(Event::Update) == state,
        state.running ==> state.next(Event::Update) == (GameState {
            board: state.board.step(),
            ..state
        }),
{
}

/// The right button acts once for each press: a press while the button is
/// ready starts or pauses the simulation and is announced; a second press
/// with no release between them changes nothing and calls for no action.
pub proof fn lemma_right_button_acts_once(state: GameState)
    ensures
        ({
            let press = Event::Press { button: Button::Right };
            let once = state.next(press);
            &&& state.can_right_click ==> once.running == !state.running
            &&& !state.can_right_click ==> once == state
            &&& once.next(press) == once
            &&& once.action(press) == Action::Nothing
            &&& once.board == state.board
        }),
{
}

/// After the right button has come up, the next press of it starts or
/// pauses the simulation again.
pub proof fn lemma_right_release_readies_the_button(state: GameState)
    ensures
        ({
            let press = Event::Press { button: Button::Right };
            let release = Event::Release { button: Button::Right };
            state.next(release).next(press).running == !state.running
        }),
{
}

/// No event changes the size of the grid.
pub proof fn lemma_events_keep_the_size(state: GameState, event: Event)
    requires
        state.board.well_formed(),
    ensures
        state.next(event).board.well_formed(),
        state.next(event).board.width() == state.board.width(),
        state.next(event).board.height() == state.board.height(),
{
    lemma_size_is_kept(state.board, state.mouse_x, state.mouse_y);
}

} // verus!
