//! A small fixed-capacity Snake rules engine: the grid, the snake, its food
//! and its score, with no device behind them.

use vstd::prelude::*;
use vstd::set_lib::{lemma_int_range, lemma_len_subset, set_int_range};

use crate::geometry::{Rect, ScreenPoint, ScreenSize};

verus! {

/// Side of one grid cell, in pixels.
pub const CELL_SIZE: i32 = 10;

/// Left edge of the playfield, in pixels.
pub const PLAYFIELD_LEFT: i32 = 4;

/// Top edge of the playfield, in pixels.
pub const PLAYFIELD_TOP: i32 = 33;

/// Width of the playfield, in pixels.
pub const PLAYFIELD_WIDTH: u32 = 312;

/// Height of the playfield, in pixels.
pub const PLAYFIELD_HEIGHT: u32 = 141;

/// Width of the border between the playfield's edge and the grid.
pub const BORDER_SIZE: i32 = 5;

/// Number of grid columns that fit inside the playfield's border.
pub const COLUMN_COUNT: i16 = 30;

/// Number of grid rows that fit inside the playfield's border.
pub const ROW_COUNT: i16 = 13;

/// Number of cells in the grid, and so the snake's largest possible length.
pub const MAX_CELL_COUNT: usize = 390;

/// The grid is exactly as many whole cells as fit inside the playfield once
/// the border is taken off each side, so the playfield and the grid share one
/// boundary definition.
pub proof fn grid_fills_playfield()
    ensures
        COLUMN_COUNT == (PLAYFIELD_WIDTH - 2 * BORDER_SIZE) / (CELL_SIZE as int),
        ROW_COUNT == (PLAYFIELD_HEIGHT - 2 * BORDER_SIZE) / (CELL_SIZE as int),
        MAX_CELL_COUNT == COLUMN_COUNT * ROW_COUNT,
{
}

/// Seed of the food generator in a new game.
pub const INITIAL_SEED: u32 = 0x51A7_7EED;

/// Points awarded for each food eaten.
pub const FOOD_POINTS: u32 = 10;

/// One square of the playfield grid.
#[derive(Clone, Copy, Debug, PartialEq, Eq, Structural)]
pub struct Cell {
    pub column: i16,
    pub row: i16,
}

/// A direction the snake can travel in.
#[derive(Clone, Copy, Debug, PartialEq, Eq, Structural)]
pub enum Direction {
    Up,
    Down,
    Left,
    Right,
}

/// Whether the game is running, paused, or over.
#[derive(Clone, Copy, Debug, PartialEq, Eq, Structural)]
pub enum Phase {
    Running,
    Paused,
    GameOver,
}

/// What one tick of the game did.
#[derive(Clone, Copy, Debug, PartialEq, Eq, Structural)]
pub enum Tick {
    /// The snake moved one cell and `old_tail` is no longer part of it.
    Moved { old_tail: Cell },
    /// The snake moved onto the food and ate it.
    Ate,
    /// The game is (or has just become) over, or it is paused.
    GameOver,
}

impl Direction {
    /// Change of column when moving one cell this way.
    pub open spec fn column_delta(self) -> int {
        match self {
            Direction::Left => -1,
            Direction::Right => 1,
            _ => 0,
        }
    }

    /// Change of row when moving one cell this way.
    pub open spec fn row_delta(self) -> int {
        match self {
            Direction::Up => -1,
            Direction::Down => 1,
            _ => 0,
        }
    }

    /// The direction pointing the other way.
    pub open spec fn reversed(self) -> Direction {
        match self {
            Direction::Up => Direction::Down,
            Direction::Down => Direction::Up,
            Direction::Left => Direction::Right,
            Direction::Right => Direction::Left,
        }
    }

    /// Whether `self` and `other` point in opposite directions.
    pub fn is_opposite(self, other: Self) -> (opposite: bool)
        ensures
            opposite == (other == self.reversed()),
    {
        match (self, other) {
            (Direction::Up, Direction::Down) => true,
            (Direction::Down, Direction::Up) => true,
            (Direction::Left, Direction::Right) => true,
            (Direction::Right, Direction::Left) => true,
            _ => false,
        }
    }
}

impl Cell {
    /// The cell lies on the playfield grid.
    pub open spec fn in_grid(self) -> bool {
        &&& 0 <= self.column < COLUMN_COUNT
        &&& 0 <= self.row < ROW_COUNT
    }

    /// Moving one cell in `direction` stays within the range of `i16`.
    pub open spec fn can_step(self, direction: Direction) -> bool {
        &&& i16::MIN <= self.column + direction.column_delta() <= i16::MAX
        &&& i16::MIN <= self.row + direction.row_delta() <= i16::MAX
    }

    /// The cell one step away in `direction`.
    pub open spec fn neighbor(self, direction: Direction) -> Cell {
        Cell {
            column: (self.column + direction.column_delta()) as i16,
            row: (self.row + direction.row_delta()) as i16,
        }
    }

    /// The two cells share an edge.
    pub open spec fn touches(self, other: Cell) -> bool {
        ||| self.column == other.column && (self.row - other.row == 1 || other.row - self.row == 1)
        ||| self.row == other.row && (self.column - other.column == 1 || other.column - self.column == 1)
    }

    /// Left edge of the cell on the screen.
    pub open spec fn left(self) -> int {
        PLAYFIELD_LEFT + BORDER_SIZE + self.column * CELL_SIZE
    }

    /// Top edge of the cell on the screen.
    pub open spec fn top(self) -> int {
        PLAYFIELD_TOP + BORDER_SIZE + self.row * CELL_SIZE
    }

    /// The cell at `column` and `row`.
    pub fn new(column: i16, row: i16) -> (cell: Self)
        ensures
            cell.column == column,
            cell.row == row,
    {
        Self { column, row }
    }

    /// The screen rectangle that this cell covers.
    pub fn rectangle(self) -> (rect: Rect)
        ensures
            rect.top_left.x == self.left(),
            rect.top_left.y == self.top(),
            rect.size.width == CELL_SIZE,
            rect.size.height == CELL_SIZE,
    {
        Rect {
            top_left: ScreenPoint {
                x: PLAYFIELD_LEFT + BORDER_SIZE + self.column as i32 * CELL_SIZE,
                y: PLAYFIELD_TOP + BORDER_SIZE + self.row as i32 * CELL_SIZE,
            },
            size: ScreenSize { width: CELL_SIZE as u32, height: CELL_SIZE as u32 },
        }
    }

    /// The cell one step away in `direction`.
    pub fn stepped(self, direction: Direction) -> (next: Self)
        requires
            self.can_step(direction),
        ensures
            next == self.neighbor(direction),
    {
        match direction {
            Direction::Up => Self::new(self.column, self.row - 1),
            Direction::Down => Self::new(self.column, self.row + 1),
            Direction::Left => Self::new(self.column - 1, self.row),
            Direction::Right => Self::new(self.column + 1, self.row),
        }
    }

    /// Whether the cell lies on the playfield grid.
    pub fn is_inside(self) -> (inside: bool)
        ensures
            inside == self.in_grid(),
    {
        self.column >= 0 && self.column < COLUMN_COUNT && self.row >= 0 && self.row < ROW_COUNT
    }
}

/// The playfield's rectangle on the screen.
pub fn playfield() -> (rect: Rect)
    ensures
        rect.top_left.x == PLAYFIELD_LEFT,
        rect.top_left.y == PLAYFIELD_TOP,
        rect.size.width == PLAYFIELD_WIDTH,
        rect.size.height == PLAYFIELD_HEIGHT,
{
    Rect {
        top_left: ScreenPoint { x: PLAYFIELD_LEFT, y: PLAYFIELD_TOP },
        size: ScreenSize { width: PLAYFIELD_WIDTH, height: PLAYFIELD_HEIGHT },
    }
}

/// Every cell of the grid is drawn inside the playfield, clear of its border.
pub proof fn grid_cells_lie_inside_playfield(cell: Cell)
    requires
        cell.in_grid(),
    ensures
        PLAYFIELD_LEFT + BORDER_SIZE <= cell.left(),
        cell.left() + CELL_SIZE <= PLAYFIELD_LEFT + PLAYFIELD_WIDTH - BORDER_SIZE,
        PLAYFIELD_TOP + BORDER_SIZE <= cell.top(),
        cell.top() + CELL_SIZE <= PLAYFIELD_TOP + PLAYFIELD_HEIGHT - BORDER_SIZE,
{
}

/// The state of a game as the rules see it.
pub struct GameView {
    /// The snake's cells, head first.
    pub snake: Seq<Cell>,
    /// The direction of the last move.
    pub direction: Direction,
    /// The direction that the next move takes.
    pub queued_direction: Direction,
    pub food: Cell,
    pub score: u32,
    /// State of the generator that places food.
    pub random_state: u32,
    pub phase: Phase,
}

/// A snake that the rules can produce: at least three and at most
/// `MAX_CELL_COUNT` cells, all on the grid, none twice, each touching the next.
pub open spec fn snake_valid(snake: Seq<Cell>) -> bool {
    &&& 3 <= snake.len() <= MAX_CELL_COUNT
    &&& forall|i: int| 0 <= i < snake.len() ==> #[trigger] snake[i].in_grid()
    &&& forall|i: int, j: int| 0 <= i < j < snake.len() ==> snake[i] != snake[j]
    &&& forall|i: int, j: int|
        #![trigger snake[i], snake[j]]
        0 <= i && j == i + 1 && j < snake.len() ==> snake[i].touches(snake[j])
}

impl GameView {
    /// The state is one that the rules can produce: a valid snake, food on the
    /// grid, and `FOOD_POINTS` for every cell that the snake has grown by.
    pub open spec fn valid(self) -> bool {
        &&& snake_valid(self.snake)
        &&& self.food.in_grid()
        &&& self.score == FOOD_POINTS * (self.snake.len() - 3)
        &&& self.heading_consistent()
    }

    /// The queued direction never points back along the last move, and
    /// until the game is over the head lies one step from the neck in the
    /// direction of the last move.
    pub open spec fn heading_consistent(self) -> bool {
        &&& self.queued_direction != self.direction.reversed()
        &&& self.phase != Phase::GameOver ==> self.snake[0] == self.snake[1].neighbor(self.direction)
    }
}

/// Position of a grid cell when the grid is read row by row.
pub open spec fn cell_index(cell: Cell) -> int {
    cell.row * COLUMN_COUNT + cell.column
}

/// A valid snake of `MAX_CELL_COUNT` cells covers every cell of the grid.
pub proof fn full_snake_covers_grid(snake: Seq<Cell>, cell: Cell)
    requires
        snake_valid(snake),
        snake.len() == MAX_CELL_COUNT,
        cell.in_grid(),
    ensures
        snake.contains(cell),
{
    if !snake.contains(cell) {
        let indices = Seq::new(snake.len(), |i: int| cell_index(snake[i]));
        assert forall|i: int, j: int| 0 <= i < indices.len() && 0 <= j < indices.len() && i != j implies indices[i]
            != indices[j] by {
            assert(snake[i].in_grid() && snake[j].in_grid());
            if i < j {
                assert(snake[i] != snake[j]);
            } else {
                assert(snake[j] != snake[i]);
            }
        }
        assert(indices.no_duplicates());
        indices.unique_seq_to_set();
        let free = set_int_range(0, MAX_CELL_COUNT as int).remove(cell_index(cell));
        lemma_int_range(0, MAX_CELL_COUNT as int);
        assert forall|x: int| indices.to_set().contains(x) implies free.contains(x) by {
            let k = choose|k: int| 0 <= k < indices.len() && indices[k] == x;
            assert(snake[k].in_grid());
            assert(snake[k] != cell);
        }
        assert(indices.to_set().subset_of(free));
        lemma_len_subset(indices.to_set(), free);
    }
}

/// A valid snake never fills the grid and then eats: eating is only possible
/// while it is shorter than `MAX_CELL_COUNT`, so it always grows.
pub proof fn eating_always_grows(state: GameView)
    requires
        state.valid(),
        tick_outcome(state).1 == Tick::Ate,
    ensures
        state.snake.len() < MAX_CELL_COUNT,
        tick_outcome(state).0.snake.len() == state.snake.len() + 1,
        tick_outcome(state).0.score == state.score + FOOD_POINTS,
{
    let head = state.snake[0].neighbor(state.queued_direction);
    if state.snake.len() == MAX_CELL_COUNT {
        full_snake_covers_grid(state.snake, head);
    }
    snake_growth_per_tick(state);
    score_only_grows_by_eating(state);
}

/// The generator's next state: multiply by 1664525 and add 1013904223,
/// modulo 2^32.
pub open spec fn next_random(state: u32) -> u32 {
    ((state * 1_664_525 + 1_013_904_223) % 0x1_0000_0000) as u32
}

/// The cell that a generator state proposes for food: the state modulo the
/// number of cells, read row by row.
pub open spec fn proposed_cell(state: u32) -> Cell {
    let index = state as int % (MAX_CELL_COUNT as int);
    Cell { column: (index % (COLUMN_COUNT as int)) as i16, row: (index / (COLUMN_COUNT as int)) as i16 }
}

/// Food placement: advance the generator up to `attempts` times and take the
/// first proposed cell that the snake does not occupy. When every attempt
/// lands on the snake, the food stays where it was. The result is the
/// generator's state and the food.
#[verifier::opaque]
pub open spec fn food_search(state: u32, snake: Seq<Cell>, food: Cell, attempts: nat) -> (u32, Cell)
    decreases attempts,
{
    if attempts == 0 {
        (state, food)
    } else {
        let next = next_random(state);
        let candidate = proposed_cell(next);
        if !snake.contains(candidate) {
            (next, candidate)
        } else {
            food_search(next, snake, food, (attempts - 1) as nat)
        }
    }
}

/// One attempt of the food search: with attempts left, the search takes the
/// next proposed cell if it is free and otherwise goes on from the next state.
pub proof fn food_search_attempt(state: u32, snake: Seq<Cell>, food: Cell, attempts: nat)
    requires
        attempts > 0,
    ensures
        food_search(state, snake, food, attempts) == (if !snake.contains(proposed_cell(next_random(state))) {
            (next_random(state), proposed_cell(next_random(state)))
        } else {
            food_search(next_random(state), snake, food, (attempts - 1) as nat)
        }),
{
    reveal(food_search);
}

/// With no attempts left, the search leaves state and food as they are.
pub proof fn food_search_exhausted(state: u32, snake: Seq<Cell>, food: Cell)
    ensures
        food_search(state, snake, food, 0) == (state, food),
{
    reveal(food_search);
}

/// `state` with the food placed anew on its own snake.
pub open spec fn with_food_placed(state: GameView) -> GameView {
    let (random_state, food) = food_search(state.random_state, state.snake, state.food, MAX_CELL_COUNT as nat);
    GameView { random_state, food, ..state }
}

/// The snake of a new game: three cells in the middle of the grid, heading right.
pub open spec fn initial_snake() -> Seq<Cell> {
    let column = COLUMN_COUNT / 2;
    let row = ROW_COUNT / 2;
    seq![
        Cell { column: column as i16, row: row as i16 },
        Cell { column: (column - 1) as i16, row: row as i16 },
        Cell { column: (column - 2) as i16, row: row as i16 },
    ]
}

/// The initial snake is one that the rules can produce.
proof fn initial_snake_is_valid()
    ensures
        snake_valid(initial_snake()),
{
    let snake = initial_snake();
    assert(snake[0].touches(snake[1]));
    assert(snake[1].touches(snake[2]));
}

/// A new game: the initial snake heading right, no score, running, with food
/// placed from the initial seed.
pub open spec fn initial_game() -> GameView {
    with_food_placed(
        GameView {
            snake: initial_snake(),
            direction: Direction::Right,
            queued_direction: Direction::Right,
            food: Cell { column: 0, row: 0 },
            score: 0,
            random_state: INITIAL_SEED,
            phase: Phase::Running,
        },
    )
}

/// `value` with its bits rotated left by 13 places.
pub open spec fn rotated_left_13(value: u32) -> u32 {
    (value << 13u32) | (value >> 19u32)
}

/// A restarted game: a new game whose generator is further mixed with the old
/// game's generator state, and whose food is then placed once more.
pub open spec fn restarted_game(previous: GameView) -> GameView {
    let fresh = initial_game();
    with_food_placed(GameView { random_state: fresh.random_state ^ rotated_left_13(previous.random_state), ..fresh })
}

/// The game after asking it to head in `direction`: a request to reverse is
/// ignored; any other becomes the queued direction.
pub open spec fn steered(state: GameView, direction: Direction) -> GameView {
    if direction == state.direction.reversed() {
        state
    } else {
        GameView { queued_direction: direction, ..state }
    }
}

/// The phase after pausing or resuming.
pub open spec fn toggled_phase(phase: Phase) -> Phase {
    match phase {
        Phase::Running => Phase::Paused,
        Phase::Paused => Phase::Running,
        Phase::GameOver => Phase::GameOver,
    }
}

/// The game after pausing or resuming it.
pub open spec fn toggled(state: GameView) -> GameView {
    GameView { phase: toggled_phase(state.phase), ..state }
}

/// `score` plus the points for one food, saturating at `u32::MAX`.
pub open spec fn score_after_eating(score: u32) -> u32 {
    if score + FOOD_POINTS > u32::MAX {
        u32::MAX
    } else {
        (score + FOOD_POINTS) as u32
    }
}

/// One tick of the rules. A game that is not running stays as it is. A
/// running game turns to its queued direction and steps its head; a head that
/// leaves the grid or hits the snake ends the game. Otherwise the head moves
/// on: onto the food, the snake grows by one cell (up to `MAX_CELL_COUNT`),
/// scores, and new food is placed; elsewhere, the tail cell is released.
pub open spec fn tick_outcome(state: GameView) -> (GameView, Tick) {
    if state.phase != Phase::Running {
        (state, Tick::GameOver)
    } else {
        let turned = GameView { direction: state.queued_direction, ..state };
        let head = state.snake[0].neighbor(state.queued_direction);
        if !head.in_grid() || state.snake.contains(head) {
            (GameView { phase: Phase::GameOver, ..turned }, Tick::GameOver)
        } else {
            let ate = head == state.food;
            let grows = ate && state.snake.len() < MAX_CELL_COUNT;
            let length: int = if grows { state.snake.len() + 1int } else { state.snake.len() as int };
            let snake = seq![head] + state.snake.take(length - 1);
            if ate {
                (
                    with_food_placed(
                        GameView { snake, score: score_after_eating(state.score), ..turned },
                    ),
                    Tick::Ate,
                )
            } else {
                (GameView { snake, ..turned }, Tick::Moved { old_tail: state.snake.last() })
            }
        }
    }
}

/// Food placement ends either with the food left where it was, or on a grid
/// cell that the snake does not occupy.
pub proof fn food_lands_off_the_snake(state: u32, snake: Seq<Cell>, food: Cell, attempts: nat)
    ensures
        ({
            let placed = food_search(state, snake, food, attempts).1;
            placed == food || (placed.in_grid() && !snake.contains(placed))
        }),
    decreases attempts,
{
    if attempts == 0 {
        food_search_exhausted(state, snake, food);
    } else {
        food_search_attempt(state, snake, food, attempts);
        let next = next_random(state);
        let index = next as int % (MAX_CELL_COUNT as int);
        assert(0 <= index < 390);
        assert(proposed_cell(next).in_grid());
        food_lands_off_the_snake(next, snake, food, (attempts - 1) as nat);
    }
}

/// Placing food keeps a valid game valid.
proof fn placing_food_keeps_validity(state: GameView)
    requires
        state.valid(),
    ensures
        with_food_placed(state).valid(),
{
    food_lands_off_the_snake(state.random_state, state.snake, state.food, MAX_CELL_COUNT as nat);
}

/// Moving the head onto a free neighboring grid cell, and keeping `length - 1`
/// cells of the old snake behind it, gives a valid snake.
proof fn advanced_snake_is_valid(snake: Seq<Cell>, head: Cell, length: int)
    requires
        snake_valid(snake),
        head.in_grid(),
        !snake.contains(head),
        head.touches(snake[0]),
        length == snake.len() || (length == snake.len() + 1 && length <= MAX_CELL_COUNT),
    ensures
        snake_valid(seq![head] + snake.take(length - 1)),
{
    let moved = seq![head] + snake.take(length - 1);
    assert(moved.len() == length);
    assert forall|k: int| 1 <= k < length implies moved[k] == snake[k - 1] by {}
    assert forall|i: int| 0 <= i < moved.len() implies #[trigger] moved[i].in_grid() by {
        if i > 0 {
            assert(snake[i - 1].in_grid());
        }
    }
    assert forall|i: int, j: int| 0 <= i < j < moved.len() implies moved[i] != moved[j] by {
        if i == 0 {
            assert(snake[j - 1] != head);
        } else {
            assert(snake[i - 1] != snake[j - 1]);
        }
    }
    assert forall|i: int, j: int|
        #![trigger moved[i], moved[j]]
        0 <= i && j == i + 1 && j < moved.len() implies moved[i].touches(moved[j]) by {
        if i > 0 {
            assert(snake[i - 1].touches(snake[j - 1]));
        }
    }
}

/// Every outcome of a tick from a valid game is a valid game.
pub proof fn tick_keeps_game_valid(state: GameView)
    requires
        state.valid(),
    ensures
        tick_outcome(state).0.valid(),
{
    if state.phase == Phase::Running {
        let head = state.snake[0].neighbor(state.queued_direction);
        assert(state.snake[0].in_grid());
        if head.in_grid() && !state.snake.contains(head) {
            if state.snake.len() == MAX_CELL_COUNT {
                full_snake_covers_grid(state.snake, head);
            }
            let ate = head == state.food;
            let grows = ate && state.snake.len() < MAX_CELL_COUNT;
            let length: int = if grows { state.snake.len() + 1int } else { state.snake.len() as int };
            advanced_snake_is_valid(state.snake, head, length);
            let snake = seq![head] + state.snake.take(length - 1);
            if ate {
                placing_food_keeps_validity(
                    GameView {
                        snake,
                        score: score_after_eating(state.score),
                        direction: state.queued_direction,
                        ..state
                    },
                );
            }
        }
    }
}

/// A game of Snake on a fixed-size grid. The snake lives in the first `length`
/// slots of `body`, head first.
pub struct Game {
    body: [Cell; MAX_CELL_COUNT],
    length: usize,
    direction: Direction,
    queued_direction: Direction,
    food: Cell,
    score: u32,
    random_state: u32,
    phase: Phase,
}

impl View for Game {
    type V = GameView;

    closed spec fn view(&self) -> GameView {
        GameView {
            snake: self.body@.take(self.length as int),
            direction: self.direction,
            queued_direction: self.queued_direction,
            food: self.food,
            score: self.score,
            random_state: self.random_state,
            phase: self.phase,
        }
    }
}

/// Moves the first `length - 1` cells of `body` one slot towards the back.
fn shift_towards_tail(body: &mut [Cell; MAX_CELL_COUNT], length: usize)
    requires
        1 <= length <= MAX_CELL_COUNT,
    ensures
        final(body)@[0] == old(body)@[0],
        forall|k: int| 1 <= k < length ==> #[trigger] final(body)@[k] == old(body)@[k - 1],
        forall|k: int| length <= k < MAX_CELL_COUNT ==> #[trigger] final(body)@[k] == old(body)@[k],
{
    let ghost original = body@;
    let mut slot: usize = length - 1;
    while slot > 0
        invariant
            slot < length <= MAX_CELL_COUNT,
            forall|k: int| 0 <= k <= slot ==> #[trigger] body@[k] == original[k],
            forall|k: int| slot < k < length ==> #[trigger] body@[k] == original[k - 1],
            forall|k: int| length <= k < MAX_CELL_COUNT ==> #[trigger] body@[k] == original[k],
        decreases slot,
    {
        let previous = body[slot - 1];
        body[slot] = previous;
        slot = slot - 1;
    }
}

impl Game {
    /// Every game that the library hands out has a valid state: a valid
    /// snake, food on the grid, and a score of `FOOD_POINTS` per cell grown.
    pub proof fn state_is_valid(&self)
        requires
            self.wf(),
        ensures
            self@.valid(),
    {
    }

    /// The game keeps its snake in its array and its state valid.
    pub closed spec fn wf(&self) -> bool {
        &&& self.length <= MAX_CELL_COUNT
        &&& self@.valid()
    }

    /// Whether the snake occupies `cell`.
    fn occupies(&self, cell: Cell) -> (occupied: bool)
        requires
            self.length <= MAX_CELL_COUNT,
        ensures
            occupied == self@.snake.contains(cell),
    {
        let mut index: usize = 0;
        while index < self.length
            invariant
                index <= self.length <= MAX_CELL_COUNT,
                forall|k: int| 0 <= k < index ==> self.body@[k] != cell,
            decreases self.length - index,
        {
            if self.body[index] == cell {
                assert(self@.snake[index as int] == cell);
                return true;
            }
            index = index + 1;
        }
        assert forall|k: int| 0 <= k < self@.snake.len() implies self@.snake[k] != cell by {
            assert(self@.snake[k] == self.body@[k]);
        }
        false
    }

    /// Searches for a place for the food: draws cells from the generator, up
    /// to one attempt per grid cell, and returns the generator's state and the
    /// first cell that the snake leaves free (or the current food when none is).
    fn search_food(&self) -> (found: (u32, Cell))
        requires
            self.length <= MAX_CELL_COUNT,
        ensures
            found == food_search(self.random_state, self@.snake, self.food, MAX_CELL_COUNT as nat),
    {
        let ghost goal = food_search(self.random_state, self@.snake, self.food, MAX_CELL_COUNT as nat);
        let mut state = self.random_state;
        let mut attempt: usize = 0;
        while attempt < MAX_CELL_COUNT
            invariant
                self.length <= MAX_CELL_COUNT,
                attempt <= MAX_CELL_COUNT,
                goal == food_search(self.random_state, self@.snake, self.food, MAX_CELL_COUNT as nat),
                food_search(state, self@.snake, self.food, (MAX_CELL_COUNT - attempt) as nat) == goal,
            decreases MAX_CELL_COUNT - attempt,
        {
            let previous = state;
            state = state.wrapping_mul(1_664_525).wrapping_add(1_013_904_223);
            proof {
                generator_step(previous);
            }
            let candidate = proposed_food_cell(state);
            proof {
                food_search_attempt(previous, self@.snake, self.food, (MAX_CELL_COUNT - attempt) as nat);
            }
            if !self.occupies(candidate) {
                return (state, candidate);
            }
            attempt = attempt + 1;
        }
        proof {
            food_search_exhausted(state, self@.snake, self.food);
        }
        (state, self.food)
    }

    /// Places the food where `search_food` finds room for it.
    fn place_food(&mut self)
        requires
            old(self).length <= MAX_CELL_COUNT,
        ensures
            final(self).length == old(self).length,
            final(self).body == old(self).body,
            final(self)@ == with_food_placed(old(self)@),
            final(self).food == old(self).food || (final(self).food.in_grid() && !old(self)@.snake.contains(
                final(self).food,
            )),
    {
        proof {
            food_lands_off_the_snake(self.random_state, self@.snake, self.food, MAX_CELL_COUNT as nat);
        }
        let (state, food) = self.search_food();
        self.random_state = state;
        self.food = food;
    }
}

/// A new game is valid, and so is a restarted one.
pub proof fn new_games_are_valid(previous: GameView)
    ensures
        initial_game().valid(),
        restarted_game(previous).valid(),
{
    initial_snake_is_valid();
    let start = GameView {
        snake: initial_snake(),
        direction: Direction::Right,
        queued_direction: Direction::Right,
        food: Cell { column: 0, row: 0 },
        score: 0,
        random_state: INITIAL_SEED,
        phase: Phase::Running,
    };
    placing_food_keeps_validity(start);
    let fresh = initial_game();
    placing_food_keeps_validity(
        GameView { random_state: fresh.random_state ^ rotated_left_13(previous.random_state), ..fresh },
    );
}

/// Steering and pausing keep a valid game valid.
pub proof fn steering_and_pausing_keep_game_valid(state: GameView, direction: Direction)
    requires
        state.valid(),
    ensures
        steered(state, direction).valid(),
        toggled(state).valid(),
{
}

/// Asking the snake to reverse onto itself changes nothing.
pub proof fn reversing_is_ignored(state: GameView)
    ensures
        steered(state, state.direction.reversed()) == state,
{
}

/// Pausing twice gives back the game as it was.
pub proof fn pausing_twice_restores(state: GameView)
    ensures
        toggled(toggled(state)) == state,
{
}

/// A game that is paused or over does not move: a tick leaves it as it is
/// and reports `Tick::GameOver`. A finished game also stays finished when
/// paused or resumed.
pub proof fn stopped_game_stays_put(state: GameView)
    requires
        state.phase != Phase::Running,
    ensures
        tick_outcome(state) == (state, Tick::GameOver),
        state.phase == Phase::GameOver ==> toggled(state) == state,
{
}

/// A tick turns the snake to its queued direction, and every move puts the
/// head on the neighbor of the old head in that direction.
pub proof fn tick_moves_head_one_cell(state: GameView)
    requires
        state.valid(),
        state.phase == Phase::Running,
    ensures
        tick_outcome(state).0.direction == state.queued_direction,
        tick_outcome(state).1 != Tick::GameOver ==> tick_outcome(state).0.snake[0] == state.snake[0].neighbor(
            state.queued_direction,
        ),
{
    tick_keeps_game_valid(state);
}

/// The score never goes down; eating scores `FOOD_POINTS` (saturating) and
/// any other tick scores nothing.
pub proof fn score_only_grows_by_eating(state: GameView)
    ensures
        tick_outcome(state).1 == Tick::Ate ==> tick_outcome(state).0.score == score_after_eating(state.score),
        tick_outcome(state).1 != Tick::Ate ==> tick_outcome(state).0.score == state.score,
        tick_outcome(state).0.score >= state.score,
{
    let (next, outcome) = tick_outcome(state);
    if outcome == Tick::Ate {
        let head = state.snake[0].neighbor(state.queued_direction);
        let grows = state.snake.len() < MAX_CELL_COUNT;
        let length: int = if grows { state.snake.len() + 1int } else { state.snake.len() as int };
        let snake = seq![head] + state.snake.take(length - 1);
        let eaten = GameView {
            snake,
            score: score_after_eating(state.score),
            direction: state.queued_direction,
            ..state
        };
        assert(next == with_food_placed(eaten));
    }
}

/// Eating puts the head where the food was and grows the snake by one cell; a
/// plain move keeps its length and
/// reports the tail cell that it leaves, which the snake no longer covers; a
/// tick that ends the game keeps the snake as it was.
pub proof fn snake_growth_per_tick(state: GameView)
    requires
        state.valid(),
    ensures
        ({
            let (next, outcome) = tick_outcome(state);
            match outcome {
                Tick::Ate => {
                    &&& next.snake[0] == state.food
                    &&& next.snake.len() == state.snake.len() + 1
                },
                Tick::Moved { old_tail } => {
                    &&& next.snake.len() == state.snake.len()
                    &&& old_tail == state.snake.last()
                    &&& !next.snake.contains(old_tail)
                },
                Tick::GameOver => next.snake == state.snake,
            }
        }),
{
    tick_keeps_game_valid(state);
    let (next, outcome) = tick_outcome(state);
    if state.phase == Phase::Running {
        let head = state.snake[0].neighbor(state.queued_direction);
        if head.in_grid() && !state.snake.contains(head) {
            if state.snake.len() == MAX_CELL_COUNT {
                full_snake_covers_grid(state.snake, head);
            }
            let ate = head == state.food;
            let grows = ate && state.snake.len() < MAX_CELL_COUNT;
            let length: int = if grows { state.snake.len() + 1int } else { state.snake.len() as int };
            let snake = seq![head] + state.snake.take(length - 1);
            if ate {
                let eaten = GameView {
                    snake,
                    score: score_after_eating(state.score),
                    direction: state.queued_direction,
                    ..state
                };
                assert(next == with_food_placed(eaten));
                assert(next.snake == snake);
            } else {
                let tail = state.snake.last();
                assert(next.snake == snake);
                assert forall|k: int| 0 <= k < snake.len() implies snake[k] != tail by {
                    if k > 0 {
                        assert(snake[k] == state.snake[k - 1]);
                    } else {
                        assert(state.snake.contains(tail));
                    }
                }
            }
        }
    }
}

/// How a tick sets the phase: a game that is not running is left exactly as
/// it is; in a running game a tick that reports `Tick::GameOver` ends the game,
/// and any tick that reports a move or a meal keeps it running.
pub proof fn tick_phase_follows_outcome(state: GameView)
    ensures
        state.phase != Phase::Running ==> tick_outcome(state) == (state, Tick::GameOver),
        state.phase == Phase::Running && tick_outcome(state).1 == Tick::GameOver ==> tick_outcome(state).0.phase
            == Phase::GameOver,
        tick_outcome(state).1 != Tick::GameOver ==> tick_outcome(state).0.phase == Phase::Running,
{
}

/// In a running game a tick ends the game exactly when the head's next cell
/// lies off the grid or on the snake (a wall or the snake's own body; any
/// cell of the grid that the snake leaves free, border cells included, is
/// fine). Ending the game changes nothing but the phase and the last-move
/// direction. The snake eats exactly when it moves onto the food; a plain move
/// leaves the food, the score and the generator as they were.
pub proof fn tick_ends_game_exactly_on_collision(state: GameView)
    requires
        state.valid(),
        state.phase == Phase::Running,
    ensures
        ({
            let head = state.snake[0].neighbor(state.queued_direction);
            let (next, outcome) = tick_outcome(state);
            &&& next.direction == state.queued_direction
            &&& next.queued_direction == state.queued_direction
            &&& (outcome == Tick::GameOver <==> (!head.in_grid() || state.snake.contains(head)))
            &&& (outcome == Tick::GameOver <==> next.phase == Phase::GameOver)
            &&& (outcome == Tick::GameOver ==> {
                &&& next.snake == state.snake
                &&& next.food == state.food
                &&& next.score == state.score
                &&& next.random_state == state.random_state
            })
            &&& (outcome == Tick::Ate <==> (outcome != Tick::GameOver && head == state.food))
            &&& (outcome is Moved ==> {
                &&& next.food == state.food
                &&& next.score == state.score
                &&& next.random_state == state.random_state
                &&& next.snake == seq![head] + state.snake.drop_last()
            })
            &&& (outcome == Tick::Ate ==> {
                &&& next.snake == seq![head] + state.snake
                &&& next.score == state.score + FOOD_POINTS
                &&& (next.food == head || !next.snake.contains(next.food))
            })
        }),
{
    let head = state.snake[0].neighbor(state.queued_direction);
    assert(state.snake[0].in_grid());
    let (next, outcome) = tick_outcome(state);
    if head.in_grid() && !state.snake.contains(head) {
        if state.snake.len() == MAX_CELL_COUNT {
            full_snake_covers_grid(state.snake, head);
        }
        let length: int = if head == state.food { state.snake.len() + 1int } else { state.snake.len() as int };
        let snake = seq![head] + state.snake.take(length - 1);
        if head == state.food {
            assert(state.snake.take(length - 1) =~= state.snake);
            let eaten = GameView {
                snake,
                score: score_after_eating(state.score),
                direction: state.queued_direction,
                ..state
            };
            assert(next == with_food_placed(eaten));
            food_lands_off_the_snake(eaten.random_state, snake, state.food, MAX_CELL_COUNT as nat);
        } else {
            assert(state.snake.take(length - 1) =~= state.snake.drop_last());
        }
    }
}

/// A new game is the three-cell snake in the middle of the grid, head in the
/// center cell and heading right, with no score, running, and food on a free
/// grid cell.
pub proof fn new_game_starts_centered()
    ensures
        initial_game().snake.len() == 3,
        initial_game().snake[0].column == COLUMN_COUNT / 2,
        initial_game().snake[0].row == ROW_COUNT / 2,
        initial_game().direction == Direction::Right,
        initial_game().queued_direction == Direction::Right,
        initial_game().score == 0,
        initial_game().phase == Phase::Running,
        initial_game().food.in_grid(),
        initial_game().food == (Cell { column: 0, row: 0 }) || !initial_game().snake.contains(initial_game().food),
{
    new_games_are_valid(initial_game());
    let start = GameView {
        snake: initial_snake(),
        direction: Direction::Right,
        queued_direction: Direction::Right,
        food: Cell { column: 0, row: 0 },
        score: 0,
        random_state: INITIAL_SEED,
        phase: Phase::Running,
    };
    food_lands_off_the_snake(INITIAL_SEED, initial_snake(), start.food, MAX_CELL_COUNT as nat);
}

/// Opposite directions undo each other: reversing twice gives the direction
/// back, no direction is its own reverse, and a step one way followed by a
/// step the other way returns to the start.
pub proof fn opposite_steps_undo_each_other(cell: Cell, direction: Direction)
    requires
        cell.in_grid(),
    ensures
        direction.reversed().reversed() == direction,
        direction.reversed() != direction,
        cell.neighbor(direction) != cell,
        cell.neighbor(direction).neighbor(direction.reversed()) == cell,
        cell.neighbor(direction).touches(cell),
{
}

/// Steering changes nothing but the queued direction: the direction of the
/// last move, the snake, the food, the score, the generator and the phase stay
/// as they were. A reverse request leaves the queue as it was; any other
/// request is queued.
pub proof fn steering_changes_only_the_queue(state: GameView, direction: Direction)
    ensures
        steered(state, direction).direction == state.direction,
        steered(state, direction).snake == state.snake,
        steered(state, direction).food == state.food,
        steered(state, direction).score == state.score,
        steered(state, direction).random_state == state.random_state,
        steered(state, direction).phase == state.phase,
        direction == state.direction.reversed() ==> steered(state, direction).queued_direction
            == state.queued_direction,
        direction != state.direction.reversed() ==> steered(state, direction).queued_direction == direction,
{
}

/// However a valid game that is not over is steered, the next move never
/// takes the head back onto the snake's neck.
pub proof fn steering_never_turns_back(state: GameView, direction: Direction)
    requires
        state.valid(),
        state.phase != Phase::GameOver,
    ensures
        state.snake[0].neighbor(steered(state, direction).queued_direction) != state.snake[1],
{
    let queued = steered(state, direction).queued_direction;
    steering_and_pausing_keep_game_valid(state, direction);
    assert(state.snake[1].in_grid());
    assert(state.snake[0].in_grid());
    assert(queued != state.direction.reversed());
}

/// Pausing and resuming change nothing but the phase: a running game becomes
/// paused, a paused one running, and a finished one stays finished, while the
/// snake, the food, the score, the directions and the generator stay as they
/// were.
pub proof fn pausing_changes_only_the_phase(state: GameView)
    ensures
        toggled(state).snake == state.snake,
        toggled(state).food == state.food,
        toggled(state).score == state.score,
        toggled(state).random_state == state.random_state,
        toggled(state).direction == state.direction,
        toggled(state).queued_direction == state.queued_direction,
        state.phase == Phase::Running ==> toggled(state).phase == Phase::Paused,
        state.phase == Phase::Paused ==> toggled(state).phase == Phase::Running,
        state.phase == Phase::GameOver ==> toggled(state).phase == Phase::GameOver,
{
}

/// One call that a player of the game can make.
pub enum GameCall {
    SetDirection(Direction),
    TogglePause,
    Tick,
    Restart,
}

/// The game after one call, with the tick's outcome when the call was a tick.
pub open spec fn after_call(state: GameView, call: GameCall) -> (GameView, Option<Tick>) {
    match call {
        GameCall::SetDirection(direction) => (steered(state, direction), None),
        GameCall::TogglePause => (toggled(state), None),
        GameCall::Tick => {
            let (next, outcome) = tick_outcome(state);
            (next, Some(outcome))
        },
        GameCall::Restart => (restarted_game(state), None),
    }
}

/// The game after a sequence of calls, with the outcome of each call in order.
pub open spec fn after_calls(state: GameView, calls: Seq<GameCall>) -> (GameView, Seq<Option<Tick>>)
    decreases calls.len(),
{
    if calls.len() == 0 {
        (state, Seq::empty())
    } else {
        let (next, outcome) = after_call(state, calls[0]);
        let (end, outcomes) = after_calls(next, calls.drop_first());
        (end, seq![outcome] + outcomes)
    }
}

/// Games that start equal and are given the same calls give the same outcomes
/// and end equal: the rules hold no hidden entropy, and food placement follows
/// a fixed pseudo-random sequence. Each `Game` method makes the new view the
/// corresponding step of `after_call` from the old one, so this holds of any
/// two `Game` values built by `Game::new`.
pub proof fn equal_games_stay_equal(first: GameView, second: GameView, calls: Seq<GameCall>)
    requires
        first == second,
    ensures
        after_calls(first, calls) == after_calls(second, calls),
{
}

/// Every game reached from a valid one by any sequence of calls is valid; in
/// particular every game reached from `initial_game()`.
pub proof fn calls_keep_game_valid(state: GameView, calls: Seq<GameCall>)
    requires
        state.valid(),
    ensures
        after_calls(state, calls).0.valid(),
    decreases calls.len(),
{
    if calls.len() > 0 {
        let next = after_call(state, calls[0]).0;
        match calls[0] {
            GameCall::SetDirection(direction) => steering_and_pausing_keep_game_valid(state, direction),
            GameCall::TogglePause => steering_and_pausing_keep_game_valid(state, Direction::Up),
            GameCall::Tick => tick_keeps_game_valid(state),
            GameCall::Restart => new_games_are_valid(state),
        }
        calls_keep_game_valid(next, calls.drop_first());
    }
}


/// A restart does not depend on the old game beyond its generator state, and
/// always begins a running game with the initial snake heading right and no
/// score.
pub proof fn restart_begins_afresh(first: GameView, second: GameView)
    requires
        first.random_state == second.random_state,
    ensures
        restarted_game(first) == restarted_game(second),
        restarted_game(first).snake == initial_snake(),
        restarted_game(first).score == 0,
        restarted_game(first).phase == Phase::Running,
        restarted_game(first).direction == Direction::Right,
        restarted_game(first).queued_direction == Direction::Right,
{
}

impl Game {
    /// A new game: a three-cell snake in the middle of the grid heading
    /// right, no score, running, with food placed from the initial seed.
    pub fn new() -> (game: Self)
        ensures
            game.wf(),
            game@ == initial_game(),
    {
        let center = Cell::new(COLUMN_COUNT / 2, ROW_COUNT / 2);
        let mut body = [center; MAX_CELL_COUNT];
        body[1] = Cell::new(center.column - 1, center.row);
        body[2] = Cell::new(center.column - 2, center.row);
        let mut game = Self {
            body,
            length: 3,
            direction: Direction::Right,
            queued_direction: Direction::Right,
            food: Cell::new(0, 0),
            score: 0,
            random_state: INITIAL_SEED,
            phase: Phase::Running,
        };
        assert(game@.snake =~= initial_snake());
        proof {
            initial_snake_is_valid();
            placing_food_keeps_validity(game@);
        }
        game.place_food();
        game
    }

    /// Starts a new game, mixing the current generator state into the new
    /// game's generator before placing its food once more.
    pub fn restart(&mut self)
        ensures
            final(self).wf(),
            final(self)@ == restarted_game(old(self)@),
    {
        let random_state = self.random_state;
        *self = Self::new();
        self.random_state = self.random_state ^ ((random_state << 13u32) | (random_state >> 19u32));
        proof {
            placing_food_keeps_validity(self@);
        }
        self.place_food();
    }

    /// The game's phase.
    pub fn phase(&self) -> (phase: Phase)
        ensures
            phase == self@.phase,
    {
        self.phase
    }

    /// The score so far: `FOOD_POINTS` for every cell that the snake has
    /// grown by.
    pub fn score(&self) -> (score: u32)
        ensures
            score == self@.score,
            self.wf() ==> score == FOOD_POINTS * (self@.snake.len() - 3),
    {
        self.score
    }

    /// Where the food lies; always on the grid.
    pub fn food(&self) -> (food: Cell)
        ensures
            food == self@.food,
            self.wf() ==> food.in_grid(),
    {
        self.food
    }

    /// The snake's cells, head first: at least three and at most
    /// `MAX_CELL_COUNT`, all on the grid, none twice, each touching the next.
    pub fn body(&self) -> (cells: Vec<Cell>)
        requires
            self.wf(),
        ensures
            cells@ == self@.snake,
            snake_valid(cells@),
    {
        let mut cells: Vec<Cell> = Vec::new();
        let mut index: usize = 0;
        while index < self.length
            invariant
                self.wf(),
                index <= self.length,
                cells@ == self@.snake.take(index as int),
            decreases self.length - index,
        {
            cells.push(self.body[index]);
            index = index + 1;
            assert(cells@ =~= self@.snake.take(index as int));
        }
        assert(self@.snake.take(index as int) =~= self@.snake);
        cells
    }

    /// Queues `direction` for the next move, unless it would reverse the
    /// snake onto itself.
    pub fn set_direction(&mut self, direction: Direction)
        requires
            old(self).wf(),
        ensures
            final(self).wf(),
            final(self)@ == steered(old(self)@, direction),
    {
        if !direction.is_opposite(self.direction) {
            self.queued_direction = direction;
        }
        assert(self@ =~= steered(old(self)@, direction));
    }

    /// Pauses a running game or resumes a paused one; a finished game stays
    /// finished.
    pub fn toggle_pause(&mut self)
        requires
            old(self).wf(),
        ensures
            final(self).wf(),
            final(self)@ == toggled(old(self)@),
    {
        self.phase = match self.phase {
            Phase::Running => Phase::Paused,
            Phase::Paused => Phase::Running,
            Phase::GameOver => Phase::GameOver,
        };
    }

    /// Advances the game by one move; see `tick_outcome`.
    pub fn tick(&mut self) -> (outcome: Tick)
        requires
            old(self).wf(),
        ensures
            final(self).wf(),
            (final(self)@, outcome) == tick_outcome(old(self)@),
    {
        let ghost before = self@;
        proof {
            tick_keeps_game_valid(before);
        }
        if self.phase != Phase::Running {
            return Tick::GameOver;
        }
        self.direction = self.queued_direction;
        assert(before.snake[0] == self.body@[0]);
        assert(before.snake[0].in_grid());
        let next_head = self.body[0].stepped(self.direction);
        if !next_head.is_inside() || self.occupies(next_head) {
            self.phase = Phase::GameOver;
            return Tick::GameOver;
        }
        let ate = next_head == self.food;
        let old_tail = self.body[self.length - 1];
        if ate && self.length < MAX_CELL_COUNT {
            self.length = self.length + 1;
        }
        shift_towards_tail(&mut self.body, self.length);
        self.body[0] = next_head;
        assert(self@.snake =~= seq![next_head] + before.snake.take(self.length - 1));
        if ate {
            self.score = self.score.saturating_add(FOOD_POINTS);
            self.place_food();
            Tick::Ate
        } else {
            Tick::Moved { old_tail }
        }
    }
}

impl Default for Game {
    fn default() -> (game: Self)
        ensures
            game.wf(),
            game@ == initial_game(),
    {
        Self::new()
    }
}

/// The cell that generator state `state` proposes for food.
fn proposed_food_cell(state: u32) -> (cell: Cell)
    ensures
        cell == proposed_cell(state),
{
    let index = state as usize % MAX_CELL_COUNT;
    Cell::new((index % COLUMN_COUNT as usize) as i16, (index / COLUMN_COUNT as usize) as i16)
}

/// The generator step in the code, a wrapping multiply then a wrapping add,
/// is `next_random`.
proof fn generator_step(state: u32)
    ensures
        state.wrapping_mul(1_664_525).wrapping_add(1_013_904_223) == next_random(state),
{
    let product = state as int * 1_664_525;
    vstd::arithmetic::div_mod::lemma_add_mod_noop(product, 1_013_904_223, 0x1_0000_0000);
    vstd::arithmetic::div_mod::lemma_mod_bound(product, 0x1_0000_0000);
}

} // verus!
