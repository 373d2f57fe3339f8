use device_envoy_cyd_starter::game::{
    playfield, Cell, Direction, Game, Phase, Tick, CELL_SIZE, COLUMN_COUNT, INITIAL_SEED,
    MAX_CELL_COUNT, ROW_COUNT,
};

fn next_random(state: u32) -> u32 {
    state.wrapping_mul(1_664_525).wrapping_add(1_013_904_223)
}

/// Replays the food search on plain values.
fn expected_food(mut state: u32, snake: &[Cell], food: Cell) -> (u32, Cell) {
    for _ in 0..MAX_CELL_COUNT {
        state = next_random(state);
        let index = state as usize % MAX_CELL_COUNT;
        let candidate = Cell::new(
            (index % COLUMN_COUNT as usize) as i16,
            (index / COLUMN_COUNT as usize) as i16,
        );
        if !snake.contains(&candidate) {
            return (state, candidate);
        }
    }
    (state, food)
}

fn initial_snake() -> Vec<Cell> {
    vec![Cell::new(15, 6), Cell::new(14, 6), Cell::new(13, 6)]
}

#[test]
fn playfield_and_grid_share_one_boundary_definition() {
    assert_eq!(COLUMN_COUNT, 30);
    assert_eq!(ROW_COUNT, 13);
    assert!(Cell::new(0, 0).rectangle().top_left.x > playfield().top_left.x);
    assert!(!Cell::new(-1, 0).is_inside());
    assert!(!Cell::new(COLUMN_COUNT, 0).is_inside());
}

#[test]
fn reverse_direction_is_ignored() {
    let mut game = Game::new();
    game.set_direction(Direction::Left);
    assert!(matches!(game.tick(), Tick::Moved { .. }));
    assert_eq!(
        game.body().into_iter().next(),
        Some(Cell::new(COLUMN_COUNT / 2 + 1, ROW_COUNT / 2))
    );
}

#[test]
fn new_game_starts_in_the_middle_heading_right() {
    let game = Game::new();
    assert_eq!(game.body(), initial_snake());
    assert_eq!(game.score(), 0);
    assert_eq!(game.phase(), Phase::Running);
    let (_, food) = expected_food(INITIAL_SEED, &initial_snake(), Cell::new(0, 0));
    assert_eq!(game.food(), food);
    assert!(game.food().is_inside());
    assert!(!game.body().contains(&game.food()));
}

#[test]
fn default_game_is_a_new_game() {
    let game = Game::default();
    let fresh = Game::new();
    assert_eq!(game.body(), fresh.body());
    assert_eq!(game.food(), fresh.food());
}

#[test]
fn first_move_releases_the_tail() {
    let mut game = Game::new();
    assert_eq!(game.tick(), Tick::Moved { old_tail: Cell::new(13, 6) });
    assert_eq!(
        game.body(),
        vec![Cell::new(16, 6), Cell::new(15, 6), Cell::new(14, 6)]
    );
}

#[test]
fn turning_moves_the_head_in_the_new_direction() {
    let mut game = Game::new();
    game.set_direction(Direction::Up);
    assert!(matches!(game.tick(), Tick::Moved { .. }));
    assert_eq!(game.body()[0], Cell::new(15, 5));
    assert_eq!(game.body()[1], Cell::new(15, 6));
    // Down is now the reverse of the last move and is ignored.
    game.set_direction(Direction::Down);
    assert!(matches!(game.tick(), Tick::Moved { .. }));
    assert_eq!(game.body()[0], Cell::new(15, 4));
}

#[test]
fn paused_game_does_not_move_and_resumes() {
    let mut game = Game::new();
    game.toggle_pause();
    assert_eq!(game.phase(), Phase::Paused);
    assert_eq!(game.tick(), Tick::GameOver);
    assert_eq!(game.body(), initial_snake());
    game.toggle_pause();
    assert_eq!(game.phase(), Phase::Running);
    assert!(matches!(game.tick(), Tick::Moved { .. }));
}

#[test]
fn hitting_the_wall_ends_the_game_for_good() {
    let mut game = Game::new();
    let mut ticks = 0;
    while game.tick() != Tick::GameOver {
        ticks += 1;
        assert!(ticks <= COLUMN_COUNT);
    }
    assert_eq!(game.phase(), Phase::GameOver);
    let body = game.body();
    assert_eq!(body[0], Cell::new(COLUMN_COUNT - 1, 6));
    assert_eq!(game.tick(), Tick::GameOver);
    assert_eq!(game.body(), body);
    game.toggle_pause();
    assert_eq!(game.phase(), Phase::GameOver);
}

#[test]
fn eating_grows_the_snake_scores_and_moves_the_food() {
    let mut game = Game::new();
    let mut outcome = Tick::GameOver;
    for _ in 0..200 {
        let head = game.body()[0];
        let food = game.food();
        let wanted = if food.column > head.column {
            Direction::Right
        } else if food.column < head.column {
            Direction::Left
        } else if food.row < head.row {
            Direction::Up
        } else {
            Direction::Down
        };
        game.set_direction(wanted);
        let before = game.body();
        outcome = game.tick();
        if outcome == Tick::Ate {
            let after = game.body();
            assert_eq!(after.len(), before.len() + 1);
            assert_eq!(after[0], food);
            assert_eq!(&after[1..], &before[..]);
            assert_eq!(game.score(), 10);
            assert_eq!(game.score(), 10 * (after.len() as u32 - 3));
            assert!(!after.contains(&game.food()));
            assert!(game.food().is_inside());
            break;
        }
        assert_ne!(outcome, Tick::GameOver);
    }
    assert_eq!(outcome, Tick::Ate);
}

#[test]
fn restart_mixes_in_the_old_generator() {
    let mut game = Game::new();
    let (seed, _) = expected_food(INITIAL_SEED, &initial_snake(), Cell::new(0, 0));
    let (_, first_food) = expected_food(INITIAL_SEED, &initial_snake(), Cell::new(0, 0));
    game.restart();
    let mixed = seed ^ seed.rotate_left(13);
    let (_, food) = expected_food(mixed, &initial_snake(), first_food);
    assert_eq!(game.food(), food);
    assert_eq!(game.body(), initial_snake());
    assert_eq!(game.score(), 0);
    assert_eq!(game.phase(), Phase::Running);
}

#[test]
fn cell_rectangles_tile_the_playfield() {
    let first = Cell::new(0, 0).rectangle();
    assert_eq!((first.top_left.x, first.top_left.y), (9, 38));
    assert_eq!((first.size.width, first.size.height), (10, 10));
    let last = Cell::new(COLUMN_COUNT - 1, ROW_COUNT - 1).rectangle();
    assert_eq!((last.top_left.x, last.top_left.y), (299, 158));
    let field = playfield();
    assert!(last.top_left.x + CELL_SIZE <= field.top_left.x + field.size.width as i32 - 5);
    assert!(last.top_left.y + CELL_SIZE <= field.top_left.y + field.size.height as i32 - 5);
}

#[test]
fn cells_step_and_know_their_opposites() {
    let cell = Cell::new(3, 4);
    assert_eq!(cell.stepped(Direction::Up), Cell::new(3, 3));
    assert_eq!(cell.stepped(Direction::Down), Cell::new(3, 5));
    assert_eq!(cell.stepped(Direction::Left), Cell::new(2, 4));
    assert_eq!(cell.stepped(Direction::Right), Cell::new(4, 4));
    assert!(Direction::Up.is_opposite(Direction::Down));
    assert!(Direction::Left.is_opposite(Direction::Right));
    assert!(!Direction::Up.is_opposite(Direction::Left));
    assert!(!Direction::Up.is_opposite(Direction::Up));
    assert!(Cell::new(0, 0).is_inside());
    assert!(Cell::new(COLUMN_COUNT - 1, ROW_COUNT - 1).is_inside());
    assert!(!Cell::new(0, ROW_COUNT).is_inside());
    assert!(!Cell::new(0, -1).is_inside());
}
