use rusty_snake::food::Food;
use rusty_snake::game::respawn_food;
use rusty_snake::game::Game;
use rusty_snake::snake::Direction;
use rusty_snake::snake::Snake;
use rusty_snake::snake::SnakePiece;

fn snake(cells: Vec<(u32, u32)>, direction: Direction) -> Snake {
    Snake {
        snake_parts: cells.into_iter().map(|(x, y)| SnakePiece(x, y)).collect(),
        direction,
    }
}

fn head(g: &Game) -> (u32, u32) {
    let p = g.snake.snake_parts[0];
    (p.0, p.1)
}

#[test]
fn new_game_starts_at_center_moving_down() {
    let g = Game::new(20, 20);
    assert_eq!(head(&g), (10, 10));
    assert_eq!(g.snake.snake_parts.len(), 1);
    assert!(matches!(g.snake.direction, Direction::DOWN));
    assert_eq!((g.food.x, g.food.y), (1, 1));
    assert_eq!(g.score, 0);
    assert!(!g.eaten);
}

#[test]
fn pressed_stores_every_non_reversal_direction() {
    let mut g = Game::new(20, 20);
    // Moving DOWN: LEFT, RIGHT and DOWN itself are all accepted.
    g.pressed(Direction::LEFT);
    assert!(matches!(g.snake.direction, Direction::LEFT));
    g.pressed(Direction::UP);
    assert!(matches!(g.snake.direction, Direction::UP));
    g.pressed(Direction::UP);
    assert!(matches!(g.snake.direction, Direction::UP));
    g.pressed(Direction::RIGHT);
    assert!(matches!(g.snake.direction, Direction::RIGHT));
    g.pressed(Direction::DOWN);
    assert!(matches!(g.snake.direction, Direction::DOWN));
}

#[test]
fn pressed_rejects_each_exact_reversal() {
    let cases = [
        (Direction::DOWN, Direction::UP),
        (Direction::UP, Direction::DOWN),
        (Direction::LEFT, Direction::RIGHT),
        (Direction::RIGHT, Direction::LEFT),
    ];
    for (current, press) in cases {
        let mut g = Game::new(20, 20);
        g.snake.direction = current;
        g.pressed(press);
        assert_eq!(
            std::mem::discriminant(&g.snake.direction),
            std::mem::discriminant(&current)
        );
    }
}

#[test]
fn food_update_true_only_on_exact_head_match() {
    let food = Food { x: 3, y: 3 };
    let hit = snake(vec![(3, 3), (3, 2)], Direction::DOWN);
    assert!(food.update(&hit));
    for miss in [(3, 4), (4, 3), (2, 2), (3, 2)] {
        let s = snake(vec![miss, (9, 9)], Direction::DOWN);
        assert!(!food.update(&s));
    }
    // The head alone decides: food under a non-head body cell is no hit.
    let tail_on_food = snake(vec![(5, 5), (4, 5), (3, 5), (3, 4), (3, 3)], Direction::DOWN);
    assert!(!food.update(&tail_on_food));
}

#[test]
fn respawn_never_picks_an_occupied_cell() {
    // A snake over more than half of a 4x4 grid.
    let occupied = vec![
        (0, 0),
        (1, 0),
        (2, 0),
        (3, 0),
        (3, 1),
        (2, 1),
        (1, 1),
        (0, 1),
        (0, 2),
    ];
    let s = snake(occupied.clone(), Direction::DOWN);
    for _ in 0..200 {
        let f = respawn_food(&s, 4, 4).expect("free cells remain");
        assert!(f.x < 4 && f.y < 4);
        assert!(!occupied.contains(&(f.x, f.y)));
    }
}

#[test]
fn respawn_reports_a_completely_covered_grid() {
    let all = vec![(0, 0), (1, 0), (0, 1), (1, 1)];
    let s = snake(all, Direction::DOWN);
    assert!(respawn_food(&s, 2, 2).is_none());
}

#[test]
fn nine_ticks_down_then_right_without_food() {
    let mut g = Game::new(20, 20);
    for _ in 0..5 {
        assert!(g.update());
    }
    assert_eq!(head(&g), (10, 15));
    g.pressed(Direction::RIGHT);
    for _ in 0..4 {
        assert!(g.update());
    }
    assert_eq!(head(&g), (14, 15));
    assert_eq!(g.score, 0);
    assert_eq!(g.snake.snake_parts.len(), 1);
}

#[test]
fn eating_food_scores_and_grows() {
    let mut g = Game::new(20, 20);
    // Food directly one step ahead of the head (moving DOWN from (10, 10)).
    g.food = Food { x: 10, y: 11 };
    // The tick that reaches the food marks growth as pending ...
    assert!(g.update());
    assert!(g.eaten);
    assert_eq!(g.score, 0);
    assert_eq!(g.snake.snake_parts.len(), 1);
    // The food has already been respawned onto a free cell.
    assert!((g.food.x, g.food.y) != (10, 11));
    assert!(g.food.x < 20 && g.food.y < 20);
    // ... and the following tick consumes it: score and length go up by one.
    assert!(g.update());
    assert_eq!(g.score, 1);
    assert_eq!(g.snake.snake_parts.len(), 2);
}

#[test]
fn game_ends_at_the_wall_with_score_kept() {
    let mut g = Game::new(20, 20);
    for _ in 0..9 {
        assert!(g.update());
    }
    assert_eq!(head(&g), (10, 19));
    assert!(!g.update());
    assert_eq!(head(&g), (10, 19));
    assert_eq!(g.score, 0);
}

#[test]
fn game_ends_on_self_collision() {
    let mut g = Game::new(20, 20);
    g.snake = snake(
        vec![(5, 5), (5, 6), (6, 6), (6, 5), (6, 4)],
        Direction::RIGHT,
    );
    g.score = 4;
    assert!(!g.update());
    assert_eq!(g.snake.snake_parts.len(), 5);
    assert_eq!(g.score, 4);
}

#[test]
fn food_render_position_scales_by_square_size() {
    let food = Food { x: 1, y: 2 };
    assert_eq!(food.render_position(20), (20, 40));
    let far = Food { x: u32::MAX, y: 0 };
    assert_eq!(
        far.render_position(u32::MAX),
        (u32::MAX as u64 * u32::MAX as u64, 0)
    );
}
