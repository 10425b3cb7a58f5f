use std::sync::mpsc;

use snake_game::client::models::{Commands, OutputContent};
use snake_game::events::Command;
use snake_game::game::{flatten_batch, Game, Screen, TickOutcome};
use snake_game::models::{Direction, GameState, Point, RequestInfo, UIMode};
use snake_game::snake::Snake;

const W: u16 = 1000;
const H: u16 = 1000;

fn new_game_with(snake: Snake) -> (Game, mpsc::Receiver<RequestInfo>, mpsc::SyncSender<OutputContent>) {
    let (tx_request, rx_request) = mpsc::sync_channel::<RequestInfo>(1);
    let (tx_response, rx_response) = mpsc::sync_channel::<OutputContent>(1);
    (Game::new(snake, tx_request, rx_response), rx_request, tx_response)
}

/// A snake whose direction is pinned by two perpendicular turns.
fn snake_heading(first: Direction, then: Direction, head: Point) -> Snake {
    let mut s = Snake::new();
    s.change_direction(first);
    s.change_direction(then);
    s.set_head(head);
    s
}

fn head(g: &Game) -> (i32, i32) {
    let h = g.get_snake().get_head();
    (h.x, h.y)
}

#[test]
fn new_game_centers_snake_and_bounds_food() {
    let (mut g, _rx, _tx) = new_game_with(Snake::new());
    g.new_game(W, H);
    assert_eq!(head(&g), (i32::from(W) / 2, i32::from(H) / 2));
    assert_eq!(g.get_snake().get_list().len(), 1);
    assert_eq!(g.get_score(), 0);
    let food = g.get_food();
    assert!(0 <= food.x && food.x < i32::from(W));
    assert!(0 <= food.y && food.y < i32::from(H));
}

#[test]
fn food_relocation_stays_in_bounds() {
    let (mut g, _rx, _tx) = new_game_with(Snake::new());
    g.new_game(W, H);
    for _ in 0..100 {
        g.change_food_position(7, 3);
        let food = g.get_food();
        assert!(0 <= food.x && food.x < 7);
        assert!(0 <= food.y && food.y < 3);
    }
}

#[test]
fn any_input_starts_the_game() {
    let (mut g, _rx, _tx) = new_game_with(Snake::new());
    g.new_game(W, H);
    assert!(matches!(g.get_state(), GameState::NotStarted));
    let out = g.tick(None, UIMode::Game, W, H);
    assert_eq!(out, TickOutcome { quit: false, mode_change: None, screen: Screen::Start });
    assert!(matches!(g.get_state(), GameState::NotStarted));
    let out = g.tick(Some(Command::AnyKey), UIMode::Game, W, H);
    assert_eq!(out, TickOutcome { quit: false, mode_change: None, screen: Screen::Game });
    assert!(matches!(g.get_state(), GameState::Running));
}

#[test]
fn quit_stops_the_loop_and_changes_nothing() {
    let (mut g, _rx, _tx) = new_game_with(Snake::new());
    g.new_game(W, H);
    let before = head(&g);
    let out = g.tick(Some(Command::Quit), UIMode::Game, W, H);
    assert!(out.quit);
    assert_eq!(out.screen, Screen::Unchanged);
    assert_eq!(head(&g), before);
}

#[test]
fn wall_hit_ends_the_run_and_any_key_restarts() {
    let snake = snake_heading(Direction::Up, Direction::Left, Point::new(1, 5));
    let (mut g, _rx, _tx) = new_game_with(snake);
    let out = g.tick(Some(Command::AnyKey), UIMode::Game, W, H);
    assert_eq!(out.screen, Screen::Game);
    // Two moves put the head at x == -1, the third tick sees it.
    g.tick(None, UIMode::Game, W, H);
    g.tick(None, UIMode::Game, W, H);
    let out = g.tick(None, UIMode::Game, W, H);
    assert!(matches!(g.get_state(), GameState::GameOver));
    assert_eq!(out.screen, Screen::Unchanged);
    let out = g.tick(None, UIMode::Game, W, H);
    assert_eq!(out.screen, Screen::GameOver);
    assert!(matches!(g.get_state(), GameState::GameOver));
    let out = g.tick(Some(Command::AnyKey), UIMode::Game, W, H);
    assert_eq!(out.screen, Screen::GameOver);
    assert!(matches!(g.get_state(), GameState::Running));
    assert_eq!(head(&g), (i32::from(W) / 2, i32::from(H) / 2));
    assert_eq!(g.get_score(), 0);
}

#[test]
fn self_collision_is_detected() {
    // A length-6 snake walks a tight square and lands on its own tail.
    let mut s = snake_heading(Direction::Left, Direction::Up, Point::new(5, 5));
    for _ in 0..4 {
        s.grow();
    }
    s.moving(); // (5, 6)
    s.change_direction(Direction::Right);
    s.moving(); // (6, 6)
    s.change_direction(Direction::Down);
    s.moving(); // (6, 5)
    s.change_direction(Direction::Left);
    s.moving(); // (5, 5) again: the head meets the first segment
    let (g, _rx, _tx) = new_game_with(s);
    assert!(g.crossed_borders_or_eat_itself(100, 100));
}

#[test]
fn no_collision_on_open_board() {
    let s = snake_heading(Direction::Left, Direction::Up, Point::new(5, 5));
    let (g, _rx, _tx) = new_game_with(s);
    assert!(!g.crossed_borders_or_eat_itself(100, 100));
    assert!(g.crossed_borders_or_eat_itself(5, 100));
    assert!(g.crossed_borders_or_eat_itself(100, 5));
}

#[test]
fn eating_food_scores_grows_and_relocates() {
    // Walk the head onto the food at (0, 0), which is where a fresh
    // game keeps it before new_game runs.
    let snake = snake_heading(Direction::Left, Direction::Up, Point::new(3, 4));
    let (mut g, _rx, _tx) = new_game_with(snake);
    g.tick(Some(Command::AnyKey), UIMode::Game, W, H);
    assert!(matches!(g.get_state(), GameState::Running));
    let food = g.get_food();
    assert_eq!((food.x, food.y), (0, 0));

    let mut ticks = 0;
    while head(&g).0 > 0 {
        g.tick(Some(Command::Turn(Direction::Left)), UIMode::Game, W, H);
        ticks += 1;
        assert!(ticks < 50);
    }
    while head(&g).1 > 0 {
        g.tick(Some(Command::Turn(Direction::Down)), UIMode::Game, W, H);
        ticks += 1;
        assert!(ticks < 50);
    }
    assert_eq!(head(&g), (0, 0));
    assert_eq!(g.get_score(), 0);

    // The head sits on the food: this tick must eat it.
    g.tick(Some(Command::Turn(Direction::Down)), UIMode::Game, W, H);
    assert_eq!(g.get_score(), 1);
    let new_food = g.get_food();
    assert!(0 <= new_food.x && new_food.x < i32::from(W));
    assert!(0 <= new_food.y && new_food.y < i32::from(H));
    // A 1000 by 1000 board makes staying put a one-in-a-million event.
    assert!((new_food.x, new_food.y) != (0, 0));
    // Growth registered before the body extended.
    assert_eq!(g.get_snake().get_list().len(), 3);
}

#[test]
fn flatten_preserves_batch_order() {
    let batch = OutputContent {
        commands: vec![
            Commands { command: Direction::Right, repeat: 3 },
            Commands { command: Direction::Up, repeat: 2 },
        ],
    };
    let flat = flatten_batch(&batch);
    assert_eq!(
        flat,
        vec![
            Direction::Right,
            Direction::Right,
            Direction::Right,
            Direction::Up,
            Direction::Up,
        ],
    );
}

#[test]
fn flatten_ignores_non_positive_repeats() {
    let batch = OutputContent {
        commands: vec![
            Commands { command: Direction::Up, repeat: 0 },
            Commands { command: Direction::Left, repeat: -4 },
            Commands { command: Direction::Down, repeat: 1 },
        ],
    };
    assert_eq!(flatten_batch(&batch), vec![Direction::Down]);
}
