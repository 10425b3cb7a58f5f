//! The game state machine: lifecycle transitions, food and scoring,
//! command sourcing, and the decisions of one simulation tick.
//!
//! The embedding loop owns the clock and the boundaries: it polls the
//! keyboard, renders, and hands each tick's command to [`Game::tick`],
//! which makes every decision of the per-tick algorithm.

use vstd::prelude::*;
use std::sync::mpsc::{Receiver, SyncSender};

use crate::channel::{try_recv_response, try_send_request};
use crate::client::models::{Commands, InputContent, OutputContent};
use crate::events::Command;
use crate::models::{in_bounds, Direction, GameMod, GameState, Point, Provider, RequestInfo, UIMode};
use crate::snake::{moved_body, Snake, SnakeView};

verus! {

/// The render and board-size boundary: a backend implements this and
/// the embedding loop drives it. Nothing is assumed of an
/// implementation here.
pub trait Board {
    fn prepare_ui(&mut self);

    fn render_game(&mut self, snake: &Snake, food: &Point, score: u16);

    fn render_start_screen(&mut self);

    fn render_game_over(&mut self, score: u16);

    fn render_selecting_mode(&mut self);

    fn clean_up(&mut self);

    fn get_size(&self) -> (u16, u16);

    fn update_mode(&mut self, mode: UIMode);

    fn get_mode(&self) -> UIMode;

    fn autoresize(&mut self);
}

/// The mathematical content of a [`Game`]. The two channel endpoints
/// are opaque and carry no state of the model.
pub struct GameView {
    pub snake: SnakeView,
    pub food: Point,
    pub score: nat,
    pub client: Option<Provider>,
    pub commands: Seq<Direction>,
    pub game_state: GameState,
    pub game_mod: GameMod,
}

pub struct Game {
    snake: Snake,
    food: Point,
    score: u16,
    client: Option<Provider>,
    commands: Vec<Direction>,
    game_state: GameState,
    game_mod: GameMod,
    tx_request: SyncSender<RequestInfo>,
    rx_response: Receiver<OutputContent>,
}

impl View for Game {
    type V = GameView;

    closed spec fn view(&self) -> GameView {
        GameView {
            snake: self.snake@,
            food: self.food,
            score: self.score as nat,
            client: self.client,
            commands: self.commands@,
            game_state: self.game_state,
            game_mod: self.game_mod,
        }
    }
}

/// What a suggestion request carries: the provider the player chose,
/// the snake's head, and the food's position.
pub open spec fn request_spec(g: GameView, s_head: Point) -> Option<RequestInfo> {
    match g.client {
        Some(provider) => Some(
            RequestInfo {
                provider,
                input: InputContent {
                    snake_head_x: s_head.x,
                    snake_head_y: s_head.y,
                    food_x: g.food.x,
                    food_y: g.food.y,
                },
            },
        ),
        None => None,
    }
}

/// The head has left the board or run into another body segment.
pub open spec fn collision(body: Seq<Point>, width: int, height: int) -> bool {
    !in_bounds(body[0], width, height) || exists|i: int|
        1 <= i < body.len() && #[trigger] body[i] == body[0]
}

/// The centre cell of a `width` by `height` board.
pub open spec fn center_point(width: u16, height: u16) -> Point {
    Point { x: (width as int / 2) as i32, y: (height as int / 2) as i32 }
}

/// What a turn request does: a request for the current direction's
/// opposite is ignored, anything else is taken.
pub open spec fn turn_spec(dir: Direction, requested: Direction) -> Direction {
    if requested == dir.opposite_spec() {
        dir
    } else {
        requested
    }
}

/// The invariant a game satisfies between ticks, once a run has been
/// prepared: the body is non-empty and within its cap, and the cap
/// stays two segments ahead of the score, since both start together
/// and food raises both by one.
pub open spec fn inv(g: GameView) -> bool {
    &&& 1 <= g.snake.length
    &&& g.snake.body.len() <= g.snake.length
    &&& 0 < g.snake.body.len()
    &&& g.snake.length == 2 + g.score
}

/// The directions one batch instruction expands to: `repeat` copies
/// of its direction, none when `repeat` is not positive.
pub open spec fn repeat_of(c: Commands) -> Seq<Direction> {
    Seq::new(if c.repeat > 0 { c.repeat as nat } else { 0 }, |i: int| c.command)
}

/// A whole batch flattened into single-step directions, in order.
pub open spec fn flatten_spec(batch: Seq<Commands>) -> Seq<Direction>
    decreases batch.len(),
{
    if batch.len() == 0 {
        Seq::empty()
    } else {
        repeat_of(batch[0]) + flatten_spec(batch.drop_first())
    }
}

/// Flattening distributes over appending one instruction at the end:
/// batches expand in order.
pub proof fn lemma_flatten_push(batch: Seq<Commands>, c: Commands)
    ensures
        flatten_spec(batch.push(c)) == flatten_spec(batch) + repeat_of(c),
    decreases batch.len(),
{
    if batch.len() == 0 {
        assert(batch.push(c)[0] == c);
        assert(batch.push(c).drop_first() =~= Seq::<Commands>::empty());
        assert(flatten_spec(batch.push(c)) == repeat_of(c) + flatten_spec(
            Seq::<Commands>::empty(),
        ));
        assert(flatten_spec(batch.push(c)) =~= flatten_spec(batch) + repeat_of(c));
    } else {
        assert(batch.push(c)[0] == batch[0]);
        assert(batch.push(c).drop_first() =~= batch.drop_first().push(c));
        lemma_flatten_push(batch.drop_first(), c);
        assert(flatten_spec(batch.push(c)) == repeat_of(batch[0]) + (flatten_spec(
            batch.drop_first(),
        ) + repeat_of(c)));
        assert(flatten_spec(batch.push(c)) =~= flatten_spec(batch) + repeat_of(c));
    }
}

/// Expands a provider batch into one direction per future tick,
/// preserving the batch's order.
pub fn flatten_batch(output: &OutputContent) -> (r: Vec<Direction>)
    ensures
        r@ == flatten_spec(output.commands@),
{
    let mut flat: Vec<Direction> = Vec::new();
    let n = output.commands.len();
    for ci in 0..n
        invariant
            n == output.commands@.len(),
            flat@ == flatten_spec(output.commands@.subrange(0, ci as int)),
    {
        let c = output.commands[ci];
        let ghost base = flat@;
        let mut j: i32 = 0;
        while j < c.repeat
            invariant
                0 <= j,
                c.repeat > 0 ==> j <= c.repeat,
                c.repeat <= 0 ==> j == 0,
                flat@ == base + Seq::new(j as nat, |k: int| c.command),
            decreases c.repeat - j,
        {
            flat.push(c.command);
            j = j + 1;
            proof {
                assert(flat@ =~= base + Seq::new(j as nat, |k: int| c.command));
            }
        }
        proof {
            assert(flat@ =~= base + repeat_of(c));
            assert(output.commands@.subrange(0, ci + 1).drop_last() =~= output.commands@.subrange(
                0,
                ci as int,
            ));
            assert(output.commands@.subrange(0, ci + 1) =~= output.commands@.subrange(0, ci as int)
                .push(c));
            lemma_flatten_push(output.commands@.subrange(0, ci as int), c);
        }
    }
    proof {
        assert(output.commands@.subrange(0, n as int) =~= output.commands@);
    }
    flat
}

impl Game {
    pub fn new(
        snake: Snake,
        tx_request: SyncSender<RequestInfo>,
        rx_response: Receiver<OutputContent>,
    ) -> (r: Self)
        ensures
            r@.snake == snake@,
            r@.food == (Point { x: 0, y: 0 }),
            r@.score == 0,
            r@.client is None,
            r@.commands == Seq::<Direction>::empty(),
            r@.game_state == GameState::NotStarted,
            r@.game_mod == GameMod::Player,
    {
        let r = Self {
            snake,
            food: Point::new(0, 0),
            score: 0,
            client: None,
            commands: Vec::new(),
            game_state: GameState::NotStarted,
            game_mod: GameMod::Player,
            tx_request,
            rx_response,
        };
        proof {
            assert(r@.commands =~= Seq::<Direction>::empty());
        }
        r
    }

    /// Moves the food to a uniformly random in-bounds cell. Nothing
    /// keeps it off the snake's body; that looseness is deliberate.
    pub fn change_food_position(&mut self, width: u16, height: u16)
        requires
            width > 0,
            height > 0,
        ensures
            in_bounds(final(self)@.food, width as int, height as int),
            final(self)@ == (GameView { food: final(self)@.food, ..old(self)@ }),
    {
        self.food = Point::new_random(width as i32, height as i32);
    }

    /// One more food eaten.
    pub fn increment_score(&mut self)
        requires
            old(self)@.score < u16::MAX,
        ensures
            final(self)@ == (GameView { score: (old(self)@.score + 1) as nat, ..old(self)@ }),
    {
        self.score += 1;
    }

    /// Prepares a fresh run: empty command queue, zero score, the
    /// snake reset to a single head segment at the board's centre,
    /// and the food somewhere in bounds. Mode and lifecycle state are
    /// untouched.
    pub fn new_game(&mut self, width: u16, height: u16)
        requires
            width > 0,
            height > 0,
        ensures
            reset_fields(old(self)@, final(self)@, width, height),
            final(self)@.game_state == old(self)@.game_state,
            final(self)@.game_mod == old(self)@.game_mod,
            final(self)@.client == old(self)@.client,
            inv(final(self)@),
    {
        self.snake.reset();
        self.commands.clear();
        self.score = 0;

        self.snake.set_head(Point::new_center(width as i32, height as i32));

        self.food = Point::new_random(width as i32, height as i32);
    }

    /// The request a suggestion-starved tick hands the worker: the
    /// selected provider together with the given head and the
    /// current food position, or nothing when no provider is
    /// selected.
    pub fn build_request(&self, s_head: Point) -> (r: Option<RequestInfo>)
        ensures
            r == request_spec(self@, s_head),
    {
        if let Some(client) = self.client {
            let food = self.food;
            let input = InputContent {
                snake_head_x: s_head.x,
                snake_head_y: s_head.y,
                food_x: food.x,
                food_y: food.y,
            };

            Some(RequestInfo { provider: client, input })
        } else {
            None
        }
    }

    /// Hands the autopilot worker a request carrying the given head
    /// and the current food position, if a provider is selected. The
    /// hand-off queue never blocks; a full queue means a request is
    /// already in flight and none is added.
    pub fn do_commands_request(&mut self, s_head: Point)
        ensures
            final(self)@ == old(self)@,
    {
        if let Some(req_info) = self.build_request(s_head) {
            let _sent = try_send_request(&self.tx_request, req_info);
        }
    }

    /// Appends a provider batch, flattened in order, to the pending
    /// command queue.
    pub fn apply_response(&mut self, output: &OutputContent)
        ensures
            final(self)@ == (GameView {
                commands: old(self)@.commands + flatten_spec(output.commands@),
                ..old(self)@
            }),
    {
        let mut flat = flatten_batch(output);
        self.commands.append(&mut flat);
    }

    /// The head equals the food cell.
    pub fn is_food_eaten(&self) -> (r: bool)
        requires
            self@.snake.body.len() > 0,
        ensures
            r == (self@.snake.body[0] == self@.food),
    {
        let head = self.snake.get_head();
        let food = self.food;
        if head.x == food.x && head.y == food.y {
            return true;
        }
        false
    }

    /// Whether the run is over: true exactly when the head has left
    /// the board or coincides with another body segment.
    pub fn crossed_borders_or_eat_itself(&self, width: u16, height: u16) -> (r: bool)
        requires
            self@.snake.body.len() > 0,
        ensures
            r == collision(self@.snake.body, width as int, height as int),
    {
        let list = self.snake.get_list();
        let head = list[0];
        let n = list.len();
        for i in 1..n
            invariant
                n == list@.len(),
                0 < n,
                list@ == self@.snake.body,
                head == list@[0],
                forall|k: int| 1 <= k < i ==> #[trigger] list@[k] != list@[0],
        {
            if head.x == list[i].x && head.y == list[i].y {
                return true;
            }
        }
        head.x < 0 || head.y < 0 || head.x >= width as i32 || head.y >= height as i32
    }
}

/// What [`Game::new_game`] does to the run's fields; lifecycle state
/// and mode are handled by its callers.
pub open spec fn reset_fields(pre: GameView, post: GameView, width: u16, height: u16) -> bool {
    &&& post.snake.body == seq![center_point(width, height)]
    &&& post.snake.length == 2
    &&& post.snake.direction == pre.snake.direction
    &&& post.commands == Seq::<Direction>::empty()
    &&& post.score == 0
    &&& in_bounds(post.food, width as int, height as int)
}

/// What a tick asks of the embedding loop.
#[derive(Clone, Copy, PartialEq, Eq, Structural, Debug)]
pub enum Screen {
    Game,
    Start,
    GameOver,
    Selecting,
    Unchanged,
}

/// The outcome of one tick: whether to stop the loop, a UI-mode
/// change to apply to the board, and which screen to draw.
#[derive(Clone, Copy, PartialEq, Eq, Structural, Debug)]
pub struct TickOutcome {
    pub quit: bool,
    pub mode_change: Option<UIMode>,
    pub screen: Screen,
}

/// What a tick spent in mode selection does: the run is reset, and a
/// chosen mode is installed and echoed to the board.
pub open spec fn selecting_rel(
    pre: GameView,
    post: GameView,
    cmd: Option<Command>,
    width: u16,
    height: u16,
    out: TickOutcome,
) -> bool {
    &&& !out.quit
    &&& out.screen == if cmd is None {
        Screen::Selecting
    } else {
        Screen::Game
    }
    &&& reset_fields(pre, post, width, height)
    &&& match cmd {
        Some(Command::SelectingModeCommand(GameMod::Player)) => {
            &&& post.game_state == GameState::NotStarted
            &&& post.game_mod == GameMod::Player
            &&& post.client == pre.client
            &&& out.mode_change == Some(UIMode::Game)
        },
        Some(Command::SelectingModeCommand(GameMod::Api(p))) => {
            &&& post.game_state == GameState::NotStarted
            &&& post.game_mod == GameMod::Api(p)
            &&& post.client == Some(p)
            &&& out.mode_change == Some(UIMode::GameWithDebug)
        },
        _ => {
            &&& post.game_state == pre.game_state
            &&& post.game_mod == pre.game_mod
            &&& post.client == pre.client
            &&& out.mode_change == if cmd == Some(Command::SelectMode) {
                Some(UIMode::SelectingMode)
            } else {
                None::<UIMode>
            }
        },
    }
}

/// One autopilot step over the queue `pre.commands + extra`, where
/// `extra` is whatever batch the response queue yielded this tick,
/// flattened: if a command is pending, it is consumed as a turn and
/// the snake moves; otherwise the snake holds still for this tick.
pub open spec fn api_step(pre: GameView, post: GameView, extra: Seq<Direction>) -> bool {
    let q = pre.commands + extra;
    if q.len() > 0 {
        let dir2 = turn_spec(pre.snake.direction, q[0]);
        &&& post.snake.direction == dir2
        &&& post.snake.body == moved_body(pre.snake.body, dir2, post.snake.length)
        &&& post.commands == q.drop_first()
    } else {
        &&& post.snake.direction == pre.snake.direction
        &&& post.snake.body == pre.snake.body
        &&& post.commands == q
    }
}

/// A Running tick with no collision: the food check precedes command
/// application, which precedes movement.
pub open spec fn running_rel(
    pre: GameView,
    post: GameView,
    cmd: Option<Command>,
    width: u16,
    height: u16,
    out: TickOutcome,
) -> bool {
    let eaten = pre.snake.body[0] == pre.food;
    let length2 = if eaten {
        (pre.snake.length + 1) as nat
    } else {
        pre.snake.length
    };
    &&& !out.quit
    &&& out.mode_change is None
    &&& out.screen == Screen::Game
    &&& post.game_state == GameState::Running
    &&& post.game_mod == pre.game_mod
    &&& post.client == pre.client
    &&& post.score == if eaten {
        (pre.score + 1) as int
    } else {
        pre.score as int
    }
    &&& if eaten {
        in_bounds(post.food, width as int, height as int)
    } else {
        post.food == pre.food
    }
    &&& post.snake.length == length2
    &&& match pre.game_mod {
        GameMod::Player => {
            let dir2 = match cmd {
                Some(Command::Turn(d)) => turn_spec(pre.snake.direction, d),
                _ => pre.snake.direction,
            };
            &&& post.snake.direction == dir2
            &&& post.snake.body == moved_body(pre.snake.body, dir2, length2)
            &&& post.commands == pre.commands
        },
        GameMod::Api(_) => exists|extra: Seq<Direction>| #[trigger] api_step(pre, post, extra),
    }
}

/// The transition relation of one tick: quitting first, then mode
/// selection, then the lifecycle states, with collision checked
/// before the food, the food before the command, and the command
/// before the move.
pub open spec fn tick_rel(
    pre: GameView,
    post: GameView,
    cmd: Option<Command>,
    ui_mode: UIMode,
    width: u16,
    height: u16,
    out: TickOutcome,
) -> bool {
    if cmd == Some(Command::Quit) {
        &&& post == pre
        &&& out.quit
        &&& out.mode_change is None
        &&& out.screen == Screen::Unchanged
    } else {
        let mode = if cmd == Some(Command::SelectMode) {
            UIMode::SelectingMode
        } else {
            ui_mode
        };
        if mode == UIMode::SelectingMode {
            selecting_rel(pre, post, cmd, width, height, out)
        } else {
            match pre.game_state {
                GameState::NotStarted => {
                    &&& post == if cmd is Some {
                        GameView { game_state: GameState::Running, ..pre }
                    } else {
                        pre
                    }
                    &&& !out.quit
                    &&& out.mode_change is None
                    &&& out.screen == if cmd is Some {
                        Screen::Game
                    } else {
                        Screen::Start
                    }
                },
                GameState::Running => {
                    if collision(pre.snake.body, width as int, height as int) {
                        &&& post == (GameView { game_state: GameState::GameOver, ..pre })
                        &&& !out.quit
                        &&& out.mode_change is None
                        &&& out.screen == Screen::Unchanged
                    } else {
                        running_rel(pre, post, cmd, width, height, out)
                    }
                },
                GameState::GameOver => {
                    &&& !out.quit
                    &&& out.mode_change is None
                    &&& out.screen == Screen::GameOver
                    &&& if cmd is Some {
                        &&& reset_fields(pre, post, width, height)
                        &&& post.game_state == GameState::Running
                        &&& post.game_mod == pre.game_mod
                        &&& post.client == pre.client
                    } else {
                        post == pre
                    }
                },
            }
        }
    }
}

impl Game {
    /// The food's current cell.
    pub fn get_food(&self) -> (r: Point)
        ensures
            r == self@.food,
    {
        self.food
    }

    /// The current score.
    pub fn get_score(&self) -> (r: u16)
        ensures
            r as nat == self@.score,
    {
        self.score
    }

    /// The lifecycle state.
    pub fn get_state(&self) -> (r: GameState)
        ensures
            r == self@.game_state,
    {
        self.game_state
    }

    /// A read-only view of the snake, for rendering.
    pub fn get_snake(&self) -> (r: &Snake)
        ensures
            r@ == self@.snake,
    {
        &self.snake
    }

    /// The mode-selection overlay's decisions for one tick: a chosen
    /// mode is installed and the matching UI mode returned; in every
    /// case the run is reset.
    pub fn handle_selecting_mode(
        &mut self,
        user_command: &Option<Command>,
        width: u16,
        height: u16,
    ) -> (r: Option<UIMode>)
        requires
            width > 0,
            height > 0,
        ensures
            reset_fields(old(self)@, final(self)@, width, height),
            inv(final(self)@),
            match *user_command {
                Some(Command::SelectingModeCommand(GameMod::Player)) => {
                    &&& final(self)@.game_state == GameState::NotStarted
                    &&& final(self)@.game_mod == GameMod::Player
                    &&& final(self)@.client == old(self)@.client
                    &&& r == Some(UIMode::Game)
                },
                Some(Command::SelectingModeCommand(GameMod::Api(p))) => {
                    &&& final(self)@.game_state == GameState::NotStarted
                    &&& final(self)@.game_mod == GameMod::Api(p)
                    &&& final(self)@.client == Some(p)
                    &&& r == Some(UIMode::GameWithDebug)
                },
                _ => {
                    &&& final(self)@.game_state == old(self)@.game_state
                    &&& final(self)@.game_mod == old(self)@.game_mod
                    &&& final(self)@.client == old(self)@.client
                    &&& r is None
                },
            },
    {
        let mut r: Option<UIMode> = None;
        if let Some(command) = user_command {
            match command {
                Command::SelectingModeCommand(GameMod::Player) => {
                    self.game_state = GameState::NotStarted;
                    r = Some(UIMode::Game);
                    self.game_mod = GameMod::Player;
                }
                Command::SelectingModeCommand(GameMod::Api(provider)) => {
                    self.game_state = GameState::NotStarted;
                    r = Some(UIMode::GameWithDebug);
                    self.game_mod = GameMod::Api(*provider);
                    self.client = Some(*provider);
                }
                _ => {}
            }
        }
        self.new_game(width, height);
        r
    }

    /// One simulation tick, fed the command this tick's poll yielded
    /// and the board's current mode and size. Every decision of the
    /// loop body happens here; the embedding loop only performs the
    /// returned actions.
    #[verifier::rlimit(50)]
    pub fn tick(&mut self, user_command: Option<Command>, ui_mode: UIMode, width: u16, height: u16) -> (r: TickOutcome)
        requires
            inv(old(self)@),
            old(self)@.score < u16::MAX,
            width > 0,
            height > 0,
        ensures
            inv(final(self)@),
            tick_rel(old(self)@, final(self)@, user_command, ui_mode, width, height, r),
    {
        let mut mode = ui_mode;
        let mut mode_change: Option<UIMode> = None;
        if let Some(command) = &user_command {
            match command {
                Command::Quit => {
                    return TickOutcome { quit: true, mode_change: None, screen: Screen::Unchanged };
                }
                Command::SelectMode => {
                    mode = UIMode::SelectingMode;
                    mode_change = Some(UIMode::SelectingMode);
                }
                _ => {}
            }
        }

        if mode == UIMode::SelectingMode {
            let change = self.handle_selecting_mode(&user_command, width, height);
            let mc = if change.is_some() {
                change
            } else {
                mode_change
            };
            let screen = if user_command.is_none() {
                Screen::Selecting
            } else {
                Screen::Game
            };
            return TickOutcome { quit: false, mode_change: mc, screen };
        }

        match self.game_state {
            GameState::NotStarted => {
                if user_command.is_some() {
                    self.game_state = GameState::Running;
                    return TickOutcome { quit: false, mode_change, screen: Screen::Game };
                }
                return TickOutcome { quit: false, mode_change, screen: Screen::Start };
            }
            GameState::Running => {
                if self.crossed_borders_or_eat_itself(width, height) {
                    self.game_state = GameState::GameOver;
                    return TickOutcome { quit: false, mode_change, screen: Screen::Unchanged };
                }

                if self.is_food_eaten() {
                    self.change_food_position(width, height);
                    self.increment_score();
                    self.snake.grow();
                }
            }
            GameState::GameOver => {
                if user_command.is_some() {
                    self.game_state = GameState::Running;
                    self.new_game(width, height);
                    return TickOutcome { quit: false, mode_change, screen: Screen::GameOver };
                }
                return TickOutcome { quit: false, mode_change, screen: Screen::GameOver };
            }
        }

        match self.game_mod {
            GameMod::Player => {
                if let Some(command) = &user_command {
                    if let Command::Turn(direction) = command {
                        self.snake.change_direction(*direction);
                    }
                }
            }
            GameMod::Api(_provider) => {
                let output = try_recv_response(&self.rx_response);
                let ghost extra: Seq<Direction> = match &output {
                    Some(o) => flatten_spec(o.commands@),
                    None => Seq::empty(),
                };
                let ghost q = old(self)@.commands + extra;
                if let Some(output) = &output {
                    self.apply_response(output);
                }
                proof {
                    assert(self@.commands =~= q);
                }
                if self.commands.len() == 0 {
                    let head = self.snake.get_head();
                    self.do_commands_request(head);
                }
                if self.commands.len() > 0 {
                    let command = self.commands.remove(0);
                    self.snake.change_direction(command);
                    self.snake.moving();
                    let out = TickOutcome { quit: false, mode_change, screen: Screen::Game };
                    proof {
                        assert(q.remove(0) =~= q.drop_first());
                        assert(self@.commands == q.drop_first());
                        assert(api_step(old(self)@, self@, extra));
                        assert(running_rel(old(self)@, self@, user_command, width, height, out));
                    }
                    return out;
                } else {
                    let out = TickOutcome { quit: false, mode_change, screen: Screen::Game };
                    proof {
                        assert(api_step(old(self)@, self@, extra));
                        assert(running_rel(old(self)@, self@, user_command, width, height, out));
                    }
                    return out;
                }
            }
        }

        self.snake.moving();
        TickOutcome { quit: false, mode_change, screen: Screen::Game }
    }
}

} // verus!

