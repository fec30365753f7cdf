//! One game session: the chain, the food, the remaining quota and the outcome.
use vstd::prelude::*;
use crate::apple::Apple;
use crate::apples::{active_positions_of, Apples};
use crate::geometry::MAX_EXTENT;
use crate::random::gen_range;
use crate::seg::{Seg, Tint};
use crate::snake::{eaten_from, lemma_first_touch, touches, touches_any, Direction, Snake, SnakeView, MAX_RADIUS};

verus! {

/// The quota of a session that the front end starts without choosing one.
pub const NUMBER_APPLES: u32 = 100;

/// Radius of the head; the head moves twice this far per tick.
pub const HEAD_RADIUS: i32 = 13;

/// Distance from the playfield's edges within which no food is placed, on
/// playfields wide enough to leave it free.
pub const SPAWN_MARGIN: i32 = 10;

/// Points for each food item eaten.
pub const POINTS_PER_APPLE: u64 = 100;

/// Where a session stands. `GameOver` and `Won` are final.
#[derive(Clone, Copy, Debug, PartialEq, Eq, Structural)]
pub enum GameState {
    Playing,
    GameOver,
    Won,
}

/// Why a session could not be created.
#[derive(Clone, Copy, Debug, PartialEq, Eq, Structural)]
pub enum ConfigError {
    /// A playfield extent is not in `1..=MAX_EXTENT`.
    InvalidExtent,
    /// The quota of food items to eat is zero.
    ZeroQuota,
}

/// A session on a `width` by `height` playfield. `count` food items remain to
/// be eaten out of `quota`.
#[derive(Debug)]
pub struct Game {
    pub snake: Snake,
    pub apples: Apples,
    pub count: u32,
    pub quota: u32,
    pub width: i32,
    pub height: i32,
    pub state: GameState,
}

/// A session as a value.
pub struct GameView {
    pub snake: SnakeView,
    pub apples: Seq<Apple>,
    pub count: u32,
    pub quota: u32,
    pub width: i32,
    pub height: i32,
    pub state: GameState,
}

impl View for Game {
    type V = GameView;

    open spec fn view(&self) -> GameView {
        GameView {
            snake: self.snake@,
            apples: self.apples.apples@,
            count: self.count,
            quota: self.quota,
            width: self.width,
            height: self.height,
            state: self.state,
        }
    }
}

/// What a front end needs to draw a session.
pub struct RenderState {
    pub head: (i32, i32),
    pub body: Vec<(i32, i32)>,
    pub food: Vec<(i32, i32)>,
    pub score: u64,
    pub state: GameState,
}

/// The positions of the segments of `body`, in order.
pub open spec fn positions_of(body: Seq<Seg>) -> Seq<(i32, i32)> {
    Seq::new(body.len(), |i: int| (body[i].x, body[i].y))
}

/// Whether a playfield extent is accepted.
pub open spec fn valid_extent(e: int) -> bool {
    0 < e <= MAX_EXTENT
}

/// The least coordinate at which food is placed on an axis of extent `e`.
pub open spec fn spawn_low(e: int) -> int {
    if e >= 2 * SPAWN_MARGIN {
        SPAWN_MARGIN as int
    } else {
        0
    }
}

/// The greatest coordinate at which food is placed on an axis of extent `e`.
pub open spec fn spawn_high(e: int) -> int {
    if e >= 2 * SPAWN_MARGIN {
        e - SPAWN_MARGIN
    } else {
        e
    }
}

/// The head a new session starts with: centred horizontally on the bottom
/// edge, heading right.
pub open spec fn start_head(width: int, height: int) -> Seg {
    Seg { dx: 1, dy: 0, x: (width / 2) as i32, y: height as i32, radius: HEAD_RADIUS, color: Tint::Green }
}

/// The session that `Game::new` starts: a lone live head heading right, no
/// food yet, the whole quota still to eat.
pub open spec fn started(width: int, height: int, quota: u32) -> GameView {
    GameView {
        snake: SnakeView {
            alive: true,
            direction: Direction::Right,
            head: start_head(width, height),
            body: Seq::empty(),
        },
        apples: Seq::empty(),
        count: quota,
        quota,
        width: width as i32,
        height: height as i32,
        state: GameState::Playing,
    }
}

impl GameView {
    /// The well-formed sessions: accepted extents, a head that can move, no
    /// more eaten than the quota, and a live chain with food left to eat
    /// while playing.
    pub open spec fn wf(self) -> bool {
        &&& valid_extent(self.width as int)
        &&& valid_extent(self.height as int)
        &&& 0 <= self.snake.head.radius <= MAX_RADIUS
        &&& -1 <= self.snake.head.dx <= 1
        &&& -1 <= self.snake.head.dy <= 1
        &&& self.count <= self.quota
        &&& self.state == GameState::Playing ==> self.snake.alive && self.count > 0
    }

    /// Whether `(x, y)` is a place where new food may be put.
    pub open spec fn in_spawn_area(self, x: i32, y: i32) -> bool {
        &&& spawn_low(self.width as int) <= x <= spawn_high(self.width as int)
        &&& spawn_low(self.height as int) <= y <= spawn_high(self.height as int)
    }

    /// The session with an active food item added at `(x, y)`.
    pub open spec fn with_apple(self, x: i32, y: i32) -> GameView {
        GameView { apples: self.apples.push(Apple::fresh(x, y)), ..self }
    }

    /// Points scored so far.
    pub open spec fn score(self) -> int {
        (self.quota - self.count) * POINTS_PER_APPLE
    }

    /// The session after a direction intent; no intent keeps the direction.
    pub open spec fn steered(self, intent: Option<Direction>) -> GameView {
        match intent {
            Some(d) => GameView { snake: self.snake.turned(d), ..self },
            None => self,
        }
    }

    /// The session after the chain has eaten from the food, with a new food
    /// item placed at `(x, y)` if it ate.
    pub open spec fn fed(self, x: i32, y: i32) -> GameView {
        if touches_any(self.snake.head, self.apples) {
            GameView {
                snake: self.snake.fed(self.apples),
                apples: eaten_from(self.snake.head, self.apples),
                count: (self.count - 1) as u32,
                ..self
            }.with_apple(x, y)
        } else {
            self
        }
    }

    /// The session after the win check: a session still being played is won
    /// once no food remains to be eaten.
    pub open spec fn end_checked(self) -> GameView {
        if self.state == GameState::Playing && self.count == 0 {
            GameView { state: GameState::Won, ..self }
        } else {
            self
        }
    }

    /// One tick: steer, move, check for self-collision (which ends the game),
    /// eat, and check for a win. A finished session does not change. The
    /// replacement food, if one is needed, goes to `(x, y)`.
    pub open spec fn ticked(self, intent: Option<Direction>, x: i32, y: i32) -> GameView {
        if self.state != GameState::Playing {
            self
        } else {
            let moved = self.steered(intent);
            let moved = GameView {
                snake: moved.snake.advanced(self.width as int, self.height as int).bite_checked(),
                ..moved
            };
            if !moved.snake.alive {
                GameView { state: GameState::GameOver, ..moved }
            } else {
                moved.fed(x, y).end_checked()
            }
        }
    }
}

impl Game {
    /// A session on a `width` by `height` playfield that is won after eating
    /// `quota` food items. The chain starts as a lone head and no food is
    /// placed yet.
    pub fn new(width: i32, height: i32, quota: u32) -> (r: Result<Game, ConfigError>)
        ensures
            !valid_extent(width as int) || !valid_extent(height as int) <==> r == Err::<
                Game,
                ConfigError,
            >(ConfigError::InvalidExtent),
            valid_extent(width as int) && valid_extent(height as int) && quota == 0 <==> r
                == Err::<Game, ConfigError>(ConfigError::ZeroQuota),
            valid_extent(width as int) && valid_extent(height as int) && quota > 0 <==> r is Ok,
            r is Ok ==> r->Ok_0@ == started(width as int, height as int, quota) && r->Ok_0@.wf(),
    {
        if width <= 0 || width > MAX_EXTENT || height <= 0 || height > MAX_EXTENT {
            return Err(ConfigError::InvalidExtent);
        }
        if quota == 0 {
            return Err(ConfigError::ZeroQuota);
        }
        let head = Seg { dx: 1, dy: 0, x: width / 2, y: height, radius: HEAD_RADIUS, color: Tint::Green };
        Ok(
            Game {
                snake: Snake { alive: true, direction: Direction::Right, head, body: Vec::new() },
                apples: Apples::new(),
                count: quota,
                quota,
                width,
                height,
                state: GameState::Playing,
            },
        )
    }

    /// Places an active food item at `(x, y)`.
    pub fn add_apple(&mut self, x: i32, y: i32)
        ensures
            final(self)@ == old(self)@.with_apple(x, y),
    {
        self.apples.spawn_at(x, y);
    }

    /// Draws a position for new food, inside the margins where the playfield
    /// leaves room for them.
    pub fn spawn_point(&self) -> (r: (i32, i32))
        requires
            self@.wf(),
        ensures
            self@.in_spawn_area(r.0, r.1),
    {
        let x = if self.width >= 2 * SPAWN_MARGIN {
            gen_range(SPAWN_MARGIN, self.width - SPAWN_MARGIN)
        } else {
            gen_range(0, self.width)
        };
        let y = if self.height >= 2 * SPAWN_MARGIN {
            gen_range(SPAWN_MARGIN, self.height - SPAWN_MARGIN)
        } else {
            gen_range(0, self.height)
        };
        (x, y)
    }

    /// Places an active food item at a random position on the playfield.
    pub fn random_apple(&mut self)
        requires
            old(self)@.wf(),
        ensures
            exists|x: i32, y: i32|
                #[trigger] old(self)@.in_spawn_area(x, y) && final(self)@ == old(self)@.with_apple(
                    x,
                    y,
                ),
    {
        let (x, y) = self.spawn_point();
        self.add_apple(x, y);
    }
    /// Applies a direction intent to the chain; no intent keeps the direction.
    pub fn player_movement(&mut self, intent: Option<Direction>)
        ensures
            final(self)@ == old(self)@.steered(intent),
    {
        match intent {
            Some(d) => self.snake.set_direction(d),
            None => {},
        }
    }

    /// Lets the chain eat: if its head touches a food item, the first such item
    /// is eaten, the chain grows, one fewer item remains to be eaten and a new
    /// item is placed at `(x, y)`. Returns whether the chain ate.
    pub fn apple_collision_at(&mut self, x: i32, y: i32) -> (ate: bool)
        requires
            old(self).count > 0,
        ensures
            ate == touches_any(old(self).snake.head, old(self).apples.apples@),
            final(self)@ == old(self)@.fed(x, y),
    {
        let ate = self.snake.check_collision(&mut self.apples.apples);
        if ate {
            self.count = self.count - 1;
            self.add_apple(x, y);
        }
        ate
    }

    /// Lets the chain eat, placing the replacement food, if one is needed, at
    /// a random position. Returns whether the chain ate.
    pub fn apple_collision(&mut self) -> (ate: bool)
        requires
            old(self)@.wf(),
            old(self).count > 0,
        ensures
            ate == touches_any(old(self).snake.head, old(self).apples.apples@),
            exists|x: i32, y: i32|
                #[trigger] old(self)@.in_spawn_area(x, y) && final(self)@ == old(self)@.fed(x, y),
    {
        let (x, y) = self.spawn_point();
        self.apple_collision_at(x, y)
    }

    /// Ends a session still being played as won once no food remains to be
    /// eaten; a finished session keeps its outcome.
    pub fn detect_endgame(&mut self)
        ensures
            final(self)@ == old(self)@.end_checked(),
    {
        if self.state == GameState::Playing && self.count == 0 {
            self.state = GameState::Won;
        }
    }

    /// Points scored so far: a fixed amount per food item eaten.
    pub fn score(&self) -> (r: u64)
        requires
            self.count <= self.quota,
        ensures
            r == self@.score(),
    {
        (self.quota - self.count) as u64 * POINTS_PER_APPLE
    }

    /// Where the session stands.
    pub fn state(&self) -> (r: GameState)
        ensures
            r == self.state,
    {
        self.state
    }

    /// The head's position, the body's positions nearest the head first, the
    /// active food's positions oldest first, the score and the state.
    pub fn renderable_state(&self) -> (r: RenderState)
        requires
            self.count <= self.quota,
        ensures
            r.head == (self.snake.head.x, self.snake.head.y),
            r.body@ == positions_of(self.snake.body@),
            r.food@ == active_positions_of(self.apples.apples@),
            r.score == self@.score(),
            r.state == self.state,
    {
        let mut body: Vec<(i32, i32)> = Vec::new();
        let mut i: usize = 0;
        while i < self.snake.body.len()
            invariant
                i <= self.snake.body@.len(),
                body@ == positions_of(self.snake.body@.take(i as int)),
            decreases self.snake.body@.len() - i,
        {
            let s = self.snake.body[i];
            body.push((s.x, s.y));
            i = i + 1;
            assert(body@ =~= positions_of(self.snake.body@.take(i as int)));
        }
        assert(self.snake.body@.take(i as int) =~= self.snake.body@);
        RenderState {
            head: (self.snake.head.x, self.snake.head.y),
            body,
            food: self.apples.active_positions(),
            score: self.score(),
            state: self.state,
        }
    }

    /// One tick of a session that is still being played: steer by `intent`,
    /// move, end the game if the chain bit itself, else eat (placing the
    /// replacement food at `(x, y)`) and end the game as won once the quota is
    /// eaten. A finished session does not change.
    pub fn tick_with(&mut self, intent: Option<Direction>, x: i32, y: i32)
        requires
            old(self)@.wf(),
        ensures
            final(self)@ == old(self)@.ticked(intent, x, y),
            final(self)@.wf(),
    {
        if self.state != GameState::Playing {
            return;
        }
        self.player_movement(intent);
        self.snake.slither(self.width, self.height);
        if !self.snake.head_collision() {
            self.state = GameState::GameOver;
            return;
        }
        self.apple_collision_at(x, y);
        self.detect_endgame();
    }

    /// One tick, with the replacement food, if one is needed, placed at a
    /// random position.
    pub fn tick(&mut self, intent: Option<Direction>)
        requires
            old(self)@.wf(),
        ensures
            exists|x: i32, y: i32|
                #[trigger] old(self)@.in_spawn_area(x, y) && final(self)@ == old(self)@.ticked(
                    intent,
                    x,
                    y,
                ),
            final(self)@.wf(),
    {
        let (x, y) = self.spawn_point();
        self.tick_with(intent, x, y);
    }
}

/// The score never decreases over a tick, and it rises by exactly the points
/// of one food item for each segment the chain grew by.
pub proof fn lemma_score_monotonic(g: GameView, intent: Option<Direction>, x: i32, y: i32)
    requires
        g.wf(),
    ensures
        g.ticked(intent, x, y).score() >= g.score(),
        g.ticked(intent, x, y).score() == g.score() + POINTS_PER_APPLE * (
        g.ticked(intent, x, y).snake.body.len() - g.snake.body.len()),
        g.ticked(intent, x, y).snake.body.len() <= g.snake.body.len() + 1,
{
    let n = g.ticked(intent, x, y);
    assert(g.score() == (g.quota - g.count) * 100);
    assert(n.score() == (n.quota - n.count) * 100);
}

/// A finished session stays as it is, whatever is ticked into it.
pub proof fn lemma_terminal_sticky(g: GameView, intent: Option<Direction>, x: i32, y: i32)
    requires
        g.state == GameState::GameOver || g.state == GameState::Won,
    ensures
        g.ticked(intent, x, y) == g,
{
}

/// A session fresh from `Game::new` with a quota of one and one food item
/// lying right under the head is won after one tick, with one item's points,
/// whatever the intent.
pub proof fn lemma_food_under_head_wins(
    width: int,
    height: int,
    intent: Option<Direction>,
    x: i32,
    y: i32,
)
    requires
        valid_extent(width),
        valid_extent(height),
    ensures
        ({
            let h = start_head(width, height);
            let g = started(width, height, 1).with_apple(h.x, h.y);
            let n = g.ticked(intent, x, y);
            &&& n.state == GameState::Won
            &&& n.count == 0
            &&& n.score() == 100
            &&& n.snake.body.len() == 1
        }),
{
    let h = start_head(width, height);
    let g = started(width, height, 1).with_apple(h.x, h.y);
    let s = g.steered(intent).snake.advanced(width, height).bite_checked();
    let a = g.apples[0];
    assert(a == Apple::fresh(h.x, h.y));
    // the head, whichever way it turns, ends one step of 26 from the food,
    // inside the food's reach of 28
    let t = g.steered(intent).snake;
    assert(t.head.x == h.x && t.head.y == h.y && t.head.radius == HEAD_RADIUS);
    assert((t.head.dx == 1 && t.head.dy == 0) || (t.head.dx == 0 && t.head.dy == -1) || (
    t.head.dx == 0 && t.head.dy == 1));
    let w = t.head_wrapped(width, height);
    assert(w.head.x == h.x && w.head.y == h.y);
    let m = w.body_moved().head_moved();
    assert(w.head.radius == 13 && w.head.dx == t.head.dx && w.head.dy == t.head.dy);
    assert(0 <= h.x <= 500_000 && 0 <= h.y <= 1_000_000);
    if w.head.dx == 1 {
        assert(m.head.x == h.x + 26 && m.head.y == h.y);
    } else if w.head.dy == -1 {
        assert(w.head.dx == 0);
        let (r, sx, sy) = (w.head.radius as int, w.head.dx as int, w.head.dy as int);
        assert(2 * r * sx == 0 && 2 * r * sy == -26) by (nonlinear_arith)
            requires
                r == 13,
                sx == 0,
                sy == -1,
        ;
        assert(m.head.x == h.x && m.head.y == h.y - 26);
    } else {
        assert(m.head.x == h.x && m.head.y == h.y + 26);
    }
    assert(s.head == m.head);
    let dx = s.head.x - a.x;
    let dy = s.head.y - a.y;
    assert((dx == 0 && (dy == 26 || dy == -26)) || (dy == 0 && dx == 26));
    assert(dx * dx + dy * dy == 676) by (nonlinear_arith)
        requires
            (dx == 0 && (dy == 26 || dy == -26)) || (dy == 0 && dx == 26),
    ;
    assert(2 * a.radius == 28);
    assert(touches(s.head, g.apples[0]));
    lemma_first_touch(s.head, g.apples, 0);
}

} // verus!
