//! The chain of segments: direction changes, movement, growth and collisions.
use vstd::prelude::*;
use crate::apple::Apple;
use crate::geometry::{is_within, within, wrap, wrap_spec, MAX_EXTENT};
use crate::seg::{Seg, Tint, SEG_RADIUS};

verus! {

/// The largest head radius that movement is defined for.
pub const MAX_RADIUS: i32 = 1000;

/// The largest magnitude a head coordinate may have before it moves.
pub const MAX_COORD: i32 = 1_000_000_000;

/// One of the four headings.
#[derive(Clone, Copy, Debug, PartialEq, Eq, Structural)]
pub enum Direction {
    Up,
    Down,
    Left,
    Right,
}

impl Direction {
    /// The heading that points the other way.
    pub open spec fn opposite(self) -> Direction {
        match self {
            Direction::Up => Direction::Down,
            Direction::Down => Direction::Up,
            Direction::Left => Direction::Right,
            Direction::Right => Direction::Left,
        }
    }

    /// Horizontal component of the unit step.
    pub open spec fn step_x(self) -> i8 {
        match self {
            Direction::Left => -1i8,
            Direction::Right => 1i8,
            _ => 0i8,
        }
    }

    /// Vertical component of the unit step; screen rows grow downwards.
    pub open spec fn step_y(self) -> i8 {
        match self {
            Direction::Up => -1i8,
            Direction::Down => 1i8,
            _ => 0i8,
        }
    }
}

/// The chain: a head that carries the direction, and the body behind it
/// (index 0 is nearest to the head).
#[derive(Debug)]
pub struct Snake {
    pub alive: bool,
    pub direction: Direction,
    pub head: Seg,
    pub body: Vec<Seg>,
}

/// The chain as a value.
pub struct SnakeView {
    pub alive: bool,
    pub direction: Direction,
    pub head: Seg,
    pub body: Seq<Seg>,
}

impl View for Snake {
    type V = SnakeView;

    open spec fn view(&self) -> SnakeView {
        SnakeView {
            alive: self.alive,
            direction: self.direction,
            head: self.head,
            body: self.body@,
        }
    }
}

/// Body segments alternate in colour by the body's length when they are added.
pub open spec fn tint_for(len: int) -> Tint {
    if len % 2 == 0 {
        Tint::Yellow
    } else {
        Tint::Green
    }
}

/// Whether the head touches the food item `a`: the item is active and its
/// centre is closer to the head than twice its radius.
pub open spec fn touches(head: Seg, a: Apple) -> bool {
    a.active && within(head.x as int, head.y as int, a.x as int, a.y as int, 2 * a.radius)
}

/// Whether the head touches any food item of `s`.
pub open spec fn touches_any(head: Seg, s: Seq<Apple>) -> bool {
    exists|i: int| 0 <= i < s.len() && touches(head, #[trigger] s[i])
}

/// Whether `k` is the first index of `s` whose item the head touches.
pub open spec fn is_first_touch(head: Seg, s: Seq<Apple>, k: int) -> bool {
    &&& 0 <= k < s.len()
    &&& touches(head, s[k])
    &&& forall|j: int| 0 <= j < k ==> !touches(head, #[trigger] s[j])
}

/// The first item of `s` in order that the head touches (meaningful only where
/// one is touched).
pub open spec fn first_touch(head: Seg, s: Seq<Apple>) -> int {
    choose|k: int| is_first_touch(head, s, k)
}

impl SnakeView {
    /// The chain after a request to head towards `d`: the exact opposite of the
    /// current direction is refused and changes nothing.
    pub open spec fn turned(self, d: Direction) -> SnakeView {
        if d == self.direction.opposite() {
            self
        } else {
            SnakeView {
                direction: d,
                head: Seg { dx: d.step_x(), dy: d.step_y(), ..self.head },
                ..self
            }
        }
    }

    /// The segment that growth appends at `(x, y)`.
    pub open spec fn tail_at(self, x: i32, y: i32) -> Seg {
        Seg { color: tint_for(self.body.len() as int), ..Seg::at(x, y) }
    }

    /// The chain after growing by one segment at `(x, y)`.
    pub open spec fn grown(self, x: i32, y: i32) -> SnakeView {
        SnakeView { body: self.body.push(self.tail_at(x, y)), ..self }
    }

    /// The chain after each body segment has taken the position of the one
    /// ahead of it, the first taking the head's.
    pub open spec fn body_moved(self) -> SnakeView {
        SnakeView {
            body: Seq::new(
                self.body.len(),
                |i: int|
                    {
                        let ahead = if i == 0 {
                            self.head
                        } else {
                            self.body[i - 1]
                        };
                        Seg { x: ahead.x, y: ahead.y, ..self.body[i] }
                    },
            ),
            ..self
        }
    }

    /// The chain after the head has moved one cell (twice its radius) along
    /// its step vector.
    pub open spec fn head_moved(self) -> SnakeView {
        SnakeView {
            head: Seg {
                x: (self.head.x + 2 * self.head.radius * self.head.dx) as i32,
                y: (self.head.y + 2 * self.head.radius * self.head.dy) as i32,
                ..self.head
            },
            ..self
        }
    }

    /// The chain with its head wrapped onto a `width` by `height` playfield.
    pub open spec fn head_wrapped(self, width: int, height: int) -> SnakeView {
        SnakeView {
            head: Seg {
                x: wrap_spec(self.head.x as int, width) as i32,
                y: wrap_spec(self.head.y as int, height) as i32,
                ..self.head
            },
            ..self
        }
    }

    /// One tick of motion: wrap the head, pull the body along, move the head.
    pub open spec fn advanced(self, width: int, height: int) -> SnakeView {
        self.head_wrapped(width, height).body_moved().head_moved()
    }

    /// Whether the head can take one step without leaving machine integers.
    pub open spec fn can_step(self) -> bool {
        &&& 0 <= self.head.radius <= MAX_RADIUS
        &&& -1 <= self.head.dx <= 1
        &&& -1 <= self.head.dy <= 1
        &&& -MAX_COORD <= self.head.x <= MAX_COORD
        &&& -MAX_COORD <= self.head.y <= MAX_COORD
    }

    /// Whether the head lies closer to some body segment than twice that
    /// segment's radius.
    pub open spec fn bites(self) -> bool {
        exists|i: int|
            0 <= i < self.body.len() && within(
                self.head.x as int,
                self.head.y as int,
                #[trigger] self.body[i].x as int,
                self.body[i].y as int,
                2 * self.body[i].radius,
            )
    }

    /// The chain after the self-collision check: it dies if it bites itself,
    /// and a dead chain stays dead.
    pub open spec fn bite_checked(self) -> SnakeView {
        SnakeView { alive: self.alive && !self.bites(), ..self }
    }

    /// The chain after eating from `s`: it grows at the first item touched, if any.
    pub open spec fn fed(self, s: Seq<Apple>) -> SnakeView {
        if touches_any(self.head, s) {
            let a = s[first_touch(self.head, s)];
            self.grown(a.x, a.y)
        } else {
            self
        }
    }
}

impl Snake {
    /// Heads towards `d`, unless `d` is the exact opposite of the current
    /// direction; nothing moves yet.
    pub fn set_direction(&mut self, d: Direction)
        ensures
            final(self)@ == old(self)@.turned(d),
    {
        let refused = match (self.direction, d) {
            (Direction::Up, Direction::Down) => true,
            (Direction::Down, Direction::Up) => true,
            (Direction::Left, Direction::Right) => true,
            (Direction::Right, Direction::Left) => true,
            _ => false,
        };
        if refused {
            return;
        }
        let (dx, dy): (i8, i8) = match d {
            Direction::Up => (0, -1),
            Direction::Down => (0, 1),
            Direction::Left => (-1, 0),
            Direction::Right => (1, 0),
        };
        self.direction = d;
        self.head.dx = dx;
        self.head.dy = dy;
    }

    /// Heads up, unless heading down.
    pub fn up(&mut self)
        ensures
            final(self)@ == old(self)@.turned(Direction::Up),
    {
        self.set_direction(Direction::Up);
    }

    /// Heads down, unless heading up.
    pub fn down(&mut self)
        ensures
            final(self)@ == old(self)@.turned(Direction::Down),
    {
        self.set_direction(Direction::Down);
    }

    /// Heads left, unless heading right.
    pub fn left(&mut self)
        ensures
            final(self)@ == old(self)@.turned(Direction::Left),
    {
        self.set_direction(Direction::Left);
    }

    /// Heads right, unless heading left.
    pub fn right(&mut self)
        ensures
            final(self)@ == old(self)@.turned(Direction::Right),
    {
        self.set_direction(Direction::Right);
    }

    /// Appends a segment at `(x, y)` behind the tail; its colour alternates
    /// with the body's length.
    pub fn add_segment(&mut self, x: i32, y: i32)
        ensures
            final(self)@ == old(self)@.grown(x, y),
            final(self).body@.len() == old(self).body@.len() + 1,
            final(self).body@.last().x == x,
            final(self).body@.last().y == y,
    {
        let color = if self.body.len() % 2 == 0 {
            Tint::Yellow
        } else {
            Tint::Green
        };
        self.body.push(Seg { dx: 1, dy: 0, x, y, radius: SEG_RADIUS, color });
    }

    /// Eats the first active item in order that the head touches, if any: that
    /// item becomes inactive and the chain grows at its position. At most one
    /// item is eaten per call. Returns whether one was.
    pub fn check_collision(&mut self, apples: &mut Vec<Apple>) -> (found: bool)
        ensures
            found == touches_any(old(self).head, old(apples)@),
            final(apples)@ == eaten_from(old(self).head, old(apples)@),
            final(self)@ == old(self)@.fed(old(apples)@),
    {
        let mut i: usize = 0;
        while i < apples.len()
            invariant
                i <= apples@.len(),
                apples@ == old(apples)@,
                self@ == old(self)@,
                forall|j: int| 0 <= j < i ==> !touches(self.head, #[trigger] apples@[j]),
            decreases apples@.len() - i,
        {
            let a = apples[i];
            if a.active && is_within(self.head.x, self.head.y, a.x, a.y, 2 * a.radius as i64) {
                proof {
                    lemma_first_touch(self.head, apples@, i as int);
                }
                apples[i] = Apple { active: false, ..a };
                self.add_segment(a.x, a.y);
                return true;
            }
            i = i + 1;
        }
        false
    }

    /// Displaces the head by one cell (twice its radius) along its step vector.
    pub fn move_head(&mut self)
        requires
            old(self)@.can_step(),
        ensures
            final(self)@ == old(self)@.head_moved(),
    {
        let step: i32 = 2 * self.head.radius;
        let sx: i32 = if self.head.dx > 0 {
            step
        } else if self.head.dx < 0 {
            -step
        } else {
            0
        };
        let sy: i32 = if self.head.dy > 0 {
            step
        } else if self.head.dy < 0 {
            -step
        } else {
            0
        };
        let r = self.head.radius;
        let (dx, dy) = (self.head.dx, self.head.dy);
        assert(sx == 2 * r * dx) by (nonlinear_arith)
            requires
                -1 <= dx <= 1,
                step == 2 * r,
                dx > 0 ==> sx == step,
                dx < 0 ==> sx == -step,
                dx == 0 ==> sx == 0,
        ;
        assert(sy == 2 * r * dy) by (nonlinear_arith)
            requires
                -1 <= dy <= 1,
                step == 2 * r,
                dy > 0 ==> sy == step,
                dy < 0 ==> sy == -step,
                dy == 0 ==> sy == 0,
        ;
        self.head.x = self.head.x + sx;
        self.head.y = self.head.y + sy;
    }

    /// Pulls the body along: each segment takes the position the segment ahead
    /// of it held, the first one the head's. Runs from the tail so that each
    /// segment reads its predecessor before that one moves.
    pub fn move_body(&mut self)
        ensures
            final(self)@ == old(self)@.body_moved(),
    {
        let ghost old_view = self@;
        let mut i: usize = self.body.len();
        while i > 0
            invariant
                0 <= i <= self.body@.len(),
                self.body@.len() == old_view.body.len(),
                self.alive == old_view.alive,
                self.direction == old_view.direction,
                self.head == old_view.head,
                forall|j: int| 0 <= j < i ==> #[trigger] self.body@[j] == old_view.body[j],
                forall|j: int|
                    i <= j < self.body@.len() ==> #[trigger] self.body@[j]
                        == old_view.body_moved().body[j],
            decreases i,
        {
            i = i - 1;
            let (ax, ay) = if i == 0 {
                (self.head.x, self.head.y)
            } else {
                (self.body[i - 1].x, self.body[i - 1].y)
            };
            let s = self.body[i];
            self.body[i] = Seg { x: ax, y: ay, ..s };
        }
        assert(self.body@ == old_view.body_moved().body);
    }

    /// One tick of motion on a `width` by `height` playfield: wrap the head
    /// onto the playfield, pull the body along behind the wrapped head, then
    /// move the head one cell.
    pub fn slither(&mut self, width: i32, height: i32)
        requires
            0 < width <= MAX_EXTENT,
            0 < height <= MAX_EXTENT,
            0 <= old(self).head.radius <= MAX_RADIUS,
            -1 <= old(self).head.dx <= 1,
            -1 <= old(self).head.dy <= 1,
        ensures
            final(self)@ == old(self)@.advanced(width as int, height as int),
            old(self).body@.len() >= 1 ==> 0 <= final(self).body@[0].x <= width && 0
                <= final(self).body@[0].y <= height,
            old(self).body@.len() >= 1 && 0 <= old(self).head.x <= width && 0 <= old(self).head.y
                <= height ==> final(self).body@[0].x == old(self).head.x && final(self).body@[0].y
                == old(self).head.y,
    {
        self.head.x = wrap(self.head.x, width);
        self.head.y = wrap(self.head.y, height);
        self.move_body();
        self.move_head();
    }

    /// The self-collision check: the chain dies if its head lies closer to a
    /// body segment than twice that segment's radius. Returns whether it is
    /// still alive.
    pub fn head_collision(&mut self) -> (alive: bool)
        ensures
            final(self)@ == old(self)@.bite_checked(),
            alive == final(self).alive,
    {
        let mut i: usize = 0;
        while i < self.body.len()
            invariant
                i <= self.body@.len(),
                self@ == old(self)@,
                forall|j: int|
                    0 <= j < i ==> !within(
                        self.head.x as int,
                        self.head.y as int,
                        #[trigger] self.body@[j].x as int,
                        self.body@[j].y as int,
                        2 * self.body@[j].radius,
                    ),
            decreases self.body@.len() - i,
        {
            let s = self.body[i];
            if is_within(self.head.x, self.head.y, s.x, s.y, 2 * s.radius as i64) {
                assert(old(self)@.bites()) by {
                    assert(self.body@[i as int] == s);
                }
                self.alive = false;
                return false;
            }
            i = i + 1;
        }
        self.alive
    }
}

/// The food items after the chain with head `head` has eaten from them: only
/// the first item touched, if any, becomes inactive.
pub open spec fn eaten_from(head: Seg, s: Seq<Apple>) -> Seq<Apple> {
    if touches_any(head, s) {
        let k = first_touch(head, s);
        s.update(k, s[k].eaten())
    } else {
        s
    }
}

/// There is one first touched item, and any item that the head touches with
/// none touched before it is that item.
pub proof fn lemma_first_touch(head: Seg, s: Seq<Apple>, k: int)
    requires
        is_first_touch(head, s, k),
    ensures
        touches_any(head, s),
        first_touch(head, s) == k,
{
    assert(touches(head, s[k]));
    let c = first_touch(head, s);
    assert(is_first_touch(head, s, c));
    if c < k {
        assert(!touches(head, s[c]));
    } else if c > k {
        assert(!touches(head, s[k]));
    }
}

/// Where the head touches some item, the first touched item exists.
pub proof fn lemma_first_touch_exists(head: Seg, s: Seq<Apple>)
    requires
        touches_any(head, s),
    ensures
        is_first_touch(head, s, first_touch(head, s)),
{
    let i = choose|i: int| 0 <= i < s.len() && touches(head, #[trigger] s[i]);
    least_touch(head, s, i);
}

/// Some touched index has no touched index before it.
proof fn least_touch(head: Seg, s: Seq<Apple>, i: int)
    requires
        0 <= i < s.len(),
        touches(head, s[i]),
    ensures
        exists|k: int| is_first_touch(head, s, k),
    decreases i,
{
    if forall|j: int| 0 <= j < i ==> !touches(head, #[trigger] s[j]) {
        assert(is_first_touch(head, s, i));
    } else {
        let j = choose|j: int| 0 <= j < i && touches(head, #[trigger] s[j]);
        least_touch(head, s, j);
    }
}

/// A request for the exact opposite of the current direction changes
/// nothing: neither the direction nor the head's step vector.
pub proof fn lemma_reversal_refused(v: SnakeView, d: Direction)
    requires
        d == v.direction.opposite(),
    ensures
        v.turned(d) == v,
        v.turned(d).head.dx == v.head.dx,
        v.turned(d).head.dy == v.head.dy,
{
}

/// Growth adds exactly one segment, at the tail, at the given position, and
/// leaves the segments already there as they were.
pub proof fn lemma_growth(v: SnakeView, x: i32, y: i32)
    ensures
        v.grown(x, y).body.len() == v.body.len() + 1,
        v.grown(x, y).body.last().x == x,
        v.grown(x, y).body.last().y == y,
        forall|i: int| 0 <= i < v.body.len() ==> #[trigger] v.grown(x, y).body[i] == v.body[i],
{
}

/// Where two active food items are both within reach of the head, eating
/// deactivates exactly one item (the first touched in order), so at least one
/// of the two stays active; the chain grows by exactly one segment, placed
/// where the eaten item lay.
pub proof fn lemma_one_eaten_per_tick(v: SnakeView, s: Seq<Apple>, i: int, j: int)
    requires
        0 <= i < s.len(),
        0 <= j < s.len(),
        i != j,
        touches(v.head, s[i]),
        touches(v.head, s[j]),
    ensures
        eaten_from(v.head, s)[i].active || eaten_from(v.head, s)[j].active,
        ({
            let k = first_touch(v.head, s);
            &&& 0 <= k < s.len()
            &&& s[k].active
            &&& !eaten_from(v.head, s)[k].active
            &&& eaten_from(v.head, s).len() == s.len()
            &&& forall|m: int| 0 <= m < s.len() && m != k ==> #[trigger] eaten_from(v.head, s)[m] == s[m]
            &&& v.fed(s).body.len() == v.body.len() + 1
            &&& v.fed(s).body.last().x == s[k].x
            &&& v.fed(s).body.last().y == s[k].y
        }),
{
    assert(touches_any(v.head, s));
    lemma_first_touch_exists(v.head, s);
}

} // verus!
