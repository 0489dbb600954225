//! The bouncing ball and its collision response.

use vstd::prelude::*;
use vstd::math::abs;
use rand::Rng;
use crate::color::Color;
use crate::MAX_COORDINATE;
use crate::MAX_DIMENSION;
use crate::SCALE;

verus! {

/// Width of the ball, in subunits (10 world units).
pub const BALL_WIDTH: i64 = 10 * SCALE;

/// Height of the ball, in subunits (10 world units).
pub const BALL_HEIGHT: i64 = 10 * SCALE;

/// Largest per-axis speed magnitude, in subunits per tick (5 world units).
pub const MAX_ACCELERATION: i64 = 5 * SCALE;

/// Numerator of the per-bounce speed growth ratio (the ratio is 115/100,
/// that is, a bounce speeds the ball up by 15 percent).
pub const ACCELERATION_GROWTH_NUM: i64 = 115;

/// Denominator of the per-bounce speed growth ratio.
pub const ACCELERATION_GROWTH_DEN: i64 = 100;

/// Magnitude bound of the launch angle, in scaled degrees (60 degrees).
pub const ANGLE_LIMIT: i64 = 60 * SCALE;

/// A nonnegative speed magnitude scaled by the growth ratio, rounded down.
pub open spec fn scaled_magnitude(m: int) -> int {
    m * (ACCELERATION_GROWTH_NUM as int) / (ACCELERATION_GROWTH_DEN as int)
}

/// One axis speed scaled by the growth ratio, rounded toward zero.
pub open spec fn grown_speed(v: int) -> int {
    if v >= 0 {
        scaled_magnitude(v)
    } else {
        -scaled_magnitude(-v)
    }
}

/// One axis speed after a bounce tries to speed it up: the growth is applied
/// only when the grown magnitude still fits the clamp, else the speed is
/// left as it was.
pub open spec fn increased_speed(v: int) -> int {
    if -MAX_ACCELERATION <= grown_speed(v) && grown_speed(v) <= MAX_ACCELERATION {
        grown_speed(v)
    } else {
        v
    }
}

/// One axis speed after a collision on that axis: the sign reverses, then
/// the clamped growth applies.
pub open spec fn reflected_speed(v: int) -> int {
    increased_speed(-v)
}

/// The ball's leading right edge has just crossed the object's left edge
/// `ox1` from outside while the vertical ranges overlap.
pub open spec fn touch_right(
    ball_x1: int, ball_x2: int, ball_y1: int, ball_y2: int,
    ox1: int, oy1: int, oy2: int,
) -> bool {
    ball_x2 >= ox1 && ball_x1 < ox1 && ball_y1 <= oy2 && ball_y2 >= oy1
}

/// The ball's leading left edge has just crossed the object's right edge
/// `ox2` from outside while the vertical ranges overlap.
pub open spec fn touch_left(
    ball_x1: int, ball_x2: int, ball_y1: int, ball_y2: int,
    ox2: int, oy1: int, oy2: int,
) -> bool {
    ball_x1 <= ox2 && ball_x2 > ox2 && ball_y1 <= oy2 && ball_y2 >= oy1
}

/// The ball overlaps the object's vertical extent coming from above while
/// the horizontal ranges overlap.
pub open spec fn touch_up(
    ball_x1: int, ball_x2: int, ball_y1: int, ball_y2: int,
    ox1: int, ox2: int, oy1: int, oy2: int,
) -> bool {
    ball_y1 <= oy2 && ball_y2 > oy1 && ball_x1 <= ox2 && ball_x2 >= ox1
}

/// The ball overlaps the object's vertical extent coming from below while
/// the horizontal ranges overlap.
pub open spec fn touch_down(
    ball_x1: int, ball_x2: int, ball_y1: int, ball_y2: int,
    ox1: int, ox2: int, oy1: int, oy2: int,
) -> bool {
    ball_y2 >= oy1 && ball_y1 < oy2 && ball_x1 <= ox2 && ball_x2 >= ox1
}

/// Mathematical image of a [`Ball`]: the same fields over unbounded
/// integers.
pub ghost struct BallView {
    pub position_y: int,
    pub position_x: int,
    pub width: int,
    pub height: int,
    pub acceleration_x: int,
    pub acceleration_y: int,
    pub color: Color,
    pub angle: int,
}

/// The ball: an axis-aligned rectangle with a signed per-tick speed on each
/// axis.
///
/// `(position_x, position_y)` is the top-left corner. `acceleration_x` and
/// `acceleration_y` are the distances the ball travels per tick along each
/// axis, in subunits. `angle` is the launch angle drawn at round start, in
/// scaled degrees; it is stored for the render/launch layer and takes no
/// part in the per-tick motion. Collision response changes the speeds only;
/// the position advances once per tick in the game update.
pub struct Ball {
    pub position_y: i64,
    pub position_x: i64,
    pub width: i64,
    pub height: i64,
    pub acceleration_x: i64,
    pub acceleration_y: i64,
    pub color: Color,
    pub angle: i64,
}

impl View for Ball {
    type V = BallView;

    open spec fn view(&self) -> BallView {
        BallView {
            position_y: self.position_y as int,
            position_x: self.position_x as int,
            width: self.width as int,
            height: self.height as int,
            acceleration_x: self.acceleration_x as int,
            acceleration_y: self.acceleration_y as int,
            color: self.color,
            angle: self.angle as int,
        }
    }
}

impl BallView {
    /// The x-coordinate of the ball's right edge.
    pub open spec fn x2(self) -> int {
        self.position_x + self.width
    }

    /// The y-coordinate of the ball's bottom edge.
    pub open spec fn y2(self) -> int {
        self.position_y + self.height
    }

    /// The ball's extent is positive and bounded and its speeds respect the
    /// per-axis clamp.
    pub open spec fn wf(self) -> bool {
        &&& 0 < self.width <= MAX_DIMENSION
        &&& 0 < self.height <= MAX_DIMENSION
        &&& -MAX_ACCELERATION <= self.acceleration_x <= MAX_ACCELERATION
        &&& -MAX_ACCELERATION <= self.acceleration_y <= MAX_ACCELERATION
    }

    /// The ball's coordinates leave room for one more tick of motion.
    pub open spec fn in_bounds(self) -> bool {
        &&& -MAX_COORDINATE <= self.position_x <= MAX_COORDINATE
        &&& -MAX_COORDINATE <= self.position_y <= MAX_COORDINATE
    }

    /// The ball touches the rectangle with edges `ox1..ox2`, `oy1..oy2` on a
    /// horizontal approach (from the left or from the right).
    pub open spec fn touches_horizontal(self, ox1: int, ox2: int, oy1: int, oy2: int) -> bool {
        ||| touch_right(self.position_x, self.x2(), self.position_y, self.y2(), ox1, oy1, oy2)
        ||| touch_left(self.position_x, self.x2(), self.position_y, self.y2(), ox2, oy1, oy2)
    }

    /// The ball touches the rectangle with edges `ox1..ox2`, `oy1..oy2` on a
    /// vertical approach (from above or from below).
    pub open spec fn touches_vertical(self, ox1: int, ox2: int, oy1: int, oy2: int) -> bool {
        ||| touch_up(self.position_x, self.x2(), self.position_y, self.y2(), ox1, ox2, oy1, oy2)
        ||| touch_down(self.position_x, self.x2(), self.position_y, self.y2(), ox1, ox2, oy1, oy2)
    }

    /// The ball touches the rectangle on some side.
    pub open spec fn touches(self, ox1: int, ox2: int, oy1: int, oy2: int) -> bool {
        ||| self.touches_horizontal(ox1, ox2, oy1, oy2)
        ||| self.touches_vertical(ox1, ox2, oy1, oy2)
    }

    /// The ball after one collision check against the rectangle: a
    /// horizontal touch reflects the x-speed, else a vertical touch reflects
    /// the y-speed, else nothing changes. Horizontal touches take priority,
    /// so one check resolves at most one axis.
    pub open spec fn bounced(self, ox1: int, ox2: int, oy1: int, oy2: int) -> BallView {
        if self.touches_horizontal(ox1, ox2, oy1, oy2) {
            BallView { acceleration_x: reflected_speed(self.acceleration_x), ..self }
        } else if self.touches_vertical(ox1, ox2, oy1, oy2) {
            BallView { acceleration_y: reflected_speed(self.acceleration_y), ..self }
        } else {
            self
        }
    }

    /// The ball placed so that its geometric center sits at the arena
    /// origin.
    pub open spec fn centered(self) -> BallView {
        BallView { position_x: -(self.width / 2), position_y: -(self.height / 2), ..self }
    }

    /// The ball after one tick of motion: each coordinate advances by the
    /// speed on its axis.
    pub open spec fn moved(self) -> BallView {
        BallView {
            position_x: self.position_x + self.acceleration_x,
            position_y: self.position_y + self.acceleration_y,
            ..self
        }
    }

    /// The ball that [`Ball::new`] builds: the standard size and color,
    /// centered at the arena origin, one world unit of speed per tick along
    /// each axis, carrying the given launch angle.
    pub open spec fn standard(angle: int) -> BallView {
        BallView {
            position_y: -(BALL_HEIGHT / 2),
            position_x: -(BALL_WIDTH / 2),
            width: BALL_WIDTH as int,
            height: BALL_HEIGHT as int,
            acceleration_x: SCALE as int,
            acceleration_y: SCALE as int,
            color: Color { red: 255, green: 255, blue: 255, alpha: 255 },
            angle,
        }
    }
}

/// Relies on `rand::thread_rng` and `rand::Rng::gen_range`: the drawn value
/// lies in `low..high`. Nothing more is assumed of it; every caller must
/// cope with any value in that range.
#[verifier::external_body]
fn random_in_range(low: i64, high: i64) -> (r: i64)
    requires
        low < high,
    ensures
        low <= r < high,
{
    rand::thread_rng().gen_range(low..high)
}

impl Ball {
    /// Builds the ball of the standard size and color, centered at the
    /// arena origin, moving one world unit per tick along each axis, with a
    /// freshly drawn launch angle.
    pub fn new() -> (b: Ball)
        ensures
            b@ == BallView::standard(b@.angle),
            -ANGLE_LIMIT <= b@.angle < ANGLE_LIMIT,
    {
        let position_x: i64 = 0 - BALL_WIDTH / 2;
        let position_y: i64 = 0 - BALL_HEIGHT / 2;
        let width: i64 = BALL_WIDTH;
        let height: i64 = BALL_HEIGHT;
        let acceleration_x: i64 = SCALE;
        let acceleration_y: i64 = SCALE;
        let color: Color = Color::white();
        let angle: i64 = Ball::randomize_angle();

        Ball { position_x, position_y, width, height, acceleration_x, acceleration_y, color, angle }
    }

    /// Puts the ball's geometric center back at the arena origin, whatever
    /// its prior position; nothing else changes. For the even standard
    /// extent the center lands on the origin exactly: twice the new top-left
    /// corner plus the extent is zero on each axis.
    pub fn reset_position(&mut self)
        requires
            old(self)@.wf(),
        ensures
            final(self)@ == old(self)@.centered(),
            old(self)@.width % 2 == 0 ==> 2 * final(self)@.position_x + final(self)@.width == 0,
            old(self)@.height % 2 == 0 ==> 2 * final(self)@.position_y + final(self)@.height == 0,
    {
        self.position_x = 0 - self.width / 2;
        self.position_y = 0 - self.height / 2;
    }

    /// Reverses the travel direction along the x-axis.
    pub fn reverse_x(&mut self)
        requires
            -MAX_COORDINATE <= old(self)@.acceleration_x <= MAX_COORDINATE,
        ensures
            final(self)@ == (BallView { acceleration_x: -old(self)@.acceleration_x, ..old(self)@ }),
    {
        self.acceleration_x = -self.acceleration_x;
    }

    /// Reverses the travel direction along the y-axis.
    pub fn reverse_y(&mut self)
        requires
            -MAX_COORDINATE <= old(self)@.acceleration_y <= MAX_COORDINATE,
        ensures
            final(self)@ == (BallView { acceleration_y: -old(self)@.acceleration_y, ..old(self)@ }),
    {
        self.acceleration_y = -self.acceleration_y;
    }

    /// Scales the x-speed by the growth ratio when the grown magnitude still
    /// fits the clamp; otherwise leaves it unchanged.
    pub fn increase_acceleration_x(&mut self)
        requires
            -MAX_COORDINATE <= old(self)@.acceleration_x <= MAX_COORDINATE,
        ensures
            final(self)@ == (BallView {
                acceleration_x: increased_speed(old(self)@.acceleration_x),
                ..old(self)@
            }),
    {
        let v: i64 = self.acceleration_x;
        if v >= 0 {
            let grown: i64 = v * ACCELERATION_GROWTH_NUM / ACCELERATION_GROWTH_DEN;
            if grown <= MAX_ACCELERATION {
                self.acceleration_x = grown;
            }
        } else {
            let grown_magnitude: i64 = (0 - v) * ACCELERATION_GROWTH_NUM / ACCELERATION_GROWTH_DEN;
            if grown_magnitude <= MAX_ACCELERATION {
                self.acceleration_x = 0 - grown_magnitude;
            }
        }
    }

    /// Scales the y-speed by the growth ratio when the grown magnitude still
    /// fits the clamp; otherwise leaves it unchanged.
    pub fn increase_acceleration_y(&mut self)
        requires
            -MAX_COORDINATE <= old(self)@.acceleration_y <= MAX_COORDINATE,
        ensures
            final(self)@ == (BallView {
                acceleration_y: increased_speed(old(self)@.acceleration_y),
                ..old(self)@
            }),
    {
        let v: i64 = self.acceleration_y;
        if v >= 0 {
            let grown: i64 = v * ACCELERATION_GROWTH_NUM / ACCELERATION_GROWTH_DEN;
            if grown <= MAX_ACCELERATION {
                self.acceleration_y = grown;
            }
        } else {
            let grown_magnitude: i64 = (0 - v) * ACCELERATION_GROWTH_NUM / ACCELERATION_GROWTH_DEN;
            if grown_magnitude <= MAX_ACCELERATION {
                self.acceleration_y = 0 - grown_magnitude;
            }
        }
    }

    /// Tests whether edges `ball_x1..ball_y2` have just crossed into a
    /// rectangle whose left edge is `obj_x1` while the vertical ranges
    /// overlap: an approach from the left.
    pub fn check_touch_right(
        &self,
        ball_x1: i64, ball_x2: i64, ball_y1: i64, ball_y2: i64,
        obj_x1: i64, obj_y1: i64, obj_y2: i64,
    ) -> (r: bool)
        ensures
            r == touch_right(
                ball_x1 as int, ball_x2 as int, ball_y1 as int, ball_y2 as int,
                obj_x1 as int, obj_y1 as int, obj_y2 as int,
            ),
    {
        if ball_x2 >= obj_x1 && ball_x1 < obj_x1 && ball_y1 <= obj_y2 && ball_y2 >= obj_y1 {
            return true;
        }

        false
    }

    /// Tests whether edges `ball_x1..ball_y2` have just crossed into a
    /// rectangle whose right edge is `obj_x2` while the vertical ranges
    /// overlap: an approach from the right.
    pub fn check_touch_left(
        &self,
        ball_x1: i64, ball_x2: i64, ball_y1: i64, ball_y2: i64,
        obj_x2: i64, obj_y1: i64, obj_y2: i64,
    ) -> (r: bool)
        ensures
            r == touch_left(
                ball_x1 as int, ball_x2 as int, ball_y1 as int, ball_y2 as int,
                obj_x2 as int, obj_y1 as int, obj_y2 as int,
            ),
    {
        if ball_x1 <= obj_x2 && ball_x2 > obj_x2 && ball_y1 <= obj_y2 && ball_y2 >= obj_y1 {
            return true;
        }

        false
    }

    /// Tests whether edges `ball_x1..ball_y2` overlap a rectangle with edges
    /// `obj_x1..obj_y2` on an approach from above.
    pub fn check_touch_up(
        &self,
        ball_x1: i64, ball_x2: i64, ball_y1: i64, ball_y2: i64,
        obj_x1: i64, obj_x2: i64, obj_y1: i64, obj_y2: i64,
    ) -> (r: bool)
        ensures
            r == touch_up(
                ball_x1 as int, ball_x2 as int, ball_y1 as int, ball_y2 as int,
                obj_x1 as int, obj_x2 as int, obj_y1 as int, obj_y2 as int,
            ),
    {
        if ball_y1 <= obj_y2 && ball_y2 > obj_y1 && ball_x1 <= obj_x2 && ball_x2 >= obj_x1 {
            return true;
        }

        false
    }

    /// Tests whether edges `ball_x1..ball_y2` overlap a rectangle with edges
    /// `obj_x1..obj_y2` on an approach from below.
    pub fn check_touch_down(
        &self,
        ball_x1: i64, ball_x2: i64, ball_y1: i64, ball_y2: i64,
        obj_x1: i64, obj_x2: i64, obj_y1: i64, obj_y2: i64,
    ) -> (r: bool)
        ensures
            r == touch_down(
                ball_x1 as int, ball_x2 as int, ball_y1 as int, ball_y2 as int,
                obj_x1 as int, obj_x2 as int, obj_y1 as int, obj_y2 as int,
            ),
    {
        if ball_y2 >= obj_y1 && ball_y1 < obj_y2 && ball_x1 <= obj_x2 && ball_x2 >= obj_x1 {
            return true;
        }

        false
    }

    /// Runs one collision check against the rectangle with edges
    /// `obj_x1..obj_x2` and `obj_y1..obj_y2` and resolves at most one side:
    /// on a horizontal touch the x-speed reverses and then grows under the
    /// clamp; else on a vertical touch the y-speed does; the position never
    /// changes here. Returns whether any side touched.
    pub fn check_collision(&mut self, obj_x1: i64, obj_x2: i64, obj_y1: i64, obj_y2: i64) -> (r: bool)
        requires
            old(self)@.wf(),
            old(self)@.in_bounds(),
        ensures
            final(self)@ == old(self)@.bounced(obj_x1 as int, obj_x2 as int, obj_y1 as int, obj_y2 as int),
            r == old(self)@.touches(obj_x1 as int, obj_x2 as int, obj_y1 as int, obj_y2 as int),
            final(self)@.wf(),
            final(self)@.in_bounds(),
    {
        let ball_x1: i64 = self.position_x;
        let ball_x2: i64 = self.position_x + self.width;
        let ball_y1: i64 = self.position_y;
        let ball_y2: i64 = self.position_y + self.height;

        let touch_right: bool = self.check_touch_right(ball_x1, ball_x2, ball_y1, ball_y2, obj_x1, obj_y1, obj_y2);

        let touch_left: bool = self.check_touch_left(ball_x1, ball_x2, ball_y1, ball_y2, obj_x2, obj_y1, obj_y2);

        let touch_up: bool = self.check_touch_up(ball_x1, ball_x2, ball_y1, ball_y2, obj_x1, obj_x2, obj_y1, obj_y2);

        let touch_down: bool = self.check_touch_down(ball_x1, ball_x2, ball_y1, ball_y2, obj_x1, obj_x2, obj_y1, obj_y2);

        if touch_right || touch_left {
            self.reverse_x();
            self.increase_acceleration_x();
            proof {
                lemma_increase_keeps_clamp(old(self)@.acceleration_x);
            }
            return true;
        } else if touch_down || touch_up {
            self.reverse_y();
            self.increase_acceleration_y();
            proof {
                lemma_increase_keeps_clamp(old(self)@.acceleration_y);
            }
            return true;
        }

        false
    }

    /// Draws a fresh launch angle, uniformly from the open-ended range of
    /// scaled degrees `-ANGLE_LIMIT..ANGLE_LIMIT`.
    pub fn randomize_angle() -> (angle: i64)
        ensures
            -ANGLE_LIMIT <= angle < ANGLE_LIMIT,
    {
        random_in_range(0 - ANGLE_LIMIT, ANGLE_LIMIT)
    }
}

/// Reflecting a clamped speed keeps it clamped.
proof fn lemma_increase_keeps_clamp(v: int)
    requires
        -MAX_ACCELERATION <= v <= MAX_ACCELERATION,
    ensures
        -MAX_ACCELERATION <= reflected_speed(v) <= MAX_ACCELERATION,
{
    lemma_speed_growth_clamped(v);
}

/// Law: a bounce can change the per-axis speed magnitude only by scaling it
/// with the fixed growth ratio, and only when the grown magnitude still fits
/// the clamp; so a speed whose magnitude fits the clamp still fits it after
/// any bounce, a bounce never slows the ball down, and a moving ball comes
/// out of a bounce moving the opposite way on the bounced axis.
pub proof fn lemma_speed_growth_clamped(v: int)
    requires
        -MAX_ACCELERATION <= v <= MAX_ACCELERATION,
    ensures
        -MAX_ACCELERATION <= reflected_speed(v) <= MAX_ACCELERATION,
        abs(reflected_speed(v)) == scaled_magnitude(abs(v) as int)
            || abs(reflected_speed(v)) == abs(v),
        abs(reflected_speed(v)) >= abs(v),
        v > 0 ==> reflected_speed(v) < 0,
        v < 0 ==> reflected_speed(v) > 0,
{
    lemma_grown_speed_shape(v);
    lemma_grown_speed_shape(-v);
}

/// Law: one collision check resolves only its first matching side. Even in
/// a tick where both touch predicates of an axis hold at once, the speed on
/// that axis is reflected exactly once, never twice (a double reversal
/// would leave the travel direction unchanged; here a moving ball always
/// comes out moving the opposite way). A horizontal touch takes priority
/// and leaves the y-speed alone; a vertical touch only counts when no
/// horizontal touch holds, and leaves the x-speed alone; a ball touching
/// nothing is left exactly as it was.
pub proof fn lemma_collision_resolves_once(b: BallView, ox1: int, ox2: int, oy1: int, oy2: int)
    requires
        b.wf(),
    ensures
        b.touches_horizontal(ox1, ox2, oy1, oy2) ==> b.bounced(ox1, ox2, oy1, oy2)
            == (BallView { acceleration_x: reflected_speed(b.acceleration_x), ..b }),
        b.touches_horizontal(ox1, ox2, oy1, oy2) && b.acceleration_x > 0
            ==> b.bounced(ox1, ox2, oy1, oy2).acceleration_x < 0,
        b.touches_horizontal(ox1, ox2, oy1, oy2) && b.acceleration_x < 0
            ==> b.bounced(ox1, ox2, oy1, oy2).acceleration_x > 0,
        !b.touches_horizontal(ox1, ox2, oy1, oy2) && b.touches_vertical(ox1, ox2, oy1, oy2)
            ==> b.bounced(ox1, ox2, oy1, oy2)
                == (BallView { acceleration_y: reflected_speed(b.acceleration_y), ..b }),
        !b.touches_horizontal(ox1, ox2, oy1, oy2) && b.touches_vertical(ox1, ox2, oy1, oy2)
                && b.acceleration_y > 0
            ==> b.bounced(ox1, ox2, oy1, oy2).acceleration_y < 0,
        !b.touches_horizontal(ox1, ox2, oy1, oy2) && b.touches_vertical(ox1, ox2, oy1, oy2)
                && b.acceleration_y < 0
            ==> b.bounced(ox1, ox2, oy1, oy2).acceleration_y > 0,
        !b.touches(ox1, ox2, oy1, oy2) ==> b.bounced(ox1, ox2, oy1, oy2) == b,
{
    lemma_speed_growth_clamped(b.acceleration_x);
    lemma_speed_growth_clamped(b.acceleration_y);
}

/// The grown speed keeps the sign of its argument and its magnitude is the
/// scaled magnitude, which never shrinks.
proof fn lemma_grown_speed_shape(v: int)
    ensures
        abs(grown_speed(v)) == scaled_magnitude(abs(v) as int),
        v >= 0 ==> grown_speed(v) >= 0,
        v <= 0 ==> grown_speed(v) <= 0,
        abs(grown_speed(v)) >= abs(v),
{
    let m = abs(v) as int;
    let num = ACCELERATION_GROWTH_NUM as int;
    let den = ACCELERATION_GROWTH_DEN as int;
    assert(m * num >= m * den) by (nonlinear_arith)
        requires m >= 0, num >= den;
    assert(m * num / den >= m) by {
        vstd::arithmetic::div_mod::lemma_div_multiples_vanish(m, den);
        vstd::arithmetic::div_mod::lemma_div_is_ordered(m * den, m * num, den);
    }
    assert(m * num >= 0) by (nonlinear_arith)
        requires m >= 0, num >= 0;
    assert(m * num / den >= 0) by {
        vstd::arithmetic::div_mod::lemma_div_is_ordered(0, m * num, den);
    }
}

} // verus!
