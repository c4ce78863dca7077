//! The snowflakes: where they start, how they fall and where they come back.

use crate::geometry::{Point, BASE_HEIGHT, BASE_WIDTH, UNIT};
use crate::random::sample_between;
use rand::rngs::StdRng;
use vstd::prelude::*;

verus! {

/// How many snowflakes the scene holds.
pub const SNOWFLAKE_COUNT: usize = 100;

/// Side of the square that a snowflake is drawn as, in design units.
pub const SNOWFLAKE_SIZE: i64 = 4;

/// Height of the band above the scene in which snowflakes appear, in design
/// units.
pub const SPAWN_BAND: i64 = 100;

/// The slowest fall per tick, in design units.
pub const MIN_SPEED: i64 = 1;

/// The bound below which every fall per tick stays, in design units.
pub const MAX_SPEED: i64 = 3;

/// A snowflake: where it is, and how far it falls on each tick.
#[derive(Clone, Copy, Debug, PartialEq, Eq, Structural)]
pub struct Snowflake {
    pub position: Point,
    pub speed: i64,
}

/// `x` is a column in which a snowflake can appear.
pub open spec fn spawn_column(x: int) -> bool {
    0 <= x < BASE_WIDTH * UNIT
}

/// `y` is a height at which a snowflake can appear: inside the band above the
/// scene.
pub open spec fn spawn_height(y: int) -> bool {
    -(SPAWN_BAND * UNIT) <= y < 0
}

/// `speed` is a fall per tick that a snowflake can have.
pub open spec fn fall_speed(speed: int) -> bool {
    MIN_SPEED * UNIT <= speed < MAX_SPEED * UNIT
}

impl Snowflake {
    /// The snowflake is in a column of the scene, between the top of the band
    /// in which snowflakes appear and the floor of the scene, and falls at a
    /// speed that a snowflake can have.
    pub open spec fn valid(self) -> bool {
        &&& spawn_column(self.position.x as int)
        &&& -(SPAWN_BAND * UNIT) <= self.position.y <= BASE_HEIGHT * UNIT
        &&& fall_speed(self.speed as int)
    }

    /// The snowflake has just appeared: it is valid and stands inside the band
    /// above the scene.
    pub open spec fn fresh(self) -> bool {
        &&& spawn_column(self.position.x as int)
        &&& spawn_height(self.position.y as int)
        &&& fall_speed(self.speed as int)
    }

    /// One more fall would take the snowflake below the floor of the scene.
    pub open spec fn leaving(self) -> bool {
        self.position.y + self.speed > BASE_HEIGHT * UNIT
    }

    /// The snowflake one fall further down.
    pub open spec fn fallen(self) -> Snowflake
        recommends
            self.valid(),
    {
        Snowflake {
            position: Point { x: self.position.x, y: (self.position.y + self.speed) as i64 },
            speed: self.speed,
        }
    }

    /// The snowflake put back at `x`, `y`, with the speed it has.
    pub open spec fn moved_to(self, x: i64, y: i64) -> Snowflake {
        Snowflake { position: Point { x, y }, speed: self.speed }
    }

    /// The snowflake after a tick on which `x` and `y` are drawn if it leaves
    /// the scene: it falls, and where the fall takes it below the floor it
    /// comes back at `x`, `y`.
    pub open spec fn ticked(self, x: i64, y: i64) -> Snowflake
        recommends
            self.valid(),
    {
        if self.leaving() {
            self.moved_to(x, y)
        } else {
            self.fallen()
        }
    }
}

/// `after` is what one tick can make of the snowflake `before`.
pub open spec fn snow_step(before: Snowflake, after: Snowflake) -> bool {
    exists|x: i64, y: i64|
        spawn_column(x as int) && spawn_height(y as int) && after == #[trigger] before.ticked(x, y)
}

/// A fresh snowflake is a valid one.
pub proof fn lemma_fresh_is_valid(flake: Snowflake)
    requires
        flake.fresh(),
    ensures
        flake.valid(),
{
}

/// A tick keeps a valid snowflake valid and its speed unchanged. A snowflake
/// that would have left the scene is fresh afterwards; any other is one fall
/// further down in its column.
pub proof fn lemma_snow_step_keeps_valid(before: Snowflake, after: Snowflake)
    requires
        before.valid(),
        snow_step(before, after),
    ensures
        after.valid(),
        after.speed == before.speed,
        before.leaving() ==> after.fresh(),
        !before.leaving() ==> after == before.fallen(),
{
}

impl Snowflake {
    /// A snowflake at `x`, `y` that falls by `speed` on each tick.
    pub fn spawn(x: i64, y: i64, speed: i64) -> (flake: Snowflake)
        ensures
            flake == (Snowflake { position: Point { x, y }, speed }),
            spawn_column(x as int) && spawn_height(y as int) && fall_speed(speed as int)
                ==> flake.fresh(),
    {
        Snowflake { position: Point { x, y }, speed }
    }

    /// Whether the snowflake is valid.
    pub fn is_valid(&self) -> (ok: bool)
        ensures
            ok == self.valid(),
    {
        0 <= self.position.x && self.position.x < BASE_WIDTH * UNIT && -(SPAWN_BAND * UNIT)
            <= self.position.y && self.position.y <= BASE_HEIGHT * UNIT && MIN_SPEED * UNIT
            <= self.speed && self.speed < MAX_SPEED * UNIT
    }

    /// Whether the snowflake stands where snowflakes appear: it is valid and
    /// inside the band above the scene.
    pub fn is_fresh(&self) -> (ok: bool)
        ensures
            ok == self.fresh(),
    {
        self.is_valid() && self.position.y < 0
    }

    /// A new snowflake at a random place of the band above the scene, with a
    /// random speed. The draws are made in the order of the parameters of
    /// `spawn`.
    pub fn random(rng: &mut StdRng) -> (flake: Snowflake)
        ensures
            flake.fresh(),
            flake.valid(),
    {
        let x = sample_between(rng, 0, BASE_WIDTH * UNIT);
        let y = sample_between(rng, -(SPAWN_BAND * UNIT), 0);
        let speed = sample_between(rng, MIN_SPEED * UNIT, MAX_SPEED * UNIT);
        Snowflake::spawn(x, y, speed)
    }

    /// Lets the snowflake fall once, and tells whether that took it below the
    /// floor of the scene.
    pub fn fall(&mut self) -> (left: bool)
        requires
            old(self).valid(),
        ensures
            *final(self) == old(self).fallen(),
            left == old(self).leaving(),
    {
        self.position.y = self.position.y + self.speed;
        self.position.y > BASE_HEIGHT * UNIT
    }

    /// Puts the snowflake back at `x`, `y`, with the speed it has.
    pub fn respawn(&mut self, x: i64, y: i64)
        ensures
            *final(self) == old(self).moved_to(x, y),
    {
        self.position.y = y;
        self.position.x = x;
    }

    /// One tick of the snowflake: it falls, and where that takes it below the
    /// floor of the scene it comes back at a random place of the band above
    /// the scene. The height is drawn before the column, and neither is drawn
    /// while the snowflake stays in the scene.
    pub fn tick(&mut self, rng: &mut StdRng)
        requires
            old(self).valid(),
        ensures
            snow_step(*old(self), *final(self)),
            final(self).valid(),
    {
        let left = self.fall();
        if left {
            let y = sample_between(rng, -(SPAWN_BAND * UNIT), 0);
            let x = sample_between(rng, 0, BASE_WIDTH * UNIT);
            self.respawn(x, y);
            assert(*self == old(self).ticked(x, y));
        } else {
            assert(*self == old(self).ticked(0i64, -1i64));
        }
    }
}

/// A hundred new snowflakes at random places of the band above the scene.
pub fn generate_snowflakes(rng: &mut StdRng) -> (flakes: Vec<Snowflake>)
    ensures
        flakes@.len() == SNOWFLAKE_COUNT,
        forall|i: int| 0 <= i < flakes@.len() ==> (#[trigger] flakes@[i]).fresh(),
{
    let mut flakes: Vec<Snowflake> = Vec::with_capacity(SNOWFLAKE_COUNT);
    let mut n: usize = 0;
    while n < SNOWFLAKE_COUNT
        invariant
            n <= SNOWFLAKE_COUNT,
            flakes@.len() == n,
            forall|i: int| 0 <= i < flakes@.len() ==> (#[trigger] flakes@[i]).fresh(),
        decreases SNOWFLAKE_COUNT - n,
    {
        let flake = Snowflake::random(rng);
        flakes.push(flake);
        n = n + 1;
    }
    flakes
}

} // verus!
