//! The lights on the tree: where they are placed and when they change colour.

use crate::color::{color_of, Color};
use crate::geometry::{
    cross, in_tree, tree_left, tree_right, tree_top, within_tree, Point, TREE_BASE_Y,
    TREE_LEFT_X, TREE_RIGHT_X, TREE_TOP_X, TREE_TOP_Y, UNIT,
};
use crate::random::draw_fraction;
use rand::rngs::StdRng;
use vstd::prelude::*;

verus! {

/// How many lights the tree carries.
pub const LIGHT_COUNT: usize = 50;

/// Side of the square that a light is drawn as, in design units.
pub const LIGHT_SIZE: i64 = 8;

/// Out of every `RECOLOR_ODDS` ticks, a light changes colour on one.
pub const RECOLOR_ODDS: i64 = 4;

/// A light on the tree.
#[derive(Clone, Copy, Debug, PartialEq, Eq, Structural)]
pub struct Light {
    pub position: Point,
    pub color: Color,
}

/// Folds a pair of fractions into the half of the unit square below its
/// diagonal: a pair whose sum exceeds one is reflected through the centre.
pub open spec fn fold(r1: int, r2: int) -> (int, int) {
    if r1 + r2 > UNIT {
        (UNIT - r1, UNIT - r2)
    } else {
        (r1, r2)
    }
}

/// The point `top + u * (left - top) + v * (right - top)` of the tree, for the
/// weights `u` and `v` in sub-units.
pub open spec fn tree_point(u: int, v: int) -> Point {
    Point {
        x: (TREE_TOP_X * UNIT + u * (TREE_LEFT_X - TREE_TOP_X) + v * (TREE_RIGHT_X
            - TREE_TOP_X)) as i64,
        y: (TREE_TOP_Y * UNIT + u * (TREE_BASE_Y - TREE_TOP_Y) + v * (TREE_BASE_Y
            - TREE_TOP_Y)) as i64,
    }
}

/// Where a light stands whose two random fractions are `r1` and `r2`.
pub open spec fn light_position(r1: int, r2: int) -> Point {
    tree_point(fold(r1, r2).0, fold(r1, r2).1)
}

/// The light that the five fractions of one round of draws give: two for the
/// place, three for the colour.
pub open spec fn light_of(r1: int, r2: int, red: int, green: int, blue: int) -> Light {
    Light { position: light_position(r1, r2), color: color_of(red, green, blue) }
}

/// `light` is one that a round of draws can give.
pub open spec fn spawned_light(light: Light) -> bool {
    exists|r1: int, r2: int, red: int, green: int, blue: int|
        0 <= r1 < UNIT && 0 <= r2 < UNIT && 0 <= red < UNIT && 0 <= green < UNIT && 0 <= blue
            < UNIT && light == #[trigger] light_of(r1, r2, red, green, blue)
}

/// Whether a light changes colour on a tick on which its chance draw is
/// `chance`: on the lowest quarter of the fractions.
pub open spec fn recolors(chance: int) -> bool {
    chance * RECOLOR_ODDS < UNIT
}

/// The light after a tick on which its chance draw is `chance`, and on which
/// the colour fractions `red`, `green` and `blue` are drawn if the colour
/// changes.
pub open spec fn twinkled(light: Light, chance: int, red: int, green: int, blue: int) -> Light {
    if recolors(chance) {
        Light { position: light.position, color: color_of(red, green, blue) }
    } else {
        light
    }
}

/// `after` is what one tick can make of the light `before`.
pub open spec fn light_step(before: Light, after: Light) -> bool {
    exists|chance: int, red: int, green: int, blue: int|
        0 <= chance < UNIT && 0 <= red < UNIT && 0 <= green < UNIT && 0 <= blue < UNIT && after
            == #[trigger] twinkled(before, chance, red, green, blue)
}

impl Light {
    /// The light stands inside the tree or on its boundary.
    pub open spec fn valid(self) -> bool {
        in_tree(self.position)
    }
}

/// Folding keeps both weights at or above zero and their sum at or below one.
pub proof fn lemma_fold_range(r1: int, r2: int)
    requires
        0 <= r1 < UNIT,
        0 <= r2 < UNIT,
    ensures
        0 <= fold(r1, r2).0 <= UNIT,
        0 <= fold(r1, r2).1 <= UNIT,
        fold(r1, r2).0 + fold(r1, r2).1 <= UNIT,
{
}

/// Weights at or above zero whose sum is at most one give a point inside the
/// tree or on its boundary: it lies on the same side of all three edges.
pub proof fn lemma_tree_point_in_tree(u: int, v: int)
    requires
        0 <= u,
        0 <= v,
        u + v <= UNIT,
    ensures
        in_tree(tree_point(u, v)),
        cross(tree_top(), tree_left(), tree_point(u, v)) == -200000 * UNIT * v,
        cross(tree_left(), tree_right(), tree_point(u, v)) == 200000 * UNIT * (u + v - UNIT),
        cross(tree_right(), tree_top(), tree_point(u, v)) == -200000 * UNIT * u,
{
    let p = tree_point(u, v);
    let one = UNIT as int;
    assert(p.x == 300 * one - 200 * u + 200 * v);
    assert(p.y == 50 * one + 500 * u + 500 * v);
    assert(cross(tree_top(), tree_left(), p) == (-200 * one) * (500 * u + 500 * v) - (500 * one)
        * (-200 * u + 200 * v));
    assert(cross(tree_left(), tree_right(), p) == (400 * one) * (500 * u + 500 * v - 500 * one)) by {
        assert(tree_right().y - tree_left().y == 0);
        assert(0 * (p.x - tree_left().x) == 0);
    }
    assert(cross(tree_right(), tree_top(), p) == (-200 * one) * (500 * u + 500 * v - 500 * one)
        - (-500 * one) * (-200 * u + 200 * v - 200 * one));
    assert((-200 * one) * (500 * u + 500 * v) - (500 * one) * (-200 * u + 200 * v) == -200000
        * one * v) by (nonlinear_arith);
    assert((400 * one) * (500 * u + 500 * v - 500 * one) == 200000 * one * (u + v - one))
        by (nonlinear_arith);
    assert((-200 * one) * (500 * u + 500 * v - 500 * one) - (-500 * one) * (-200 * u + 200 * v
        - 200 * one) == -200000 * one * u) by (nonlinear_arith);
    assert(-200000 * one * v <= 0) by (nonlinear_arith)
        requires
            v >= 0,
            one > 0,
    ;
    assert(-200000 * one * u <= 0) by (nonlinear_arith)
        requires
            u >= 0,
            one > 0,
    ;
    assert(200000 * one * (u + v - one) <= 0) by (nonlinear_arith)
        requires
            u + v <= one,
            one > 0,
    ;
}

/// Every light that a pair of fractions gives stands inside the tree or on
/// its boundary.
pub proof fn lemma_light_in_tree(r1: int, r2: int)
    requires
        0 <= r1 < UNIT,
        0 <= r2 < UNIT,
    ensures
        in_tree(light_position(r1, r2)),
{
    lemma_fold_range(r1, r2);
    lemma_tree_point_in_tree(fold(r1, r2).0, fold(r1, r2).1);
}

/// Every light that a round of draws can give stands inside the tree or on
/// its boundary.
pub proof fn lemma_spawned_light_in_tree(light: Light)
    requires
        spawned_light(light),
    ensures
        light.valid(),
{
    let (r1, r2, red, green, blue) = choose|r1: int, r2: int, red: int, green: int, blue: int|
        0 <= r1 < UNIT && 0 <= r2 < UNIT && 0 <= red < UNIT && 0 <= green < UNIT && 0 <= blue
            < UNIT && light == #[trigger] light_of(r1, r2, red, green, blue);
    lemma_light_in_tree(r1, r2);
}

/// A tick leaves a light where it is, so a light inside the tree stays
/// inside.
pub proof fn lemma_light_step_keeps_place(before: Light, after: Light)
    requires
        light_step(before, after),
    ensures
        after.position == before.position,
        before.valid() ==> after.valid(),
{
}

/// Exactly one quarter of the fractions makes a light change colour.
pub proof fn lemma_recolor_share()
    ensures
        Set::new(|chance: int| 0 <= chance < UNIT && recolors(chance)).len() * RECOLOR_ODDS
            == UNIT,
{
    let low = Set::new(|chance: int| 0 <= chance < UNIT && recolors(chance));
    let quarter = vstd::set_lib::set_int_range(0, UNIT / 4);
    assert(low =~= quarter);
    vstd::set_lib::lemma_int_range(0, UNIT / 4);
}

/// Folds a pair of fractions into the half of the unit square below its
/// diagonal.
pub fn fold_fractions(r1: i64, r2: i64) -> (weights: (i64, i64))
    requires
        0 <= r1 < UNIT,
        0 <= r2 < UNIT,
    ensures
        (weights.0 as int, weights.1 as int) == fold(r1 as int, r2 as int),
{
    if r1 + r2 > UNIT {
        (UNIT - r1, UNIT - r2)
    } else {
        (r1, r2)
    }
}

/// Where a light stands whose two random fractions are `r1` and `r2`.
pub fn place_light(r1: i64, r2: i64) -> (position: Point)
    requires
        0 <= r1 < UNIT,
        0 <= r2 < UNIT,
    ensures
        position == light_position(r1 as int, r2 as int),
        in_tree(position),
{
    let (u, v) = fold_fractions(r1, r2);
    proof {
        lemma_fold_range(r1 as int, r2 as int);
        lemma_light_in_tree(r1 as int, r2 as int);
    }
    let x: i64 = TREE_TOP_X * UNIT + u * (TREE_LEFT_X - TREE_TOP_X) + v * (TREE_RIGHT_X
        - TREE_TOP_X);
    let y: i64 = TREE_TOP_Y * UNIT + u * (TREE_BASE_Y - TREE_TOP_Y) + v * (TREE_BASE_Y
        - TREE_TOP_Y);
    Point { x, y }
}

/// Whether a light changes colour on a tick on which its chance draw is
/// `chance`.
pub fn recolor_due(chance: i64) -> (due: bool)
    ensures
        due == recolors(chance as int),
{
    chance < UNIT / RECOLOR_ODDS
}

impl Light {
    /// The light that the five fractions of one round of draws give.
    pub fn from_draws(r1: i64, r2: i64, red: i64, green: i64, blue: i64) -> (light: Light)
        requires
            0 <= r1 < UNIT,
            0 <= r2 < UNIT,
        ensures
            light == light_of(r1 as int, r2 as int, red as int, green as int, blue as int),
            light.valid(),
    {
        Light { position: place_light(r1, r2), color: Color::from_fractions(red, green, blue) }
    }

    /// Whether the light stands inside the tree or on its boundary.
    pub fn is_valid(&self) -> (ok: bool)
        ensures
            ok == self.valid(),
    {
        within_tree(self.position)
    }

    /// A new light at a random place of the tree, in a random colour. The
    /// draws are made in the order of the parameters of `from_draws`.
    pub fn random(rng: &mut StdRng) -> (light: Light)
        ensures
            spawned_light(light),
            light.valid(),
    {
        let r1 = draw_fraction(rng);
        let r2 = draw_fraction(rng);
        let red = draw_fraction(rng);
        let green = draw_fraction(rng);
        let blue = draw_fraction(rng);
        Light::from_draws(r1, r2, red, green, blue)
    }

    /// The light in the colour that the three fractions give.
    pub fn recolored(self, red: i64, green: i64, blue: i64) -> (light: Light)
        ensures
            light == (Light {
                position: self.position,
                color: color_of(red as int, green as int, blue as int),
            }),
    {
        Light { position: self.position, color: Color::from_fractions(red, green, blue) }
    }

    /// One tick of the light: it stays where it is, and on a quarter of the
    /// chance draws it takes a new random colour. The colour is drawn only
    /// when the light changes.
    pub fn twinkle(&mut self, rng: &mut StdRng)
        ensures
            light_step(*old(self), *final(self)),
            final(self).position == old(self).position,
    {
        let chance = draw_fraction(rng);
        if recolor_due(chance) {
            let red = draw_fraction(rng);
            let green = draw_fraction(rng);
            let blue = draw_fraction(rng);
            *self = self.recolored(red, green, blue);
            assert(*self == twinkled(*old(self), chance as int, red as int, green as int, blue as int));
        } else {
            assert(*self == twinkled(*old(self), chance as int, 0, 0, 0));
        }
    }
}

/// Fifty lights at random places of the tree, in random colours.
pub fn generate_lights(rng: &mut StdRng) -> (lights: Vec<Light>)
    ensures
        lights@.len() == LIGHT_COUNT,
        forall|i: int| 0 <= i < lights@.len() ==> spawned_light(#[trigger] lights@[i]),
        forall|i: int| 0 <= i < lights@.len() ==> (#[trigger] lights@[i]).valid(),
{
    let mut lights: Vec<Light> = Vec::with_capacity(LIGHT_COUNT);
    let mut n: usize = 0;
    while n < LIGHT_COUNT
        invariant
            n <= LIGHT_COUNT,
            lights@.len() == n,
            forall|i: int| 0 <= i < lights@.len() ==> spawned_light(#[trigger] lights@[i]),
            forall|i: int| 0 <= i < lights@.len() ==> (#[trigger] lights@[i]).valid(),
        decreases LIGHT_COUNT - n,
    {
        let light = Light::random(rng);
        lights.push(light);
        n = n + 1;
    }
    lights
}

} // verus!
