//! Painting: the list of draw commands that shows a scene in a viewport.

use crate::color::{sky_blue, tree_green, trunk_brown, white, Color};
use crate::geometry::{
    tree_left, tree_left_point, tree_right, tree_right_point, tree_top, tree_top_point, Point,
    UNIT,
};
use crate::light::{Light, LIGHT_COUNT, LIGHT_SIZE};
use crate::scene::{SceneState, SceneView};
use crate::snow::{Snowflake, SNOWFLAKE_COUNT, SNOWFLAKE_SIZE};
use crate::viewport::{fit, Transform, Viewport};
use vstd::prelude::*;

verus! {

/// Centre of the trunk, in design units.
pub const TRUNK_CENTER_X: i64 = 300;

pub const TRUNK_CENTER_Y: i64 = 540;

/// Width of the trunk, in design units.
pub const TRUNK_WIDTH: i64 = 30;

/// Height of the trunk, in design units.
pub const TRUNK_HEIGHT: i64 = 60;

/// One step of painting. Commands are carried out in the order of the list,
/// so that a later one covers an earlier one.
#[derive(Clone, Copy, Debug, PartialEq, Eq, Structural)]
pub enum DrawCommand {
    /// Fill the whole surface, whose size is `size`, with `color`.
    FillViewport { size: Viewport, color: Color },
    /// Save the drawing state, then shift by the offsets of `transform` and
    /// scale by its scale: the commands up to the matching `PopTransform` are
    /// given in design space.
    PushTransform { transform: Transform },
    /// Fill the rectangle of the given width and height, in sub-units, whose
    /// centre is `center`.
    FillRect { center: Point, width: i64, height: i64, color: Color },
    /// Fill the triangle with the corners `a`, `b` and `c`.
    FillTriangle { a: Point, b: Point, c: Point, color: Color },
    /// Restore the drawing state that the last `PushTransform` saved.
    PopTransform,
}

/// The white square that shows a snowflake.
pub open spec fn snowflake_command(flake: Snowflake) -> DrawCommand {
    DrawCommand::FillRect {
        center: flake.position,
        width: (SNOWFLAKE_SIZE * UNIT) as i64,
        height: (SNOWFLAKE_SIZE * UNIT) as i64,
        color: white(),
    }
}

/// The square in the light's colour that shows a light.
pub open spec fn light_command(light: Light) -> DrawCommand {
    DrawCommand::FillRect {
        center: light.position,
        width: (LIGHT_SIZE * UNIT) as i64,
        height: (LIGHT_SIZE * UNIT) as i64,
        color: light.color,
    }
}

/// The brown rectangle that shows the trunk.
pub open spec fn trunk_command() -> DrawCommand {
    DrawCommand::FillRect {
        center: Point { x: (TRUNK_CENTER_X * UNIT) as i64, y: (TRUNK_CENTER_Y * UNIT) as i64 },
        width: (TRUNK_WIDTH * UNIT) as i64,
        height: (TRUNK_HEIGHT * UNIT) as i64,
        color: trunk_brown(),
    }
}

/// The green triangle that shows the tree.
pub open spec fn tree_command() -> DrawCommand {
    DrawCommand::FillTriangle {
        a: tree_top(),
        b: tree_left(),
        c: tree_right(),
        color: tree_green(),
    }
}

/// The squares of the snowflakes, in the order of the snowflakes.
pub open spec fn snow_commands(flakes: Seq<Snowflake>) -> Seq<DrawCommand> {
    Seq::new(flakes.len(), |i: int| snowflake_command(flakes[i]))
}

/// The squares of the lights, in the order of the lights.
pub open spec fn light_commands(lights: Seq<Light>) -> Seq<DrawCommand> {
    Seq::new(lights.len(), |i: int| light_command(lights[i]))
}

/// The commands that paint the scene into the viewport: the sky over the whole
/// surface; then, fitted into the viewport, the snowflakes, the trunk, the
/// tree and the lights, each layer over the ones before it.
pub open spec fn scene_commands(scene: SceneView, viewport: Viewport) -> Seq<DrawCommand> {
    seq![
        DrawCommand::FillViewport { size: viewport, color: sky_blue() },
        DrawCommand::PushTransform { transform: fit(viewport) },
    ] + snow_commands(scene.snowflakes) + seq![trunk_command(), tree_command()] + light_commands(
        scene.lights,
    ) + seq![DrawCommand::PopTransform]
}

/// Painting depends on the scene and the viewport alone: two paintings of one
/// scene into one viewport, with no tick between them, give the same commands.
pub proof fn lemma_render_repeats(first: SceneState, second: SceneState, viewport: Viewport)
    requires
        first@ == second@,
    ensures
        scene_commands(first@, viewport) == scene_commands(second@, viewport),
{
}

/// The layers of a painting and their places in the list: the sky, the
/// transform, the snowflakes, the trunk, the tree, the lights, and the end of
/// the transform.
pub proof fn lemma_render_order(scene: SceneView, viewport: Viewport)
    ensures
        ({
            let commands = scene_commands(scene, viewport);
            let flakes = scene.snowflakes.len() as int;
            let lights = scene.lights.len() as int;
            &&& commands.len() == flakes + lights + 5
            &&& commands[0] == DrawCommand::FillViewport { size: viewport, color: sky_blue() }
            &&& commands[1] == DrawCommand::PushTransform { transform: fit(viewport) }
            &&& forall|i: int|
                0 <= i < flakes ==> #[trigger] commands[2 + i] == snowflake_command(
                    scene.snowflakes[i],
                )
            &&& commands[2 + flakes] == trunk_command()
            &&& commands[3 + flakes] == tree_command()
            &&& forall|i: int|
                0 <= i < lights ==> #[trigger] commands[4 + flakes + i] == light_command(
                    scene.lights[i],
                )
            &&& commands[4 + flakes + lights] == DrawCommand::PopTransform
        }),
{
}

/// A well-formed scene is painted with 155 commands.
pub proof fn lemma_render_length(scene: SceneView, viewport: Viewport)
    requires
        scene.wf(),
    ensures
        scene_commands(scene, viewport).len() == 155,
{
    lemma_render_order(scene, viewport);
}

/// The white square that shows a snowflake.
pub fn draw_snowflake(flake: &Snowflake) -> (command: DrawCommand)
    ensures
        command == snowflake_command(*flake),
{
    DrawCommand::FillRect {
        center: flake.position,
        width: SNOWFLAKE_SIZE * UNIT,
        height: SNOWFLAKE_SIZE * UNIT,
        color: Color::white(),
    }
}

/// The square in the light's colour that shows a light.
pub fn draw_light(light: &Light) -> (command: DrawCommand)
    ensures
        command == light_command(*light),
{
    DrawCommand::FillRect {
        center: light.position,
        width: LIGHT_SIZE * UNIT,
        height: LIGHT_SIZE * UNIT,
        color: light.color,
    }
}

/// The brown rectangle that shows the trunk.
pub fn draw_trunk() -> (command: DrawCommand)
    ensures
        command == trunk_command(),
{
    DrawCommand::FillRect {
        center: Point { x: TRUNK_CENTER_X * UNIT, y: TRUNK_CENTER_Y * UNIT },
        width: TRUNK_WIDTH * UNIT,
        height: TRUNK_HEIGHT * UNIT,
        color: Color::trunk_brown(),
    }
}

/// The green triangle that shows the tree.
pub fn draw_tree() -> (command: DrawCommand)
    ensures
        command == tree_command(),
{
    DrawCommand::FillTriangle {
        a: tree_top_point(),
        b: tree_left_point(),
        c: tree_right_point(),
        color: Color::tree_green(),
    }
}

/// Paints the scene into the viewport. The scene is only read.
pub fn render(scene: &SceneState, viewport: Viewport) -> (commands: Vec<DrawCommand>)
    ensures
        commands@ == scene_commands(scene@, viewport),
{
    let flakes = scene.snowflakes();
    let lights = scene.lights();
    let mut commands: Vec<DrawCommand> = Vec::new();
    commands.push(DrawCommand::FillViewport { size: viewport, color: Color::sky_blue() });
    commands.push(DrawCommand::PushTransform { transform: Transform::fit(viewport) });
    let ghost head = commands@;
    let mut i: usize = 0;
    while i < flakes.len()
        invariant
            i <= flakes@.len(),
            commands@ =~= head + snow_commands(flakes@.take(i as int)),
        decreases flakes@.len() - i,
    {
        commands.push(draw_snowflake(&flakes[i]));
        i = i + 1;
    }
    assert(flakes@.take(i as int) =~= flakes@);
    commands.push(draw_trunk());
    commands.push(draw_tree());
    let ghost body = commands@;
    let mut k: usize = 0;
    while k < lights.len()
        invariant
            k <= lights@.len(),
            commands@ =~= body + light_commands(lights@.take(k as int)),
        decreases lights@.len() - k,
    {
        commands.push(draw_light(&lights[k]));
        k = k + 1;
    }
    assert(lights@.take(k as int) =~= lights@);
    commands.push(DrawCommand::PopTransform);
    assert(commands@ =~= scene_commands(scene@, viewport));
    commands
}

} // verus!
