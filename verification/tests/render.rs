use christmas_tree::color::Color;
use christmas_tree::geometry::{Point, UNIT};
use christmas_tree::light::Light;
use christmas_tree::render::{
    draw_light, draw_snowflake, draw_tree, draw_trunk, render, DrawCommand,
};
use christmas_tree::scene::SceneState;
use christmas_tree::snow::Snowflake;
use christmas_tree::viewport::{Transform, Viewport};
use rand::rngs::StdRng;
use rand::SeedableRng;

const PIXEL: u64 = UNIT as u64;

fn fixed_scene() -> SceneState {
    let lights: Vec<Light> = (0..50)
        .map(|i| Light {
            position: Point { x: 300 * UNIT, y: (100 + 8 * i) * UNIT },
            color: Color { r: i as u8, g: 200, b: 7 },
        })
        .collect();
    let flakes: Vec<Snowflake> = (0..100)
        .map(|i| Snowflake { position: Point { x: (6 * i) * UNIT, y: (5 * i) * UNIT }, speed: UNIT })
        .collect();
    SceneState::from_parts(lights, flakes, 0).unwrap()
}

#[test]
fn snowflake_is_a_white_square_of_four_units() {
    let flake = Snowflake::spawn(12 * UNIT, 34 * UNIT, UNIT);
    assert_eq!(
        draw_snowflake(&flake),
        DrawCommand::FillRect {
            center: Point { x: 12 * UNIT, y: 34 * UNIT },
            width: 4 * UNIT,
            height: 4 * UNIT,
            color: Color { r: 255, g: 255, b: 255 },
        }
    );
}

#[test]
fn light_is_a_square_of_eight_units_in_its_colour() {
    let light =
        Light { position: Point { x: 300 * UNIT, y: 200 * UNIT }, color: Color { r: 1, g: 2, b: 3 } };
    assert_eq!(
        draw_light(&light),
        DrawCommand::FillRect {
            center: Point { x: 300 * UNIT, y: 200 * UNIT },
            width: 8 * UNIT,
            height: 8 * UNIT,
            color: Color { r: 1, g: 2, b: 3 },
        }
    );
}

#[test]
fn trunk_is_a_brown_rectangle_under_the_tree() {
    assert_eq!(
        draw_trunk(),
        DrawCommand::FillRect {
            center: Point { x: 300 * UNIT, y: 540 * UNIT },
            width: 30 * UNIT,
            height: 60 * UNIT,
            color: Color { r: 139, g: 69, b: 19 },
        }
    );
}

#[test]
fn tree_is_a_green_triangle() {
    assert_eq!(
        draw_tree(),
        DrawCommand::FillTriangle {
            a: Point { x: 300 * UNIT, y: 50 * UNIT },
            b: Point { x: 100 * UNIT, y: 550 * UNIT },
            c: Point { x: 500 * UNIT, y: 550 * UNIT },
            color: Color { r: 0, g: 100, b: 0 },
        }
    );
}

#[test]
fn render_draws_the_layers_in_order() {
    let scene = fixed_scene();
    let viewport = Viewport { width: 1200 * PIXEL, height: 600 * PIXEL };
    let commands = render(&scene, viewport);
    assert_eq!(commands.len(), 155);
    assert_eq!(
        commands[0],
        DrawCommand::FillViewport { size: viewport, color: Color { r: 135, g: 206, b: 235 } }
    );
    assert_eq!(
        commands[1],
        DrawCommand::PushTransform {
            transform: Transform { scale: PIXEL, offset_x: 300 * PIXEL, offset_y: 0 },
        }
    );
    for (i, flake) in scene.snowflakes().iter().enumerate() {
        assert_eq!(commands[2 + i], draw_snowflake(flake));
    }
    assert_eq!(commands[102], draw_trunk());
    assert_eq!(commands[103], draw_tree());
    for (i, light) in scene.lights().iter().enumerate() {
        assert_eq!(commands[104 + i], draw_light(light));
    }
    assert_eq!(commands[154], DrawCommand::PopTransform);
}

#[test]
fn render_uses_the_fitted_transform() {
    let scene = fixed_scene();
    let commands = render(&scene, Viewport { width: 300 * PIXEL, height: 600 * PIXEL });
    assert_eq!(
        commands[1],
        DrawCommand::PushTransform {
            transform: Transform { scale: PIXEL / 2, offset_x: 0, offset_y: 150 * PIXEL },
        }
    );
    let commands = render(&scene, Viewport { width: 0, height: 0 });
    assert_eq!(
        commands[1],
        DrawCommand::PushTransform { transform: Transform { scale: 0, offset_x: 0, offset_y: 0 } }
    );
    assert_eq!(commands.len(), 155);
}

#[test]
fn render_keeps_the_transform_scoped() {
    let scene = fixed_scene();
    let commands = render(&scene, Viewport { width: 640 * PIXEL, height: 480 * PIXEL });
    let pushes = commands.iter().filter(|c| matches!(c, DrawCommand::PushTransform { .. })).count();
    let pops = commands.iter().filter(|c| matches!(c, DrawCommand::PopTransform)).count();
    assert_eq!(pushes, 1);
    assert_eq!(pops, 1);
    assert!(matches!(commands[0], DrawCommand::FillViewport { .. }));
    assert!(matches!(commands[commands.len() - 1], DrawCommand::PopTransform));
}

#[test]
fn render_twice_gives_the_same_commands() {
    let mut rng = StdRng::seed_from_u64(31);
    let mut scene = SceneState::new(&mut rng, 0);
    for _ in 0..25 {
        scene.tick(&mut rng);
    }
    let viewport = Viewport { width: 777 * PIXEL + 3, height: 431 * PIXEL };
    let first = render(&scene, viewport);
    let second = render(&scene, viewport);
    assert_eq!(first, second);
    assert_eq!(first.len(), 155);
}

#[test]
fn render_leaves_the_scene_as_it_is() {
    let scene = fixed_scene();
    let lights = scene.lights().clone();
    let flakes = scene.snowflakes().clone();
    let _ = render(&scene, Viewport { width: 100 * PIXEL, height: 100 * PIXEL });
    assert_eq!(scene.lights(), &lights);
    assert_eq!(scene.snowflakes(), &flakes);
}

#[test]
fn render_follows_the_scene_after_a_tick() {
    let mut rng = StdRng::seed_from_u64(32);
    let mut scene = fixed_scene();
    let viewport = Viewport { width: 600 * PIXEL, height: 600 * PIXEL };
    let before = render(&scene, viewport);
    scene.tick(&mut rng);
    let after = render(&scene, viewport);
    assert_ne!(before, after);
    assert_eq!(before[102], after[102]);
    assert_eq!(before[103], after[103]);
    assert_eq!(
        after[2],
        DrawCommand::FillRect {
            center: Point { x: 0, y: UNIT },
            width: 4 * UNIT,
            height: 4 * UNIT,
            color: Color { r: 255, g: 255, b: 255 },
        }
    );
}
