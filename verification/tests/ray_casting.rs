use bevy_rapier3d::prelude::RapierContext;
use bevy_rapier3d::rapier::na::Vector3;
use bevy_rapier3d::rapier::prelude::ColliderBuilder;
use bevy_ui_3d::config::PluginConfig;
use bevy_ui_3d::input::PointerInput;
use bevy_ui_3d::interaction::Interaction3d;
use bevy_ui_3d::node::NodeQuery;
use bevy_ui_3d::point::{WorldPoint, WorldRay};
use bevy_ui_3d::ray_cast::{cast_rays, RayHit};
use bevy_ui_3d::ui_3d::interaction_system;
use bevy_ui_3d::ui_state::UiState;

fn at(x: f32, y: f32, z: f32) -> WorldPoint {
    WorldPoint::new(x.to_bits(), y.to_bits(), z.to_bits())
}

fn coordinates(point: WorldPoint) -> [f32; 3] {
    [f32::from_bits(point.x), f32::from_bits(point.y), f32::from_bits(point.z)]
}

fn close(point: WorldPoint, x: f32, y: f32, z: f32) -> bool {
    let c = coordinates(point);
    (c[0] - x).abs() < 1e-4 && (c[1] - y).abs() < 1e-4 && (c[2] - z).abs() < 1e-4
}

/// Unit cubes, each with the identity of its object, centred where given.
fn scene(cubes: &[(u64, [f32; 3])]) -> RapierContext {
    let mut context = RapierContext::default();
    for (entity, centre) in cubes {
        let collider = ColliderBuilder::cuboid(0.5, 0.5, 0.5)
            .translation(Vector3::new(centre[0], centre[1], centre[2]))
            .user_data(*entity as u128)
            .build();
        context.colliders.insert(collider);
    }
    context.query_pipeline.update(&context.bodies, &context.colliders);
    context
}

fn ray(origin: [f32; 3], direction: [f32; 3]) -> Option<WorldRay> {
    Some(WorldRay {
        origin: at(origin[0], origin[1], origin[2]),
        direction: at(direction[0], direction[1], direction[2]),
    })
}

fn node(entity: u64, computed_visibility: Option<bool>) -> NodeQuery {
    NodeQuery { entity, interaction: Interaction3d::Idle, computed_visibility }
}

fn quiet() -> PointerInput {
    PointerInput {
        has_window: true,
        mouse_just_pressed: false,
        touch_just_pressed: false,
        mouse_just_released: false,
        touch_just_released: false,
    }
}

fn hovered_near(state: Interaction3d, x: f32, y: f32, z: f32) -> bool {
    match state {
        Interaction3d::Hovered(point) => close(point, x, y, z),
        _ => false,
    }
}

fn pressed_near(state: Interaction3d, x: f32, y: f32, z: f32) -> bool {
    match state {
        Interaction3d::Pressed(point) => close(point, x, y, z),
        _ => false,
    }
}

#[test]
fn ray_meets_the_nearest_object() {
    let context = scene(&[(1, [0.0, 0.0, -5.0]), (2, [0.0, 0.0, -10.0])]);
    let nodes = vec![node(1, None), node(2, None)];
    let hits = cast_rays(&context, &vec![ray([0.0, 0.0, 0.0], [0.0, 0.0, -1.0])], &nodes);
    assert_eq!(hits.len(), 1);
    let hit: RayHit = hits[0].unwrap();
    assert_eq!(hit.entity, 1);
    assert!(close(hit.point, 0.0, 0.0, -4.5));
}

#[test]
fn ray_reports_where_it_met_the_object() {
    let context = scene(&[(1, [2.0, 3.0, -5.0])]);
    let nodes = vec![node(1, None)];
    let hits = cast_rays(&context, &vec![ray([2.25, 2.75, 4.0], [0.0, 0.0, -2.0])], &nodes);
    let hit = hits[0].unwrap();
    assert_eq!(hit.entity, 1);
    assert!(close(hit.point, 2.25, 2.75, -4.5));
}

#[test]
fn ray_passes_through_a_hidden_object() {
    let context = scene(&[(1, [0.0, 0.0, -5.0]), (2, [0.0, 0.0, -10.0])]);
    let nodes = vec![node(1, Some(false)), node(2, Some(true))];
    let hits = cast_rays(&context, &vec![ray([0.0, 0.0, 0.0], [0.0, 0.0, -1.0])], &nodes);
    let hit = hits[0].unwrap();
    assert_eq!(hit.entity, 2);
    assert!(close(hit.point, 0.0, 0.0, -9.5));
}

#[test]
fn ray_passes_through_an_untracked_object() {
    let context = scene(&[(7, [0.0, 0.0, -5.0]), (2, [0.0, 0.0, -10.0])]);
    let nodes = vec![node(2, None)];
    let hits = cast_rays(&context, &vec![ray([0.0, 0.0, 0.0], [0.0, 0.0, -1.0])], &nodes);
    assert_eq!(hits[0].unwrap().entity, 2);
    let hits = cast_rays(&context, &vec![ray([0.0, 0.0, 0.0], [0.0, 0.0, -1.0])], &vec![]);
    assert_eq!(hits, vec![None]);
}

#[test]
fn ray_that_misses_meets_nothing() {
    let context = scene(&[(1, [0.0, 0.0, -5.0])]);
    let nodes = vec![node(1, None)];
    let rays = vec![ray([0.0, 0.0, 0.0], [0.0, 0.0, 1.0]), ray([3.0, 0.0, 0.0], [0.0, 0.0, -1.0])];
    assert_eq!(cast_rays(&context, &rays, &nodes), vec![None, None]);
}

#[test]
fn camera_without_a_ray_is_skipped() {
    let context = scene(&[(1, [0.0, 0.0, -5.0])]);
    let nodes = vec![node(1, None)];
    let rays = vec![None, ray([0.0, 0.0, 0.0], [0.0, 0.0, -1.0]), None];
    let hits = cast_rays(&context, &rays, &nodes);
    assert_eq!(hits.len(), 3);
    assert_eq!(hits[0], None);
    assert_eq!(hits[1].unwrap().entity, 1);
    assert_eq!(hits[2], None);
    assert_eq!(cast_rays(&context, &vec![], &nodes), vec![]);
}

#[test]
fn identity_keeps_all_its_bits() {
    let entity: u64 = (3 << 32) | 17;
    let context = scene(&[(entity, [0.0, 0.0, -5.0])]);
    let nodes = vec![node(entity, None)];
    let hits = cast_rays(&context, &vec![ray([0.0, 0.0, 0.0], [0.0, 0.0, -1.0])], &nodes);
    assert_eq!(hits[0].unwrap().entity, entity);
}

#[test]
fn frame_hovers_what_the_ray_meets() {
    let context = scene(&[(1, [0.0, 0.0, -5.0]), (2, [4.0, 0.0, -5.0])]);
    let mut state = UiState::new();
    let mut nodes = vec![node(1, None), node(2, None)];
    let rays = vec![ray([0.0, 0.0, 0.0], [0.0, 0.0, -1.0])];
    for _ in 0..3 {
        interaction_system(&mut state, &PluginConfig::default(), &quiet(), &context, &rays, &mut nodes);
        assert!(hovered_near(nodes[0].interaction, 0.0, 0.0, -4.5));
        assert_eq!(nodes[1].interaction, Interaction3d::Idle);
    }
    let rays = vec![ray([4.0, 0.0, 0.0], [0.0, 0.0, -1.0])];
    interaction_system(&mut state, &PluginConfig::default(), &quiet(), &context, &rays, &mut nodes);
    assert_eq!(nodes[0].interaction, Interaction3d::Idle);
    assert!(hovered_near(nodes[1].interaction, 4.0, 0.0, -4.5));
}

#[test]
fn frame_taps_what_the_ray_meets() {
    let context = scene(&[(1, [0.0, 0.0, -5.0])]);
    let mut state = UiState::new();
    let mut nodes = vec![node(1, Some(true))];
    let tap = PointerInput { mouse_just_pressed: true, mouse_just_released: true, ..quiet() };
    let rays = vec![ray([0.0, 0.0, 0.0], [0.0, 0.0, -1.0])];
    interaction_system(&mut state, &PluginConfig::default(), &tap, &context, &rays, &mut nodes);
    assert!(pressed_near(nodes[0].interaction, 0.0, 0.0, -4.5));
    assert_eq!(state.entities_to_reset(), vec![1]);
    let away = vec![ray([0.0, 0.0, 0.0], [0.0, 1.0, 0.0])];
    interaction_system(&mut state, &PluginConfig::default(), &quiet(), &context, &away, &mut nodes);
    assert_eq!(nodes[0].interaction, Interaction3d::Idle);
    assert_eq!(state.entities_to_reset(), Vec::<u64>::new());
}

#[test]
fn frame_never_marks_a_hidden_object() {
    let context = scene(&[(1, [0.0, 0.0, -5.0])]);
    let mut state = UiState::new();
    let mut nodes = vec![NodeQuery {
        entity: 1,
        interaction: Interaction3d::Hovered(at(0.0, 0.0, -4.5)),
        computed_visibility: Some(false),
    }];
    let rays = vec![ray([0.0, 0.0, 0.0], [0.0, 0.0, -1.0])];
    let tap = PointerInput { touch_just_pressed: true, ..quiet() };
    for input in [quiet(), tap] {
        interaction_system(&mut state, &PluginConfig::default(), &input, &context, &rays, &mut nodes);
        assert_eq!(nodes[0].interaction, Interaction3d::Idle);
    }
}

#[test]
fn frame_under_an_overlay_marks_nothing() {
    let context = scene(&[(1, [0.0, 0.0, -5.0])]);
    let mut state = UiState::new();
    state.set_over_ui_2d_element(true);
    let mut nodes = vec![NodeQuery {
        entity: 1,
        interaction: Interaction3d::Hovered(at(0.0, 0.0, -4.5)),
        computed_visibility: None,
    }];
    let rays = vec![ray([0.0, 0.0, 0.0], [0.0, 0.0, -1.0])];
    interaction_system(&mut state, &PluginConfig::default(), &quiet(), &context, &rays, &mut nodes);
    assert_eq!(nodes[0].interaction, Interaction3d::Idle);
    state.set_over_ui_2d_element(false);
    interaction_system(&mut state, &PluginConfig::default(), &quiet(), &context, &rays, &mut nodes);
    assert!(hovered_near(nodes[0].interaction, 0.0, 0.0, -4.5));
}

#[test]
fn frame_without_a_window_changes_nothing() {
    let context = scene(&[(1, [0.0, 0.0, -5.0])]);
    let mut state = UiState::new();
    state.defer_reset(1);
    let mut nodes = vec![node(1, None)];
    let rays = vec![ray([0.0, 0.0, 0.0], [0.0, 0.0, -1.0])];
    let input = PointerInput { has_window: false, mouse_just_pressed: true, ..quiet() };
    interaction_system(&mut state, &PluginConfig::default(), &input, &context, &rays, &mut nodes);
    assert_eq!(nodes, vec![node(1, None)]);
    assert_eq!(state.entities_to_reset(), vec![1]);
}

#[test]
fn frame_with_hover_point_off_reports_the_origin() {
    let context = scene(&[(1, [0.0, 0.0, -5.0])]);
    let mut state = UiState::new();
    let config = PluginConfig { hover_point_enabled: false, ..PluginConfig::default() };
    let mut nodes = vec![node(1, None)];
    let rays = vec![ray([0.0, 0.0, 0.0], [0.0, 0.0, -1.0])];
    interaction_system(&mut state, &config, &quiet(), &context, &rays, &mut nodes);
    assert_eq!(nodes[0].interaction, Interaction3d::Hovered(WorldPoint::origin()));
}

#[test]
fn frame_with_two_cameras_marks_both_objects() {
    let context = scene(&[(1, [0.0, 0.0, -5.0]), (2, [4.0, 0.0, -5.0])]);
    let mut state = UiState::new();
    let mut nodes = vec![node(1, None), node(2, None)];
    let rays = vec![
        ray([0.0, 0.0, 0.0], [0.0, 0.0, -1.0]),
        None,
        ray([4.0, 0.0, 0.0], [0.0, 0.0, -1.0]),
    ];
    interaction_system(&mut state, &PluginConfig::default(), &quiet(), &context, &rays, &mut nodes);
    assert!(hovered_near(nodes[0].interaction, 0.0, 0.0, -4.5));
    assert!(hovered_near(nodes[1].interaction, 4.0, 0.0, -4.5));
    let press = PointerInput { mouse_just_pressed: true, ..quiet() };
    interaction_system(&mut state, &PluginConfig::default(), &press, &context, &rays, &mut nodes);
    assert!(pressed_near(nodes[0].interaction, 0.0, 0.0, -4.5));
    assert!(pressed_near(nodes[1].interaction, 4.0, 0.0, -4.5));
    assert_eq!(state.entities_to_reset(), Vec::<u64>::new());
}
