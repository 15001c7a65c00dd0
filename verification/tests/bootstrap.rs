use scene_bootstrap::Angle;
use scene_bootstrap::CameraKind;
use scene_bootstrap::Ccd;
use scene_bootstrap::ColliderShape;
use scene_bootstrap::Color;
use scene_bootstrap::Entity;
use scene_bootstrap::Facing;
use scene_bootstrap::MeshShape;
use scene_bootstrap::Movement;
use scene_bootstrap::PointLight;
use scene_bootstrap::PolylineDesc;
use scene_bootstrap::RigidBodyKind;
use scene_bootstrap::ThirdPersonCamera;
use scene_bootstrap::ThirdPersonController;
use scene_bootstrap::Vec3;
use scene_bootstrap::Velocity;
use scene_bootstrap::World;
use scene_bootstrap::setup;

fn fresh_world_after_setup() -> World {
    let mut world = World::new();
    setup(&mut world);
    world
}

#[test]
fn new_world_is_empty() {
    let world = World::new();
    assert_eq!(world.entities.len(), 0);
    assert!(world.movement.is_none());
}

#[test]
fn setup_spawns_five_entities() {
    let world = fresh_world_after_setup();
    assert_eq!(world.entities.len(), 5);
}

#[test]
fn exactly_one_ground_entity() {
    let world = fresh_world_after_setup();
    let grounds: Vec<&Entity> = world
        .entities
        .iter()
        .filter(|e| matches!(e.mesh, Some(MeshShape::Plane { .. })))
        .collect();
    assert_eq!(grounds.len(), 1);
    let ground = grounds[0];
    assert_eq!(
        ground.collider,
        Some(ColliderShape::Cuboid { half_x: 5000, half_y: 5, half_z: 5000 })
    );
    assert_eq!(ground.mesh, Some(MeshShape::Plane { size: 10000 }));
    assert_eq!(ground.transform.translation, Vec3 { x: 0, y: -50, z: 0 });
    assert_eq!(ground.transform.scale, Vec3 { x: 100, y: 100, z: 100 });
    assert_eq!(ground.material, Some(Color { r: 30, g: 50, b: 30 }));
    assert!(ground.rigid_body.is_none());
}

#[test]
fn exactly_one_player_avatar() {
    let world = fresh_world_after_setup();
    let players: Vec<&Entity> =
        world.entities.iter().filter(|e| e.scene.is_some()).collect();
    assert_eq!(players.len(), 1);
    let player = players[0];
    let scene = player.scene.as_ref().unwrap();
    assert_eq!(scene.path, "models/deer.glb");
    assert_eq!(scene.scene_index, 0);
    assert_eq!(player.rigid_body, Some(RigidBodyKind::KinematicPositionBased));
    assert_eq!(
        player.velocity,
        Some(Velocity {
            linear: Vec3 { x: 0, y: 0, z: 0 },
            angular: Vec3 { x: 0, y: 0, z: 0 },
        })
    );
    let locks = player.locked_axes.unwrap();
    assert!(locks.rotation_x && locks.rotation_y && locks.rotation_z);
    assert!(!locks.translation_x && !locks.translation_y && !locks.translation_z);
    assert_eq!(
        player.collider,
        Some(ColliderShape::Capsule {
            start: Vec3 { x: 0, y: 0, z: 0 },
            end: Vec3 { x: 0, y: 85, z: 0 },
            radius: 50,
        })
    );
    assert_eq!(player.ccd, Some(Ccd { enabled: true }));
    assert_eq!(player.transform.translation, Vec3 { x: 0, y: 1000, z: 0 });
    assert_eq!(player.transform.scale, Vec3 { x: 110, y: 110, z: 110 });
    assert_eq!(player.controller, Some(ThirdPersonController));
}

#[test]
fn exactly_one_light() {
    let world = fresh_world_after_setup();
    let lights: Vec<&Entity> =
        world.entities.iter().filter(|e| e.point_light.is_some()).collect();
    assert_eq!(lights.len(), 1);
    let light = lights[0];
    assert_eq!(
        light.point_light,
        Some(PointLight { intensity: 1_500_000, shadows_enabled: true })
    );
    assert_eq!(light.transform.translation, Vec3 { x: 400, y: 800, z: 400 });
}

#[test]
fn exactly_one_camera() {
    let world = fresh_world_after_setup();
    let cameras: Vec<&Entity> =
        world.entities.iter().filter(|e| e.camera.is_some()).collect();
    assert_eq!(cameras.len(), 1);
    let camera = cameras[0];
    assert_eq!(camera.camera, Some(CameraKind::Perspective));
    assert_eq!(camera.transform.translation, Vec3 { x: -200, y: 250, z: 500 });
    assert_eq!(
        camera.transform.facing,
        Some(Facing {
            target: Vec3 { x: 0, y: 0, z: 0 },
            up: Vec3 { x: 0, y: 100, z: 0 },
        })
    );
    assert_eq!(
        camera.camera_rig,
        Some(ThirdPersonCamera {
            target_offset: Vec3 { x: 0, y: 150, z: 0 },
            position_offset: Vec3 { x: 0, y: 80, z: 0 },
        })
    );
}

#[test]
fn exactly_one_debug_polyline() {
    let world = fresh_world_after_setup();
    let lines: Vec<&Entity> =
        world.entities.iter().filter(|e| e.polyline.is_some()).collect();
    assert_eq!(lines.len(), 1);
    assert_eq!(
        lines[0].polyline,
        Some(PolylineDesc {
            start: Vec3 { x: -100, y: -100, z: -100 },
            end: Vec3 { x: 100, y: 100, z: 100 },
            width: 500,
            color: Color { r: 100, g: 0, b: 0 },
            perspective: true,
        })
    );
}

#[test]
fn movement_heading_is_zero_radians() {
    let world = fresh_world_after_setup();
    assert_eq!(world.movement, Some(Movement { angle: Angle::Radians(0) }));
}

#[test]
fn setup_twice_spawns_two_independent_sets() {
    let mut world = World::new();
    setup(&mut world);
    let first: Vec<Entity> = world.entities.clone();
    setup(&mut world);
    assert_eq!(world.entities.len(), 10);
    assert_eq!(&world.entities[0..5], first.as_slice());
    assert_eq!(&world.entities[5..10], first.as_slice());
    let grounds = world
        .entities
        .iter()
        .filter(|e| matches!(e.mesh, Some(MeshShape::Plane { .. })))
        .count();
    assert_eq!(grounds, 2);
    let players = world.entities.iter().filter(|e| e.scene.is_some()).count();
    assert_eq!(players, 2);
    let lights = world.entities.iter().filter(|e| e.point_light.is_some()).count();
    assert_eq!(lights, 2);
    let cameras = world.entities.iter().filter(|e| e.camera.is_some()).count();
    assert_eq!(cameras, 2);
}

#[test]
fn setup_keeps_existing_entities_in_place() {
    let mut world = World::new();
    setup(&mut world);
    let before = world.entities.clone();
    setup(&mut world);
    assert_eq!(&world.entities[0..before.len()], before.as_slice());
}

#[test]
fn spawn_order_is_polyline_ground_player_light_camera() {
    let world = fresh_world_after_setup();
    assert!(world.entities[0].polyline.is_some());
    assert!(world.entities[1].mesh.is_some());
    assert!(world.entities[2].scene.is_some());
    assert!(world.entities[3].point_light.is_some());
    assert!(world.entities[4].camera.is_some());
}
