use vstd::prelude::*;
use crate::geometry::Angle;
use crate::geometry::Color;
use crate::geometry::Vec3;
use crate::components::Ccd;
use crate::components::CameraKind;
use crate::components::ColliderShape;
use crate::components::Facing;
use crate::components::LockedAxes;
use crate::components::MeshShape;
use crate::components::Movement;
use crate::components::PointLight;
use crate::components::PolylineDesc;
use crate::components::RigidBodyKind;
use crate::components::SceneAsset;
use crate::components::ThirdPersonCamera;
use crate::components::ThirdPersonController;
use crate::components::Transform;
use crate::components::Velocity;
use crate::components::identity_transform;
use crate::components::rotation_locked_axes;
use crate::components::zero_velocity;

verus! {

/// An entity: a transform plus the set of attached component records, each
/// present or absent. Plugins act on an entity by the components it carries.
#[derive(Clone, Debug, PartialEq, Eq)]
pub struct Entity {
    pub transform: Transform,
    pub mesh: Option<MeshShape>,
    pub material: Option<Color>,
    pub collider: Option<ColliderShape>,
    pub rigid_body: Option<RigidBodyKind>,
    pub velocity: Option<Velocity>,
    pub locked_axes: Option<LockedAxes>,
    pub ccd: Option<Ccd>,
    pub scene: Option<SceneAsset>,
    pub point_light: Option<PointLight>,
    pub camera: Option<CameraKind>,
    pub controller: Option<ThirdPersonController>,
    pub camera_rig: Option<ThirdPersonCamera>,
    pub polyline: Option<PolylineDesc>,
}

/// An entity with the identity transform and no components attached.
pub open spec fn empty_entity() -> Entity {
    Entity {
        transform: identity_transform(),
        mesh: None,
        material: None,
        collider: None,
        rigid_body: None,
        velocity: None,
        locked_axes: None,
        ccd: None,
        scene: None,
        point_light: None,
        camera: None,
        controller: None,
        camera_rig: None,
        polyline: None,
    }
}

impl Entity {
    /// A bare entity: identity transform, nothing attached.
    pub fn empty() -> (e: Entity)
        ensures
            e == empty_entity(),
    {
        Entity {
            transform: Transform::identity(),
            mesh: None,
            material: None,
            collider: None,
            rigid_body: None,
            velocity: None,
            locked_axes: None,
            ccd: None,
            scene: None,
            point_light: None,
            camera: None,
            controller: None,
            camera_rig: None,
            polyline: None,
        }
    }
}

/// The world as this layer sees it: the spawned entities, in spawn order, and
/// the process-wide movement resource once it is inserted.
#[derive(Clone, Debug, PartialEq, Eq)]
pub struct World {
    pub entities: Vec<Entity>,
    pub movement: Option<Movement>,
}

impl World {
    /// A world with no entities and no movement resource.
    pub fn new() -> (w: World)
        ensures
            w.entities@ =~= Seq::<Entity>::empty(),
            w.movement is None,
    {
        World { entities: Vec::new(), movement: None }
    }
}

/// The debug polyline entity: a red line segment of width 5 between
/// (-1, -1, -1) and (1, 1, 1), drawn perspective-correct, on an otherwise
/// bare entity.
pub open spec fn is_debug_polyline(e: Entity) -> bool {
    e == (Entity {
        polyline: Some(
            PolylineDesc {
                start: Vec3 { x: -100i64, y: -100i64, z: -100i64 },
                end: Vec3 { x: 100, y: 100, z: 100 },
                width: 500,
                color: Color { r: 100, g: 0, b: 0 },
                perspective: true,
            },
        ),
        ..empty_entity()
    })
}

/// The ground entity: a 100 by 100 visual plane half a unit below the origin,
/// with a matching static collision box of half-extents (50, 0.05, 50) and no
/// rigid body.
pub open spec fn is_ground(e: Entity) -> bool {
    e == (Entity {
        mesh: Some(MeshShape::Plane { size: 10000 }),
        material: Some(Color { r: 30, g: 50, b: 30 }),
        transform: Transform {
            translation: Vec3 { x: 0, y: -50i64, z: 0 },
            scale: Vec3 { x: 100, y: 100, z: 100 },
            facing: None,
        },
        collider: Some(ColliderShape::Cuboid { half_x: 5000, half_y: 5, half_z: 5000 }),
        ..empty_entity()
    })
}

/// The model asset the player avatar is loaded from.
pub open spec fn avatar_asset_path() -> Seq<char> {
    "models/deer.glb"@
}

/// The player avatar: the loaded model at height 10, scaled by 1.1, with the
/// default third-person controller, a position-driven kinematic rigid body,
/// zero velocity, rotation locked on all axes, a capsule collider of radius
/// 0.5 spanning heights 0 to 0.85, and continuous collision detection on.
pub open spec fn is_player_avatar(e: Entity) -> bool {
    &&& e.scene matches Some(s) && s.path@ == avatar_asset_path() && s.scene_index == 0
    &&& e.transform == (Transform {
        translation: Vec3 { x: 0, y: 1000, z: 0 },
        scale: Vec3 { x: 110, y: 110, z: 110 },
        facing: None,
    })
    &&& e.controller == Some(ThirdPersonController)
    &&& e.rigid_body == Some(RigidBodyKind::KinematicPositionBased)
    &&& e.velocity == Some(zero_velocity())
    &&& e.locked_axes == Some(rotation_locked_axes())
    &&& e.collider == Some(
        ColliderShape::Capsule {
            start: Vec3 { x: 0, y: 0, z: 0 },
            end: Vec3 { x: 0, y: 85, z: 0 },
            radius: 50,
        },
    )
    &&& e.ccd == Some((Ccd { enabled: true }))
    &&& e.mesh is None
    &&& e.material is None
    &&& e.point_light is None
    &&& e.camera is None
    &&& e.camera_rig is None
    &&& e.polyline is None
}

/// The light entity: a point light of intensity 15000 with shadows enabled,
/// at (4, 8, 4), on an otherwise bare entity.
pub open spec fn is_light(e: Entity) -> bool {
    e == (Entity {
        point_light: Some((PointLight { intensity: 1500000, shadows_enabled: true })),
        transform: Transform {
            translation: Vec3 { x: 400, y: 800, z: 400 },
            scale: Vec3 { x: 100, y: 100, z: 100 },
            facing: None,
        },
        ..empty_entity()
    })
}

/// The camera entity: a perspective camera at (-2, 2.5, 5) facing the origin
/// with up along the vertical axis, carrying third-person camera offsets of
/// 1.5 units up for the target and 0.8 units up for the position.
pub open spec fn is_camera_rig(e: Entity) -> bool {
    e == (Entity {
        camera: Some(CameraKind::Perspective),
        transform: Transform {
            translation: Vec3 { x: -200i64, y: 250, z: 500 },
            scale: Vec3 { x: 100, y: 100, z: 100 },
            facing: Some(
                Facing { target: Vec3 { x: 0, y: 0, z: 0 }, up: Vec3 { x: 0, y: 100, z: 0 } },
            ),
        },
        camera_rig: Some(
            ThirdPersonCamera {
                target_offset: Vec3 { x: 0, y: 150, z: 0 },
                position_offset: Vec3 { x: 0, y: 80, z: 0 },
            },
        ),
        ..empty_entity()
    })
}

/// The movement resource as the bootstrap inserts it: heading zero radians.
pub open spec fn initial_movement() -> Movement {
    Movement { angle: Angle::Radians(0) }
}

/// What one run of the bootstrap does to the entity list: the entities that
/// were there stay, in place, and exactly the five bootstrap entities follow
/// them, in spawn order.
pub open spec fn setup_appended(pre: Seq<Entity>, post: Seq<Entity>) -> bool {
    &&& post.len() == pre.len() + 5
    &&& post.subrange(0, pre.len() as int) == pre
    &&& is_debug_polyline(post[pre.len() as int])
    &&& is_ground(post[pre.len() as int + 1])
    &&& is_player_avatar(post[pre.len() as int + 2])
    &&& is_light(post[pre.len() as int + 3])
    &&& is_camera_rig(post[pre.len() as int + 4])
}

/// Builds the debug polyline entity.
pub fn debug_polyline_entity() -> (e: Entity)
    ensures
        is_debug_polyline(e),
{
    let mut e = Entity::empty();
    e.polyline = Some(
        PolylineDesc {
            start: Vec3::new(-100, -100, -100),
            end: Vec3::new(100, 100, 100),
            width: 500,
            color: Color::red(),
            perspective: true,
        },
    );
    e
}

/// Builds the ground entity.
pub fn ground_entity() -> (e: Entity)
    ensures
        is_ground(e),
{
    let mut e = Entity::empty();
    e.mesh = Some(MeshShape::Plane { size: 10000 });
    e.material = Some(Color::rgb(30, 50, 30));
    e.transform = Transform::from_translation(Vec3::new(0, -50, 0));
    e.collider = Some(ColliderShape::Cuboid { half_x: 5000, half_y: 5, half_z: 5000 });
    e
}

/// Builds the player avatar entity.
pub fn player_avatar_entity() -> (e: Entity)
    ensures
        is_player_avatar(e),
{
    let mut e = Entity::empty();
    e.scene = Some(SceneAsset { path: String::from_str("models/deer.glb"), scene_index: 0 });
    e.transform = Transform {
        translation: Vec3::new(0, 1000, 0),
        scale: Vec3::new(110, 110, 110),
        facing: None,
    };
    e.controller = Some(ThirdPersonController);
    e.rigid_body = Some(RigidBodyKind::KinematicPositionBased);
    e.velocity = Some(Velocity::zero());
    e.locked_axes = Some(LockedAxes::rotation_locked());
    e.collider = Some(
        ColliderShape::Capsule {
            start: Vec3::new(0, 0, 0),
            end: Vec3::new(0, 85, 0),
            radius: 50,
        },
    );
    e.ccd = Some(Ccd { enabled: true });
    e
}

/// Builds the light entity.
pub fn light_entity() -> (e: Entity)
    ensures
        is_light(e),
{
    let mut e = Entity::empty();
    e.point_light = Some(PointLight { intensity: 1500000, shadows_enabled: true });
    e.transform = Transform::from_translation(Vec3::new(400, 800, 400));
    e
}

/// Builds the camera entity.
pub fn camera_rig_entity() -> (e: Entity)
    ensures
        is_camera_rig(e),
{
    let mut e = Entity::empty();
    e.camera = Some(CameraKind::Perspective);
    e.transform = Transform {
        translation: Vec3::new(-200, 250, 500),
        scale: Vec3::new(100, 100, 100),
        facing: Some(Facing { target: Vec3::zero(), up: Vec3::new(0, 100, 0) }),
    };
    e.camera_rig = Some(
        ThirdPersonCamera {
            target_offset: Vec3::new(0, 150, 0),
            position_offset: Vec3::new(0, 80, 0),
        },
    );
    e
}

/// The scene bootstrap: spawns the debug polyline, the ground, the player
/// avatar, the light and the camera, in that order, after whatever the world
/// already holds, and inserts the movement resource at heading zero. Each run
/// spawns a fresh set of the five entities; nothing already in the world is
/// touched.
pub fn setup(world: &mut World)
    ensures
        setup_appended(old(world).entities@, final(world).entities@),
        final(world).movement == Some(initial_movement()),
{
    world.entities.push(debug_polyline_entity());
    world.entities.push(ground_entity());
    world.entities.push(player_avatar_entity());
    world.entities.push(light_entity());
    world.entities.push(camera_rig_entity());
    world.movement = Some(Movement { angle: Angle::Radians(0) });
    proof {
        assert(world.entities@.subrange(0, old(world).entities@.len() as int) =~= old(
            world,
        ).entities@);
    }
}

} // verus!
