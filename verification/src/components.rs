use vstd::prelude::*;
use crate::geometry::Angle;
use crate::geometry::Color;
use crate::geometry::Vec3;

verus! {

/// An orientation given as a point to face and an up direction; the engine
/// turns it into a rotation at runtime.
#[derive(Clone, Copy, Debug, PartialEq, Eq, Structural)]
pub struct Facing {
    pub target: Vec3,
    pub up: Vec3,
}

/// Where an entity sits: a translation, a per-axis scale, and an optional
/// facing. A fresh transform is the identity: zero translation, unit scale,
/// no facing.
#[derive(Clone, Copy, Debug, PartialEq, Eq, Structural)]
pub struct Transform {
    pub translation: Vec3,
    pub scale: Vec3,
    pub facing: Option<Facing>,
}

impl Transform {
    /// The identity transform.
    pub fn identity() -> (t: Transform)
        ensures
            t == identity_transform(),
    {
        Transform { translation: Vec3::zero(), scale: Vec3::one(), facing: None }
    }

    /// The identity transform moved to the given translation.
    pub fn from_translation(translation: Vec3) -> (t: Transform)
        ensures
            t == (Transform { translation, scale: (Vec3 { x: 100, y: 100, z: 100 }), facing: None }),
    {
        Transform { translation, scale: Vec3::one(), facing: None }
    }
}

/// The identity transform as a value: zero translation, unit scale, no facing.
pub open spec fn identity_transform() -> Transform {
    Transform {
        translation: Vec3 { x: 0, y: 0, z: 0 },
        scale: Vec3 { x: 100, y: 100, z: 100 },
        facing: None,
    }
}

/// A visual mesh shape; only a square plane of a given side length is needed.
#[derive(Clone, Copy, Debug, PartialEq, Eq, Structural)]
pub enum MeshShape {
    Plane { size: i64 },
}

/// Collision geometry attached to an entity. A collider on an entity without
/// a rigid body is static scenery.
#[derive(Clone, Copy, Debug, PartialEq, Eq, Structural)]
pub enum ColliderShape {
    /// A box given by its half-extents along each axis.
    Cuboid { half_x: i64, half_y: i64, half_z: i64 },
    /// A capsule between two segment endpoints, with a radius.
    Capsule { start: Vec3, end: Vec3, radius: i64 },
}

/// How the physics plugin drives a body.
#[derive(Clone, Copy, Debug, PartialEq, Eq, Structural)]
pub enum RigidBodyKind {
    /// Integrated from forces and impulses.
    Dynamic,
    /// Never moves.
    Fixed,
    /// Driven by writing its position from game logic.
    KinematicPositionBased,
    /// Driven by writing its velocity from game logic.
    KinematicVelocityBased,
}

/// Linear and angular velocity.
#[derive(Clone, Copy, Debug, PartialEq, Eq, Structural)]
pub struct Velocity {
    pub linear: Vec3,
    pub angular: Vec3,
}

impl Velocity {
    /// A body at rest.
    pub fn zero() -> (v: Velocity)
        ensures
            v == zero_velocity(),
    {
        Velocity { linear: Vec3::zero(), angular: Vec3::zero() }
    }
}

/// The velocity of a body at rest.
pub open spec fn zero_velocity() -> Velocity {
    Velocity { linear: Vec3 { x: 0, y: 0, z: 0 }, angular: Vec3 { x: 0, y: 0, z: 0 } }
}

/// Which degrees of freedom the physics plugin must not change.
#[derive(Clone, Copy, Debug, PartialEq, Eq, Structural)]
pub struct LockedAxes {
    pub translation_x: bool,
    pub translation_y: bool,
    pub translation_z: bool,
    pub rotation_x: bool,
    pub rotation_y: bool,
    pub rotation_z: bool,
}

impl LockedAxes {
    /// Rotation locked on all three axes; translation left free.
    pub fn rotation_locked() -> (a: LockedAxes)
        ensures
            a == rotation_locked_axes(),
    {
        LockedAxes {
            translation_x: false,
            translation_y: false,
            translation_z: false,
            rotation_x: true,
            rotation_y: true,
            rotation_z: true,
        }
    }
}

/// The axis lock that pins every rotation axis and no translation axis.
pub open spec fn rotation_locked_axes() -> LockedAxes {
    LockedAxes {
        translation_x: false,
        translation_y: false,
        translation_z: false,
        rotation_x: true,
        rotation_y: true,
        rotation_z: true,
    }
}

/// Continuous collision detection: when enabled, a fast body cannot tunnel
/// through a thin collider within one simulation step.
#[derive(Clone, Copy, Debug, PartialEq, Eq, Structural)]
pub struct Ccd {
    pub enabled: bool,
}

/// A point light. Intensity is in hundredths, like every other quantity.
#[derive(Clone, Copy, Debug, PartialEq, Eq, Structural)]
pub struct PointLight {
    pub intensity: i64,
    pub shadows_enabled: bool,
}

/// The projection a camera entity renders with.
#[derive(Clone, Copy, Debug, PartialEq, Eq, Structural)]
pub enum CameraKind {
    Perspective,
}

/// Marker for the third-person controller plugin, attached to the avatar it
/// drives; every controller setting is left at the plugin's default.
#[derive(Clone, Copy, Debug, PartialEq, Eq, Structural)]
pub struct ThirdPersonController;

/// Configuration for the third-person camera plugin: where on the avatar the
/// camera aims, and how the camera itself is offset while trailing it.
#[derive(Clone, Copy, Debug, PartialEq, Eq, Structural)]
pub struct ThirdPersonCamera {
    pub target_offset: Vec3,
    pub position_offset: Vec3,
}

/// A debug line segment between two endpoints, drawn with a width, a colour,
/// and optionally perspective-correct thinning with distance.
#[derive(Clone, Copy, Debug, PartialEq, Eq, Structural)]
pub struct PolylineDesc {
    pub start: Vec3,
    pub end: Vec3,
    pub width: i64,
    pub color: Color,
    pub perspective: bool,
}

/// A 3D model asset reference: a path the engine's asset loader resolves, and
/// the index of the scene to instantiate from it.
#[derive(Clone, Debug, PartialEq, Eq)]
pub struct SceneAsset {
    pub path: String,
    pub scene_index: usize,
}

/// The process-wide movement resource: the avatar's planar heading.
#[derive(Clone, Copy, Debug, PartialEq, Eq, Structural)]
pub struct Movement {
    pub angle: Angle,
}

/// Marker for the player's craft, for systems that single it out.
#[derive(Clone, Copy, Debug, PartialEq, Eq, Structural)]
pub struct SpaceShip;

} // verus!
