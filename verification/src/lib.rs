// Scene bootstrap for a small 3D game: builds the initial entity set (a debug
// polyline, a ground plane, a player avatar, a point light and a follow camera)
// and the process-wide movement resource, as plain data that an engine runtime
// consumes. All real-valued engine quantities (lengths, offsets, widths, colour
// channels, light intensity, angles) are held in hundredths, so a length of
// 1.5 world units is stored as 150.

use vstd::prelude::*;

mod geometry;
mod components;
mod scene;
mod laws;
mod wiring;

pub use geometry::Vec3;
pub use geometry::Angle;
pub use geometry::Color;
pub use components::Facing;
pub use components::Transform;
pub use components::identity_transform;
pub use components::MeshShape;
pub use components::ColliderShape;
pub use components::RigidBodyKind;
pub use components::Velocity;
pub use components::zero_velocity;
pub use components::LockedAxes;
pub use components::rotation_locked_axes;
pub use components::Ccd;
pub use components::PointLight;
pub use components::CameraKind;
pub use components::ThirdPersonController;
pub use components::ThirdPersonCamera;
pub use components::PolylineDesc;
pub use components::SceneAsset;
pub use components::Movement;
pub use components::SpaceShip;
pub use scene::Entity;
pub use scene::World;
pub use scene::empty_entity;
pub use scene::is_debug_polyline;
pub use scene::is_ground;
pub use scene::is_player_avatar;
pub use scene::is_light;
pub use scene::is_camera_rig;
pub use scene::avatar_asset_path;
pub use scene::initial_movement;
pub use scene::setup_appended;
pub use scene::debug_polyline_entity;
pub use scene::ground_entity;
pub use scene::player_avatar_entity;
pub use scene::light_entity;
pub use scene::camera_rig_entity;
pub use scene::setup;
pub use laws::count_matching;
pub use laws::ground_pred;
pub use laws::player_avatar_pred;
pub use laws::light_pred;
pub use laws::camera_rig_pred;
pub use laws::debug_polyline_pred;
pub use laws::count_ground;
pub use laws::count_player_avatar;
pub use laws::count_light;
pub use laws::count_camera_rig;
pub use laws::count_debug_polyline;
pub use laws::setup_block;
pub use laws::lemma_count_matching_add;
pub use laws::lemma_setup_adds_one_of_each;
pub use laws::lemma_fresh_setup_exactly_one_of_each;
pub use laws::lemma_setup_twice_doubles;
pub use wiring::PresentModeChoice;
pub use wiring::EnginePlugin;
pub use wiring::AppConfig;
pub use wiring::expected_plugins;
pub use wiring::configure_app;

verus! {

} // verus!
