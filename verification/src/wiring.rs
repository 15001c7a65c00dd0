use vstd::prelude::*;

verus! {

/// How the window presents frames: with or without waiting for vertical sync.
#[derive(Clone, Copy, Debug, PartialEq, Eq, Structural)]
pub enum PresentModeChoice {
    AutoVsync,
    AutoNoVsync,
}

/// The engine plugins the bootstrap registers, besides the engine's defaults.
#[derive(Clone, Copy, Debug, PartialEq, Eq, Structural)]
pub enum EnginePlugin {
    /// The engine's own default plugin set (windowing, rendering, input, assets).
    Defaults,
    /// Rigid-body physics simulation.
    Physics,
    /// Wireframe rendering of the physics colliders.
    PhysicsDebugRender,
    /// An inspector window over the live entity set.
    WorldInspector,
    /// The polyline renderer.
    Polyline,
    /// The third-person controller and camera.
    ThirdPersonController,
}

/// What the application registers before the first frame: the window's
/// present mode and the plugins, in registration order.
#[derive(Clone, Debug, PartialEq, Eq)]
pub struct AppConfig {
    pub present_mode: PresentModeChoice,
    pub plugins: Vec<EnginePlugin>,
}

/// The plugin registration order the application uses.
pub open spec fn expected_plugins() -> Seq<EnginePlugin> {
    seq![
        EnginePlugin::Defaults,
        EnginePlugin::Physics,
        EnginePlugin::PhysicsDebugRender,
        EnginePlugin::WorldInspector,
        EnginePlugin::Polyline,
        EnginePlugin::ThirdPersonController,
    ]
}

/// Builds the application configuration: vertical sync off, and the default,
/// physics, physics-debug-render, inspector, polyline and third-person
/// plugins, registered in that order.
pub fn configure_app() -> (c: AppConfig)
    ensures
        c.present_mode == PresentModeChoice::AutoNoVsync,
        c.plugins@ == expected_plugins(),
{
    let mut plugins: Vec<EnginePlugin> = Vec::new();
    plugins.push(EnginePlugin::Defaults);
    plugins.push(EnginePlugin::Physics);
    plugins.push(EnginePlugin::PhysicsDebugRender);
    plugins.push(EnginePlugin::WorldInspector);
    plugins.push(EnginePlugin::Polyline);
    plugins.push(EnginePlugin::ThirdPersonController);
    proof {
        assert(plugins@ =~= expected_plugins());
    }
    AppConfig { present_mode: PresentModeChoice::AutoNoVsync, plugins }
}

} // verus!
