//! The ordered draw passes of one frame. Scene geometry is drawn into the
//! intermediate HDR target with depth testing; the tonemap pass then resolves
//! that target into the presentable image and always comes last.
use vstd::prelude::*;

verus! {

/// The body class or stage a pass draws.
#[derive(Clone, Copy, Debug, PartialEq, Eq, Structural)]
pub enum Pass {
    Planets,
    Sun,
    Ring,
    Skybox,
    ToneMap,
}

/// The geometry a pass draws.
#[derive(Clone, Copy, Debug, PartialEq, Eq, Structural)]
pub enum Mesh {
    /// The shared sphere mesh, with an instance buffer.
    Sphere,
    /// The ring mesh, with an instance buffer.
    Ring,
    /// One triangle covering the screen, generated in the shader.
    FullScreenTriangle,
}

/// How a pass uses the shared depth buffer.
#[derive(Clone, Copy, Debug, PartialEq, Eq, Structural)]
pub enum Depth {
    /// Less-than test, writes depth.
    TestAndWrite,
    /// Tested against what is there, never written.
    TestOnly,
    /// No depth attachment.
    Off,
}

/// One draw pass: what it draws, how many instances, its depth use, and the
/// bind-group slots of its material, of the frame's camera uniform and of the
/// frame's lighting.
#[derive(Clone, Copy, Debug, PartialEq, Eq, Structural)]
pub struct DrawStep {
    pub pass: Pass,
    pub mesh: Mesh,
    pub instances: u32,
    pub depth: Depth,
    pub material_slot: u32,
    pub camera_slot: Option<u32>,
    pub light_slot: Option<u32>,
}

pub open spec fn body_step(pass: Pass, mesh: Mesh, instances: u32) -> DrawStep {
    DrawStep {
        pass,
        mesh,
        instances,
        depth: Depth::TestAndWrite,
        material_slot: 0,
        camera_slot: Some(1),
        light_slot: Some(2),
    }
}

pub open spec fn skybox_step() -> DrawStep {
    DrawStep {
        pass: Pass::Skybox,
        mesh: Mesh::FullScreenTriangle,
        instances: 1,
        depth: Depth::TestOnly,
        material_slot: 1,
        camera_slot: Some(0),
        light_slot: None,
    }
}

pub open spec fn tonemap_step() -> DrawStep {
    DrawStep {
        pass: Pass::ToneMap,
        mesh: Mesh::FullScreenTriangle,
        instances: 1,
        depth: Depth::Off,
        material_slot: 0,
        camera_slot: None,
        light_slot: None,
    }
}

/// The passes of one frame, in order: opaque planets, sun, ring, skybox,
/// tonemap.
pub open spec fn frame_plan(planet_count: u32) -> Seq<DrawStep> {
    seq![
        body_step(Pass::Planets, Mesh::Sphere, planet_count),
        body_step(Pass::Sun, Mesh::Sphere, 1),
        body_step(Pass::Ring, Mesh::Ring, 1),
        skybox_step(),
        tonemap_step(),
    ]
}

/// The passes of a frame that draws `planet_count` planet instances.
pub fn plan_frame(planet_count: u32) -> (r: Vec<DrawStep>)
    ensures
        r@ == frame_plan(planet_count),
{
    let mut steps: Vec<DrawStep> = Vec::new();
    steps.push(
        DrawStep {
            pass: Pass::Planets,
            mesh: Mesh::Sphere,
            instances: planet_count,
            depth: Depth::TestAndWrite,
            material_slot: 0,
            camera_slot: Some(1),
            light_slot: Some(2),
        },
    );
    steps.push(
        DrawStep {
            pass: Pass::Sun,
            mesh: Mesh::Sphere,
            instances: 1,
            depth: Depth::TestAndWrite,
            material_slot: 0,
            camera_slot: Some(1),
            light_slot: Some(2),
        },
    );
    steps.push(
        DrawStep {
            pass: Pass::Ring,
            mesh: Mesh::Ring,
            instances: 1,
            depth: Depth::TestAndWrite,
            material_slot: 0,
            camera_slot: Some(1),
            light_slot: Some(2),
        },
    );
    steps.push(
        DrawStep {
            pass: Pass::Skybox,
            mesh: Mesh::FullScreenTriangle,
            instances: 1,
            depth: Depth::TestOnly,
            material_slot: 1,
            camera_slot: Some(0),
            light_slot: None,
        },
    );
    steps.push(
        DrawStep {
            pass: Pass::ToneMap,
            mesh: Mesh::FullScreenTriangle,
            instances: 1,
            depth: Depth::Off,
            material_slot: 0,
            camera_slot: None,
            light_slot: None,
        },
    );
    assert(steps@ =~= frame_plan(planet_count));
    steps
}

/// In every frame the tonemap pass is the last and the only one without
/// depth; every scene pass binds the frame's camera uniform and is depth
/// tested, and only the skybox leaves depth unwritten.
pub proof fn lemma_frame_plan_shape(planet_count: u32, k: int)
    requires
        0 <= k < frame_plan(planet_count).len(),
    ensures
        frame_plan(planet_count).len() == 5,
        frame_plan(planet_count).last().pass == Pass::ToneMap,
        (frame_plan(planet_count)[k].depth == Depth::Off) == (k == 4),
        k < 4 ==> frame_plan(planet_count)[k].camera_slot.is_some(),
        (frame_plan(planet_count)[k].depth == Depth::TestOnly) == (frame_plan(
            planet_count,
        )[k].pass == Pass::Skybox),
{
}

} // verus!
