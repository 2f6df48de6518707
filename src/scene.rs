use vstd::prelude::*;
use crate::transform::Vec3Fx;

verus! {

/// What the scene needs to create one mesh: the path of its texture and
/// its placement, in fixed-point values.
#[derive(Clone, Copy, Debug)]
pub struct MeshConfig {
    pub path: &'static str,
    pub scale: Vec3Fx,
    pub translation: Vec3Fx,
}

/// The vector with components `x`, `y` and `z` (each within `i32`).
pub open spec fn v3(x: int, y: int, z: int) -> Vec3Fx {
    Vec3Fx { x: x as i32, y: y as i32, z: z as i32 }
}

/// The meshes of the scene, in draw order.
pub fn scene_meshes() -> (r: Vec<MeshConfig>)
    ensures
        r@.len() == 2,
        r@[0].path@ == "./assets/icon_ethenium.png"@,
        r@[0].scale == v3(1000, 1100, 1000),
        r@[0].translation == v3(-1100, -100, -400),
        r@[1].path@ == "./assets/icon_voice.png"@,
        r@[1].scale == v3(900, 900, 1000),
        r@[1].translation == v3(-260, -25, 12),
{
    vec![
        MeshConfig {
            path: "./assets/icon_ethenium.png",
            scale: Vec3Fx { x: 1000, y: 1100, z: 1000 },
            translation: Vec3Fx { x: -1100, y: -100, z: -400 },
        },
        MeshConfig {
            path: "./assets/icon_voice.png",
            scale: Vec3Fx { x: 900, y: 900, z: 1000 },
            translation: Vec3Fx { x: -260, y: -25, z: 12 },
        },
    ]
}

} // verus!
