use quad_scene::frame::{
    draw_commands, frame_commands, FrameCommand, GpuCommand, DRAW_INDEX_COUNT, TEXTURE_LOCATION,
};
use quad_scene::geometry::{
    quad_indices, quad_vertices, vertex_data, QuadVertex, QUAD_INDEX_COUNT, QUAD_VERTEX_COUNT,
    VERTEX_STRIDE,
};
use quad_scene::pipeline::{pipeline_settings, Blend, DepthCompare, VertexAttribute};
use quad_scene::scene::scene_meshes;
use quad_scene::transform::{Mat4Fx, Vec3Fx, Vec4Fx, ONE};

fn count(cmds: &[FrameCommand], c: GpuCommand) -> usize {
    cmds.iter().filter(|f| f.command == c).count()
}

#[test]
fn quad_has_four_corners_and_two_triangles() {
    let v = quad_vertices();
    let i = quad_indices();
    assert_eq!(v.len(), QUAD_VERTEX_COUNT);
    assert_eq!(i.len(), QUAD_INDEX_COUNT as usize);
    assert_eq!(i, vec![0, 1, 2, 2, 3, 0]);
    let corners: Vec<(i8, i8)> = v.iter().map(|c| (c.x, c.y)).collect();
    assert_eq!(corners, vec![(-1, -1), (-1, 1), (1, 1), (1, -1)]);
    for c in &v {
        assert_eq!(c.z, 0);
        assert_eq!(2 * c.u as i8, c.x + 1);
        assert_eq!(2 * c.v as i8, c.y + 1);
    }
    for t in 0..2 {
        let a = v[i[3 * t] as usize];
        let b = v[i[3 * t + 1] as usize];
        let c = v[i[3 * t + 2] as usize];
        let area2 = (b.x - a.x) as i32 * (c.y - a.y) as i32 - (b.y - a.y) as i32 * (c.x - a.x) as i32;
        assert_eq!(area2.abs(), 4);
    }
}

#[test]
fn vertex_data_interleaves_position_and_uv() {
    let d = vertex_data();
    assert_eq!(d.len(), QUAD_VERTEX_COUNT * VERTEX_STRIDE);
    assert_eq!(
        d,
        vec![-1, -1, 0, 0, 0, -1, 1, 0, 0, 1, 1, 1, 0, 1, 1, 1, -1, 0, 1, 0]
    );
}

#[test]
fn uv_origin_corner_flips_to_top() {
    let v = quad_vertices();
    let origin: Vec<&QuadVertex> = v.iter().filter(|c| c.u == 0 && c.v == 0).collect();
    assert_eq!(origin.len(), 1);
    assert_eq!(origin[0].y, -1);
    // The vertex stage negates y before applying the model matrix.
    let flipped = -(origin[0].y as i32);
    assert_eq!(flipped, 1);
}

#[test]
fn uniform_data_is_column_major() {
    let m = Mat4Fx::from_scale_translation(
        Vec3Fx { x: 1000, y: 1100, z: 1000 },
        Vec3Fx { x: -1100, y: -100, z: -400 },
    );
    assert_eq!(
        m.to_cols_array(),
        [1000, 0, 0, 0, 0, 1100, 0, 0, 0, 0, 1000, 0, -1100, -100, -400, ONE]
    );
}

#[test]
fn cols_round_trip_is_exact() {
    let m = Mat4Fx {
        x_axis: Vec4Fx { x: 1, y: 2, z: 3, w: 4 },
        y_axis: Vec4Fx { x: 5, y: 6, z: 7, w: 8 },
        z_axis: Vec4Fx { x: 9, y: 10, z: 11, w: 12 },
        w_axis: Vec4Fx { x: -13, y: i32::MAX, z: i32::MIN, w: 0 },
    };
    let a = m.to_cols_array();
    assert_eq!(a[4 * 3 + 1], i32::MAX);
    assert_eq!(Mat4Fx::from_cols_array(&a), m);
    let t = Mat4Fx::from_scale_translation(
        Vec3Fx { x: 900, y: 900, z: 1000 },
        Vec3Fx { x: -260, y: -25, z: 12 },
    );
    assert_eq!(Mat4Fx::from_cols_array(&t.to_cols_array()), t);
}

#[test]
fn unit_scale_without_translation_is_identity() {
    let m = Mat4Fx::from_scale_translation(
        Vec3Fx { x: ONE, y: ONE, z: ONE },
        Vec3Fx { x: 0, y: 0, z: 0 },
    );
    let a = m.to_cols_array();
    for col in 0..4 {
        for row in 0..4 {
            assert_eq!(a[4 * col + row], if row == col { ONE } else { 0 });
        }
    }
}

#[test]
fn draw_skips_texture_while_pending() {
    let d = draw_commands(false);
    assert_eq!(
        d,
        vec![
            GpuCommand::BeginPass,
            GpuCommand::SetPipeline,
            GpuCommand::BindBuffers,
            GpuCommand::Draw { first: 0, count: 6 },
            GpuCommand::EndPass,
            GpuCommand::Submit,
        ]
    );
}

#[test]
fn draw_binds_texture_once_loaded() {
    let d = draw_commands(true);
    assert_eq!(
        d,
        vec![
            GpuCommand::BeginPass,
            GpuCommand::SetPipeline,
            GpuCommand::BindTexture { location: 0 },
            GpuCommand::BindBuffers,
            GpuCommand::Draw { first: 0, count: 6 },
            GpuCommand::EndPass,
            GpuCommand::Submit,
        ]
    );
}

#[test]
fn scene_has_two_meshes_in_order() {
    let m = scene_meshes();
    assert_eq!(m.len(), 2);
    assert_eq!(m[0].path, "./assets/icon_ethenium.png");
    assert_eq!(m[0].scale, Vec3Fx { x: 1000, y: 1100, z: 1000 });
    assert_eq!(m[0].translation, Vec3Fx { x: -1100, y: -100, z: -400 });
    assert_eq!(m[1].path, "./assets/icon_voice.png");
    assert_eq!(m[1].scale, Vec3Fx { x: 900, y: 900, z: 1000 });
    assert_eq!(m[1].translation, Vec3Fx { x: -260, y: -25, z: 12 });
}

#[test]
fn one_mesh_frame_writes_draws_and_submits_once() {
    let m = Mat4Fx::from_scale_translation(
        Vec3Fx { x: ONE, y: ONE, z: ONE },
        Vec3Fx { x: 0, y: 0, z: 0 },
    );
    assert_eq!(m.to_cols_array()[0], ONE);
    let f = frame_commands(&vec![true]);
    assert_eq!(f.len(), 8);
    assert!(f.iter().all(|c| c.mesh == 0));
    assert_eq!(f[0].command, GpuCommand::WriteTransform);
    assert_eq!(count(&f, GpuCommand::WriteTransform), 1);
    assert_eq!(count(&f, GpuCommand::Submit), 1);
    assert_eq!(count(&f, GpuCommand::Draw { first: 0, count: DRAW_INDEX_COUNT }), 1);
    assert_eq!(DRAW_INDEX_COUNT, 6);
    assert_eq!(
        count(&f, GpuCommand::BindTexture { location: TEXTURE_LOCATION }),
        1
    );
}

#[test]
fn empty_scene_frame_has_no_commands() {
    assert!(frame_commands(&vec![]).is_empty());
}

#[test]
fn frame_keeps_mesh_order_and_skips_pending_textures() {
    let f = frame_commands(&vec![false, true, false]);
    assert_eq!(f.len(), 7 + 8 + 7);
    let writes: Vec<usize> = f
        .iter()
        .filter(|c| c.command == GpuCommand::WriteTransform)
        .map(|c| c.mesh)
        .collect();
    assert_eq!(writes, vec![0, 1, 2]);
    let binds: Vec<usize> = f
        .iter()
        .filter(|c| matches!(c.command, GpuCommand::BindTexture { .. }))
        .map(|c| c.mesh)
        .collect();
    assert_eq!(binds, vec![1]);
    assert_eq!(count(&f, GpuCommand::Submit), 3);
    assert_eq!(f[7], FrameCommand { mesh: 1, command: GpuCommand::WriteTransform });
    assert_eq!(f[21], FrameCommand { mesh: 2, command: GpuCommand::Submit });
}

#[test]
fn pipeline_uses_depth_less_and_alpha_blending() {
    let p = pipeline_settings();
    assert!(p.depth_write);
    assert_eq!(p.depth_compare, DepthCompare::Less);
    assert_eq!(p.blend, Blend::Alpha);
    assert_eq!(
        p.attributes,
        vec![
            VertexAttribute { location: 0, components: 3 },
            VertexAttribute { location: 1, components: 2 },
        ]
    );
    assert_eq!(p.texture_location, 0);
    assert_eq!(p.texture_name, "u_texture");
}
