use vstd::prelude::*;
use crate::geometry::VERTEX_STRIDE;
use crate::frame::TEXTURE_LOCATION;

verus! {

/// How a fragment's depth is compared with the depth already stored.
#[derive(Clone, Copy, Debug, PartialEq, Eq, Structural)]
pub enum DepthCompare {
    Never,
    Less,
    Equal,
    LessEqual,
    Greater,
    NotEqual,
    GreaterEqual,
    Always,
}

/// How a fragment's colour is combined with the colour already stored.
#[derive(Clone, Copy, Debug, PartialEq, Eq, Structural)]
pub enum Blend {
    /// The fragment replaces what is stored.
    Replace,
    /// Standard alpha blending: source over destination.
    Alpha,
}

/// One attribute of the vertex layout: the shader location it feeds and
/// how many 32-bit floats it reads.
#[derive(Clone, Copy, Debug, PartialEq, Eq, Structural)]
pub struct VertexAttribute {
    pub location: u32,
    pub components: usize,
}

/// The fixed-function state and bindings of the scene's pipeline.
#[derive(Clone, Debug)]
pub struct PipelineSettings {
    pub depth_write: bool,
    pub depth_compare: DepthCompare,
    pub blend: Blend,
    pub attributes: Vec<VertexAttribute>,
    pub texture_location: u32,
    pub texture_name: &'static str,
}

/// The vertex layout: location 0 reads the three position values, location
/// 1 the two texture coordinates.
pub open spec fn vertex_layout() -> Seq<VertexAttribute> {
    seq![VertexAttribute { location: 0, components: 3 }, VertexAttribute { location: 1, components: 2 }]
}

/// The settings of the scene's pipeline: depth test with less-than and
/// depth writes, alpha blending, the quad's vertex layout, and the
/// fragment shader's sampler at the texture location meshes bind to.
pub fn pipeline_settings() -> (r: PipelineSettings)
    ensures
        r.depth_write,
        r.depth_compare == DepthCompare::Less,
        r.blend == Blend::Alpha,
        r.attributes@ == vertex_layout(),
        r.attributes@[0].components + r.attributes@[1].components == VERTEX_STRIDE,
        r.texture_location == TEXTURE_LOCATION,
        r.texture_name@ == "u_texture"@,
{
    PipelineSettings {
        depth_write: true,
        depth_compare: DepthCompare::Less,
        blend: Blend::Alpha,
        attributes: vec![
            VertexAttribute { location: 0, components: 3 },
            VertexAttribute { location: 1, components: 2 },
        ],
        texture_location: TEXTURE_LOCATION,
        texture_name: "u_texture",
    }
}

} // verus!
