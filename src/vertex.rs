//! Resolved vertices: each face corner becomes one of three shapes, holding
//! copies of the records it refers to.
use vstd::prelude::*;
use crate::vector::{Vec3, Vec4};

verus! {

/// A vertex with a position, a normal and a texture coordinate.
#[derive(Debug)]
pub struct VertexPositionNormalTexture {
    pub position: Vec4,
    pub normal: Vec3,
    pub texture: Vec3,
}

/// A vertex with a position and a texture coordinate.
#[derive(Debug)]
pub struct VertexPositionTexture {
    pub position: Vec4,
    pub texture: Vec3,
}

/// A vertex with a position and a normal.
#[derive(Debug)]
pub struct VertexPositionNormal {
    pub position: Vec4,
    pub normal: Vec3,
}

/// One resolved face corner.
#[derive(Debug)]
pub enum Vertex {
    PositionNormalTexture(VertexPositionNormalTexture),
    PositionTexture(VertexPositionTexture),
    PositionNormal(VertexPositionNormal),
}

/// The abstract value of a `Vertex`: the components of the records it holds.
pub enum VertexView {
    PositionNormalTexture {
        position: Seq<Seq<char>>,
        normal: Seq<Seq<char>>,
        texture: Seq<Seq<char>>,
    },
    PositionTexture { position: Seq<Seq<char>>, texture: Seq<Seq<char>> },
    PositionNormal { position: Seq<Seq<char>>, normal: Seq<Seq<char>> },
}

impl View for Vertex {
    type V = VertexView;

    open spec fn view(&self) -> VertexView {
        match self {
            Vertex::PositionNormalTexture(v) => VertexView::PositionNormalTexture {
                position: v.position@,
                normal: v.normal@,
                texture: v.texture@,
            },
            Vertex::PositionTexture(v) => VertexView::PositionTexture {
                position: v.position@,
                texture: v.texture@,
            },
            Vertex::PositionNormal(v) => VertexView::PositionNormal {
                position: v.position@,
                normal: v.normal@,
            },
        }
    }
}

/// The views of a sequence of vertices.
pub open spec fn vertex_views(vs: Seq<Vertex>) -> Seq<VertexView> {
    vs.map_values(|v: Vertex| v@)
}

} // verus!
