//! How a scene is drawn: the kind of picture, the projection, the shading, and
//! the options that turn hidden-face removal and the depth buffer on or off.

use vstd::prelude::*;

verus! {

/// What is drawn of each model.
#[derive(Debug, PartialEq, Eq, Structural, Clone, Copy)]
pub enum RenderType {
    /// Only the edges of the faces.
    WireFrame,
    /// The faces, with material and texture.
    Solid,
}

impl Default for RenderType {
    fn default() -> (r: Self)
        ensures
            r == RenderType::WireFrame,
    {
        RenderType::WireFrame
    }
}

/// How the camera projects the scene.
#[derive(Debug, PartialEq, Eq, Structural, Clone, Copy)]
pub enum ProjectionType {
    /// Parallel (orthographic) projection.
    Parallel,
    /// Perspective projection.
    Perspective,
}

impl Default for ProjectionType {
    fn default() -> (p: Self)
        ensures
            p == ProjectionType::Perspective,
    {
        ProjectionType::Perspective
    }
}

/// The name of a projection that the editor shows.
pub open spec fn projection_label(p: ProjectionType) -> Seq<char> {
    match p {
        ProjectionType::Parallel => "Параллельная"@,
        ProjectionType::Perspective => "Перспективная"@,
    }
}

impl ProjectionType {
    /// The name of the projection, as [`projection_label`] gives it.
    pub fn label(&self) -> (s: &'static str)
        ensures
            s@ == projection_label(*self),
    {
        match self {
            ProjectionType::Parallel => "Параллельная",
            ProjectionType::Perspective => "Перспективная",
        }
    }
}

/// How the light changes the look of a material.
#[derive(Debug, PartialEq, Eq, Structural, Clone, Copy)]
pub enum ShadingType {
    /// No shading.
    Unshaded,
    /// Gouraud shading of the Lambert model.
    Gouraud,
    /// Phong shading of the toon model.
    Phong,
}

impl Default for ShadingType {
    fn default() -> (s: Self)
        ensures
            s == ShadingType::Unshaded,
    {
        ShadingType::Unshaded
    }
}

/// All the settings with which a scene is drawn.
#[derive(Debug, PartialEq, Eq, Structural, Clone, Copy)]
pub struct RenderOptions {
    pub render_type: RenderType,
    pub projection_type: ProjectionType,
    pub shading_type: ShadingType,
    pub backface_culling: bool,
    pub z_buffer_enabled: bool,
}

impl Default for RenderOptions {
    /// Each setting at its own default; hidden faces are kept and no depth buffer is used.
    fn default() -> (o: Self)
        ensures
            o.render_type == RenderType::WireFrame,
            o.projection_type == ProjectionType::Perspective,
            o.shading_type == ShadingType::Unshaded,
            !o.backface_culling,
            !o.z_buffer_enabled,
    {
        RenderOptions {
            render_type: RenderType::default(),
            projection_type: ProjectionType::default(),
            shading_type: ShadingType::default(),
            backface_culling: false,
            z_buffer_enabled: false,
        }
    }
}

} // verus!
