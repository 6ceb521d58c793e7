//! The settings of the scene renderer and of its shaders, and the choice of the
//! faces that are drawn once hidden faces are removed.

use vstd::prelude::*;
use crate::color::Color;
use crate::obj::polygons_view;
use crate::polygon::Polygon3;
use crate::topology::{indices_within, polygons_within};
pub use crate::scene::ProjectionType;

verus! {

/// How the light changes the look of a material.
#[derive(Debug, PartialEq, Eq, Structural, Clone, Copy)]
pub enum ShadingType {
    /// No shading.
    Unshaded,
    /// Gouraud shading of the Lambert model.
    GouraudLambert,
    /// Phong shading of the toon model, with the given number of tones.
    PhongToonShading(usize),
}

impl Default for ShadingType {
    fn default() -> (s: Self)
        ensures
            s == ShadingType::Unshaded,
    {
        ShadingType::Unshaded
    }
}

/// The name of a shading that the editor shows.
pub open spec fn shading_label(s: ShadingType) -> Seq<char> {
    match s {
        ShadingType::Unshaded => "Отсутсвует"@,
        ShadingType::GouraudLambert => "Гуро для модели Ламберта"@,
        ShadingType::PhongToonShading(_) => "Фонга для модели туншейдинг"@,
    }
}

impl ShadingType {
    /// The name of the shading, as [`shading_label`] gives it.
    pub fn label(&self) -> (s: &'static str)
        ensures
            s@ == shading_label(*self),
    {
        match self {
            ShadingType::Unshaded => "Отсутсвует",
            ShadingType::GouraudLambert => "Гуро для модели Ламберта",
            ShadingType::PhongToonShading(_) => "Фонга для модели туншейдинг",
        }
    }
}

/// What the renderer draws, and how.
#[derive(Debug, PartialEq, Eq, Structural, Clone, Copy)]
pub struct SceneRenderer {
    /// Draw the edges of the faces.
    pub render_wireframe: bool,
    /// Draw the normals of the vertices.
    pub render_normals: bool,
    /// Draw the faces themselves.
    pub render_solid: bool,
    /// The projection of the camera.
    pub projection_type: ProjectionType,
    /// The shading of the faces; it matters only where the faces are drawn.
    pub shading_type: ShadingType,
    /// Leave out the faces turned away from the camera.
    pub backface_culling: bool,
    /// Order the faces by a depth buffer.
    pub z_buffer_enabled: bool,
}

impl Default for SceneRenderer {
    /// Only the wireframe, in perspective, unshaded, with a depth buffer.
    fn default() -> (r: Self)
        ensures
            r.render_wireframe,
            !r.render_normals,
            !r.render_solid,
            r.projection_type == ProjectionType::Perspective,
            r.shading_type == ShadingType::Unshaded,
            !r.backface_culling,
            r.z_buffer_enabled,
    {
        SceneRenderer {
            render_wireframe: true,
            render_normals: false,
            render_solid: false,
            projection_type: ProjectionType::default(),
            shading_type: ShadingType::default(),
            backface_culling: false,
            z_buffer_enabled: true,
        }
    }
}

/// The shader that fills faces with their material and texture.
#[derive(Debug, PartialEq, Eq, Structural, Clone, Copy)]
pub struct SolidShader {
    pub z_buffer_enabled: bool,
}

impl SolidShader {
    pub fn new(z_buffer_enabled: bool) -> (s: Self)
        ensures
            s.z_buffer_enabled == z_buffer_enabled,
    {
        SolidShader { z_buffer_enabled }
    }
}

/// The shader that lights faces by Gouraud's method and Lambert's model.
#[derive(Debug, PartialEq, Eq, Structural, Clone, Copy)]
pub struct GouraudLambertShader {
    pub z_buffer_enabled: bool,
}

impl GouraudLambertShader {
    pub fn new(z_buffer_enabled: bool) -> (s: Self)
        ensures
            s.z_buffer_enabled == z_buffer_enabled,
    {
        GouraudLambertShader { z_buffer_enabled }
    }
}

/// The shader that draws the edges of the faces.
#[derive(Debug, PartialEq, Eq, Structural, Clone, Copy)]
pub struct WireframeShader;

impl WireframeShader {
    pub fn new() -> (s: Self) {
        WireframeShader
    }
}

/// The shader that draws the normals of vertices and faces.
#[derive(Debug, PartialEq, Eq, Structural, Clone, Copy)]
pub struct NormalsShader {
    pub vertex_normal_color: Color,
    pub polygon_normal_color: Color,
}

impl NormalsShader {
    /// Vertex normals in purple, face normals in orange.
    pub fn new() -> (s: Self)
        ensures
            s.vertex_normal_color == (Color { r: 128, g: 0, b: 128, a: 255 }),
            s.polygon_normal_color == (Color { r: 255, g: 165, b: 0, a: 255 }),
    {
        NormalsShader { vertex_normal_color: Color::purple(), polygon_normal_color: Color::orange() }
    }
}

// ----------------------------------------------------------------------
// Hidden faces
// ----------------------------------------------------------------------

/// The faces of `polygons` that are drawn: those that face the camera
/// (`facing[i]` for face `i`), in their order.
pub open spec fn visible_polygons(polygons: Seq<Seq<usize>>, facing: Seq<bool>) -> Seq<Seq<usize>>
    decreases polygons.len(),
{
    if polygons.len() == 0 {
        seq![]
    } else {
        let rest = visible_polygons(polygons.drop_last(), facing.take(polygons.len() - 1));
        if facing[polygons.len() - 1] {
            rest.push(polygons.last())
        } else {
            rest
        }
    }
}

/// Remove the faces that are turned away from the camera.
///
/// Whether a face turns towards the camera depends on the normals and the
/// camera, real numbers that the caller compares: `facing[i]` holds when the sum
/// of the vertex normals of face `i` is not zero and its direction points against
/// the direction from the camera to the face (the direction in which the camera
/// looks in parallel projection; from the camera to the centre of the face in
/// perspective). Every face that faces the camera is kept, whatever its number of
/// vertices.
pub fn model_backface_culling(polygons: &Vec<Polygon3>, facing: &Vec<bool>) -> (visible: Vec<
    Polygon3,
>)
    requires
        facing@.len() == polygons@.len(),
    ensures
        polygons_view(visible@) == visible_polygons(polygons_view(polygons@), facing@),
{
    let mut visible: Vec<Polygon3> = Vec::new();
    let mut i: usize = 0;
    while i < polygons.len()
        invariant
            facing@.len() == polygons@.len(),
            i <= polygons@.len(),
            polygons_view(visible@) == visible_polygons(
                polygons_view(polygons@).take(i as int),
                facing@.take(i as int),
            ),
        decreases polygons.len() - i,
    {
        let ghost all = polygons_view(polygons@);
        let ghost next = all.take(i + 1);
        assert(next.drop_last() =~= all.take(i as int));
        assert(facing@.take(i + 1).take(i as int) =~= facing@.take(i as int));
        assert(next.last() == polygons@[i as int]@);
        if facing[i] {
            let p = polygons[i].clone();
            let ghost before = polygons_view(visible@);
            visible.push(p);
            assert(polygons_view(visible@) =~= before.push(p@));
        }
        i += 1;
    }
    assert(polygons_view(polygons@).take(i as int) =~= polygons_view(polygons@));
    assert(facing@.take(i as int) =~= facing@);
    visible
}

// ----------------------------------------------------------------------
// What a frame draws
// ----------------------------------------------------------------------

/// One pass of a shader over the faces of a model.
#[derive(Debug, PartialEq, Eq, Structural, Clone, Copy)]
pub enum ShaderPass {
    /// Faces filled with material and texture ([`SolidShader`]).
    Solid { z_buffer_enabled: bool },
    /// Faces lit by Gouraud and Lambert ([`GouraudLambertShader`]).
    GouraudLambert { z_buffer_enabled: bool },
    /// Faces lit by Phong in toon style, with the given number of tones.
    PhongToon { z_buffer_enabled: bool, bands: usize },
    /// The edges of the faces ([`WireframeShader`]).
    Wireframe,
    /// The normals of vertices and faces ([`NormalsShader`]).
    Normals,
}

/// The pass that fills the faces, for the given shading.
pub open spec fn fill_pass(shading: ShadingType, z_buffer_enabled: bool) -> ShaderPass {
    match shading {
        ShadingType::Unshaded => ShaderPass::Solid { z_buffer_enabled },
        ShadingType::GouraudLambert => ShaderPass::GouraudLambert { z_buffer_enabled },
        ShadingType::PhongToonShading(bands) => ShaderPass::PhongToon { z_buffer_enabled, bands },
    }
}

/// The passes of the renderer over each model, in order: the filled faces if the
/// faces are drawn, then the wireframe, then the normals.
pub open spec fn shader_passes_spec(r: SceneRenderer) -> Seq<ShaderPass> {
    (if r.render_solid {
        seq![fill_pass(r.shading_type, r.z_buffer_enabled)]
    } else {
        seq![]
    }) + (if r.render_wireframe {
        seq![ShaderPass::Wireframe]
    } else {
        seq![]
    }) + (if r.render_normals {
        seq![ShaderPass::Normals]
    } else {
        seq![]
    })
}

impl SceneRenderer {
    /// The shader passes that draw each model, as [`shader_passes_spec`] gives them.
    pub fn shader_passes(&self) -> (passes: Vec<ShaderPass>)
        ensures
            passes@ == shader_passes_spec(*self),
    {
        let mut passes: Vec<ShaderPass> = Vec::new();
        if self.render_solid {
            let z = self.z_buffer_enabled;
            let pass = match self.shading_type {
                ShadingType::Unshaded => ShaderPass::Solid { z_buffer_enabled: z },
                ShadingType::GouraudLambert => ShaderPass::GouraudLambert { z_buffer_enabled: z },
                ShadingType::PhongToonShading(bands) => ShaderPass::PhongToon {
                    z_buffer_enabled: z,
                    bands,
                },
            };
            passes.push(pass);
        }
        if self.render_wireframe {
            passes.push(ShaderPass::Wireframe);
        }
        if self.render_normals {
            passes.push(ShaderPass::Normals);
        }
        assert(passes@ =~= shader_passes_spec(*self));
        passes
    }

    /// The faces of a model that the renderer draws: with hidden-face removal on,
    /// those that [`model_backface_culling`] keeps; else all of them.
    pub fn polygons_to_draw(&self, polygons: &Vec<Polygon3>, facing: &Vec<bool>) -> (drawn: Vec<
        Polygon3,
    >)
        requires
            facing@.len() == polygons@.len(),
        ensures
            polygons_view(drawn@) == (if self.backface_culling {
                visible_polygons(polygons_view(polygons@), facing@)
            } else {
                polygons_view(polygons@)
            }),
    {
        if self.backface_culling {
            model_backface_culling(polygons, facing)
        } else {
            let mut drawn: Vec<Polygon3> = Vec::new();
            let mut i: usize = 0;
            while i < polygons.len()
                invariant
                    i <= polygons@.len(),
                    polygons_view(drawn@) == polygons_view(polygons@).take(i as int),
                decreases polygons.len() - i,
            {
                let p = polygons[i].clone();
                let ghost before = polygons_view(drawn@);
                drawn.push(p);
                assert(polygons_view(drawn@) =~= before.push(p@));
                assert(polygons_view(polygons@).take(i + 1) =~= before.push(p@));
                i += 1;
            }
            assert(polygons_view(polygons@).take(i as int) =~= polygons_view(polygons@));
            drawn
        }
    }
}

/// The total number of polygons in the lists `ps`.
pub open spec fn total_len(ps: Seq<Vec<Polygon3>>) -> nat
    decreases ps.len(),
{
    if ps.len() == 0 {
        0
    } else {
        total_len(ps.drop_last()) + ps.last()@.len()
    }
}

proof fn lemma_total_len_prefix(ps: Seq<Vec<Polygon3>>, i: int)
    requires
        0 <= i <= ps.len(),
    ensures
        total_len(ps.take(i)) <= total_len(ps),
    decreases ps.len() - i,
{
    if i < ps.len() {
        lemma_total_len_prefix(ps, i + 1);
        assert(ps.take(i + 1).drop_last() =~= ps.take(i));
    } else {
        assert(ps.take(i) =~= ps);
    }
}

impl SceneRenderer {
    /// The faces that a frame draws of each model of a scene, and how many faces it
    /// draws in all (the number that rendering a scene reports: the sum over all
    /// models). Hidden faces are removed as [`model_backface_culling`] does, by the
    /// facing test of the scene renderer alone. `models[i]` are the
    /// faces of model `i` and `facing[i]` tells, face by face, whether it faces the
    /// camera.
    pub fn drawn_polygons(&self, models: &Vec<Vec<Polygon3>>, facing: &Vec<Vec<bool>>) -> (r: (
        Vec<Vec<Polygon3>>,
        usize,
    ))
        requires
            facing@.len() == models@.len(),
            forall|i: int|
                0 <= i < models@.len() ==> facing@[i]@.len() == (#[trigger] models@[i])@.len(),
            total_len(models@) <= usize::MAX,
        ensures
            r.0@.len() == models@.len(),
            forall|i: int|
                0 <= i < models@.len() ==> polygons_view((#[trigger] r.0@[i])@) == (
                if self.backface_culling {
                    visible_polygons(polygons_view(models@[i]@), facing@[i]@)
                } else {
                    polygons_view(models@[i]@)
                }),
            r.1 == total_len(r.0@),
    {
        let mut drawn: Vec<Vec<Polygon3>> = Vec::new();
        let mut count: usize = 0;
        let mut i: usize = 0;
        while i < models.len()
            invariant
                i <= models@.len(),
                facing@.len() == models@.len(),
                forall|j: int|
                    0 <= j < models@.len() ==> facing@[j]@.len() == (#[trigger] models@[j])@.len(),
                total_len(models@) <= usize::MAX,
                drawn@.len() == i,
                forall|j: int|
                    0 <= j < i ==> polygons_view((#[trigger] drawn@[j])@) == (if self.backface_culling {
                        visible_polygons(polygons_view(models@[j]@), facing@[j]@)
                    } else {
                        polygons_view(models@[j]@)
                    }),
                forall|j: int| 0 <= j < i ==> (#[trigger] drawn@[j])@.len() <= models@[j]@.len(),
                count == total_len(drawn@),
                count <= total_len(models@.take(i as int)),
            decreases models.len() - i,
        {
            assert(facing@[i as int]@.len() == models@[i as int]@.len());
            let d = self.polygons_to_draw(&models[i], &facing[i]);
            proof {
                if self.backface_culling {
                    crate::scene_renderer::law_culling_only_removes(
                        polygons_view(models@[i as int]@),
                        facing@[i as int]@,
                        0,
                    );
                }
                assert(d@.len() == polygons_view(d@).len());
                assert(d@.len() <= models@[i as int]@.len());
                assert(models@.take(i + 1).drop_last() =~= models@.take(i as int));
                lemma_total_len_prefix(models@, i + 1);
            }
            let ghost before = drawn@;
            count = count + d.len();
            drawn.push(d);
            assert(drawn@.drop_last() =~= before);
            i += 1;
        }
        assert(models@.take(i as int) =~= models@);
        (drawn, count)
    }
}

/// Hidden-face removal only removes: it keeps no more faces than it is given, each
/// kept face is one of the given faces, and a mesh whose faces name only its
/// vertices stays so.
pub proof fn law_culling_only_removes(polygons: Seq<Seq<usize>>, facing: Seq<bool>, n: nat)
    requires
        facing.len() == polygons.len(),
    ensures
        visible_polygons(polygons, facing).len() <= polygons.len(),
        forall|i: int|
            0 <= i < visible_polygons(polygons, facing).len() ==> polygons.contains(
                #[trigger] visible_polygons(polygons, facing)[i],
            ),
        polygons_within(polygons, n) ==> polygons_within(visible_polygons(polygons, facing), n),
    decreases polygons.len(),
{
    if polygons.len() > 0 {
        let q = polygons.drop_last();
        let f = facing.take(polygons.len() - 1);
        law_culling_only_removes(q, f, n);
        let rest = visible_polygons(q, f);
        let v = visible_polygons(polygons, facing);
        assert forall|i: int| 0 <= i < v.len() implies #[trigger] polygons.contains(v[i]) by {
            if i < rest.len() {
                assert(v[i] == rest[i]);
                let j = choose|j: int| 0 <= j < q.len() && q[j] == rest[i];
                assert(polygons[j] == q[j]);
            } else {
                assert(polygons[polygons.len() - 1] == v[i]);
            }
        }
        if polygons_within(polygons, n) {
            assert(polygons_within(q, n)) by {
                assert forall|k: int| 0 <= k < q.len() implies indices_within(#[trigger] q[k], n) by {
                    assert(q[k] == polygons[k]);
                }
            }
            assert forall|k: int| 0 <= k < v.len() implies indices_within(#[trigger] v[k], n) by {
                if k < rest.len() {
                    assert(v[k] == rest[k]);
                } else {
                    assert(v[k] == polygons[polygons.len() - 1]);
                }
            }
        }
    }
}

/// With every face facing the camera, hidden-face removal keeps all faces.
pub proof fn law_culling_keeps_facing(polygons: Seq<Seq<usize>>, facing: Seq<bool>)
    requires
        facing.len() == polygons.len(),
        forall|i: int| 0 <= i < facing.len() ==> #[trigger] facing[i],
    ensures
        visible_polygons(polygons, facing) == polygons,
    decreases polygons.len(),
{
    if polygons.len() > 0 {
        let q = polygons.drop_last();
        let f = facing.take(polygons.len() - 1);
        assert forall|i: int| 0 <= i < f.len() implies #[trigger] f[i] by {
            assert(f[i] == facing[i]);
        }
        law_culling_keeps_facing(q, f);
        assert(q.push(polygons.last()) =~= polygons);
    } else {
        assert(polygons =~= seq![]);
    }
}

/// Each pass runs exactly when its own setting asks for it, whatever the others
/// are: the faces are filled (by the shader that the shading chooses) exactly when
/// they are drawn, the wireframe exactly when it is drawn, the normals exactly when
/// they are drawn; the fill comes first and the normals last.
pub proof fn law_shader_passes_follow_settings(r: SceneRenderer)
    ensures
        shader_passes_spec(r).contains(ShaderPass::Wireframe) == r.render_wireframe,
        shader_passes_spec(r).contains(ShaderPass::Normals) == r.render_normals,
        shader_passes_spec(r).len() == (if r.render_solid { 1int } else { 0int }) + (if r.render_wireframe {
            1int
        } else {
            0int
        }) + (if r.render_normals { 1int } else { 0int }),
        r.render_solid ==> shader_passes_spec(r)[0] == match r.shading_type {
            ShadingType::Unshaded => ShaderPass::Solid { z_buffer_enabled: r.z_buffer_enabled },
            ShadingType::GouraudLambert => ShaderPass::GouraudLambert {
                z_buffer_enabled: r.z_buffer_enabled,
            },
            ShadingType::PhongToonShading(bands) => ShaderPass::PhongToon {
                z_buffer_enabled: r.z_buffer_enabled,
                bands,
            },
        },
        r.render_normals ==> shader_passes_spec(r).last() == ShaderPass::Normals,
        r.render_wireframe && !r.render_normals ==> shader_passes_spec(r).last()
            == ShaderPass::Wireframe,
{
    let fill: Seq<ShaderPass> = if r.render_solid {
        seq![fill_pass(r.shading_type, r.z_buffer_enabled)]
    } else {
        seq![]
    };
    let wire: Seq<ShaderPass> = if r.render_wireframe {
        seq![ShaderPass::Wireframe]
    } else {
        seq![]
    };
    let norm: Seq<ShaderPass> = if r.render_normals {
        seq![ShaderPass::Normals]
    } else {
        seq![]
    };
    let p = shader_passes_spec(r);
    assert(p == fill + wire + norm);
    assert(forall|i: int| 0 <= i < fill.len() ==> fill[i] != ShaderPass::Wireframe && fill[i]
        != ShaderPass::Normals);
    if r.render_wireframe {
        assert(p[fill.len() as int] == ShaderPass::Wireframe);
    } else {
        assert forall|i: int| 0 <= i < p.len() implies p[i] != ShaderPass::Wireframe by {
            if i < fill.len() {
                assert(p[i] == fill[i]);
            } else {
                assert(p[i] == norm[i - fill.len()]);
            }
        }
    }
    if r.render_normals {
        assert(p[p.len() - 1] == ShaderPass::Normals);
    } else {
        assert forall|i: int| 0 <= i < p.len() implies p[i] != ShaderPass::Normals by {
            if i < fill.len() {
                assert(p[i] == fill[i]);
            } else {
                assert(p[i] == wire[i - fill.len()]);
            }
        }
    }
    if r.render_solid {
        assert(p[0] == fill[0]);
    }
}

/// The faces of `polygons` paired with their facing flags.
pub open spec fn with_facing(polygons: Seq<Seq<usize>>, facing: Seq<bool>) -> Seq<(Seq<usize>, bool)> {
    Seq::new(polygons.len(), |i: int| (polygons[i], facing[i]))
}

/// Hidden-face removal keeps exactly the faces that face the camera, in their
/// order, whatever their number of vertices: the kept faces are the faces
/// filtered by their facing flags. So no face turned away is ever kept, and a
/// scene seen from behind keeps nothing.
pub proof fn law_culling_keeps_exactly_facing(polygons: Seq<Seq<usize>>, facing: Seq<bool>)
    requires
        facing.len() == polygons.len(),
    ensures
        visible_polygons(polygons, facing) == with_facing(polygons, facing).filter(
            |t: (Seq<usize>, bool)| t.1,
        ).map_values(|t: (Seq<usize>, bool)| t.0),
        (forall|i: int| 0 <= i < facing.len() ==> !#[trigger] facing[i]) ==> visible_polygons(
            polygons,
            facing,
        ).len() == 0,
    decreases polygons.len(),
{
    let keep = |t: (Seq<usize>, bool)| t.1;
    let face = |t: (Seq<usize>, bool)| t.0;
    let w = with_facing(polygons, facing);
    reveal(Seq::filter);
    if polygons.len() == 0 {
        assert(w =~= Seq::<(Seq<usize>, bool)>::empty());
        assert(w.filter(keep) =~= Seq::<(Seq<usize>, bool)>::empty());
        assert(w.filter(keep).map_values(face) =~= Seq::<Seq<usize>>::empty());
    } else {
        let q = polygons.drop_last();
        let f = facing.take(polygons.len() - 1);
        law_culling_keeps_exactly_facing(q, f);
        assert(w.drop_last() =~= with_facing(q, f));
        assert(w.last() == (polygons.last(), facing[polygons.len() - 1]));
        let sub = with_facing(q, f).filter(keep);
        if facing[polygons.len() - 1] {
            assert(w.filter(keep) == sub.push(w.last()));
            assert(sub.push(w.last()).map_values(face) =~= sub.map_values(face).push(polygons.last()));
        } else {
            assert(w.filter(keep) == sub);
        }
        if forall|i: int| 0 <= i < facing.len() ==> !#[trigger] facing[i] {
            assert(!facing[polygons.len() - 1]);
            assert forall|i: int| 0 <= i < f.len() implies !#[trigger] f[i] by {
                assert(f[i] == facing[i]);
            }
        }
    }
}

/// The count of drawn faces adds up over the models: the total of two lists of
/// models is the sum of their totals, and the total of one model is its number
/// of faces.
pub proof fn law_total_len_adds(a: Seq<Vec<Polygon3>>, b: Seq<Vec<Polygon3>>, v: Vec<Polygon3>)
    ensures
        total_len(a + b) == total_len(a) + total_len(b),
        total_len(seq![v]) == v@.len(),
    decreases b.len(),
{
    if b.len() > 0 {
        law_total_len_adds(a, b.drop_last(), v);
        assert((a + b).drop_last() =~= a + b.drop_last());
        assert((a + b).last() == b.last());
    } else {
        assert(a + b =~= a);
    }
    let one = seq![v];
    assert(one.drop_last() =~= Seq::<Vec<Polygon3>>::empty());
    assert(one.last() == v);
    assert(total_len(Seq::<Vec<Polygon3>>::empty()) == 0);
    assert(total_len(one) == total_len(one.drop_last()) + one.last()@.len());
}

} // verus!
