use g3d::controls::{AxisType, CenterAxis, Instrument, ReflectionPlane};
use g3d::scene::{ProjectionType, RenderOptions, RenderType, ShadingType as SceneShading};
use g3d::scene_renderer::{
    model_backface_culling, GouraudLambertShader, NormalsShader, SceneRenderer, ShaderPass,
    ShadingType, SolidShader, WireframeShader,
};
use g3d::color::Color;
use g3d::Polygon3;

fn lists(ps: &Vec<Polygon3>) -> Vec<Vec<usize>> {
    ps.iter().map(|p| p.get_vertexes().clone()).collect()
}

#[test]
fn instrument_descriptions() {
    assert!(Instrument::default() == Instrument::Move3D);
    assert_eq!(Instrument::Move3D.to_string(), "переместить 3D модель");
    assert_eq!(Instrument::Rotate3D.to_string(), "повернуть 3D модель");
    assert_eq!(Instrument::Scale3D.to_string(), "масштабировать 3D модель");
    assert_eq!(Instrument::RotateAroundX.to_string(), "вращать вокруг оси X");
    assert_eq!(Instrument::RotateAroundY.to_string(), "вращать вокруг оси Y");
    assert_eq!(Instrument::RotateAroundZ.to_string(), "вращать вокруг оси Z");
    assert_eq!(
        Instrument::RotateAroundCustomLine.to_string(),
        "вращать вокруг произвольной линии"
    );
}

#[test]
fn axis_names() {
    assert_eq!(CenterAxis::X.name(), "Ось X");
    assert_eq!(CenterAxis::Y.name(), "Ось Y");
    assert_eq!(CenterAxis::Z.name(), "Ось Z");
    for c in [CenterAxis::X, CenterAxis::Y, CenterAxis::Z] {
        assert_eq!(AxisType::Center(c).name(), c.name());
    }
    assert_eq!(AxisType::Custom.name(), "Произвольная ось");
    assert_ne!(ReflectionPlane::XY, ReflectionPlane::YZ);
}

#[test]
fn render_option_defaults() {
    let o = RenderOptions::default();
    assert_eq!(o.render_type, RenderType::WireFrame);
    assert_eq!(o.projection_type, ProjectionType::Perspective);
    assert_eq!(o.shading_type, SceneShading::Unshaded);
    assert!(!o.backface_culling);
    assert!(!o.z_buffer_enabled);
    assert_eq!(ProjectionType::Parallel.label(), "Параллельная");
    assert_eq!(ProjectionType::Perspective.label(), "Перспективная");
}

#[test]
fn renderer_defaults_and_labels() {
    let r = SceneRenderer::default();
    assert!(r.render_wireframe);
    assert!(!r.render_normals);
    assert!(!r.render_solid);
    assert_eq!(r.projection_type, ProjectionType::Perspective);
    assert_eq!(r.shading_type, ShadingType::Unshaded);
    assert!(!r.backface_culling);
    assert!(r.z_buffer_enabled);
    assert_eq!(ShadingType::Unshaded.label(), "Отсутсвует");
    assert_eq!(ShadingType::GouraudLambert.label(), "Гуро для модели Ламберта");
    assert_eq!(ShadingType::PhongToonShading(4).label(), "Фонга для модели туншейдинг");
}

#[test]
fn shader_constructors() {
    assert!(SolidShader::new(true).z_buffer_enabled);
    assert!(!GouraudLambertShader::new(false).z_buffer_enabled);
    assert_eq!(WireframeShader::new(), WireframeShader);
    let n = NormalsShader::new();
    assert_eq!(n.vertex_normal_color, Color::purple());
    assert_eq!(n.polygon_normal_color, Color::orange());
}

#[test]
fn shader_passes_follow_the_settings() {
    let r = SceneRenderer::default();
    assert_eq!(r.shader_passes(), vec![ShaderPass::Wireframe]);
    let mut all = r;
    all.render_solid = true;
    all.render_normals = true;
    all.z_buffer_enabled = false;
    all.shading_type = ShadingType::PhongToonShading(3);
    assert_eq!(
        all.shader_passes(),
        vec![
            ShaderPass::PhongToon { z_buffer_enabled: false, bands: 3 },
            ShaderPass::Wireframe,
            ShaderPass::Normals
        ]
    );
    let mut solid = r;
    solid.render_wireframe = false;
    solid.render_solid = true;
    assert_eq!(solid.shader_passes(), vec![ShaderPass::Solid { z_buffer_enabled: true }]);
    solid.shading_type = ShadingType::GouraudLambert;
    assert_eq!(
        solid.shader_passes(),
        vec![ShaderPass::GouraudLambert { z_buffer_enabled: true }]
    );
    let mut none = r;
    none.render_wireframe = false;
    assert!(none.shader_passes().is_empty());
}

#[test]
fn backface_culling_keeps_facing_polygons() {
    let ps = vec![
        Polygon3::triangle(0, 1, 2),
        Polygon3::from_list(&[0, 1]),
        Polygon3::from_list(&[1, 2, 3, 0]),
        Polygon3::triangle(2, 3, 0),
    ];
    let facing = vec![true, true, false, true];
    assert_eq!(lists(&model_backface_culling(&ps, &facing)), vec![vec![0, 1, 2], vec![0, 1], vec![2, 3, 0]]);
    let mut r = SceneRenderer::default();
    assert_eq!(lists(&r.polygons_to_draw(&ps, &facing)), lists(&ps));
    r.backface_culling = true;
    assert_eq!(lists(&r.polygons_to_draw(&ps, &facing)), vec![vec![0, 1, 2], vec![0, 1], vec![2, 3, 0]]);
    assert!(model_backface_culling(&ps, &vec![false; 4]).is_empty());
}

#[test]
fn culling_only_removes_faces() {
    let ps = vec![
        Polygon3::triangle(0, 1, 2),
        Polygon3::from_list(&[1, 2, 3, 0]),
        Polygon3::triangle(2, 3, 0),
    ];
    let all = model_backface_culling(&ps, &vec![true, true, true]);
    assert_eq!(lists(&all), lists(&ps));
    let some = model_backface_culling(&ps, &vec![false, true, false]);
    assert_eq!(lists(&some), vec![vec![1, 2, 3, 0]]);
    assert!(g3d::topology::polygons_valid(4, &some));
}

#[test]
fn drawn_polygons_counts_every_model() {
    let a = vec![Polygon3::triangle(0, 1, 2), Polygon3::from_list(&[0, 1]), Polygon3::triangle(1, 2, 3)];
    let b = vec![Polygon3::from_list(&[0, 1, 2, 3])];
    let models = vec![a, b];
    let facing = vec![vec![true, true, false], vec![true]];
    let mut r = SceneRenderer::default();
    let (all, n) = r.drawn_polygons(&models, &facing);
    assert_eq!(n, 4);
    assert_eq!(lists(&all[1]), vec![vec![0, 1, 2, 3]]);
    r.backface_culling = true;
    let (some, m) = r.drawn_polygons(&models, &facing);
    assert_eq!(m, 3);
    assert_eq!(lists(&some[0]), vec![vec![0, 1, 2], vec![0, 1]]);
    assert_eq!(r.drawn_polygons(&Vec::new(), &Vec::new()).1, 0);
}
