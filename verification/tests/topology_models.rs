use g3d::polyhedra::{
    dodecahedron_polygons, hexahedron_polygons, icosahedron_polygons, octahedron_polygons,
    tetrahedron_polygons,
};
use g3d::surface::{grid_polygons, SurfaceFunction};
use g3d::topology::{create_rotation_polygons, polygons_valid, triangulate_polygon};
use g3d::mesh::MeshTopology;
use g3d::Polygon3;

fn lists(ps: &Vec<Polygon3>) -> Vec<Vec<usize>> {
    ps.iter().map(|p| p.get_vertexes().clone()).collect()
}

#[test]
fn checks_that_polygons_name_existing_vertices() {
    let ps = vec![Polygon3::triangle(0, 1, 2), Polygon3::from_list(&[2, 3, 0])];
    assert!(polygons_valid(4, &ps));
    assert!(!polygons_valid(3, &ps));
    assert!(polygons_valid(0, &Vec::new()));
    assert!(polygons_valid(0, &vec![Polygon3::new()]));
}

#[test]
fn fans_a_polygon_into_triangles() {
    assert_eq!(triangulate_polygon(&[7, 8, 9, 10, 11]), vec![[7, 8, 9], [7, 9, 10], [7, 10, 11]]);
    assert_eq!(triangulate_polygon(&[1, 2, 3]), vec![[1, 2, 3]]);
    assert!(triangulate_polygon(&[1, 2]).is_empty());
    assert!(triangulate_polygon(&[1]).is_empty());
}

#[test]
fn body_of_revolution_polygons() {
    let ps = create_rotation_polygons(3, 4);
    // two rings of four side quads, then the two caps
    assert_eq!(ps.len(), 2 * 4 + 2);
    assert_eq!(ps[0].get_vertexes(), &vec![0, 1, 5, 4]);
    assert_eq!(ps[3].get_vertexes(), &vec![3, 0, 4, 7]);
    assert_eq!(ps[4].get_vertexes(), &vec![4, 5, 9, 8]);
    assert_eq!(ps[8].get_vertexes(), &vec![0, 1, 2, 3]);
    assert_eq!(ps[9].get_vertexes(), &vec![11, 10, 9, 8]);
    assert!(polygons_valid(12, &ps));
    assert!(!polygons_valid(11, &ps));
}

#[test]
fn function_graph_grid() {
    let ps = grid_polygons(2, 1);
    assert_eq!(
        lists(&ps),
        vec![vec![0, 1, 4], vec![0, 4, 3], vec![1, 2, 5], vec![1, 5, 4]]
    );
    let big = grid_polygons(5, 7);
    assert_eq!(big.len(), 2 * 5 * 7);
    assert!(polygons_valid(6 * 8, &big));
    assert!(grid_polygons(0, 4).is_empty());
}

#[test]
fn regular_polyhedra_faces() {
    let cases = [
        (tetrahedron_polygons(), 4, 4, 3),
        (hexahedron_polygons(), 8, 6, 4),
        (octahedron_polygons(), 6, 8, 3),
        (icosahedron_polygons(), 12, 20, 3),
        (dodecahedron_polygons(), 20, 12, 5),
    ];
    for (ps, vertices, count, sides) in cases.iter() {
        assert_eq!(ps.len(), *count);
        assert!(polygons_valid(*vertices, ps));
        assert!(!polygons_valid(*vertices - 1, ps));
        assert!(ps.iter().all(|p| p.vertex_count() == *sides));
    }
    assert_eq!(tetrahedron_polygons()[3].get_vertexes(), &vec![1, 3, 2]);
}

#[test]
fn surface_function_names() {
    assert_eq!(SurfaceFunction::default(), SurfaceFunction::Paraboloid);
    assert_eq!(SurfaceFunction::Paraboloid.name(), "Параболоид (z = x² + y²)");
    assert_eq!(SurfaceFunction::Saddle.name(), "Седло (z = x² - y²)");
    assert_eq!(SurfaceFunction::Wave.name(), "Волна (z = sin(x)·cos(y))");
    assert_eq!(SurfaceFunction::Ripple.name(), "Пульсация (z = sin(r)/r)");
    assert_eq!(SurfaceFunction::Gaussian.name(), "Гаусс (z = e^(-(x²+y²)))");
}

#[test]
fn mesh_topology_keeps_its_polygons() {
    let ps = create_rotation_polygons(2, 3);
    assert!(polygons_valid(6, &ps));
    let m = MeshTopology::from_polygons(6, ps);
    assert_eq!(m.vertex_count(), 6);
    assert_eq!(m.polygon_count(), 5);
    assert_eq!(m.get_polygon(1).get_vertexes(), &vec![1, 2, 5, 4]);
    assert_eq!(m.get_polygon(2).get_vertexes(), &vec![2, 0, 3, 5]);
    assert_eq!(lists(m.get_polygons())[4], vec![5, 4, 3]);
}

#[test]
fn fan_triangles_stay_in_the_mesh() {
    let p = [4, 0, 3, 1, 2];
    let ts = triangulate_polygon(&p);
    assert_eq!(ts.len(), p.len() - 2);
    assert!(ts.iter().all(|t| t[0] == 4 && t.iter().all(|&i| i < 5)));
}

#[test]
fn icosahedron_faces_are_distinct_and_closed() {
    let faces = lists(&icosahedron_polygons());
    let mut sets: Vec<Vec<usize>> = faces.iter().map(|f| { let mut g = f.clone(); g.sort(); g }).collect();
    sets.sort();
    sets.dedup();
    assert_eq!(sets.len(), 20);
    assert!(faces.contains(&vec![2, 8, 6]));
    for ps in [tetrahedron_polygons(), hexahedron_polygons(), octahedron_polygons(), icosahedron_polygons(), dodecahedron_polygons()] {
        let fs = lists(&ps);
        for f in &fs {
            for k in 0..f.len() {
                let (a, b) = (f[k], f[(k + 1) % f.len()]);
                let on = fs
                    .iter()
                    .filter(|g| (0..g.len()).any(|j| {
                        let (x, y) = (g[j], g[(j + 1) % g.len()]);
                        (x == a && y == b) || (x == b && y == a)
                    }))
                    .count();
                assert_eq!(on, 2);
            }
        }
    }
}
