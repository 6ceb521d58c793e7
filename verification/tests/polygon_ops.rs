use g3d::{Polygon, Polygon3};

#[test]
fn new_polygon_is_empty() {
    let p = Polygon3::new();
    assert_eq!(p.vertex_count(), 0);
    assert!(p.get_vertexes().is_empty());
    assert!(!p.is_vertex());
    assert!(!p.is_edge());
    assert!(!p.is_triangle());
    assert!(!p.is_quad());
    assert!(!p.is_valid());
}

#[test]
fn triangle_joins_three_vertices() {
    let p = Polygon3::triangle(4, 7, 1);
    assert_eq!(p.get_vertexes(), &vec![4, 7, 1]);
    assert!(p.is_triangle());
    assert!(p.is_valid());
    assert!(!p.is_quad());
    assert_eq!(p.get_mesh_vertex_index(1), 7);
}

#[test]
fn from_list_and_from_vec_keep_order() {
    let a = Polygon3::from_list(&[3, 2, 1, 0]);
    let b = Polygon::from_vec(vec![3, 2, 1, 0]);
    assert_eq!(a.get_vertexes(), b.get_vertexes());
    assert!(a.is_quad());
    assert_eq!(b.vertex_count(), 4);
    assert_eq!(b.get_mesh_vertex_index(0), 3);
    assert_eq!(b.get_mesh_vertex_index(3), 0);
}

#[test]
fn add_vertex_grows_the_polygon() {
    let mut p = Polygon3::new();
    p.add_vertex(5);
    assert!(p.is_vertex());
    p.add_vertex(6);
    assert!(p.is_edge());
    p.add_vertex(7);
    assert!(p.is_triangle());
    assert!(p.is_valid());
    p.add_vertex(8);
    assert!(p.is_quad());
    assert_eq!(p.get_vertexes(), &vec![5, 6, 7, 8]);
}

#[test]
fn clone_keeps_the_vertices() {
    let p = Polygon3::from_list(&[9, 8, 7, 6, 5]);
    let q = p.clone();
    assert_eq!(q.get_vertexes(), p.get_vertexes());
    assert!(q.is_valid());
    assert!(!q.is_quad());
}
