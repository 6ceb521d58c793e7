use g3d::export::{create_vertex_coordinate_map, face_line, obj_header, obj_text, vertex_line};
use g3d::obj::{parse_obj, ObjLoadError, ObjSaveError, VertexWords};
use g3d::text::{parse_i32, push_decimal};
use g3d::Polygon3;

fn chars(s: &str) -> Vec<char> {
    s.chars().collect()
}

fn word(w: &Vec<char>) -> String {
    w.iter().collect()
}

fn faces(text: &str) -> Result<Vec<Vec<usize>>, ObjLoadError> {
    parse_obj(&chars(text)).map(|d| d.polygons.iter().map(|p| p.get_vertexes().clone()).collect())
}

#[test]
fn reads_a_triangle() {
    let d = parse_obj(&chars("v 0 0 0\nv 1.5 0 0\nv 0 -2 3e1\nf 1 2 3\n")).unwrap();
    assert_eq!(d.vertices.len(), 3);
    assert_eq!(word(&d.vertices[1].x), "1.5");
    assert_eq!(word(&d.vertices[2].y), "-2");
    assert_eq!(word(&d.vertices[2].z), "3e1");
    assert_eq!(d.polygons.len(), 1);
    assert_eq!(d.polygons[0].get_vertexes(), &vec![0, 1, 2]);
}

#[test]
fn passes_over_comments_blank_and_unknown_lines() {
    let text = "# a cube corner\n\n   \no name\nvt 0 0\nvn 0 0 1\nv 0 0 0\nv 1 0 0\nv 1 1 0\nv 0 1 0\ns off\nf 1 2 3 4\n# end";
    assert_eq!(faces(text), Ok(vec![vec![0, 1, 2, 3]]));
}

#[test]
fn reads_slashed_negative_and_zero_indices() {
    let text = "v 0 0 0\nv 1 0 0\nv 1 1 0\nv 0 1 0\nf 1/1/1 2//2 3/3\nf -1 -2 -3 0\nf -4 +2 3\n";
    assert_eq!(
        faces(text),
        Ok(vec![vec![0, 1, 2], vec![3, 2, 1], vec![0, 1, 2]])
    );
}

#[test]
fn accepts_tabs_and_carriage_returns() {
    let text = "v\t0 0 0\r\nv 1\t0 0\r\nv 0 1 0\r\nf\t1 2\t3\r\n";
    let d = parse_obj(&chars(text)).unwrap();
    assert_eq!(d.vertices.len(), 3);
    assert_eq!(word(&d.vertices[2].z), "0");
    assert_eq!(d.polygons[0].get_vertexes(), &vec![0, 1, 2]);
}

#[test]
fn short_faces_and_short_vertex_lines_are_passed_over() {
    let text = "v 0 0\nv 0 0 0\nv 1 0 0\nv 1 1 0\nf 1 2\nf 1 2 0\nf 1 2 3\n";
    let d = parse_obj(&chars(text)).unwrap();
    assert_eq!(d.vertices.len(), 3);
    assert_eq!(d.polygons.len(), 1);
}

#[test]
fn a_face_may_only_name_vertices_read_before_it() {
    let text = "v 0 0 0\nv 1 0 0\nf 1 2 3\nv 1 1 0\n";
    assert_eq!(faces(text), Err(ObjLoadError::InvalidFormat));
    let back = "v 0 0 0\nv 1 0 0\nv 1 1 0\nf -4 1 2\n";
    assert_eq!(faces(back), Err(ObjLoadError::InvalidFormat));
}

#[test]
fn a_face_word_that_is_no_number_is_invalid() {
    assert_eq!(faces("v 0 0 0\nv 1 0 0\nv 1 1 0\nf 1 2 x\n"), Err(ObjLoadError::InvalidFormat));
    assert_eq!(faces("v 0 0 0\nv 1 0 0\nv 1 1 0\nf 1 2 /3\n"), Err(ObjLoadError::InvalidFormat));
    assert_eq!(
        faces("v 0 0 0\nv 1 0 0\nv 1 1 0\nf 1 2 99999999999\n"),
        Err(ObjLoadError::InvalidFormat)
    );
}

#[test]
fn a_text_without_vertices_or_faces_is_invalid() {
    assert_eq!(faces(""), Err(ObjLoadError::InvalidFormat));
    assert_eq!(faces("v 0 0 0\nv 1 0 0\nv 1 1 0\n"), Err(ObjLoadError::InvalidFormat));
    assert_eq!(faces("# nothing\nf 1 2 3\n"), Err(ObjLoadError::InvalidFormat));
}

#[test]
fn parses_integers_as_i32() {
    let w = chars("-2147483648");
    assert_eq!(parse_i32(&w, w.len()), Some(i32::MIN));
    let w = chars("+2147483647");
    assert_eq!(parse_i32(&w, w.len()), Some(i32::MAX));
    let w = chars("2147483648");
    assert_eq!(parse_i32(&w, w.len()), None);
    let w = chars("-");
    assert_eq!(parse_i32(&w, w.len()), None);
    let w = chars("12/5");
    assert_eq!(parse_i32(&w, 2), Some(12));
    assert_eq!(parse_i32(&w, 4), None);
    assert_eq!(parse_i32(&w, 0), None);
}

#[test]
fn writes_decimal_numerals() {
    let mut out = chars("n=");
    push_decimal(&mut out, 0);
    push_decimal(&mut out, 40517);
    assert_eq!(out.iter().collect::<String>(), "n=040517");
    let mut big = Vec::new();
    push_decimal(&mut big, usize::MAX);
    assert_eq!(big.iter().collect::<String>(), usize::MAX.to_string());
}

#[test]
fn writes_the_header() {
    let h: String = obj_header(8, 6).iter().collect();
    assert_eq!(
        h,
        "# Wavefront OBJ file exported from AthenianApp\n# Vertices: 8, Faces: 6\n\n"
    );
}

#[test]
fn face_lines_name_the_last_vertex_with_each_position() {
    let keys = vec![(0, 0, 0), (10000, 0, 0), (0, 0, 0), (0, 10000, 0)];
    let map = create_vertex_coordinate_map(&keys);
    assert_eq!(map.get((0, 0, 0)), Some(2));
    assert_eq!(map.get((10000, 0, 0)), Some(1));
    assert_eq!(map.get((5, 5, 5)), None);
    let line: String = face_line(&keys, &map, &Polygon3::from_list(&[0, 1, 3]))
        .unwrap()
        .iter()
        .collect();
    assert_eq!(line, "f 3 2 4\n");
    let empty: String = face_line(&keys, &map, &Polygon3::new()).unwrap().iter().collect();
    assert_eq!(empty, "f\n");
}

#[test]
fn a_face_with_a_missing_vertex_is_invalid_data() {
    let keys = vec![(0, 0, 0), (1, 0, 0), (0, 1, 0)];
    let map = create_vertex_coordinate_map(&keys);
    let r = face_line(&keys, &map, &Polygon3::triangle(0, 1, 3));
    assert_eq!(r, Err(ObjSaveError::InvalidData));
}

#[test]
fn a_written_face_reads_back() {
    let keys = vec![(0, 0, 0), (1, 0, 0), (1, 1, 0), (0, 1, 0)];
    let map = create_vertex_coordinate_map(&keys);
    let mut text = chars("v 0 0 0\nv 1 0 0\nv 1 1 0\nv 0 1 0\n");
    text.extend(face_line(&keys, &map, &Polygon3::from_list(&[3, 2, 1, 0])).unwrap());
    text.extend(face_line(&keys, &map, &Polygon3::triangle(0, 1, 2)).unwrap());
    let d = parse_obj(&text).unwrap();
    assert_eq!(d.polygons.len(), 2);
    assert_eq!(d.polygons[0].get_vertexes(), &vec![3, 2, 1, 0]);
    assert_eq!(d.polygons[1].get_vertexes(), &vec![0, 1, 2]);
}

#[test]
fn written_numbers_parse_back() {
    for n in [0usize, 7, 10, 99, 1000, 65535, 2147483647] {
        let mut w = Vec::new();
        push_decimal(&mut w, n);
        assert_eq!(parse_i32(&w, w.len()), Some(n as i32));
    }
}

#[test]
fn parsed_faces_name_read_vertices() {
    let text = "v 0 0 0\nv 1 0 0\nv 1 1 0\nf -1 -2 -3\nv 0 1 0\nf 4 3 2 1\nf 1 4/1 -1\n";
    let d = parse_obj(&chars(text)).unwrap();
    assert!(g3d::topology::polygons_valid(d.vertices.len(), &d.polygons));
    assert!(d.polygons.iter().all(|p| p.is_valid()));
}

#[test]
fn a_saved_file_reads_back() {
    // vertices 0 and 3 share a position: faces name the last of them
    let keys = vec![(0, 0, 0), (10000, 0, 0), (10000, 10000, 0), (0, 0, 0)];
    let polygons = vec![
        Polygon3::triangle(0, 1, 2),
        Polygon3::from_list(&[3, 2]),
        Polygon3::from_list(&[2, 1, 0, 3]),
    ];
    let map = create_vertex_coordinate_map(&keys);
    let words = [("0.000000", "0.000000", "0.000000"), ("1.000000", "0.000000", "0.000000"),
        ("1.000000", "1.000000", "-0.000000"), ("0.000000", "0.000000", "0.000000")];
    let mut text = obj_header(keys.len(), polygons.len());
    for (x, y, z) in words.iter() {
        text.extend(vertex_line(&chars(x), &chars(y), &chars(z)));
    }
    text.push('\n');
    for p in &polygons {
        text.extend(face_line(&keys, &map, p).unwrap());
    }
    let d = parse_obj(&text).unwrap();
    assert_eq!(d.vertices.len(), 4);
    for (v, (x, y, z)) in d.vertices.iter().zip(words.iter()) {
        assert_eq!((word(&v.x), word(&v.y), word(&v.z)), (x.to_string(), y.to_string(), z.to_string()));
    }
    let read: Vec<Vec<usize>> = d.polygons.iter().map(|p| p.get_vertexes().clone()).collect();
    assert_eq!(read, vec![vec![3, 1, 2], vec![2, 1, 3, 3]]);
}

#[test]
fn distinct_positions_are_saved_exactly() {
    let keys = vec![(1, 2, 3), (4, 5, 6), (7, 8, 9)];
    let map = create_vertex_coordinate_map(&keys);
    for i in 0..keys.len() {
        assert_eq!(map.get(keys[i]), Some(i));
    }
    let line: String = face_line(&keys, &map, &Polygon3::triangle(2, 0, 1)).unwrap().iter().collect();
    assert_eq!(line, "f 3 1 2\n");
}

#[test]
fn writes_vertex_lines() {
    let line: String = vertex_line(&chars("1.500000"), &chars("-2.000000"), &chars("inf")).iter().collect();
    assert_eq!(line, "v 1.500000 -2.000000 inf\n");
}

#[test]
fn a_whole_file_reads_back() {
    let words: Vec<VertexWords> = [("0.000000", "0.000000", "0.000000"), ("1.000000", "0.000000", "0.000000"), ("0.000000", "1.000000", "0.500000")]
        .iter()
        .map(|(x, y, z)| VertexWords { x: chars(x), y: chars(y), z: chars(z) })
        .collect();
    let keys = vec![(0, 0, 0), (10000, 0, 0), (0, 10000, 5000)];
    let polygons = vec![Polygon3::triangle(0, 1, 2), Polygon3::triangle(2, 1, 0)];
    let text = obj_text(&words, &keys, &polygons).unwrap();
    let s: String = text.iter().collect();
    assert!(s.starts_with("# Wavefront OBJ file exported from AthenianApp\n# Vertices: 3, Faces: 2\n\nv 0.000000 0.000000 0.000000\n"));
    assert!(s.ends_with("v 0.000000 1.000000 0.500000\n\nf 1 2 3\nf 3 2 1\n"));
    let d = parse_obj(&text).unwrap();
    assert_eq!(word(&d.vertices[2].z), "0.500000");
    assert_eq!(d.polygons[1].get_vertexes(), &vec![2, 1, 0]);
    assert_eq!(obj_text(&words, &keys, &vec![Polygon3::triangle(0, 1, 3)]), Err(ObjSaveError::InvalidData));
}
