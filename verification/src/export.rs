//! Writing a model in the Wavefront OBJ format: the header, the vertex lines, the
//! face lines and the whole file.
//!
//! Vertices are matched by position: each vertex has a key (its coordinates
//! rounded to a fixed grid), and a face names, for each of its vertices, the last
//! vertex of the model that has the same key.

use vstd::prelude::*;
use vstd::string::StrSliceExecFns;
use crate::obj::{
    before_slash, close_word, face_indices, face_word_index, is_word, parse_obj_spec,
    polygons_view, read_line, scan, text_lines, vertices_view, ObjLoadError, ObjSaveError,
    ObjView, VertexWords,
};
use crate::polygon::Polygon3;
use crate::read_back::{
    faces_text, law_saved_file_read_back, obj_file_text, plain_vertices, saved_faces,
    vertices_text,
};
use crate::text::{
    all_digits, decimal, is_digit, is_whitespace, law_decimal_parses_back, lemma_decimal,
    push_decimal,
};
use crate::topology::{indices_within, polygons_within};

verus! {

/// The key of a vertex position: its three coordinates on a fixed integer grid.
pub type VertexKey = (i32, i32, i32);

/// From key to vertex index, for the keys `keys` of vertices `0, 1, ...` in
/// order: a key that occurs more than once goes to its last vertex.
pub open spec fn key_map(keys: Seq<VertexKey>) -> Map<VertexKey, usize>
    decreases keys.len(),
{
    if keys.len() == 0 {
        Map::empty()
    } else {
        key_map(keys.drop_last()).insert(keys.last(), (keys.len() - 1) as usize)
    }
}

/// The lookup table from vertex keys to vertex indices.
pub struct VertexCoordinateMap {
    keys: Vec<VertexKey>,
}

impl View for VertexCoordinateMap {
    type V = Map<VertexKey, usize>;

    closed spec fn view(&self) -> Map<VertexKey, usize> {
        key_map(self.keys@)
    }
}

/// Where no key after position `i` is `key`, the map of all keys agrees on `key`
/// with the map of the first `i` keys.
proof fn lemma_key_map_prefix(keys: Seq<VertexKey>, i: int, key: VertexKey)
    requires
        0 <= i <= keys.len(),
        forall|j: int| i <= j < keys.len() ==> keys[j] != key,
    ensures
        key_map(keys).dom().contains(key) == key_map(keys.take(i)).dom().contains(key),
        key_map(keys).dom().contains(key) ==> key_map(keys)[key] == key_map(keys.take(i))[key],
    decreases keys.len() - i,
{
    if i < keys.len() {
        let shorter = keys.drop_last();
        assert(shorter.take(i) =~= keys.take(i));
        lemma_key_map_prefix(shorter, i, key);
    } else {
        assert(keys.take(i) =~= keys);
    }
}

/// Every vertex is found by its key: the map holds the key of each vertex, and
/// gives for it the last vertex of the model with that key.
pub proof fn law_every_vertex_key_found(keys: Seq<VertexKey>, i: int)
    requires
        0 <= i < keys.len(),
        keys.len() <= usize::MAX,
    ensures
        key_map(keys).dom().contains(keys[i]),
        key_map(keys)[keys[i]] < keys.len(),
        keys[key_map(keys)[keys[i]] as int] == keys[i],
        i <= key_map(keys)[keys[i]],
        forall|j: int| key_map(keys)[keys[i]] < j < keys.len() ==> keys[j] != keys[i],
    decreases keys.len(),
{
    if i < keys.len() - 1 && keys.last() != keys[i] {
        let shorter = keys.drop_last();
        law_every_vertex_key_found(shorter, i);
        assert(shorter[i] == keys[i]);
        let j: usize = key_map(shorter)[keys[i]];
        assert(key_map(keys)[keys[i]] == j);
        assert(shorter[j as int] == keys[j as int]);
        assert forall|k: int| j < k < keys.len() implies keys[k] != keys[i] by {
            if k < keys.len() - 1 {
                assert(shorter[k] == keys[k]);
            }
        }
    }
}

/// The map from the keys of a model's vertices, listed in vertex order, to the
/// index of the last vertex with each key.
pub fn create_vertex_coordinate_map(keys: &[VertexKey]) -> (map: VertexCoordinateMap)
    ensures
        map@ == key_map(keys@),
{
    VertexCoordinateMap { keys: vstd::slice::slice_to_vec(keys) }
}

impl VertexCoordinateMap {
    /// The vertex index of `key`, if a vertex has that key.
    pub fn get(&self, key: VertexKey) -> (r: Option<usize>)
        ensures
            r == (if self@.dom().contains(key) {
                Some(self@[key])
            } else {
                None::<usize>
            }),
    {
        let mut i: usize = self.keys.len();
        while i > 0
            invariant
                i <= self.keys@.len(),
                forall|j: int| i <= j < self.keys@.len() ==> self.keys@[j] != key,
            decreases i,
        {
            let k = self.keys[i - 1];
            if k.0 == key.0 && k.1 == key.1 && k.2 == key.2 {
                proof {
                    let s = self.keys@;
                    lemma_key_map_prefix(s, i as int, key);
                    assert(s.take(i as int).drop_last() =~= s.take(i - 1));
                }
                return Some(i - 1);
            }
            i -= 1;
        }
        proof {
            lemma_key_map_prefix(self.keys@, 0, key);
        }
        None
    }
}

// ----------------------------------------------------------------------
// The text
// ----------------------------------------------------------------------

/// Append the characters of `s` to `out`.
fn push_str(out: &mut Vec<char>, s: &str)
    ensures
        final(out)@ == old(out)@ + s@,
{
    let n: usize = s.unicode_len();
    let mut i: usize = 0;
    while i < n
        invariant
            n == s@.len(),
            i <= n,
            out@ == old(out)@ + s@.take(i as int),
        decreases n - i,
    {
        let c = s.get_char(i);
        out.push(c);
        assert(s@.take(i + 1) =~= s@.take(i as int).push(c));
        i += 1;
    }
    assert(s@.take(n as int) =~= s@);
}

/// The header of an OBJ file for a model of `vertex_count` vertices and
/// `face_count` faces: two comment lines and an empty line.
pub open spec fn obj_header_spec(vertex_count: nat, face_count: nat) -> Seq<char> {
    "# Wavefront OBJ file exported from AthenianApp\n"@ + "# Vertices: "@ + decimal(vertex_count)
        + ", Faces: "@ + decimal(face_count) + "\n\n"@
}

/// The header of an OBJ file, as [`obj_header_spec`] gives it.
pub fn obj_header(vertex_count: usize, face_count: usize) -> (text: Vec<char>)
    ensures
        text@ == obj_header_spec(vertex_count as nat, face_count as nat),
{
    let mut out: Vec<char> = Vec::new();
    push_str(&mut out, "# Wavefront OBJ file exported from AthenianApp\n");
    push_str(&mut out, "# Vertices: ");
    push_decimal(&mut out, vertex_count);
    push_str(&mut out, ", Faces: ");
    push_decimal(&mut out, face_count);
    push_str(&mut out, "\n\n");
    assert(out@ =~= obj_header_spec(vertex_count as nat, face_count as nat));
    out
}

/// The line `v x y z` that writes a vertex whose coordinates are written `x`, `y`, `z`.
pub open spec fn vertex_line_spec(x: Seq<char>, y: Seq<char>, z: Seq<char>) -> Seq<char> {
    seq!['v', ' '] + x + seq![' '] + y + seq![' '] + z + seq!['\n']
}

/// Append the characters of `w` to `out`.
fn push_chars(out: &mut Vec<char>, w: &Vec<char>)
    ensures
        final(out)@ == old(out)@ + w@,
{
    let mut i: usize = 0;
    while i < w.len()
        invariant
            i <= w@.len(),
            out@ == old(out)@ + w@.take(i as int),
        decreases w@.len() - i,
    {
        out.push(w[i]);
        assert(w@.take(i + 1) =~= w@.take(i as int).push(w@[i as int]));
        i += 1;
    }
    assert(w@.take(i as int) =~= w@);
}

/// The OBJ line of one vertex, from the words that write its coordinates.
pub fn vertex_line(x: &Vec<char>, y: &Vec<char>, z: &Vec<char>) -> (text: Vec<char>)
    ensures
        text@ == vertex_line_spec(x@, y@, z@),
{
    let mut out: Vec<char> = Vec::new();
    out.push('v');
    out.push(' ');
    push_chars(&mut out, x);
    out.push(' ');
    push_chars(&mut out, y);
    out.push(' ');
    push_chars(&mut out, z);
    out.push('\n');
    assert(out@ =~= vertex_line_spec(x@, y@, z@));
    out
}

/// The words of a face line after `f`: for each vertex of `p`, a space and the
/// 1-based number of the last vertex with the same key.
pub open spec fn face_numbers(keys: Seq<VertexKey>, p: Seq<usize>) -> Seq<char>
    decreases p.len(),
{
    if p.len() == 0 {
        seq![]
    } else {
        face_numbers(keys, p.drop_last()) + seq![' '] + decimal(
            (key_map(keys)[keys[p.last() as int]] + 1) as nat,
        )
    }
}

/// The line `f ...` that writes the face `p` of a model whose vertex keys are `keys`.
pub open spec fn face_line_spec(keys: Seq<VertexKey>, p: Seq<usize>) -> Seq<char> {
    seq!['f'] + face_numbers(keys, p) + seq!['\n']
}

/// The OBJ line of one face. `InvalidData` where the face names a vertex that the
/// model does not have.
pub fn face_line(keys: &[VertexKey], map: &VertexCoordinateMap, polygon: &Polygon3) -> (r: Result<
    Vec<char>,
    ObjSaveError,
>)
    requires
        map@ == key_map(keys@),
    ensures
        match r {
            Ok(text) => indices_within(polygon@, keys@.len()) && text@ == face_line_spec(
                keys@,
                polygon@,
            ),
            Err(e) => e == ObjSaveError::InvalidData && !indices_within(polygon@, keys@.len()),
        },
{
    let vertexes = polygon.get_vertexes();
    let mut out: Vec<char> = Vec::new();
    out.push('f');
    let mut i: usize = 0;
    while i < vertexes.len()
        invariant
            vertexes@ == polygon@,
            map@ == key_map(keys@),
            i <= vertexes@.len(),
            indices_within(vertexes@.take(i as int), keys@.len()),
            out@ == seq!['f'] + face_numbers(keys@, vertexes@.take(i as int)),
        decreases vertexes.len() - i,
    {
        let index: usize = vertexes[i];
        if index >= keys.len() {
            assert(!indices_within(polygon@, keys@.len())) by {
                assert(polygon@[i as int] == index);
            }
            return Err(ObjSaveError::InvalidData);
        }
        proof {
            law_every_vertex_key_found(keys@, index as int);
        }
        match map.get(keys[index]) {
            Some(saved) => {
                out.push(' ');
                push_decimal(&mut out, saved + 1);
                let ghost prefix = vertexes@.take(i + 1);
                assert(prefix.drop_last() =~= vertexes@.take(i as int));
                assert(prefix.last() == index);
                assert(out@ =~= seq!['f'] + face_numbers(keys@, prefix));
            },
            None => {
                return Err(ObjSaveError::InvalidData);
            },
        }
        i += 1;
    }
    out.push('\n');
    assert(vertexes@.take(i as int) =~= polygon@);
    Ok(out)
}

// ----------------------------------------------------------------------
// Reading a written face back
// ----------------------------------------------------------------------

/// The vertex that the written face `p` names in place of each of its vertices:
/// the last vertex with the same key.
pub open spec fn saved_face(keys: Seq<VertexKey>, p: Seq<usize>) -> Seq<usize> {
    Seq::new(p.len(), |j: int| key_map(keys)[keys[p[j] as int]])
}

/// The words of the line that writes the face `p`: `f`, then the vertex numbers.
pub open spec fn face_line_words(keys: Seq<VertexKey>, p: Seq<usize>) -> Seq<Seq<char>> {
    seq![seq!['f']] + Seq::new(
        p.len(),
        |j: int| decimal((key_map(keys)[keys[p[j] as int]] + 1) as nat),
    )
}

/// Reading a word that holds no whitespace extends the word being read.
pub(crate) proof fn lemma_scan_word(t: Seq<char>, w: Seq<char>)
    requires
        forall|i: int| 0 <= i < w.len() ==> !is_whitespace(#[trigger] w[i]),
    ensures
        scan(t + w) == (scan(t).0, scan(t).1, scan(t).2 + w),
    decreases w.len(),
{
    if w.len() == 0 {
        assert(t + w =~= t);
        assert(scan(t).2 + w =~= scan(t).2);
    } else {
        let v = w.drop_last();
        lemma_scan_word(t, v);
        assert((t + w).drop_last() =~= t + v);
        assert((t + w).last() == w.last());
        assert(!is_whitespace(w[w.len() - 1]));
        assert((scan(t).2 + v).push(w.last()) =~= scan(t).2 + w);
    }
}

/// Digits are not whitespace.
proof fn lemma_digits_not_whitespace(w: Seq<char>)
    requires
        all_digits(w),
    ensures
        forall|i: int| 0 <= i < w.len() ==> !is_whitespace(#[trigger] w[i]),
{
    assert forall|i: int| 0 <= i < w.len() implies !is_whitespace(#[trigger] w[i]) by {
        assert(is_digit(w[i]));
    }
}

/// Reading the line of a face up to its end: all words but the last are complete,
/// and the last is being read.
proof fn lemma_scan_face(keys: Seq<VertexKey>, p: Seq<usize>)
    ensures
        scan(seq!['f'] + face_numbers(keys, p)) == (
            Seq::<Seq<Seq<char>>>::empty(),
            face_line_words(keys, p).drop_last(),
            face_line_words(keys, p).last(),
        ),
    decreases p.len(),
{
    if p.len() == 0 {
        assert(seq!['f'] + face_numbers(keys, p) =~= Seq::<char>::empty().push('f'));
        assert(face_line_words(keys, p) =~= seq![seq!['f']]);
        assert(face_line_words(keys, p).drop_last() =~= seq![]);
        assert(!is_whitespace('f'));
        let e: Seq<char> = Seq::<char>::empty();
        let t = e.push('f');
        assert(t.drop_last() =~= e);
        assert(t.last() == 'f');
        assert(scan(e) == (Seq::<Seq<Seq<char>>>::empty(), Seq::<Seq<char>>::empty(), e));
        assert(scan(t) == (Seq::<Seq<Seq<char>>>::empty(), Seq::<Seq<char>>::empty(), e.push('f')));
        assert(e.push('f') =~= seq!['f']);
    } else {
        let q = p.drop_last();
        lemma_scan_face(keys, q);
        let t = seq!['f'] + face_numbers(keys, q);
        let m: nat = (key_map(keys)[keys[p.last() as int]] + 1) as nat;
        let d = decimal(m);
        lemma_decimal(m);
        lemma_digits_not_whitespace(d);
        let ws = face_line_words(keys, q);
        assert(face_line_words(keys, p) =~= ws.push(d));
        assert(ws.len() >= 1);
        assert(ws.last().len() >= 1) by {
            if q.len() > 0 {
                lemma_decimal((key_map(keys)[keys[q.last() as int]] + 1) as nat);
                assert(ws.last() == decimal((key_map(keys)[keys[q.last() as int]] + 1) as nat));
            } else {
                assert(ws.last() =~= seq!['f']);
            }
        }
        let ts = t.push(' ');
        assert(ts.drop_last() =~= t);
        assert(ts.last() == ' ');
        assert(is_whitespace(' '));
        assert(close_word(ws.drop_last(), ws.last()) =~= ws);
        assert(scan(ts) == (Seq::<Seq<Seq<char>>>::empty(), ws, Seq::<char>::empty()));
        lemma_scan_word(ts, d);
        assert(scan(ts + d) == (Seq::<Seq<Seq<char>>>::empty(), ws, d));
        assert(seq!['f'] + face_numbers(keys, p) =~= ts + d);
        assert(Seq::<char>::empty() + d =~= d);
        assert(ws.push(d).drop_last() =~= ws);
    }
}

/// The lines of the text of a face line: the words of the face, then an empty line.
proof fn lemma_face_line_lines(keys: Seq<VertexKey>, p: Seq<usize>)
    ensures
        text_lines(face_line_spec(keys, p)) == seq![
            face_line_words(keys, p),
            Seq::<Seq<char>>::empty(),
        ],
{
    lemma_scan_face(keys, p);
    let x = seq!['f'] + face_numbers(keys, p);
    assert(face_line_spec(keys, p) =~= x.push('\n'));
    assert(x.push('\n').drop_last() =~= x);
    let ws = face_line_words(keys, p);
    assert(ws.last().len() >= 1) by {
        if p.len() > 0 {
            lemma_decimal((key_map(keys)[keys[p.last() as int]] + 1) as nat);
        }
    }
    assert(close_word(ws.drop_last(), ws.last()) =~= ws);
    assert(close_word(Seq::<Seq<char>>::empty(), Seq::<char>::empty()) =~= seq![]);
    assert(seq![].push(ws).push(Seq::<Seq<char>>::empty()) =~= seq![ws, Seq::<Seq<char>>::empty()]);
}

/// The vertex numbers of a written face name, for a reader that has read all
/// vertices, the vertices that the face was written with.
proof fn lemma_face_numbers_read(keys: Seq<VertexKey>, p: Seq<usize>)
    requires
        keys.len() <= i32::MAX,
        indices_within(p, keys.len()),
    ensures
        face_indices(face_line_words(keys, p).skip(1), keys.len()) == Some(saved_face(keys, p)),
    decreases p.len(),
{
    let n: nat = keys.len();
    let ws = face_line_words(keys, p).skip(1);
    if p.len() == 0 {
        assert(ws =~= seq![]);
        assert(saved_face(keys, p) =~= seq![]);
    } else {
        let q = p.drop_last();
        assert(indices_within(q, n)) by {
            assert forall|j: int| 0 <= j < q.len() implies #[trigger] q[j] < n by {
                assert(q[j] == p[j]);
            }
        }
        lemma_face_numbers_read(keys, q);
        assert(ws.drop_last() =~= face_line_words(keys, q).skip(1));
        let v: usize = p.last();
        assert(v < n) by {
            assert(p[p.len() - 1] < n);
        }
        law_every_vertex_key_found(keys, v as int);
        let m: usize = key_map(keys)[keys[v as int]];
        let d = decimal((m + 1) as nat);
        assert(ws.last() == d);
        lemma_decimal((m + 1) as nat);
        law_decimal_parses_back((m + 1) as nat);
        assert(before_slash(d) == d) by {
            d.index_of_first_ensures('/');
            if let Some(k) = d.index_of_first('/') {
                assert(is_digit(d[k]));
            }
        }
        assert(face_word_index(d, n) == Some(Some(m)));
        assert(saved_face(keys, p) =~= saved_face(keys, q).push(m));
    }
}

/// What a reader makes of a written face: once all vertices of the model are read,
/// the line of a face `p` with at least three vertices adds the face that names,
/// for each vertex of `p`, the last vertex with the same position; the line of a
/// smaller face adds nothing; and the line ends the face, so what follows starts a
/// new line. Vertex numbers are read as `i32`, so the model has at most
/// `i32::MAX` vertices.
pub proof fn law_face_line_read_back(keys: Seq<VertexKey>, p: Seq<usize>, acc: ObjView)
    requires
        keys.len() <= i32::MAX,
        acc.0.len() == keys.len(),
        indices_within(p, keys.len()),
    ensures
        text_lines(face_line_spec(keys, p)).len() == 2,
        read_line(acc, text_lines(face_line_spec(keys, p))[0]) == Some(
            if p.len() >= 3 {
                (acc.0, acc.1.push(saved_face(keys, p)))
            } else {
                acc
            },
        ),
        text_lines(face_line_spec(keys, p))[1].len() == 0,
        forall|a: ObjView| read_line(a, #[trigger] text_lines(face_line_spec(keys, p))[1]) == Some(a),
{
    lemma_face_line_lines(keys, p);
    let line = face_line_words(keys, p);
    assert(line[0] =~= seq!['f']);
    assert(line.len() == p.len() + 1);
    assert(is_word(line[0], 'f'));
    assert(!is_word(line[0], 'v'));
    if p.len() >= 3 {
        lemma_face_numbers_read(keys, p);
    }
}

/// Where no two vertices share a position key, a written face names exactly its
/// own vertices.
pub proof fn law_distinct_keys_saved_exactly(keys: Seq<VertexKey>, p: Seq<usize>)
    requires
        keys.len() <= usize::MAX,
        forall|i: int, j: int| 0 <= i < j < keys.len() ==> keys[i] != keys[j],
        indices_within(p, keys.len()),
    ensures
        saved_face(keys, p) == p,
{
    assert forall|j: int| 0 <= j < p.len() implies #[trigger] saved_face(keys, p)[j] == p[j] by {
        let v: int = p[j] as int;
        law_every_vertex_key_found(keys, v);
        let m: int = key_map(keys)[keys[v]] as int;
        if m != v {
            assert(keys[v] != keys[m]);
        }
    }
    assert(saved_face(keys, p) =~= p);
}

// ----------------------------------------------------------------------
// The whole file
// ----------------------------------------------------------------------

/// The text of an OBJ file of a model whose vertices are written with the words
/// `vertices`, whose vertex keys are `keys` and whose faces are `polygons`: the
/// header, the vertex lines, an empty line and the face lines. `InvalidData` where a
/// face names a vertex that the model does not have.
///
/// Where the model has at most `i32::MAX` vertices and its coordinate words are
/// plain (non-empty, without whitespace), reading the text back gives those words
/// and the faces as [`saved_faces`] gives them.
pub fn obj_text(vertices: &Vec<VertexWords>, keys: &[VertexKey], polygons: &Vec<Polygon3>) -> (r:
    Result<Vec<char>, ObjSaveError>)
    requires
        keys@.len() == vertices@.len(),
    ensures
        match r {
            Ok(text) => polygons_within(polygons_view(polygons@), keys@.len()) && text@
                == obj_file_text(vertices_view(vertices@), keys@, polygons_view(polygons@)),
            Err(e) => e == ObjSaveError::InvalidData && !polygons_within(
                polygons_view(polygons@),
                keys@.len(),
            ),
        },
        r matches Ok(text) ==> (keys@.len() <= i32::MAX && plain_vertices(vertices_view(vertices@))
            ==> parse_obj_spec(text@) == if vertices@.len() > 0 && saved_faces(
            keys@,
            polygons_view(polygons@),
        ).len() > 0 {
            Ok((vertices_view(vertices@), saved_faces(keys@, polygons_view(polygons@))))
        } else {
            Err(ObjLoadError::InvalidFormat)
        }),
{
    let ghost ws = vertices_view(vertices@);
    let ghost ps = polygons_view(polygons@);
    let mut out = obj_header(vertices.len(), polygons.len());
    let ghost header = out@;
    let mut i: usize = 0;
    assert(ws.take(0) =~= Seq::<(Seq<char>, Seq<char>, Seq<char>)>::empty());
    assert(out@ =~= header + vertices_text(ws.take(0)));
    while i < vertices.len()
        invariant
            i <= vertices@.len(),
            ws == vertices_view(vertices@),
            out@ == header + vertices_text(ws.take(i as int)),
        decreases vertices.len() - i,
    {
        let v = &vertices[i];
        let line = vertex_line(&v.x, &v.y, &v.z);
        push_chars(&mut out, &line);
        let ghost next = ws.take(i + 1);
        assert(next.drop_last() =~= ws.take(i as int));
        assert(next.last() == v@);
        i += 1;
    }
    assert(ws.take(i as int) =~= ws);
    out.push('\n');
    let ghost body = out@;
    let map = create_vertex_coordinate_map(keys);
    let mut j: usize = 0;
    assert(ps.take(0) =~= Seq::<Seq<usize>>::empty());
    assert(out@ =~= body + faces_text(keys@, ps.take(0)));
    while j < polygons.len()
        invariant
            j <= polygons@.len(),
            ps == polygons_view(polygons@),
            map@ == key_map(keys@),
            out@ == body + faces_text(keys@, ps.take(j as int)),
            polygons_within(ps.take(j as int), keys@.len()),
        decreases polygons.len() - j,
    {
        assert(ps[j as int] == polygons@[j as int]@);
        match face_line(keys, &map, &polygons[j]) {
            Ok(line) => {
                push_chars(&mut out, &line);
                let ghost next = ps.take(j + 1);
                assert(next.drop_last() =~= ps.take(j as int));
                assert(next.last() == ps[j as int]);
                assert(polygons_within(next, keys@.len())) by {
                    assert forall|k: int| 0 <= k < next.len() implies indices_within(
                        #[trigger] next[k],
                        keys@.len(),
                    ) by {
                        if k < j {
                            assert(next[k] == ps.take(j as int)[k]);
                        }
                    }
                }
                j += 1;
            },
            Err(e) => {
                assert(!indices_within(ps[j as int], keys@.len()));
                return Err(e);
            },
        }
    }
    assert(ps.take(j as int) =~= ps);
    assert(out@ =~= obj_file_text(ws, keys@, ps));
    proof {
        if keys@.len() <= i32::MAX && plain_vertices(ws) {
            law_saved_file_read_back(ws, keys@, ps);
        }
    }
    Ok(out)
}

} // verus!
