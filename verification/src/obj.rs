//! The Wavefront OBJ text format: reading the vertices and faces of a model,
//! writing its header and its faces.
//!
//! Vertex coordinates are real numbers; this module hands them on as the words
//! that write them and leaves the conversion to the caller.

use vstd::prelude::*;
use crate::polygon::Polygon3;
use crate::topology::indices_within;
use crate::text::{
    char_is_whitespace, decimal, digits_value, has_sign, is_digit, is_whitespace,
    law_decimal_parses_back, lemma_decimal, numeral_digits, numeral_value, parse_i32,
    parse_i32_spec, push_decimal,
};

verus! {

/// Errors while reading an OBJ file.
#[derive(Debug, PartialEq, Eq, Structural, Clone, Copy)]
pub enum ObjLoadError {
    FileNotFound,
    InvalidFormat,
    UnsupportedFeature,
}

/// Errors while writing an OBJ file.
#[derive(Debug, PartialEq, Eq, Structural, Clone, Copy)]
pub enum ObjSaveError {
    WriteError,
    InvalidData,
}

/// The three words of a vertex line `v x y z`, still as text.
#[derive(Debug)]
pub struct VertexWords {
    pub x: Vec<char>,
    pub y: Vec<char>,
    pub z: Vec<char>,
}

impl View for VertexWords {
    type V = (Seq<char>, Seq<char>, Seq<char>);

    open spec fn view(&self) -> (Seq<char>, Seq<char>, Seq<char>) {
        (self.x@, self.y@, self.z@)
    }
}

/// What an OBJ text describes: its vertices, as words, and its faces.
#[derive(Debug)]
pub struct ObjData {
    pub vertices: Vec<VertexWords>,
    pub polygons: Vec<Polygon3>,
}

/// The vertices of an OBJ text, each as its three coordinate words.
pub type VerticesView = Seq<(Seq<char>, Seq<char>, Seq<char>)>;

/// What has been read of an OBJ text: its vertices and its faces.
pub type ObjView = (VerticesView, Seq<Seq<usize>>);

pub open spec fn vertices_view(v: Seq<VertexWords>) -> VerticesView {
    v.map_values(|w: VertexWords| w@)
}

pub open spec fn polygons_view(p: Seq<Polygon3>) -> Seq<Seq<usize>> {
    p.map_values(|q: Polygon3| q@)
}

pub open spec fn words_view(w: Seq<Vec<char>>) -> Seq<Seq<char>> {
    w.map_values(|x: Vec<char>| x@)
}

impl View for ObjData {
    type V = ObjView;

    open spec fn view(&self) -> ObjView {
        (vertices_view(self.vertices@), polygons_view(self.polygons@))
    }
}

// ----------------------------------------------------------------------
// Lines and words
// ----------------------------------------------------------------------

/// `words` with the word `current` added, if `current` is not empty.
pub open spec fn close_word(words: Seq<Seq<char>>, current: Seq<char>) -> Seq<Seq<char>> {
    if current.len() > 0 {
        words.push(current)
    } else {
        words
    }
}

/// Reading `t` from the left: the lines already ended by a line feed (each as the
/// list of its words), the words of the current line, and the word being read.
pub open spec fn scan(t: Seq<char>) -> (Seq<Seq<Seq<char>>>, Seq<Seq<char>>, Seq<char>)
    decreases t.len(),
{
    if t.len() == 0 {
        (seq![], seq![], seq![])
    } else {
        let (lines, words, current) = scan(t.drop_last());
        let c = t.last();
        if c == '\n' {
            (lines.push(close_word(words, current)), seq![], seq![])
        } else if is_whitespace(c) {
            (lines, close_word(words, current), seq![])
        } else {
            (lines, words, current.push(c))
        }
    }
}

/// The text `t` cut into lines at each line feed, each line cut into the words
/// that whitespace separates (as `BufRead::lines`, `str::trim` and
/// `str::split_whitespace` do together).
pub open spec fn text_lines(t: Seq<char>) -> Seq<Seq<Seq<char>>> {
    let (lines, words, current) = scan(t);
    lines.push(close_word(words, current))
}

// ----------------------------------------------------------------------
// The meaning of the lines
// ----------------------------------------------------------------------

/// The part of a face word before its first `/` (`v` of `v/vt/vn`).
pub open spec fn before_slash(w: Seq<char>) -> Seq<char> {
    match w.index_of_first('/') {
        Some(i) => w.take(i),
        None => w,
    }
}

/// The vertex index that the face word `w` names when `n` vertices have been
/// read: `Some(Some(i))` for vertex `i`, `Some(None)` for the word `0`, which is
/// passed over, and `None` where the word is no index or names no read vertex.
/// Indices count from 1; negative ones count back from the last vertex read.
pub open spec fn face_word_index(w: Seq<char>, n: nat) -> Option<Option<usize>> {
    match parse_i32_spec(before_slash(w)) {
        None => None,
        Some(v) => if v > 0 {
            if v <= n {
                Some(Some((v - 1) as usize))
            } else {
                None
            }
        } else if v < 0 {
            if n + v >= 0 {
                Some(Some((n + v) as usize))
            } else {
                None
            }
        } else {
            Some(None)
        },
    }
}

/// The vertex indices of the face words `ws`, in order; `None` if one of them
/// is not a valid index.
pub open spec fn face_indices(ws: Seq<Seq<char>>, n: nat) -> Option<Seq<usize>>
    decreases ws.len(),
{
    if ws.len() == 0 {
        Some(seq![])
    } else {
        match face_indices(ws.drop_last(), n) {
            None => None,
            Some(acc) => match face_word_index(ws.last(), n) {
                None => None,
                Some(None) => Some(acc),
                Some(Some(i)) => Some(acc.push(i)),
            },
        }
    }
}

/// Is `w` the one-character word `c`?
pub open spec fn is_word(w: Seq<char>, c: char) -> bool {
    w.len() == 1 && w[0] == c
}

/// What the line with the words `line` adds to what has been read, `acc`.
/// Comments, short lines and unknown keywords add nothing; `v x y z ...` adds a
/// vertex; `f a b c ...` adds a face with at least three vertices. `None` where a
/// face names no vertex that has been read.
pub open spec fn read_line(acc: ObjView, line: Seq<Seq<char>>) -> Option<ObjView> {
    let (vertices, faces) = acc;
    if line.len() < 2 || (line[0].len() > 0 && line[0][0] == '#') {
        Some(acc)
    } else if is_word(line[0], 'v') {
        if line.len() >= 4 {
            Some((vertices.push((line[1], line[2], line[3])), faces))
        } else {
            Some(acc)
        }
    } else if is_word(line[0], 'f') {
        if line.len() >= 4 {
            match face_indices(line.skip(1), vertices.len()) {
                None => None,
                Some(face) => if face.len() >= 3 {
                    Some((vertices, faces.push(face)))
                } else {
                    Some(acc)
                },
            }
        } else {
            Some(acc)
        }
    } else {
        Some(acc)
    }
}

/// What the lines `lines` describe, read in order from nothing; `None` once a
/// line is invalid.
pub open spec fn read_lines(lines: Seq<Seq<Seq<char>>>) -> Option<ObjView>
    decreases lines.len(),
{
    if lines.len() == 0 {
        Some((seq![], seq![]))
    } else {
        match read_lines(lines.drop_last()) {
            None => None,
            Some(acc) => read_line(acc, lines.last()),
        }
    }
}

/// What reading the OBJ text `t` gives: its vertices and faces, or
/// `InvalidFormat` where a line is invalid or where there is no vertex or no face.
pub open spec fn parse_obj_spec(t: Seq<char>) -> Result<ObjView, ObjLoadError> {
    match read_lines(text_lines(t)) {
        None => Err(ObjLoadError::InvalidFormat),
        Some(acc) => if acc.0.len() == 0 || acc.1.len() == 0 {
            Err(ObjLoadError::InvalidFormat)
        } else {
            Ok(acc)
        },
    }
}

// ----------------------------------------------------------------------
// Reading
// ----------------------------------------------------------------------

fn copy_word(w: &Vec<char>) -> (r: Vec<char>)
    ensures
        r@ == w@,
{
    vstd::slice::slice_to_vec(w.as_slice())
}

/// The length of the part of `w` before its first `/`.
fn slash_position(w: &Vec<char>) -> (k: usize)
    ensures
        k <= w@.len(),
        before_slash(w@) == w@.take(k as int),
{
    let mut i: usize = 0;
    while i < w.len() && w[i] != '/'
        invariant
            i <= w@.len(),
            forall|j: int| 0 <= j < i ==> w@[j] != '/',
        decreases w@.len() - i,
    {
        i += 1;
    }
    proof {
        w@.index_of_first_ensures('/');
        if i < w@.len() {
            assert(w@[i as int] == '/');
            match w@.index_of_first('/') {
                Some(j) => {
                    if j < i {
                        assert(w@[j] != '/');
                    }
                    if j > i {
                        assert(w@[i as int] != '/');
                    }
                    assert(j == i);
                },
                None => {
                    assert(w@.contains('/'));
                },
            }
        } else {
            assert(w@.take(i as int) =~= w@);
            match w@.index_of_first('/') {
                Some(j) => {
                    assert(w@[j] != '/');
                },
                None => {},
            }
        }
    }
    i
}

/// The vertex index that the face word `w` names when `n` vertices have been read.
fn face_word_value(w: &Vec<char>, n: usize) -> (r: Option<Option<usize>>)
    ensures
        r == face_word_index(w@, n as nat),
{
    let k: usize = slash_position(w);
    match parse_i32(w.as_slice(), k) {
        None => None,
        Some(v) => {
            if v > 0 {
                let u: usize = v as usize;
                if u <= n {
                    Some(Some(u - 1))
                } else {
                    None
                }
            } else if v < 0 {
                let m: usize = (-(v as i64)) as usize;
                if m <= n {
                    Some(Some(n - m))
                } else {
                    None
                }
            } else {
                Some(None)
            }
        },
    }
}

/// The vertex indices of a face line `f a b c ...` (its words after the first)
/// when `n` vertices have been read; `None` if a word is not a valid index.
fn read_face(line: &Vec<Vec<char>>, n: usize) -> (r: Option<Vec<usize>>)
    requires
        line@.len() >= 1,
    ensures
        match face_indices(words_view(line@).skip(1), n as nat) {
            None => r is None,
            Some(face) => r matches Some(v) && v@ == face,
        },
{
    let ghost ws = words_view(line@).skip(1);
    let mut face: Vec<usize> = Vec::new();
    let mut ok = true;
    let mut j: usize = 1;
    while j < line.len()
        invariant
            1 <= j <= line@.len(),
            ws == words_view(line@).skip(1),
            ok ==> face_indices(ws.take(j - 1), n as nat) == Some(face@),
            !ok ==> face_indices(ws.take(j - 1), n as nat) is None,
        decreases line@.len() - j,
    {
        let ghost prev = ws.take(j - 1);
        let ghost next = ws.take(j as int);
        assert(next.drop_last() =~= prev);
        assert(next.last() == line@[j as int]@);
        if ok {
            match face_word_value(&line[j], n) {
                None => {
                    ok = false;
                },
                Some(None) => {},
                Some(Some(i)) => {
                    face.push(i);
                },
            }
        }
        j += 1;
    }
    assert(ws.take(j - 1) =~= ws);
    if ok {
        Some(face)
    } else {
        None
    }
}

/// Apply the line with the words `line` to what has been read so far.
/// Returns `false` exactly where the line is invalid.
fn read_line_into(vertices: &mut Vec<VertexWords>, polygons: &mut Vec<Polygon3>, line: &Vec<Vec<char>>) -> (ok: bool)
    ensures
        match read_line(
            (vertices_view(old(vertices)@), polygons_view(old(polygons)@)),
            words_view(line@),
        ) {
            None => !ok,
            Some(acc) => ok && vertices_view(final(vertices)@) == acc.0 && polygons_view(
                final(polygons)@,
            ) == acc.1,
        },
{
    let ghost words = words_view(line@);
    if line.len() < 2 {
        return true;
    }
    assert(words[0] == line@[0]@);
    if line[0].len() > 0 && line[0][0] == '#' {
        return true;
    }
    if line[0].len() == 1 && line[0][0] == 'v' {
        if line.len() >= 4 {
            let ghost old_v = vertices_view(vertices@);
            let vertex = VertexWords { x: copy_word(&line[1]), y: copy_word(&line[2]), z: copy_word(&line[3]) };
            vertices.push(vertex);
            assert(vertices_view(vertices@) =~= old_v.push((words[1], words[2], words[3])));
        }
        return true;
    }
    if line[0].len() == 1 && line[0][0] == 'f' {
        if line.len() >= 4 {
            match read_face(line, vertices.len()) {
                None => {
                    return false;
                },
                Some(face) => {
                    if face.len() >= 3 {
                        let ghost old_p = polygons_view(polygons@);
                        let p = Polygon3::from_vec(face);
                        polygons.push(p);
                        assert(polygons_view(polygons@) =~= old_p.push(p@));
                    }
                },
            }
        }
        return true;
    }
    true
}

/// Read an OBJ text.
///
/// Lines are cut into words at whitespace; empty lines, comments (`#`), lines of
/// fewer than two words and lines of other kinds are passed over. A line
/// `v x y z ...` gives a vertex (its coordinate words are kept as text); a line
/// `f a b c ...` gives a face when at least three of its words name vertices. A face
/// word is an index counted from 1, or counted back from the last vertex read when
/// negative, optionally followed by `/` and more; `0` is passed over. Any other
/// face word, or one that names a vertex not read yet, makes the text invalid, and
/// so does a text without vertices or without faces.
pub fn parse_obj(text: &[char]) -> (r: Result<ObjData, ObjLoadError>)
    ensures
        match parse_obj_spec(text@) {
            Err(e) => r == Err::<ObjData, ObjLoadError>(e),
            Ok(acc) => r matches Ok(d) && d@ == acc,
        },
        r matches Ok(d) ==> faces_valid(d@),
{
    let mut vertices: Vec<VertexWords> = Vec::new();
    let mut polygons: Vec<Polygon3> = Vec::new();
    let mut failed = false;
    let mut words: Vec<Vec<char>> = Vec::new();
    let mut current: Vec<char> = Vec::new();
    let mut i: usize = 0;
    assert(vertices_view(vertices@) =~= seq![]);
    assert(polygons_view(polygons@) =~= seq![]);
    assert(text@.take(0) =~= seq![]);
    while i < text.len()
        invariant
            i <= text@.len(),
            words_view(words@) == scan(text@.take(i as int)).1,
            current@ == scan(text@.take(i as int)).2,
            forall|k: int| 0 <= k < words@.len() ==> (#[trigger] words@[k])@.len() > 0,
            failed ==> read_lines(scan(text@.take(i as int)).0) is None,
            !failed ==> read_lines(scan(text@.take(i as int)).0) == Some(
                (vertices_view(vertices@), polygons_view(polygons@)),
            ),
        decreases text@.len() - i,
    {
        let ghost prev = text@.take(i as int);
        let ghost next = text@.take(i + 1);
        assert(next.drop_last() =~= prev);
        assert(next.last() == text@[i as int]);
        let ghost (ls, ws, cur) = scan(prev);
        let c = text[i];
        if c == '\n' {
            if current.len() > 0 {
                words.push(current);
                current = Vec::new();
            }
            let ghost line = close_word(ws, cur);
            assert(words_view(words@) =~= line);
            assert(scan(next).0.drop_last() =~= ls);
            if !failed {
                let ok = read_line_into(&mut vertices, &mut polygons, &words);
                failed = !ok;
            }
            words = Vec::new();
            assert(words_view(words@) =~= seq![]);
            assert(current@ =~= seq![]);
        } else if char_is_whitespace(c) {
            if current.len() > 0 {
                words.push(current);
                current = Vec::new();
            }
            assert(words_view(words@) =~= close_word(ws, cur));
            assert(current@ =~= seq![]);
        } else {
            current.push(c);
        }
        i += 1;
    }
    assert(text@.take(i as int) =~= text@);
    if current.len() > 0 {
        words.push(current);
    }
    let ghost (ls, ws, cur) = scan(text@);
    assert(words_view(words@) =~= close_word(ws, cur));
    assert(text_lines(text@).drop_last() =~= ls);
    if !failed {
        let ok = read_line_into(&mut vertices, &mut polygons, &words);
        failed = !ok;
    }
    if failed || vertices.len() == 0 || polygons.len() == 0 {
        return Err(ObjLoadError::InvalidFormat);
    }
    let data = ObjData { vertices, polygons };
    proof {
        law_parsed_faces_valid(text@);
    }
    Ok(data)
}

// ----------------------------------------------------------------------
// What is read makes a mesh
// ----------------------------------------------------------------------

/// Does every face of `acc` have at least three vertices, all among the vertices of `acc`?
pub open spec fn faces_valid(acc: ObjView) -> bool {
    forall|i: int|
        0 <= i < acc.1.len() ==> #[trigger] acc.1[i].len() >= 3 && indices_within(
            acc.1[i],
            acc.0.len(),
        )
}

/// The indices that face words name are below the vertex count.
proof fn lemma_face_indices_within(ws: Seq<Seq<char>>, n: nat)
    requires
        n <= usize::MAX,
    ensures
        face_indices(ws, n) matches Some(f) ==> indices_within(f, n),
    decreases ws.len(),
{
    if ws.len() > 0 {
        lemma_face_indices_within(ws.drop_last(), n);
        if let Some(acc) = face_indices(ws.drop_last(), n) {
            if let Some(Some(i)) = face_word_index(ws.last(), n) {
                let f = acc.push(i);
                assert forall|j: int| 0 <= j < f.len() implies #[trigger] f[j] < n by {
                    if j < acc.len() {
                        assert(f[j] == acc[j]);
                    }
                }
            }
        }
    }
}

/// A line keeps the faces read so far valid, and never loses a vertex.
proof fn lemma_read_line_valid(acc: ObjView, line: Seq<Seq<char>>)
    requires
        faces_valid(acc),
        read_line(acc, line) matches Some(next) && next.0.len() <= usize::MAX,
    ensures
        read_line(acc, line) matches Some(next) && faces_valid(next) && acc.0.len() <= next.0.len(),
{
    let next = read_line(acc, line).unwrap();
    if !(line.len() < 2 || (line[0].len() > 0 && line[0][0] == '#')) && !is_word(line[0], 'v')
        && is_word(line[0], 'f') && line.len() >= 4 {
        lemma_face_indices_within(line.skip(1), acc.0.len());
    }
    assert forall|i: int| 0 <= i < next.1.len() implies #[trigger] next.1[i].len() >= 3
        && indices_within(next.1[i], next.0.len()) by {
        if i < acc.1.len() {
            assert(next.1[i] == acc.1[i]);
            assert(indices_within(acc.1[i], acc.0.len()));
        }
    }
}

/// Whatever lines are read, the faces that come out are valid.
proof fn lemma_read_lines_valid(lines: Seq<Seq<Seq<char>>>)
    requires
        read_lines(lines) matches Some(acc) && acc.0.len() <= usize::MAX,
    ensures
        read_lines(lines) matches Some(acc) && faces_valid(acc),
    decreases lines.len(),
{
    if lines.len() > 0 {
        let prev = read_lines(lines.drop_last()).unwrap();
        lemma_read_line_valid_bound(prev, lines.last());
        lemma_read_lines_valid(lines.drop_last());
        lemma_read_line_valid(prev, lines.last());
    }
}

/// A line never loses a vertex.
proof fn lemma_read_line_valid_bound(acc: ObjView, line: Seq<Seq<char>>)
    ensures
        read_line(acc, line) matches Some(next) ==> acc.0.len() <= next.0.len(),
{
}

/// Every model read from an OBJ text is a valid mesh: each face has at least three
/// vertices, and names only vertices that the text defines.
pub proof fn law_parsed_faces_valid(t: Seq<char>)
    requires
        parse_obj_spec(t) matches Ok(acc) && acc.0.len() <= usize::MAX,
    ensures
        parse_obj_spec(t) matches Ok(acc) && faces_valid(acc),
{
    lemma_read_lines_valid(text_lines(t));
}

/// A vertex line `v x y z ...` (first word `v`, at least four words) adds the
/// vertex written by its second, third and fourth words, whatever words follow
/// them (a `w` coordinate, a colour); the faces stay as they were.
pub proof fn law_vertex_line_coordinates(acc: ObjView, line: Seq<Seq<char>>)
    requires
        line.len() >= 4,
        line[0] =~= seq!['v'],
    ensures
        read_line(acc, line) == Some((acc.0.push((line[1], line[2], line[3])), acc.1)),
        read_line(acc, line).unwrap().0.len() == acc.0.len() + 1,
        read_line(acc, line).unwrap().0.last() == (line[1], line[2], line[3]),
{
    assert(line[0][0] == 'v');
    assert(is_word(line[0], 'v'));
}

/// A vertex line with fewer than four words adds nothing.
pub proof fn law_short_vertex_line_ignored(acc: ObjView, line: Seq<Seq<char>>)
    requires
        line.len() < 4,
        line.len() >= 1,
        line[0] =~= seq!['v'],
    ensures
        read_line(acc, line) == Some(acc),
{
    assert(line[0][0] == 'v');
}

/// Comment lines, lines of fewer than two words and lines whose first word is
/// neither `v` nor `f` add nothing to what has been read.
pub proof fn law_other_lines_ignored(acc: ObjView, line: Seq<Seq<char>>)
    requires
        line.len() < 2 || (line[0].len() > 0 && line[0][0] == '#') || (!(line[0] =~= seq!['v'])
            && !(line[0] =~= seq!['f'])),
    ensures
        read_line(acc, line) == Some(acc),
{
    if line.len() >= 2 && !(line[0].len() > 0 && line[0][0] == '#') {
        if is_word(line[0], 'v') {
            assert(line[0] =~= seq!['v']);
        }
        if is_word(line[0], 'f') {
            assert(line[0] =~= seq!['f']);
        }
    }
}

/// The index that a face word names, for `n` vertices read: the numeral of `m`
/// with `1 <= m <= n` names vertex `m - 1`, the numeral of `-m` with
/// `1 <= m <= n` names vertex `n - m`, `0` names none (the word is passed over),
/// and whatever follows a `/` does not matter.
pub proof fn law_face_word_indices(m: nat, n: nat, rest: Seq<char>)
    requires
        1 <= m <= n,
        n <= i32::MAX,
    ensures
        face_word_index(decimal(m), n) == Some(Some((m - 1) as usize)),
        face_word_index(decimal(m) + seq!['/'] + rest, n) == Some(Some((m - 1) as usize)),
        face_word_index(seq!['-'] + decimal(m), n) == Some(Some((n - m) as usize)),
        face_word_index(seq!['0'], n) == Some(None::<usize>),
{
    lemma_decimal(m);
    law_decimal_parses_back(m);
    let d = decimal(m);
    lemma_no_slash(d);
    let w = d + seq!['/'] + rest;
    w.index_of_first_ensures('/');
    assert(w[d.len() as int] == '/');
    let k = w.index_of_first('/').unwrap();
    if k < d.len() {
        assert(w[k] == d[k]);
        assert(is_digit(d[k]));
    }
    assert(k == d.len());
    assert(w.take(k) =~= d);
    let neg = seq!['-'] + d;
    lemma_no_slash(neg);
    assert(has_sign(neg));
    assert(numeral_digits(neg) =~= d);
    assert(numeral_value(neg) == -(m as int));
    let z = seq!['0'];
    lemma_no_slash(z);
    assert(numeral_digits(z) == z);
    assert(z.drop_last() =~= Seq::<char>::empty());
    assert(z.last() == '0');
    assert(('0' as u32) == 48);
    assert(digits_value(Seq::<char>::empty()) == 0);
    assert(digits_value(z) == digits_value(z.drop_last()) * 10 + crate::text::digit_value(
        z.last(),
    ));
    assert(digits_value(z) == 0);
    assert(is_digit('0'));
}

/// A word without `/` is a face word as it is.
proof fn lemma_no_slash(w: Seq<char>)
    requires
        forall|i: int| 0 <= i < w.len() ==> (#[trigger] w[i] == '-' || is_digit(w[i])),
    ensures
        before_slash(w) == w,
{
    w.index_of_first_ensures('/');
    if let Some(k) = w.index_of_first('/') {
        assert(w[k] == '/');
    }
}

/// The numerals of the 1-based vertex numbers `ms`, as face words.
pub open spec fn numeral_words(ms: Seq<nat>) -> Seq<Seq<char>> {
    Seq::new(ms.len(), |j: int| decimal(ms[j]))
}

proof fn lemma_face_numerals(ms: Seq<nat>, n: nat)
    requires
        n <= i32::MAX,
        forall|j: int| 0 <= j < ms.len() ==> 1 <= #[trigger] ms[j] <= n,
    ensures
        face_indices(numeral_words(ms), n) == Some(
            Seq::new(ms.len(), |j: int| (ms[j] - 1) as usize),
        ),
    decreases ms.len(),
{
    let target = Seq::new(ms.len(), |j: int| (ms[j] - 1) as usize);
    if ms.len() == 0 {
        assert(numeral_words(ms) =~= Seq::<Seq<char>>::empty());
        assert(target =~= Seq::<usize>::empty());
    } else {
        let q = ms.drop_last();
        assert forall|j: int| 0 <= j < q.len() implies 1 <= #[trigger] q[j] <= n by {
            assert(q[j] == ms[j]);
        }
        lemma_face_numerals(q, n);
        assert(numeral_words(ms).drop_last() =~= numeral_words(q));
        let m = ms[ms.len() - 1];
        assert(numeral_words(ms).last() == decimal(m));
        law_face_word_indices(m, n, seq![]);
        assert(target =~= Seq::new(q.len(), |j: int| (q[j] - 1) as usize).push((m - 1) as usize));
    }
}

/// A face line `f a b c ...` whose words are the numerals of 1-based vertex
/// numbers among the `n` vertices read so far adds the face of those vertices,
/// counted from 0 and in the order written, when it names at least three; the
/// vertices stay as they were.
pub proof fn law_face_line_numbers(acc: ObjView, ms: Seq<nat>)
    requires
        acc.0.len() <= i32::MAX,
        ms.len() >= 3,
        forall|j: int| 0 <= j < ms.len() ==> 1 <= #[trigger] ms[j] <= acc.0.len(),
    ensures
        read_line(acc, seq![seq!['f']] + numeral_words(ms)) == Some(
            (acc.0, acc.1.push(Seq::new(ms.len(), |j: int| (ms[j] - 1) as usize))),
        ),
{
    let line = seq![seq!['f']] + numeral_words(ms);
    lemma_face_numerals(ms, acc.0.len());
    assert(line[0] =~= seq!['f']);
    assert(line.skip(1) =~= numeral_words(ms));
    assert(is_word(line[0], 'f'));
    assert(!is_word(line[0], 'v'));
}

} // verus!
