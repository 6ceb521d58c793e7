//! Reading back what was written: the faces of a saved model, read again from
//! the saved text, are the faces that were saved.

use vstd::prelude::*;
use crate::export::{
    face_line_spec, law_face_line_read_back, obj_header_spec, saved_face, vertex_line_spec,
    VertexKey,
};
use crate::text::{decimal, is_whitespace, lemma_decimal};
use crate::obj::{
    close_word, is_word, parse_obj_spec, read_line, read_lines, scan, text_lines, ObjLoadError,
    ObjView, VerticesView,
};
use crate::topology::polygons_within;

verus! {

/// Reading continued from `start` (what has been read so far, `None` once the
/// text is invalid) over the lines `lines`.
pub open spec fn read_more(start: Option<ObjView>, lines: Seq<Seq<Seq<char>>>) -> Option<ObjView>
    decreases lines.len(),
{
    if lines.len() == 0 {
        start
    } else {
        match read_more(start, lines.drop_last()) {
            None => None,
            Some(acc) => read_line(acc, lines.last()),
        }
    }
}

/// The text of the face lines of the faces `ps`, in order.
pub open spec fn faces_text(keys: Seq<VertexKey>, ps: Seq<Seq<usize>>) -> Seq<char>
    decreases ps.len(),
{
    if ps.len() == 0 {
        seq![]
    } else {
        faces_text(keys, ps.drop_last()) + face_line_spec(keys, ps.last())
    }
}

/// The faces that a reader makes of the faces `ps` once written: those with at
/// least three vertices, each naming for every vertex the last vertex with the
/// same key.
pub open spec fn saved_faces(keys: Seq<VertexKey>, ps: Seq<Seq<usize>>) -> Seq<Seq<usize>>
    decreases ps.len(),
{
    if ps.len() == 0 {
        seq![]
    } else {
        saved_faces(keys, ps.drop_last()) + if ps.last().len() >= 3 {
            seq![saved_face(keys, ps.last())]
        } else {
            seq![]
        }
    }
}

/// Reading two lists of lines one after the other is reading their concatenation.
proof fn lemma_read_more_concat(start: Option<ObjView>, l1: Seq<Seq<Seq<char>>>, l2: Seq<Seq<Seq<char>>>)
    ensures
        read_more(start, l1 + l2) == read_more(read_more(start, l1), l2),
    decreases l2.len(),
{
    if l2.len() == 0 {
        assert(l1 + l2 =~= l1);
    } else {
        lemma_read_more_concat(start, l1, l2.drop_last());
        assert((l1 + l2).drop_last() =~= l1 + l2.drop_last());
        assert((l1 + l2).last() == l2.last());
    }
}

/// Reading from the start is reading on from nothing read.
proof fn lemma_read_lines_from_start(lines: Seq<Seq<Seq<char>>>)
    ensures
        read_lines(lines) == read_more(Some((seq![], seq![])), lines),
    decreases lines.len(),
{
    if lines.len() > 0 {
        lemma_read_lines_from_start(lines.drop_last());
    }
}

/// After a text that ends a line, the reader starts afresh: the lines of the
/// concatenation are the complete lines of the first text, then those of the second.
proof fn lemma_scan_concat(a: Seq<char>, b: Seq<char>)
    requires
        scan(a).1.len() == 0,
        scan(a).2.len() == 0,
    ensures
        scan(a + b) == (scan(a).0 + scan(b).0, scan(b).1, scan(b).2),
    decreases b.len(),
{
    if b.len() == 0 {
        assert(a + b =~= a);
        assert(scan(a).1 =~= Seq::<Seq<char>>::empty());
        assert(scan(a).2 =~= Seq::<char>::empty());
        assert(scan(a).0 + scan(b).0 =~= scan(a).0);
    } else {
        let b1 = b.drop_last();
        lemma_scan_concat(a, b1);
        assert((a + b).drop_last() =~= a + b1);
        assert((a + b).last() == b.last());
        let (l, w, c) = scan(b1);
        assert((scan(a).0 + l).push(close_word(w, c)) =~= scan(a).0 + l.push(close_word(w, c)));
    }
}

/// A text that ends with a line feed leaves no word pending.
proof fn lemma_scan_line_end(a: Seq<char>)
    requires
        a.len() > 0,
        a.last() == '\n',
    ensures
        scan(a).1.len() == 0,
        scan(a).2.len() == 0,
{
}

/// The text of written faces is empty or ends a line.
proof fn lemma_faces_text_end(keys: Seq<VertexKey>, ps: Seq<Seq<usize>>)
    ensures
        ps.len() == 0 ==> faces_text(keys, ps).len() == 0,
        ps.len() > 0 ==> faces_text(keys, ps).len() > 0 && faces_text(keys, ps).last() == '\n',
{
    if ps.len() > 0 {
        let f = face_line_spec(keys, ps.last());
        assert(f.last() == '\n');
        assert((faces_text(keys, ps.drop_last()) + f).last() == f.last());
    }
}

/// Reading the lines of written faces, from a state where all vertices have been
/// read, adds the saved faces.
proof fn lemma_read_faces(keys: Seq<VertexKey>, ps: Seq<Seq<usize>>, acc: ObjView)
    requires
        keys.len() <= i32::MAX,
        acc.0.len() == keys.len(),
        polygons_within(ps, keys.len()),
    ensures
        read_more(Some(acc), text_lines(faces_text(keys, ps))) == Some(
            (acc.0, acc.1 + saved_faces(keys, ps)),
        ),
    decreases ps.len(),
{
    if ps.len() == 0 {
        let t = faces_text(keys, ps);
        assert(t =~= Seq::<char>::empty());
        let tl = text_lines(t);
        assert(tl =~= seq![Seq::<Seq<char>>::empty()]);
        assert(tl.drop_last() =~= Seq::<Seq<Seq<char>>>::empty());
        assert(read_more(Some(acc), tl.drop_last()) == Some(acc));
        assert(read_line(acc, tl.last()) == Some(acc));
        assert(acc.1 + saved_faces(keys, ps) =~= acc.1);
    } else {
        let q = ps.drop_last();
        let p = ps.last();
        assert(polygons_within(q, keys.len())) by {
            assert forall|i: int| 0 <= i < q.len() implies crate::topology::indices_within(
                #[trigger] q[i],
                keys.len(),
            ) by {
                assert(q[i] == ps[i]);
            }
        }
        assert(crate::topology::indices_within(p, keys.len())) by {
            assert(ps[ps.len() - 1] == p);
        }
        lemma_read_faces(keys, q, acc);
        let a = faces_text(keys, q);
        let f = face_line_spec(keys, p);
        lemma_faces_text_end(keys, q);
        if q.len() > 0 {
            lemma_scan_line_end(a);
        } else {
            assert(a =~= Seq::<char>::empty());
        }
        lemma_scan_concat(a, f);
        assert(faces_text(keys, ps) == a + f);
        let body = scan(a).0;
        assert(text_lines(a) =~= body.push(Seq::<Seq<char>>::empty()));
        // what the earlier faces give
        let mid = (acc.0, acc.1 + saved_faces(keys, q));
        assert(read_more(Some(acc), body) == Some(mid)) by {
            assert(body.push(Seq::<Seq<char>>::empty()).drop_last() =~= body);
            if read_more(Some(acc), body) is None {
                assert(read_more(Some(acc), text_lines(a)) is None);
            }
        }
        law_face_line_read_back(keys, p, mid);
        let lf = text_lines(f);
        assert(text_lines(a + f) =~= body + lf) by {
            let (l2, w2, c2) = scan(f);
            assert((body + l2).push(close_word(w2, c2)) =~= body + l2.push(close_word(w2, c2)));
        }
        lemma_read_more_concat(Some(acc), body, lf);
        let after = if p.len() >= 3 {
            (mid.0, mid.1.push(saved_face(keys, p)))
        } else {
            mid
        };
        let s1 = lf.drop_last();
        assert(s1.len() == 1);
        assert(s1.drop_last() =~= Seq::<Seq<Seq<char>>>::empty());
        assert(s1.last() == lf[0]);
        assert(read_more(Some(mid), s1.drop_last()) == Some(mid));
        assert(read_more(Some(mid), s1) == Some(after));
        assert(lf.last() == lf[1]);
        assert(read_line(after, lf[1]) == Some(after));
        assert(read_more(Some(mid), lf) == Some(after));
        assert(after.1 =~= acc.1 + saved_faces(keys, ps));
        assert(read_more(Some(acc), body + lf) == Some(after));
    }
}

/// Saving then loading gives the saved faces back: a text that ends a line, from
/// which the reader has read exactly the vertices of the model, followed by the
/// face lines of the faces `ps`, reads as those vertices with, after the faces
/// read before, each face of `ps` of at least three vertices, every vertex
/// replaced by the last vertex with the same key. Vertex numbers are read as
/// `i32`, so the model has at most `i32::MAX` vertices.
pub proof fn law_saved_faces_read_back(
    prefix: Seq<char>,
    keys: Seq<VertexKey>,
    ps: Seq<Seq<usize>>,
)
    requires
        prefix.len() > 0,
        prefix.last() == '\n',
        read_lines(text_lines(prefix)) matches Some(acc) && acc.0.len() == keys.len(),
        keys.len() <= i32::MAX,
        polygons_within(ps, keys.len()),
    ensures
        read_lines(text_lines(prefix + faces_text(keys, ps))) == Some(
            (
                read_lines(text_lines(prefix)).unwrap().0,
                read_lines(text_lines(prefix)).unwrap().1 + saved_faces(keys, ps),
            ),
        ),
        parse_obj_spec(prefix + faces_text(keys, ps)) == if keys.len() > 0 && read_lines(
            text_lines(prefix),
        ).unwrap().1.len() + saved_faces(keys, ps).len() > 0 {
            Ok(
                (
                    read_lines(text_lines(prefix)).unwrap().0,
                    read_lines(text_lines(prefix)).unwrap().1 + saved_faces(keys, ps),
                ),
            )
        } else {
            Err(ObjLoadError::InvalidFormat)
        },
{
    let acc = read_lines(text_lines(prefix)).unwrap();
    let body = scan(prefix).0;
    lemma_scan_line_end(prefix);
    lemma_scan_concat(prefix, faces_text(keys, ps));
    assert(text_lines(prefix) =~= body.push(Seq::<Seq<char>>::empty()));
    assert(text_lines(prefix + faces_text(keys, ps)) =~= body + text_lines(faces_text(keys, ps)))
        by {
        let (l2, w2, c2) = scan(faces_text(keys, ps));
        assert((body + l2).push(close_word(w2, c2)) =~= body + l2.push(close_word(w2, c2)));
    }
    lemma_read_lines_from_start(text_lines(prefix));
    lemma_read_lines_from_start(body);
    lemma_read_lines_from_start(text_lines(prefix + faces_text(keys, ps)));
    assert(read_lines(body) == Some(acc)) by {
        assert(body.push(Seq::<Seq<char>>::empty()).drop_last() =~= body);
        if read_lines(body) is None {
            assert(read_lines(text_lines(prefix)) is None);
        }
    }
    lemma_read_more_concat(Some((seq![], seq![])), body, text_lines(faces_text(keys, ps)));
    lemma_read_faces(keys, ps, acc);
}

// ----------------------------------------------------------------------
// The header
// ----------------------------------------------------------------------

/// Does the line being read (complete words `words`, word being read `current`)
/// start with a word that begins with `#`?
pub open spec fn starts_comment(words: Seq<Seq<char>>, current: Seq<char>) -> bool {
    if words.len() > 0 {
        words[0].len() > 0 && words[0][0] == '#'
    } else {
        current.len() > 0 && current[0] == '#'
    }
}

/// Reading `#` and then text without a line feed: no line is complete yet, and
/// the line being read starts with a word that begins with `#`.
proof fn lemma_scan_comment(r: Seq<char>)
    requires
        forall|i: int| 0 <= i < r.len() ==> r[i] != '\n',
    ensures
        scan(seq!['#'] + r).0.len() == 0,
        starts_comment(scan(seq!['#'] + r).1, scan(seq!['#'] + r).2),
    decreases r.len(),
{
    let t = seq!['#'] + r;
    if r.len() == 0 {
        let e: Seq<char> = Seq::<char>::empty();
        assert(t =~= e.push('#'));
        assert(e.push('#').drop_last() =~= e);
        assert(e.push('#').last() == '#');
        assert(!is_whitespace('#'));
        assert(scan(e) == (Seq::<Seq<Seq<char>>>::empty(), Seq::<Seq<char>>::empty(), e));
        assert(scan(e.push('#')) == (Seq::<Seq<Seq<char>>>::empty(), Seq::<Seq<char>>::empty(), e.push('#')));
        assert(e.push('#')[0] == '#');
    } else {
        let r1 = r.drop_last();
        lemma_scan_comment(r1);
        assert(t.drop_last() =~= seq!['#'] + r1);
        assert(t.last() == r.last());
        assert(r[r.len() - 1] != '\n');
        let (l, w, c) = scan(seq!['#'] + r1);
        if w.len() == 0 {
            assert(c.len() > 0);
            assert(close_word(w, c) =~= seq![c]);
            assert(c.push(r.last())[0] == c[0]);
        } else {
            assert(close_word(w, c)[0] == w[0]);
        }
    }
}

/// A comment line: `#`, text without a line feed, and a line feed. After a text
/// that ends a line, it adds one line that the reader passes over.
proof fn lemma_comment_line(a: Seq<char>, r: Seq<char>)
    requires
        scan(a).1.len() == 0,
        scan(a).2.len() == 0,
        forall|i: int| 0 <= i < r.len() ==> r[i] != '\n',
    ensures
        scan(a + (seq!['#'] + r).push('\n')).1.len() == 0,
        scan(a + (seq!['#'] + r).push('\n')).2.len() == 0,
        scan(a + (seq!['#'] + r).push('\n')).0.len() == scan(a).0.len() + 1,
        scan(a + (seq!['#'] + r).push('\n')).0.drop_last() == scan(a).0,
        forall|acc: ObjView| read_line(acc, #[trigger] scan(a + (seq!['#'] + r).push('\n')).0.last()) == Some(acc),
{
    let t = (seq!['#'] + r).push('\n');
    lemma_scan_comment(r);
    lemma_scan_concat(a, t);
    assert(t.drop_last() =~= seq!['#'] + r);
    let (l, w, c) = scan(seq!['#'] + r);
    let line = close_word(w, c);
    assert(scan(t).0 =~= seq![line]);
    assert(line.len() > 0 && line[0].len() > 0 && line[0][0] == '#') by {
        if w.len() == 0 {
            assert(line =~= seq![c]);
        } else {
            assert(line[0] == w[0]);
        }
    }
    assert((scan(a).0 + seq![line]).drop_last() =~= scan(a).0);
}

/// The text of the header, regrouped as its two comment lines and an empty line.
proof fn lemma_header_shape(n: nat, m: nat)
    ensures
        obj_header_spec(n, m) == (seq!['#'] + header_first_rest()).push('\n') + (seq!['#']
            + header_second_rest(n, m)).push('\n') + seq!['\n'],
        forall|i: int| 0 <= i < header_first_rest().len() ==> header_first_rest()[i] != '\n',
        forall|i: int|
            0 <= i < header_second_rest(n, m).len() ==> header_second_rest(n, m)[i] != '\n',
{
    reveal_strlit("# Wavefront OBJ file exported from AthenianApp\n");
    reveal_strlit("# Vertices: ");
    reveal_strlit(", Faces: ");
    reveal_strlit("\n\n");
    reveal_strlit(" Wavefront OBJ file exported from AthenianApp");
    reveal_strlit(" Vertices: ");
    lemma_decimal(n);
    lemma_decimal(m);
    let dn = decimal(n);
    let dm = decimal(m);
    assert forall|i: int| 0 <= i < dn.len() implies dn[i] != '\n' by {
        assert(crate::text::is_digit(dn[i]));
    }
    assert forall|i: int| 0 <= i < dm.len() implies dm[i] != '\n' by {
        assert(crate::text::is_digit(dm[i]));
    }
    let r2 = header_second_rest(n, m);
    assert forall|i: int| 0 <= i < r2.len() implies r2[i] != '\n' by {
        let k: int = " Vertices: "@.len() as int;
        if i < k {
        } else if i < k + dn.len() {
            assert(r2[i] == dn[i - k]);
        } else if i < k + dn.len() + ", Faces: "@.len() {
        } else {
            assert(r2[i] == dm[i - k - dn.len() - ", Faces: "@.len()]);
        }
    }
    assert(obj_header_spec(n, m) =~= (seq!['#'] + header_first_rest()).push('\n') + (seq!['#']
        + header_second_rest(n, m)).push('\n') + seq!['\n']);
}

/// The first header line after its `#`.
pub open spec fn header_first_rest() -> Seq<char> {
    " Wavefront OBJ file exported from AthenianApp"@
}

/// The second header line after its `#`.
pub open spec fn header_second_rest(n: nat, m: nat) -> Seq<char> {
    " Vertices: "@ + decimal(n) + ", Faces: "@ + decimal(m)
}

/// The header adds nothing to what is read: a text read after the header of an
/// OBJ file reads as it reads alone.
pub proof fn law_header_read_as_nothing(n: nat, m: nat, rest: Seq<char>)
    ensures
        read_lines(text_lines(obj_header_spec(n, m) + rest)) == read_lines(text_lines(rest)),
{
    lemma_header_shape(n, m);
    let e: Seq<char> = Seq::<char>::empty();
    let l1 = (seq!['#'] + header_first_rest()).push('\n');
    let l2 = (seq!['#'] + header_second_rest(n, m)).push('\n');
    let h = obj_header_spec(n, m);
    assert(scan(e) == (Seq::<Seq<Seq<char>>>::empty(), Seq::<Seq<char>>::empty(), e));
    lemma_comment_line(e, header_first_rest());
    assert(e + l1 =~= l1);
    lemma_comment_line(l1, header_second_rest(n, m));
    let a2 = l1 + l2;
    let (s2l, s2w, s2c) = scan(a2);
    assert(h =~= a2.push('\n'));
    assert(a2.push('\n').drop_last() =~= a2);
    assert(scan(h) == (s2l.push(close_word(s2w, s2c)), Seq::<Seq<char>>::empty(), e));
    assert(close_word(s2w, s2c) =~= Seq::<Seq<char>>::empty());
    let body = scan(h).0;
    assert(body.len() == 3);
    // each line of the header is passed over
    let start = Some((Seq::<(Seq<char>, Seq<char>, Seq<char>)>::empty(), Seq::<Seq<usize>>::empty()));
    let v = start.unwrap();
    assert(read_more(start, body) == start) by {
        let b1 = scan(l1).0;
        assert(body.drop_last() =~= s2l);
        assert(s2l.drop_last() =~= b1);
        assert(b1.len() == 1);
        assert(b1.drop_last() =~= Seq::<Seq<Seq<char>>>::empty());
        assert(read_more(start, b1.drop_last()) == start);
        assert(read_line(v, b1.last()) == Some(v));
        assert(read_more(start, b1) == start);
        assert(read_line(v, s2l.last()) == Some(v));
        assert(read_more(start, s2l) == start);
        assert(read_line(v, body.last()) == Some(v));
    }
    lemma_scan_concat(h, rest);
    assert(text_lines(h + rest) =~= body + text_lines(rest)) by {
        let (l2r, w2r, c2r) = scan(rest);
        assert((body + l2r).push(close_word(w2r, c2r)) =~= body + l2r.push(close_word(w2r, c2r)));
    }
    lemma_read_lines_from_start(text_lines(h + rest));
    lemma_read_lines_from_start(text_lines(rest));
    lemma_read_more_concat(start, body, text_lines(rest));
}

// ----------------------------------------------------------------------
// The vertices, and the whole file
// ----------------------------------------------------------------------

/// Is `w` a non-empty word without whitespace, as a written coordinate is?
pub open spec fn is_plain_word(w: Seq<char>) -> bool {
    w.len() > 0 && forall|i: int| 0 <= i < w.len() ==> !is_whitespace(#[trigger] w[i])
}

/// Are all coordinate words of `ws` plain words?
pub open spec fn plain_vertices(ws: VerticesView) -> bool {
    forall|i: int|
        0 <= i < ws.len() ==> is_plain_word(#[trigger] ws[i].0) && is_plain_word(ws[i].1)
            && is_plain_word(ws[i].2)
}

/// The text of the vertex lines of the vertices `ws`, in order.
pub open spec fn vertices_text(ws: VerticesView) -> Seq<char>
    decreases ws.len(),
{
    if ws.len() == 0 {
        seq![]
    } else {
        vertices_text(ws.drop_last()) + vertex_line_spec(ws.last().0, ws.last().1, ws.last().2)
    }
}

/// The text of a whole OBJ file: the header, the vertex lines, an empty line and
/// the face lines.
pub open spec fn obj_file_text(ws: VerticesView, keys: Seq<VertexKey>, ps: Seq<Seq<usize>>) -> Seq<
    char,
> {
    obj_header_spec(ws.len(), ps.len()) + vertices_text(ws) + seq!['\n'] + faces_text(keys, ps)
}

/// After a text that ends a line, reading a space and then a plain word completes
/// the words read so far and starts the new word.
proof fn lemma_scan_space_word(t: Seq<char>, w: Seq<char>)
    requires
        scan(t).2.len() > 0,
        is_plain_word(w),
    ensures
        scan(t.push(' ') + w) == (scan(t).0, scan(t).1.push(scan(t).2), w),
{
    let ts = t.push(' ');
    assert(ts.drop_last() =~= t);
    assert(ts.last() == ' ');
    assert(is_whitespace(' '));
    crate::export::lemma_scan_word(ts, w);
    assert(Seq::<char>::empty() + w =~= w);
}

/// The lines of one vertex line: the words `v`, `x`, `y`, `z`.
proof fn lemma_scan_vertex_line(x: Seq<char>, y: Seq<char>, z: Seq<char>)
    requires
        is_plain_word(x),
        is_plain_word(y),
        is_plain_word(z),
    ensures
        scan(vertex_line_spec(x, y, z)) == (
            seq![seq![seq!['v'], x, y, z]],
            Seq::<Seq<char>>::empty(),
            Seq::<char>::empty(),
        ),
{
    let e: Seq<char> = Seq::<char>::empty();
    let t0 = e.push('v');
    assert(t0.drop_last() =~= e);
    assert(t0.last() == 'v');
    assert(!is_whitespace('v'));
    assert(scan(e) == (Seq::<Seq<Seq<char>>>::empty(), Seq::<Seq<char>>::empty(), e));
    assert(scan(t0) == (Seq::<Seq<Seq<char>>>::empty(), Seq::<Seq<char>>::empty(), t0));
    lemma_scan_space_word(t0, x);
    let t1 = t0.push(' ') + x;
    lemma_scan_space_word(t1, y);
    let t2 = t1.push(' ') + y;
    lemma_scan_space_word(t2, z);
    let t3 = t2.push(' ') + z;
    let t4 = t3.push('\n');
    assert(t4.drop_last() =~= t3);
    assert(t4.last() == '\n');
    assert(vertex_line_spec(x, y, z) =~= t4);
    let words = Seq::<Seq<char>>::empty().push(t0).push(x).push(y);
    assert(close_word(words, z) =~= seq![seq!['v'], x, y, z]);
    assert(Seq::<Seq<Seq<char>>>::empty().push(close_word(words, z)) =~= seq![
        seq![seq!['v'], x, y, z],
    ]);
}

/// Reading vertex lines, after a text that ends a line, adds their vertices.
proof fn lemma_read_vertices(ws: VerticesView, acc: ObjView)
    requires
        plain_vertices(ws),
    ensures
        scan(vertices_text(ws)).1.len() == 0,
        scan(vertices_text(ws)).2.len() == 0,
        read_more(Some(acc), scan(vertices_text(ws)).0) == Some((acc.0 + ws, acc.1)),
    decreases ws.len(),
{
    if ws.len() == 0 {
        assert(vertices_text(ws) =~= Seq::<char>::empty());
        assert(scan(vertices_text(ws)).0 =~= Seq::<Seq<Seq<char>>>::empty());
        assert(acc.0 + ws =~= acc.0);
    } else {
        let q = ws.drop_last();
        let (x, y, z) = ws.last();
        assert(plain_vertices(q)) by {
            assert forall|i: int| 0 <= i < q.len() implies is_plain_word(#[trigger] q[i].0)
                && is_plain_word(q[i].1) && is_plain_word(q[i].2) by {
                assert(q[i] == ws[i]);
            }
        }
        assert(is_plain_word(x) && is_plain_word(y) && is_plain_word(z)) by {
            assert(ws[ws.len() - 1] == ws.last());
        }
        lemma_read_vertices(q, acc);
        lemma_scan_vertex_line(x, y, z);
        let a = vertices_text(q);
        let f = vertex_line_spec(x, y, z);
        lemma_scan_concat(a, f);
        let body = scan(a).0;
        let line = seq![seq!['v'], x, y, z];
        assert(scan(a + f).0 =~= body.push(line));
        assert(body.push(line).drop_last() =~= body);
        assert(line[0] =~= seq!['v']);
        assert(is_word(line[0], 'v'));
        let mid = (acc.0 + q, acc.1);
        assert(read_line(mid, line) == Some((mid.0.push((x, y, z)), mid.1)));
        assert(mid.0.push((x, y, z)) =~= acc.0 + ws);
    }
}

/// Saving then loading gives the model back: an OBJ file made of the header, the
/// vertex lines of plain coordinate words, an empty line and the face lines reads
/// as exactly those vertex words, with each face of at least three vertices, every
/// vertex replaced by the last vertex with the same key; it is invalid only where
/// there is no vertex or no such face. Vertex numbers are read as `i32`, so the
/// model has at most `i32::MAX` vertices.
pub proof fn law_saved_file_read_back(ws: VerticesView, keys: Seq<VertexKey>, ps: Seq<Seq<usize>>)
    requires
        plain_vertices(ws),
        keys.len() == ws.len(),
        keys.len() <= i32::MAX,
        polygons_within(ps, keys.len()),
    ensures
        parse_obj_spec(obj_file_text(ws, keys, ps)) == if ws.len() > 0 && saved_faces(
            keys,
            ps,
        ).len() > 0 {
            Ok((ws, saved_faces(keys, ps)))
        } else {
            Err(ObjLoadError::InvalidFormat)
        },
{
    let e = (Seq::<(Seq<char>, Seq<char>, Seq<char>)>::empty(), Seq::<Seq<usize>>::empty());
    lemma_read_vertices(ws, e);
    let v = vertices_text(ws);
    let prefix = v.push('\n');
    assert(prefix.drop_last() =~= v);
    assert(prefix.last() == '\n');
    let body = scan(v).0;
    assert(close_word(scan(v).1, scan(v).2) =~= Seq::<Seq<char>>::empty());
    let lines = text_lines(prefix);
    assert(lines =~= body.push(Seq::<Seq<char>>::empty()).push(Seq::<Seq<char>>::empty()));
    assert(e.0 + ws =~= ws);
    let after = (ws, e.1);
    lemma_read_lines_from_start(lines);
    assert(read_more(Some(e), lines) == Some(after)) by {
        let l1 = body.push(Seq::<Seq<char>>::empty());
        assert(lines.drop_last() =~= l1);
        assert(l1.drop_last() =~= body);
        assert(read_more(Some(e), l1) == Some(after));
    }
    law_saved_faces_read_back(prefix, keys, ps);
    law_header_read_as_nothing(ws.len(), ps.len(), prefix + faces_text(keys, ps));
    assert(obj_file_text(ws, keys, ps) =~= obj_header_spec(ws.len(), ps.len()) + (prefix
        + faces_text(keys, ps)));
    assert(e.1 + saved_faces(keys, ps) =~= saved_faces(keys, ps));
}

} // verus!
