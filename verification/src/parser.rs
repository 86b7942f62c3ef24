use crate::obj::Obj;
use crate::text::{chars_of, char_marks, parse_u32, split_marked, split_on, split_words, u32_from_str, views, words};
use vstd::prelude::*;

verus! {

/// The first of `pieces` that reads as a `u32`, if any.
pub open spec fn first_number(pieces: Seq<Seq<char>>) -> Option<u32>
    decreases pieces.len(),
{
    if pieces.len() == 0 {
        None
    } else {
        match u32_from_str(pieces[0]) {
            Some(v) => Some(v),
            None => first_number(pieces.drop_first()),
        }
    }
}

/// The point number of a face corner such as `7`, `7/2` or `7/2/5`: the first
/// of its `/`-separated parts that reads as a `u32`.
pub open spec fn corner_value(word: Seq<char>) -> Option<u32> {
    first_number(split_marked(word, char_marks(word, '/')))
}

/// The point numbers of the corners of a face line, one per word after the label.
pub open spec fn corner_values(ws: Seq<Seq<char>>) -> Seq<Option<u32>> {
    ws.drop_first().map_values(|w: Seq<char>| corner_value(w))
}

/// The corner values that are present, in order.
pub open spec fn present(vals: Seq<Option<u32>>) -> Seq<u32> {
    vals.filter_map(|v: Option<u32>| v)
}

/// A corner value, or 0 where the corner has none.
pub open spec fn or_zero(v: Option<u32>) -> u32 {
    match v {
        Some(x) => x,
        None => 0,
    }
}

/// The triangle indexes stored for a face with the corner values `vals`.
/// A triangle stores its present corners. A quadrilateral is cut into the
/// triangles (1, 2, 3) and (1, 3, 4): its first three present corners are
/// stored, then, when the fourth corner is present, the first and third
/// corners (0 where absent) and the fourth.
pub open spec fn face_indexes(vals: Seq<Option<u32>>) -> Seq<u32> {
    if vals.len() == 4 {
        present(vals.take(3)) + match vals[3] {
            Some(v) => seq![or_zero(vals[0]), or_zero(vals[2]), v],
            None => Seq::<u32>::empty(),
        }
    } else {
        present(vals)
    }
}

/// What `store_triangle_points` stores for the corner `vertex_number` of a
/// face of `num_tokens` words, label included.
pub open spec fn corner_points(valor: u32, num_tokens: usize, vertex_number: usize, first: u32, third: u32) -> Seq<u32> {
    if num_tokens == 5 && vertex_number >= 4 {
        seq![first, third, valor]
    } else {
        seq![valor]
    }
}

/// Stores the point number `valor` of the corner `vertex_number` (1 for the
/// first corner) of a face of `num_tokens` words. A quadrilateral remembers its
/// first and third corners in `first` and `third` and, at its fourth corner,
/// closes the second triangle with them.
fn store_triangle_points<P>(
    obj3d: &mut Obj<P>,
    valor: u32,
    num_tokens: usize,
    vertex_number: usize,
    first: &mut u32,
    third: &mut u32,
)
    ensures
        *final(first) == if num_tokens == 5 && vertex_number == 1 { valor } else { *old(first) },
        *final(third) == if num_tokens == 5 && vertex_number == 3 { valor } else { *old(third) },
        final(obj3d).points() == old(obj3d).points(),
        final(obj3d).indexes() == old(obj3d).indexes() + corner_points(
            valor,
            num_tokens,
            vertex_number,
            *old(first),
            *old(third),
        ),
{
    let ghost before = obj3d.indexes();
    if num_tokens == 5 {
        if vertex_number == 1 {
            *first = valor;
        } else if vertex_number == 3 {
            *third = valor;
        }
        if vertex_number < 4 {
            obj3d.vec_insert(valor);
            assert(obj3d.indexes() =~= before + seq![valor]);
        } else {
            obj3d.vec_insert(*first);
            obj3d.vec_insert(*third);
            obj3d.vec_insert(valor);
            assert(obj3d.indexes() =~= before + seq![*first, *third, valor]);
        }
    } else {
        obj3d.vec_insert(valor);
        assert(obj3d.indexes() =~= before + seq![valor]);
    }
}

/// The point number of the face corner `word`.
fn corner_number(word: &Vec<char>) -> (v: Option<u32>)
    ensures
        v == corner_value(word@),
{
    let pieces = split_on(word, '/');
    let ghost ps = views(pieces@);
    let mut k: usize = 0;
    assert(ps.skip(0) =~= ps);
    while k < pieces.len()
        invariant
            0 <= k <= pieces.len(),
            ps == views(pieces@),
            ps == split_marked(word@, char_marks(word@, '/')),
            first_number(ps) == first_number(ps.skip(k as int)),
        decreases pieces.len() - k,
    {
        assert(ps.skip(k as int).drop_first() =~= ps.skip(k + 1));
        assert(ps.skip(k as int)[0] == pieces@[k as int]@);
        let parsed = parse_u32(&pieces[k]);
        if parsed.is_some() {
            return parsed;
        }
        k = k + 1;
    }
    assert(ps.skip(k as int) =~= Seq::<Seq<char>>::empty());
    None
}

/// Stores the triangles of the face whose words (label first) are `word`.
fn store_faces<P>(obj3d: &mut Obj<P>, word: &Vec<Vec<char>>, num_tokens: usize)
    requires
        num_tokens == word.len(),
        num_tokens == 4 || num_tokens == 5,
    ensures
        final(obj3d).points() == old(obj3d).points(),
        final(obj3d).indexes() == old(obj3d).indexes() + face_indexes(corner_values(views(word@))),
{
    let ghost vals = corner_values(views(word@));
    let ghost before = obj3d.indexes();
    let mut vertex_number: usize = 1;
    let mut first: u32 = 0;
    let mut third: u32 = 0;
    assert(vals.take(0) =~= Seq::<Option<u32>>::empty());
    assert(before + present(vals.take(0)) =~= before);
    while vertex_number < word.len()
        invariant
            1 <= vertex_number <= word.len(),
            num_tokens == word.len(),
            num_tokens == 4 || num_tokens == 5,
            vals == corner_values(views(word@)),
            vals.len() == num_tokens - 1,
            obj3d.points() == old(obj3d).points(),
            vertex_number <= 4 ==> obj3d.indexes() == before + present(vals.take(vertex_number - 1)),
            vertex_number == 5 ==> obj3d.indexes() == before + face_indexes(vals),
            num_tokens == 5 && vertex_number > 1 ==> first == or_zero(vals[0]),
            num_tokens == 4 || vertex_number <= 1 ==> first == 0,
            num_tokens == 5 && vertex_number > 3 ==> third == or_zero(vals[2]),
            num_tokens == 4 || vertex_number <= 3 ==> third == 0,
        decreases word.len() - vertex_number,
    {
        let ghost n = (vertex_number - 1) as int;
        let ghost cur = obj3d.indexes();
        let value = corner_number(&word[vertex_number]);
        assert(value == vals[n]);
        assert(vals.take(n + 1).drop_last() =~= vals.take(n));
        assert(vals.take(n + 1).last() == vals[n]);
        if let Some(valor) = value {
            store_triangle_points(obj3d, valor, num_tokens, vertex_number, &mut first, &mut third);
        }
        proof {
            if n == 3 {
                assert(vals.take(3) =~= vals.take(n));
            }
        }
        vertex_number = vertex_number + 1;
    }
    proof {
        if num_tokens == 4 {
            assert(vals.take(3) =~= vals);
        }
    }
}

/// The points `points` after storing `point` under the next free key (the
/// number of points already stored), or unchanged for `None`.
pub open spec fn with_point<P>(points: Map<usize, P>, point: Option<P>) -> Map<usize, P> {
    match point {
        Some(p) => points.insert(points.len() as usize, p),
        None => points,
    }
}

/// Stores the point `point` under the next free key (the number of points
/// already stored); stores nothing for `None`.
pub fn store_vertex<P>(obj3d: &mut Obj<P>, point: Option<P>)
    ensures
        final(obj3d).indexes() == old(obj3d).indexes(),
        final(obj3d).points() == with_point(old(obj3d).points(), point),
{
    if let Some(p) = point {
        let i = obj3d.map_len();
        obj3d.map_insert(i, p);
    }
}

/// Reads one line of an OBJ file into `obj3d`. Only lines of four or five
/// words count. A point line (`v`) hands its first three coordinate words to
/// `read_point` and stores the point it returns, if any, under the next free
/// key; a face line (`f`) has its triangles stored. Every other line is
/// ignored.
pub fn store_obj_data<P, F>(line: String, obj3d: &mut Obj<P>, read_point: F)
    where
        F: Fn(&Vec<char>, &Vec<char>, &Vec<char>) -> Option<P>,
    requires
        forall|x: &Vec<char>, y: &Vec<char>, z: &Vec<char>| read_point.requires((x, y, z)),
    ensures
        ({
            let ws = words(line@);
            if ws.len() < 4 || ws.len() > 5 {
                &&& final(obj3d).points() == old(obj3d).points()
                &&& final(obj3d).indexes() == old(obj3d).indexes()
            } else if ws[0] == seq!['v'] {
                &&& exists|x: Vec<char>, y: Vec<char>, z: Vec<char>, r: Option<P>|
                    #![trigger read_point.ensures((&x, &y, &z), r)]
                    {
                        &&& x@ == ws[1]
                        &&& y@ == ws[2]
                        &&& z@ == ws[3]
                        &&& read_point.ensures((&x, &y, &z), r)
                        &&& final(obj3d).points() == with_point(old(obj3d).points(), r)
                    }
                &&& final(obj3d).indexes() == old(obj3d).indexes()
            } else if ws[0] == seq!['f'] {
                &&& final(obj3d).points() == old(obj3d).points()
                &&& final(obj3d).indexes() == old(obj3d).indexes() + face_indexes(corner_values(ws))
            } else {
                &&& final(obj3d).points() == old(obj3d).points()
                &&& final(obj3d).indexes() == old(obj3d).indexes()
            }
        }),
{
    let chars = chars_of(line.as_str());
    let word = split_words(&chars);
    let ghost ws = views(word@);
    assert(ws == words(line@));
    let num_tokens = word.len();
    if num_tokens < 4 || num_tokens > 5 {
        return;
    }
    let label = &word[0];
    assert(label@ == ws[0]);
    if label.len() == 1 && label[0] == 'v' {
        assert(label@ =~= seq!['v']);
        let point = read_point(&word[1], &word[2], &word[3]);
        store_vertex(obj3d, point);
        assert(word@[1]@ == ws[1]);
        assert(word@[2]@ == ws[2]);
        assert(word@[3]@ == ws[3]);
        return;
    }
    if label.len() == 1 && label[0] == 'f' {
        assert(label@ =~= seq!['f']);
        store_faces(obj3d, &word, num_tokens);
    }
}

/// A triangle face whose three corners all read as numbers stores exactly
/// those three numbers, in order.
pub proof fn law_triangle_face(a: u32, b: u32, c: u32)
    ensures
        face_indexes(seq![Some(a), Some(b), Some(c)]) == seq![a, b, c],
{
    reveal_with_fuel(Seq::filter_map, 4);
    assert(seq![Some(a), Some(b), Some(c)].drop_last() =~= seq![Some(a), Some(b)]);
    assert(seq![Some(a), Some(b)].drop_last() =~= seq![Some(a)]);
    assert(seq![Some(a)].drop_last() =~= Seq::<Option<u32>>::empty());
    assert(present(seq![Some(a), Some(b), Some(c)]) =~= seq![a, b, c]);
}

/// A quadrilateral face (a, b, c, d) whose corners all read as numbers is
/// stored as the two triangles (a, b, c) and (a, c, d).
pub proof fn law_quad_face(a: u32, b: u32, c: u32, d: u32)
    ensures
        face_indexes(seq![Some(a), Some(b), Some(c), Some(d)]) == seq![a, b, c, a, c, d],
{
    let vals = seq![Some(a), Some(b), Some(c), Some(d)];
    assert(vals.take(3) =~= seq![Some(a), Some(b), Some(c)]);
    law_triangle_face(a, b, c);
    assert(present(vals.take(3)) == seq![a, b, c]);
    assert(face_indexes(vals) =~= seq![a, b, c, a, c, d]);
}

/// Reading an OBJ file line by line keeps its points numbered in reading
/// order. When the keys are 0 to n - 1 before a line, then after the line the
/// keys are 0 to n, with the new point under n, where a point was read from
/// it, and still 0 to n - 1 otherwise (`store_obj_data` and `store_vertex`
/// change the points only as `with_point` says); the points already stored
/// keep their values.
pub proof fn law_points_stay_numbered<P>(before: Map<usize, P>, point: Option<P>)
    requires
        before.dom().finite(),
        before.dom() == Set::new(|k: usize| (k as int) < before.len()),
        before.len() < usize::MAX,
    ensures
        ({
            let after = with_point(before, point);
            &&& after.dom() == Set::new(|k: usize| (k as int) < after.len())
            &&& after.len() == before.len() + if point is Some { 1int } else { 0int }
            &&& forall|k: usize| before.dom().contains(k) ==> after[k] == before[k]
            &&& point matches Some(p) ==> after[before.len() as usize] == p
        }),
{
    if let Some(p) = point {
        let n = before.len() as usize;
        let after = before.insert(n, p);
        assert(!before.dom().contains(n));
        assert(after.dom() =~= before.dom().insert(n));
        assert(after.len() == before.len() + 1);
        assert(after.dom() =~= Set::new(|k: usize| (k as int) < after.len()));
    }
}

} // verus!
