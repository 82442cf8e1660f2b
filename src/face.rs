//! The face resolver: each corner token of an `f` line names records of the
//! vertex pool by 1-based index, and its shape decides which vertex it becomes.
use vstd::prelude::*;
use crate::error::{ErrorView, ParseError};
use crate::number::{all_digits, digits_value, is_digit, nat_literal, nat_literal_at_most};
use crate::pool::{resolve_index, PoolView, VertexPool};
use crate::text::{split, split_on, views};
use crate::vertex::{
    Vertex, VertexPositionNormal, VertexPositionNormalTexture, VertexPositionTexture, VertexView,
    vertex_views,
};

verus! {

/// The first index at or after `i` where `//` starts in `s`, or `s.len()`.
pub open spec fn double_slash_from(s: Seq<char>, i: int) -> int
    decreases s.len() - i,
{
    if 0 <= i && i + 1 < s.len() {
        if s[i] == '/' && s[i + 1] == '/' {
            i
        } else {
            double_slash_from(s, i + 1)
        }
    } else {
        s.len() as int
    }
}

/// The record that the index token `tok` names in `records`.
pub open spec fn lookup<T>(records: Seq<T>, tok: Seq<char>) -> Option<T> {
    match nat_literal(tok) {
        Some(i) => resolve_index(records, i),
        None => None,
    }
}

/// The vertex that one corner token resolves to against `pool`:
/// - `p//n` (it holds `//`): position and normal;
/// - `p/t` (two fields split on `/`): position and texture;
/// - `p/t/n` (three fields): position, texture and normal.
/// `None` when an index is not a decimal number, is out of range, or the
/// token has none of these shapes.
pub open spec fn corner_vertex(tok: Seq<char>, pool: PoolView) -> Option<VertexView> {
    let k = double_slash_from(tok, 0);
    if k < tok.len() {
        match (lookup(pool.positions, tok.take(k)), lookup(pool.normals, tok.skip(k + 2))) {
            (Some(p), Some(n)) => Some(VertexView::PositionNormal { position: p, normal: n }),
            _ => None,
        }
    } else {
        let parts = split(tok, '/');
        if parts.len() == 2 {
            match (lookup(pool.positions, parts[0]), lookup(pool.textures, parts[1])) {
                (Some(p), Some(t)) => Some(VertexView::PositionTexture { position: p, texture: t }),
                _ => None,
            }
        } else if parts.len() == 3 {
            match (
                lookup(pool.positions, parts[0]),
                lookup(pool.textures, parts[1]),
                lookup(pool.normals, parts[2]),
            ) {
                (Some(p), Some(t), Some(n)) => Some(
                    VertexView::PositionNormalTexture { position: p, normal: n, texture: t },
                ),
                _ => None,
            }
        } else {
            None
        }
    }
}

/// The vertices of a face, one per corner in order, or `None` when a corner
/// does not resolve.
pub open spec fn face_vertices(corners: Seq<Seq<char>>, pool: PoolView) -> Option<Seq<VertexView>>
    decreases corners.len(),
{
    if corners.len() == 0 {
        Some(seq![])
    } else {
        match face_vertices(corners.drop_last(), pool) {
            Some(vs) => match corner_vertex(corners.last(), pool) {
                Some(v) => Some(vs.push(v)),
                None => None,
            },
            None => None,
        }
    }
}

proof fn lemma_double_slash_found(s: Seq<char>, i: int)
    requires
        0 <= i,
        double_slash_from(s, i) < s.len(),
    ensures
        double_slash_from(s, i) + 1 < s.len(),
        double_slash_from(s, i) >= i,
    decreases s.len() - i,
{
    if i + 1 < s.len() && !(s[i] == '/' && s[i + 1] == '/') {
        lemma_double_slash_found(s, i + 1);
    }
}

proof fn lemma_face_prefix_fails(cs: Seq<Seq<char>>, pool: PoolView, i: int)
    requires
        0 <= i <= cs.len(),
        face_vertices(cs.take(i), pool) is None,
    ensures
        face_vertices(cs, pool) is None,
    decreases cs.len(),
{
    if i < cs.len() {
        assert(cs.drop_last().take(i) == cs.take(i));
        lemma_face_prefix_fails(cs.drop_last(), pool, i);
    } else {
        assert(cs.take(i) == cs);
    }
}

fn face_error() -> (e: ParseError)
    ensures
        e@ == ErrorView::General,
{
    ParseError::GeneralError("Error parsing face".to_owned())
}

/// The characters `v[from..to]`.
fn sub_chars(v: &Vec<char>, from: usize, to: usize) -> (r: Vec<char>)
    requires
        from <= to <= v.len(),
    ensures
        r@ == v@.subrange(from as int, to as int),
{
    let mut out: Vec<char> = Vec::new();
    let mut i = from;
    while i < to
        invariant
            from <= i <= to <= v.len(),
            out@ == v@.subrange(from as int, i as int),
        decreases to - i,
    {
        out.push(v[i]);
        proof {
            assert(v@.subrange(from as int, i + 1) == v@.subrange(from as int, i as int).push(v@[i as int]));
        }
        i += 1;
    }
    out
}

/// Where `//` first occurs in `tok`, or its length.
fn find_double_slash(tok: &Vec<char>) -> (r: usize)
    ensures
        r as int == double_slash_from(tok@, 0),
        r <= tok.len(),
{
    let mut i: usize = 0;
    while tok.len() > 0 && i < tok.len() - 1
        invariant
            double_slash_from(tok@, i as int) == double_slash_from(tok@, 0),
            i <= tok.len(),
        decreases tok.len() - i,
    {
        if tok[i] == '/' && tok[i + 1] == '/' {
            return i;
        }
        i += 1;
    }
    tok.len()
}

/// The position record that index token `tok` names.
fn position_at(tok: &Vec<char>, pool: &VertexPool) -> (r: Result<crate::vector::Vec4, ParseError>)
    ensures
        match lookup(pool@.positions, tok@) {
            Some(p) => r is Ok && r->Ok_0@ == p,
            None => r is Err && r->Err_0@ == ErrorView::General,
        },
{
    match nat_literal_at_most(tok, pool.position_count()) {
        Some(i) => pool.resolve_position(i),
        None => Err(face_error()),
    }
}

/// The normal record that index token `tok` names.
fn normal_at(tok: &Vec<char>, pool: &VertexPool) -> (r: Result<crate::vector::Vec3, ParseError>)
    ensures
        match lookup(pool@.normals, tok@) {
            Some(n) => r is Ok && r->Ok_0@ == n,
            None => r is Err && r->Err_0@ == ErrorView::General,
        },
{
    match nat_literal_at_most(tok, pool.normal_count()) {
        Some(i) => pool.resolve_normal(i),
        None => Err(face_error()),
    }
}

/// The texture record that index token `tok` names.
fn texture_at(tok: &Vec<char>, pool: &VertexPool) -> (r: Result<crate::vector::Vec3, ParseError>)
    ensures
        match lookup(pool@.textures, tok@) {
            Some(t) => r is Ok && r->Ok_0@ == t,
            None => r is Err && r->Err_0@ == ErrorView::General,
        },
{
    match nat_literal_at_most(tok, pool.texture_count()) {
        Some(i) => pool.resolve_texture(i),
        None => Err(face_error()),
    }
}

/// Resolves a `p//n` corner whose `//` starts at `k`.
pub fn parse_vertex_normal(tok: &Vec<char>, k: usize, pool: &VertexPool) -> (r: Result<
    VertexPositionNormal,
    ParseError,
>)
    requires
        k + 2 <= tok.len(),
    ensures
        match (
            lookup(pool@.positions, tok@.take(k as int)),
            lookup(pool@.normals, tok@.skip(k + 2)),
        ) {
            (Some(p), Some(n)) => r is Ok && r->Ok_0.position@ == p && r->Ok_0.normal@ == n,
            _ => r is Err && r->Err_0@ == ErrorView::General,
        },
{
    let p = sub_chars(tok, 0, k);
    let n = sub_chars(tok, k + 2, tok.len());
    proof {
        assert(p@ == tok@.take(k as int));
        assert(n@ == tok@.skip(k + 2));
    }
    let position = position_at(&p, pool)?;
    let normal = normal_at(&n, pool)?;
    Ok(VertexPositionNormal { position, normal })
}

/// Resolves a `p/t` corner from its two fields.
pub fn parse_vertex_texture(parts: &Vec<Vec<char>>, pool: &VertexPool) -> (r: Result<
    VertexPositionTexture,
    ParseError,
>)
    requires
        parts.len() == 2,
    ensures
        match (lookup(pool@.positions, parts@[0]@), lookup(pool@.textures, parts@[1]@)) {
            (Some(p), Some(t)) => r is Ok && r->Ok_0.position@ == p && r->Ok_0.texture@ == t,
            _ => r is Err && r->Err_0@ == ErrorView::General,
        },
{
    let position = position_at(&parts[0], pool)?;
    let texture = texture_at(&parts[1], pool)?;
    Ok(VertexPositionTexture { position, texture })
}

/// Resolves a `p/t/n` corner from its three fields.
pub fn parse_vertex_texture_normal(parts: &Vec<Vec<char>>, pool: &VertexPool) -> (r: Result<
    VertexPositionNormalTexture,
    ParseError,
>)
    requires
        parts.len() == 3,
    ensures
        match (
            lookup(pool@.positions, parts@[0]@),
            lookup(pool@.textures, parts@[1]@),
            lookup(pool@.normals, parts@[2]@),
        ) {
            (Some(p), Some(t), Some(n)) => r is Ok && r->Ok_0.position@ == p && r->Ok_0.texture@
                == t && r->Ok_0.normal@ == n,
            _ => r is Err && r->Err_0@ == ErrorView::General,
        },
{
    let position = position_at(&parts[0], pool)?;
    let texture = texture_at(&parts[1], pool)?;
    let normal = normal_at(&parts[2], pool)?;
    Ok(VertexPositionNormalTexture { position, normal, texture })
}

/// Resolves one corner token against the pool: see `corner_vertex`.
pub fn parse_corner(tok: &Vec<char>, pool: &VertexPool) -> (r: Result<Vertex, ParseError>)
    ensures
        match corner_vertex(tok@, pool@) {
            Some(v) => r is Ok && r->Ok_0@ == v,
            None => r is Err && r->Err_0@ == ErrorView::General,
        },
{
    let k = find_double_slash(tok);
    if k < tok.len() {
        proof {
            lemma_double_slash_found(tok@, 0);
        }
        let v = parse_vertex_normal(tok, k, pool)?;
        return Ok(Vertex::PositionNormal(v));
    }
    let parts = split_on(tok, '/');
    proof {
        assert(views(parts@).len() == parts@.len());
    }
    if parts.len() == 2 {
        let v = parse_vertex_texture(&parts, pool)?;
        Ok(Vertex::PositionTexture(v))
    } else if parts.len() == 3 {
        let v = parse_vertex_texture_normal(&parts, pool)?;
        Ok(Vertex::PositionNormalTexture(v))
    } else {
        Err(face_error())
    }
}

/// Resolves the corner tokens of one face, in order: see `face_vertices`.
pub fn parse_face(corners: &Vec<Vec<char>>, pool: &VertexPool) -> (r: Result<Vec<Vertex>, ParseError>)
    ensures
        match face_vertices(views(corners@), pool@) {
            Some(vs) => r is Ok && vertex_views(r->Ok_0@) == vs,
            None => r is Err && r->Err_0@ == ErrorView::General,
        },
{
    let ghost cs = views(corners@);
    let mut out: Vec<Vertex> = Vec::new();
    let mut i: usize = 0;
    while i < corners.len()
        invariant
            i <= corners.len(),
            cs == views(corners@),
            face_vertices(cs.take(i as int), pool@) == Some(vertex_views(out@)),
        decreases corners.len() - i,
    {
        proof {
            assert(cs.take(i + 1).drop_last() == cs.take(i as int));
            assert(cs.take(i + 1).last() == corners@[i as int]@);
        }
        let v = match parse_corner(&corners[i], pool) {
            Ok(v) => v,
            Err(e) => {
                proof {
                    lemma_face_prefix_fails(cs, pool@, i + 1);
                }
                return Err(e);
            },
        };
        let ghost before = out@;
        out.push(v);
        proof {
            assert(vertex_views(out@) == vertex_views(before).push(v@));
        }
        i += 1;
    }
    proof {
        assert(cs.take(cs.len() as int) == cs);
    }
    Ok(out)
}

} // verus!

verus! {

proof fn lemma_single_digit(c: char)
    requires
        is_digit(c),
    ensures
        nat_literal(seq![c]) == Some((c as u32 - '0' as u32) as nat),
{
    let s = seq![c];
    assert(s.drop_last() == Seq::<char>::empty());
    assert(digits_value(Seq::<char>::empty()) == 0);
    assert(s.last() == c);
    assert(digits_value(s) == (c as u32 - '0' as u32) as nat);
    assert(s[0] != '+');
    assert(all_digits(s));
}

/// The corner `3//2`, against a pool with at least three positions and two
/// normals, is a position-and-normal vertex made of the third position and
/// the second normal.
pub proof fn lemma_corner_position_normal(pool: PoolView)
    requires
        pool.positions.len() >= 3,
        pool.normals.len() >= 2,
    ensures
        corner_vertex(seq!['3', '/', '/', '2'], pool) == Some(
            VertexView::PositionNormal { position: pool.positions[2], normal: pool.normals[1] },
        ),
{
    let t = seq!['3', '/', '/', '2'];
    assert(double_slash_from(t, 1) == 1);
    assert(double_slash_from(t, 0) == 1);
    assert(t.take(1) == seq!['3']);
    assert(t.skip(3) == seq!['2']);
    lemma_single_digit('3');
    lemma_single_digit('2');
}

/// The corner `5/1/4`, against a pool with at least five positions, one
/// texture record and four normals, is a full vertex made of the fifth
/// position, the first texture record and the fourth normal.
pub proof fn lemma_corner_position_normal_texture(pool: PoolView)
    requires
        pool.positions.len() >= 5,
        pool.textures.len() >= 1,
        pool.normals.len() >= 4,
    ensures
        corner_vertex(seq!['5', '/', '1', '/', '4'], pool) == Some(
            VertexView::PositionNormalTexture {
                position: pool.positions[4],
                normal: pool.normals[3],
                texture: pool.textures[0],
            },
        ),
{
    let t = seq!['5', '/', '1', '/', '4'];
    assert(double_slash_from(t, 4) == 5);
    assert(double_slash_from(t, 3) == 5);
    assert(double_slash_from(t, 2) == 5);
    assert(double_slash_from(t, 1) == 5);
    assert(double_slash_from(t, 0) == 5);
    assert(t.drop_last() == seq!['5', '/', '1', '/']);
    assert(t.drop_last().drop_last() == seq!['5', '/', '1']);
    assert(t.drop_last().drop_last().drop_last() == seq!['5', '/']);
    assert(seq!['5', '/'].drop_last() == seq!['5']);
    assert(seq!['5'].drop_last() == Seq::<char>::empty());
    assert(split(Seq::<char>::empty(), '/') == seq![Seq::<char>::empty()]);
    assert(Seq::<char>::empty().push('5') == seq!['5']);
    assert(split(seq!['5'], '/') =~= seq![seq!['5']]);
    assert(split(seq!['5', '/'], '/') == seq![seq!['5'], Seq::<char>::empty()]);
    assert(split(seq!['5', '/', '1'], '/') == seq![seq!['5'], seq!['1']]);
    assert(split(seq!['5', '/', '1', '/'], '/') == seq![seq!['5'], seq!['1'], Seq::<char>::empty()]);
    assert(split(t, '/') == seq![seq!['5'], seq!['1'], seq!['4']]);
    lemma_single_digit('5');
    lemma_single_digit('1');
    lemma_single_digit('4');
}

/// A bare index such as `1` matches none of the three corner shapes, so the
/// corner fails whatever the pool holds.
pub proof fn lemma_bare_index_corner_fails(pool: PoolView)
    ensures
        corner_vertex(seq!['1'], pool) is None,
{
    let t = seq!['1'];
    assert(double_slash_from(t, 0) == 1);
    assert(t.drop_last() == Seq::<char>::empty());
    assert(split(Seq::<char>::empty(), '/') == seq![Seq::<char>::empty()]);
    assert(Seq::<char>::empty().push('1') == seq!['1']);
    assert(split(t, '/') =~= seq![seq!['1']]);
}

} // verus!
