//! The vertex pool: the position, normal and texture records of one geometry
//! file, in the order they were read, referred to by 1-based indices.
use vstd::prelude::*;
use crate::error::{ErrorView, ParseError};
use crate::text::views;
use crate::vector::{
    normal_record, parse_position, parse_triple, position_record, texture_record, Vec3, Vec4,
};

verus! {

/// The record that a 1-based index names in `s`, or `None` when the index is
/// 0 or past the end.
pub open spec fn resolve_index<T>(s: Seq<T>, i: nat) -> Option<T> {
    if 1 <= i <= s.len() {
        Some(s[i - 1])
    } else {
        None
    }
}

/// The abstract value of a pool: the components of each record, by kind.
pub struct PoolView {
    pub positions: Seq<Seq<Seq<char>>>,
    pub normals: Seq<Seq<Seq<char>>>,
    pub textures: Seq<Seq<Seq<char>>>,
}

/// The records read so far from one geometry file. It only grows.
pub struct VertexPool {
    positions: Vec<Vec4>,
    normals: Vec<Vec3>,
    textures: Vec<Vec3>,
}

impl View for VertexPool {
    type V = PoolView;

    closed spec fn view(&self) -> PoolView {
        PoolView {
            positions: self.positions@.map_values(|v: Vec4| v@),
            normals: self.normals@.map_values(|v: Vec3| v@),
            textures: self.textures@.map_values(|v: Vec3| v@),
        }
    }
}

fn malformed_numeric() -> (e: ParseError)
    ensures
        e@ == ErrorView::General,
{
    ParseError::GeneralError("malformed number".to_owned())
}

fn index_out_of_range() -> (e: ParseError)
    ensures
        e@ == ErrorView::General,
{
    ParseError::GeneralError("index out of range".to_owned())
}

impl VertexPool {
    /// An empty pool.
    pub fn new() -> (r: VertexPool)
        ensures
            r@.positions.len() == 0,
            r@.normals.len() == 0,
            r@.textures.len() == 0,
    {
        VertexPool { positions: Vec::new(), normals: Vec::new(), textures: Vec::new() }
    }

    /// The number of position records.
    pub fn position_count(&self) -> (r: usize)
        ensures
            r == self@.positions.len(),
    {
        self.positions.len()
    }

    /// The number of normal records.
    pub fn normal_count(&self) -> (r: usize)
        ensures
            r == self@.normals.len(),
    {
        self.normals.len()
    }

    /// The number of texture records.
    pub fn texture_count(&self) -> (r: usize)
        ensures
            r == self@.textures.len(),
    {
        self.textures.len()
    }

    /// Appends the position record that the argument tokens of a `v` line give
    /// (see `position_record`); fails, leaving the pool as it was, when they
    /// are malformed.
    pub fn append_position(&mut self, args: &Vec<Vec<char>>) -> (r: Result<(), ParseError>)
        ensures
            match position_record(views(args@)) {
                Some(p) => r is Ok && final(self)@ == (PoolView {
                    positions: old(self)@.positions.push(p),
                    ..old(self)@
                }),
                None => r is Err && r->Err_0@ == ErrorView::General && final(self)@ == old(self)@,
            },
    {
        proof {
            assert(views(args@).skip(0) == views(args@));
        }
        match parse_position(args, 0) {
            Some(p) => {
                self.positions.push(p);
                proof {
                    assert(self@.positions == old(self)@.positions.push(p@));
                }
                Ok(())
            },
            None => Err(malformed_numeric()),
        }
    }

    /// Appends the normal record that the argument tokens of a `vn` line give
    /// (see `normal_record`); fails, leaving the pool as it was, when they are
    /// malformed.
    pub fn append_normal(&mut self, args: &Vec<Vec<char>>) -> (r: Result<(), ParseError>)
        ensures
            match normal_record(views(args@)) {
                Some(n) => r is Ok && final(self)@ == (PoolView {
                    normals: old(self)@.normals.push(n),
                    ..old(self)@
                }),
                None => r is Err && r->Err_0@ == ErrorView::General && final(self)@ == old(self)@,
            },
    {
        proof {
            assert(views(args@).skip(0) == views(args@));
        }
        match parse_triple(args, 0, 0, true) {
            Some(n) => {
                self.normals.push(n);
                proof {
                    assert(self@.normals == old(self)@.normals.push(n@));
                }
                Ok(())
            },
            None => Err(malformed_numeric()),
        }
    }

    /// Appends the texture record that the argument tokens of a `vt` line
    /// give (see `texture_record`); fails, leaving the pool as it was, when
    /// they are malformed.
    pub fn append_texture(&mut self, args: &Vec<Vec<char>>) -> (r: Result<(), ParseError>)
        ensures
            match texture_record(views(args@)) {
                Some(t) => r is Ok && final(self)@ == (PoolView {
                    textures: old(self)@.textures.push(t),
                    ..old(self)@
                }),
                None => r is Err && r->Err_0@ == ErrorView::General && final(self)@ == old(self)@,
            },
    {
        proof {
            assert(views(args@).skip(0) == views(args@));
        }
        match parse_triple(args, 0, 0, false) {
            Some(t) => {
                self.textures.push(t);
                proof {
                    assert(self@.textures == old(self)@.textures.push(t@));
                }
                Ok(())
            },
            None => Err(malformed_numeric()),
        }
    }

    /// The position record with 1-based index `i`; index 0 and indices past
    /// the records read so far are out of range.
    pub fn resolve_position(&self, i: usize) -> (r: Result<Vec4, ParseError>)
        ensures
            match resolve_index(self@.positions, i as nat) {
                Some(p) => r is Ok && r->Ok_0@ == p,
                None => r is Err && r->Err_0@ == ErrorView::General,
            },
    {
        if 1 <= i && i <= self.positions.len() {
            Ok(self.positions[i - 1].copy())
        } else {
            Err(index_out_of_range())
        }
    }

    /// The normal record with 1-based index `i`; index 0 and indices past the
    /// records read so far are out of range.
    pub fn resolve_normal(&self, i: usize) -> (r: Result<Vec3, ParseError>)
        ensures
            match resolve_index(self@.normals, i as nat) {
                Some(n) => r is Ok && r->Ok_0@ == n,
                None => r is Err && r->Err_0@ == ErrorView::General,
            },
    {
        if 1 <= i && i <= self.normals.len() {
            Ok(self.normals[i - 1].copy())
        } else {
            Err(index_out_of_range())
        }
    }

    /// The texture record with 1-based index `i`; index 0 and indices past the
    /// records read so far are out of range.
    pub fn resolve_texture(&self, i: usize) -> (r: Result<Vec3, ParseError>)
        ensures
            match resolve_index(self@.textures, i as nat) {
                Some(t) => r is Ok && r->Ok_0@ == t,
                None => r is Err && r->Err_0@ == ErrorView::General,
            },
    {
        if 1 <= i && i <= self.textures.len() {
            Ok(self.textures[i - 1].copy())
        } else {
            Err(index_out_of_range())
        }
    }
}

} // verus!

verus! {

/// Index 0, and any index past the records appended so far, names no
/// record: resolving it fails rather than clamping.
pub proof fn lemma_out_of_range_index_fails<T>(records: Seq<T>, i: nat)
    requires
        i == 0 || i > records.len(),
    ensures
        resolve_index(records, i) is None,
{
}

} // verus!
