//! Paging through the records of an Odoo 18 model, one chunk at a time.
//!
//! A count of the matching records is taken first; chunks of `per_chunck`
//! records are then requested at offsets `offset`, `offset + per_chunck`,
//! ... for as long as the offset does not exceed the count.

use vstd::prelude::*;

use crate::odoo_api_commons::domain::Domain;
use crate::odoo_api_commons::pagination::PaginationParam;

verus! {

/// How many chunks are still to be requested from `offset` on, with chunks
/// of `per_chunck` records out of `count`.
pub open spec fn chunks_left(offset: int, per_chunck: int, count: int) -> int {
    if offset > count {
        0
    } else {
        (count - offset) / per_chunck + 1
    }
}

/// The `j`-th chunk requested from `offset` on holds record `record`.
pub open spec fn chunk_holds(offset: int, per_chunck: int, j: int, record: int) -> bool {
    offset + j * per_chunck <= record < offset + j * per_chunck + per_chunck
}

/// The offset of the chunk after the one at `offset`, if it is to be
/// requested: a chunk is requested while its offset does not exceed `count`.
pub open spec fn next_offset_spec(offset: int, limit: int, count: int) -> Option<int> {
    if offset + limit > count {
        None
    } else {
        Some(offset + limit)
    }
}

/// The offset of the next batch after the one at `offset`, or `None` when
/// the batch at `offset` was the last one of the `count` records.
pub fn next_batch_offset(offset: u32, limit: u32, count: u64) -> (res: Option<u32>)
    requires
        offset + limit <= u32::MAX,
    ensures
        res matches Some(o) ==> next_offset_spec(offset as int, limit as int, count as int) == Some(
            o as int,
        ),
        res is None ==> next_offset_spec(offset as int, limit as int, count as int) is None,
{
    let next = offset + limit;
    if (next as u64) > count {
        None
    } else {
        Some(next)
    }
}

/// The state of a paging through a model.
pub struct ChunkCursorView {
    pub per_chunck: int,
    pub offset: int,
    pub count: int,
}

/// A paging through the records of a model that match `domains`, reading
/// `field_names`, `per_chunck` records at a time.
pub struct IterateModelFromOdoo18 {
    per_chunck: u32,
    offset: u32,
    domains: Vec<Domain>,
    count: u64,
    model_name: String,
    field_names: Vec<String>,
}

impl View for IterateModelFromOdoo18 {
    type V = ChunkCursorView;

    closed spec fn view(&self) -> ChunkCursorView {
        ChunkCursorView {
            per_chunck: self.per_chunck as int,
            offset: self.offset as int,
            count: self.count as int,
        }
    }
}

impl IterateModelFromOdoo18 {
    #[verifier::type_invariant]
    spec fn chunk_size_positive(self) -> bool {
        self.per_chunck > 0
    }

    /// The model that is paged through.
    pub closed spec fn spec_model_name(&self) -> Seq<char> {
        self.model_name@
    }

    /// The fields read.
    pub closed spec fn spec_field_names(&self) -> Seq<String> {
        self.field_names@
    }

    /// The conditions the records match.
    pub closed spec fn spec_domains(&self) -> Seq<Domain> {
        self.domains@
    }

    /// Starts a paging at `offset`, `count` being the number of records
    /// that match `domains`.
    pub fn new(
        model_name: String,
        field_names: Vec<String>,
        domains: Vec<Domain>,
        per_chunck: u32,
        offset: u32,
        count: u64,
    ) -> (res: IterateModelFromOdoo18)
        requires
            per_chunck > 0,
        ensures
            res@ == (ChunkCursorView {
                per_chunck: per_chunck as int,
                offset: offset as int,
                count: count as int,
            }),
            res.spec_model_name() == model_name@,
            res.spec_field_names() == field_names@,
            res.spec_domains() == domains@,
    {
        IterateModelFromOdoo18 { per_chunck, offset, domains, count, model_name, field_names }
    }

    /// The number of matching records.
    pub fn count(&self) -> (res: u64)
        ensures
            res as int == self@.count,
    {
        self.count
    }

    /// The name of the model.
    pub fn model_name(&self) -> (res: &String)
        ensures
            res@ == self.spec_model_name(),
    {
        &self.model_name
    }

    /// The fields to read.
    pub fn field_names(&self) -> (res: &Vec<String>)
        ensures
            res@ == self.spec_field_names(),
    {
        &self.field_names
    }

    /// The conditions the records match.
    pub fn domains(&self) -> (res: &Vec<Domain>)
        ensures
            res@ == self.spec_domains(),
    {
        &self.domains
    }

    /// The chunk at the current offset.
    pub fn get_current_pagination(&self) -> (res: PaginationParam)
        ensures
            res.offset == Some(self@.offset as u32),
            res.limit == Some(self@.per_chunck as u32),
            self@.per_chunck > 0,
    {
        proof {
            use_type_invariant(self);
        }
        PaginationParam { offset: Some(self.offset), limit: Some(self.per_chunck) }
    }

    /// The chunk to request next, or `None` once the offset has gone past
    /// the count.
    pub fn next_pagination(&self) -> (res: Option<PaginationParam>)
        ensures
            self@.offset > self@.count ==> res is None,
            self@.offset <= self@.count ==> (res matches Some(p) && p.offset == Some(
                self@.offset as u32,
            ) && p.limit == Some(self@.per_chunck as u32)),
    {
        if (self.offset as u64) > self.count {
            None
        } else {
            Some(self.get_current_pagination())
        }
    }

    /// Whether the offset can move past one more chunk without leaving the
    /// range of `u32`.
    pub fn can_advance(&self) -> (res: bool)
        ensures
            res == (self@.offset + self@.per_chunck <= u32::MAX),
    {
        self.offset <= u32::MAX - self.per_chunck
    }

    /// Moves past the chunk that was just read.
    pub fn advance(&mut self)
        requires
            old(self)@.offset + old(self)@.per_chunck <= u32::MAX,
        ensures
            final(self)@ == (ChunkCursorView {
                offset: old(self)@.offset + old(self)@.per_chunck,
                ..old(self)@
            }),
            final(self).spec_model_name() == old(self).spec_model_name(),
            final(self).spec_field_names() == old(self).spec_field_names(),
            final(self).spec_domains() == old(self).spec_domains(),
    {
        proof {
            use_type_invariant(&*self);
        }
        self.offset = self.offset + self.per_chunck;
    }
}

/// Law: every chunk that is read brings the paging one chunk closer to its
/// end, so it ends after `chunks_left` chunks.
pub proof fn lemma_advance_consumes_one_chunk(offset: int, per_chunck: int, count: int)
    requires
        per_chunck > 0,
        0 <= offset <= count,
    ensures
        chunks_left(offset + per_chunck, per_chunck, count) == chunks_left(
            offset,
            per_chunck,
            count,
        ) - 1,
        chunks_left(offset, per_chunck, count) > 0,
{
    let d = count - offset;
    if offset + per_chunck > count {
        assert(d / per_chunck == 0) by (nonlinear_arith)
            requires
                0 <= d < per_chunck,
        ;
    } else {
        assert((d - per_chunck) / per_chunck == d / per_chunck - 1) by (nonlinear_arith)
            requires
                d >= per_chunck,
                per_chunck > 0,
        ;
    }
}

/// Law: the chunks read from `offset` on cover every record from `offset`
/// to the count, each in exactly one chunk.
pub proof fn lemma_chunks_cover_records(offset: int, per_chunck: int, count: int, record: int)
    requires
        per_chunck > 0,
        0 <= offset <= record < count,
    ensures
        ({
            let j = (record - offset) / per_chunck;
            &&& 0 <= j < chunks_left(offset, per_chunck, count)
            &&& chunk_holds(offset, per_chunck, j, record)
        }),
        forall|j1: int, j2: int|
            0 <= j1 && 0 <= j2 && #[trigger] chunk_holds(offset, per_chunck, j1, record)
                && #[trigger] chunk_holds(offset, per_chunck, j2, record) ==> j1 == j2,
{
    let d = record - offset;
    let j = d / per_chunck;
    assert(0 <= j && j * per_chunck <= d < j * per_chunck + per_chunck) by (nonlinear_arith)
        requires
            d >= 0,
            per_chunck > 0,
            j == d / per_chunck,
    ;
    assert(j <= (count - offset) / per_chunck) by (nonlinear_arith)
        requires
            0 <= d < count - offset,
            per_chunck > 0,
            j == d / per_chunck,
    ;
    assert forall|j1: int, j2: int|
        0 <= j1 && 0 <= j2 && #[trigger] chunk_holds(offset, per_chunck, j1, record)
            && #[trigger] chunk_holds(offset, per_chunck, j2, record) implies j1 == j2 by {
        assert(j1 == j2) by (nonlinear_arith)
            requires
                per_chunck > 0,
                j1 * per_chunck <= d < j1 * per_chunck + per_chunck,
                j2 * per_chunck <= d < j2 * per_chunck + per_chunck,
        ;
    }
}

} // verus!
