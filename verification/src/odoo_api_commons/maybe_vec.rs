//! A value that Odoo sends either alone or as a list.

use vstd::prelude::*;

verus! {

/// One value or a list of values.
#[derive(Debug, Clone)]
pub enum OneOrMany<T> {
    One(T),
    Many(Vec<T>),
}

/// A field that Odoo sends as a single value or as a list of values.
#[derive(Debug, Clone)]
pub struct MaybeVec<T>(pub OneOrMany<T>);

/// The values of `m`, as a list.
pub open spec fn maybe_vec_values<T>(m: MaybeVec<T>) -> Seq<T> {
    match m.0 {
        OneOrMany::One(v) => seq![v],
        OneOrMany::Many(vs) => vs@,
    }
}

impl<T> MaybeVec<T> {
    /// The values as a list: a single value becomes a list of one.
    pub fn into_vec(self) -> (res: Vec<T>)
        ensures
            res@ == maybe_vec_values(self),
    {
        match self.0 {
            OneOrMany::One(v) => {
                let mut res = Vec::new();
                res.push(v);
                res
            },
            OneOrMany::Many(vs) => vs,
        }
    }
}

} // verus!
