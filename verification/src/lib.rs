use vstd::prelude::*;

pub mod compare;
pub mod display;
pub mod meta_map;
pub mod num;
pub mod text;
pub mod value;

verus! {

use std::rc::Rc;

/// A resolved lookup-path element: an identifier or an index operation.
pub enum EvaluatedLookupNode {
    Id(Rc<String>),
    Index(EvaluatedIndex),
}

/// A resolved index operation: one position, or a half-open range with an
/// optional open end.
pub enum EvaluatedIndex {
    Index(usize),
    Range { start: usize, end: Option<usize> },
}

} // verus!
