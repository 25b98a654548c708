//! The bounded buffer that holds the cells of the snake, and what is taken on
//! trust about it.

use vstd::prelude::*;
use crate::grid::Position;

verus! {

/// The number of cells that the buffer has room for.
pub const CAPACITY: usize = 32;

/// `heapless::Vec`, a vector of fixed capacity that lives without a heap.
/// Nothing inside it is visible to the proofs.
#[verifier::external_type_specification]
#[verifier::external_body]
#[verifier::reject_recursive_types(T)]
pub struct ExBoundedVec<T, const N: usize>(heapless::Vec<T, N>);

/// The cells that a buffer holds, in the order in which they were pushed.
pub uninterp spec fn body_cells(body: heapless::Vec<Position, CAPACITY>) -> Seq<Position>;

/// `heapless::Vec::new`: the new buffer holds no cell.
#[verifier::external_body]
pub(crate) fn empty_body() -> (body: heapless::Vec<Position, CAPACITY>)
    ensures
        body_cells(body) == Seq::<Position>::empty(),
{
    heapless::Vec::new()
}

/// `heapless::Vec::push`: while the buffer holds fewer cells than it has room
/// for, the cell is appended behind the others and the call answers `Ok`. A
/// full buffer is left as it was, and the cell comes back in `Err`.
#[verifier::external_body]
pub(crate) fn push_cell(
    body: &mut heapless::Vec<Position, CAPACITY>,
    cell: Position,
) -> (pushed: Result<(), Position>)
    ensures
        pushed is Ok <==> body_cells(*old(body)).len() < CAPACITY,
        pushed is Ok ==> body_cells(*final(body)) == body_cells(*old(body)).push(cell),
        pushed is Err ==> pushed->Err_0 == cell && body_cells(*final(body)) == body_cells(
            *old(body),
        ),
{
    body.push(cell)
}

/// `heapless::Vec::as_slice`: the slice holds the buffer's cells, first
/// pushed first.
#[verifier::external_body]
pub(crate) fn cells_of(body: &heapless::Vec<Position, CAPACITY>) -> (cells: &[Position])
    ensures
        cells@ == body_cells(*body),
{
    body.as_slice()
}

/// `Clone::clone` of `heapless::Vec`: the copy holds the same cells in the
/// same order.
#[verifier::external_body]
pub(crate) fn clone_body(
    body: &heapless::Vec<Position, CAPACITY>,
) -> (copy: heapless::Vec<Position, CAPACITY>)
    ensures
        body_cells(copy) == body_cells(*body),
{
    body.clone()
}

} // verus!
