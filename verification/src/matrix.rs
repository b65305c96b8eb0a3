//! Two-axis integer arrays kept in `ndarray` storage, as the model inputs
//! are before they become tensors.

use vstd::prelude::*;
use crate::error::EmbedError;
use crate::shape::pair;

verus! {

/// `ndarray::ShapeError`, the reason a shape was refused.
#[verifier::external_type_specification]
#[verifier::external_body]
pub struct ExShapeError(ndarray::ShapeError);

/// An `ndarray::Array2<i64>`: a two-axis array of 64-bit integers.
#[verifier::external_body]
pub struct IndexMatrix {
    inner: ndarray::Array2<i64>,
}

/// The axis lengths of a matrix, outermost first.
pub uninterp spec fn matrix_dims(m: IndexMatrix) -> Seq<usize>;

/// The backing buffer of a matrix, in the order `ndarray` stores it.
pub uninterp spec fn matrix_raw(m: IndexMatrix) -> Seq<i64>;

/// Product of the non-zero lengths of a two-axis shape, which is what
/// `ndarray` bounds by `isize::MAX` when it accepts a shape.
pub open spec fn nonzero_extent(rows: usize, cols: usize) -> int {
    (if rows == 0 { 1int } else { rows as int }) * (if cols == 0 { 1int } else { cols as int })
}

/// `ndarray::Array2::from_shape_vec` with a row-major `(rows, cols)` shape.
/// By its source the call succeeds exactly when the product of the
/// non-zero axis lengths is at most `isize::MAX` and `rows * cols` equals
/// the length of `data`; the array then has these two axis lengths and
/// takes `data` as its backing buffer without copying or reordering.
#[verifier::external_body]
pub(crate) fn from_shape_vec(
    rows: usize,
    cols: usize,
    data: Vec<i64>,
) -> (r: Result<IndexMatrix, ndarray::ShapeError>)
    ensures
        r is Ok <==> (nonzero_extent(rows, cols) <= isize::MAX && rows * cols == data@.len()),
        r matches Ok(m) ==> matrix_dims(m) == pair(rows, cols),
        r matches Ok(m) ==> matrix_raw(m) == data@,
{
    ndarray::Array2::from_shape_vec((rows, cols), data).map(|inner| IndexMatrix { inner })
}

/// `ndarray::ArrayBase::shape`, copied into a vector: the axis lengths.
#[verifier::external_body]
pub(crate) fn shape_of(m: &IndexMatrix) -> (r: Vec<usize>)
    ensures
        r@ == matrix_dims(*m),
{
    m.inner.shape().to_vec()
}

/// `ndarray::ArrayBase::into_raw_vec_and_offset`, keeping the vector: the
/// backing buffer as it is stored.
#[verifier::external_body]
pub(crate) fn into_raw_vec(m: IndexMatrix) -> (r: Vec<i64>)
    ensures
        r@ == matrix_raw(m),
{
    m.inner.into_raw_vec_and_offset().0
}

impl IndexMatrix {
    /// Lays `data` out as the single row of a `[1, cols]` matrix.
    ///
    /// Fails with `Shape` exactly when `data` does not hold `cols` elements
    /// or `cols` exceeds what an array axis may span.
    pub fn single_row(cols: usize, data: Vec<i64>) -> (r: Result<IndexMatrix, EmbedError>)
        ensures
            r is Ok <==> data@.len() == cols && cols <= isize::MAX,
            r matches Ok(m) ==> matrix_dims(m) == pair(1, cols) && matrix_raw(m) == data@,
            r matches Err(e) ==> e == EmbedError::Shape,
    {
        assert(nonzero_extent(1, cols) == if cols == 0 { 1int } else { cols as int });
        assert(1 * cols == cols);
        match from_shape_vec(1, cols, data) {
            Ok(m) => Ok(m),
            Err(_) => Err(EmbedError::Shape),
        }
    }

    /// Takes the matrix apart into its axis lengths and its backing buffer.
    pub fn into_parts(self) -> (r: (Vec<usize>, Vec<i64>))
        ensures
            r.0@ == matrix_dims(self),
            r.1@ == matrix_raw(self),
    {
        let dims = shape_of(&self);
        let data = into_raw_vec(self);
        (dims, data)
    }
}

} // verus!
