//! Matrix-multiply vocabulary: element and compute types, operand
//! transposes, storage orders and the layout of one operand.

use vstd::prelude::*;

verus! {

/// Element type of a matrix operand.
#[allow(non_camel_case_types)]
#[derive(Clone, Copy, PartialEq, Eq, Structural, Debug)]
pub enum CudaDataType {
    R16F,
    R16BF,
    R32F,
    R8F_E4M3,
    R8F_E5M2,
}

/// Accumulation type of a matrix multiply.
#[derive(Clone, Copy, PartialEq, Eq, Structural, Debug)]
pub enum CublasComputeType {
    F32,
    F32FastBf16,
}

/// Whether an operand is used as stored or transposed.
#[derive(Clone, Copy, PartialEq, Eq, Structural, Debug)]
pub enum Op {
    N,
    T,
}

/// Storage order of a matrix.
#[derive(Clone, Copy, PartialEq, Eq, Structural, Debug)]
pub enum Order {
    Col,
    Row,
}

/// Shape and storage of one operand: `rows x cols` elements of `dtype`,
/// consecutive rows (row order) or columns (column order) `ld` elements
/// apart.
#[derive(Clone, Copy, PartialEq, Eq, Structural, Debug)]
pub struct LayoutSpec {
    pub dtype: CudaDataType,
    pub rows: u64,
    pub cols: u64,
    pub ld: i64,
    pub order: Order,
}

/// A row-major layout of a `rows x cols` matrix with leading dimension `cols`.
pub fn row_major(dtype: CudaDataType, rows: u64, cols: u64) -> (l: LayoutSpec)
    requires
        cols <= i64::MAX,
    ensures
        l == (LayoutSpec { dtype, rows, cols, ld: cols as i64, order: Order::Row }),
{
    LayoutSpec { dtype, rows, cols, ld: cols as i64, order: Order::Row }
}

/// Which operand a scale pointer applies to.
#[derive(Clone, Copy, PartialEq, Eq, Structural, Debug)]
pub enum ScaleTensor {
    A,
    B,
    C,
    D,
}

} // verus!
