//! Tensor shapes, and how operations combine them.

use burn_tensor::{MetadataError, Shape, TensorData};
use vstd::prelude::*;

verus! {

/// `burn_tensor::Shape`, the list of a tensor's dimensions, which `burn_tensor`
/// has from `cubecl_zspace`. It is opaque here; [`shape_dims`] names the list
/// that it holds.
#[verifier::external_type_specification]
#[verifier::external_body]
pub struct ExShape(burn_tensor::Shape);

/// `burn_tensor::MetadataError`, what shape computations fail with.
#[verifier::external_type_specification]
#[verifier::external_body]
pub struct ExMetadataError(burn_tensor::MetadataError);

/// `burn_tensor::TensorData`, elements together with their shape. It is opaque
/// here; [`data_dims`] names the dimensions of the shape that it holds.
#[verifier::external_type_specification]
#[verifier::external_body]
pub struct ExTensorData(burn_tensor::TensorData);

/// `burn_tensor::Scalar`, one number. It is carried along, never looked into.
#[verifier::external_type_specification]
#[verifier::external_body]
pub struct ExScalar(burn_tensor::Scalar);

/// The dimensions that a shape holds, outermost first.
pub uninterp spec fn shape_dims(shape: burn_tensor::Shape) -> Seq<usize>;

/// The dimensions of the shape that belongs to `data`.
pub uninterp spec fn data_dims(data: burn_tensor::TensorData) -> Seq<usize>;

/// Whether two tensors of these dimensions can be combined element by element:
/// they have the same rank, and along each dimension the sizes are equal or one
/// of them is 1.
pub open spec fn broadcastable(lhs: Seq<usize>, rhs: Seq<usize>) -> bool {
    &&& lhs.len() == rhs.len()
    &&& forall|i: int| 0 <= i < lhs.len() ==> lhs[i] == rhs[i] || lhs[i] == 1 || rhs[i] == 1
}

/// The dimensions of an element by element combination: a size of 1 gives way
/// to the other operand's.
pub open spec fn broadcast_dims(lhs: Seq<usize>, rhs: Seq<usize>) -> Seq<usize> {
    Seq::new(lhs.len(), |i: int| if lhs[i] == 1 { rhs[i] } else { lhs[i] })
}

/// Calls `Shape::new` on an array of two sizes: the shape holds exactly these.
#[verifier::external_body]
pub(crate) fn matrix_shape(rows: usize, cols: usize) -> (shape: Shape)
    ensures
        shape_dims(shape) == seq![rows, cols],
{
    Shape::new([rows, cols])
}

/// Calls `Shape::clone`: the copy holds the same dimensions.
#[verifier::external_body]
pub(crate) fn clone_shape(shape: &Shape) -> (copy: Shape)
    ensures
        shape_dims(copy) == shape_dims(*shape),
{
    shape.clone()
}

/// Calls `Shape::to_vec`: the dimensions in order.
#[verifier::external_body]
pub(crate) fn shape_to_vec(shape: &Shape) -> (dims: Vec<usize>)
    ensures
        dims@ == shape_dims(*shape),
{
    shape.to_vec()
}

/// Calls `Shape::dims::<2>`: the first two dimensions. That function slices
/// the list, so there have to be two.
#[verifier::external_body]
pub(crate) fn shape_dims2(shape: &Shape) -> (dims: [usize; 2])
    requires
        shape_dims(*shape).len() >= 2,
    ensures
        dims@ == shape_dims(*shape).subrange(0, 2),
{
    shape.dims::<2>()
}

/// Calls `Shape::broadcast`, which succeeds exactly on broadcastable shapes.
#[verifier::external_body]
pub(crate) fn broadcast_shape(lhs: &Shape, rhs: &Shape) -> (out: Result<Shape, MetadataError>)
    ensures
        out is Ok <==> broadcastable(shape_dims(*lhs), shape_dims(*rhs)),
        out matches Ok(shape) ==> shape_dims(shape) == broadcast_dims(
            shape_dims(*lhs),
            shape_dims(*rhs),
        ),
{
    lhs.broadcast(rhs)
}

/// Calls `burn_tensor::calculate_matmul_output` on the shapes of two matrices:
/// it succeeds exactly when the inner sizes agree, and keeps the outer ones.
#[verifier::external_body]
pub(crate) fn matmul_shape(lhs: &Shape, rhs: &Shape) -> (out: Result<Shape, MetadataError>)
    requires
        shape_dims(*lhs).len() == 2,
        shape_dims(*rhs).len() == 2,
    ensures
        out is Ok <==> shape_dims(*lhs)[1] == shape_dims(*rhs)[0],
        out matches Ok(shape) ==> shape_dims(shape) == seq![
            shape_dims(*lhs)[0],
            shape_dims(*rhs)[1],
        ],
{
    burn_tensor::calculate_matmul_output(lhs, rhs)
}

/// Clones the field `TensorData::shape`, and so holds that field's dimensions.
#[verifier::external_body]
pub(crate) fn data_shape(data: &TensorData) -> (shape: Shape)
    ensures
        shape_dims(shape) == data_dims(*data),
{
    data.shape.clone()
}

} // verus!
