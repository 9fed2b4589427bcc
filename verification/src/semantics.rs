//! The numbers that a deferred tensor stands for, in exact arithmetic.

use burn_tensor::Scalar;
use vstd::prelude::*;

use crate::param::base::Parameter;
use crate::param::lora::LoraTransform;
use crate::tensor::{Factor, Float, Node, Tensor};

verus! {

/// What the graph leaves open: the elements of its sources, and the numbers
/// that scalars stand for.
pub struct Numbers {
    /// The element of a source at an index.
    pub source: spec_fn(Node, Seq<int>) -> real,
    /// The number that a scalar stands for.
    pub scalar: spec_fn(Scalar) -> real,
    /// The square root of `1 / n`.
    pub inverse_sqrt: spec_fn(usize) -> real,
}

/// The number that a factor stands for.
pub open spec fn factor_value(factor: Factor, numbers: Numbers) -> real {
    match factor {
        Factor::Constant(scalar) => (numbers.scalar)(scalar),
        Factor::Ratio { alpha, rank } => (numbers.scalar)(alpha) / (rank as int as real),
        Factor::InverseSqrt(n) => (numbers.inverse_sqrt)(n),
    }
}

/// `terms(0) + ... + terms(count - 1)`.
pub open spec fn sum(terms: spec_fn(int) -> real, count: int) -> real
    decreases count,
{
    if count <= 0 {
        0real
    } else {
        sum(terms, count - 1) + terms(count - 1)
    }
}

/// The index of the element that is combined at `index`: the only one along a
/// dimension of size 1.
pub open spec fn operand_index(dims: Seq<usize>, index: Seq<int>) -> Seq<int> {
    Seq::new(
        index.len(),
        |d: int|
            if dims[d] == 1 {
                0
            } else {
                index[d]
            },
    )
}

/// Whether `index` is that of an element of a tensor of these dimensions.
pub open spec fn in_bounds(dims: Seq<usize>, index: Seq<int>) -> bool {
    &&& index.len() == dims.len()
    &&& forall|d: int| 0 <= d < dims.len() ==> 0 <= #[trigger] index[d] < dims[d]
}

/// The elements of the value that `node` describes, by index.
pub open spec fn elements(node: Node, numbers: Numbers) -> spec_fn(Seq<int>) -> real
    decreases node,
{
    match node {
        Node::Data { data, device } => |index: Seq<int>| (numbers.source)(node, index),
        Node::Uniform { key, rows, cols, device } => |index: Seq<int>|
            (numbers.source)(node, index),
        Node::Source { key, shape, device, requirement } => |index: Seq<int>|
            (numbers.source)(node, index),
        Node::Zeros { rows, cols, device } => |index: Seq<int>| 0real,
        Node::Matmul(lhs, rhs) => {
            let left = elements(*lhs, numbers);
            let right = elements(*rhs, numbers);
            |index: Seq<int>|
                sum(
                    |k: int| left(seq![index[0], k]) * right(seq![k, index[1]]),
                    lhs.dims()[1] as int,
                )
        },
        Node::MulScalar(inner, factor) => {
            let value = elements(*inner, numbers);
            |index: Seq<int>| value(index) * factor_value(factor, numbers)
        },
        Node::Add(lhs, rhs) => {
            let left = elements(*lhs, numbers);
            let right = elements(*rhs, numbers);
            |index: Seq<int>|
                left(operand_index(lhs.dims(), index)) + right(operand_index(rhs.dims(), index))
        },
        Node::ToDevice(inner, _) => elements(*inner, numbers),
        Node::RequireGrad(inner) => elements(*inner, numbers),
        Node::Untrack(inner) => elements(*inner, numbers),
        Node::Detach(inner) => elements(*inner, numbers),
        Node::Inner(inner) => elements(*inner, numbers),
        Node::FromInner(inner) => elements(*inner, numbers),
    }
}

impl<K> Tensor<K> {
    /// The elements, by index.
    pub open spec fn elements(self, numbers: Numbers) -> spec_fn(Seq<int>) -> real {
        elements(*self.node, numbers)
    }
}

/// Whether two tensors have the same elements, dimensions and device, so that
/// they differ at most in how they take part in differentiation.
pub open spec fn alike(left: Tensor<Float>, right: Tensor<Float>, numbers: Numbers) -> bool {
    &&& left.elements(numbers) == right.elements(numbers)
    &&& left.dims_spec() == right.dims_spec()
    &&& left.device_spec() == right.device_spec()
}

/// Whether a transform gives the same elements for tensors that are alike.
pub open spec fn ignores_tracking<C: LoraTransform<Tensor<Float>, C>>(
    transform: C,
    numbers: Numbers,
) -> bool {
    forall|left: Tensor<Float>, right: Tensor<Float>|
        alike(left, right, numbers) ==> (#[trigger] transform.applied(left)).elements(numbers) == (
        #[trigger] transform.applied(right)).elements(numbers)
}

/// Whether uniform draws lie between -1 and 1, and `inverse_sqrt` is the square
/// root of `1 / n`.
pub open spec fn draws_uniformly(numbers: Numbers) -> bool {
    &&& forall|node: Node, index: Seq<int>|
        node is Uniform ==> -1real <= #[trigger] (numbers.source)(node, index) <= 1real
    &&& forall|n: usize|
        n > 0 ==> {
            let root = #[trigger] (numbers.inverse_sqrt)(n);
            &&& root >= 0real
            &&& root * root * (n as int as real) == 1real
        }
}

/// A sum of products that are all zero is zero.
pub proof fn sum_of_zeros(terms: spec_fn(int) -> real, count: int)
    requires
        forall|k: int| 0 <= k < count ==> #[trigger] terms(k) == 0real,
    ensures
        sum(terms, count) == 0real,
    decreases count,
{
    if count > 0 {
        sum_of_zeros(terms, count - 1);
    }
}

/// Whether a gradient is wanted does not change the elements, the dimensions or
/// the device, nor that the tensor can be evaluated.
pub proof fn grad_keeps_elements(tensor: Tensor<Float>, require_grad: bool, numbers: Numbers)
    ensures
        tensor.with_grad(require_grad).elements(numbers) == tensor.elements(numbers),
        tensor.with_grad(require_grad).dims_spec() == tensor.dims_spec(),
        tensor.with_grad(require_grad).device_spec() == tensor.device_spec(),
        tensor.can_set_grad(require_grad) ==> tensor.with_grad(require_grad).runs(),
{
}

} // verus!
