//! What each operation makes of a tensor: its elements, its dimensions, its
//! device, and how it takes part in differentiation.

use burn_tensor::{Scalar, Shape, TensorData};
use vstd::prelude::*;

use crate::param::base::Parameter;
use crate::semantics::{draws_uniformly, factor_value, sum, Numbers};
use crate::tensor::{Bool, Device, Factor, Float, Int, Node, Requirement, Tensor};

verus! {

/// A sum of no terms is zero, and one more term adds that term.
pub proof fn sums_grow_by_their_last_term(terms: spec_fn(int) -> real, count: int)
    requires
        count >= 0,
    ensures
        sum(terms, 0) == 0real,
        sum(terms, count + 1) == sum(terms, count) + terms(count),
{
}

/// A constant factor is its number, a ratio times its rank is its numerator, and
/// the square of an inverse root times the number under it is one.
pub proof fn factors_are_their_numbers(
    numbers: Numbers,
    constant: Scalar,
    alpha: Scalar,
    rank: usize,
    n: usize,
)
    ensures
        factor_value(Factor::Constant(constant), numbers) == (numbers.scalar)(constant),
        rank > 0 ==> factor_value(Factor::Ratio { alpha, rank }, numbers) * (rank as int as real)
            == (numbers.scalar)(alpha),
        factor_value(Factor::InverseSqrt(n), numbers) == (numbers.inverse_sqrt)(n),
        draws_uniformly(numbers) && n > 0 ==> {
            let root = factor_value(Factor::InverseSqrt(n), numbers);
            root >= 0real && root * root * (n as int as real) == 1real
        },
{
    let numerator = (numbers.scalar)(alpha);
    let denominator = rank as int as real;
    if rank > 0 {
        assert(numerator / denominator * denominator == numerator) by (nonlinear_arith)
            requires
                denominator > 0real,
        ;
    }
}

/// A matrix of zeros can be evaluated, has the size asked for, lives on the
/// device asked for, is not tracked, and all its elements are zero.
pub proof fn zeros_are_zero(
    rows: usize,
    cols: usize,
    device: Device,
    numbers: Numbers,
    index: Seq<int>,
)
    ensures
        Tensor::zeros_spec(rows, cols, device).runs(),
        Tensor::zeros_spec(rows, cols, device).dims_spec() == seq![rows, cols],
        Tensor::zeros_spec(rows, cols, device).device_spec() == device,
        Tensor::zeros_spec(rows, cols, device).node.requirement_spec() == Requirement::Untracked,
        Tensor::zeros_spec(rows, cols, device).elements(numbers)(index) == 0real,
{
}

/// A uniform draw can be evaluated, has the size asked for, lives on the device
/// asked for and is not tracked. Its elements lie between -1 and 1, and draws
/// under different keys are told apart.
pub proof fn draws_are_between_bounds(
    key: u64,
    other: u64,
    rows: usize,
    cols: usize,
    device: Device,
    numbers: Numbers,
    index: Seq<int>,
)
    ensures
        Tensor::uniform_spec(key, rows, cols, device).runs(),
        Tensor::uniform_spec(key, rows, cols, device).dims_spec() == seq![rows, cols],
        Tensor::uniform_spec(key, rows, cols, device).device_spec() == device,
        Tensor::uniform_spec(key, rows, cols, device).node.requirement_spec()
            == Requirement::Untracked,
        Tensor::uniform_spec(key, rows, cols, device).elements(numbers)(index) == (numbers.source)(
            Node::Uniform { key, rows, cols, device },
            index,
        ),
        draws_uniformly(numbers) ==> -1real <= Tensor::uniform_spec(
            key,
            rows,
            cols,
            device,
        ).elements(numbers)(index) <= 1real,
        key != other ==> Tensor::uniform_spec(key, rows, cols, device) != Tensor::uniform_spec(
            other,
            rows,
            cols,
            device,
        ),
{
    let node = Node::Uniform { key, rows, cols, device };
    assert((numbers.source)(node, index) == Tensor::uniform_spec(
        key,
        rows,
        cols,
        device,
    ).elements(numbers)(index));
    assert(*Tensor::uniform_spec(key, rows, cols, device).node == node);
    assert(*Tensor::uniform_spec(other, rows, cols, device).node == Node::Uniform {
        key: other,
        rows,
        cols,
        device,
    });
}

/// A tensor made from data has the dimensions of the data, lives on the device
/// asked for, is not tracked, and can be evaluated.
pub proof fn data_is_taken_as_it_is<K>(
    data: TensorData,
    device: Device,
    numbers: Numbers,
    index: Seq<int>,
)
    ensures
        Tensor::<K>::of(Node::Data { data, device }).runs(),
        Tensor::<K>::of(Node::Data { data, device }).dims_spec() == crate::shape::data_dims(data),
        Tensor::<K>::of(Node::Data { data, device }).device_spec() == device,
        Tensor::<K>::of(Node::Data { data, device }).node.requirement_spec()
            == Requirement::Untracked,
        Tensor::<K>::of(Node::Data { data, device }).elements(numbers)(index) == (numbers.source)(
            Node::Data { data, device },
            index,
        ),
{
}

/// A tensor that a backend holds is what was said of it. It can be evaluated
/// unless it is tracked on a device that records nothing.
pub proof fn sources_are_what_was_said(
    key: u64,
    shape: Shape,
    device: Device,
    requirement: Requirement,
    numbers: Numbers,
    index: Seq<int>,
)
    ensures
        ({
            let held = Tensor::<Float>::of(Node::Source { key, shape, device, requirement });
            &&& held.elements(numbers)(index) == (numbers.source)(
                Node::Source { key, shape, device, requirement },
                index,
            )
            &&& held.dims_spec() == crate::shape::shape_dims(shape)
            &&& held.device_spec() == device
            &&& held.node.requirement_spec() == requirement
            &&& held.runs() <==> (requirement == Requirement::Untracked || device.autodiff)
        }),
{
}

/// The matrix product: when it can be run, and that its elements are the sums of
/// the products of a row and a column.
pub proof fn products_are_sums_over_the_inner_dimension(
    left: Tensor<Float>,
    right: Tensor<Float>,
    numbers: Numbers,
    row: int,
    col: int,
)
    ensures
        left.can_matmul(right) == left.matmul_spec(right).runs(),
        left.can_matmul(right) <==> {
            &&& left.runs()
            &&& right.runs()
            &&& left.device_spec() == right.device_spec()
            &&& left.dims_spec().len() == 2
            &&& right.dims_spec().len() == 2
            &&& left.dims_spec()[1] == right.dims_spec()[0]
        },
        left.matmul_spec(right).dims_spec() == seq![left.dims_spec()[0], right.dims_spec()[1]],
        left.matmul_spec(right).device_spec() == left.device_spec(),
        left.matmul_spec(right).node.requirement_spec() == if left.node.requirement_spec()
            == Requirement::Untracked && right.node.requirement_spec() == Requirement::Untracked {
            Requirement::Untracked
        } else {
            Requirement::Derived
        },
        left.matmul_spec(right).elements(numbers)(seq![row, col]) == sum(
            |k: int|
                left.elements(numbers)(seq![row, k]) * right.elements(numbers)(seq![k, col]),
            left.dims_spec()[1] as int,
        ),
{
    let l = left.elements(numbers);
    let r = right.elements(numbers);
    let index = seq![row, col];
    assert((|k: int| l(seq![index[0], k]) * r(seq![k, index[1]])) =~= (|k: int|
        left.elements(numbers)(seq![row, k]) * right.elements(numbers)(seq![k, col])));
}

/// Multiplication by a number multiplies every element, and changes neither
/// dimensions nor device. What was tracked is then the result of an operation.
pub proof fn scaling_multiplies_every_element(
    tensor: Tensor<Float>,
    factor: Factor,
    numbers: Numbers,
    index: Seq<int>,
)
    ensures
        tensor.mul_scalar_spec(factor).runs() == tensor.runs(),
        tensor.mul_scalar_spec(factor).dims_spec() == tensor.dims_spec(),
        tensor.mul_scalar_spec(factor).device_spec() == tensor.device_spec(),
        tensor.mul_scalar_spec(factor).node.requirement_spec() == if tensor.node.requirement_spec()
            == Requirement::Untracked {
            Requirement::Untracked
        } else {
            Requirement::Derived
        },
        tensor.mul_scalar_spec(factor).elements(numbers)(index) == tensor.elements(numbers)(index)
            * factor_value(factor, numbers),
{
}

/// The sum: when it can be run, and that each element is the sum of the elements
/// at the same place, where an operand of size 1 along a dimension is repeated.
pub proof fn sums_add_element_by_element(
    left: Tensor<Float>,
    right: Tensor<Float>,
    numbers: Numbers,
    index: Seq<int>,
    left_index: Seq<int>,
    right_index: Seq<int>,
)
    requires
        left_index.len() == index.len(),
        right_index.len() == index.len(),
        forall|d: int|
            0 <= d < index.len() ==> #[trigger] left_index[d] == if left.dims_spec()[d] == 1 {
                0
            } else {
                index[d]
            },
        forall|d: int|
            0 <= d < index.len() ==> #[trigger] right_index[d] == if right.dims_spec()[d] == 1 {
                0
            } else {
                index[d]
            },
    ensures
        left.can_plus(right) == left.plus_spec(right).runs(),
        left.can_plus(right) <==> {
            &&& left.runs()
            &&& right.runs()
            &&& left.device_spec() == right.device_spec()
            &&& left.dims_spec().len() == right.dims_spec().len()
            &&& forall|d: int|
                0 <= d < left.dims_spec().len() ==> #[trigger] left.dims_spec()[d]
                    == right.dims_spec()[d] || left.dims_spec()[d] == 1 || right.dims_spec()[d]
                    == 1
        },
        left.plus_spec(right).dims_spec().len() == left.dims_spec().len(),
        forall|d: int|
            0 <= d < left.dims_spec().len() ==> #[trigger] left.plus_spec(right).dims_spec()[d]
                == if left.dims_spec()[d] == 1 {
                right.dims_spec()[d]
            } else {
                left.dims_spec()[d]
            },
        left.plus_spec(right).device_spec() == left.device_spec(),
        left.plus_spec(right).node.requirement_spec() == if left.node.requirement_spec()
            == Requirement::Untracked && right.node.requirement_spec() == Requirement::Untracked {
            Requirement::Untracked
        } else {
            Requirement::Derived
        },
        left.plus_spec(right).elements(numbers)(index) == left.elements(numbers)(left_index)
            + right.elements(numbers)(right_index),
{
    assert(crate::semantics::operand_index(left.dims_spec(), index) == left_index);
    assert(crate::semantics::operand_index(right.dims_spec(), index) == right_index);
}

/// Moving a tensor changes its device and nothing else but that what was tracked
/// is then the result of an operation.
pub proof fn moving_changes_the_device<K>(tensor: Tensor<K>, device: Device, numbers: Numbers)
    ensures
        tensor.to_device_spec(device).runs() <==> tensor.runs() && device.autodiff
            == tensor.device_spec().autodiff,
        tensor.to_device_spec(device).device_spec() == device,
        tensor.to_device_spec(device).dims_spec() == tensor.dims_spec(),
        tensor.to_device_spec(device).elements(numbers) == tensor.elements(numbers),
        tensor.to_device_spec(device).node.requirement_spec() == if tensor.node.requirement_spec()
            == Requirement::Untracked {
            Requirement::Untracked
        } else {
            Requirement::Derived
        },
{
}

/// Detaching keeps a leaf and cuts everything else off. The elements, dimensions
/// and device stay.
pub proof fn detaching_cuts_off(tensor: Tensor<Float>, numbers: Numbers)
    requires
        tensor.runs(),
    ensures
        tensor.detach_spec().runs(),
        tensor.detach_spec().device_spec() == tensor.device_spec(),
        tensor.detach_spec().dims_spec() == tensor.dims_spec(),
        tensor.detach_spec().elements(numbers) == tensor.elements(numbers),
        tensor.detach_spec().node.requirement_spec() == if tensor.node.requirement_spec()
            == Requirement::Leaf {
            Requirement::Leaf
        } else {
            Requirement::Untracked
        },
        tensor.detach_spec().detach_spec().node.requirement_spec()
            == tensor.detach_spec().node.requirement_spec(),
{
    reveal_with_fuel(Node::requirement_spec, 3);
    reveal_with_fuel(Node::device_spec, 3);
    if !tensor.device_spec().autodiff {
        crate::tensor::untracked_without_autodiff(&*tensor.node);
    }
}

/// Setting the wish for a gradient: it can be given up for every tensor that can
/// be evaluated, and wanted unless the tensor is the result of tracked
/// operations. Afterwards the tensor is a leaf if and only if the gradient is
/// wanted on a device with gradients; all else stays.
pub proof fn gradients_are_wanted_as_set(
    tensor: Tensor<Float>,
    require_grad: bool,
    numbers: Numbers,
)
    ensures
        tensor.can_set_grad(false) == tensor.runs(),
        tensor.can_set_grad(true) <==> tensor.runs() && (tensor.node.requirement_spec()
            != Requirement::Derived || !tensor.device_spec().autodiff),
        tensor.grad_of() <==> tensor.node.requirement_spec() == Requirement::Leaf,
        tensor.device_of() == tensor.device_spec(),
        tensor.can_set_grad(require_grad) ==> {
            let set = tensor.with_grad(require_grad);
            &&& set.runs()
            &&& set.device_spec() == tensor.device_spec()
            &&& set.dims_spec() == tensor.dims_spec()
            &&& set.elements(numbers) == tensor.elements(numbers)
            &&& set.grad_of() <==> require_grad && tensor.device_spec().autodiff
            &&& set.node.requirement_spec() != Requirement::Derived
            &&& !tensor.device_spec().autodiff ==> set == tensor
            &&& require_grad && tensor.grad_of() ==> set == tensor
        },
{
    if tensor.runs() && !tensor.device_spec().autodiff {
        crate::tensor::untracked_without_autodiff(&*tensor.node);
    }
    crate::semantics::grad_keeps_elements(tensor, require_grad, numbers);
}

/// Marks on a tensor: it becomes a leaf only where it is untracked on a device
/// with gradients, and is made untracked or cut off only on such a device. Its
/// elements, dimensions and device stay.
pub proof fn marks_keep_the_value(inner: Tensor<Float>, numbers: Numbers)
    ensures
        ({
            let leaf = Tensor::<Float>::of(Node::RequireGrad(inner.node));
            let untracked = Tensor::<Float>::of(Node::Untrack(inner.node));
            let detached = Tensor::<Float>::of(Node::Detach(inner.node));
            &&& leaf.runs() <==> inner.runs() && inner.device_spec().autodiff
                && inner.node.requirement_spec() == Requirement::Untracked
            &&& untracked.runs() <==> inner.runs() && inner.device_spec().autodiff
            &&& detached.runs() <==> inner.runs() && inner.device_spec().autodiff
            &&& leaf.node.requirement_spec() == Requirement::Leaf
            &&& untracked.node.requirement_spec() == Requirement::Untracked
            &&& detached.node.requirement_spec() != Requirement::Derived
            &&& detached.node.requirement_spec() == Requirement::Leaf
                <==> inner.node.requirement_spec() == Requirement::Leaf
            &&& leaf.elements(numbers) == inner.elements(numbers)
            &&& untracked.elements(numbers) == inner.elements(numbers)
            &&& detached.elements(numbers) == inner.elements(numbers)
            &&& leaf.dims_spec() == inner.dims_spec()
            &&& untracked.dims_spec() == inner.dims_spec()
            &&& detached.dims_spec() == inner.dims_spec()
            &&& leaf.device_spec() == inner.device_spec()
            &&& untracked.device_spec() == inner.device_spec()
            &&& detached.device_spec() == inner.device_spec()
        }),
{
}

/// Integers and truth values have no gradients: none is ever wanted, and setting
/// the wish changes nothing.
pub proof fn exact_kinds_have_no_gradients(
    integers: Tensor<Int>,
    truths: Tensor<Bool>,
    require_grad: bool,
)
    ensures
        !integers.grad_of(),
        integers.can_set_grad(require_grad),
        integers.with_grad(require_grad) == integers,
        integers.device_of() == integers.device_spec(),
        !truths.grad_of(),
        truths.can_set_grad(require_grad),
        truths.with_grad(require_grad) == truths,
        truths.device_of() == truths.device_spec(),
{
}

/// Leaving the autodiff backend and coming back keeps elements, dimensions and
/// device, and leaves the tensor untracked on both sides.
pub proof fn changing_the_backend_keeps_the_value<K>(tensor: Tensor<K>, numbers: Numbers)
    ensures
        tensor.inner_spec().runs() <==> tensor.runs() && tensor.device_spec().autodiff,
        tensor.inner_spec().elements(numbers) == tensor.elements(numbers),
        tensor.inner_spec().dims_spec() == tensor.dims_spec(),
        tensor.inner_spec().device_spec().type_id == tensor.device_spec().type_id,
        tensor.inner_spec().device_spec().index_id == tensor.device_spec().index_id,
        !tensor.inner_spec().device_spec().autodiff,
        tensor.inner_spec().node.requirement_spec() == Requirement::Untracked,
        Tensor::from_inner_spec(tensor).runs() <==> tensor.runs()
            && !tensor.device_spec().autodiff,
        Tensor::from_inner_spec(tensor).elements(numbers) == tensor.elements(numbers),
        Tensor::from_inner_spec(tensor).dims_spec() == tensor.dims_spec(),
        Tensor::from_inner_spec(tensor).device_spec().type_id == tensor.device_spec().type_id,
        Tensor::from_inner_spec(tensor).device_spec().index_id == tensor.device_spec().index_id,
        Tensor::from_inner_spec(tensor).device_spec().autodiff,
        Tensor::from_inner_spec(tensor).node.requirement_spec() == Requirement::Untracked,
{
}

} // verus!
