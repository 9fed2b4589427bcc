//! What is done to one parameter, said of its parts and of the elements of its
//! value.

use std::sync::Arc;

use burn_tensor::Scalar;
use vstd::prelude::*;

use crate::laws::tensors::{
    changing_the_backend_keeps_the_value, detaching_cuts_off, factors_are_their_numbers,
    gradients_are_wanted_as_set, moving_changes_the_device, scaling_multiplies_every_element,
};
use crate::laws::{delta_is_the_scaled_product, drawn_factors};
use crate::param::base::{Param, ParamId, ParamMapper, ParamState, Parameter, Uninitialized};
use crate::param::lora::{LoraState, LoraTransform, NoTransform, Transform};
use crate::semantics::{factor_value, grad_keeps_elements, sum, Numbers};
use crate::tensor::{Bool, Device, Factor, Float, Int, Node, Requirement, Tensor};

verus! {

/// A new parameter holds the value it was made with, wants a gradient if the
/// value does, and has nothing attached.
pub proof fn new_parameters_hold_their_value<T: Parameter, C>(id: ParamId, value: T)
    ensures
        ({
            let param = Param::<T, C>::initialized_spec(id, value);
            &&& param.id == id
            &&& param.state == ParamState::Initialized(value)
            &&& param.original() == value
            &&& param.readable()
            &&& param.require_grad == value.grad_of()
            &&& param.param_mapper.load is None
            &&& param.param_mapper.save is None
            &&& param.lora_transform is None
        }),
{
}

/// What is told of a parameter is told of the value that it holds, or, if it has
/// not been initialised, is what was recorded of the value.
pub proof fn parameters_tell_what_they_hold<T: Parameter, C>(param: Param<T, C>)
    ensures
        param.state matches ParamState::Initialized(value) ==> {
            &&& param.readable()
            &&& param.original() == value
            &&& param.lazy_device_spec() == value.device_of()
            &&& param.lazy_grad_spec() == value.grad_of()
        },
        param.state matches ParamState::Uninitialized(lazy) ==> {
            &&& param.readable() == lazy.init.can_set_grad(lazy.is_require_grad)
            &&& param.original() == lazy.init.with_grad(lazy.is_require_grad)
            &&& param.lazy_device_spec() == lazy.device
            &&& param.lazy_grad_spec() == lazy.is_require_grad
        },
{
}

/// The dimensions of a parameter are those of the value that it holds, or those
/// that were recorded.
pub proof fn dimensions_are_those_held_or_recorded<K, C>(param: Param<Tensor<K>, C>)
    ensures
        param.state matches ParamState::Initialized(value) ==> {
            &&& param.lazy_dims() == value.dims_spec()
            &&& param.shaped() == value.runs()
        },
        param.state matches ParamState::Uninitialized(lazy) ==> {
            &&& param.lazy_dims() == crate::shape::shape_dims(*lazy.shape)
            &&& param.shaped()
        },
{
}

/// Replacing the value of a parameter keeps its identity, its mapper and what
/// adapts it; a gradient is then wanted if the new value wants one.
pub proof fn replacing_the_value_keeps_the_rest<T: Parameter, C>(param: Param<T, C>, value: T)
    ensures
        param.with_value(value).id == param.id,
        param.with_value(value).state == ParamState::Initialized(value),
        param.with_value(value).require_grad == value.grad_of(),
        param.with_value(value).param_mapper == param.param_mapper,
        param.with_value(value).lora_transform == param.lora_transform,
{
}

/// Setting the wish for a gradient keeps identity, mapper and what adapts the
/// parameter. It sets the wish of the value that is held, or the one that is
/// recorded.
pub proof fn setting_the_gradient_keeps_the_rest<T: Parameter, C>(
    param: Param<T, C>,
    require_grad: bool,
)
    ensures
        ({
            let set = param.with_require_grad(require_grad);
            &&& set.id == param.id
            &&& set.param_mapper == param.param_mapper
            &&& set.lora_transform == param.lora_transform
            &&& param.state matches ParamState::Initialized(value) ==> {
                &&& set.state == ParamState::Initialized(value.with_grad(require_grad))
                &&& set.require_grad == value.with_grad(require_grad).grad_of()
                &&& param.can_set_require_grad(require_grad) == value.can_set_grad(require_grad)
            }
            &&& param.state matches ParamState::Uninitialized(lazy) ==> {
                &&& param.can_set_require_grad(require_grad)
                &&& set.require_grad == require_grad
                &&& set.state == ParamState::Uninitialized(
                    Uninitialized {
                        init: lazy.init,
                        device: lazy.device,
                        is_require_grad: require_grad,
                        shape: lazy.shape,
                    },
                )
            }
        }),
{
}

/// After the wish for a gradient of a parameter that holds its value was set, the
/// gradient is wanted if and only if it was asked for on a device with gradients,
/// and the value is what it was.
pub proof fn gradients_of_parameters_are_wanted_as_set<C>(
    param: Param<Tensor<Float>, C>,
    require_grad: bool,
    numbers: Numbers,
)
    requires
        param.state is Initialized,
        param.can_set_require_grad(require_grad),
    ensures
        param.with_require_grad(require_grad).require_grad == (require_grad
            && param.original().device_spec().autodiff),
        param.with_require_grad(require_grad).original().grad_of() == (require_grad
            && param.original().device_spec().autodiff),
        param.with_require_grad(require_grad).original().elements(numbers)
            == param.original().elements(numbers),
        param.with_require_grad(require_grad).original().dims_spec()
            == param.original().dims_spec(),
        param.with_require_grad(require_grad).original().device_spec()
            == param.original().device_spec(),
{
    gradients_are_wanted_as_set(param.original(), require_grad, numbers);
}

/// A value is loaded through the function for loading and saved through the
/// function for saving. Where there is none, it stays as it is.
pub proof fn mappers_apply_their_functions<T>(mapper: ParamMapper<T>, value: T)
    ensures
        mapper.load is None ==> mapper.loads(value) && mapper.loaded(value) == value,
        mapper.load matches Some(map) ==> {
            &&& mapper.loads(value) == map.accepts(value)
            &&& mapper.loaded(value) == map.mapped(value)
        },
        mapper.save is None ==> mapper.saves(value) && mapper.saved(value) == value,
        mapper.save matches Some(map) ==> {
            &&& mapper.saves(value) == map.accepts(value)
            &&& mapper.saved(value) == map.mapped(value)
        },
{
}

/// Attaching a transform puts it in place of the one that was there, and keeps
/// all else.
pub proof fn attaching_replaces_the_transform<C>(
    param: Param<Tensor<Float>, C>,
    transform: Arc<Transform<Tensor<Float>, C>>,
)
    ensures
        param.adapted_by(transform).lora_transform == Some(transform),
        param.adapted_by(transform).id == param.id,
        param.adapted_by(transform).state == param.state,
        param.adapted_by(transform).param_mapper == param.param_mapper,
        param.adapted_by(transform).require_grad == param.require_grad,
{
}

/// The value of a matrix with a low-rank adaptation, on any device: each element
/// is that of the matrix plus the scale times the sum over the rank of the
/// products of the factors' elements. The same holds of what the adaptation makes
/// of a matrix.
pub proof fn adapted_values_are_base_plus_scaled_product<C: LoraTransform<Tensor<Float>, C>>(
    param: Param<Tensor<Float>, C>,
    state: LoraState<Tensor<Float>, C>,
    numbers: Numbers,
    row: int,
    col: int,
)
    requires
        param.lora_transform == Some(Arc::new(Transform::Lora(state))),
        param.adaptable(),
        param.original().dims_spec() == seq![
            state.lora_a.effective().dims_spec()[0],
            state.lora_b.effective().dims_spec()[1],
        ],
        0 <= row < param.original().dims_spec()[0],
        0 <= col < param.original().dims_spec()[1],
    ensures
        ({
            let lora_a = state.lora_a.effective();
            let lora_b = state.lora_b.effective();
            let expected = param.original().elements(numbers)(seq![row, col]) + factor_value(
                state.scaling,
                numbers,
            ) * sum(
                |k: int|
                    lora_a.elements(numbers)(seq![row, k]) * lora_b.elements(numbers)(
                        seq![k, col],
                    ),
                lora_a.dims_spec()[1] as int,
            );
            &&& param.effective().elements(numbers)(seq![row, col]) == expected
            &&& state.applied(param.original()).elements(numbers)(seq![row, col]) == expected
            &&& Transform::Lora(state).applied(param.original()).elements(numbers)(
                seq![row, col],
            ) == expected
            &&& param.effective().dims_spec() == param.original().dims_spec()
            &&& param.effective().device_spec() == param.original().device_spec()
        }),
{
    let lora_a = state.lora_a.effective();
    let lora_b = state.lora_b.effective();
    let index = seq![row, col];
    delta_is_the_scaled_product(param.original(), lora_a, lora_b, state.scaling, numbers, index);
    assert((|k: int|
        lora_a.elements(numbers)(seq![index[0], k]) * lora_b.elements(numbers)(
            seq![k, index[1]],
        )) =~= (|k: int|
        lora_a.elements(numbers)(seq![row, k]) * lora_b.elements(numbers)(seq![k, col])));
}

/// The value of a parameter that nothing adapts is its own; the value of one that
/// a transform of the library's user adapts is what that transform makes of its
/// own.
pub proof fn other_values_are_the_own_or_the_transformed<C: LoraTransform<Tensor<Float>, C>>(
    param: Param<Tensor<Float>, C>,
    custom: C,
)
    ensures
        param.lora_transform is None ==> {
            &&& param.effective() == param.original()
            &&& param.adaptable() == (param.readable() && param.original().runs())
        },
        param.lora_transform == Some(
            Arc::new(Transform::<Tensor<Float>, C>::Custom(custom)),
        ) ==> {
            &&& param.effective() == custom.applied(param.original())
            &&& param.adaptable() <==> param.readable() && custom.applies(param.original())
                && custom.applied(param.original()).runs()
        },
{
}

/// When a matrix with a low-rank adaptation has a value: the matrix and the
/// factors have one, on one device, the factors are matrices whose inner sizes
/// agree, and their product has a size that can be added to the matrix.
pub proof fn adapted_matrices_have_a_value_where_sizes_fit<C: LoraTransform<Tensor<Float>, C>>(
    param: Param<Tensor<Float>, C>,
    state: LoraState<Tensor<Float>, C>,
)
    requires
        param.lora_transform == Some(Arc::new(Transform::Lora(state))),
    ensures
        param.adaptable() <==> {
            let base = param.original();
            let lora_a = state.lora_a.effective();
            let lora_b = state.lora_b.effective();
            let rows = lora_a.dims_spec()[0];
            let cols = lora_b.dims_spec()[1];
            &&& param.readable()
            &&& base.runs()
            &&& state.lora_a.adaptable()
            &&& state.lora_b.adaptable()
            &&& lora_a.device_spec() == lora_b.device_spec()
            &&& base.device_spec() == lora_a.device_spec()
            &&& lora_a.dims_spec().len() == 2
            &&& lora_b.dims_spec().len() == 2
            &&& lora_a.dims_spec()[1] == lora_b.dims_spec()[0]
            &&& base.dims_spec().len() == 2
            &&& base.dims_spec()[0] == rows || base.dims_spec()[0] == 1 || rows == 1
            &&& base.dims_spec()[1] == cols || base.dims_spec()[1] == 1 || cols == 1
        },
        state.applies(param.original()) && param.readable() <==> param.adaptable(),
{
    let base = param.original();
    let lora_a = state.lora_a.effective();
    let lora_b = state.lora_b.effective();
    let sizes = seq![lora_a.dims_spec()[0], lora_b.dims_spec()[1]];
    let product = lora_a.matmul_spec(lora_b);
    let delta = product.mul_scalar_spec(state.scaling);
    assert(param.effective() == base.plus_spec(delta));
    assert(product.dims_spec() == sizes);
    assert(product.device_spec() == lora_a.device_spec());
    assert(delta.dims_spec() == product.dims_spec());
    assert(delta.device_spec() == product.device_spec());
    assert(delta.runs() == product.runs());
    assert(sizes[0] == lora_a.dims_spec()[0] && sizes[1] == lora_b.dims_spec()[1]);
    if param.adaptable() {
        let dims = base.dims_spec();
        assert(dims.len() == 2);
        assert(dims[0] == sizes[0] || dims[0] == 1 || sizes[0] == 1);
        assert(dims[1] == sizes[1] || dims[1] == 1 || sizes[1] == 1);
    }
}

/// A transform does what the adaptation or the user's transform inside it does.
/// An adaptation exposes both its factors, has as its rank the number of columns
/// of the first, and keeps its scale when its factors are replaced.
pub proof fn transforms_do_what_they_hold_does<C: LoraTransform<Tensor<Float>, C>>(
    state: LoraState<Tensor<Float>, C>,
    custom: C,
    base: Tensor<Float>,
    new_a: Param<Tensor<Float>, C>,
    new_b: Param<Tensor<Float>, C>,
)
    ensures
        state.exposed_a() == Some(state.lora_a),
        state.exposed_b() == Some(state.lora_b),
        state.updated(new_a, new_b).lora_a == new_a,
        state.updated(new_a, new_b).lora_b == new_b,
        state.updated(new_a, new_b).scaling == state.scaling,
        state.rank_of() == state.lora_a.original().dims_spec()[1],
        state.has_rank() <==> state.lora_a.readable() && state.lora_a.original().runs()
            && state.lora_a.original().dims_spec().len() >= 2,
        ({
            let transform = Transform::Lora(state);
            &&& transform.exposed_a() == Some(state.lora_a)
            &&& transform.exposed_b() == Some(state.lora_b)
            &&& transform.updated(new_a, new_b) == Transform::Lora(
                LoraState { lora_a: new_a, lora_b: new_b, scaling: state.scaling },
            )
            &&& transform.rank_of() == state.rank_of()
            &&& transform.has_rank() == state.has_rank()
            &&& transform.applies(base) == state.applies(base)
            &&& transform.applied(base) == state.applied(base)
        }),
        ({
            let transform = Transform::<Tensor<Float>, C>::Custom(custom);
            &&& transform.exposed_a() == custom.exposed_a()
            &&& transform.exposed_b() == custom.exposed_b()
            &&& transform.updated(new_a, new_b) == Transform::<Tensor<Float>, C>::Custom(
                custom.updated(new_a, new_b),
            )
            &&& transform.rank_of() == custom.rank_of()
            &&& transform.has_rank() == custom.has_rank()
            &&& transform.applies(base) == custom.applies(base)
            &&& transform.applied(base) == custom.applied(base)
        }),
        NoTransform.applies(base),
        NoTransform.applied(base) == base,
        NoTransform.rank_of() == 0,
        NoTransform.exposed_a() is None,
        NoTransform.exposed_b() is None,
{
}

/// A merged parameter holds the value that the adapted one had, and nothing
/// adapts it. Identity and mapper stay. A parameter that nothing adapts is left
/// as it is, initialised or not.
pub proof fn merging_holds_the_adapted_value<C: LoraTransform<Tensor<Float>, C>>(
    param: Param<Tensor<Float>, C>,
)
    ensures
        param.lora_transform is None ==> param.merged() == param,
        param.lora_transform is Some ==> {
            &&& param.merged().state == ParamState::Initialized(param.effective())
            &&& param.merged().require_grad == param.effective().grad_of()
            &&& param.merged().lora_transform is None
            &&& param.merged().id == param.id
            &&& param.merged().param_mapper == param.param_mapper
        },
{
}

/// What a new adaptation is: its scale times its rank is `alpha`; its factors have
/// the sizes `[in_features, rank]` and `[rank, out_features]`, live on `device`,
/// can be evaluated, want gradients where there are any, and have nothing
/// attached; the first is a uniform draw times the root of `1 / in_features`, the
/// second is zero.
pub proof fn new_adaptations_are_scaled_draws<C: LoraTransform<Tensor<Float>, C>>(
    key: u64,
    id_a: ParamId,
    id_b: ParamId,
    rank: usize,
    alpha: Scalar,
    in_features: usize,
    out_features: usize,
    device: Device,
    numbers: Numbers,
    index: Seq<int>,
)
    ensures
        ({
            let state = LoraState::<Tensor<Float>, C>::drawn(
                key,
                id_a,
                id_b,
                rank,
                alpha,
                in_features,
                out_features,
                device,
            );
            &&& rank > 0 ==> factor_value(state.scaling, numbers) * (rank as int as real)
                == (numbers.scalar)(alpha)
            &&& state.lora_a.id == id_a
            &&& state.lora_b.id == id_b
            &&& state.lora_a.lora_transform is None
            &&& state.lora_b.lora_transform is None
            &&& state.lora_a.require_grad == device.autodiff
            &&& state.lora_b.require_grad == device.autodiff
            &&& state.lora_a.param_mapper.load is None && state.lora_a.param_mapper.save is None
            &&& state.lora_b.param_mapper.load is None && state.lora_b.param_mapper.save is None
            &&& state.lora_a.state matches ParamState::Initialized(lora_a)
            &&& state.lora_b.state matches ParamState::Initialized(lora_b)
            &&& lora_a.runs() && lora_b.runs()
            &&& lora_a.dims_spec() == seq![in_features, rank]
            &&& lora_b.dims_spec() == seq![rank, out_features]
            &&& lora_a.device_spec() == device && lora_b.device_spec() == device
            &&& lora_a.grad_of() == device.autodiff && lora_b.grad_of() == device.autodiff
            &&& lora_a.elements(numbers)(index) == (numbers.source)(
                Node::Uniform { key, rows: in_features, cols: rank, device },
                index,
            ) * (numbers.inverse_sqrt)(in_features)
            &&& lora_b.elements(numbers)(index) == 0real
        }),
{
    drawn_factors::<C>(
        key,
        id_a,
        id_b,
        rank,
        alpha,
        in_features,
        out_features,
        device,
        numbers,
    );
    factors_are_their_numbers(numbers, alpha, alpha, rank, in_features);
    let drawn = Tensor::uniform_spec(key, in_features, rank, device);
    let noise = drawn.mul_scalar_spec(Factor::InverseSqrt(in_features));
    let zeros = Tensor::zeros_spec(rank, out_features, device);
    scaling_multiplies_every_element(drawn, Factor::InverseSqrt(in_features), numbers, index);
    grad_keeps_elements(noise, true, numbers);
    grad_keeps_elements(zeros, true, numbers);
    assert(zeros.elements(numbers)(index) == 0real);
}

/// Adapting a matrix anew keeps all of it but what adapted it. What adapts it now
/// is an adaptation whose scale times `rank` is `alpha`, with factors of sizes
/// `[in_features, rank]` and `[rank, out_features]` on `device`, that want
/// gradients where there are any. The first is a uniform draw times the root of
/// `1 / in_features`, the second is zero.
pub proof fn adapting_attaches_factors_scaled_by_alpha_over_rank<
    C: LoraTransform<Tensor<Float>, C>,
>(
    param: Param<Tensor<Float>, C>,
    rank: usize,
    alpha: Scalar,
    device: Device,
    out: Param<Tensor<Float>, C>,
    numbers: Numbers,
)
    requires
        Param::newly_adapted(param, rank, alpha, device, out),
    ensures
        out.id == param.id,
        out.state == param.state,
        out.param_mapper == param.param_mapper,
        out.require_grad == param.require_grad,
        ({
            let rows = param.lazy_dims()[0];
            let cols = param.lazy_dims()[1];
            &&& out.lora_transform matches Some(transform)
            &&& *transform matches Transform::Lora(state)
            &&& rank > 0 ==> factor_value(state.scaling, numbers) * (rank as int as real)
                == (numbers.scalar)(alpha)
            &&& state.lora_a.lora_transform is None && state.lora_b.lora_transform is None
            &&& state.lora_a.require_grad == device.autodiff
            &&& state.lora_b.require_grad == device.autodiff
            &&& state.lora_a.state matches ParamState::Initialized(lora_a)
            &&& state.lora_b.state matches ParamState::Initialized(lora_b)
            &&& lora_a.runs() && lora_b.runs()
            &&& lora_a.dims_spec() == seq![rows, rank]
            &&& lora_b.dims_spec() == seq![rank, cols]
            &&& lora_a.device_spec() == device && lora_b.device_spec() == device
            &&& lora_a.grad_of() == device.autodiff && lora_b.grad_of() == device.autodiff
            &&& forall|index: Seq<int>| #[trigger] lora_b.elements(numbers)(index) == 0real
            &&& exists|key: u64|
                {
                    let draw = #[trigger] Tensor::<Float>::uniform_spec(key, rows, rank, device);
                    forall|index: Seq<int>| #[trigger]
                        lora_a.elements(numbers)(index) == draw.elements(numbers)(index) * (
                        numbers.inverse_sqrt)(rows)
                }
        }),
{
    let rows = param.lazy_dims()[0];
    let cols = param.lazy_dims()[1];
    let (key, id_a, id_b) = choose|key: u64, id_a: ParamId, id_b: ParamId|
        out == param.adapted_by(
            Arc::new(
                Transform::Lora(
                    #[trigger] LoraState::drawn(key, id_a, id_b, rank, alpha, rows, cols, device),
                ),
            ),
        );
    let state = LoraState::<Tensor<Float>, C>::drawn(
        key,
        id_a,
        id_b,
        rank,
        alpha,
        rows,
        cols,
        device,
    );
    let lora_a = state.lora_a.original();
    let lora_b = state.lora_b.original();
    new_adaptations_are_scaled_draws::<C>(
        key,
        id_a,
        id_b,
        rank,
        alpha,
        rows,
        cols,
        device,
        numbers,
        seq![],
    );
    let draw = Tensor::<Float>::uniform_spec(key, rows, rank, device);
    assert forall|index: Seq<int>| #[trigger] lora_b.elements(numbers)(index) == 0real by {
        new_adaptations_are_scaled_draws::<C>(
            key,
            id_a,
            id_b,
            rank,
            alpha,
            rows,
            cols,
            device,
            numbers,
            index,
        );
    }
    assert forall|index: Seq<int>| #[trigger]
        lora_a.elements(numbers)(index) == draw.elements(numbers)(index) * (numbers.inverse_sqrt)(
            rows,
        ) by {
        new_adaptations_are_scaled_draws::<C>(
            key,
            id_a,
            id_b,
            rank,
            alpha,
            rows,
            cols,
            device,
            numbers,
            index,
        );
    }
}

/// What is saved of a parameter: its identity, and its own value as the function
/// for saving gives it, with nothing attached. It wants a gradient if that value
/// does.
pub proof fn saving_maps_the_own_value<C>(param: Param<Tensor<Float>, C>)
    ensures
        ({
            let value = match param.param_mapper.save {
                Some(map) => map.mapped(param.original()),
                None => param.original(),
            };
            &&& param.saved().id == param.id
            &&& param.saved().state == ParamState::Initialized(value)
            &&& param.saved().require_grad == value.grad_of()
            &&& param.saved().lora_transform is None
            &&& param.saved().param_mapper.load is None
            &&& param.saved().param_mapper.save is None
        }),
        param.can_save() <==> param.readable() && (param.param_mapper.save matches Some(map)
            ==> map.accepts(param.original())),
{
}

/// The same of a parameter of integers and of one of truth values.
pub proof fn saving_maps_exact_values<C>(
    integers: Param<Tensor<Int>, C>,
    truths: Param<Tensor<Bool>, C>,
)
    ensures
        ({
            let value = match integers.param_mapper.save {
                Some(map) => map.mapped(integers.original()),
                None => integers.original(),
            };
            &&& integers.saved().id == integers.id
            &&& integers.saved().state == ParamState::Initialized(value)
            &&& !integers.saved().require_grad
            &&& integers.saved().lora_transform is None
            &&& integers.saved().param_mapper.load is None
            &&& integers.saved().param_mapper.save is None
            &&& integers.can_save() <==> (integers.param_mapper.save matches Some(map)
                ==> map.accepts(integers.original()))
        }),
        ({
            let value = match truths.param_mapper.save {
                Some(map) => map.mapped(truths.original()),
                None => truths.original(),
            };
            &&& truths.saved().id == truths.id
            &&& truths.saved().state == ParamState::Initialized(value)
            &&& !truths.saved().require_grad
            &&& truths.saved().lora_transform is None
            &&& truths.saved().param_mapper.load is None
            &&& truths.saved().param_mapper.save is None
            &&& truths.can_save() <==> (truths.param_mapper.save matches Some(map)
                ==> map.accepts(truths.original()))
        }),
{
}

/// How a tensor comes to the function for loading: as it is, if it is on the
/// device of the parameter; else with the same elements and dimensions on that
/// device, cut off from the operations that gave it.
pub proof fn tensors_are_brought_to_the_parameter<C>(
    param: Param<Tensor<Float>, C>,
    tensor: Tensor<Float>,
    numbers: Numbers,
)
    requires
        tensor.runs(),
        tensor.device_spec().autodiff == param.lazy_device_spec().autodiff,
    ensures
        tensor.device_spec() == param.lazy_device_spec() ==> param.brought(tensor) == tensor,
        tensor.device_spec() != param.lazy_device_spec() ==> param.brought(
            tensor,
        ).node.requirement_spec() == Requirement::Untracked,
        param.brought(tensor).runs(),
        param.brought(tensor).device_spec() == param.lazy_device_spec(),
        param.brought(tensor).dims_spec() == tensor.dims_spec(),
        param.brought(tensor).elements(numbers) == tensor.elements(numbers),
{
    moving_changes_the_device(tensor, param.lazy_device_spec(), numbers);
    if tensor.device_spec() != param.lazy_device_spec() {
        detaching_cuts_off(tensor.to_device_spec(param.lazy_device_spec()), numbers);
    }
}

/// What loading makes of a parameter: it has the identity that was given, keeps
/// its mapper, and loses what adapted it. Its value is that which the function
/// for loading gives, with the wish for a gradient that the parameter had or had
/// recorded, where that value has a device with gradients.
pub proof fn loading_maps_what_is_brought<C>(
    param: Param<Tensor<Float>, C>,
    tensor: Tensor<Float>,
    param_id: ParamId,
    numbers: Numbers,
)
    requires
        param.can_load(tensor),
    ensures
        ({
            let brought = param.brought(tensor);
            let mapped = match param.param_mapper.load {
                Some(map) => map.mapped(brought),
                None => brought,
            };
            let wanted = match param.state {
                ParamState::Initialized(value) => value.grad_of(),
                ParamState::Uninitialized(lazy) => lazy.is_require_grad,
            };
            let loaded = param.loaded(tensor, param_id);
            &&& loaded.id == param_id
            &&& loaded.param_mapper == param.param_mapper
            &&& loaded.lora_transform is None
            &&& loaded.state matches ParamState::Initialized(value)
            &&& value.runs()
            &&& value.elements(numbers) == mapped.elements(numbers)
            &&& value.dims_spec() == mapped.dims_spec()
            &&& value.device_spec() == mapped.device_spec()
            &&& value.grad_of() == (wanted && mapped.device_spec().autodiff)
            &&& loaded.require_grad == (wanted && mapped.device_spec().autodiff)
        }),
{
    let mapped = param.param_mapper.loaded(param.brought(tensor));
    gradients_are_wanted_as_set(mapped, param.lazy_grad_spec(), numbers);
}

/// When a tensor can be loaded: it can be evaluated, is of the parameter's
/// backend, the function for loading accepts it, and what that gives can have the
/// parameter's wish for a gradient.
pub proof fn tensors_can_be_loaded_where_they_fit<C>(
    param: Param<Tensor<Float>, C>,
    tensor: Tensor<Float>,
)
    ensures
        param.can_load(tensor) <==> {
            let brought = param.brought(tensor);
            let mapped = match param.param_mapper.load {
                Some(map) => map.mapped(brought),
                None => brought,
            };
            &&& tensor.runs()
            &&& tensor.device_spec().autodiff == param.lazy_device_spec().autodiff
            &&& param.param_mapper.load matches Some(map) ==> map.accepts(brought)
            &&& mapped.runs()
            &&& param.lazy_grad_spec() && mapped.device_spec().autodiff
                ==> mapped.node.requirement_spec() != Requirement::Derived
        },
{
}

/// What loading makes of a parameter of integers: the identity that was given,
/// the mapper that it had, and what the function for loading gives for the tensor
/// on the parameter's device.
pub proof fn loading_maps_integers<C>(
    param: Param<Tensor<Int>, C>,
    tensor: Tensor<Int>,
    param_id: ParamId,
    numbers: Numbers,
)
    ensures
        ({
            let brought = param.brought(tensor);
            let mapped = match param.param_mapper.load {
                Some(map) => map.mapped(brought),
                None => brought,
            };
            let loaded = param.loaded(tensor, param_id);
            &&& tensor.device_spec() == param.lazy_device_spec() ==> brought == tensor
            &&& brought.device_spec() == param.lazy_device_spec()
            &&& brought.elements(numbers) == tensor.elements(numbers)
            &&& brought.dims_spec() == tensor.dims_spec()
            &&& loaded.id == param_id
            &&& loaded.param_mapper == param.param_mapper
            &&& loaded.lora_transform is None
            &&& !loaded.require_grad
            &&& loaded.state == ParamState::Initialized(mapped)
            &&& param.can_load(tensor) <==> {
                &&& tensor.runs()
                &&& tensor.device_spec().autodiff == param.lazy_device_spec().autodiff
                &&& param.param_mapper.load matches Some(map) ==> map.accepts(brought)
            }
        }),
{
}

/// What loading makes of a parameter of truth values: the identity that was
/// given, the mapper that it had, and what the function for loading gives for the
/// tensor on the parameter's device.
pub proof fn loading_maps_truth_values<C>(
    param: Param<Tensor<Bool>, C>,
    tensor: Tensor<Bool>,
    param_id: ParamId,
    numbers: Numbers,
)
    ensures
        ({
            let brought = param.brought(tensor);
            let mapped = match param.param_mapper.load {
                Some(map) => map.mapped(brought),
                None => brought,
            };
            let loaded = param.loaded(tensor, param_id);
            &&& tensor.device_spec() == param.lazy_device_spec() ==> brought == tensor
            &&& brought.device_spec() == param.lazy_device_spec()
            &&& brought.elements(numbers) == tensor.elements(numbers)
            &&& brought.dims_spec() == tensor.dims_spec()
            &&& loaded.id == param_id
            &&& loaded.param_mapper == param.param_mapper
            &&& loaded.lora_transform is None
            &&& !loaded.require_grad
            &&& loaded.state == ParamState::Initialized(mapped)
            &&& param.can_load(tensor) <==> {
                &&& tensor.runs()
                &&& tensor.device_spec().autodiff == param.lazy_device_spec().autodiff
                &&& param.param_mapper.load matches Some(map) ==> map.accepts(brought)
            }
        }),
{
}

/// A fork has the elements and dimensions of the tensor on the other device. It
/// is a leaf if the tensor was one, and untracked otherwise.
pub proof fn forks_are_cut_off_copies<C>(
    tensor: Tensor<Float>,
    device: Device,
    numbers: Numbers,
)
    requires
        tensor.runs(),
        device.autodiff == tensor.device_spec().autodiff,
    ensures
        ({
            let forked = Param::<Tensor<Float>, C>::forked_value(tensor, device);
            &&& forked.runs()
            &&& forked.device_spec() == device
            &&& forked.dims_spec() == tensor.dims_spec()
            &&& forked.elements(numbers) == tensor.elements(numbers)
            &&& forked.node.requirement_spec() == if tensor.node.requirement_spec()
                == Requirement::Leaf {
                Requirement::Leaf
            } else {
                Requirement::Untracked
            }
        }),
{
    let moved = tensor.to_device_spec(device);
    moving_changes_the_device(tensor, device, numbers);
    detaching_cuts_off(moved, numbers);
    gradients_are_wanted_as_set(moved.detach_spec(), true, numbers);
    if !tensor.device_spec().autodiff {
        crate::tensor::untracked_without_autodiff(&*tensor.node);
    }
}

/// A parameter on the backend without autodiff holds its value, adaptation
/// included, with the same elements and untracked. It keeps its identity and what
/// it says of its gradient, and has nothing attached.
pub proof fn validation_holds_the_inner_value<C: LoraTransform<Tensor<Float>, C>>(
    param: Param<Tensor<Float>, C>,
    numbers: Numbers,
)
    requires
        param.effective().runs(),
        param.effective().device_spec().autodiff,
    ensures
        ({
            let inner = param.validated();
            &&& inner.id == param.id
            &&& inner.require_grad == param.require_grad
            &&& inner.lora_transform is None
            &&& inner.param_mapper.load is None && inner.param_mapper.save is None
            &&& inner.state matches ParamState::Initialized(value)
            &&& value.runs()
            &&& !value.grad_of()
            &&& !value.device_spec().autodiff
            &&& value.device_spec().type_id == param.effective().device_spec().type_id
            &&& value.device_spec().index_id == param.effective().device_spec().index_id
            &&& value.dims_spec() == param.effective().dims_spec()
            &&& value.elements(numbers) == param.effective().elements(numbers)
        }),
{
    changing_the_backend_keeps_the_value(param.effective(), numbers);
    gradients_are_wanted_as_set(param.effective().inner_spec(), false, numbers);
}

/// A parameter that is converted to the autodiff backend holds its value, with
/// the same elements, as a leaf if and only if it says that a gradient is wanted.
/// It keeps its identity and has nothing attached.
pub proof fn training_holds_the_value_as_said<C: LoraTransform<Tensor<Float>, C>>(
    module: Param<Tensor<Float>, C>,
    numbers: Numbers,
)
    requires
        module.effective().runs(),
        !module.effective().device_spec().autodiff,
    ensures
        ({
            let outer = Param::trained(module);
            &&& outer.id == module.id
            &&& outer.require_grad == module.require_grad
            &&& outer.lora_transform is None
            &&& outer.param_mapper.load is None && outer.param_mapper.save is None
            &&& outer.state matches ParamState::Initialized(value)
            &&& value.runs()
            &&& value.grad_of() == module.require_grad
            &&& value.device_spec().autodiff
            &&& value.device_spec().type_id == module.effective().device_spec().type_id
            &&& value.device_spec().index_id == module.effective().device_spec().index_id
            &&& value.dims_spec() == module.effective().dims_spec()
            &&& value.elements(numbers) == module.effective().elements(numbers)
        }),
{
    changing_the_backend_keeps_the_value(module.effective(), numbers);
    gradients_are_wanted_as_set(
        Tensor::from_inner_spec(module.effective()),
        module.require_grad,
        numbers,
    );
}

} // verus!
