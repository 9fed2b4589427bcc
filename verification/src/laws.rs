//! What holds of parameters and modules over several operations. Where elements
//! are compared, they are those of exact arithmetic, as [`crate::semantics`] has
//! them.

pub mod modules;
pub mod params;
pub mod tensors;
pub mod text;

use std::sync::Arc;

use burn_tensor::Scalar;
use vstd::prelude::*;

use crate::lora::{
    depth_after, frozen_events, injected, injected_at, lora_scope, merged_event, merged_events,
    path_after, targeted, LoraConfig,
};
use crate::module::{bare, factors, lora_mapped, trace, ModuleEvent, ModuleMapper};
use crate::param::base::{Param, ParamId, ParamState, Parameter};
use crate::param::lora::{delta_added, delta_fits, LoraState, LoraTransform, Transform};
use crate::param::tensor::with_device;
use crate::semantics::{
    alike, draws_uniformly, elements, factor_value, grad_keeps_elements, ignores_tracking,
    in_bounds, operand_index, sum, sum_of_zeros, Numbers,
};
use crate::tensor::{Bool, Device, Factor, Float, Int, Node, Requirement, Tensor};
use crate::text::texts;

verus! {

/// The adapted value is, element by element, the base plus the scaled product of
/// the factors, and it has the size of the base.
pub proof fn delta_is_the_scaled_product(
    base: Tensor<Float>,
    lora_a: Tensor<Float>,
    lora_b: Tensor<Float>,
    scaling: Factor,
    numbers: Numbers,
    index: Seq<int>,
)
    requires
        delta_fits(base, lora_a, lora_b),
        base.dims_spec() == seq![lora_a.dims_spec()[0], lora_b.dims_spec()[1]],
        in_bounds(base.dims_spec(), index),
    ensures
        delta_added(base, lora_a, lora_b, scaling).dims_spec() == base.dims_spec(),
        delta_added(base, lora_a, lora_b, scaling).elements(numbers)(index) == base.elements(
            numbers,
        )(index) + factor_value(scaling, numbers) * sum(
            |k: int|
                lora_a.elements(numbers)(seq![index[0], k]) * lora_b.elements(numbers)(
                    seq![k, index[1]],
                ),
            lora_a.dims_spec()[1] as int,
        ),
{
    let product = lora_a.matmul_spec(lora_b);
    let delta = product.mul_scalar_spec(scaling);
    let out = base.plus_spec(delta);
    reveal_with_fuel(Node::dims, 4);
    reveal_with_fuel(elements, 4);
    assert(product.dims_spec() == base.dims_spec());
    assert(delta.dims_spec() == base.dims_spec());
    assert(out.dims_spec() == base.dims_spec());
    assert(operand_index(base.dims_spec(), index) == index);
    assert(operand_index(delta.dims_spec(), index) == index);
    let total = sum(
        |k: int|
            lora_a.elements(numbers)(seq![index[0], k]) * lora_b.elements(numbers)(
                seq![k, index[1]],
            ),
        lora_a.dims_spec()[1] as int,
    );
    assert(product.elements(numbers)(index) == total);
    assert(delta.elements(numbers)(index) == total * factor_value(scaling, numbers));
    assert(total * factor_value(scaling, numbers) == factor_value(scaling, numbers) * total)
        by (nonlinear_arith);
}

/// Attaching a transform leaves the parameter's own value, its identity and its
/// wish for a gradient as they are.
pub proof fn adapting_keeps_the_original<C>(
    param: Param<Tensor<Float>, C>,
    transform: Arc<Transform<Tensor<Float>, C>>,
)
    ensures
        param.adapted_by(transform).original() == param.original(),
        param.adapted_by(transform).readable() == param.readable(),
        param.adapted_by(transform).id == param.id,
        param.adapted_by(transform).require_grad == param.require_grad,
        param.adapted_by(transform).lora_transform is Some,
{
}

/// The factors of a new adaptation: their sizes, that they can be evaluated and
/// live on `device`, that their gradients are wanted where there are gradients,
/// and that the second is zero.
proof fn drawn_factors<C: LoraTransform<Tensor<Float>, C>>(
    key: u64,
    id_a: ParamId,
    id_b: ParamId,
    rank: usize,
    alpha: Scalar,
    in_features: usize,
    out_features: usize,
    device: Device,
    numbers: Numbers,
)
    ensures
        ({
            let state = LoraState::<Tensor<Float>, C>::drawn(
                key,
                id_a,
                id_b,
                rank,
                alpha,
                in_features,
                out_features,
                device,
            );
            let lora_a = state.lora_a.effective();
            let lora_b = state.lora_b.effective();
            &&& state.lora_a.adaptable()
            &&& state.lora_b.adaptable()
            &&& lora_a.dims_spec() == seq![in_features, rank]
            &&& lora_b.dims_spec() == seq![rank, out_features]
            &&& lora_a.device_spec() == device
            &&& lora_b.device_spec() == device
            &&& state.lora_a.original().grad_of() == device.autodiff
            &&& state.lora_b.original().grad_of() == device.autodiff
            &&& forall|index: Seq<int>| #[trigger] lora_b.elements(numbers)(index) == 0real
        }),
{
    reveal_with_fuel(Node::dims, 3);
    reveal_with_fuel(Node::device_spec, 3);
    reveal_with_fuel(Node::requirement_spec, 3);
    reveal_with_fuel(Node::wf, 3);
    reveal_with_fuel(elements, 3);
    let noise = Tensor::uniform_spec(key, in_features, rank, device).mul_scalar_spec(
        Factor::InverseSqrt(in_features),
    );
    let zeros = Tensor::zeros_spec(rank, out_features, device);
    assert(noise.runs() && zeros.runs());
    assert(noise.with_grad(true).runs());
    assert(zeros.with_grad(true).runs());
    grad_keeps_elements(noise, true, numbers);
    grad_keeps_elements(zeros, true, numbers);
    assert forall|index: Seq<int>| #[trigger]
        zeros.with_grad(true).elements(numbers)(index) == 0real by {
        assert(zeros.elements(numbers)(index) == 0real);
    }
}

/// The first factor of a new adaptation is drawn as Kaiming has it: its elements
/// are at most the square root of `1 / in_features` in size, so that the square
/// of each is at most `1 / in_features`.
pub proof fn new_factor_is_bounded<C: LoraTransform<Tensor<Float>, C>>(
    key: u64,
    id_a: ParamId,
    id_b: ParamId,
    rank: usize,
    alpha: Scalar,
    in_features: usize,
    out_features: usize,
    device: Device,
    numbers: Numbers,
    index: Seq<int>,
)
    requires
        in_features > 0,
        draws_uniformly(numbers),
    ensures
        ({
            let state = LoraState::<Tensor<Float>, C>::drawn(
                key,
                id_a,
                id_b,
                rank,
                alpha,
                in_features,
                out_features,
                device,
            );
            let element = state.lora_a.effective().elements(numbers)(index);
            let bound = (numbers.inverse_sqrt)(in_features);
            &&& -bound <= element <= bound
            &&& element * element * (in_features as int as real) <= 1real
        }),
{
    reveal_with_fuel(elements, 3);
    let drawn = Tensor::<Float>::uniform_spec(key, in_features, rank, device);
    let noise = drawn.mul_scalar_spec(Factor::InverseSqrt(in_features));
    grad_keeps_elements(noise, true, numbers);
    let value = drawn.elements(numbers)(index);
    let bound = (numbers.inverse_sqrt)(in_features);
    let count = in_features as int as real;
    assert(value == (numbers.source)(*drawn.node, index));
    let element = noise.elements(numbers)(index);
    assert(element == value * bound);
    assert(-bound <= value * bound <= bound) by (nonlinear_arith)
        requires
            -1real <= value <= 1real,
            bound >= 0real,
    ;
    assert(element * element <= bound * bound) by (nonlinear_arith)
        requires
            -bound <= element <= bound,
    ;
    assert(element * element * count <= bound * bound * count) by (nonlinear_arith)
        requires
            element * element <= bound * bound,
            count >= 0real,
    ;
}

/// A matrix with a new adaptation on its own device has a value.
pub proof fn new_adaptation_has_a_value<C: LoraTransform<Tensor<Float>, C>>(
    param: Param<Tensor<Float>, C>,
    rank: usize,
    alpha: Scalar,
    out: Param<Tensor<Float>, C>,
)
    requires
        param.readable(),
        param.original().runs(),
        param.lazy_dims().len() == 2,
        param.original().dims_spec() == param.lazy_dims(),
        Param::newly_adapted(param, rank, alpha, param.original().device_spec(), out),
    ensures
        out.adaptable(),
        out.effective().dims_spec() == param.original().dims_spec(),
        out.effective().device_spec() == param.original().device_spec(),
{
    let numbers = arbitrary::<Numbers>();
    let device = param.original().device_spec();
    let dims = param.lazy_dims();
    let (key, id_a, id_b) = choose|key: u64, id_a: ParamId, id_b: ParamId|
        out == param.adapted_by(
            Arc::new(
                Transform::Lora(
                    #[trigger] LoraState::drawn(
                        key,
                        id_a,
                        id_b,
                        rank,
                        alpha,
                        dims[0],
                        dims[1],
                        device,
                    ),
                ),
            ),
        );
    drawn_factors::<C>(key, id_a, id_b, rank, alpha, dims[0], dims[1], device, numbers);
    let state = LoraState::<Tensor<Float>, C>::drawn(
        key,
        id_a,
        id_b,
        rank,
        alpha,
        dims[0],
        dims[1],
        device,
    );
    let lora_a = state.lora_a.effective();
    let lora_b = state.lora_b.effective();
    assert(delta_fits(param.original(), lora_a, lora_b));
    reveal_with_fuel(Node::dims, 4);
    reveal_with_fuel(Node::device_spec, 4);
    reveal_with_fuel(Node::wf, 4);
    assert(seq![dims[0], dims[1]] == dims);
    assert(out.effective() == delta_added(param.original(), lora_a, lora_b, state.scaling));
    assert(out.effective().dims_spec() == dims);
}

/// Adapting a matrix does not change its value at first, because the second
/// factor starts at zero. A rank of 0 is left out: nothing can be scaled by
/// `alpha / 0`.
pub proof fn new_adaptation_keeps_the_value<C: LoraTransform<Tensor<Float>, C>>(
    param: Param<Tensor<Float>, C>,
    rank: usize,
    alpha: Scalar,
    out: Param<Tensor<Float>, C>,
    numbers: Numbers,
    index: Seq<int>,
)
    requires
        rank > 0,
        param.readable(),
        param.original().runs(),
        param.lazy_dims().len() == 2,
        param.original().dims_spec() == param.lazy_dims(),
        Param::newly_adapted(param, rank, alpha, param.original().device_spec(), out),
        in_bounds(param.original().dims_spec(), index),
    ensures
        out.effective().elements(numbers)(index) == param.original().elements(numbers)(index),
{
    let device = param.original().device_spec();
    let dims = param.lazy_dims();
    let (key, id_a, id_b) = choose|key: u64, id_a: ParamId, id_b: ParamId|
        out == param.adapted_by(
            Arc::new(
                Transform::Lora(
                    #[trigger] LoraState::drawn(
                        key,
                        id_a,
                        id_b,
                        rank,
                        alpha,
                        dims[0],
                        dims[1],
                        device,
                    ),
                ),
            ),
        );
    drawn_factors::<C>(key, id_a, id_b, rank, alpha, dims[0], dims[1], device, numbers);
    let state = LoraState::<Tensor<Float>, C>::drawn(
        key,
        id_a,
        id_b,
        rank,
        alpha,
        dims[0],
        dims[1],
        device,
    );
    let lora_a = state.lora_a.effective();
    let lora_b = state.lora_b.effective();
    assert(seq![dims[0], dims[1]] == dims);
    assert(delta_fits(param.original(), lora_a, lora_b));
    assert(out.effective() == delta_added(param.original(), lora_a, lora_b, state.scaling));
    delta_is_the_scaled_product(
        param.original(),
        lora_a,
        lora_b,
        state.scaling,
        numbers,
        index,
    );
    let terms = |k: int|
        lora_a.elements(numbers)(seq![index[0], k]) * lora_b.elements(numbers)(
            seq![k, index[1]],
        );
    assert forall|k: int| 0 <= k < rank implies #[trigger] terms(k) == 0real by {
        let left = lora_a.elements(numbers)(seq![index[0], k]);
        assert(left * 0real == 0real) by (nonlinear_arith);
    }
    sum_of_zeros(terms, rank as int);
    let scale = factor_value(state.scaling, numbers);
    assert(scale * 0real == 0real) by (nonlinear_arith);
}

/// Merging keeps the value, the identity and the mapper of a parameter, and
/// leaves nothing that adapts it. Merging again changes nothing, nor does
/// merging a parameter that nothing adapts.
pub proof fn merging_keeps_the_value<C: LoraTransform<Tensor<Float>, C>>(
    param: Param<Tensor<Float>, C>,
)
    ensures
        param.merged().effective() == param.effective(),
        param.merged().lora_transform is None,
        param.merged().id == param.id,
        param.merged().param_mapper == param.param_mapper,
        param.merged().merged() == param.merged(),
        param.lora_transform is None ==> param.merged() == param,
{
}

/// In a merged module, every parameter has the value it had before and nothing
/// adapts it. A visitor meets the parameters alone, without factors.
pub proof fn merging_a_module_keeps_the_values<C: LoraTransform<Tensor<Float>, C>>(
    events: Seq<ModuleEvent<C>>,
)
    ensures
        merged_events(events).len() == events.len(),
        forall|i: int|
            #![trigger merged_events(events)[i]]
            0 <= i < events.len() ==> match events[i] {
                ModuleEvent::Float(param) => {
                    &&& merged_events(events)[i] matches ModuleEvent::Float(new)
                    &&& new.lora_transform is None
                    &&& new.effective() == param.effective()
                    &&& new.id == param.id
                },
                event => merged_events(events)[i] == event,
            },
        trace(merged_events(events)) == merged_events(events),
    decreases events.len(),
{
    let merged = merged_events(events);
    if events.len() > 0 {
        let rest = events.drop_last();
        merging_a_module_keeps_the_values(rest);
        assert(merged.drop_last() == merged_events(rest));
        assert(merged.last() == merged_event(events.last()));
        assert(trace(merged) == merged_events(rest) + seq![merged.last()]);
        assert(merged_events(rest) + seq![merged.last()] == merged);
    } else {
        assert(trace(merged) == merged);
    }
}

/// A visitor meets the exposed factors of every adapted parameter of a module,
/// between the beginning and the end of a part named `lora`, right after the
/// parameter.
pub proof fn factors_are_visited<C: LoraTransform<Tensor<Float>, C>>(
    events: Seq<ModuleEvent<C>>,
    i: int,
)
    requires
        0 <= i < events.len(),
    ensures
        events[i] matches ModuleEvent::Float(param) ==> (factors(param) matches Some((lora_a, lora_b))
            ==> {
            let start = trace(events.take(i)).len() as int;
            let met = trace(events);
            &&& start + 5 <= met.len()
            &&& met[start] == ModuleEvent::Float(param)
            &&& met[start + 1] == ModuleEvent::<C>::Enter {
                name: "lora"@,
                container_type: "Struct:LoraState"@,
            }
            &&& met[start + 2] == ModuleEvent::Float(lora_a)
            &&& met[start + 3] == ModuleEvent::Float(lora_b)
            &&& met[start + 4] == ModuleEvent::<C>::Exit {
                name: "lora"@,
                container_type: "Struct:LoraState"@,
            }
        }),
{
    let before = events.take(i);
    let upto = events.take(i + 1);
    let after = events.skip(i + 1);
    assert(upto.drop_last() == before);
    assert(upto.last() == events[i]);
    assert(events == upto + after);
    crate::module::trace_append(upto, after);
}

/// A visitor meets more than a mapper exactly where factors are exposed, so
/// merging a module with exposed factors leaves fewer parameters to visit.
pub proof fn merging_leaves_fewer_to_visit<C: LoraTransform<Tensor<Float>, C>>(
    events: Seq<ModuleEvent<C>>,
)
    ensures
        trace(merged_events(events)).len() <= trace(events).len(),
        (exists|i: int|
            0 <= i < events.len() && (#[trigger] events[i] matches ModuleEvent::Float(param)
                && factors(param) is Some)) <==> trace(merged_events(events)).len() < trace(
            events,
        ).len(),
    decreases events.len(),
{
    merging_a_module_keeps_the_values(events);
    if events.len() > 0 {
        let rest = events.drop_last();
        merging_leaves_fewer_to_visit(rest);
        merging_a_module_keeps_the_values(rest);
        if exists|i: int|
            0 <= i < events.len() && (#[trigger] events[i] matches ModuleEvent::Float(param)
                && factors(param) is Some) {
            let i = choose|i: int|
                0 <= i < events.len() && (#[trigger] events[i] matches ModuleEvent::Float(param)
                    && factors(param) is Some);
            if i < events.len() - 1 {
                assert(rest[i] == events[i]);
            }
        }
        if exists|i: int|
            0 <= i < rest.len() && (#[trigger] rest[i] matches ModuleEvent::Float(param)
                && factors(param) is Some) {
            let i = choose|i: int|
                0 <= i < rest.len() && (#[trigger] rest[i] matches ModuleEvent::Float(param)
                    && factors(param) is Some);
            assert(events[i] == rest[i]);
        }
        assert(events[events.len() - 1] == events.last());
    }
}

/// Adapting a module keeps the own value, the identity and the wish for a
/// gradient of every parameter.
pub proof fn injection_keeps_the_originals<C>(
    config: LoraConfig,
    device: Device,
    events: Seq<ModuleEvent<C>>,
    outs: Seq<ModuleEvent<C>>,
)
    requires
        injected(config, device, events, outs),
    ensures
        outs.len() == events.len(),
        forall|i: int|
            #![trigger outs[i]]
            0 <= i < events.len() ==> match events[i] {
                ModuleEvent::Float(param) => {
                    &&& outs[i] matches ModuleEvent::Float(new)
                    &&& new.original() == param.original()
                    &&& new.id == param.id
                    &&& new.require_grad == param.require_grad
                },
                event => outs[i] == event,
            },
{
    assert forall|i: int|
        #![trigger outs[i]]
        0 <= i < events.len() implies match events[i] {
        ModuleEvent::Float(param) => {
            &&& outs[i] matches ModuleEvent::Float(new)
            &&& new.original() == param.original()
            &&& new.id == param.id
            &&& new.require_grad == param.require_grad
        },
        event => outs[i] == event,
    } by {
        assert(injected_at(config, device, path_after(events.take(i)), events[i], outs[i]));
    }
}

/// Adapting a module attaches an adaptation to exactly the matrices whose path is
/// targeted. Without patterns these are all matrices.
pub proof fn injection_adapts_the_targets<C>(
    config: LoraConfig,
    device: Device,
    events: Seq<ModuleEvent<C>>,
    outs: Seq<ModuleEvent<C>>,
)
    requires
        injected(config, device, events, outs),
    ensures
        forall|i: int|
            #![trigger outs[i]]
            0 <= i < events.len() ==> (events[i] matches ModuleEvent::Float(param) ==> {
                let chosen = param.lazy_dims().len() == 2 && (config.target_modules@.len() == 0
                    || targeted(texts(config.target_modules@), path_after(events.take(i))));
                &&& outs[i] matches ModuleEvent::Float(new)
                &&& chosen ==> (new.lora_transform matches Some(transform) && *transform is Lora)
                &&& !chosen ==> new == param
            }),
{
    assert forall|i: int|
        #![trigger outs[i]]
        0 <= i < events.len() implies (events[i] matches ModuleEvent::Float(param) ==> {
        let chosen = param.lazy_dims().len() == 2 && (config.target_modules@.len() == 0
            || targeted(texts(config.target_modules@), path_after(events.take(i))));
        &&& outs[i] matches ModuleEvent::Float(new)
        &&& chosen ==> (new.lora_transform matches Some(transform) && *transform is Lora)
        &&& !chosen ==> new == param
    }) by {
        assert(injected_at(config, device, path_after(events.take(i)), events[i], outs[i]));
    }
}

/// Adapting a module that nothing adapts, with factors on the device of its
/// matrices, does not change the value of any parameter at first. A rank of 0 is
/// left out, as for one parameter.
pub proof fn injection_keeps_the_values<C: LoraTransform<Tensor<Float>, C>>(
    config: LoraConfig,
    device: Device,
    events: Seq<ModuleEvent<C>>,
    outs: Seq<ModuleEvent<C>>,
    numbers: Numbers,
    i: int,
    index: Seq<int>,
)
    requires
        config.rank > 0,
        injected(config, device, events, outs),
        0 <= i < events.len(),
        events[i] matches ModuleEvent::Float(param) ==> {
            &&& param.lora_transform is None
            &&& param.readable()
            &&& param.original().runs()
            &&& param.original().dims_spec() == param.lazy_dims()
            &&& param.original().device_spec() == device
            &&& in_bounds(param.original().dims_spec(), index)
        },
    ensures
        events[i] matches ModuleEvent::Float(param) ==> {
            &&& outs[i] matches ModuleEvent::Float(new)
            &&& new.adaptable()
            &&& new.effective().dims_spec() == param.effective().dims_spec()
            &&& new.effective().elements(numbers)(index) == param.effective().elements(numbers)(
                index,
            )
        },
        !(events[i] is Float) ==> outs[i] == events[i],
{
    assert(injected_at(config, device, path_after(events.take(i)), events[i], outs[i]));
    if let ModuleEvent::Float(param) = events[i] {
        if let ModuleEvent::Float(new) = outs[i] {
            if param.lazy_dims().len() == 2 && targeted(
                texts(config.target_modules@),
                path_after(events.take(i)),
            ) {
                new_adaptation_has_a_value(param, config.rank, config.alpha, new);
                new_adaptation_keeps_the_value(
                    param,
                    config.rank,
                    config.alpha,
                    new,
                    numbers,
                    index,
                );
            }
        }
    }
}

/// If no path of a module is targeted, adapting it changes nothing.
pub proof fn injection_without_targets_changes_nothing<C>(
    config: LoraConfig,
    device: Device,
    events: Seq<ModuleEvent<C>>,
    outs: Seq<ModuleEvent<C>>,
)
    requires
        injected(config, device, events, outs),
        forall|i: int|
            0 <= i < events.len() ==> !targeted(
                texts(config.target_modules@),
                #[trigger] path_after(events.take(i)),
            ),
    ensures
        outs == events,
{
    assert forall|i: int| 0 <= i < events.len() implies outs[i] == #[trigger] events[i] by {
        assert(injected_at(config, device, path_after(events.take(i)), events[i], outs[i]));
    }
}

/// A parameter whose gradient is given up has none, and what adapts it stays: its
/// factors keep their gradients.
pub proof fn freezing_a_parameter_keeps_its_factors<C: LoraTransform<Tensor<Float>, C>>(
    param: Param<Tensor<Float>, C>,
)
    requires
        param.original().runs(),
        param.can_set_require_grad(false),
    ensures
        !param.with_require_grad(false).require_grad,
        !param.with_require_grad(false).original().grad_of(),
        param.with_require_grad(false).id == param.id,
        param.with_require_grad(false).lora_transform == param.lora_transform,
        factors(param.with_require_grad(false)) == factors(param),
{
    let value = match param.state {
        ParamState::Initialized(value) => value,
        ParamState::Uninitialized(lazy) => lazy.init,
    };
    if !value.device_spec().autodiff {
        assert(param.original() == value);
        crate::tensor::untracked_without_autodiff(&*value.node);
    }
}

/// Freezing a module gives up the gradients of the parameters outside
/// adaptations, and leaves those inside as they are.
pub proof fn freezing_gives_up_base_gradients<C: LoraTransform<Tensor<Float>, C>>(
    events: Seq<ModuleEvent<C>>,
    i: int,
)
    requires
        0 <= i < events.len(),
        events[i] matches ModuleEvent::Float(param) ==> param.original().runs()
            && param.can_set_require_grad(false),
    ensures
        frozen_events(events).len() == events.len(),
        events[i] matches ModuleEvent::Float(param) ==> {
            &&& frozen_events(events)[i] matches ModuleEvent::Float(new)
            &&& if depth_after(events.take(i)) > 0 {
                new == param
            } else {
                &&& !new.require_grad
                &&& !new.original().grad_of()
                &&& new.lora_transform == param.lora_transform
            }
        },
        !(events[i] is Float) ==> frozen_events(events)[i] == events[i],
{
    if let ModuleEvent::Float(param) = events[i] {
        freezing_a_parameter_keeps_its_factors(param);
    }
}

/// A module that is adapted and then frozen trains the factors of its
/// adaptations and nothing else: the own gradient of a targeted matrix is given
/// up, and the gradients of its factors are wanted, where there are gradients.
pub proof fn fine_tuning_trains_the_factors<C: LoraTransform<Tensor<Float>, C>>(
    config: LoraConfig,
    device: Device,
    events: Seq<ModuleEvent<C>>,
    outs: Seq<ModuleEvent<C>>,
    i: int,
)
    requires
        injected(config, device, events, outs),
        0 <= i < events.len(),
        targeted(texts(config.target_modules@), path_after(events.take(i))),
        depth_after(outs.take(i)) == 0,
        events[i] matches ModuleEvent::Float(param) ==> {
            &&& param.lazy_dims().len() == 2
            &&& param.original().runs()
            &&& param.can_set_require_grad(false)
        },
    ensures
        events[i] is Float ==> {
            &&& frozen_events(outs)[i] matches ModuleEvent::Float(new)
            &&& !new.require_grad
            &&& !new.original().grad_of()
            &&& factors(new) matches Some((lora_a, lora_b))
            &&& lora_a.require_grad == device.autodiff
            &&& lora_a.original().grad_of() == device.autodiff
            &&& lora_b.require_grad == device.autodiff
            &&& lora_b.original().grad_of() == device.autodiff
        },
{
    assert(injected_at(config, device, path_after(events.take(i)), events[i], outs[i]));
    if let ModuleEvent::Float(param) = events[i] {
        let new = outs[i]->Float_0;
        let dims = param.lazy_dims();
        let (key, id_a, id_b) = choose|key: u64, id_a: ParamId, id_b: ParamId|
            new == param.adapted_by(
                Arc::new(
                    Transform::Lora(
                        #[trigger] LoraState::drawn(
                            key,
                            id_a,
                            id_b,
                            config.rank,
                            config.alpha,
                            dims[0],
                            dims[1],
                            device,
                        ),
                    ),
                ),
            );
        drawn_factors::<C>(
            key,
            id_a,
            id_b,
            config.rank,
            config.alpha,
            dims[0],
            dims[1],
            device,
            arbitrary(),
        );
        freezing_a_parameter_keeps_its_factors(new);
    }
}

/// Whether what adapts `param` gives the same elements for values that are alike.
/// Low-rank adaptations do; a transform of the library's user may not.
pub open spec fn adapts_alike<C: LoraTransform<Tensor<Float>, C>>(
    param: Param<Tensor<Float>, C>,
    numbers: Numbers,
) -> bool {
    param.lora_transform matches Some(transform) ==> (*transform matches Transform::Custom(custom)
        ==> ignores_tracking(custom, numbers))
}

/// Giving up the gradient of a parameter does not change its value.
pub proof fn freezing_keeps_the_value<C: LoraTransform<Tensor<Float>, C>>(
    param: Param<Tensor<Float>, C>,
    require_grad: bool,
    numbers: Numbers,
)
    requires
        adapts_alike(param, numbers),
    ensures
        alike(param.with_require_grad(require_grad).original(), param.original(), numbers),
        param.with_require_grad(require_grad).effective().elements(numbers)
            == param.effective().elements(numbers),
{
    let new = param.with_require_grad(require_grad);
    match param.state {
        ParamState::Initialized(value) => grad_keeps_elements(value, require_grad, numbers),
        ParamState::Uninitialized(lazy) => {
            grad_keeps_elements(lazy.init, require_grad, numbers);
            grad_keeps_elements(lazy.init, lazy.is_require_grad, numbers);
        },
    }
    assert(alike(new.original(), param.original(), numbers));
    if let Some(transform) = param.lora_transform {
        match *transform {
            Transform::Lora(state) => {
                reveal_with_fuel(elements, 2);
                assert(new.effective().elements(numbers) =~= param.effective().elements(numbers));
            },
            Transform::Custom(custom) => {
                assert(new.effective() == custom.applied(new.original()));
                assert(param.effective() == custom.applied(param.original()));
            },
        }
    }
}

/// A parameter that has a value has one after its gradient is given up, if what
/// the library's user adapts it by can still be applied.
pub proof fn freezing_leaves_a_value<C: LoraTransform<Tensor<Float>, C>>(
    param: Param<Tensor<Float>, C>,
)
    requires
        param.adaptable(),
        param.original().runs(),
        param.lora_transform matches Some(transform) ==> (*transform matches Transform::Custom(
            custom,
        ) ==> {
            let value = param.with_require_grad(false).original();
            custom.applies(value) && custom.applied(value).runs()
        }),
    ensures
        param.can_set_require_grad(false),
        param.with_require_grad(false).adaptable(),
{
    let new = param.with_require_grad(false);
    let numbers = arbitrary::<Numbers>();
    match param.state {
        ParamState::Initialized(value) => grad_keeps_elements(value, false, numbers),
        ParamState::Uninitialized(lazy) => {
            grad_keeps_elements(lazy.init, false, numbers);
            grad_keeps_elements(lazy.init, lazy.is_require_grad, numbers);
        },
    }
    assert(new.original().runs());
    if let Some(transform) = param.lora_transform {
        if let Transform::Lora(state) = *transform {
            let lora_a = state.lora_a.effective();
            let lora_b = state.lora_b.effective();
            assert(delta_fits(new.original(), lora_a, lora_b));
            reveal_with_fuel(Node::dims, 3);
            reveal_with_fuel(Node::device_spec, 3);
            reveal_with_fuel(Node::wf, 3);
            assert(delta_added(new.original(), lora_a, lora_b, state.scaling).runs());
        }
    }
}

/// Freezing a module does not change the value of a parameter.
pub proof fn freezing_a_module_keeps_the_values<C: LoraTransform<Tensor<Float>, C>>(
    events: Seq<ModuleEvent<C>>,
    numbers: Numbers,
    i: int,
)
    requires
        0 <= i < events.len(),
        events[i] matches ModuleEvent::Float(param) ==> adapts_alike(param, numbers),
    ensures
        events[i] matches ModuleEvent::Float(param) ==> {
            &&& frozen_events(events)[i] matches ModuleEvent::Float(new)
            &&& new.lora_transform == param.lora_transform
            &&& new.effective().elements(numbers) == param.effective().elements(numbers)
        },
{
    if let ModuleEvent::Float(param) = events[i] {
        freezing_keeps_the_value(param, false, numbers);
    }
}

/// In a module none of whose own parts passes for an adaptation, nothing is
/// inside one.
proof fn outside_adaptations<C>(events: Seq<ModuleEvent<C>>)
    requires
        forall|k: int|
            0 <= k < events.len() ==> (#[trigger] events[k] matches ModuleEvent::Enter {
                name,
                container_type,
            } ==> !lora_scope(name, container_type)),
    ensures
        depth_after(events) == 0,
    decreases events.len(),
{
    if events.len() > 0 {
        let rest = events.drop_last();
        assert forall|k: int| 0 <= k < rest.len() implies (#[trigger] rest[k] matches
            ModuleEvent::Enter { name, container_type } ==> !lora_scope(name, container_type)) by {
            assert(events[k] == rest[k]);
        }
        outside_adaptations(rest);
        assert(events[events.len() - 1] == events.last());
    }
}

/// After a module was frozen, every parameter has given up its gradient, with or
/// without an adaptation, and the factors of adaptations are as they were: they
/// want their gradients if they did. Values and adaptations are those of before.
pub proof fn freezing_trains_adaptations_only<C: LoraTransform<Tensor<Float>, C>>(
    events: Seq<ModuleEvent<C>>,
    numbers: Numbers,
    i: int,
)
    requires
        forall|k: int|
            0 <= k < events.len() ==> (#[trigger] events[k] matches ModuleEvent::Enter {
                name,
                container_type,
            } ==> !lora_scope(name, container_type)),
        0 <= i < events.len(),
        events[i] matches ModuleEvent::Float(param) ==> {
            &&& param.original().runs()
            &&& param.can_set_require_grad(false)
            &&& adapts_alike(param, numbers)
        },
    ensures
        frozen_events(events).len() == events.len(),
        events[i] matches ModuleEvent::Float(param) ==> {
            &&& frozen_events(events)[i] matches ModuleEvent::Float(new)
            &&& !new.require_grad
            &&& !new.original().grad_of()
            &&& new.id == param.id
            &&& new.lora_transform == param.lora_transform
            &&& factors(new) == factors(param)
            &&& new.original().elements(numbers) == param.original().elements(numbers)
            &&& new.effective().elements(numbers) == param.effective().elements(numbers)
        },
        !(events[i] is Float) ==> frozen_events(events)[i] == events[i],
{
    let before = events.take(i);
    assert forall|k: int| 0 <= k < before.len() implies (#[trigger] before[k] matches
        ModuleEvent::Enter { name, container_type } ==> !lora_scope(name, container_type)) by {
        assert(events[k] == before[k]);
    }
    outside_adaptations(before);
    if let ModuleEvent::Float(param) = events[i] {
        freezing_a_parameter_keeps_its_factors(param);
        freezing_keeps_the_value(param, false, numbers);
    }
}

/// Freezing does not move the beginnings and ends of adaptations.
proof fn freezing_keeps_the_depth<C>(events: Seq<ModuleEvent<C>>, count: int)
    requires
        0 <= count <= events.len(),
    ensures
        depth_after(frozen_events(events).take(count)) == depth_after(events.take(count)),
    decreases count,
{
    if count > 0 {
        freezing_keeps_the_depth(events, count - 1);
        let frozen = frozen_events(events);
        assert(events.take(count).drop_last() == events.take(count - 1));
        assert(frozen.take(count).drop_last() == frozen.take(count - 1));
        assert(events.take(count).last() == events[count - 1]);
        assert(frozen.take(count).last() == frozen[count - 1]);
    }
}

/// Freezing a frozen module changes nothing more: every parameter keeps its
/// identity, its value, what it says of its gradient, its mapper and what adapts
/// it.
pub proof fn freezing_twice_changes_nothing_more<C: LoraTransform<Tensor<Float>, C>>(
    events: Seq<ModuleEvent<C>>,
    numbers: Numbers,
    i: int,
)
    requires
        0 <= i < events.len(),
        events[i] matches ModuleEvent::Float(param) ==> {
            &&& param.original().runs()
            &&& param.can_set_require_grad(false)
            &&& adapts_alike(param, numbers)
        },
    ensures
        frozen_events(frozen_events(events)).len() == events.len(),
        frozen_events(events)[i] matches ModuleEvent::Float(once) ==> {
            &&& frozen_events(frozen_events(events))[i] matches ModuleEvent::Float(twice)
            &&& twice.id == once.id
            &&& twice.param_mapper == once.param_mapper
            &&& twice.require_grad == once.require_grad
            &&& twice.original().grad_of() == once.original().grad_of()
            &&& twice.lora_transform == once.lora_transform
            &&& alike(twice.original(), once.original(), numbers)
            &&& twice.effective().elements(numbers) == once.effective().elements(numbers)
        },
        !(events[i] is Float) ==> frozen_events(frozen_events(events))[i] == frozen_events(
            events,
        )[i],
{
    let frozen = frozen_events(events);
    freezing_keeps_the_depth(events, i);
    if let ModuleEvent::Float(param) = events[i] {
        if depth_after(events.take(i)) <= 0 {
            let once = param.with_require_grad(false);
            assert(frozen[i] == ModuleEvent::Float(once));
            match param.state {
                ParamState::Initialized(value) => grad_keeps_elements(value, false, numbers),
                ParamState::Uninitialized(lazy) => {
                    grad_keeps_elements(lazy.init, false, numbers);
                    grad_keeps_elements(lazy.init, lazy.is_require_grad, numbers);
                },
            }
            freezing_a_parameter_keeps_its_factors(param);
            freezing_a_parameter_keeps_its_factors(once);
            freezing_keeps_the_value(once, false, numbers);
        } else {
            assert(frozen[i] == events[i]);
        }
    }
}

/// A mapper that replaces factors one by one is handed the bare matrix, without
/// a wish for a gradient, and then both factors. What it gives is put together
/// as an adaptation with the scale that was there, and with the parameter's own
/// mapper for loading and saving.
pub proof fn replacing_factors_keeps_the_scale<
    C: LoraTransform<Tensor<Float>, C>,
    M: ModuleMapper<C>,
>(
    pre: M,
    param: Param<Tensor<Float>, C>,
    post: M,
    out: Param<Tensor<Float>, C>,
    state: LoraState<Tensor<Float>, C>,
)
    requires
        param.lora_transform == Some(Arc::new(Transform::Lora(state))),
        lora_mapped(pre, param, post, out),
    ensures
        !bare(param).require_grad,
        bare(param).lora_transform is None,
        bare(param).id == param.id,
        bare(param).original() == param.original(),
        out.param_mapper == param.param_mapper,
        exists|
            after_base: M,
            after_a: M,
            base: Param<Tensor<Float>, C>,
            new_a: Param<Tensor<Float>, C>,
            new_b: Param<Tensor<Float>, C>,
        |
            {
                &&& #[trigger] M::float_mapped(pre, bare(param), after_base, base)
                &&& #[trigger] M::float_mapped(after_base, state.lora_a, after_a, new_a)
                &&& #[trigger] M::float_mapped(after_a, state.lora_b, post, new_b)
                &&& out.id == base.id
                &&& out.original() == base.effective()
                &&& out.lora_transform == Some(
                    Arc::new(
                        Transform::Lora(
                            LoraState { lora_a: new_a, lora_b: new_b, scaling: state.scaling },
                        ),
                    ),
                )
            },
{
    assert(factors(param) == Some((state.lora_a, state.lora_b)));
}

/// What adapts a parameter is not saved.
pub proof fn saving_discards_the_adaptation<C>(
    param: Param<Tensor<Float>, C>,
    transform: Arc<Transform<Tensor<Float>, C>>,
)
    ensures
        param.adapted_by(transform).saved() == param.saved(),
        param.saved().lora_transform is None,
        param.saved().id == param.id,
{
}

/// What is loaded into a parameter takes over the parameter's wish for a gradient,
/// its mapper and, unless the mapper moves it, its device.
pub proof fn loading_keeps_the_settings<C>(
    param: Param<Tensor<Float>, C>,
    tensor: Tensor<Float>,
    param_id: ParamId,
    numbers: Numbers,
)
    requires
        param.can_load(tensor),
    ensures
        param.loaded(tensor, param_id).id == param_id,
        param.loaded(tensor, param_id).lora_transform is None,
        param.loaded(tensor, param_id).param_mapper == param.param_mapper,
        param.loaded(tensor, param_id).require_grad == (param.lazy_grad_spec()
            && param.param_mapper.loaded(param.brought(tensor)).device_spec().autodiff),
        param.loaded(tensor, param_id).original().grad_of() == param.loaded(
            tensor,
            param_id,
        ).require_grad,
        param.brought(tensor).device_spec() == param.lazy_device_spec(),
        param.brought(tensor).elements(numbers) == tensor.elements(numbers),
        param.param_mapper.load is None ==> {
            &&& param.loaded(tensor, param_id).original().device_spec()
                == param.lazy_device_spec()
            &&& param.loaded(tensor, param_id).original().elements(numbers) == tensor.elements(
                numbers,
            )
        },
{
    reveal_with_fuel(Node::device_spec, 3);
    reveal_with_fuel(elements, 3);
    let mapped = param.param_mapper.loaded(param.brought(tensor));
    grad_keeps_elements(mapped, param.lazy_grad_spec(), numbers);
    if !mapped.device_spec().autodiff {
        crate::tensor::untracked_without_autodiff(&*mapped.node);
    }
}

/// A parameter that is saved and loaded again has its own value and its identity
/// back, where the function that it is loaded through undoes the one that it was
/// saved through. It has the device of the parameter that it was loaded into,
/// unless that function moves it, and the wish for a gradient of that parameter,
/// where there are gradients.
pub proof fn loading_undoes_saving<C: LoraTransform<Tensor<Float>, C>>(
    saved: Param<Tensor<Float>, C>,
    target: Param<Tensor<Float>, C>,
    numbers: Numbers,
)
    requires
        target.can_load(saved.saved().effective()),
        ({
            let mapped = target.param_mapper.loaded(target.brought(saved.saved().effective()));
            &&& mapped.elements(numbers) == saved.original().elements(numbers)
            &&& mapped.device_spec() == target.lazy_device_spec()
        }),
    ensures
        ({
            let loaded = target.loaded(saved.saved().effective(), saved.saved().id);
            &&& loaded.id == saved.id
            &&& loaded.lora_transform is None
            &&& loaded.original().elements(numbers) == saved.original().elements(numbers)
            &&& loaded.original().device_spec() == target.lazy_device_spec()
            &&& loaded.require_grad == (target.lazy_grad_spec()
                && target.lazy_device_spec().autodiff)
            &&& loaded.original().grad_of() == loaded.require_grad
        }),
{
    let record = saved.saved().effective();
    loading_keeps_the_settings(target, record, saved.saved().id, numbers);
    grad_keeps_elements(
        target.param_mapper.loaded(target.brought(record)),
        target.lazy_grad_spec(),
        numbers,
    );
}

/// A parameter that is saved and loaded again, without functions to go through,
/// has its own value and its identity back, on the device and with the wish for a
/// gradient of the parameter that it was loaded into.
pub proof fn loading_what_was_saved<C: LoraTransform<Tensor<Float>, C>>(
    saved: Param<Tensor<Float>, C>,
    target: Param<Tensor<Float>, C>,
    numbers: Numbers,
)
    requires
        saved.param_mapper.save is None,
        target.param_mapper.load is None,
        target.can_load(saved.saved().effective()),
    ensures
        ({
            let loaded = target.loaded(saved.saved().effective(), saved.saved().id);
            &&& loaded.id == saved.id
            &&& loaded.original().elements(numbers) == saved.original().elements(numbers)
            &&& loaded.original().device_spec() == target.lazy_device_spec()
            &&& loaded.require_grad == (target.lazy_grad_spec()
                && target.lazy_device_spec().autodiff)
        }),
{
    loading_keeps_the_settings(target, saved.saved().effective(), saved.saved().id, numbers);
    loading_undoes_saving(saved, target, numbers);
}

/// A parameter of integers that is saved and loaded again has its value and its
/// identity back, where the function that it is loaded through undoes the one that
/// it was saved through. It has the device of the parameter that it was loaded
/// into, unless that function moves it.
pub proof fn loading_undoes_saving_integers<C>(
    saved: Param<Tensor<Int>, C>,
    target: Param<Tensor<Int>, C>,
    numbers: Numbers,
)
    requires
        target.can_load(saved.saved().original()),
        ({
            let mapped = target.param_mapper.loaded(target.brought(saved.saved().original()));
            &&& mapped.elements(numbers) == saved.original().elements(numbers)
            &&& mapped.device_spec() == target.lazy_device_spec()
        }),
    ensures
        ({
            let loaded = target.loaded(saved.saved().original(), saved.saved().id);
            &&& loaded.id == saved.id
            &&& loaded.original().elements(numbers) == saved.original().elements(numbers)
            &&& loaded.original().device_spec() == target.lazy_device_spec()
            &&& !loaded.require_grad
        }),
{
}

/// A parameter of integers that is saved and loaded again, without functions to go
/// through, has its value and its identity back, on the device of the parameter
/// that it was loaded into.
pub proof fn loading_saved_integers<C>(
    saved: Param<Tensor<Int>, C>,
    target: Param<Tensor<Int>, C>,
    numbers: Numbers,
)
    requires
        saved.param_mapper.save is None,
        target.param_mapper.load is None,
        target.can_load(saved.saved().original()),
    ensures
        ({
            let loaded = target.loaded(saved.saved().original(), saved.saved().id);
            &&& loaded.id == saved.id
            &&& loaded.original().elements(numbers) == saved.original().elements(numbers)
            &&& loaded.original().device_spec() == target.lazy_device_spec()
        }),
{
    loading_undoes_saving_integers(saved, target, numbers);
}

/// A parameter of truth values that is saved and loaded again has its value and its
/// identity back, where the function that it is loaded through undoes the one that
/// it was saved through. It has the device of the parameter that it was loaded
/// into, unless that function moves it.
pub proof fn loading_undoes_saving_truth_values<C>(
    saved: Param<Tensor<Bool>, C>,
    target: Param<Tensor<Bool>, C>,
    numbers: Numbers,
)
    requires
        target.can_load(saved.saved().original()),
        ({
            let mapped = target.param_mapper.loaded(target.brought(saved.saved().original()));
            &&& mapped.elements(numbers) == saved.original().elements(numbers)
            &&& mapped.device_spec() == target.lazy_device_spec()
        }),
    ensures
        ({
            let loaded = target.loaded(saved.saved().original(), saved.saved().id);
            &&& loaded.id == saved.id
            &&& loaded.original().elements(numbers) == saved.original().elements(numbers)
            &&& loaded.original().device_spec() == target.lazy_device_spec()
            &&& !loaded.require_grad
        }),
{
}

/// A parameter of truth values that is saved and loaded again, without functions to go
/// through, has its value and its identity back, on the device of the parameter
/// that it was loaded into.
pub proof fn loading_saved_truth_values<C>(
    saved: Param<Tensor<Bool>, C>,
    target: Param<Tensor<Bool>, C>,
    numbers: Numbers,
)
    requires
        saved.param_mapper.save is None,
        target.param_mapper.load is None,
        target.can_load(saved.saved().original()),
    ensures
        ({
            let loaded = target.loaded(saved.saved().original(), saved.saved().id);
            &&& loaded.id == saved.id
            &&& loaded.original().elements(numbers) == saved.original().elements(numbers)
            &&& loaded.original().device_spec() == target.lazy_device_spec()
        }),
{
    loading_undoes_saving_truth_values(saved, target, numbers);
}

/// Where the shape and the device that are recorded of a value are those that it
/// has, what is told of a parameter before it is initialised is what holds after.
/// The wish for a gradient is met where there are gradients.
pub proof fn initialising_keeps_what_was_told<C>(param: Param<Tensor<Float>, C>)
    requires
        param.readable(),
        param.original().runs(),
        param.state matches ParamState::Uninitialized(lazy) ==> {
            &&& crate::shape::shape_dims(*lazy.shape) == lazy.init.dims_spec()
            &&& lazy.device == lazy.init.device_spec()
        },
    ensures
        ({
            let initialised = param.with_value(param.original());
            &&& initialised.original() == param.original()
            &&& initialised.lazy_dims() == param.lazy_dims()
            &&& initialised.lazy_device_spec() == param.lazy_device_spec()
            &&& initialised.lazy_grad_spec() == (param.lazy_grad_spec()
                && param.lazy_device_spec().autodiff)
            &&& initialised.lora_transform == param.lora_transform
        }),
{
    match param.state {
        ParamState::Initialized(value) => {
            if !value.device_spec().autodiff {
                crate::tensor::untracked_without_autodiff(&*value.node);
            }
        },
        ParamState::Uninitialized(lazy) => {
            grad_keeps_elements(lazy.init, lazy.is_require_grad, arbitrary());
            if !lazy.device.autodiff {
                crate::tensor::untracked_without_autodiff(&*lazy.init.node);
            }
        },
    }
}

/// Without autodiff a parameter has no gradient but remembers whether one is
/// wanted, and keeps its value. Back on the autodiff backend the gradient is
/// wanted again if and only if it was.
pub proof fn training_restores_the_gradient<C: LoraTransform<Tensor<Float>, C>>(
    param: Param<Tensor<Float>, C>,
    numbers: Numbers,
)
    requires
        param.adaptable(),
        param.effective().device_spec().autodiff,
    ensures
        !param.validated().original().grad_of(),
        param.validated().require_grad == param.require_grad,
        param.validated().id == param.id,
        param.validated().effective().elements(numbers) == param.effective().elements(numbers),
        Param::trained(param.validated()).require_grad == param.require_grad,
        Param::trained(param.validated()).original().grad_of() == param.require_grad,
        Param::trained(param.validated()).id == param.id,
        Param::trained(param.validated()).effective().elements(numbers)
            == param.effective().elements(numbers),
        Param::trained(param.validated()).effective().device_spec()
            == param.effective().device_spec(),
{
    let value = param.effective();
    let inner = value.inner_spec();
    assert(!inner.device_spec().autodiff);
    assert(inner.with_grad(false) == inner);
    assert(inner.elements(numbers) == value.elements(numbers));
    assert(param.validated().effective() == inner);
    let outer = Tensor::from_inner_spec(inner);
    assert(outer.device_spec() == value.device_spec());
    assert(outer.elements(numbers) == inner.elements(numbers));
    assert(outer.node.requirement_spec() == Requirement::Untracked);
    grad_keeps_elements(outer, param.require_grad, numbers);
    assert(outer.with_grad(param.require_grad).grad_of() == param.require_grad);
    assert(Param::trained(param.validated()).effective() == outer.with_grad(param.require_grad));
}

/// Moving a parameter keeps its value; forking it also keeps the wish for a
/// gradient.
pub proof fn moving_keeps_the_value<C>(
    tensor: Tensor<Float>,
    device: Device,
    numbers: Numbers,
)
    requires
        tensor.runs(),
        device.autodiff == tensor.device_spec().autodiff,
    ensures
        tensor.to_device_spec(device).elements(numbers) == tensor.elements(numbers),
        Param::<Tensor<Float>, C>::forked_value(tensor, device).elements(numbers)
            == tensor.elements(numbers),
        Param::<Tensor<Float>, C>::forked_value(tensor, device).device_spec() == device,
        Param::<Tensor<Float>, C>::forked_value(tensor, device).grad_of() == tensor.grad_of(),
{
    reveal_with_fuel(Node::device_spec, 4);
    reveal_with_fuel(Node::requirement_spec, 4);
    reveal_with_fuel(elements, 4);
    if !tensor.device_spec().autodiff {
        crate::tensor::untracked_without_autodiff(&*tensor.node);
    }
}

/// Collecting devices keeps those that were collected, in order, adds at most
/// the one at hand, and never lists a device twice.
pub proof fn devices_stay_distinct(devices: Seq<Device>, device: Device)
    ensures
        devices.is_prefix_of(with_device(devices, device)),
        devices.contains(device) ==> with_device(devices, device) == devices,
        !devices.contains(device) ==> with_device(devices, device) == devices.push(device),
        with_device(devices, device).contains(device),
        with_device(devices, device).len() <= devices.len() + 1,
        devices.no_duplicates() ==> with_device(devices, device).no_duplicates(),
        with_device(with_device(devices, device), device) == with_device(devices, device),
{
    if !devices.contains(device) {
        assert(devices.push(device)[devices.len() as int] == device);
    }
}

} // verus!
