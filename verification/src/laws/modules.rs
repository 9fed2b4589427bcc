//! What is done to a whole module, said of what is met in it one by one.

use std::sync::Arc;

use vstd::prelude::*;

use crate::laws::freezing_a_parameter_keeps_its_factors;
use crate::laws::params::adapting_attaches_factors_scaled_by_alpha_over_rank;
use crate::laws::text::occurring_is_being_in_the_middle;
use crate::lora::{
    all_adaptable, all_shaped, depth_after, frozen_events, injected, injected_at, merged_events,
    path_after, targeted, LoraConfig,
};
use crate::module::{
    map_step, mappable, mapped, mapped_append, param_mappable, trace, trace_append, visit_step,
    visitable, visited, visited_append, Field, Module, ModuleEvent, ModuleMapper, ModuleVisitor,
};
use crate::param::base::{Param, ParamState, Parameter};
use crate::param::lora::{LoraState, LoraTransform, Transform};
use crate::semantics::{factor_value, Numbers};
use crate::tensor::{Bool, Device, Float, Int, Tensor};
use crate::text::{dotted, texts};

verus! {

/// What is met in a module: a parameter in itself, the parts of a pair one after
/// the other, the module in an option if there is one, and a named part between
/// its beginning and its end.
pub proof fn modules_are_met_in_order<
    C: LoraTransform<Tensor<Float>, C>,
    A: Module<C>,
    B: Module<C>,
>(
    reals: Param<Tensor<Float>, C>,
    integers: Param<Tensor<Int>, C>,
    truths: Param<Tensor<Bool>, C>,
    a: A,
    b: B,
    field: Field<A>,
)
    ensures
        <Param<Tensor<Float>, C> as Module<C>>::events(&reals) == seq![ModuleEvent::Float(reals)],
        <Param<Tensor<Int>, C> as Module<C>>::events(&integers) == seq![
            ModuleEvent::<C>::Int(integers),
        ],
        <Param<Tensor<Bool>, C> as Module<C>>::events(&truths) == seq![
            ModuleEvent::<C>::Bool(truths),
        ],
        <(A, B) as Module<C>>::events(&(a, b)) == a.events() + b.events(),
        <Option<A> as Module<C>>::events(&Some(a)) == a.events(),
        <Option<A> as Module<C>>::events(&None) == Seq::<ModuleEvent<C>>::empty(),
        <Field<A> as Module<C>>::events(&field) == seq![
            ModuleEvent::<C>::Enter {
                name: field.name@,
                container_type: field.container_type@,
            },
        ] + field.module.events() + seq![
            ModuleEvent::<C>::Exit {
                name: field.name@,
                container_type: field.container_type@,
            },
        ],
{
}

/// What a visitor meets at one thing that a mapper meets: at a parameter whose
/// transform exposes both factors, the parameter and then the factors, as a part
/// named `lora` of a `Struct:LoraState`; at anything else, that alone.
pub proof fn visitors_meet_exposed_factors<C: LoraTransform<Tensor<Float>, C>>(
    event: ModuleEvent<C>,
)
    ensures
        trace(Seq::<ModuleEvent<C>>::empty()) == Seq::<ModuleEvent<C>>::empty(),
        !(event is Float) ==> trace(seq![event]) == seq![event],
        event matches ModuleEvent::Float(param) ==> {
            &&& param.lora_transform is None ==> trace(seq![event]) == seq![event]
            &&& param.lora_transform matches Some(transform) ==> match *transform {
                Transform::Lora(state) => trace(seq![event]) == seq![
                    event,
                    ModuleEvent::Enter { name: "lora"@, container_type: "Struct:LoraState"@ },
                    ModuleEvent::Float(state.lora_a),
                    ModuleEvent::Float(state.lora_b),
                    ModuleEvent::Exit { name: "lora"@, container_type: "Struct:LoraState"@ },
                ],
                Transform::Custom(custom) => match (custom.exposed_a(), custom.exposed_b()) {
                    (Some(lora_a), Some(lora_b)) => trace(seq![event]) == seq![
                        event,
                        ModuleEvent::Enter { name: "lora"@, container_type: "Struct:LoraState"@ },
                        ModuleEvent::Float(lora_a),
                        ModuleEvent::Float(lora_b),
                        ModuleEvent::Exit { name: "lora"@, container_type: "Struct:LoraState"@ },
                    ],
                    _ => trace(seq![event]) == seq![event],
                },
            }
        },
{
    let none = Seq::<ModuleEvent<C>>::empty();
    assert(seq![event].drop_last() == none);
    assert(trace(seq![event].drop_last()) == none);
    assert(seq![event].last() == event);
}

/// What a visitor meets in a row of parts is what it meets in each.
pub proof fn visitors_meet_parts_in_a_row<C: LoraTransform<Tensor<Float>, C>>(
    first: Seq<ModuleEvent<C>>,
    second: Seq<ModuleEvent<C>>,
)
    ensures
        trace(first + second) == trace(first) + trace(second),
{
    trace_append(first, second);
}

/// A visitor that runs over nothing stays as it is. At one event its method for
/// that event is called, once.
pub proof fn visitors_are_called_once_for_each<C, V: ModuleVisitor<C>>(
    event: ModuleEvent<C>,
    pre: V,
    post: V,
)
    ensures
        visited(Seq::<ModuleEvent<C>>::empty(), pre, post) <==> pre == post,
        visited(seq![event], pre, post) <==> match event {
            ModuleEvent::Enter { name, container_type } => V::entered(
                pre,
                name,
                container_type,
                post,
            ),
            ModuleEvent::Exit { name, container_type } => V::exited(
                pre,
                name,
                container_type,
                post,
            ),
            ModuleEvent::Float(param) => V::float_visited(pre, param, post),
            ModuleEvent::Int(param) => V::int_visited(pre, param, post),
            ModuleEvent::Bool(param) => V::bool_visited(pre, param, post),
        },
{
    let none = Seq::<ModuleEvent<C>>::empty();
    assert(seq![event].drop_last() == none);
    assert(seq![event].last() == event);
    assert(visited(none, pre, pre));
    if visited(seq![event], pre, post) {
        let mid = choose|mid: V|
            visited(seq![event].drop_last(), pre, mid) && #[trigger] visit_step(
                seq![event].last(),
                mid,
                post,
            );
        assert(visited(none, pre, mid));
    }
    if visit_step(event, pre, post) {
        assert(visit_step(seq![event].last(), pre, post));
        assert(visited(seq![event].drop_last(), pre, pre));
    }
}

/// A visitor runs over a row of events if and only if it runs over the first of
/// them and then, as it is then, over the others.
pub proof fn visiting_in_a_row_is_visiting_one_after_the_other<C, V: ModuleVisitor<C>>(
    first: Seq<ModuleEvent<C>>,
    second: Seq<ModuleEvent<C>>,
    pre: V,
    post: V,
)
    ensures
        visited(first + second, pre, post) <==> exists|mid: V|
            #[trigger] visited(first, pre, mid) && visited(second, mid, post),
    decreases second.len(),
{
    let all = first + second;
    if exists|mid: V| #[trigger] visited(first, pre, mid) && visited(second, mid, post) {
        let mid = choose|mid: V| #[trigger] visited(first, pre, mid) && visited(second, mid, post);
        visited_append(first, second, pre, mid, post);
    }
    if visited(all, pre, post) {
        if second.len() == 0 {
            assert(all == first);
            assert(visited(second, post, post));
            assert(visited(first, pre, post));
        } else {
            let before = choose|before: V|
                visited(all.drop_last(), pre, before) && #[trigger] visit_step(
                    all.last(),
                    before,
                    post,
                );
            assert(all.drop_last() == first + second.drop_last());
            assert(all.last() == second.last());
            visiting_in_a_row_is_visiting_one_after_the_other(
                first,
                second.drop_last(),
                pre,
                before,
            );
            let mid = choose|mid: V| #[trigger]
                visited(first, pre, mid) && visited(second.drop_last(), mid, before);
            assert(visit_step(second.last(), before, post));
            assert(visited(second, mid, post));
        }
    }
}

/// A mapper that runs over nothing stays as it is. At one event its method for
/// that event is called, once, and beginnings and ends stay what they are. At a
/// matrix whose transform exposes both factors, a mapper that replaces factors one
/// by one is called for the bare matrix, without a wish for a gradient, for the
/// first factor and for the second. The parameter is then put together from what
/// came back, whatever it said of its gradient.
pub proof fn mappers_are_called_once_for_each<
    C: LoraTransform<Tensor<Float>, C>,
    M: ModuleMapper<C>,
>(event: ModuleEvent<C>, pre: M, out: ModuleEvent<C>, post: M)
    ensures
        mapped(Seq::<ModuleEvent<C>>::empty(), pre, Seq::<ModuleEvent<C>>::empty(), post) <==> pre
            == post,
        mapped(seq![event], pre, seq![out], post) <==> match event {
            ModuleEvent::Enter { name, container_type } => {
                &&& out == event
                &&& M::entered(pre, name, container_type, post)
            },
            ModuleEvent::Exit { name, container_type } => {
                &&& out == event
                &&& M::exited(pre, name, container_type, post)
            },
            ModuleEvent::Int(param) => {
                &&& out matches ModuleEvent::Int(new)
                &&& M::int_mapped(pre, param, post, new)
            },
            ModuleEvent::Bool(param) => {
                &&& out matches ModuleEvent::Bool(new)
                &&& M::bool_mapped(pre, param, post, new)
            },
            ModuleEvent::Float(param) => {
                &&& out matches ModuleEvent::Float(new)
                &&& if pre.updates_lora() && param.lazy_dims().len() == 2 && param.lora_transform
                    is Some && param.lora_transform.unwrap().exposed_a() is Some
                    && param.lora_transform.unwrap().exposed_b() is Some {
                    exists|
                        after_base: M,
                        after_a: M,
                        base: Param<Tensor<Float>, C>,
                        new_a: Param<Tensor<Float>, C>,
                        new_b: Param<Tensor<Float>, C>,
                    |
                        {
                            &&& #[trigger] M::float_mapped(
                                pre,
                                Param {
                                    id: param.id,
                                    state: ParamState::Initialized(param.original()),
                                    param_mapper: param.param_mapper,
                                    require_grad: false,
                                    lora_transform: None,
                                },
                                after_base,
                                base,
                            )
                            &&& #[trigger] M::float_mapped(
                                after_base,
                                param.lora_transform.unwrap().exposed_a().unwrap(),
                                after_a,
                                new_a,
                            )
                            &&& #[trigger] M::float_mapped(
                                after_a,
                                param.lora_transform.unwrap().exposed_b().unwrap(),
                                post,
                                new_b,
                            )
                            &&& new == Param {
                                id: base.id,
                                state: ParamState::Initialized(base.effective()),
                                param_mapper: param.param_mapper,
                                require_grad: base.effective().grad_of(),
                                lora_transform: Some(
                                    Arc::new(param.lora_transform.unwrap().updated(new_a, new_b)),
                                ),
                            }
                        }
                } else {
                    M::float_mapped(pre, param, post, new)
                }
            },
        },
{
    let none = Seq::<ModuleEvent<C>>::empty();
    assert(seq![event].drop_last() == none);
    assert(seq![out].drop_last() == none);
    assert(seq![event].last() == event);
    assert(seq![out].last() == out);
    assert(mapped(none, pre, none, pre));
    if mapped(seq![event], pre, seq![out], post) {
        let mid = choose|mid: M|
            mapped(seq![event].drop_last(), pre, seq![out].drop_last(), mid)
                && #[trigger] map_step(seq![event].last(), mid, seq![out].last(), post);
        assert(mapped(none, pre, none, mid));
        assert(map_step(event, pre, out, post));
    }
    if map_step(event, pre, out, post) {
        assert(map_step(seq![event].last(), pre, seq![out].last(), post));
        assert(mapped(seq![event].drop_last(), pre, seq![out].drop_last(), pre));
        assert(mapped(seq![event], pre, seq![out], post));
    }
}

/// A mapper runs over a row of events if and only if it runs over the first of
/// them and then, as it is then, over the others. It gives one event for each.
pub proof fn mapping_in_a_row_is_mapping_one_after_the_other<
    C: LoraTransform<Tensor<Float>, C>,
    M: ModuleMapper<C>,
>(
    first: Seq<ModuleEvent<C>>,
    second: Seq<ModuleEvent<C>>,
    pre: M,
    outs: Seq<ModuleEvent<C>>,
    post: M,
)
    ensures
        mapped(first + second, pre, outs, post) <==> {
            &&& outs.len() == first.len() + second.len()
            &&& exists|mid: M|
                #[trigger] mapped(first, pre, outs.take(first.len() as int), mid) && mapped(
                    second,
                    mid,
                    outs.skip(first.len() as int),
                    post,
                )
        },
    decreases second.len(),
{
    let all = first + second;
    let head = outs.take(first.len() as int);
    let tail = outs.skip(first.len() as int);
    if outs.len() == first.len() + second.len() {
        assert(head + tail == outs);
        if exists|mid: M| #[trigger] mapped(first, pre, head, mid) && mapped(
            second,
            mid,
            tail,
            post,
        ) {
            let mid = choose|mid: M| #[trigger] mapped(first, pre, head, mid) && mapped(
                second,
                mid,
                tail,
                post,
            );
            mapped_append(first, second, pre, head, mid, tail, post);
        }
    }
    if mapped(all, pre, outs, post) {
        assert(outs.len() == all.len());
        if second.len() == 0 {
            assert(all == first);
            assert(head == outs);
            assert(mapped(second, post, tail, post));
            assert(mapped(first, pre, head, post));
        } else {
            let before = choose|before: M|
                mapped(all.drop_last(), pre, outs.drop_last(), before) && #[trigger] map_step(
                    all.last(),
                    before,
                    outs.last(),
                    post,
                );
            assert(all.drop_last() == first + second.drop_last());
            assert(all.last() == second.last());
            mapping_in_a_row_is_mapping_one_after_the_other(
                first,
                second.drop_last(),
                pre,
                outs.drop_last(),
                before,
            );
            assert(outs.drop_last().take(first.len() as int) == head);
            assert(outs.drop_last().skip(first.len() as int) == tail.drop_last());
            assert(tail.last() == outs.last());
            let mid = choose|mid: M| #[trigger]
                mapped(first, pre, head, mid) && mapped(
                    second.drop_last(),
                    mid,
                    tail.drop_last(),
                    before,
                );
            assert(map_step(second.last(), before, tail.last(), post));
            assert(mapped(second, mid, tail, post));
        }
    }
}

/// A mapper that ran over a module did so at every event, in the state that the
/// events before left it in.
proof fn mapped_at<C: LoraTransform<Tensor<Float>, C>, M: ModuleMapper<C>>(
    events: Seq<ModuleEvent<C>>,
    pre: M,
    outs: Seq<ModuleEvent<C>>,
    post: M,
    i: int,
) -> (states: (M, M))
    requires
        mapped(events, pre, outs, post),
        0 <= i < events.len(),
    ensures
        outs.len() == events.len(),
        mapped(events.take(i), pre, outs.take(i), states.0),
        mapped(seq![events[i]], states.0, seq![outs[i]], states.1),
        mapped(events.skip(i + 1), states.1, outs.skip(i + 1), post),
{
    let head = events.take(i);
    let rest = events.skip(i);
    assert(head + rest == events);
    mapping_in_a_row_is_mapping_one_after_the_other(head, rest, pre, outs, post);
    let before = choose|mid: M| #[trigger]
        mapped(head, pre, outs.take(i), mid) && mapped(rest, mid, outs.skip(i), post);
    let one = seq![events[i]];
    assert(one + events.skip(i + 1) == rest);
    mapping_in_a_row_is_mapping_one_after_the_other(
        one,
        events.skip(i + 1),
        before,
        outs.skip(i),
        post,
    );
    assert(outs.skip(i).take(1) == seq![outs[i]]);
    assert(outs.skip(i).skip(1) == outs.skip(i + 1));
    let after = choose|mid: M| #[trigger]
        mapped(one, before, outs.skip(i).take(one.len() as int), mid) && mapped(
            events.skip(i + 1),
            mid,
            outs.skip(i).skip(one.len() as int),
            post,
        );
    (before, after)
}

/// In a module that a mapper ran over, every matrix with a low-rank adaptation
/// has had its factors replaced, if the mapper replaces factors one by one when it
/// gets there: the mapper was called for the first factor and for the second, and
/// what it gave are the factors now, with the scale that was there. This does not
/// depend on what the matrix says of its own gradient. A mapper that does not
/// replace factors one by one was called for the whole parameter.
pub proof fn factors_of_every_adapted_matrix_are_mapped<
    C: LoraTransform<Tensor<Float>, C>,
    M: ModuleMapper<C>,
>(
    events: Seq<ModuleEvent<C>>,
    pre: M,
    outs: Seq<ModuleEvent<C>>,
    post: M,
    i: int,
    param: Param<Tensor<Float>, C>,
    state: LoraState<Tensor<Float>, C>,
)
    requires
        mapped(events, pre, outs, post),
        0 <= i < events.len(),
        events[i] == ModuleEvent::Float(param),
        param.lazy_dims().len() == 2,
        param.lora_transform == Some(Arc::new(Transform::Lora(state))),
    ensures
        outs.len() == events.len(),
        exists|before: M, after: M|
            {
                &&& #[trigger] mapped(events.take(i), pre, outs.take(i), before)
                &&& #[trigger] mapped(events.skip(i + 1), after, outs.skip(i + 1), post)
                &&& outs[i] matches ModuleEvent::Float(new)
                &&& if before.updates_lora() {
                    exists|
                        after_base: M,
                        after_a: M,
                        base: Param<Tensor<Float>, C>,
                        new_a: Param<Tensor<Float>, C>,
                        new_b: Param<Tensor<Float>, C>,
                    |
                        {
                            &&& #[trigger] M::float_mapped(
                                before,
                                Param {
                                    id: param.id,
                                    state: ParamState::Initialized(param.original()),
                                    param_mapper: param.param_mapper,
                                    require_grad: false,
                                    lora_transform: None,
                                },
                                after_base,
                                base,
                            )
                            &&& #[trigger] M::float_mapped(
                                after_base,
                                state.lora_a,
                                after_a,
                                new_a,
                            )
                            &&& #[trigger] M::float_mapped(after_a, state.lora_b, after, new_b)
                            &&& new.id == base.id
                            &&& new.state == ParamState::Initialized(base.effective())
                            &&& new.require_grad == base.effective().grad_of()
                            &&& new.param_mapper == param.param_mapper
                            &&& new.lora_transform == Some(
                                Arc::new(
                                    Transform::Lora(
                                        LoraState {
                                            lora_a: new_a,
                                            lora_b: new_b,
                                            scaling: state.scaling,
                                        },
                                    ),
                                ),
                            )
                        }
                } else {
                    M::float_mapped(before, param, after, new)
                }
            },
{
    let (before, after) = mapped_at(events, pre, outs, post, i);
    mappers_are_called_once_for_each(events[i], before, outs[i], after);
    assert(mapped(events.take(i), pre, outs.take(i), before));
    assert(mapped(events.skip(i + 1), after, outs.skip(i + 1), post));
}

/// Every other thing in a module that a mapper ran over was handed to the mapper
/// whole: a parameter that nothing adapts, one that is no matrix, one of integers
/// and one of truth values. Beginnings and ends of parts are left as they are.
pub proof fn everything_else_is_mapped_whole<
    C: LoraTransform<Tensor<Float>, C>,
    M: ModuleMapper<C>,
>(
    events: Seq<ModuleEvent<C>>,
    pre: M,
    outs: Seq<ModuleEvent<C>>,
    post: M,
    i: int,
)
    requires
        mapped(events, pre, outs, post),
        0 <= i < events.len(),
        events[i] matches ModuleEvent::Float(param) ==> param.lora_transform is None
            || param.lazy_dims().len() != 2,
    ensures
        outs.len() == events.len(),
        exists|before: M, after: M|
            {
                &&& #[trigger] mapped(events.take(i), pre, outs.take(i), before)
                &&& #[trigger] mapped(events.skip(i + 1), after, outs.skip(i + 1), post)
                &&& match events[i] {
                    ModuleEvent::Enter { name, container_type } => {
                        &&& outs[i] == events[i]
                        &&& M::entered(before, name, container_type, after)
                    },
                    ModuleEvent::Exit { name, container_type } => {
                        &&& outs[i] == events[i]
                        &&& M::exited(before, name, container_type, after)
                    },
                    ModuleEvent::Float(param) => {
                        &&& outs[i] matches ModuleEvent::Float(new)
                        &&& M::float_mapped(before, param, after, new)
                    },
                    ModuleEvent::Int(param) => {
                        &&& outs[i] matches ModuleEvent::Int(new)
                        &&& M::int_mapped(before, param, after, new)
                    },
                    ModuleEvent::Bool(param) => {
                        &&& outs[i] matches ModuleEvent::Bool(new)
                        &&& M::bool_mapped(before, param, after, new)
                    },
                }
            },
{
    let (before, after) = mapped_at(events, pre, outs, post, i);
    mappers_are_called_once_for_each(events[i], before, outs[i], after);
    assert(mapped(events.take(i), pre, outs.take(i), before));
    assert(mapped(events.skip(i + 1), after, outs.skip(i + 1), post));
}

/// What a visitor and a mapper ask of a module before they are run over it: that
/// they accept the parameters of real numbers that they will be handed. A mapper
/// that replaces factors one by one also asks that the dimensions of a parameter
/// can be told, and, of a matrix whose factors it will be handed, that the matrix
/// can be read and that what it makes of the matrix has a value.
pub proof fn modules_are_taken_where_parameters_are_accepted<
    C: LoraTransform<Tensor<Float>, C>,
    V: ModuleVisitor<C>,
    M: ModuleMapper<C>,
>(events: Seq<ModuleEvent<C>>, param: Param<Tensor<Float>, C>, mapper: M)
    ensures
        visitable::<C, V>(events) <==> forall|i: int|
            0 <= i < events.len() ==> (#[trigger] events[i] matches ModuleEvent::Float(met)
                ==> V::accepts(met)),
        mappable(events, mapper) <==> forall|i: int, outs: Seq<ModuleEvent<C>>, mid: M|
            0 <= i < events.len() && #[trigger] mapped(events.take(i), mapper, outs, mid) ==> (
            events[i] matches ModuleEvent::Float(met) ==> param_mappable(met, mid)),
        !mapper.updates_lora() ==> param_mappable(param, mapper) == M::accepts(param),
        mapper.updates_lora() && (param.lora_transform is None || param.lazy_dims().len() != 2)
            ==> param_mappable(param, mapper) == (M::accepts(param) && param.shaped()),
        mapper.updates_lora() && param.lazy_dims().len() == 2 ==> (param.lora_transform matches
            Some(transform) ==> match (transform.exposed_a(), transform.exposed_b()) {
            (Some(lora_a), Some(lora_b)) => {
                let bare = Param {
                    id: param.id,
                    state: ParamState::Initialized(param.original()),
                    param_mapper: param.param_mapper,
                    require_grad: false,
                    lora_transform: None,
                };
                param_mappable(param, mapper) <==> {
                    &&& param.shaped()
                    &&& param.readable()
                    &&& M::accepts(bare)
                    &&& M::accepts(lora_a)
                    &&& M::accepts(lora_b)
                    &&& forall|pre: M, post: M, base: Param<Tensor<Float>, C>| #[trigger]
                        M::float_mapped(pre, bare, post, base) ==> base.adaptable()
                }
            },
            _ => param_mappable(param, mapper) == (M::accepts(param) && param.shaped()),
        }),
{
}

/// What adapting, freezing and merging ask of a module: that each parameter of
/// real numbers that holds its value can be evaluated, or, for merging, that each
/// has a value with what adapts it.
pub proof fn modules_are_adapted_frozen_and_merged_where_values_are<
    C: LoraTransform<Tensor<Float>, C>,
>(events: Seq<ModuleEvent<C>>)
    ensures
        all_shaped(events) <==> forall|i: int|
            0 <= i < events.len() ==> (#[trigger] events[i] matches ModuleEvent::Float(param)
                ==> (param.state matches ParamState::Initialized(value) ==> value.runs())),
        all_adaptable(events) <==> forall|i: int|
            0 <= i < events.len() ==> (#[trigger] events[i] matches ModuleEvent::Float(param)
                ==> param.adaptable()),
{
    if all_shaped(events) {
        assert forall|i: int| 0 <= i < events.len() implies (#[trigger] events[i] matches
            ModuleEvent::Float(param) ==> (param.state matches ParamState::Initialized(value)
            ==> value.runs())) by {
            if let ModuleEvent::Float(param) = events[i] {
                assert(param.shaped());
            }
        }
    }
}

/// The names of the parts around a place in a module: a part that begins adds its
/// name, and one that ends takes the last name away.
pub proof fn paths_follow_beginnings_and_ends<C>(
    events: Seq<ModuleEvent<C>>,
    event: ModuleEvent<C>,
)
    ensures
        path_after(Seq::<ModuleEvent<C>>::empty()) == Seq::<Seq<char>>::empty(),
        path_after(events.push(event)) == match event {
            ModuleEvent::Enter { name, container_type } => path_after(events).push(name),
            ModuleEvent::Exit { name, container_type } => if path_after(events).len() > 0 {
                path_after(events).drop_last()
            } else {
                path_after(events)
            },
            _ => path_after(events),
        },
{
    assert(events.push(event).drop_last() == events);
    assert(events.push(event).last() == event);
}

/// A path is targeted if there are no patterns, or if any of them, at whatever
/// place in the list, is somewhere in the path. A pattern more never takes a path
/// away from those that patterns target, and targets those that contain it.
pub proof fn any_pattern_targets_a_path(
    targets: Seq<Seq<char>>,
    path: Seq<Seq<char>>,
    pattern: Seq<char>,
    i: int,
)
    ensures
        targets.len() == 0 ==> targeted(targets, path),
        0 <= i < targets.len() && (exists|before: Seq<char>, after: Seq<char>|
            dotted(path) == #[trigger] before.add(targets[i]).add(after)) ==> targeted(
            targets,
            path,
        ),
        targets.len() > 0 && targeted(targets, path) ==> exists|
            k: int,
            before: Seq<char>,
            after: Seq<char>,
        |
            0 <= k < targets.len() && dotted(path) == #[trigger] before.add(targets[k]).add(after),
        targets.len() > 0 && targeted(targets, path) ==> targeted(targets.push(pattern), path),
        (exists|before: Seq<char>, after: Seq<char>|
            dotted(path) == #[trigger] before.add(pattern).add(after)) ==> targeted(
            targets.push(pattern),
            path,
        ),
{
    let whole = dotted(path);
    let more = targets.push(pattern);
    occurring_is_being_in_the_middle(whole, pattern);
    assert(more[targets.len() as int] == pattern);
    if 0 <= i < targets.len() {
        occurring_is_being_in_the_middle(whole, targets[i]);
    }
    if targets.len() > 0 && targeted(targets, path) {
        let k = choose|k: int|
            0 <= k < targets.len() && crate::text::occurs(whole, #[trigger] targets[k]);
        occurring_is_being_in_the_middle(whole, targets[k]);
        assert(more[k] == targets[k]);
    }
}

/// Adapting a module, said of each matrix. If there are no patterns, or any of the
/// patterns is somewhere in the path of the matrix, written with dots, the matrix
/// gets an adaptation whose scale times the rank is `alpha`, with factors of sizes
/// `[in_features, rank]` and `[rank, out_features]` on `device`, of which the
/// second is zero; all else of it stays. If there are patterns and none is in the
/// path, the matrix is left as it is.
pub proof fn matrices_with_any_pattern_in_their_path_are_adapted<
    C: LoraTransform<Tensor<Float>, C>,
>(
    config: LoraConfig,
    device: Device,
    events: Seq<ModuleEvent<C>>,
    outs: Seq<ModuleEvent<C>>,
    i: int,
    param: Param<Tensor<Float>, C>,
    numbers: Numbers,
)
    requires
        injected(config, device, events, outs),
        0 <= i < events.len(),
        events[i] == ModuleEvent::Float(param),
        param.lazy_dims().len() == 2,
    ensures
        outs.len() == events.len(),
        outs[i] is Float,
        (config.target_modules@.len() == 0 || exists|
            k: int,
            before: Seq<char>,
            after: Seq<char>,
        |
            0 <= k < config.target_modules@.len() && dotted(path_after(events.take(i)))
                == #[trigger] before.add(config.target_modules@[k]@).add(after)) ==> {
            let new = outs[i]->Float_0;
            let rows = param.lazy_dims()[0];
            let cols = param.lazy_dims()[1];
            &&& new.id == param.id
            &&& new.state == param.state
            &&& new.param_mapper == param.param_mapper
            &&& new.require_grad == param.require_grad
            &&& new.lora_transform matches Some(transform)
            &&& *transform matches Transform::Lora(state)
            &&& config.rank > 0 ==> factor_value(state.scaling, numbers) * (
            config.rank as int as real) == (numbers.scalar)(config.alpha)
            &&& state.lora_a.state matches ParamState::Initialized(lora_a)
            &&& state.lora_b.state matches ParamState::Initialized(lora_b)
            &&& lora_a.dims_spec() == seq![rows, config.rank]
            &&& lora_b.dims_spec() == seq![config.rank, cols]
            &&& lora_a.device_spec() == device && lora_b.device_spec() == device
            &&& state.lora_a.require_grad == device.autodiff
            &&& state.lora_b.require_grad == device.autodiff
            &&& forall|index: Seq<int>| #[trigger] lora_b.elements(numbers)(index) == 0real
            &&& exists|key: u64|
                {
                    let draw = #[trigger] Tensor::<Float>::uniform_spec(
                        key,
                        rows,
                        config.rank,
                        device,
                    );
                    forall|index: Seq<int>| #[trigger]
                        lora_a.elements(numbers)(index) == draw.elements(numbers)(index) * (
                        numbers.inverse_sqrt)(rows)
                }
        },
        config.target_modules@.len() > 0 && (forall|
            k: int,
            before: Seq<char>,
            after: Seq<char>,
        |
            0 <= k < config.target_modules@.len() ==> dotted(path_after(events.take(i)))
                != #[trigger] before.add(config.target_modules@[k]@).add(after)) ==> outs[i]
            == ModuleEvent::Float(param),
{
    let targets = texts(config.target_modules@);
    let path = path_after(events.take(i));
    assert(injected_at(config, device, path, events[i], outs[i]));
    let new = outs[i]->Float_0;
    if config.target_modules@.len() == 0 {
        any_pattern_targets_a_path(targets, path, seq![], 0);
    } else if exists|k: int, before: Seq<char>, after: Seq<char>|
        0 <= k < config.target_modules@.len() && dotted(path) == #[trigger] before.add(
            config.target_modules@[k]@,
        ).add(after) {
        let (k, before, after) = choose|k: int, before: Seq<char>, after: Seq<char>|
            0 <= k < config.target_modules@.len() && dotted(path) == #[trigger] before.add(
                config.target_modules@[k]@,
            ).add(after);
        assert(targets[k] == config.target_modules@[k]@);
        assert(dotted(path) == before.add(targets[k]).add(after));
        any_pattern_targets_a_path(targets, path, seq![], k);
    } else {
        any_pattern_targets_a_path(targets, path, seq![], 0);
        if targeted(targets, path) {
            let (k, before, after) = choose|k: int, before: Seq<char>, after: Seq<char>|
                0 <= k < targets.len() && dotted(path) == #[trigger] before.add(targets[k]).add(
                    after,
                );
            assert(targets[k] == config.target_modules@[k]@);
            assert(dotted(path) == before.add(config.target_modules@[k]@).add(after));
        }
    }
    if targeted(targets, path) {
        adapting_attaches_factors_scaled_by_alpha_over_rank(
            param,
            config.rank,
            config.alpha,
            device,
            new,
            numbers,
        );
    }
}

/// Adapting a module leaves as it is whatever is no matrix.
pub proof fn what_is_no_matrix_is_not_adapted<C>(
    config: LoraConfig,
    device: Device,
    events: Seq<ModuleEvent<C>>,
    outs: Seq<ModuleEvent<C>>,
    i: int,
)
    requires
        injected(config, device, events, outs),
        0 <= i < events.len(),
        events[i] matches ModuleEvent::Float(param) ==> param.lazy_dims().len() != 2,
    ensures
        outs[i] == events[i],
{
    assert(injected_at(config, device, path_after(events.take(i)), events[i], outs[i]));
}

/// Merging a module merges each parameter: one that is adapted holds the adapted
/// value and loses what adapted it, and one that is not is left as it is, like
/// everything else.
pub proof fn modules_are_merged_parameter_by_parameter<C: LoraTransform<Tensor<Float>, C>>(
    events: Seq<ModuleEvent<C>>,
    i: int,
)
    requires
        0 <= i < events.len(),
    ensures
        merged_events(events).len() == events.len(),
        !(events[i] is Float) ==> merged_events(events)[i] == events[i],
        events[i] matches ModuleEvent::Float(param) ==> if param.lora_transform is Some {
            merged_events(events)[i] == ModuleEvent::<C>::Float(
                Param {
                    id: param.id,
                    state: ParamState::Initialized(param.effective()),
                    param_mapper: param.param_mapper,
                    require_grad: param.effective().grad_of(),
                    lora_transform: None,
                },
            )
        } else {
            merged_events(events)[i] == events[i]
        },
{
}

/// How deep a place in a module is inside adaptations: a part named `lora` of a
/// `Struct:LoraState` goes one deeper, as far as a machine word counts, and its
/// end one back. No other part counts.
pub proof fn depth_follows_adaptations<C>(events: Seq<ModuleEvent<C>>, event: ModuleEvent<C>)
    ensures
        depth_after(Seq::<ModuleEvent<C>>::empty()) == 0,
        depth_after(events.push(event)) == match event {
            ModuleEvent::Enter { name, container_type } => if name == "lora"@ && container_type
                == "Struct:LoraState"@ && depth_after(events) < usize::MAX {
                depth_after(events) + 1
            } else {
                depth_after(events)
            },
            ModuleEvent::Exit { name, container_type } => if name == "lora"@ && container_type
                == "Struct:LoraState"@ && depth_after(events) > 0 {
                depth_after(events) - 1
            } else {
                depth_after(events)
            },
            _ => depth_after(events),
        },
{
    assert(events.push(event).drop_last() == events);
    assert(events.push(event).last() == event);
}

/// Freezing a module: a parameter inside an adaptation is left as it is, and so
/// is everything that is no parameter of real numbers. Any other parameter that
/// holds its value holds it without a gradient, and any other that is not yet
/// initialised has recorded that no gradient is wanted. Identity, mapper and what
/// adapts the parameter stay.
pub proof fn modules_are_frozen_parameter_by_parameter<C: LoraTransform<Tensor<Float>, C>>(
    events: Seq<ModuleEvent<C>>,
    i: int,
)
    requires
        0 <= i < events.len(),
    ensures
        frozen_events(events).len() == events.len(),
        !(events[i] is Float) ==> frozen_events(events)[i] == events[i],
        depth_after(events.take(i)) > 0 ==> frozen_events(events)[i] == events[i],
        depth_after(events.take(i)) <= 0 ==> (events[i] matches ModuleEvent::Float(param) ==> {
            &&& frozen_events(events)[i] matches ModuleEvent::Float(new)
            &&& new.id == param.id
            &&& new.param_mapper == param.param_mapper
            &&& new.lora_transform == param.lora_transform
            &&& param.state matches ParamState::Initialized(value) ==> new.state
                == ParamState::Initialized(value.with_grad(false))
            &&& param.state matches ParamState::Uninitialized(lazy) ==> {
                &&& !new.require_grad
                &&& new.state matches ParamState::Uninitialized(recorded)
                &&& !recorded.is_require_grad
                &&& recorded.init == lazy.init
                &&& recorded.device == lazy.device
                &&& recorded.shape == lazy.shape
            }
        }),
{
}

/// Where no part is named `lora`, nothing is inside an adaptation.
proof fn outside_of_everything_named_lora<C>(events: Seq<ModuleEvent<C>>)
    requires
        forall|k: int|
            0 <= k < events.len() ==> (#[trigger] events[k] matches ModuleEvent::Enter {
                name,
                container_type,
            } ==> name != "lora"@),
    ensures
        depth_after(events) == 0,
    decreases events.len(),
{
    if events.len() > 0 {
        let rest = events.drop_last();
        assert forall|k: int| 0 <= k < rest.len() implies (#[trigger] rest[k] matches
            ModuleEvent::Enter { name, container_type } ==> name != "lora"@) by {
            assert(events[k] == rest[k]);
        }
        outside_of_everything_named_lora(rest);
        assert(events == rest.push(events.last()));
        assert(events[events.len() - 1] == events.last());
        depth_follows_adaptations(rest, events.last());
    }
}

/// In a frozen module none of whose parts is named `lora`, no parameter wants a
/// gradient, whatever its part is named and belongs to. What adapts a parameter
/// stays, with the wishes of its factors.
pub proof fn freezing_spares_nothing_without_parts_named_lora<
    C: LoraTransform<Tensor<Float>, C>,
>(events: Seq<ModuleEvent<C>>, i: int, param: Param<Tensor<Float>, C>)
    requires
        forall|k: int|
            0 <= k < events.len() ==> (#[trigger] events[k] matches ModuleEvent::Enter {
                name,
                container_type,
            } ==> name != "lora"@),
        0 <= i < events.len(),
        events[i] == ModuleEvent::Float(param),
        param.original().runs(),
        param.can_set_require_grad(false),
    ensures
        frozen_events(events)[i] is Float,
        !(frozen_events(events)[i]->Float_0).require_grad,
        !(frozen_events(events)[i]->Float_0).original().grad_of(),
        (frozen_events(events)[i]->Float_0).id == param.id,
        (frozen_events(events)[i]->Float_0).lora_transform == param.lora_transform,
{
    let before = events.take(i);
    assert forall|k: int| 0 <= k < before.len() implies (#[trigger] before[k] matches
        ModuleEvent::Enter { name, container_type } ==> name != "lora"@) by {
        assert(events[k] == before[k]);
    }
    outside_of_everything_named_lora(before);
    modules_are_frozen_parameter_by_parameter(events, i);
    freezing_a_parameter_keeps_its_factors(param);
}

/// A parameter right inside a part named `lora` of a `Struct:LoraState` keeps its
/// wish for a gradient.
pub proof fn freezing_spares_what_is_inside_an_adaptation<C: LoraTransform<Tensor<Float>, C>>(
    before: Seq<ModuleEvent<C>>,
    param: Param<Tensor<Float>, C>,
    after: Seq<ModuleEvent<C>>,
)
    ensures
        ({
            let enter = ModuleEvent::<C>::Enter {
                name: "lora"@,
                container_type: "Struct:LoraState"@,
            };
            let events = before.push(enter).push(ModuleEvent::Float(param)) + after;
            frozen_events(events)[before.len() as int + 1] == ModuleEvent::Float(param)
        }),
{
    let enter = ModuleEvent::<C>::Enter { name: "lora"@, container_type: "Struct:LoraState"@ };
    let events = before.push(enter).push(ModuleEvent::Float(param)) + after;
    let i = before.len() as int + 1;
    assert(events.take(i) == before.push(enter));
    assert(events[i] == ModuleEvent::Float(param));
    depth_is_not_negative(before);
    depth_follows_adaptations(before, enter);
    modules_are_frozen_parameter_by_parameter(events, i);
}

/// The depth inside adaptations is never less than zero.
proof fn depth_is_not_negative<C>(events: Seq<ModuleEvent<C>>)
    ensures
        depth_after(events) >= 0,
    decreases events.len(),
{
    if events.len() > 0 {
        depth_is_not_negative(events.drop_last());
    }
}

/// The adaptation that `param` has, where it has one.
spec fn attached<C>(param: Param<Tensor<Float>, C>) -> LoraState<Tensor<Float>, C> {
    (*param.lora_transform.unwrap())->Lora_0
}

/// Fine-tuning reaches the factors: a module is adapted, frozen, and then run over
/// by a mapper. At every matrix with any pattern in its path, a mapper that
/// replaces factors one by one when it gets there is called for both factors that
/// were attached, and what it gives are the factors of the matrix afterwards,
/// though the matrix itself has given up its gradient.
pub proof fn fine_tuning_maps_the_attached_factors<
    C: LoraTransform<Tensor<Float>, C>,
    M: ModuleMapper<C>,
>(
    config: LoraConfig,
    device: Device,
    events: Seq<ModuleEvent<C>>,
    outs: Seq<ModuleEvent<C>>,
    pre: M,
    results: Seq<ModuleEvent<C>>,
    post: M,
    i: int,
    param: Param<Tensor<Float>, C>,
)
    requires
        injected(config, device, events, outs),
        mapped(frozen_events(outs), pre, results, post),
        0 <= i < events.len(),
        events[i] == ModuleEvent::Float(param),
        param.lazy_dims().len() == 2,
        config.target_modules@.len() == 0 || exists|
            k: int,
            before: Seq<char>,
            after: Seq<char>,
        |
            0 <= k < config.target_modules@.len() && dotted(path_after(events.take(i)))
                == #[trigger] before.add(config.target_modules@[k]@).add(after),
    ensures
        results.len() == events.len(),
        outs[i] is Float,
        (outs[i]->Float_0).lora_transform is Some,
        *(outs[i]->Float_0).lora_transform.unwrap() is Lora,
        exists|before: M, after: M|
            {
                let state = (*(outs[i]->Float_0).lora_transform.unwrap())->Lora_0;
                &&& #[trigger] mapped(frozen_events(outs).take(i), pre, results.take(i), before)
                &&& #[trigger] mapped(
                    frozen_events(outs).skip(i + 1),
                    after,
                    results.skip(i + 1),
                    post,
                )
                &&& before.updates_lora() ==> {
                    &&& results[i] matches ModuleEvent::Float(new)
                    &&& exists|
                        after_base: M,
                        after_a: M,
                        new_a: Param<Tensor<Float>, C>,
                        new_b: Param<Tensor<Float>, C>,
                    |
                        {
                            &&& #[trigger] M::float_mapped(
                                after_base,
                                state.lora_a,
                                after_a,
                                new_a,
                            )
                            &&& #[trigger] M::float_mapped(after_a, state.lora_b, after, new_b)
                            &&& new.lora_transform == Some(
                                Arc::new(
                                    Transform::Lora(
                                        LoraState {
                                            lora_a: new_a,
                                            lora_b: new_b,
                                            scaling: state.scaling,
                                        },
                                    ),
                                ),
                            )
                        }
                }
            },
{
    let numbers = arbitrary::<Numbers>();
    matrices_with_any_pattern_in_their_path_are_adapted(
        config,
        device,
        events,
        outs,
        i,
        param,
        numbers,
    );
    let adapted = outs[i]->Float_0;
    let state = attached(adapted);
    let frozen = frozen_events(outs);
    modules_are_frozen_parameter_by_parameter(outs, i);
    let kept = frozen[i]->Float_0;
    assert(kept.lora_transform == adapted.lora_transform);
    assert(kept.lazy_dims() == param.lazy_dims()) by {
        if let ParamState::Initialized(value) = adapted.state {
            crate::semantics::grad_keeps_elements(value, false, numbers);
        }
    }
    factors_of_every_adapted_matrix_are_mapped(frozen, pre, results, post, i, kept, state);
}

} // verus!
