//! Modules: trees of named parameters, and what is run over all of them.
//!
//! Running a visitor or a mapper over a module is described by the events that
//! it meets in order: entering and leaving a named part, and the parameters.

use std::sync::Arc;

use vstd::prelude::*;

use crate::param::base::{Param, ParamState, Parameter};
use crate::param::lora::LoraTransform;
use crate::tensor::{Bool, Float, Int, Tensor};

verus! {

/// What is met while a module is walked through.
pub enum ModuleEvent<C> {
    /// A part of the module begins.
    Enter {
        /// The name of the part.
        name: Seq<char>,
        /// What the part belongs to.
        container_type: Seq<char>,
    },
    /// A part of the module ends.
    Exit {
        /// The name of the part.
        name: Seq<char>,
        /// What the part belongs to.
        container_type: Seq<char>,
    },
    /// A parameter of real numbers.
    Float(Param<Tensor<Float>, C>),
    /// A parameter of integers.
    Int(Param<Tensor<Int>, C>),
    /// A parameter of truth values.
    Bool(Param<Tensor<Bool>, C>),
}

/// What looks at the parameters of a module. Each method relates the visitor
/// before and after it; a visitor that leaves a relation out accepts every
/// parameter and promises nothing.
pub trait ModuleVisitor<C>: Sized {
    /// How the visitor changes when a part begins.
    open spec fn entered(
        pre: Self,
        name: Seq<char>,
        container_type: Seq<char>,
        post: Self,
    ) -> bool {
        true
    }

    /// How the visitor changes when a part ends.
    open spec fn exited(pre: Self, name: Seq<char>, container_type: Seq<char>, post: Self) -> bool {
        true
    }

    /// The parameters that the visitor can look at.
    open spec fn accepts(param: Param<Tensor<Float>, C>) -> bool {
        true
    }

    /// How the visitor changes at a parameter of real numbers.
    open spec fn float_visited(pre: Self, param: Param<Tensor<Float>, C>, post: Self) -> bool {
        true
    }

    /// How the visitor changes at a parameter of integers.
    open spec fn int_visited(pre: Self, param: Param<Tensor<Int>, C>, post: Self) -> bool {
        true
    }

    /// How the visitor changes at a parameter of truth values.
    open spec fn bool_visited(pre: Self, param: Param<Tensor<Bool>, C>, post: Self) -> bool {
        true
    }

    /// A part begins.
    fn enter_module(&mut self, name: &str, container_type: &str)
        ensures
            Self::entered(*old(self), name@, container_type@, *final(self)),
    ;

    /// A part ends.
    fn exit_module(&mut self, name: &str, container_type: &str)
        ensures
            Self::exited(*old(self), name@, container_type@, *final(self)),
    ;

    /// Looks at a parameter of real numbers.
    fn visit_float(&mut self, param: &Param<Tensor<Float>, C>)
        requires
            Self::accepts(*param),
        ensures
            Self::float_visited(*old(self), *param, *final(self)),
    ;

    /// Looks at a parameter of integers.
    fn visit_int(&mut self, param: &Param<Tensor<Int>, C>)
        ensures
            Self::int_visited(*old(self), *param, *final(self)),
    ;

    /// Looks at a parameter of truth values.
    fn visit_bool(&mut self, param: &Param<Tensor<Bool>, C>)
        ensures
            Self::bool_visited(*old(self), *param, *final(self)),
    ;
}

/// What replaces the parameters of a module. Each method relates the mapper
/// before and after it, and what it was given and gave back; a mapper that
/// leaves a relation out accepts every parameter and promises nothing.
pub trait ModuleMapper<C>: Sized {
    /// How the mapper changes when a part begins.
    open spec fn entered(
        pre: Self,
        name: Seq<char>,
        container_type: Seq<char>,
        post: Self,
    ) -> bool {
        true
    }

    /// How the mapper changes when a part ends.
    open spec fn exited(pre: Self, name: Seq<char>, container_type: Seq<char>, post: Self) -> bool {
        true
    }

    /// The parameters that the mapper can replace.
    open spec fn accepts(param: Param<Tensor<Float>, C>) -> bool {
        true
    }

    /// How the mapper changes at a parameter of real numbers, and replaces it.
    open spec fn float_mapped(
        pre: Self,
        param: Param<Tensor<Float>, C>,
        post: Self,
        out: Param<Tensor<Float>, C>,
    ) -> bool {
        true
    }

    /// How the mapper changes at a parameter of integers, and replaces it.
    open spec fn int_mapped(
        pre: Self,
        param: Param<Tensor<Int>, C>,
        post: Self,
        out: Param<Tensor<Int>, C>,
    ) -> bool {
        true
    }

    /// How the mapper changes at a parameter of truth values, and replaces it.
    open spec fn bool_mapped(
        pre: Self,
        param: Param<Tensor<Bool>, C>,
        post: Self,
        out: Param<Tensor<Bool>, C>,
    ) -> bool {
        true
    }

    /// Whether the factors of an adapted matrix are replaced one by one.
    open spec fn updates_lora(&self) -> bool {
        false
    }

    /// A part begins.
    fn enter_module(&mut self, name: &str, container_type: &str)
        ensures
            Self::entered(*old(self), name@, container_type@, *final(self)),
    ;

    /// A part ends.
    fn exit_module(&mut self, name: &str, container_type: &str)
        ensures
            Self::exited(*old(self), name@, container_type@, *final(self)),
    ;

    /// Replaces a parameter of real numbers.
    fn map_float(&mut self, param: Param<Tensor<Float>, C>) -> (out: Param<Tensor<Float>, C>)
        requires
            Self::accepts(param),
        ensures
            Self::float_mapped(*old(self), param, *final(self), out),
    ;

    /// Replaces a parameter of integers.
    fn map_int(&mut self, param: Param<Tensor<Int>, C>) -> (out: Param<Tensor<Int>, C>)
        ensures
            Self::int_mapped(*old(self), param, *final(self), out),
    ;

    /// Replaces a parameter of truth values.
    fn map_bool(&mut self, param: Param<Tensor<Bool>, C>) -> (out: Param<Tensor<Bool>, C>)
        ensures
            Self::bool_mapped(*old(self), param, *final(self), out),
    ;

    /// Tells whether the factors of an adapted matrix are replaced one by one.
    fn updates_lora_params(&self) -> (out: bool)
        ensures
            out == self.updates_lora(),
    ;
}

/// A tree of named parameters.
pub trait Module<C: LoraTransform<Tensor<Float>, C>>: Sized {
    /// What a mapper meets in the module, in order.
    spec fn events(&self) -> Seq<ModuleEvent<C>>;

    /// Runs a visitor over the module.
    fn visit<V: ModuleVisitor<C>>(&self, visitor: &mut V)
        requires
            visitable::<C, V>(trace(self.events())),
        ensures
            visited(trace(self.events()), *old(visitor), *final(visitor)),
    ;

    /// Runs a mapper over the module.
    fn map<M: ModuleMapper<C>>(self, mapper: &mut M) -> (out: Self)
        requires
            mappable(self.events(), *old(mapper)),
        ensures
            mapped(self.events(), *old(mapper), out.events(), *final(mapper)),
    ;
}

/// The factors of what adapts `param`, if it exposes both.
pub open spec fn factors<C: LoraTransform<Tensor<Float>, C>>(
    param: Param<Tensor<Float>, C>,
) -> Option<(Param<Tensor<Float>, C>, Param<Tensor<Float>, C>)> {
    match param.lora_transform {
        None => None,
        Some(transform) => match (transform.exposed_a(), transform.exposed_b()) {
            (Some(lora_a), Some(lora_b)) => Some((lora_a, lora_b)),
            _ => None,
        },
    }
}

/// What a visitor meets at `param`: the parameter, then its factors, if they are
/// exposed, as a part that is named `lora`.
pub open spec fn param_trace<C: LoraTransform<Tensor<Float>, C>>(
    param: Param<Tensor<Float>, C>,
) -> Seq<ModuleEvent<C>> {
    match factors(param) {
        None => seq![ModuleEvent::Float(param)],
        Some((lora_a, lora_b)) => seq![
            ModuleEvent::Float(param),
            ModuleEvent::Enter { name: "lora"@, container_type: "Struct:LoraState"@ },
            ModuleEvent::Float(lora_a),
            ModuleEvent::Float(lora_b),
            ModuleEvent::Exit { name: "lora"@, container_type: "Struct:LoraState"@ },
        ],
    }
}

/// What a visitor meets in a module where a mapper meets `events`.
pub open spec fn trace<C: LoraTransform<Tensor<Float>, C>>(
    events: Seq<ModuleEvent<C>>,
) -> Seq<ModuleEvent<C>>
    decreases events.len(),
{
    if events.len() == 0 {
        seq![]
    } else {
        trace(events.drop_last()) + match events.last() {
            ModuleEvent::Float(param) => param_trace(param),
            event => seq![event],
        }
    }
}

/// Whether a visitor of type `V` can look at all the parameters among `events`.
pub open spec fn visitable<C, V: ModuleVisitor<C>>(events: Seq<ModuleEvent<C>>) -> bool {
    forall|i: int|
        0 <= i < events.len() ==> (#[trigger] events[i] matches ModuleEvent::Float(param)
            ==> V::accepts(param))
}

/// How a visitor changes at one event.
pub open spec fn visit_step<C, V: ModuleVisitor<C>>(
    event: ModuleEvent<C>,
    pre: V,
    post: V,
) -> bool {
    match event {
        ModuleEvent::Enter { name, container_type } => V::entered(pre, name, container_type, post),
        ModuleEvent::Exit { name, container_type } => V::exited(pre, name, container_type, post),
        ModuleEvent::Float(param) => V::float_visited(pre, param, post),
        ModuleEvent::Int(param) => V::int_visited(pre, param, post),
        ModuleEvent::Bool(param) => V::bool_visited(pre, param, post),
    }
}

/// How a visitor changes over a sequence of events, one after the other.
pub open spec fn visited<C, V: ModuleVisitor<C>>(
    events: Seq<ModuleEvent<C>>,
    pre: V,
    post: V,
) -> bool
    decreases events.len(),
{
    if events.len() == 0 {
        pre == post
    } else {
        exists|mid: V|
            visited(events.drop_last(), pre, mid) && #[trigger] visit_step(
                events.last(),
                mid,
                post,
            )
    }
}

/// The matrix inside an adapted parameter, as it is handed to a mapper that
/// replaces its factors one by one.
pub open spec fn bare<C>(param: Param<Tensor<Float>, C>) -> Param<Tensor<Float>, C> {
    Param {
        id: param.id,
        state: ParamState::Initialized(param.original()),
        param_mapper: param.param_mapper,
        require_grad: false,
        lora_transform: None,
    }
}

/// The adapted parameter that is put together from the replaced matrix and the
/// replaced factors.
pub open spec fn reassembled<C: LoraTransform<Tensor<Float>, C>>(
    param: Param<Tensor<Float>, C>,
    base: Param<Tensor<Float>, C>,
    lora_a: Param<Tensor<Float>, C>,
    lora_b: Param<Tensor<Float>, C>,
) -> Param<Tensor<Float>, C> {
    Param {
        id: base.id,
        state: ParamState::Initialized(base.effective()),
        param_mapper: param.param_mapper,
        require_grad: base.effective().grad_of(),
        lora_transform: Some(Arc::new(param.lora_transform.unwrap().updated(lora_a, lora_b))),
    }
}

/// How a mapper changes at an adapted matrix whose factors it replaces one by
/// one, and what it gives. If the factors are not exposed, the parameter is
/// replaced as a whole.
pub open spec fn lora_mapped<C: LoraTransform<Tensor<Float>, C>, M: ModuleMapper<C>>(
    pre: M,
    param: Param<Tensor<Float>, C>,
    post: M,
    out: Param<Tensor<Float>, C>,
) -> bool {
    match factors(param) {
        None => M::float_mapped(pre, param, post, out),
        Some((lora_a, lora_b)) => exists|
            after_base: M,
            after_a: M,
            base: Param<Tensor<Float>, C>,
            new_a: Param<Tensor<Float>, C>,
            new_b: Param<Tensor<Float>, C>,
        |
            {
                &&& #[trigger] M::float_mapped(pre, bare(param), after_base, base)
                &&& #[trigger] M::float_mapped(after_base, lora_a, after_a, new_a)
                &&& #[trigger] M::float_mapped(after_a, lora_b, post, new_b)
                &&& out == reassembled(param, base, new_a, new_b)
            },
    }
}

/// Whether a mapper of type `M` can replace the matrix and the factors of
/// `param` one by one, or, if the factors are not exposed, `param` as a whole.
pub open spec fn lora_mappable<C: LoraTransform<Tensor<Float>, C>, M: ModuleMapper<C>>(
    param: Param<Tensor<Float>, C>,
) -> bool {
    match factors(param) {
        None => M::accepts(param),
        Some((lora_a, lora_b)) => {
            &&& param.readable()
            &&& M::accepts(bare(param))
            &&& M::accepts(lora_a)
            &&& M::accepts(lora_b)
            &&& forall|pre: M, post: M, base: Param<Tensor<Float>, C>| #[trigger]
                M::float_mapped(pre, bare(param), post, base) ==> base.adaptable()
        },
    }
}

/// Whether a mapper treats `param` as a matrix whose factors it replaces one by
/// one.
pub open spec fn maps_factors<C, M: ModuleMapper<C>>(
    mapper: M,
    param: Param<Tensor<Float>, C>,
) -> bool {
    mapper.updates_lora() && param.lazy_dims().len() == 2 && param.lora_transform is Some
}

/// How a mapper changes at a parameter of real numbers of a module, and what it
/// gives.
pub open spec fn param_mapped<C: LoraTransform<Tensor<Float>, C>, M: ModuleMapper<C>>(
    pre: M,
    param: Param<Tensor<Float>, C>,
    post: M,
    out: Param<Tensor<Float>, C>,
) -> bool {
    if maps_factors(pre, param) {
        lora_mapped(pre, param, post, out)
    } else {
        M::float_mapped(pre, param, post, out)
    }
}

/// Whether `mapper` can replace `param` in a module. Only a mapper that replaces
/// factors one by one needs to know the shape.
pub open spec fn param_mappable<C: LoraTransform<Tensor<Float>, C>, M: ModuleMapper<C>>(
    param: Param<Tensor<Float>, C>,
    mapper: M,
) -> bool {
    &&& mapper.updates_lora() ==> param.shaped()
    &&& if maps_factors(mapper, param) {
        lora_mappable::<C, M>(param)
    } else {
        M::accepts(param)
    }
}

/// How a mapper changes at one event, and what it makes of the event.
pub open spec fn map_step<C: LoraTransform<Tensor<Float>, C>, M: ModuleMapper<C>>(
    event: ModuleEvent<C>,
    pre: M,
    out: ModuleEvent<C>,
    post: M,
) -> bool {
    match event {
        ModuleEvent::Enter { name, container_type } => {
            &&& out == event
            &&& M::entered(pre, name, container_type, post)
        },
        ModuleEvent::Exit { name, container_type } => {
            &&& out == event
            &&& M::exited(pre, name, container_type, post)
        },
        ModuleEvent::Float(param) => {
            &&& out matches ModuleEvent::Float(new)
            &&& param_mapped(pre, param, post, new)
        },
        ModuleEvent::Int(param) => {
            &&& out matches ModuleEvent::Int(new)
            &&& M::int_mapped(pre, param, post, new)
        },
        ModuleEvent::Bool(param) => {
            &&& out matches ModuleEvent::Bool(new)
            &&& M::bool_mapped(pre, param, post, new)
        },
    }
}

/// How a mapper changes over a sequence of events, one after the other, and what
/// it makes of them.
pub open spec fn mapped<C: LoraTransform<Tensor<Float>, C>, M: ModuleMapper<C>>(
    events: Seq<ModuleEvent<C>>,
    pre: M,
    outs: Seq<ModuleEvent<C>>,
    post: M,
) -> bool
    decreases events.len(),
{
    if events.len() == 0 {
        outs.len() == 0 && pre == post
    } else {
        &&& outs.len() == events.len()
        &&& exists|mid: M|
            mapped(events.drop_last(), pre, outs.drop_last(), mid) && #[trigger] map_step(
                events.last(),
                mid,
                outs.last(),
                post,
            )
    }
}

/// Whether a mapper that starts as `pre` can replace all the parameters among
/// `events`: each of them, in whatever state the events before it leave the
/// mapper.
pub open spec fn mappable<C: LoraTransform<Tensor<Float>, C>, M: ModuleMapper<C>>(
    events: Seq<ModuleEvent<C>>,
    pre: M,
) -> bool {
    forall|i: int, outs: Seq<ModuleEvent<C>>, mid: M|
        0 <= i < events.len() && #[trigger] mapped(events.take(i), pre, outs, mid) ==> (
        events[i] matches ModuleEvent::Float(param) ==> param_mappable(param, mid))
}

/// Walking through one event after others is walking through all of them.
proof fn visited_push<C, V: ModuleVisitor<C>>(
    events: Seq<ModuleEvent<C>>,
    event: ModuleEvent<C>,
    pre: V,
    mid: V,
    post: V,
)
    requires
        visited(events, pre, mid),
        visit_step(event, mid, post),
    ensures
        visited(events.push(event), pre, post),
{
    assert(events.push(event).drop_last() == events);
    assert(visit_step(events.push(event).last(), mid, post));
}

/// Running a visitor over some events and then over others is running it over
/// all of them in a row.
pub proof fn visited_append<C, V: ModuleVisitor<C>>(
    first: Seq<ModuleEvent<C>>,
    second: Seq<ModuleEvent<C>>,
    pre: V,
    mid: V,
    post: V,
)
    requires
        visited(first, pre, mid),
        visited(second, mid, post),
    ensures
        visited(first + second, pre, post),
    decreases second.len(),
{
    if second.len() == 0 {
        assert(first + second == first);
    } else {
        let before = choose|before: V|
            visited(second.drop_last(), mid, before) && #[trigger] visit_step(
                second.last(),
                before,
                post,
            );
        visited_append(first, second.drop_last(), pre, mid, before);
        visited_push(first + second.drop_last(), second.last(), pre, before, post);
        assert((first + second.drop_last()).push(second.last()) == first + second);
    }
}

/// What a visitor meets in a row of parts is what it meets in each, in a row.
pub proof fn trace_append<C: LoraTransform<Tensor<Float>, C>>(
    first: Seq<ModuleEvent<C>>,
    second: Seq<ModuleEvent<C>>,
)
    ensures
        trace(first + second) == trace(first) + trace(second),
    decreases second.len(),
{
    if second.len() == 0 {
        assert(first + second == first);
        assert(trace(first) + trace(second) == trace(first));
    } else {
        trace_append(first, second.drop_last());
        assert((first + second).drop_last() == first + second.drop_last());
        assert((first + second).last() == second.last());
        assert(trace(first + second) == trace(first) + trace(second));
    }
}

/// What a visitor meets where a mapper meets one event.
proof fn trace_one<C: LoraTransform<Tensor<Float>, C>>(event: ModuleEvent<C>)
    ensures
        trace(seq![event]) == (match event {
            ModuleEvent::Float(param) => param_trace(param),
            event => seq![event],
        }),
{
    assert(seq![event].drop_last() == Seq::<ModuleEvent<C>>::empty());
    assert(trace(seq![event].drop_last()) == Seq::<ModuleEvent<C>>::empty());
}

/// A visitor at one event.
proof fn visited_one<C, V: ModuleVisitor<C>>(event: ModuleEvent<C>, pre: V, post: V)
    requires
        visit_step(event, pre, post),
    ensures
        visited(seq![event], pre, post),
{
    let none = Seq::<ModuleEvent<C>>::empty();
    assert(visited(none, pre, pre));
    visited_push(none, event, pre, pre, post);
    assert(none.push(event) == seq![event]);
}

/// A mapper at one event.
proof fn mapped_one<C: LoraTransform<Tensor<Float>, C>, M: ModuleMapper<C>>(
    event: ModuleEvent<C>,
    pre: M,
    out: ModuleEvent<C>,
    post: M,
)
    requires
        map_step(event, pre, out, post),
    ensures
        mapped(seq![event], pre, seq![out], post),
{
    let none = Seq::<ModuleEvent<C>>::empty();
    assert(mapped(none, pre, none, pre));
    assert(seq![event].drop_last() == none);
    assert(seq![out].drop_last() == none);
    assert(map_step(seq![event].last(), pre, seq![out].last(), post));
}

/// Running a mapper over some events and then over others is running it over all
/// of them in a row.
pub proof fn mapped_append<C: LoraTransform<Tensor<Float>, C>, M: ModuleMapper<C>>(
    first: Seq<ModuleEvent<C>>,
    second: Seq<ModuleEvent<C>>,
    pre: M,
    first_outs: Seq<ModuleEvent<C>>,
    mid: M,
    second_outs: Seq<ModuleEvent<C>>,
    post: M,
)
    requires
        mapped(first, pre, first_outs, mid),
        mapped(second, mid, second_outs, post),
    ensures
        mapped(first + second, pre, first_outs + second_outs, post),
    decreases second.len(),
{
    if second.len() == 0 {
        assert(first + second == first);
        assert(first_outs + second_outs == first_outs);
    } else {
        let before = choose|before: M|
            mapped(second.drop_last(), mid, second_outs.drop_last(), before)
                && #[trigger] map_step(
                second.last(),
                before,
                second_outs.last(),
                post,
            );
        mapped_append(
            first,
            second.drop_last(),
            pre,
            first_outs,
            mid,
            second_outs.drop_last(),
            before,
        );
        let all = first + second;
        let all_outs = first_outs + second_outs;
        assert(all.drop_last() == first + second.drop_last());
        assert(all_outs.drop_last() == first_outs + second_outs.drop_last());
        assert(map_step(all.last(), before, all_outs.last(), post));
    }
}

impl<C: LoraTransform<Tensor<Float>, C>> Module<C> for Param<Tensor<Float>, C> {
    open spec fn events(&self) -> Seq<ModuleEvent<C>> {
        seq![ModuleEvent::Float(*self)]
    }

    /// The visitor looks at the parameter and then, if they are exposed, at the
    /// factors of what adapts it.
    fn visit<V: ModuleVisitor<C>>(&self, visitor: &mut V) {
        let ghost start = *visitor;
        proof {
            trace_one(ModuleEvent::Float(*self));
            assert(trace(self.events())[0] == ModuleEvent::Float(*self));
        }
        visitor.visit_float(self);
        let ghost own = seq![ModuleEvent::Float(*self)];
        proof {
            visited_one(ModuleEvent::Float(*self), start, *visitor);
        }
        if let Some(transform) = &self.lora_transform {
            if let (Some(lora_a), Some(lora_b)) = (
                transform.lora_a_param(),
                transform.lora_b_param(),
            ) {
                let ghost met = trace(self.events());
                assert(factors(*self) == Some((*lora_a, *lora_b)));
                assert(met[2] == ModuleEvent::Float(*lora_a));
                assert(met[3] == ModuleEvent::Float(*lora_b));
                let ghost s1 = *visitor;
                visitor.enter_module("lora", "Struct:LoraState");
                let ghost s2 = *visitor;
                visitor.visit_float(lora_a);
                let ghost s3 = *visitor;
                visitor.visit_float(lora_b);
                let ghost s4 = *visitor;
                visitor.exit_module("lora", "Struct:LoraState");
                proof {
                    visited_push(own, met[1], start, s1, s2);
                    visited_push(own.push(met[1]), met[2], start, s2, s3);
                    visited_push(own.push(met[1]).push(met[2]), met[3], start, s3, s4);
                    visited_push(
                        own.push(met[1]).push(met[2]).push(met[3]),
                        met[4],
                        start,
                        s4,
                        *visitor,
                    );
                    assert(own.push(met[1]).push(met[2]).push(met[3]).push(met[4]) == met);
                }
            }
        }
    }

    /// An adapted matrix that exposes its factors is replaced factor by factor if
    /// the mapper asks for that. All else is replaced as a whole.
    fn map<M: ModuleMapper<C>>(self, mapper: &mut M) -> (out: Self) {
        let ghost start = *mapper;
        let ghost param = self;
        proof {
            let none = Seq::<ModuleEvent<C>>::empty();
            assert(self.events()[0] == ModuleEvent::Float(self));
            assert(self.events().take(0) == none);
            assert(mapped(self.events().take(0), start, none, start));
        }
        let out = if mapper.updates_lora_params() && self.lazy_rank() == 2
            && self.lora_transform.is_some() {
            self.map_float_lora(mapper)
        } else {
            mapper.map_float(self)
        };
        proof {
            mapped_one(ModuleEvent::Float(param), start, ModuleEvent::Float(out), *mapper);
        }
        out
    }
}

impl<C: LoraTransform<Tensor<Float>, C>> Module<C> for Param<Tensor<Int>, C> {
    open spec fn events(&self) -> Seq<ModuleEvent<C>> {
        seq![ModuleEvent::Int(*self)]
    }

    fn visit<V: ModuleVisitor<C>>(&self, visitor: &mut V) {
        let ghost start = *visitor;
        visitor.visit_int(self);
        proof {
            trace_one(ModuleEvent::<C>::Int(*self));
            visited_one(ModuleEvent::Int(*self), start, *visitor);
        }
    }

    fn map<M: ModuleMapper<C>>(self, mapper: &mut M) -> (out: Self) {
        let ghost start = *mapper;
        let ghost param = self;
        let out = mapper.map_int(self);
        proof {
            mapped_one(ModuleEvent::Int(param), start, ModuleEvent::Int(out), *mapper);
        }
        out
    }
}

impl<C: LoraTransform<Tensor<Float>, C>> Module<C> for Param<Tensor<Bool>, C> {
    open spec fn events(&self) -> Seq<ModuleEvent<C>> {
        seq![ModuleEvent::Bool(*self)]
    }

    fn visit<V: ModuleVisitor<C>>(&self, visitor: &mut V) {
        let ghost start = *visitor;
        visitor.visit_bool(self);
        proof {
            trace_one(ModuleEvent::<C>::Bool(*self));
            visited_one(ModuleEvent::Bool(*self), start, *visitor);
        }
    }

    fn map<M: ModuleMapper<C>>(self, mapper: &mut M) -> (out: Self) {
        let ghost start = *mapper;
        let ghost param = self;
        let out = mapper.map_bool(self);
        proof {
            mapped_one(ModuleEvent::Bool(param), start, ModuleEvent::Bool(out), *mapper);
        }
        out
    }
}

/// If a row of parts can be visited, so can each of them.
proof fn visitable_parts<C, V: ModuleVisitor<C>>(
    first: Seq<ModuleEvent<C>>,
    second: Seq<ModuleEvent<C>>,
)
    requires
        visitable::<C, V>(first + second),
    ensures
        visitable::<C, V>(first),
        visitable::<C, V>(second),
{
    let all = first + second;
    assert forall|i: int| 0 <= i < first.len() implies (#[trigger] first[i] matches
        ModuleEvent::Float(param) ==> V::accepts(param)) by {
        assert(all[i] == first[i]);
    }
    assert forall|i: int| 0 <= i < second.len() implies (#[trigger] second[i] matches
        ModuleEvent::Float(param) ==> V::accepts(param)) by {
        assert(all[first.len() + i] == second[i]);
    }
}

/// If a row of parts can be mapped, so can the first of them.
proof fn mappable_first<C: LoraTransform<Tensor<Float>, C>, M: ModuleMapper<C>>(
    first: Seq<ModuleEvent<C>>,
    second: Seq<ModuleEvent<C>>,
    pre: M,
)
    requires
        mappable(first + second, pre),
    ensures
        mappable(first, pre),
{
    let all = first + second;
    assert forall|i: int, outs: Seq<ModuleEvent<C>>, mid: M|
        0 <= i < first.len() && #[trigger] mapped(first.take(i), pre, outs, mid) implies (first[i]
        matches ModuleEvent::Float(param) ==> param_mappable(param, mid)) by {
        assert(all.take(i) == first.take(i));
        assert(all[i] == first[i]);
        assert(mapped(all.take(i), pre, outs, mid));
    }
}

/// If a row of parts can be mapped, so can the second, in the state that the
/// first leaves the mapper in.
proof fn mappable_second<C: LoraTransform<Tensor<Float>, C>, M: ModuleMapper<C>>(
    first: Seq<ModuleEvent<C>>,
    second: Seq<ModuleEvent<C>>,
    pre: M,
    first_outs: Seq<ModuleEvent<C>>,
    mid: M,
)
    requires
        mappable(first + second, pre),
        mapped(first, pre, first_outs, mid),
    ensures
        mappable(second, mid),
{
    let all = first + second;
    assert forall|i: int, outs: Seq<ModuleEvent<C>>, post: M|
        0 <= i < second.len() && #[trigger] mapped(second.take(i), mid, outs, post) implies (
    second[i] matches ModuleEvent::Float(param) ==> param_mappable(param, post)) by {
        mapped_append(first, second.take(i), pre, first_outs, mid, outs, post);
        assert(all.take(first.len() + i) == first + second.take(i));
        assert(all[first.len() + i] == second[i]);
        assert(mapped(all.take(first.len() + i), pre, first_outs + outs, post));
    }
}

impl<C: LoraTransform<Tensor<Float>, C>, A: Module<C>, B: Module<C>> Module<C> for (A, B) {
    /// One after the other.
    open spec fn events(&self) -> Seq<ModuleEvent<C>> {
        self.0.events() + self.1.events()
    }

    fn visit<V: ModuleVisitor<C>>(&self, visitor: &mut V) {
        let ghost first = self.0.events();
        let ghost second = self.1.events();
        proof {
            trace_append(first, second);
            visitable_parts::<C, V>(trace(first), trace(second));
        }
        let ghost start = *visitor;
        self.0.visit(visitor);
        let ghost mid = *visitor;
        self.1.visit(visitor);
        proof {
            visited_append(trace(first), trace(second), start, mid, *visitor);
        }
    }

    fn map<M: ModuleMapper<C>>(self, mapper: &mut M) -> (out: Self) {
        let ghost first = self.0.events();
        let ghost second = self.1.events();
        let ghost start = *mapper;
        proof {
            mappable_first(first, second, start);
        }
        let a = self.0.map(mapper);
        let ghost mid = *mapper;
        proof {
            mappable_second(first, second, start, a.events(), mid);
        }
        let b = self.1.map(mapper);
        proof {
            mapped_append(first, second, start, a.events(), mid, b.events(), *mapper);
        }
        (a, b)
    }
}

impl<C: LoraTransform<Tensor<Float>, C>, A: Module<C>> Module<C> for Option<A> {
    /// Nothing, if there is no module.
    open spec fn events(&self) -> Seq<ModuleEvent<C>> {
        match self {
            Some(module) => module.events(),
            None => seq![],
        }
    }

    fn visit<V: ModuleVisitor<C>>(&self, visitor: &mut V) {
        match self {
            Some(module) => module.visit(visitor),
            None => {},
        }
    }

    fn map<M: ModuleMapper<C>>(self, mapper: &mut M) -> (out: Self) {
        match self {
            Some(module) => Some(module.map(mapper)),
            None => None,
        }
    }
}

/// A named part of a module.
pub struct Field<A> {
    /// The name of the part.
    pub name: String,
    /// What the part belongs to.
    pub container_type: String,
    /// The part.
    pub module: A,
}

impl<A> Field<A> {
    /// Makes `module` a part named `name` of a `container_type`.
    pub fn new(name: &str, container_type: &str, module: A) -> (out: Self)
        ensures
            out.name@ == name@,
            out.container_type@ == container_type@,
            out.module == module,
    {
        Field { name: name.to_owned(), container_type: container_type.to_owned(), module }
    }
}

impl<C: LoraTransform<Tensor<Float>, C>, A: Module<C>> Module<C> for Field<A> {
    /// The part, between its beginning and its end.
    open spec fn events(&self) -> Seq<ModuleEvent<C>> {
        seq![
            ModuleEvent::Enter { name: self.name@, container_type: self.container_type@ },
        ] + self.module.events() + seq![
            ModuleEvent::Exit { name: self.name@, container_type: self.container_type@ },
        ]
    }

    fn visit<V: ModuleVisitor<C>>(&self, visitor: &mut V) {
        let ghost enter = ModuleEvent::<C>::Enter {
            name: self.name@,
            container_type: self.container_type@,
        };
        let ghost exit = ModuleEvent::<C>::Exit {
            name: self.name@,
            container_type: self.container_type@,
        };
        let ghost inner = self.module.events();
        proof {
            trace_append(seq![enter] + inner, seq![exit]);
            trace_append(seq![enter], inner);
            trace_one(enter);
            trace_one(exit);
            visitable_parts::<C, V>(seq![enter] + trace(inner), seq![exit]);
            visitable_parts::<C, V>(seq![enter], trace(inner));
        }
        let ghost s0 = *visitor;
        visitor.enter_module(self.name.as_str(), self.container_type.as_str());
        let ghost s1 = *visitor;
        self.module.visit(visitor);
        let ghost s2 = *visitor;
        visitor.exit_module(self.name.as_str(), self.container_type.as_str());
        proof {
            visited_one(enter, s0, s1);
            visited_append(seq![enter], trace(inner), s0, s1, s2);
            visited_one(exit, s2, *visitor);
            visited_append(seq![enter] + trace(inner), seq![exit], s0, s2, *visitor);
        }
    }

    fn map<M: ModuleMapper<C>>(self, mapper: &mut M) -> (out: Self) {
        let ghost enter = ModuleEvent::<C>::Enter {
            name: self.name@,
            container_type: self.container_type@,
        };
        let ghost exit = ModuleEvent::<C>::Exit {
            name: self.name@,
            container_type: self.container_type@,
        };
        let ghost inner = self.module.events();
        let ghost s0 = *mapper;
        proof {
            mappable_first(seq![enter] + inner, seq![exit], s0);
        }
        mapper.enter_module(self.name.as_str(), self.container_type.as_str());
        let ghost s1 = *mapper;
        proof {
            mapped_one(enter, s0, enter, s1);
            mappable_second(seq![enter], inner, s0, seq![enter], s1);
        }
        let module = self.module.map(mapper);
        let ghost s2 = *mapper;
        mapper.exit_module(self.name.as_str(), self.container_type.as_str());
        proof {
            mapped_append(seq![enter], inner, s0, seq![enter], s1, module.events(), s2);
            mapped_one(exit, s2, exit, *mapper);
            mapped_append(
                seq![enter] + inner,
                seq![exit],
                s0,
                seq![enter] + module.events(),
                s2,
                seq![exit],
                *mapper,
            );
        }
        Field { name: self.name, container_type: self.container_type, module }
    }
}

} // verus!
