//! What all parameters have in common, whatever the kind of their tensor.

use std::sync::Arc;

use burn_tensor::Shape;
use vstd::prelude::*;

use crate::param::lora::{NoTransform, Transform};
use crate::tensor::{Bool, Device, Float, Int, Node, Requirement, Tensor};

verus! {

/// Calls `burn_std::id::IdGenerator::generate`, which draws 64 random bits.
/// Nothing is promised of the number.
#[verifier::external_body]
pub(crate) fn generate_id() -> u64 {
    burn_std::id::IdGenerator::generate()
}

/// The identity of a parameter, by which an optimizer finds its gradient.
#[derive(Clone, Copy, Debug, PartialEq, Eq, Structural)]
pub struct ParamId {
    /// The number that stands for it.
    pub value: u64,
}

impl ParamId {
    /// A new identity, drawn at random: any number may come.
    pub fn new() -> ParamId {
        ParamId::from_value(generate_id())
    }

    /// The identity that `value` stands for.
    pub fn from_value(value: u64) -> (out: ParamId)
        ensures
            out.value == value,
    {
        ParamId { value }
    }
}

/// A value that can be the value of a parameter.
pub trait Parameter: Sized {
    /// The device that the value lives on.
    spec fn device_of(&self) -> Device;

    /// Whether the gradient of the value is wanted.
    spec fn grad_of(&self) -> bool;

    /// Whether the wish for a gradient can be set to `require_grad`.
    spec fn can_set_grad(&self, require_grad: bool) -> bool;

    /// The value with the wish for a gradient set to `require_grad`.
    spec fn with_grad(self, require_grad: bool) -> Self;

    /// Another handle on the same value.
    fn share(&self) -> (out: Self)
        ensures
            out == *self,
    ;

    /// The device that the value lives on.
    fn device(&self) -> (out: Device)
        ensures
            out == self.device_of(),
    ;

    /// Whether the gradient of the value is wanted.
    fn is_require_grad(&self) -> (out: bool)
        ensures
            out == self.grad_of(),
    ;

    /// Sets whether the gradient of the value is wanted.
    fn set_require_grad(self, require_grad: bool) -> (out: Self)
        requires
            self.can_set_grad(require_grad),
        ensures
            out == self.with_grad(require_grad),
    ;
}

impl Parameter for Tensor<Float> {
    open spec fn device_of(&self) -> Device {
        self.device_spec()
    }

    open spec fn grad_of(&self) -> bool {
        self.node.requirement_spec() == Requirement::Leaf
    }

    /// Where operations are recorded, the result of tracked operations cannot
    /// become a leaf.
    open spec fn can_set_grad(&self, require_grad: bool) -> bool {
        &&& self.runs()
        &&& require_grad && self.device_spec().autodiff ==> self.node.requirement_spec()
            != Requirement::Derived
    }

    /// Without autodiff, nothing happens. A leaf that stays one is kept.
    open spec fn with_grad(self, require_grad: bool) -> Self {
        if !self.device_spec().autodiff {
            self
        } else if !require_grad {
            Tensor::of(Node::Untrack(self.node))
        } else if self.node.requirement_spec() == Requirement::Leaf {
            self
        } else {
            Tensor::of(Node::RequireGrad(self.node))
        }
    }

    fn share(&self) -> (out: Self) {
        self.clone()
    }

    fn device(&self) -> (out: Device) {
        self.node.device()
    }

    fn is_require_grad(&self) -> (out: bool) {
        self.node.requirement() == Requirement::Leaf
    }

    fn set_require_grad(self, require_grad: bool) -> (out: Self)
        ensures
            out.runs(),
            out.dims_spec() == self.dims_spec(),
            out.device_spec() == self.device_spec(),
            out.grad_of() == (require_grad && self.device_spec().autodiff),
    {
        proof {
            if !self.device_spec().autodiff {
                crate::tensor::untracked_without_autodiff(&*self.node);
            }
        }
        if !self.node.device().autodiff {
            self
        } else if !require_grad {
            Tensor::from_node(Node::Untrack(self.node))
        } else if self.node.requirement() == Requirement::Leaf {
            self
        } else {
            Tensor::from_node(Node::RequireGrad(self.node))
        }
    }
}

impl Parameter for Tensor<Int> {
    open spec fn device_of(&self) -> Device {
        self.device_spec()
    }

    open spec fn grad_of(&self) -> bool {
        false
    }

    open spec fn can_set_grad(&self, require_grad: bool) -> bool {
        true
    }

    /// Integers have no gradients.
    open spec fn with_grad(self, require_grad: bool) -> Self {
        self
    }

    fn share(&self) -> (out: Self) {
        self.clone()
    }

    fn device(&self) -> (out: Device) {
        self.node.device()
    }

    fn is_require_grad(&self) -> (out: bool) {
        false
    }

    fn set_require_grad(self, require_grad: bool) -> (out: Self) {
        self
    }
}

impl Parameter for Tensor<Bool> {
    open spec fn device_of(&self) -> Device {
        self.device_spec()
    }

    open spec fn grad_of(&self) -> bool {
        false
    }

    open spec fn can_set_grad(&self, require_grad: bool) -> bool {
        true
    }

    /// Truth values have no gradients.
    open spec fn with_grad(self, require_grad: bool) -> Self {
        self
    }

    fn share(&self) -> (out: Self) {
        self.clone()
    }

    fn device(&self) -> (out: Device) {
        self.node.device()
    }

    fn is_require_grad(&self) -> (out: bool) {
        false
    }

    fn set_require_grad(self, require_grad: bool) -> (out: Self) {
        self
    }
}

/// A function that a user has a parameter's value go through.
pub trait TensorMap<T> {
    /// The values that the function is defined on.
    spec fn accepts(&self, value: T) -> bool;

    /// What the function gives.
    spec fn mapped(&self, value: T) -> T;

    /// Applies the function.
    fn map(&self, value: T) -> (out: T)
        requires
            self.accepts(value),
        ensures
            out == self.mapped(value),
    ;
}

/// The functions that a parameter's value goes through when it is loaded and
/// when it is saved.
#[verifier::reject_recursive_types(T)]
pub struct ParamMapper<T> {
    /// Applied to a value that is loaded.
    pub load: Option<Arc<Box<dyn TensorMap<T>>>>,
    /// Applied to a value that is saved.
    pub save: Option<Arc<Box<dyn TensorMap<T>>>>,
}

impl<T> ParamMapper<T> {
    /// The mapper that changes nothing.
    pub open spec fn identity_spec() -> Self {
        ParamMapper { load: None, save: None }
    }

    /// The mapper that changes nothing.
    pub fn identity() -> (out: Self)
        ensures
            out == Self::identity_spec(),
    {
        ParamMapper { load: None, save: None }
    }

    /// Another handle on the same mapper.
    pub fn share(&self) -> (out: Self)
        ensures
            out == *self,
    {
        ParamMapper {
            load: match &self.load {
                Some(map) => Some(map.clone()),
                None => None,
            },
            save: match &self.save {
                Some(map) => Some(map.clone()),
                None => None,
            },
        }
    }

    /// Whether `value` can be loaded.
    pub open spec fn loads(self, value: T) -> bool {
        self.load matches Some(map) ==> map.accepts(value)
    }

    /// What `value` is loaded as.
    pub open spec fn loaded(self, value: T) -> T {
        match self.load {
            Some(map) => map.mapped(value),
            None => value,
        }
    }

    /// Applies the function for loading.
    pub fn on_load(&self, value: T) -> (out: T)
        requires
            self.loads(value),
        ensures
            out == self.loaded(value),
    {
        match &self.load {
            Some(map) => map.map(value),
            None => value,
        }
    }

    /// Whether `value` can be saved.
    pub open spec fn saves(self, value: T) -> bool {
        self.save matches Some(map) ==> map.accepts(value)
    }

    /// What `value` is saved as.
    pub open spec fn saved(self, value: T) -> T {
        match self.save {
            Some(map) => map.mapped(value),
            None => value,
        }
    }

    /// Applies the function for saving.
    pub fn on_save(&self, value: T) -> (out: T)
        requires
            self.saves(value),
        ensures
            out == self.saved(value),
    {
        match &self.save {
            Some(map) => map.map(value),
            None => value,
        }
    }
}

/// What is known of a value that has not been initialised.
pub struct Uninitialized<T> {
    /// The value that initialisation gives, before the wish for a gradient.
    pub init: T,
    /// The device that it will live on.
    pub device: Device,
    /// Whether its gradient will be wanted.
    pub is_require_grad: bool,
    /// The shape that it will have.
    pub shape: Arc<Shape>,
}

/// The value of a parameter, or how to get it.
pub enum ParamState<T> {
    /// The value.
    Initialized(T),
    /// How to initialise it.
    Uninitialized(Uninitialized<T>),
}

/// A parameter. The transforms that a user of the library adds to its own are
/// of type `C`.
#[verifier::reject_recursive_types(T)]
pub struct Param<T, C = NoTransform> {
    /// The identity of the parameter.
    pub id: ParamId,
    /// The value.
    pub state: ParamState<T>,
    /// What the value goes through when it is loaded and saved.
    pub param_mapper: ParamMapper<T>,
    /// Whether the gradient is wanted, also while the value is held on a backend
    /// without gradients.
    pub require_grad: bool,
    /// What adapts the value.
    pub lora_transform: Option<Arc<Transform<T, C>>>,
}

impl<T: Parameter, C> Clone for Param<T, C> {
    /// The same parameter: what it holds is shared.
    fn clone(&self) -> (out: Self)
        ensures
            out == *self,
    {
        Param {
            id: self.id,
            state: match &self.state {
                ParamState::Initialized(value) => ParamState::Initialized(value.share()),
                ParamState::Uninitialized(lazy) => ParamState::Uninitialized(
                    Uninitialized {
                        init: lazy.init.share(),
                        device: lazy.device,
                        is_require_grad: lazy.is_require_grad,
                        shape: lazy.shape.clone(),
                    },
                ),
            },
            param_mapper: self.param_mapper.share(),
            require_grad: self.require_grad,
            lora_transform: self.share_transform(),
        }
    }
}

impl<T: Parameter, C> Param<T, C> {
    /// The parameter that holds `value`, with nothing attached.
    pub open spec fn initialized_spec(id: ParamId, value: T) -> Self {
        Param {
            id,
            state: ParamState::Initialized(value),
            param_mapper: ParamMapper::identity_spec(),
            require_grad: value.grad_of(),
            lora_transform: None,
        }
    }

    /// Makes a parameter that holds `value`, with nothing attached.
    pub fn initialized(id: ParamId, value: T) -> (out: Self)
        ensures
            out == Self::initialized_spec(id, value),
    {
        let require_grad = value.is_require_grad();
        Param {
            id,
            state: ParamState::Initialized(value),
            param_mapper: ParamMapper::identity(),
            require_grad,
            lora_transform: None,
        }
    }

    /// Makes a parameter that is initialised when its value is first wanted:
    /// as `init`, with the wish for a gradient set to `is_require_grad`.
    pub fn uninitialized(
        id: ParamId,
        init: T,
        device: Device,
        is_require_grad: bool,
        shape: Shape,
    ) -> (out: Self)
        ensures
            out == (Param::<T, C> {
                id,
                state: ParamState::Uninitialized(
                    Uninitialized { init, device, is_require_grad, shape: Arc::new(shape) },
                ),
                param_mapper: ParamMapper::identity_spec(),
                require_grad: is_require_grad,
                lora_transform: None,
            }),
    {
        Param {
            id,
            state: ParamState::Uninitialized(
                Uninitialized { init, device, is_require_grad, shape: Arc::new(shape) },
            ),
            param_mapper: ParamMapper::identity(),
            require_grad: is_require_grad,
            lora_transform: None,
        }
    }

    /// Whether the value, if it has to be initialised, can be.
    pub open spec fn readable(self) -> bool {
        self.state matches ParamState::Uninitialized(lazy) ==> lazy.init.can_set_grad(
            lazy.is_require_grad,
        )
    }

    /// The value of the parameter itself, without what adapts it.
    pub open spec fn original(self) -> T {
        match self.state {
            ParamState::Initialized(value) => value,
            ParamState::Uninitialized(lazy) => lazy.init.with_grad(lazy.is_require_grad),
        }
    }

    /// Gives the value of the parameter itself, without what adapts it. A value
    /// that has not been initialised is formed for the caller; what is recorded of
    /// it in the parameter stays.
    pub fn val_original(&self) -> (out: T)
        requires
            self.readable(),
        ensures
            out == self.original(),
    {
        match &self.state {
            ParamState::Initialized(value) => value.share(),
            ParamState::Uninitialized(lazy) => lazy.init.share().set_require_grad(
                lazy.is_require_grad,
            ),
        }
    }

    /// Whether the gradient of the parameter's own value is wanted.
    pub fn is_require_grad(&self) -> (out: bool)
        requires
            self.readable(),
        ensures
            out == self.original().grad_of(),
    {
        self.val_original().is_require_grad()
    }

    /// The device of the value, without initialising it.
    pub open spec fn lazy_device_spec(self) -> Device {
        match self.state {
            ParamState::Initialized(value) => value.device_of(),
            ParamState::Uninitialized(lazy) => lazy.device,
        }
    }

    /// Gives the device of the value, without initialising it.
    pub fn lazy_device(&self) -> (out: Device)
        ensures
            out == self.lazy_device_spec(),
    {
        match &self.state {
            ParamState::Initialized(value) => value.device(),
            ParamState::Uninitialized(lazy) => lazy.device,
        }
    }

    /// Whether the gradient is wanted, without initialising the value.
    pub open spec fn lazy_grad_spec(self) -> bool {
        match self.state {
            ParamState::Initialized(value) => value.grad_of(),
            ParamState::Uninitialized(lazy) => lazy.is_require_grad,
        }
    }

    /// Tells whether the gradient is wanted, without initialising the value.
    pub fn lazy_is_require_grad(&self) -> (out: bool)
        ensures
            out == self.lazy_grad_spec(),
    {
        match &self.state {
            ParamState::Initialized(value) => value.is_require_grad(),
            ParamState::Uninitialized(lazy) => lazy.is_require_grad,
        }
    }

    /// Tells whether a transform adapts the value.
    pub fn has_lora(&self) -> (out: bool)
        ensures
            out == self.lora_transform is Some,
    {
        self.lora_transform.is_some()
    }

    /// Another handle on the same transform.
    pub(crate) fn share_transform(&self) -> (out: Option<Arc<Transform<T, C>>>)
        ensures
            out == self.lora_transform,
    {
        match &self.lora_transform {
            Some(transform) => Some(transform.clone()),
            None => None,
        }
    }

    /// Takes the parameter apart: its identity, its own value, what the value
    /// goes through when it is loaded and saved, and what adapts it.
    pub fn into_parts(self) -> (out: (
        ParamId,
        T,
        ParamMapper<T>,
        Option<Arc<Transform<T, C>>>,
    ))
        requires
            self.readable(),
        ensures
            out == (self.id, self.original(), self.param_mapper, self.lora_transform),
    {
        let value = self.val_original();
        (self.id, value, self.param_mapper, self.lora_transform)
    }

    /// The parameter with `value` as its own value.
    pub open spec fn with_value(self, value: T) -> Self {
        Param {
            state: ParamState::Initialized(value),
            require_grad: value.grad_of(),
            ..self
        }
    }

    /// Replaces the parameter's own value by what `func` gives for it.
    pub fn map<F: FnOnce(T) -> T>(self, func: F) -> (out: Self)
        requires
            self.readable(),
            func.requires((self.original(),)),
        ensures
            exists|value: T| #[trigger]
                func.ensures((self.original(),), value) && out == self.with_value(value),
    {
        let (id, value, param_mapper, lora_transform) = self.into_parts();
        let value = func(value);
        let require_grad = value.is_require_grad();
        Param {
            id,
            state: ParamState::Initialized(value),
            param_mapper,
            require_grad,
            lora_transform,
        }
    }

    /// Whether the wish for a gradient can be set to `require_grad`.
    pub open spec fn can_set_require_grad(self, require_grad: bool) -> bool {
        self.state matches ParamState::Initialized(value) ==> value.can_set_grad(require_grad)
    }

    /// The parameter with the wish for a gradient set to `require_grad`.
    pub open spec fn with_require_grad(self, require_grad: bool) -> Self {
        match self.state {
            ParamState::Initialized(value) => self.with_value(value.with_grad(require_grad)),
            ParamState::Uninitialized(lazy) => Param {
                state: ParamState::Uninitialized(
                    Uninitialized { is_require_grad: require_grad, ..lazy },
                ),
                require_grad,
                ..self
            },
        }
    }

    /// Sets whether the gradient is wanted. This does not initialise the value.
    pub fn set_require_grad(self, require_grad: bool) -> (out: Self)
        requires
            self.can_set_require_grad(require_grad),
        ensures
            out == self.with_require_grad(require_grad),
    {
        match self.state {
            ParamState::Initialized(value) => {
                let value = value.set_require_grad(require_grad);
                let wanted = value.is_require_grad();
                Param {
                    id: self.id,
                    state: ParamState::Initialized(value),
                    param_mapper: self.param_mapper,
                    require_grad: wanted,
                    lora_transform: self.lora_transform,
                }
            },
            ParamState::Uninitialized(lazy) => Param {
                id: self.id,
                state: ParamState::Uninitialized(
                    Uninitialized {
                        init: lazy.init,
                        device: lazy.device,
                        is_require_grad: require_grad,
                        shape: lazy.shape,
                    },
                ),
                param_mapper: self.param_mapper,
                require_grad,
                lora_transform: self.lora_transform,
            },
        }
    }

    /// Gives up the gradient.
    pub fn no_grad(self) -> (out: Self)
        requires
            self.can_set_require_grad(false),
        ensures
            out == self.with_require_grad(false),
    {
        self.set_require_grad(false)
    }
}

} // verus!
