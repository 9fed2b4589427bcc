//! Low-rank adaptation of a parameter.
//!
//! The value of an adapted parameter is `base + scaling * (lora_a @ lora_b)`,
//! where the factors `lora_a` and `lora_b` are parameters themselves, of a rank
//! that is small beside the sizes of `base`.

use std::sync::Arc;

use burn_tensor::Scalar;
use vstd::prelude::*;

use crate::param::base::{generate_id, Param, ParamId, ParamMapper, ParamState, Parameter};
use crate::tensor::{Device, Factor, Float, Tensor};

verus! {

/// What adapts the value of a parameter. Users of the library have their own
/// transforms implement this; the factors that a transform exposes may be
/// adapted too, by transforms of type `C`.
pub trait LoraTransform<T: Parameter, C>: Sized {
    /// The values that the transform is defined on.
    spec fn applies(&self, base: T) -> bool;

    /// The adapted value.
    spec fn applied(&self, base: T) -> T;

    /// Whether the transform has a rank.
    spec fn has_rank(&self) -> bool;

    /// The rank.
    spec fn rank_of(&self) -> usize;

    /// The first factor, if the transform exposes it.
    spec fn exposed_a(&self) -> Option<Param<T, C>>;

    /// The second factor, if the transform exposes it.
    spec fn exposed_b(&self) -> Option<Param<T, C>>;

    /// The transform with other factors.
    spec fn updated(&self, new_a: Param<T, C>, new_b: Param<T, C>) -> Self;

    /// Applies the transform to the base value.
    fn apply(&self, base: T) -> (out: T)
        requires
            self.applies(base),
        ensures
            out == self.applied(base),
    ;

    /// The rank of the decomposition.
    fn rank(&self) -> (out: usize)
        requires
            self.has_rank(),
        ensures
            out == self.rank_of(),
    ;

    /// The first factor, if the transform exposes it.
    fn lora_a_param(&self) -> (out: Option<&Param<T, C>>)
        ensures
            match out {
                Some(param) => self.exposed_a() == Some(*param),
                None => self.exposed_a() is None,
            },
    ;

    /// The second factor, if the transform exposes it.
    fn lora_b_param(&self) -> (out: Option<&Param<T, C>>)
        ensures
            match out {
                Some(param) => self.exposed_b() == Some(*param),
                None => self.exposed_b() is None,
            },
    ;

    /// The transform with other factors, as an optimizer leaves them.
    fn with_updated_params(&self, new_a: Param<T, C>, new_b: Param<T, C>) -> (out: Self)
        ensures
            out == self.updated(new_a, new_b),
    ;
}

/// The transform that leaves a value as it is and exposes nothing.
#[derive(Clone, Copy, Debug)]
pub struct NoTransform;

/// What adapts the value of a parameter.
#[verifier::reject_recursive_types(T)]
pub enum Transform<T, C> {
    /// A low-rank adaptation.
    Lora(LoraState<T, C>),
    /// A transform of the library's user.
    Custom(C),
}

/// A low-rank adaptation of a matrix.
#[verifier::reject_recursive_types(T)]
pub struct LoraState<T, C = NoTransform> {
    /// The factor of size `[in_features, rank]`.
    pub lora_a: Param<T, C>,
    /// The factor of size `[rank, out_features]`.
    pub lora_b: Param<T, C>,
    /// What the product of the factors is multiplied by.
    pub scaling: Factor,
}

/// `base + scaling * (lora_a @ lora_b)`.
pub open spec fn delta_added(
    base: Tensor<Float>,
    lora_a: Tensor<Float>,
    lora_b: Tensor<Float>,
    scaling: Factor,
) -> Tensor<Float> {
    base.plus_spec(lora_a.matmul_spec(lora_b).mul_scalar_spec(scaling))
}

/// Whether the scaled product of `lora_a` and `lora_b` can be added to `base`:
/// the three are on one device, `lora_a` has as many columns as `lora_b` has
/// rows, and the product has a size that can be added to `base`.
pub open spec fn delta_fits(
    base: Tensor<Float>,
    lora_a: Tensor<Float>,
    lora_b: Tensor<Float>,
) -> bool {
    &&& base.runs()
    &&& lora_a.can_matmul(lora_b)
    &&& base.device_spec() == lora_a.device_spec()
    &&& crate::shape::broadcastable(
        base.dims_spec(),
        seq![lora_a.dims_spec()[0], lora_b.dims_spec()[1]],
    )
}

/// The change that an adaptation makes to a matrix: the scaled product of
/// `lora_a`, of size `[in_features, rank]`, and `lora_b`, of size
/// `[rank, out_features]`. It has the size of the matrix,
/// `[in_features, out_features]`.
pub fn compute_delta(
    lora_a: &Tensor<Float>,
    lora_b: &Tensor<Float>,
    scaling: Factor,
) -> (out: Tensor<Float>)
    requires
        lora_a.can_matmul(*lora_b),
    ensures
        out == lora_a.matmul_spec(*lora_b).mul_scalar_spec(scaling),
        out.runs(),
        out.device_spec() == lora_a.device_spec(),
        out.dims_spec() == seq![lora_a.dims_spec()[0], lora_b.dims_spec()[1]],
{
    lora_a.clone().matmul(lora_b.clone()).mul_scalar(scaling)
}

impl<C> Param<Tensor<Float>, C> {
    /// The parameter with `transform` in place of the transform it had.
    pub open spec fn adapted_by(self, transform: Arc<Transform<Tensor<Float>, C>>) -> Self {
        Param { lora_transform: Some(transform), ..self }
    }

    /// Has `transform` adapt the value, in place of the transform it had.
    pub fn with_lora_transform(self, transform: Arc<Transform<Tensor<Float>, C>>) -> (out: Self)
        ensures
            out == self.adapted_by(transform),
    {
        Param {
            id: self.id,
            state: self.state,
            param_mapper: self.param_mapper,
            require_grad: self.require_grad,
            lora_transform: Some(transform),
        }
    }
}

impl<C: LoraTransform<Tensor<Float>, C>> Param<Tensor<Float>, C> {
    /// The value with all that adapts it.
    pub open spec fn effective(self) -> Tensor<Float>
        decreases self,
    {
        match self.lora_transform {
            None => self.original(),
            Some(transform) => match *transform {
                Transform::Lora(state) => delta_added(
                    self.original(),
                    state.lora_a.effective(),
                    state.lora_b.effective(),
                    state.scaling,
                ),
                Transform::Custom(custom) => custom.applied(self.original()),
            },
        }
    }

    /// Whether the value with all that adapts it can be formed.
    pub open spec fn adaptable(self) -> bool
        decreases self,
    {
        &&& self.readable()
        &&& self.effective().runs()
        &&& match self.lora_transform {
            None => true,
            Some(transform) => match *transform {
                Transform::Lora(state) => {
                    &&& state.lora_a.adaptable()
                    &&& state.lora_b.adaptable()
                    &&& delta_fits(
                        self.original(),
                        state.lora_a.effective(),
                        state.lora_b.effective(),
                    )
                },
                Transform::Custom(custom) => custom.applies(self.original()),
            },
        }
    }

    /// Gives the value with all that adapts it: the parameter's own value if no
    /// transform is attached.
    pub fn val(&self) -> (out: Tensor<Float>)
        requires
            self.adaptable(),
        ensures
            out == self.effective(),
            out.runs(),
            match self.lora_transform {
                None => out == self.original(),
                Some(transform) => out == transform.applied(self.original()),
            },
            self.lora_transform matches Some(transform) ==> (*transform matches Transform::Lora(
                state,
            ) ==> out == self.original().plus_spec(
                state.lora_a.effective().matmul_spec(state.lora_b.effective()).mul_scalar_spec(
                    state.scaling,
                ),
            )),
        decreases *self,
    {
        let base = self.val_original();
        match &self.lora_transform {
            None => base,
            Some(transform) => match &**transform {
                Transform::Lora(state) => {
                    let lora_a = state.lora_a.val();
                    let lora_b = state.lora_b.val();
                    base.plus(compute_delta(&lora_a, &lora_b, state.scaling))
                },
                Transform::Custom(custom) => custom.apply(base),
            },
        }
    }

    /// The parameter with what adapts it made part of its own value.
    pub open spec fn merged(self) -> Self {
        match self.lora_transform {
            None => self,
            Some(_) => Param { lora_transform: None, ..self.with_value(self.effective()) },
        }
    }

    /// Makes what adapts the value part of the parameter's own value. Without a
    /// transform, nothing happens.
    pub fn merge_lora(self) -> (out: Self)
        requires
            self.adaptable(),
        ensures
            out == self.merged(),
            out.lora_transform is None,
            out.adaptable(),
            out.effective() == self.effective(),
    {
        if self.lora_transform.is_none() {
            return self;
        }
        let value = self.val();
        let require_grad = value.is_require_grad();
        Param {
            id: self.id,
            state: ParamState::Initialized(value),
            param_mapper: self.param_mapper,
            require_grad,
            lora_transform: None,
        }
    }

    /// Takes the parameter apart: its identity, its value with all that adapts
    /// it, and what the value goes through when it is loaded and saved.
    pub fn consume(self) -> (out: (ParamId, Tensor<Float>, ParamMapper<Tensor<Float>>))
        requires
            self.adaptable(),
        ensures
            out == (self.id, self.effective(), self.param_mapper),
    {
        let value = self.val();
        (self.id, value, self.param_mapper)
    }
}

impl<C> LoraState<Tensor<Float>, C> {
    /// The adaptation of rank `rank` with these identities for its factors. The
    /// first factor is drawn at random, as the draw `key`, and scaled by the
    /// square root of `1 / in_features`; the second is zero.
    pub open spec fn drawn(
        key: u64,
        id_a: ParamId,
        id_b: ParamId,
        rank: usize,
        alpha: Scalar,
        in_features: usize,
        out_features: usize,
        device: Device,
    ) -> Self {
        LoraState {
            lora_a: Param::initialized_spec(
                id_a,
                Tensor::uniform_spec(key, in_features, rank, device).mul_scalar_spec(
                    Factor::InverseSqrt(in_features),
                ).with_grad(true),
            ),
            lora_b: Param::initialized_spec(
                id_b,
                Tensor::zeros_spec(rank, out_features, device).with_grad(true),
            ),
            scaling: Factor::Ratio { alpha, rank },
        }
    }

    /// Makes an adaptation of rank `rank`, given what chance decides: the draw
    /// of the first factor and the identities of both.
    pub fn from_draw(
        key: u64,
        id_a: ParamId,
        id_b: ParamId,
        rank: usize,
        alpha: Scalar,
        in_features: usize,
        out_features: usize,
        device: &Device,
    ) -> (out: Self)
        ensures
            out == Self::drawn(
                key,
                id_a,
                id_b,
                rank,
                alpha,
                in_features,
                out_features,
                *device,
            ),
            out.scaling == (Factor::Ratio { alpha, rank }),
            out.lora_a.id == id_a,
            out.lora_b.id == id_b,
            out.lora_a.original().runs(),
            out.lora_b.original().runs(),
            out.lora_a.original().dims_spec() == seq![in_features, rank],
            out.lora_b.original().dims_spec() == seq![rank, out_features],
            out.lora_a.original().device_spec() == *device,
            out.lora_b.original().device_spec() == *device,
            out.lora_a.require_grad == device.autodiff,
            out.lora_b.require_grad == device.autodiff,
    {
        let noise = Tensor::uniform(key, in_features, rank, device).mul_scalar(
            Factor::InverseSqrt(in_features),
        );
        let zeros = Tensor::zeros(rank, out_features, device);
        LoraState {
            lora_a: Param::initialized(id_a, noise.set_require_grad(true)),
            lora_b: Param::initialized(id_b, zeros.set_require_grad(true)),
            scaling: Factor::Ratio { alpha, rank },
        }
    }

    /// Makes an adaptation of rank `rank` for a matrix of size
    /// `[in_features, out_features]`, scaled by `alpha / rank`. The first factor
    /// is drawn at random; the second is zero, so that at first the matrix is
    /// left as it is.
    pub fn new(
        rank: usize,
        alpha: Scalar,
        in_features: usize,
        out_features: usize,
        device: &Device,
    ) -> (out: Self)
        ensures
            exists|key: u64| #[trigger]
                Self::drawn(
                    key,
                    out.lora_a.id,
                    out.lora_b.id,
                    rank,
                    alpha,
                    in_features,
                    out_features,
                    *device,
                ) == out,
            out.scaling == (Factor::Ratio { alpha, rank }),
            out.lora_a.original().runs(),
            out.lora_b.original().runs(),
            out.lora_a.original().dims_spec() == seq![in_features, rank],
            out.lora_b.original().dims_spec() == seq![rank, out_features],
            out.lora_a.original().device_spec() == *device,
            out.lora_b.original().device_spec() == *device,
            out.lora_a.require_grad == device.autodiff,
            out.lora_b.require_grad == device.autodiff,
    {
        let key = generate_id();
        let id_a = ParamId::new();
        let id_b = ParamId::new();
        let out = Self::from_draw(
            key,
            id_a,
            id_b,
            rank,
            alpha,
            in_features,
            out_features,
            device,
        );
        assert(Self::drawn(
            key,
            out.lora_a.id,
            out.lora_b.id,
            rank,
            alpha,
            in_features,
            out_features,
            *device,
        ) == out);
        out
    }

    /// The rank of the decomposition: the number of columns of the first
    /// factor's own value.
    pub fn rank(&self) -> (out: usize)
        requires
            self.lora_a.readable(),
            self.lora_a.original().runs(),
            self.lora_a.original().dims_spec().len() >= 2,
        ensures
            out == self.lora_a.original().dims_spec()[1],
    {
        self.lora_a.val_original().dims()[1]
    }
}

impl<C: LoraTransform<Tensor<Float>, C>> LoraTransform<Tensor<Float>, C> for LoraState<
    Tensor<Float>,
    C,
> {
    open spec fn applies(&self, base: Tensor<Float>) -> bool {
        &&& self.lora_a.adaptable()
        &&& self.lora_b.adaptable()
        &&& delta_fits(base, self.lora_a.effective(), self.lora_b.effective())
    }

    open spec fn applied(&self, base: Tensor<Float>) -> Tensor<Float> {
        delta_added(base, self.lora_a.effective(), self.lora_b.effective(), self.scaling)
    }

    open spec fn has_rank(&self) -> bool {
        &&& self.lora_a.readable()
        &&& self.lora_a.original().runs()
        &&& self.lora_a.original().dims_spec().len() >= 2
    }

    open spec fn rank_of(&self) -> usize {
        self.lora_a.original().dims_spec()[1]
    }

    open spec fn exposed_a(&self) -> Option<Param<Tensor<Float>, C>> {
        Some(self.lora_a)
    }

    open spec fn exposed_b(&self) -> Option<Param<Tensor<Float>, C>> {
        Some(self.lora_b)
    }

    open spec fn updated(
        &self,
        new_a: Param<Tensor<Float>, C>,
        new_b: Param<Tensor<Float>, C>,
    ) -> Self {
        LoraState { lora_a: new_a, lora_b: new_b, scaling: self.scaling }
    }

    fn apply(&self, base: Tensor<Float>) -> (out: Tensor<Float>) {
        let lora_a = self.lora_a.val();
        let lora_b = self.lora_b.val();
        base.plus(compute_delta(&lora_a, &lora_b, self.scaling))
    }

    fn rank(&self) -> (out: usize) {
        self.lora_a.val_original().dims()[1]
    }

    fn lora_a_param(&self) -> (out: Option<&Param<Tensor<Float>, C>>) {
        Some(&self.lora_a)
    }

    fn lora_b_param(&self) -> (out: Option<&Param<Tensor<Float>, C>>) {
        Some(&self.lora_b)
    }

    fn with_updated_params(
        &self,
        new_a: Param<Tensor<Float>, C>,
        new_b: Param<Tensor<Float>, C>,
    ) -> (out: Self) {
        LoraState { lora_a: new_a, lora_b: new_b, scaling: self.scaling }
    }
}

impl<C: LoraTransform<Tensor<Float>, C>> LoraTransform<Tensor<Float>, C> for Transform<
    Tensor<Float>,
    C,
> {
    open spec fn applies(&self, base: Tensor<Float>) -> bool {
        match self {
            Transform::Lora(state) => state.applies(base),
            Transform::Custom(custom) => custom.applies(base),
        }
    }

    open spec fn applied(&self, base: Tensor<Float>) -> Tensor<Float> {
        match self {
            Transform::Lora(state) => state.applied(base),
            Transform::Custom(custom) => custom.applied(base),
        }
    }

    open spec fn has_rank(&self) -> bool {
        match self {
            Transform::Lora(state) => state.has_rank(),
            Transform::Custom(custom) => custom.has_rank(),
        }
    }

    open spec fn rank_of(&self) -> usize {
        match self {
            Transform::Lora(state) => state.rank_of(),
            Transform::Custom(custom) => custom.rank_of(),
        }
    }

    open spec fn exposed_a(&self) -> Option<Param<Tensor<Float>, C>> {
        match self {
            Transform::Lora(state) => state.exposed_a(),
            Transform::Custom(custom) => custom.exposed_a(),
        }
    }

    open spec fn exposed_b(&self) -> Option<Param<Tensor<Float>, C>> {
        match self {
            Transform::Lora(state) => state.exposed_b(),
            Transform::Custom(custom) => custom.exposed_b(),
        }
    }

    open spec fn updated(
        &self,
        new_a: Param<Tensor<Float>, C>,
        new_b: Param<Tensor<Float>, C>,
    ) -> Self {
        match self {
            Transform::Lora(state) => Transform::Lora(state.updated(new_a, new_b)),
            Transform::Custom(custom) => Transform::Custom(custom.updated(new_a, new_b)),
        }
    }

    fn apply(&self, base: Tensor<Float>) -> (out: Tensor<Float>) {
        match self {
            Transform::Lora(state) => state.apply(base),
            Transform::Custom(custom) => custom.apply(base),
        }
    }

    fn rank(&self) -> (out: usize) {
        match self {
            Transform::Lora(state) => state.rank(),
            Transform::Custom(custom) => custom.rank(),
        }
    }

    fn lora_a_param(&self) -> (out: Option<&Param<Tensor<Float>, C>>) {
        match self {
            Transform::Lora(state) => state.lora_a_param(),
            Transform::Custom(custom) => custom.lora_a_param(),
        }
    }

    fn lora_b_param(&self) -> (out: Option<&Param<Tensor<Float>, C>>) {
        match self {
            Transform::Lora(state) => state.lora_b_param(),
            Transform::Custom(custom) => custom.lora_b_param(),
        }
    }

    fn with_updated_params(
        &self,
        new_a: Param<Tensor<Float>, C>,
        new_b: Param<Tensor<Float>, C>,
    ) -> (out: Self) {
        match self {
            Transform::Lora(state) => Transform::Lora(state.with_updated_params(new_a, new_b)),
            Transform::Custom(custom) => Transform::Custom(
                custom.with_updated_params(new_a, new_b),
            ),
        }
    }
}

impl LoraTransform<Tensor<Float>, NoTransform> for NoTransform {
    open spec fn applies(&self, base: Tensor<Float>) -> bool {
        true
    }

    open spec fn applied(&self, base: Tensor<Float>) -> Tensor<Float> {
        base
    }

    open spec fn has_rank(&self) -> bool {
        true
    }

    open spec fn rank_of(&self) -> usize {
        0
    }

    open spec fn exposed_a(&self) -> Option<Param<Tensor<Float>, NoTransform>> {
        None
    }

    open spec fn exposed_b(&self) -> Option<Param<Tensor<Float>, NoTransform>> {
        None
    }

    open spec fn updated(
        &self,
        new_a: Param<Tensor<Float>, NoTransform>,
        new_b: Param<Tensor<Float>, NoTransform>,
    ) -> Self {
        NoTransform
    }

    fn apply(&self, base: Tensor<Float>) -> (out: Tensor<Float>) {
        base
    }

    fn rank(&self) -> (out: usize) {
        0
    }

    fn lora_a_param(&self) -> (out: Option<&Param<Tensor<Float>, NoTransform>>) {
        None
    }

    fn lora_b_param(&self) -> (out: Option<&Param<Tensor<Float>, NoTransform>>) {
        None
    }

    fn with_updated_params(
        &self,
        new_a: Param<Tensor<Float>, NoTransform>,
        new_b: Param<Tensor<Float>, NoTransform>,
    ) -> (out: Self) {
        NoTransform
    }
}

} // verus!
