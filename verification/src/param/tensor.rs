//! Parameters whose values are tensors.

use std::sync::Arc;

use burn_tensor::{Scalar, Shape, TensorData};
use vstd::prelude::*;
use vstd::string::StringExecFns;

use crate::module::{bare, factors, lora_mappable, lora_mapped, reassembled, ModuleMapper};
use crate::param::base::{Param, ParamId, ParamMapper, ParamState, Parameter};
use crate::param::lora::{LoraState, LoraTransform, Transform};
use crate::shape::{clone_shape, shape_dims2, shape_to_vec};
use crate::tensor::{Bool, Device, Factor, Float, Int, Node, Tensor};
use crate::text::{comma_list, decimal, push_comma_list, push_decimal};

verus! {

/// The text that describes a parameter: its rank, its dimensions, the kind of its
/// elements and, where it is to be shown, its identity.
pub open spec fn described(
    dims: Seq<usize>,
    kind: Seq<char>,
    id: Option<Seq<char>>,
) -> Seq<char> {
    "ParamTensor {rank: "@ + decimal(dims.len()) + ", shape: ["@ + comma_list(dims) + "], kind: "@
        + kind + (match id {
        Some(id) => ", id: "@ + id,
        None => seq![],
    }) + "}"@
}

fn describe(dims: &Vec<usize>, kind: &str, id: Option<&str>) -> (text: String)
    ensures
        text@ == described(
            dims@,
            kind@,
            match id {
                Some(id) => Some(id@),
                None => None,
            },
        ),
{
    let mut text = String::new();
    text.append("ParamTensor {rank: ");
    push_decimal(&mut text, dims.len());
    text.append(", shape: [");
    push_comma_list(&mut text, dims);
    text.append("], kind: ");
    text.append(kind);
    if let Some(id) = id {
        text.append(", id: ");
        text.append(id);
    }
    text.append("}");
    text
}

/// The devices with `device` among them: at the end, if it was not.
pub open spec fn with_device(devices: Seq<Device>, device: Device) -> Seq<Device> {
    if devices.contains(device) {
        devices
    } else {
        devices.push(device)
    }
}

fn add_device(devices: Vec<Device>, device: Device) -> (out: Vec<Device>)
    ensures
        out@ == with_device(devices@, device),
{
    for i in 0..devices.len()
        invariant
            forall|k: int| 0 <= k < i ==> devices@[k] != device,
    {
        if devices[i] == device {
            return devices;
        }
    }
    let mut devices = devices;
    devices.push(device);
    devices
}

impl<K, C> Param<Tensor<K>, C> {
    /// Whether the value, if it is initialised, can be evaluated.
    pub open spec fn shaped(self) -> bool {
        self.state matches ParamState::Initialized(value) ==> value.runs()
    }

    /// The dimensions of the value, without initialising it.
    pub open spec fn lazy_dims(self) -> Seq<usize> {
        match self.state {
            ParamState::Initialized(value) => value.dims_spec(),
            ParamState::Uninitialized(lazy) => crate::shape::shape_dims(*lazy.shape),
        }
    }
}

impl<C> Param<Tensor<Float>, C> {
    /// Makes a parameter from a tensor, with a new identity. Its gradient is
    /// wanted, so that an optimizer can update it.
    pub fn from_tensor(value: Tensor<Float>) -> (out: Self)
        requires
            value.can_set_grad(true),
        ensures
            out == Self::initialized_spec(out.id, value.with_grad(true)),
            out.original().runs(),
            out.lazy_dims() == value.dims_spec(),
            out.lazy_device_spec() == value.device_spec(),
            out.require_grad == value.device_spec().autodiff,
    {
        Param::initialized(ParamId::new(), value.set_require_grad(true))
    }

    /// The shape of the parameter, without initialising it.
    pub fn lazy_shape(&self) -> (out: Shape)
        requires
            self.shaped(),
        ensures
            crate::shape::shape_dims(out) == self.lazy_dims(),
    {
        match &self.state {
            ParamState::Initialized(value) => value.shape(),
            ParamState::Uninitialized(lazy) => clone_shape(&*lazy.shape),
        }
    }

    /// The number of dimensions of the parameter, without initialising it.
    pub fn lazy_rank(&self) -> (out: usize)
        requires
            self.shaped(),
        ensures
            out == self.lazy_dims().len(),
    {
        shape_to_vec(&self.lazy_shape()).len()
    }

    /// Makes a parameter from data, with a new identity. Its gradient is wanted,
    /// so that an optimizer can update it.
    pub fn from_data(data: TensorData, device: &Device) -> (out: Self)
        ensures
            out == Self::initialized_spec(
                out.id,
                Tensor::<Float>::of(Node::Data { data, device: *device }).with_grad(true),
            ),
            out.original().runs(),
            out.lazy_dims() == crate::shape::data_dims(data),
            out.lazy_device_spec() == *device,
            out.require_grad == device.autodiff,
    {
        let value = Tensor::from_data(data, device);
        Param::initialized(ParamId::new(), value.set_require_grad(true))
    }

    /// `tensor` moved to the device of the parameter, unless it is there.
    pub open spec fn brought(self, tensor: Tensor<Float>) -> Tensor<Float> {
        if tensor.device_spec() != self.lazy_device_spec() {
            tensor.to_device_spec(self.lazy_device_spec()).detach_spec()
        } else {
            tensor
        }
    }

    /// Whether `tensor` can be loaded into the parameter.
    pub open spec fn can_load(self, tensor: Tensor<Float>) -> bool {
        &&& tensor.runs()
        &&& tensor.device_spec().autodiff == self.lazy_device_spec().autodiff
        &&& self.param_mapper.loads(self.brought(tensor))
        &&& self.param_mapper.loaded(self.brought(tensor)).can_set_grad(self.lazy_grad_spec())
    }

    /// The parameter after `tensor` was loaded into it under the identity
    /// `param_id`: the tensor on the parameter's device, mapped, and with the
    /// parameter's wish for a gradient. What adapted the parameter is gone.
    pub open spec fn loaded(self, tensor: Tensor<Float>, param_id: ParamId) -> Self {
        Param {
            param_mapper: self.param_mapper,
            ..Self::initialized_spec(
                param_id,
                self.param_mapper.loaded(self.brought(tensor)).with_grad(self.lazy_grad_spec()),
            )
        }
    }

    /// Loads `tensor` into the parameter, under the identity `param_id`.
    pub fn transform_for_load(self, tensor: Tensor<Float>, param_id: ParamId) -> (out: Self)
        requires
            self.can_load(tensor),
        ensures
            out == self.loaded(tensor, param_id),
            out.original().runs(),
    {
        let expected_device = self.lazy_device();
        let expected_require_grad = self.lazy_is_require_grad();
        let mapper = self.param_mapper;

        let mut new_tensor = tensor;
        if new_tensor.device() != expected_device {
            new_tensor = new_tensor.to_device(&expected_device).detach();
        }
        new_tensor = mapper.on_load(new_tensor);
        new_tensor = new_tensor.set_require_grad(expected_require_grad);

        let mut loaded = Self::initialized(param_id, new_tensor);
        loaded.param_mapper = mapper;
        loaded
    }

    /// Whether the parameter can be saved.
    pub open spec fn can_save(self) -> bool {
        &&& self.readable()
        &&& self.param_mapper.saves(self.original())
    }

    /// What is saved of the parameter: its identity and its own value, mapped,
    /// without what adapts it.
    pub open spec fn saved(self) -> Self {
        Self::initialized_spec(self.id, self.param_mapper.saved(self.original()))
    }

    /// Gives what is saved of the parameter.
    pub fn transform_for_save(&self) -> (out: Self)
        requires
            self.can_save(),
        ensures
            out == self.saved(),
    {
        let tensor = self.val_original();
        let tensor = self.param_mapper.on_save(tensor);
        Self::initialized(self.id, tensor)
    }

    /// Turns the parameter into what is saved of it.
    pub fn into_record(self) -> (out: Self)
        requires
            self.can_save(),
        ensures
            out == self.saved(),
    {
        self.transform_for_save()
    }

    /// Whether `out` is `param` adapted by a new adaptation of rank `rank`: new
    /// up to what chance decides, the draw of the first factor and the
    /// identities of both.
    pub open spec fn newly_adapted(
        param: Self,
        rank: usize,
        alpha: Scalar,
        device: Device,
        out: Self,
    ) -> bool {
        exists|key: u64, id_a: ParamId, id_b: ParamId|
            out == param.adapted_by(
                Arc::new(
                    Transform::Lora(
                        #[trigger] LoraState::drawn(
                            key,
                            id_a,
                            id_b,
                            rank,
                            alpha,
                            param.lazy_dims()[0],
                            param.lazy_dims()[1],
                            device,
                        ),
                    ),
                ),
            )
    }

    /// Adapts this matrix by a new adaptation of rank `rank` on `device`, scaled
    /// by `alpha / rank`, in place of what adapted it.
    pub fn with_lora(self, rank: usize, alpha: Scalar, device: &Device) -> (out: Self)
        requires
            self.shaped(),
            self.lazy_dims().len() == 2,
        ensures
            Self::newly_adapted(self, rank, alpha, *device, out),
            out.id == self.id,
            out.state == self.state,
            out.param_mapper == self.param_mapper,
            out.require_grad == self.require_grad,
            out.lora_transform is Some,
            out.lora_transform matches Some(transform) ==> {
                &&& *transform matches Transform::Lora(state)
                &&& state.scaling == (Factor::Ratio { alpha, rank })
                &&& state.lora_a.original().dims_spec() == seq![self.lazy_dims()[0], rank]
                &&& state.lora_b.original().dims_spec() == seq![rank, self.lazy_dims()[1]]
                &&& state.lora_a.original().device_spec() == *device
                &&& state.lora_b.original().device_spec() == *device
            },
    {
        let shape = self.lazy_shape();
        let dims = shape_dims2(&shape);
        let in_features: usize = dims[0];
        let out_features: usize = dims[1];
        let state = LoraState::new(rank, alpha, in_features, out_features, device);
        self.with_lora_transform(Arc::new(Transform::Lora(state)))
    }

    /// Moves the parameter's own value to `device`.
    pub fn to_device(self, device: &Device) -> (out: Self)
        requires
            self.readable(),
            self.original().runs(),
            device.autodiff == self.original().device_spec().autodiff,
        ensures
            out == self.with_value(self.original().to_device_spec(*device)),
            out.original().runs(),
    {
        let device: Device = *device;
        let relocate = |tensor: Tensor<Float>| -> (moved: Tensor<Float>)
            requires
                tensor.runs(),
                device.autodiff == tensor.device_spec().autodiff,
            ensures
                moved == tensor.to_device_spec(device),
                moved.runs(),
        {
            tensor.to_device(&device)
        };
        self.map(relocate)
    }

    /// `tensor` on `device`, as a leaf if it was one.
    pub open spec fn forked_value(tensor: Tensor<Float>, device: Device) -> Tensor<Float> {
        let moved = tensor.to_device_spec(device).detach_spec();
        if tensor.grad_of() {
            moved.with_grad(true)
        } else {
            moved
        }
    }

    /// Moves the parameter's own value to `device` and cuts it off from the
    /// operations that gave it. A leaf stays one.
    pub fn fork(self, device: &Device) -> (out: Self)
        requires
            self.readable(),
            self.original().runs(),
            device.autodiff == self.original().device_spec().autodiff,
        ensures
            out == self.with_value(Self::forked_value(self.original(), *device)),
            out.original().runs(),
    {
        let device: Device = *device;
        let relocate = |tensor: Tensor<Float>| -> (forked: Tensor<Float>)
            requires
                tensor.runs(),
                device.autodiff == tensor.device_spec().autodiff,
            ensures
                forked == Self::forked_value(tensor, device),
                forked.runs(),
        {
            let is_require_grad = tensor.is_require_grad();
            let moved = tensor.to_device(&device).detach();
            if is_require_grad {
                moved.set_require_grad(true)
            } else {
                moved
            }
        };
        self.map(relocate)
    }

    /// Describes the parameter, with its identity if `id` gives the text of it.
    /// How an identity is written out is the caller's choice: nothing here ties
    /// that text to the number in `self.id`.
    pub fn content(&self, id: Option<&str>) -> (text: String)
        requires
            self.readable(),
            self.original().runs(),
        ensures
            text@ == described(
                self.original().dims_spec(),
                "float"@,
                match id {
                    Some(id) => Some(id@),
                    None => None,
                },
            ),
    {
        describe(&self.val_original().dims(), "float", id)
    }
}

impl<C: LoraTransform<Tensor<Float>, C>> Param<Tensor<Float>, C> {
    /// Replaces the matrix and the factors of an adapted parameter one by one
    /// through `mapper`, and puts the parameter together again. If the factors
    /// are not exposed, `mapper` replaces the parameter as a whole.
    pub fn map_float_lora<M: ModuleMapper<C>>(self, mapper: &mut M) -> (out: Self)
        requires
            lora_mappable::<C, M>(self),
        ensures
            lora_mapped(*old(mapper), self, *final(mapper), out),
    {
        let ghost param = self;
        let ghost start = *mapper;
        let exposed = match &self.lora_transform {
            Some(transform) => match (transform.lora_a_param(), transform.lora_b_param()) {
                (Some(lora_a), Some(lora_b)) => Some((lora_a.clone(), lora_b.clone())),
                _ => None,
            },
            None => None,
        };
        assert(exposed == factors(param));
        let (lora_a, lora_b) = match exposed {
            Some(pair) => pair,
            None => return mapper.map_float(self),
        };

        let (id, base_value, param_mapper, lora_transform) = self.into_parts();
        let base = Param {
            id,
            state: ParamState::Initialized(base_value),
            param_mapper: param_mapper.share(),
            require_grad: false,
            lora_transform: None,
        };
        assert(base == bare(param));
        let base = mapper.map_float(base);
        let ghost after_base = *mapper;
        let ghost mapped_base = base;
        assert(M::float_mapped(start, bare(param), after_base, mapped_base));
        let (base_id, base_value, _) = base.consume();

        let new_a = mapper.map_float(lora_a);
        let ghost after_a = *mapper;
        let ghost mapped_a = new_a;
        let new_b = mapper.map_float(lora_b);
        let ghost mapped_b = new_b;

        let new_transform = lora_transform.unwrap().with_updated_params(new_a, new_b);
        let require_grad = base_value.is_require_grad();
        let out = Param {
            id: base_id,
            state: ParamState::Initialized(base_value),
            param_mapper,
            require_grad,
            lora_transform: Some(Arc::new(new_transform)),
        };
        assert(out == reassembled(param, mapped_base, mapped_a, mapped_b));
        out
    }

    /// Loads what was saved of a parameter into this one, under the identity
    /// that it was saved with.
    pub fn load_record(self, record: Self) -> (out: Self)
        requires
            record.adaptable(),
            self.can_load(record.effective()),
        ensures
            out == self.loaded(record.effective(), record.id),
            out.adaptable(),
    {
        let (record_id, record_tensor, _) = record.consume();
        self.transform_for_load(record_tensor, record_id)
    }

    /// Adds the device of the value to `devices`, unless it is among them.
    pub fn collect_devices(&self, devices: Vec<Device>) -> (out: Vec<Device>)
        requires
            self.adaptable(),
        ensures
            out@ == with_device(devices@, self.effective().device_spec()),
    {
        add_device(devices, self.val().device())
    }

    /// The parameter on the backend without autodiff. It remembers whether its
    /// gradient is wanted.
    pub open spec fn validated(self) -> Self {
        Param {
            require_grad: self.require_grad,
            ..Self::initialized_spec(self.id, self.effective().inner_spec().with_grad(false))
        }
    }

    /// Gives the parameter on the backend without autodiff, with all that adapts
    /// it made part of its value. It remembers whether its gradient is wanted.
    pub fn valid(&self) -> (out: Self)
        requires
            self.adaptable(),
            self.effective().device_spec().autodiff,
        ensures
            out == self.validated(),
            out.adaptable(),
            !out.effective().device_spec().autodiff,
            !out.original().grad_of(),
    {
        let inner = self.val().inner().set_require_grad(false);
        let mut param = Self::initialized(self.id, inner);
        param.require_grad = self.require_grad;
        param
    }

    /// The parameter on the autodiff backend, with the wish for a gradient that
    /// it remembers.
    pub open spec fn trained(module: Self) -> Self {
        Self::initialized_spec(
            module.id,
            Tensor::from_inner_spec(module.effective()).with_grad(module.require_grad),
        )
    }

    /// Converts a parameter to the autodiff backend, with the wish for a gradient
    /// that it remembers.
    pub fn from_inner(module: Self) -> (out: Self)
        requires
            module.adaptable(),
            !module.effective().device_spec().autodiff,
        ensures
            out == Self::trained(module),
            out.adaptable(),
            out.effective().device_spec().autodiff,
            out.original().grad_of() == module.require_grad,
            out.require_grad == module.require_grad,
    {
        let tensor = Tensor::from_inner(module.val()).set_require_grad(module.require_grad);
        Self::initialized(module.id, tensor)
    }

    /// Converts the parameter to the autodiff backend, with the wish for a
    /// gradient that it remembers.
    pub fn train(self) -> (out: Self)
        requires
            self.adaptable(),
            !self.effective().device_spec().autodiff,
        ensures
            out == Self::trained(self),
            out.adaptable(),
            out.effective().device_spec().autodiff,
            out.original().grad_of() == self.require_grad,
            out.require_grad == self.require_grad,
    {
        Self::from_inner(self)
    }
}

impl<C> Param<Tensor<Int>, C> {
    /// Gives the value. A parameter of integers is never adapted.
    pub fn val(&self) -> (out: Tensor<Int>)
        ensures
            out == self.original(),
    {
        self.val_original()
    }

    /// Takes the parameter apart: its identity, its value, and what the value
    /// goes through when it is loaded and saved.
    pub fn consume(self) -> (out: (ParamId, Tensor<Int>, ParamMapper<Tensor<Int>>))
        ensures
            out == (self.id, self.original(), self.param_mapper),
    {
        let value = self.val();
        (self.id, value, self.param_mapper)
    }

    /// The shape of the parameter, without initialising it.
    pub fn lazy_shape(&self) -> (out: Shape)
        requires
            self.shaped(),
        ensures
            crate::shape::shape_dims(out) == self.lazy_dims(),
    {
        match &self.state {
            ParamState::Initialized(value) => value.shape(),
            ParamState::Uninitialized(lazy) => clone_shape(&*lazy.shape),
        }
    }

    /// `tensor` moved to the device of the parameter, unless it is there.
    pub open spec fn brought(self, tensor: Tensor<Int>) -> Tensor<Int> {
        if tensor.device_spec() != self.lazy_device_spec() {
            tensor.to_device_spec(self.lazy_device_spec())
        } else {
            tensor
        }
    }

    /// Whether `tensor` can be loaded into the parameter.
    pub open spec fn can_load(self, tensor: Tensor<Int>) -> bool {
        &&& tensor.runs()
        &&& tensor.device_spec().autodiff == self.lazy_device_spec().autodiff
        &&& self.param_mapper.loads(self.brought(tensor))
    }

    /// The parameter after `tensor` was loaded into it under the identity
    /// `param_id`: the tensor on the parameter's device, mapped.
    pub open spec fn loaded(self, tensor: Tensor<Int>, param_id: ParamId) -> Self {
        Param {
            param_mapper: self.param_mapper,
            ..Self::initialized_spec(param_id, self.param_mapper.loaded(self.brought(tensor)))
        }
    }

    /// Loads `tensor` into the parameter, under the identity `param_id`.
    pub fn transform_for_load(self, tensor: Tensor<Int>, param_id: ParamId) -> (out: Self)
        requires
            self.can_load(tensor),
        ensures
            out == self.loaded(tensor, param_id),
    {
        let expected_device = self.lazy_device();
        let mapper = self.param_mapper;

        let mut new_tensor = tensor;
        if new_tensor.device() != expected_device {
            new_tensor = new_tensor.to_device(&expected_device);
        }
        new_tensor = mapper.on_load(new_tensor);

        let mut loaded = Self::initialized(param_id, new_tensor);
        loaded.param_mapper = mapper;
        loaded
    }

    /// Whether the parameter can be saved.
    pub open spec fn can_save(self) -> bool {
        self.param_mapper.saves(self.original())
    }

    /// What is saved of the parameter: its identity and its value, mapped.
    pub open spec fn saved(self) -> Self {
        Self::initialized_spec(self.id, self.param_mapper.saved(self.original()))
    }

    /// Gives what is saved of the parameter.
    pub fn transform_for_save(&self) -> (out: Self)
        requires
            self.can_save(),
        ensures
            out == self.saved(),
    {
        let tensor = self.val();
        let tensor = self.param_mapper.on_save(tensor);
        Self::initialized(self.id, tensor)
    }

    /// Turns the parameter into what is saved of it.
    pub fn into_record(self) -> (out: Self)
        requires
            self.can_save(),
        ensures
            out == self.saved(),
    {
        self.transform_for_save()
    }

    /// Loads what was saved of a parameter into this one, under the identity
    /// that it was saved with.
    pub fn load_record(self, record: Self) -> (out: Self)
        requires
            self.can_load(record.original()),
        ensures
            out == self.loaded(record.original(), record.id),
    {
        let (record_id, record_tensor, _) = record.consume();
        self.transform_for_load(record_tensor, record_id)
    }

    /// Moves the value to `device`.
    pub fn to_device(self, device: &Device) -> (out: Self)
        requires
            self.original().runs(),
            device.autodiff == self.original().device_spec().autodiff,
        ensures
            out == self.with_value(self.original().to_device_spec(*device)),
    {
        let device: Device = *device;
        let relocate = |tensor: Tensor<Int>| -> (moved: Tensor<Int>)
            requires
                tensor.runs(),
                device.autodiff == tensor.device_spec().autodiff,
            ensures
                moved == tensor.to_device_spec(device),
        {
            tensor.to_device(&device)
        };
        self.map(relocate)
    }

    /// Moves the value to `device`: there are no gradients to cut it off from.
    pub fn fork(self, device: &Device) -> (out: Self)
        requires
            self.original().runs(),
            device.autodiff == self.original().device_spec().autodiff,
        ensures
            out == self.with_value(self.original().to_device_spec(*device)),
    {
        self.to_device(device)
    }

    /// Adds the device of the value to `devices`, unless it is among them.
    pub fn collect_devices(&self, devices: Vec<Device>) -> (out: Vec<Device>)
        ensures
            out@ == with_device(devices@, self.original().device_spec()),
    {
        add_device(devices, self.val().device())
    }

    /// Describes the parameter, with its identity if `id` gives the text of it.
    /// How an identity is written out is the caller's choice: nothing here ties
    /// that text to the number in `self.id`.
    pub fn content(&self, id: Option<&str>) -> (text: String)
        requires
            self.original().runs(),
        ensures
            text@ == described(
                self.original().dims_spec(),
                "int"@,
                match id {
                    Some(id) => Some(id@),
                    None => None,
                },
            ),
    {
        describe(&self.val().dims(), "int", id)
    }

    /// Gives the parameter on the backend without autodiff.
    pub fn valid(&self) -> (out: Self)
        requires
            self.original().runs(),
            self.original().device_spec().autodiff,
        ensures
            out == Self::initialized_spec(self.id, self.original().inner_spec()),
    {
        Self::initialized(self.id, self.val().inner())
    }

    /// Converts a parameter to the autodiff backend.
    pub fn from_inner(module: Self) -> (out: Self)
        requires
            module.original().runs(),
            !module.original().device_spec().autodiff,
        ensures
            out == Self::initialized_spec(module.id, Tensor::from_inner_spec(module.original())),
    {
        Self::initialized(module.id, Tensor::from_inner(module.val()))
    }
}

impl<C> Param<Tensor<Bool>, C> {
    /// Gives the value. A parameter of truth values is never adapted.
    pub fn val(&self) -> (out: Tensor<Bool>)
        ensures
            out == self.original(),
    {
        self.val_original()
    }

    /// Takes the parameter apart: its identity, its value, and what the value
    /// goes through when it is loaded and saved.
    pub fn consume(self) -> (out: (ParamId, Tensor<Bool>, ParamMapper<Tensor<Bool>>))
        ensures
            out == (self.id, self.original(), self.param_mapper),
    {
        let value = self.val();
        (self.id, value, self.param_mapper)
    }

    /// The shape of the parameter, without initialising it.
    pub fn lazy_shape(&self) -> (out: Shape)
        requires
            self.shaped(),
        ensures
            crate::shape::shape_dims(out) == self.lazy_dims(),
    {
        match &self.state {
            ParamState::Initialized(value) => value.shape(),
            ParamState::Uninitialized(lazy) => clone_shape(&*lazy.shape),
        }
    }

    /// `tensor` moved to the device of the parameter, unless it is there.
    pub open spec fn brought(self, tensor: Tensor<Bool>) -> Tensor<Bool> {
        if tensor.device_spec() != self.lazy_device_spec() {
            tensor.to_device_spec(self.lazy_device_spec())
        } else {
            tensor
        }
    }

    /// Whether `tensor` can be loaded into the parameter.
    pub open spec fn can_load(self, tensor: Tensor<Bool>) -> bool {
        &&& tensor.runs()
        &&& tensor.device_spec().autodiff == self.lazy_device_spec().autodiff
        &&& self.param_mapper.loads(self.brought(tensor))
    }

    /// The parameter after `tensor` was loaded into it under the identity
    /// `param_id`: the tensor on the parameter's device, mapped.
    pub open spec fn loaded(self, tensor: Tensor<Bool>, param_id: ParamId) -> Self {
        Param {
            param_mapper: self.param_mapper,
            ..Self::initialized_spec(param_id, self.param_mapper.loaded(self.brought(tensor)))
        }
    }

    /// Loads `tensor` into the parameter, under the identity `param_id`.
    pub fn transform_for_load(self, tensor: Tensor<Bool>, param_id: ParamId) -> (out: Self)
        requires
            self.can_load(tensor),
        ensures
            out == self.loaded(tensor, param_id),
    {
        let expected_device = self.lazy_device();
        let mapper = self.param_mapper;

        let mut new_tensor = tensor;
        if new_tensor.device() != expected_device {
            new_tensor = new_tensor.to_device(&expected_device);
        }
        new_tensor = mapper.on_load(new_tensor);

        let mut loaded = Self::initialized(param_id, new_tensor);
        loaded.param_mapper = mapper;
        loaded
    }

    /// Whether the parameter can be saved.
    pub open spec fn can_save(self) -> bool {
        self.param_mapper.saves(self.original())
    }

    /// What is saved of the parameter: its identity and its value, mapped.
    pub open spec fn saved(self) -> Self {
        Self::initialized_spec(self.id, self.param_mapper.saved(self.original()))
    }

    /// Gives what is saved of the parameter.
    pub fn transform_for_save(&self) -> (out: Self)
        requires
            self.can_save(),
        ensures
            out == self.saved(),
    {
        let tensor = self.val();
        let tensor = self.param_mapper.on_save(tensor);
        Self::initialized(self.id, tensor)
    }

    /// Turns the parameter into what is saved of it.
    pub fn into_record(self) -> (out: Self)
        requires
            self.can_save(),
        ensures
            out == self.saved(),
    {
        self.transform_for_save()
    }

    /// Loads what was saved of a parameter into this one, under the identity
    /// that it was saved with.
    pub fn load_record(self, record: Self) -> (out: Self)
        requires
            self.can_load(record.original()),
        ensures
            out == self.loaded(record.original(), record.id),
    {
        let (record_id, record_tensor, _) = record.consume();
        self.transform_for_load(record_tensor, record_id)
    }

    /// Moves the value to `device`.
    pub fn to_device(self, device: &Device) -> (out: Self)
        requires
            self.original().runs(),
            device.autodiff == self.original().device_spec().autodiff,
        ensures
            out == self.with_value(self.original().to_device_spec(*device)),
    {
        let device: Device = *device;
        let relocate = |tensor: Tensor<Bool>| -> (moved: Tensor<Bool>)
            requires
                tensor.runs(),
                device.autodiff == tensor.device_spec().autodiff,
            ensures
                moved == tensor.to_device_spec(device),
        {
            tensor.to_device(&device)
        };
        self.map(relocate)
    }

    /// Moves the value to `device`: there are no gradients to cut it off from.
    pub fn fork(self, device: &Device) -> (out: Self)
        requires
            self.original().runs(),
            device.autodiff == self.original().device_spec().autodiff,
        ensures
            out == self.with_value(self.original().to_device_spec(*device)),
    {
        self.to_device(device)
    }

    /// Adds the device of the value to `devices`, unless it is among them.
    pub fn collect_devices(&self, devices: Vec<Device>) -> (out: Vec<Device>)
        ensures
            out@ == with_device(devices@, self.original().device_spec()),
    {
        add_device(devices, self.val().device())
    }

    /// Describes the parameter, with its identity if `id` gives the text of it.
    /// How an identity is written out is the caller's choice: nothing here ties
    /// that text to the number in `self.id`.
    pub fn content(&self, id: Option<&str>) -> (text: String)
        requires
            self.original().runs(),
        ensures
            text@ == described(
                self.original().dims_spec(),
                "bool"@,
                match id {
                    Some(id) => Some(id@),
                    None => None,
                },
            ),
    {
        describe(&self.val().dims(), "bool", id)
    }

    /// Gives the parameter on the backend without autodiff.
    pub fn valid(&self) -> (out: Self)
        requires
            self.original().runs(),
            self.original().device_spec().autodiff,
        ensures
            out == Self::initialized_spec(self.id, self.original().inner_spec()),
    {
        Self::initialized(self.id, self.val().inner())
    }

    /// Converts a parameter to the autodiff backend.
    pub fn from_inner(module: Self) -> (out: Self)
        requires
            module.original().runs(),
            !module.original().device_spec().autodiff,
        ensures
            out == Self::initialized_spec(module.id, Tensor::from_inner_spec(module.original())),
    {
        Self::initialized(module.id, Tensor::from_inner(module.val()))
    }
}

} // verus!
