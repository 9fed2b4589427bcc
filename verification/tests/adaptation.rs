//! Parameters and modules, evaluated on a CPU backend.

use std::sync::Arc;

use burn_autodiff::Autodiff;
use burn_flex::Flex;
use burn_lora::lora::{freeze_non_lora, merge_lora, LoraConfig, LoraInjector};
use burn_lora::module::{Field, Module, ModuleMapper, ModuleVisitor};
use burn_lora::param::base::{ParamMapper, Parameter, TensorMap};
use burn_lora::param::lora::compute_delta;
use burn_lora::param::{LoraState, LoraTransform, NoTransform, Param, ParamId, Transform};
use burn_lora::tensor::{Bool, Device, Factor, Float, Int, Node, Requirement, Tensor};
use burn_tensor::backend::Backend;
use burn_tensor::{Scalar, Shape, TensorData};

type Plain = Flex;
type Diff = Autodiff<Flex>;
type Weight = Param<Tensor<Float>>;
type Linear = (Field<Weight>, Field<Option<Weight>>);

const CPU: Device = Device { type_id: 0, index_id: 0, autodiff: false };
const CPU_AUTODIFF: Device = Device { type_id: 0, index_id: 0, autodiff: true };
const OTHER_AUTODIFF: Device = Device { type_id: 0, index_id: 1, autodiff: true };

/// How nodes that change the backend are evaluated.
trait Run: Backend {
    fn inner<const D: usize>(node: &Node) -> burn_tensor::Tensor<Self, D>;
    fn from_inner<const D: usize>(node: &Node) -> burn_tensor::Tensor<Self, D>;
}

impl Run for Plain {
    fn inner<const D: usize>(node: &Node) -> burn_tensor::Tensor<Self, D> {
        run::<Diff, D>(node).inner()
    }

    fn from_inner<const D: usize>(_node: &Node) -> burn_tensor::Tensor<Self, D> {
        panic!("not an autodiff backend")
    }
}

impl Run for Diff {
    fn inner<const D: usize>(_node: &Node) -> burn_tensor::Tensor<Self, D> {
        panic!("an autodiff backend")
    }

    fn from_inner<const D: usize>(node: &Node) -> burn_tensor::Tensor<Self, D> {
        burn_tensor::Tensor::from_inner(run::<Plain, D>(node))
    }
}

fn number(factor: &Factor) -> f64 {
    match factor {
        Factor::Constant(scalar) => scalar.elem::<f64>(),
        Factor::Ratio { alpha, rank } => alpha.elem::<f64>() / *rank as f64,
        Factor::InverseSqrt(n) => (1.0 / (*n as f64)).sqrt(),
    }
}

/// Numbers between -1 and 1 that depend on the key alone.
fn draw(key: u64, rows: usize, cols: usize) -> TensorData {
    let mut state = key | 1;
    let mut values: Vec<f32> = Vec::new();
    for _ in 0..rows * cols {
        state = state.wrapping_mul(6364136223846793005).wrapping_add(1442695040888963407);
        values.push(((state >> 40) as f32) / ((1u64 << 23) as f32) - 1.0);
    }
    TensorData::new(values, [rows, cols])
}

fn run<B: Run, const D: usize>(node: &Node) -> burn_tensor::Tensor<B, D> {
    let device = B::Device::default();
    let value = match node {
        Node::Data { data, .. } => burn_tensor::Tensor::from_data(data.clone(), &device),
        Node::Zeros { rows, cols, .. } => {
            burn_tensor::Tensor::zeros(Shape::new([*rows, *cols]), &device)
        }
        Node::Uniform { key, rows, cols, .. } => {
            burn_tensor::Tensor::from_data(draw(*key, *rows, *cols), &device)
        }
        Node::Source { .. } => panic!("no such tensor"),
        Node::Matmul(lhs, rhs) => run::<B, D>(lhs).matmul(run::<B, D>(rhs)),
        Node::MulScalar(inner, factor) => run::<B, D>(inner).mul_scalar(number(factor)),
        Node::Add(lhs, rhs) => run::<B, D>(lhs) + run::<B, D>(rhs),
        Node::ToDevice(inner, _) => run::<B, D>(inner).to_device(&device),
        Node::RequireGrad(inner) => run::<B, D>(inner).set_require_grad(true),
        Node::Untrack(inner) => run::<B, D>(inner).set_require_grad(false),
        Node::Detach(inner) => run::<B, D>(inner).detach(),
        Node::Inner(inner) => B::inner(inner),
        Node::FromInner(inner) => B::from_inner(inner),
    };
    // What is known of the node before it is run is what the backend tells.
    assert_eq!(value.dims().to_vec(), node.shape().to_vec());
    assert_eq!(value.is_require_grad(), node.requirement() == Requirement::Leaf);
    value
}

/// The elements of a tensor.
fn data<const D: usize>(tensor: &Tensor<Float>) -> TensorData {
    if tensor.device().autodiff {
        run::<Diff, D>(&tensor.node).to_data()
    } else {
        run::<Plain, D>(&tensor.node).to_data()
    }
}

fn ones(rows: usize, cols: usize, device: &Device) -> Tensor<Float> {
    Tensor::from_data(TensorData::ones::<f32, _>([rows, cols]), device)
}

fn create_test_module(device: &Device) -> Linear {
    let weight = Tensor::<Float>::uniform(11, 8, 4, device).mul_scalar(Factor::InverseSqrt(8));
    let bias = Tensor::from_data(TensorData::from([0.5f32, -0.25, 0.125, 1.0]), device);
    (
        Field::new("weight", "Struct:Linear", Param::from_tensor(weight)),
        Field::new("bias", "Struct:Linear", Some(Param::from_tensor(bias))),
    )
}

fn forward(module: &Linear, x: TensorData) -> TensorData {
    let device = Default::default();
    let x = burn_tensor::Tensor::<Plain, 2>::from_data(x, &device);
    let weight = burn_tensor::Tensor::from_data(data::<2>(&module.0.module.val()), &device);
    let bias = data::<1>(&module.1.module.as_ref().unwrap().val());
    let bias = burn_tensor::Tensor::<Plain, 1>::from_data(bias, &device);
    (x.matmul(weight) + bias.unsqueeze()).to_data()
}

fn input() -> TensorData {
    TensorData::ones::<f32, _>([1, 8])
}

fn scalar(value: f64) -> Scalar {
    Scalar::from(value)
}

/// Looks for adapted parameters, and counts parameters.
struct Survey {
    any_lora: bool,
    floats: usize,
    ids: Vec<ParamId>,
    values: Vec<TensorData>,
    originals: Vec<TensorData>,
    lora_depth: usize,
    scopes: Vec<String>,
}

impl Survey {
    fn of<M: Module<NoTransform>>(module: &M) -> Survey {
        let mut survey = Survey {
            any_lora: false,
            floats: 0,
            ids: Vec::new(),
            values: Vec::new(),
            originals: Vec::new(),
            lora_depth: 0,
            scopes: Vec::new(),
        };
        module.visit(&mut survey);
        survey
    }
}

impl ModuleVisitor<NoTransform> for Survey {
    fn enter_module(&mut self, name: &str, container_type: &str) {
        self.scopes.push(format!("{container_type}/{name}"));
        if name == "lora" {
            self.lora_depth += 1;
        }
    }

    fn exit_module(&mut self, name: &str, _container_type: &str) {
        if name == "lora" {
            self.lora_depth = self.lora_depth.saturating_sub(1);
        }
    }

    fn visit_float(&mut self, param: &Weight) {
        if param.has_lora() {
            self.any_lora = true;
        }
        self.floats += 1;
        self.ids.push(param.id);
        let evaluated = |tensor: Tensor<Float>| match tensor.dims().len() {
            1 => data::<1>(&tensor),
            _ => data::<2>(&tensor),
        };
        self.values.push(evaluated(param.val()));
        if self.lora_depth == 0 {
            self.originals.push(evaluated(param.val_original()));
        }
    }

    fn visit_int(&mut self, _param: &Param<Tensor<Int>>) {}

    fn visit_bool(&mut self, _param: &Param<Tensor<Bool>>) {}
}

fn any_has_lora<M: Module<NoTransform>>(module: &M) -> bool {
    Survey::of(module).any_lora
}

fn count_float_params<M: Module<NoTransform>>(module: &M) -> usize {
    Survey::of(module).floats
}

// One parameter.

#[test]
fn val_no_lora_returns_original() {
    let base = ones(4, 8, &CPU);
    let param: Weight = Param::from_tensor(base.clone());
    assert_eq!(data::<2>(&param.val()), data::<2>(&base));
}

#[test]
fn val_original_unaffected_by_lora() {
    let base = ones(4, 8, &CPU);
    let param: Weight = Param::from_tensor(base.clone());
    let with_lora = param.clone().with_lora(2, scalar(2.0), &CPU);
    assert_eq!(data::<2>(&with_lora.val_original()), data::<2>(&base));
}

#[test]
fn val_with_lora_equals_original_at_init() {
    let base = ones(4, 8, &CPU);
    let param: Weight = Param::from_tensor(base.clone());
    let with_lora = param.with_lora(2, scalar(2.0), &CPU);
    assert_eq!(data::<2>(&with_lora.val()), data::<2>(&base));
}

#[test]
fn lora_delta_nonzero_when_lora_b_is_ones() {
    let base = ones(4, 8, &CPU);
    let param: Weight = Param::from_tensor(base.clone());
    let lora_a = Param::from_tensor(ones(4, 2, &CPU));
    let lora_b = Param::from_tensor(ones(2, 8, &CPU));
    let lora = LoraState { lora_a, lora_b, scaling: Factor::Constant(scalar(1.0)) };
    let with_lora = param.with_lora_transform(Arc::new(Transform::Lora(lora)));

    assert_ne!(data::<2>(&with_lora.val()), data::<2>(&base));
    assert_eq!(data::<2>(&with_lora.val()), TensorData::from([[3.0f32; 8]; 4]));
}

#[test]
fn has_lora_reflects_state() {
    let param: Weight = Param::from_tensor(ones(4, 8, &CPU));
    assert!(!param.has_lora());
    let with_lora = param.with_lora(2, scalar(2.0), &CPU);
    assert!(with_lora.has_lora());
}

#[test]
fn merge_lora_removes_transform() {
    let param: Weight = Param::from_tensor(ones(4, 8, &CPU));
    let with_lora = param.with_lora(2, scalar(2.0), &CPU);
    assert!(with_lora.has_lora());
    let merged = with_lora.merge_lora();
    assert!(!merged.has_lora());
}

#[test]
fn merge_lora_on_no_lora_is_noop() {
    let base = ones(4, 8, &CPU);
    let param: Weight = Param::from_tensor(base.clone());
    let merged = param.merge_lora();
    assert_eq!(data::<2>(&merged.val()), data::<2>(&base));
}

#[test]
fn merge_lora_bakes_delta_into_base() {
    let param: Weight = Param::from_tensor(ones(4, 8, &CPU));
    let with_lora = param.with_lora(2, scalar(2.0), &CPU);
    let lora_val = data::<2>(&with_lora.val());
    let merged = with_lora.merge_lora();
    assert_eq!(data::<2>(&merged.val()), lora_val);
}

/// A transform that doubles the base value.
struct DoublingTransform;

impl LoraTransform<Tensor<Float>, DoublingTransform> for DoublingTransform {
    // These only exist for proofs: nothing calls them.
    fn applies(&self, _base: Tensor<Float>) -> bool {
        unreachable!()
    }

    fn applied(&self, _base: Tensor<Float>) -> Tensor<Float> {
        unreachable!()
    }

    fn has_rank(&self) -> bool {
        unreachable!()
    }

    fn rank_of(&self) -> usize {
        unreachable!()
    }

    fn exposed_a(&self) -> Option<Param<Tensor<Float>, DoublingTransform>> {
        unreachable!()
    }

    fn exposed_b(&self) -> Option<Param<Tensor<Float>, DoublingTransform>> {
        unreachable!()
    }

    fn updated(
        &self,
        _new_a: Param<Tensor<Float>, DoublingTransform>,
        _new_b: Param<Tensor<Float>, DoublingTransform>,
    ) -> DoublingTransform {
        unreachable!()
    }

    fn apply(&self, base: Tensor<Float>) -> Tensor<Float> {
        base.mul_scalar(Factor::Constant(scalar(2.0)))
    }

    fn rank(&self) -> usize {
        0
    }

    fn lora_a_param(&self) -> Option<&Param<Tensor<Float>, DoublingTransform>> {
        None
    }

    fn lora_b_param(&self) -> Option<&Param<Tensor<Float>, DoublingTransform>> {
        None
    }

    fn with_updated_params(
        &self,
        _new_a: Param<Tensor<Float>, DoublingTransform>,
        _new_b: Param<Tensor<Float>, DoublingTransform>,
    ) -> DoublingTransform {
        DoublingTransform
    }
}

#[test]
fn custom_lora_transform_is_applied() {
    let param: Param<Tensor<Float>, DoublingTransform> = Param::from_tensor(ones(3, 3, &CPU));
    let with_transform = param.with_lora_transform(Arc::new(Transform::Custom(DoublingTransform)));
    let result = with_transform.val();
    let expected = ones(3, 3, &CPU).mul_scalar(Factor::Constant(scalar(2.0)));
    assert_eq!(data::<2>(&result), data::<2>(&expected));
    assert_eq!(data::<2>(&result), TensorData::from([[2.0f32; 3]; 3]));
}

#[test]
fn test_load_record_setting() {
    let tensor = Parameter::set_require_grad(ones(3, 3, &CPU_AUTODIFF), true);

    let record = Weight::initialized(ParamId::new(), tensor.clone()).into_record();
    let bytes = data::<2>(&record.val());
    let load = || {
        let loaded = Tensor::from_data(bytes.clone(), &CPU_AUTODIFF);
        Weight::initialized(record.id, Parameter::set_require_grad(loaded, true))
    };

    let no_grad_is_require_grad = Weight::initialized(ParamId::new(), tensor.clone())
        .no_grad()
        .load_record(load())
        .is_require_grad();

    let with_default_is_require_grad =
        Weight::initialized(ParamId::new(), tensor).load_record(load()).is_require_grad();

    assert!(!no_grad_is_require_grad);
    assert!(with_default_is_require_grad);
}

#[test]
fn test_param_require_grad_stateful() {
    let tensor = Parameter::set_require_grad(ones(3, 3, &CPU_AUTODIFF), true);

    let param = Weight::initialized(ParamId::new(), tensor);
    assert!(param.is_require_grad());
    assert!(param.require_grad);

    let param = param.valid();
    assert!(!param.is_require_grad());
    assert!(param.require_grad);

    let param = param.train();
    assert!(param.is_require_grad());
    assert!(param.require_grad);
    assert!(run::<Diff, 2>(&param.val().node).is_require_grad());

    let param = param.no_grad();
    assert!(!param.is_require_grad());
    assert!(!param.require_grad);

    let param = param.valid();
    assert!(!param.is_require_grad());
    assert!(!param.require_grad);

    let param = param.train();
    assert!(!param.is_require_grad());
    assert!(!param.require_grad);
    assert!(!run::<Diff, 2>(&param.val().node).is_require_grad());
}

// Whole modules.

#[test]
fn lora_init_preserves_output() {
    let module = create_test_module(&CPU);
    let before = forward(&module, input());

    let config = LoraConfig::new(2, scalar(2.0));
    let lora_module = config.apply(module, &CPU);

    let after = forward(&lora_module, input());
    assert_eq!(before, after);
}

#[test]
fn has_lora_before_and_after_injection() {
    let module = create_test_module(&CPU);
    assert!(!any_has_lora(&module));

    let config = LoraConfig::new(2, scalar(2.0));
    let module = config.apply(module, &CPU);
    assert!(any_has_lora(&module));
}

#[test]
fn merge_lora_clears_all_transforms() {
    let module = create_test_module(&CPU);
    let config = LoraConfig::new(2, scalar(2.0));
    let module = config.apply(module, &CPU);
    let module = merge_lora(module);
    assert!(!any_has_lora(&module));
}

#[test]
fn merge_lora_preserves_output() {
    let module = create_test_module(&CPU);

    let config = LoraConfig::new(2, scalar(2.0));
    let lora_module = config.apply(module, &CPU);

    let output_before = forward(&lora_module, input());
    let merged_module = merge_lora(lora_module);
    let output_after = forward(&merged_module, input());

    assert_eq!(output_before, output_after);
}

#[test]
fn val_original_is_unaffected_by_lora() {
    let module = create_test_module(&CPU);
    let before = Survey::of(&module).values;

    let config = LoraConfig::new(2, scalar(2.0));
    let module = config.apply(module, &CPU);
    let after = Survey::of(&module).originals;

    assert_eq!(before.len(), after.len());
    for (a, b) in before.iter().zip(after.iter()) {
        assert_eq!(a, b, "val_original() changed after LoRA injection");
    }
}

#[test]
fn lora_config_apply_all_params() {
    let module = create_test_module(&CPU);
    let config = LoraConfig::new(2, scalar(2.0));
    let module = config.apply(module, &CPU);
    assert!(module.0.module.has_lora());
}

#[test]
fn lora_config_apply_target_filter() {
    let module = create_test_module(&CPU);
    let config = LoraConfig::new(2, scalar(2.0)).with_target_modules(vec!["nonexistent"]);
    let module = config.apply(module, &CPU);
    assert!(!any_has_lora(&module));
}

#[test]
fn freeze_non_lora_freezes_base_weights() {
    let module = create_test_module(&CPU);
    let config = LoraConfig::new(2, scalar(2.0));
    let module = config.apply(module, &CPU);
    let module = freeze_non_lora(module);
    assert!(!module.0.module.is_require_grad());
}

#[test]
fn freeze_non_lora_output_unchanged() {
    let module = create_test_module(&CPU);
    let before = forward(&module, input());

    let config = LoraConfig::new(2, scalar(2.0));
    let module = config.apply(module, &CPU);
    let module = freeze_non_lora(module);
    let after = forward(&module, input());

    assert_eq!(before, after);
}

#[test]
fn visit_exposes_lora_params() {
    let module = create_test_module(&CPU);
    let config = LoraConfig::new(2, scalar(2.0));
    let module = config.apply(module, &CPU);

    let ids = Survey::of(&module).ids;
    assert!(ids.len() >= 3);
    assert_eq!(ids.len(), 4);
}

#[test]
fn visit_param_count_restored_after_merge() {
    let module = create_test_module(&CPU);
    let config = LoraConfig::new(2, scalar(2.0));
    let module = config.apply(module, &CPU);

    let count_before = count_float_params(&module);
    let module = merge_lora(module);
    let count_after = count_float_params(&module);

    assert!(count_after < count_before);
    assert_eq!(count_after, 2);
}

// Exact values, and what the tests above leave open.

#[test]
fn delta_is_the_scaled_product() {
    let lora_a = Tensor::from_data(TensorData::from([[1.0f32], [2.0]]), &CPU);
    let lora_b = Tensor::from_data(TensorData::from([[10.0f32, 100.0]]), &CPU);
    let out = compute_delta(&lora_a, &lora_b, Factor::Constant(scalar(0.5)));
    assert_eq!(out.dims(), vec![2, 2]);
    assert_eq!(data::<2>(&out), TensorData::from([[5.0f32, 50.0], [10.0, 100.0]]));
}

fn state_of(scaling: Factor) -> LoraState<Tensor<Float>> {
    let lora_a = Tensor::from_data(TensorData::from([[1.0f32], [2.0]]), &CPU);
    let lora_b = Tensor::from_data(TensorData::from([[3.0f32, 5.0]]), &CPU);
    LoraState {
        lora_a: Param::from_tensor(lora_a),
        lora_b: Param::from_tensor(lora_b),
        scaling,
    }
}

#[test]
fn applying_adds_the_delta_to_the_base() {
    let base = Tensor::from_data(TensorData::from([[1.0f32, 2.0], [3.0, 4.0]]), &CPU);
    let state = state_of(Factor::Ratio { alpha: scalar(16.0), rank: 8 });
    let out = state.apply(base.clone());
    let expected = TensorData::from([[7.0f32, 12.0], [15.0, 24.0]]);
    assert_eq!(data::<2>(&out), expected);
    assert_eq!(out.dims(), vec![2, 2]);
    let param: Weight = Param::from_tensor(base);
    let adapted = param.with_lora_transform(Arc::new(Transform::Lora(state)));
    assert_eq!(data::<2>(&adapted.val()), expected);
}

#[test]
fn delta_is_broadcast_like_a_sum() {
    let base = Tensor::from_data(TensorData::from([[1.0f32, 2.0]]), &CPU);
    let out = state_of(Factor::Constant(scalar(1.0))).apply(base);
    assert_eq!(out.dims(), vec![2, 2]);
    assert_eq!(data::<2>(&out), TensorData::from([[4.0f32, 7.0], [7.0, 12.0]]));
}

#[test]
fn new_adaptation_has_scaled_draw_and_zeros() {
    let state: LoraState<Tensor<Float>> = LoraState::from_draw(
        5,
        ParamId { value: 1 },
        ParamId { value: 2 },
        3,
        scalar(6.0),
        4,
        7,
        &CPU_AUTODIFF,
    );
    assert_eq!(state.rank(), 3);
    assert_eq!(state.lora_a.id, ParamId { value: 1 });
    assert_eq!(state.lora_b.id, ParamId { value: 2 });
    assert_eq!(state.lora_a.val().dims(), vec![4, 3]);
    assert_eq!(state.lora_b.val().dims(), vec![3, 7]);
    assert!(state.lora_a.is_require_grad());
    assert!(state.lora_b.is_require_grad());
    assert_eq!(number(&state.scaling), 2.0);
    let drawn = burn_tensor::Tensor::<Plain, 2>::from_data(draw(5, 4, 3), &Default::default());
    assert_eq!(data::<2>(&state.lora_a.val()), drawn.mul_scalar(0.5).to_data());
    assert_eq!(data::<2>(&state.lora_b.val()), TensorData::from([[0.0f32; 7]; 3]));
}

#[test]
fn new_adaptations_are_drawn_apart() {
    let first: LoraState<Tensor<Float>> = LoraState::new(2, scalar(2.0), 4, 8, &CPU);
    let second: LoraState<Tensor<Float>> = LoraState::new(2, scalar(2.0), 4, 8, &CPU);
    assert_ne!(first.lora_a.id, first.lora_b.id);
    assert_ne!(first.lora_a.id, second.lora_a.id);
    assert_ne!(data::<2>(&first.lora_a.val()), data::<2>(&second.lora_a.val()));
}

#[test]
fn merging_twice_is_merging_once() {
    let param: Weight = Param::from_tensor(ones(4, 8, &CPU));
    let lora = LoraState {
        lora_a: Param::from_tensor(ones(4, 2, &CPU)),
        lora_b: Param::from_tensor(ones(2, 8, &CPU)),
        scaling: Factor::Ratio { alpha: scalar(3.0), rank: 2 },
    };
    let id = param.id;
    let once = param.with_lora_transform(Arc::new(Transform::Lora(lora))).merge_lora();
    let value = data::<2>(&once.val());
    assert_eq!(value, TensorData::from([[4.0f32; 8]; 4]));
    let twice = once.merge_lora();
    assert_eq!(twice.id, id);
    assert_eq!(data::<2>(&twice.val()), value);
}

#[test]
fn factors_may_be_adapted_too() {
    let inner = LoraState {
        lora_a: Param::from_tensor(ones(2, 1, &CPU)),
        lora_b: Param::from_tensor(ones(1, 2, &CPU)),
        scaling: Factor::Constant(scalar(1.0)),
    };
    let factor: Weight = Param::from_tensor(ones(2, 2, &CPU));
    let outer = LoraState {
        lora_a: factor.with_lora_transform(Arc::new(Transform::Lora(inner))),
        lora_b: Param::from_tensor(ones(2, 2, &CPU)),
        scaling: Factor::Constant(scalar(1.0)),
    };
    let param: Weight = Param::from_tensor(ones(2, 2, &CPU));
    let adapted = param.with_lora_transform(Arc::new(Transform::Lora(outer)));
    assert_eq!(data::<2>(&adapted.val()), TensorData::from([[5.0f32; 2]; 2]));
}

#[test]
fn merged_value_on_autodiff_is_not_a_leaf() {
    let param: Weight = Param::from_tensor(ones(4, 8, &CPU_AUTODIFF));
    assert!(param.is_require_grad());
    let merged = param.with_lora(2, scalar(2.0), &CPU_AUTODIFF).merge_lora();
    assert_eq!(merged.val().node.requirement(), Requirement::Derived);
    assert!(!merged.is_require_grad());
    assert!(!merged.require_grad);
    assert_eq!(data::<2>(&merged.val()), TensorData::from([[1.0f32; 8]; 4]));
}

#[test]
fn saving_leaves_the_adaptation_out() {
    let param: Weight = Param::from_tensor(ones(4, 8, &CPU));
    let id = param.id;
    let lora = LoraState {
        lora_a: Param::from_tensor(ones(4, 2, &CPU)),
        lora_b: Param::from_tensor(ones(2, 8, &CPU)),
        scaling: Factor::Constant(scalar(1.0)),
    };
    let record = param.with_lora_transform(Arc::new(Transform::Lora(lora))).into_record();
    assert!(!record.has_lora());
    assert_eq!(record.id, id);
    assert_eq!(data::<2>(&record.val()), TensorData::from([[1.0f32; 8]; 4]));
}

/// Multiplies by a constant.
struct Times(f64);

impl TensorMap<Tensor<Float>> for Times {
    // These only exist for proofs: nothing calls them.
    fn accepts(&self, _value: Tensor<Float>) -> bool {
        unreachable!()
    }

    fn mapped(&self, _value: Tensor<Float>) -> Tensor<Float> {
        unreachable!()
    }

    fn map(&self, value: Tensor<Float>) -> Tensor<Float> {
        value.mul_scalar(Factor::Constant(scalar(self.0)))
    }
}

#[test]
fn mappers_are_applied_when_loading_and_saving() {
    let mut param: Weight = Param::from_tensor(ones(1, 2, &CPU));
    param.param_mapper = ParamMapper {
        load: Some(Arc::new(Box::new(Times(3.0)))),
        save: Some(Arc::new(Box::new(Times(5.0)))),
    };
    let saved = param.transform_for_save();
    assert_eq!(data::<2>(&saved.val()), TensorData::from([[5.0f32, 5.0]]));
    assert!(saved.param_mapper.load.is_none());
    let new_id = ParamId { value: 77 };
    let loaded = param.transform_for_load(ones(1, 2, &CPU), new_id);
    assert_eq!(loaded.id, new_id);
    assert_eq!(data::<2>(&loaded.val()), TensorData::from([[3.0f32, 3.0]]));
    assert_eq!(
        data::<2>(&loaded.transform_for_save().val()),
        TensorData::from([[15.0f32, 15.0]])
    );
}

#[test]
fn loading_moves_to_the_device_of_the_parameter() {
    let param: Weight = Param::from_tensor(ones(2, 2, &CPU_AUTODIFF));
    let elsewhere = Parameter::set_require_grad(ones(2, 2, &OTHER_AUTODIFF), true);
    let loaded = param.clone().transform_for_load(elsewhere, ParamId { value: 3 });
    assert_eq!(loaded.val().device(), CPU_AUTODIFF);
    assert!(loaded.is_require_grad());
    assert_eq!(data::<2>(&loaded.val()), TensorData::from([[1.0f32; 2]; 2]));
    let here = param.no_grad().transform_for_load(ones(2, 2, &CPU_AUTODIFF), ParamId::new());
    assert!(!here.is_require_grad());
    assert!(!here.require_grad);
}

#[test]
fn round_trip_gives_identity_and_value_back() {
    let source: Weight = Param::from_data(TensorData::from([[1.5f32, -2.0]]), &CPU_AUTODIFF);
    let target: Weight = Param::from_tensor(ones(1, 2, &CPU_AUTODIFF)).no_grad();
    let id = source.id;
    let loaded = target.load_record(source.into_record());
    assert_eq!(loaded.id, id);
    assert!(!loaded.is_require_grad());
    assert_eq!(data::<2>(&loaded.val()), TensorData::from([[1.5f32, -2.0]]));
}

#[test]
fn lazy_parameters_tell_what_they_will_be() {
    let init = Tensor::from_data(TensorData::from([[1.0f32, 2.0, 3.0]]), &CPU_AUTODIFF);
    let param: Weight = Param::uninitialized(
        ParamId { value: 9 },
        init,
        CPU_AUTODIFF,
        true,
        Shape::new([1, 3]),
    );
    assert_eq!(param.lazy_shape().to_vec(), vec![1, 3]);
    assert_eq!(param.lazy_rank(), 2);
    assert_eq!(param.lazy_device(), CPU_AUTODIFF);
    assert!(param.lazy_is_require_grad());
    assert!(param.is_require_grad());
    let frozen = param.set_require_grad(false);
    assert!(!frozen.lazy_is_require_grad());
    assert!(!frozen.require_grad);
    assert!(!frozen.is_require_grad());
    let adapted = frozen.with_lora(1, scalar(1.0), &CPU_AUTODIFF);
    assert_eq!(data::<2>(&adapted.val()), TensorData::from([[1.0f32, 2.0, 3.0]]));
}

#[test]
fn moving_and_forking() {
    let param: Weight = Param::from_tensor(ones(2, 2, &CPU_AUTODIFF));
    let moved = param.clone().to_device(&OTHER_AUTODIFF);
    assert_eq!(moved.val().device(), OTHER_AUTODIFF);
    assert_eq!(moved.val().node.requirement(), Requirement::Derived);
    assert!(!moved.require_grad);
    let forked = param.clone().fork(&OTHER_AUTODIFF);
    assert_eq!(forked.val().device(), OTHER_AUTODIFF);
    assert!(forked.is_require_grad());
    assert!(forked.require_grad);
    assert_eq!(data::<2>(&forked.val()), TensorData::from([[1.0f32; 2]; 2]));
    assert!(!param.no_grad().fork(&OTHER_AUTODIFF).is_require_grad());
}

#[test]
fn devices_are_collected_once() {
    let param: Weight = Param::from_tensor(ones(2, 2, &CPU));
    assert_eq!(param.collect_devices(vec![]), vec![CPU]);
    assert_eq!(param.collect_devices(vec![CPU]), vec![CPU]);
    assert_eq!(
        param.collect_devices(vec![OTHER_AUTODIFF]),
        vec![OTHER_AUTODIFF, CPU]
    );
}

#[test]
fn parameters_are_described() {
    let param: Weight = Param::from_tensor(ones(4, 12, &CPU));
    assert_eq!(param.content(None), "ParamTensor {rank: 2, shape: [4, 12], kind: float}");
    assert_eq!(
        param.content(Some("abc")),
        "ParamTensor {rank: 2, shape: [4, 12], kind: float, id: abc}"
    );
    let ints = Tensor::<Int>::from_data(TensorData::from([1i32, 2, 3]), &CPU);
    let param: Param<Tensor<Int>> = Param::initialized(ParamId::new(), ints);
    assert_eq!(param.content(None), "ParamTensor {rank: 1, shape: [3], kind: int}");
    let bools = Tensor::<Bool>::from_data(TensorData::from([true]), &CPU);
    let param: Param<Tensor<Bool>> = Param::initialized(ParamId::new(), bools);
    assert_eq!(
        param.content(Some("x")),
        "ParamTensor {rank: 1, shape: [1], kind: bool, id: x}"
    );
}

#[test]
fn parameters_of_integers_have_no_gradients() {
    let ints = Tensor::<Int>::from_data(TensorData::from([1i32, 2, 3]), &CPU_AUTODIFF);
    let param: Param<Tensor<Int>> = Param::initialized(ParamId { value: 4 }, ints);
    assert_eq!(param.lazy_shape().to_vec(), vec![3]);
    assert!(!param.clone().set_require_grad(true).is_require_grad());
    let valid = param.valid();
    assert!(!valid.val().device().autodiff);
    let back: Param<Tensor<Int>> = Param::<Tensor<Int>>::from_inner(valid);
    assert_eq!(back.val().device(), CPU_AUTODIFF);
    assert_eq!(back.id, ParamId { value: 4 });
    assert_eq!(back.collect_devices(vec![]), vec![CPU_AUTODIFF]);
    let forked = back.fork(&OTHER_AUTODIFF);
    assert_eq!(forked.val().device(), OTHER_AUTODIFF);
    let loaded = param.load_record(forked.into_record());
    assert_eq!(loaded.val().device(), CPU_AUTODIFF);
    assert_eq!(loaded.id, ParamId { value: 4 });
}

#[test]
fn parameters_of_truth_values_have_no_gradients() {
    let bools = Tensor::<Bool>::from_data(TensorData::from([true, false]), &CPU_AUTODIFF);
    let param: Param<Tensor<Bool>> = Param::initialized(ParamId { value: 6 }, bools);
    assert_eq!(param.lazy_shape().to_vec(), vec![2]);
    assert!(!param.clone().set_require_grad(true).is_require_grad());
    let valid = param.valid();
    assert!(!valid.val().device().autodiff);
    let back: Param<Tensor<Bool>> = Param::<Tensor<Bool>>::from_inner(valid);
    assert_eq!(back.val().device(), CPU_AUTODIFF);
    let forked = back.fork(&OTHER_AUTODIFF);
    let loaded = param.load_record(forked.into_record());
    assert_eq!(loaded.val().device(), CPU_AUTODIFF);
    assert_eq!(loaded.id, ParamId { value: 6 });
}

fn nested(first: &str, second: &str) -> Field<Field<Weight>> {
    let weight = Param::from_tensor(ones(2, 3, &CPU));
    Field::new(first, "Struct:Outer", Field::new(second, "Struct:Inner", weight))
}

#[test]
fn patterns_are_looked_for_in_dotted_paths() {
    let adapted = |pattern: &str| {
        let config = LoraConfig::new(1, scalar(1.0)).with_target_modules(vec!["none", pattern]);
        let module = config.apply((nested("enc", "q_proj"), nested("dec", "k_proj")), &CPU);
        (module.0.module.module.has_lora(), module.1.module.module.has_lora())
    };
    assert_eq!(adapted("q_proj"), (true, false));
    assert_eq!(adapted("_proj"), (true, true));
    assert_eq!(adapted("c.q"), (true, false));
    assert_eq!(adapted("dec.k_proj"), (false, true));
    assert_eq!(adapted("enc.k"), (false, false));
    assert_eq!(adapted("q_proj.enc"), (false, false));
    assert_eq!(adapted(""), (true, true));
}

#[test]
fn vectors_are_not_adapted() {
    let module = create_test_module(&CPU);
    let config = LoraConfig::new(2, scalar(2.0));
    let module = config.apply(module, &CPU);
    assert!(!module.1.module.as_ref().unwrap().has_lora());
    match &**module.0.module.lora_transform.as_ref().unwrap() {
        Transform::Lora(state) => {
            assert_eq!(state.rank(), 2);
            assert_eq!(state.lora_a.val().dims(), vec![8, 2]);
            assert_eq!(state.lora_b.val().dims(), vec![2, 4]);
        }
        Transform::Custom(_) => unreachable!(),
    }
}

#[test]
fn injector_forgets_left_parts() {
    let targets = vec!["a.b".to_string()];
    let mut injector = LoraInjector::new(1, scalar(1.0), &targets, &CPU);
    let at = |injector: &LoraInjector| injector.path_matches();
    assert!(!at(&injector));
    ModuleMapper::<NoTransform>::enter_module(&mut injector, "a", "S");
    ModuleMapper::<NoTransform>::enter_module(&mut injector, "b", "S");
    assert!(at(&injector));
    ModuleMapper::<NoTransform>::exit_module(&mut injector, "b", "S");
    assert!(!at(&injector));
    ModuleMapper::<NoTransform>::exit_module(&mut injector, "a", "S");
    ModuleMapper::<NoTransform>::exit_module(&mut injector, "a", "S");
    assert!(!at(&injector));
}

#[test]
fn freezing_spares_factors_but_not_parts_named_lora() {
    let adapter: Weight = Param::from_tensor(ones(2, 3, &CPU_AUTODIFF));
    let weight: Weight = Param::from_tensor(ones(2, 3, &CPU_AUTODIFF));
    let weight = weight.with_lora(1, scalar(1.0), &CPU_AUTODIFF);
    let after: Weight = Param::from_tensor(ones(2, 3, &CPU_AUTODIFF));
    let module = (
        Field::new("lora", "Struct:Model", Field::new("down", "Struct:Adapter", adapter)),
        (
            Field::new("weight", "Struct:Model", weight),
            Field::new("after", "Struct:Model", after),
        ),
    );
    let module = freeze_non_lora(module);
    assert!(!module.0.module.module.is_require_grad());
    assert!(!module.0.module.module.require_grad);
    let weight = &module.1 .0.module;
    assert!(!weight.is_require_grad());
    assert!(!weight.require_grad);
    assert!(!module.1 .1.module.is_require_grad());
    match &**weight.lora_transform.as_ref().unwrap() {
        Transform::Lora(state) => {
            assert!(state.lora_a.is_require_grad());
            assert!(state.lora_b.is_require_grad());
        }
        Transform::Custom(_) => unreachable!(),
    }
    assert_eq!(data::<2>(&weight.val()), TensorData::from([[1.0f32; 3]; 2]));
}

#[test]
fn visitors_meet_factors_as_a_part() {
    let module = LoraConfig::new(2, scalar(2.0)).apply(create_test_module(&CPU), &CPU);
    let survey = Survey::of(&module);
    assert_eq!(
        survey.scopes,
        vec!["Struct:Linear/weight", "Struct:LoraState/lora", "Struct:Linear/bias"]
    );
    assert_eq!(survey.lora_depth, 0);
    assert_eq!(survey.originals.len(), 2);
}

/// Doubles every parameter, and the factors of adapted ones one by one.
struct Optimizer {
    factors: bool,
    met: Vec<(ParamId, bool)>,
}

impl<C> ModuleMapper<C> for Optimizer
where
    C: LoraTransform<Tensor<Float>, C>,
{
    fn enter_module(&mut self, _name: &str, _container_type: &str) {}

    fn exit_module(&mut self, _name: &str, _container_type: &str) {}

    fn map_float(&mut self, param: Param<Tensor<Float>, C>) -> Param<Tensor<Float>, C> {
        self.met.push((param.id, param.require_grad));
        param.map(|tensor| tensor.mul_scalar(Factor::Constant(scalar(2.0))))
    }

    fn map_int(&mut self, param: Param<Tensor<Int>, C>) -> Param<Tensor<Int>, C> {
        param
    }

    fn map_bool(&mut self, param: Param<Tensor<Bool>, C>) -> Param<Tensor<Bool>, C> {
        param
    }

    fn updates_lora_params(&self) -> bool {
        self.factors
    }
}

fn adapted_by_ones() -> Weight {
    let param: Weight = Param::from_tensor(ones(2, 2, &CPU_AUTODIFF));
    let lora = LoraState {
        lora_a: Param::from_tensor(ones(2, 1, &CPU_AUTODIFF)),
        lora_b: Param::from_tensor(ones(1, 2, &CPU_AUTODIFF)),
        scaling: Factor::Constant(scalar(1.0)),
    };
    param.with_lora_transform(Arc::new(Transform::Lora(lora)))
}

#[test]
fn optimizers_update_factors_one_by_one() {
    let param = adapted_by_ones();
    let id = param.id;
    let (id_a, id_b) = match &**param.lora_transform.as_ref().unwrap() {
        Transform::Lora(state) => (state.lora_a.id, state.lora_b.id),
        Transform::Custom(_) => unreachable!(),
    };
    let mut optimizer = Optimizer { factors: true, met: Vec::new() };
    let out = Module::map(param, &mut optimizer);
    assert_eq!(optimizer.met, vec![(id, false), (id_a, true), (id_b, true)]);
    assert_eq!(out.id, id);
    assert!(out.has_lora());
    assert_eq!(data::<2>(&out.val_original()), TensorData::from([[2.0f32; 2]; 2]));
    // 2 + (2 * 2)
    assert_eq!(data::<2>(&out.val()), TensorData::from([[6.0f32; 2]; 2]));
}

#[test]
fn other_mappers_see_adapted_parameters_whole() {
    let param = adapted_by_ones();
    let id = param.id;
    let mut optimizer = Optimizer { factors: false, met: Vec::new() };
    let out = Module::map(param, &mut optimizer);
    assert_eq!(optimizer.met, vec![(id, true)]);
    assert_eq!(data::<2>(&out.val_original()), TensorData::from([[2.0f32; 2]; 2]));
    assert_eq!(data::<2>(&out.val()), TensorData::from([[3.0f32; 2]; 2]));
}

#[test]
fn optimizers_update_parameters_without_factors_whole() {
    let param: Param<Tensor<Float>, DoublingTransform> =
        Param::from_tensor(ones(2, 2, &CPU_AUTODIFF));
    let param = param.with_lora_transform(Arc::new(Transform::Custom(DoublingTransform)));
    let id = param.id;
    let mut optimizer = Optimizer { factors: true, met: Vec::new() };
    let out = Module::map(param, &mut optimizer);
    assert_eq!(optimizer.met, vec![(id, true)]);
    assert_eq!(out.id, id);
    assert!(out.has_lora());
    assert_eq!(data::<2>(&out.val_original()), TensorData::from([[2.0f32; 2]; 2]));
    assert_eq!(data::<2>(&out.val()), TensorData::from([[4.0f32; 2]; 2]));
}

#[test]
fn transforms_forward_to_what_they_hold() {
    let state: LoraState<Tensor<Float>> = LoraState::new(3, scalar(1.0), 4, 5, &CPU);
    let id_a = state.lora_a.id;
    let transform = Transform::Lora(state);
    assert_eq!(transform.rank(), 3);
    assert_eq!(transform.lora_a_param().unwrap().id, id_a);
    assert_eq!(data::<2>(&transform.apply(ones(4, 5, &CPU))), data::<2>(&ones(4, 5, &CPU)));
    assert_eq!(NoTransform.rank(), 0);
    assert!(NoTransform.lora_a_param().is_none());
    assert!(NoTransform.lora_b_param().is_none());
    assert_eq!(data::<2>(&NoTransform.apply(ones(1, 1, &CPU))), TensorData::from([[1.0f32]]));
}

#[test]
fn configurations_are_copied() {
    let config = LoraConfig::new(8, scalar(16.0)).with_target_modules(vec!["q_proj", "v_proj"]);
    let copy = config.clone();
    assert_eq!(copy.rank, 8);
    assert_eq!(copy.alpha.elem::<f64>(), 16.0);
    assert_eq!(copy.target_modules, vec!["q_proj", "v_proj"]);
    assert!(LoraConfig::new(8, scalar(16.0)).target_modules.is_empty());
}

#[test]
fn sources_are_described_by_what_is_known_of_them() {
    let tensor: Tensor<Float> =
        Tensor::from_source(3, Shape::new([2, 5]), &CPU_AUTODIFF, Requirement::Derived);
    assert_eq!(tensor.dims(), vec![2, 5]);
    assert_eq!(tensor.device(), CPU_AUTODIFF);
    assert!(!tensor.is_require_grad());
    let detached = tensor.detach();
    assert_eq!(detached.node.requirement(), Requirement::Untracked);
    assert!(Parameter::set_require_grad(detached, true).is_require_grad());
}

#[test]
fn operations_that_do_not_fit_are_told() {
    let node = |tensor: &Tensor<Float>| tensor.node.clone();
    let (wide, tall) = (ones(2, 3, &CPU), ones(3, 2, &CPU));
    assert!(Node::Matmul(node(&wide), node(&tall)).can_run());
    assert!(!Node::Matmul(node(&wide), node(&wide)).can_run());
    assert!(!Node::Add(node(&wide), node(&tall)).can_run());
    assert!(Node::Add(node(&wide), node(&ones(1, 3, &CPU))).can_run());
    let vector: Tensor<Float> = Tensor::from_data(TensorData::from([1.0f32, 2.0, 3.0]), &CPU);
    assert!(!Node::Add(node(&wide), node(&vector)).can_run());
    assert!(!Node::Matmul(node(&wide), node(&vector)).can_run());
    let elsewhere = ones(2, 3, &CPU_AUTODIFF);
    assert!(!Node::Add(node(&wide), node(&elsewhere)).can_run());
    assert!(!Node::RequireGrad(node(&wide)).can_run());
    assert!(Node::RequireGrad(node(&elsewhere)).can_run());
    let leaf = Parameter::set_require_grad(elsewhere, true);
    let product = leaf.mul_scalar(Factor::Constant(scalar(2.0)));
    assert!(product.can_run());
    assert!(!Node::RequireGrad(node(&product)).can_run());
    assert!(!Node::FromInner(node(&product)).can_run());
    assert!(Node::Inner(node(&product)).can_run());
}

#[test]
fn fine_tuning_trains_factors_only() {
    let config = LoraConfig::new(2, scalar(2.0));
    let module = config.apply(create_test_module(&CPU_AUTODIFF), &CPU_AUTODIFF);
    let module = freeze_non_lora(module);
    let (weight, bias) = (&module.0.module, module.1.module.as_ref().unwrap());
    assert!(!weight.require_grad && !weight.is_require_grad());
    assert!(!bias.require_grad && !bias.is_require_grad());
    let transform = weight.lora_transform.as_ref().unwrap();
    let (lora_a, lora_b) =
        (transform.lora_a_param().unwrap(), transform.lora_b_param().unwrap());
    assert!(lora_a.require_grad && lora_a.is_require_grad());
    assert!(lora_b.require_grad && lora_b.is_require_grad());

    // The backward pass finds gradients for the factors.
    let device = Default::default();
    let a = run::<Diff, 2>(&lora_a.val().node);
    let b = run::<Diff, 2>(&lora_b.val().node);
    let base = run::<Diff, 2>(&weight.val_original().node);
    let x = burn_tensor::Tensor::<Diff, 2>::from_data(input(), &device);
    let delta = a.clone().matmul(b.clone()).mul_scalar(1.0);
    let grads = x.matmul(base.clone() + delta).sum().backward();
    assert!(a.grad(&grads).is_some());
    assert!(b.grad(&grads).is_some());
    assert!(base.grad(&grads).is_none());
}

#[test]
fn identities_are_their_numbers() {
    assert_eq!(ParamId::from_value(41).value, 41);
    assert_eq!(ParamId::from_value(41), ParamId { value: 41 });
    assert_ne!(ParamId::from_value(41), ParamId::from_value(42));
    assert_ne!(ParamId::new(), ParamId::new());
}

#[test]
fn freezing_goes_by_the_scope_of_adaptations() {
    let trained = |name: &str, container_type: &str| {
        let param: Weight = Param::from_tensor(ones(2, 3, &CPU_AUTODIFF));
        let part = Field::new("w", "Struct:Part", param);
        let module = freeze_non_lora(Field::new(name, container_type, part));
        let param = module.module.module;
        assert_eq!(param.require_grad, param.is_require_grad());
        param.require_grad
    };
    assert!(trained("lora", "Struct:LoraState"));
    assert!(!trained("lora", "Struct:Model"));
    assert!(!trained("other", "Struct:LoraState"));
    assert!(!trained("lora2", "Struct:LoraState"));

    // Adaptations that have ended do not count.
    let inside: Weight = Param::from_tensor(ones(2, 3, &CPU_AUTODIFF));
    let after: Weight = Param::from_tensor(ones(2, 3, &CPU_AUTODIFF));
    let scope = Field::new("lora", "Struct:LoraState", inside);
    let module = freeze_non_lora((scope, Field::new("after", "Struct:Model", after)));
    assert!(module.0.module.is_require_grad());
    assert!(!module.1.module.is_require_grad());
}

#[test]
fn freezing_twice_is_freezing_once() {
    let param = adapted_by_ones();
    let once = freeze_non_lora(Field::new("weight", "Struct:Linear", param));
    let value = data::<2>(&once.module.val());
    assert_eq!(value, TensorData::from([[2.0f32; 2]; 2]));
    let id = once.module.id;
    let twice = freeze_non_lora(once);
    assert_eq!(twice.module.id, id);
    assert!(!twice.module.require_grad && !twice.module.is_require_grad());
    assert_eq!(data::<2>(&twice.module.val()), value);
    let transform = twice.module.lora_transform.as_ref().unwrap();
    assert!(transform.lora_a_param().unwrap().is_require_grad());
    assert!(transform.lora_b_param().unwrap().is_require_grad());
}

#[test]
fn freezing_keeps_values_under_custom_transforms() {
    let param: Param<Tensor<Float>, DoublingTransform> =
        Param::from_tensor(ones(2, 2, &CPU_AUTODIFF));
    let param = param.with_lora_transform(Arc::new(Transform::Custom(DoublingTransform)));
    let frozen = freeze_non_lora(param);
    assert!(!frozen.is_require_grad());
    assert!(frozen.has_lora());
    assert_eq!(data::<2>(&frozen.val()), TensorData::from([[2.0f32; 2]; 2]));
}

#[test]
fn new_factors_are_small() {
    for key in [1, 2, 99] {
        let ids = (ParamId::from_value(1), ParamId::from_value(2));
        let state: LoraState<Tensor<Float>> =
            LoraState::from_draw(key, ids.0, ids.1, 3, scalar(1.0), 16, 5, &CPU);
        let elements = data::<2>(&state.lora_a.val()).to_vec::<f32>().unwrap();
        assert_eq!(elements.len(), 48);
        assert!(elements.iter().all(|element| element.abs() <= 0.25));
        assert!(elements.iter().any(|element| element.abs() > 0.0625));
    }
}

#[test]
fn mappers_that_undo_each_other_give_the_value_back() {
    let mut source: Weight = Param::from_data(TensorData::from([[1.5f32, -2.0]]), &CPU_AUTODIFF);
    source.param_mapper.save = Some(Arc::new(Box::new(Times(4.0))));
    let mut target: Weight = Param::from_tensor(ones(1, 2, &OTHER_AUTODIFF)).no_grad();
    target.param_mapper.load = Some(Arc::new(Box::new(Times(0.25))));
    let id = source.id;
    let loaded = target.load_record(source.into_record());
    assert_eq!(loaded.id, id);
    assert!(!loaded.require_grad && !loaded.is_require_grad());
    assert_eq!(loaded.val().device(), OTHER_AUTODIFF);
    assert_eq!(data::<2>(&loaded.val()), TensorData::from([[1.5f32, -2.0]]));
}

#[test]
fn reading_keeps_what_was_told() {
    let init = ones(2, 3, &CPU_AUTODIFF);
    let param: Weight =
        Param::uninitialized(ParamId::new(), init, CPU_AUTODIFF, true, Shape::new([2, 3]));
    let told = (param.lazy_shape().to_vec(), param.lazy_device(), param.lazy_is_require_grad());
    let value = param.val();
    assert_eq!((value.dims(), value.device(), value.is_require_grad()), told);
    let initialised = param.map(|tensor| tensor);
    assert_eq!(initialised.lazy_shape().to_vec(), told.0);
    assert_eq!(initialised.lazy_device(), told.1);
    assert_eq!(initialised.lazy_is_require_grad(), told.2);
}
