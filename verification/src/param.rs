//! Parameters: tensors with an identity, that are initialised lazily, mapped
//! when they are loaded and saved, and possibly adapted by a transform.

pub mod base;
pub mod lora;
pub mod tensor;

pub use base::{Param, ParamId, ParamMapper, ParamState, Parameter, TensorMap, Uninitialized};
pub use lora::{LoraState, LoraTransform, NoTransform, Transform};
