//! Parameters of neural networks with low-rank adaptation.
//!
//! A [`Tensor`](tensor::Tensor) is deferred: it is a graph of operations that a
//! backend runs later. What a parameter needs to know of it (its dimensions,
//! the device it lives on, whether it is tracked for gradients) is read off the
//! graph. Parameters, their low-rank transforms and the maps over whole modules
//! are built on top of these tensors.

pub mod laws;
pub mod lora;
pub mod module;
pub mod param;
pub mod semantics;
pub mod shape;
pub mod tensor;
pub mod text;
