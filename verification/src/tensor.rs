//! Deferred tensors.
//!
//! A tensor is a node of an operation graph. Running an operation only adds a
//! node; a backend evaluates the graph, each node once. The dimensions, the
//! device and the gradient requirement of a node are functions of the graph, so
//! they are known before anything is evaluated.

use std::marker::PhantomData;
use std::sync::Arc;

use burn_tensor::{Scalar, Shape, TensorData};
use vstd::prelude::*;

use crate::shape::{
    broadcast_shape, clone_shape, data_shape, matmul_shape, matrix_shape, shape_to_vec,
};

verus! {

/// Where a tensor lives. `autodiff` tells whether the tensors of this device are
/// those of a backend that records operations for a backward pass.
#[derive(Clone, Copy, Debug, PartialEq, Eq, Structural)]
pub struct Device {
    /// The type of the device.
    pub type_id: u16,
    /// The number of the device among those of its type.
    pub index_id: u16,
    /// Whether operations on it are recorded for differentiation.
    pub autodiff: bool,
}

/// How a tensor takes part in differentiation.
#[derive(Clone, Copy, Debug, PartialEq, Eq, Structural)]
pub enum Requirement {
    /// Not recorded.
    Untracked,
    /// A leaf whose gradient is wanted.
    Leaf,
    /// The result of operations on tracked tensors.
    Derived,
}

/// A number that a tensor is multiplied by.
#[derive(Clone, Copy, Debug)]
pub enum Factor {
    /// The number itself.
    Constant(Scalar),
    /// `alpha / rank`.
    Ratio {
        /// The numerator.
        alpha: Scalar,
        /// The denominator.
        rank: usize,
    },
    /// The square root of `1 / n`.
    InverseSqrt(usize),
}

/// A node of the operation graph.
#[derive(Debug)]
pub enum Node {
    /// The elements of `data`.
    Data {
        /// Elements and their shape.
        data: TensorData,
        /// Where they are copied to.
        device: Device,
    },
    /// A matrix of zeros.
    Zeros {
        /// Number of rows.
        rows: usize,
        /// Number of columns.
        cols: usize,
        /// Where it is allocated.
        device: Device,
    },
    /// A matrix drawn uniformly between -1 and 1.
    Uniform {
        /// Tells this draw from all others.
        key: u64,
        /// Number of rows.
        rows: usize,
        /// Number of columns.
        cols: usize,
        /// Where it is allocated.
        device: Device,
    },
    /// A tensor that the backend holds under a key.
    Source {
        /// The key.
        key: u64,
        /// Its shape.
        shape: Shape,
        /// Where it lives.
        device: Device,
        /// How it takes part in differentiation.
        requirement: Requirement,
    },
    /// Matrix product.
    Matmul(Arc<Node>, Arc<Node>),
    /// Multiplication of every element by one number.
    MulScalar(Arc<Node>, Factor),
    /// Sum, element by element.
    Add(Arc<Node>, Arc<Node>),
    /// Copy on another device.
    ToDevice(Arc<Node>, Device),
    /// The same elements, as a leaf whose gradient is wanted.
    RequireGrad(Arc<Node>),
    /// The same elements, as an untracked leaf.
    Untrack(Arc<Node>),
    /// The same elements, cut off from the operations that gave them.
    Detach(Arc<Node>),
    /// The same elements, on the backend that autodiff wraps.
    Inner(Arc<Node>),
    /// The same elements, on the autodiff backend.
    FromInner(Arc<Node>),
}

impl Requirement {
    /// The requirement of a result of operations on tensors with these
    /// requirements.
    pub open spec fn infer_spec(self, other: Requirement) -> Requirement {
        if self == Requirement::Untracked && other == Requirement::Untracked {
            Requirement::Untracked
        } else {
            Requirement::Derived
        }
    }

    fn infer(self, other: Requirement) -> (out: Requirement)
        ensures
            out == self.infer_spec(other),
    {
        if self == Requirement::Untracked && other == Requirement::Untracked {
            Requirement::Untracked
        } else {
            Requirement::Derived
        }
    }
}

impl Node {
    /// The dimensions of the value, outermost first.
    pub open spec fn dims(self) -> Seq<usize>
        decreases self,
    {
        match self {
            Node::Data { data, device } => crate::shape::data_dims(data),
            Node::Zeros { rows, cols, device } => seq![rows, cols],
            Node::Uniform { key, rows, cols, device } => seq![rows, cols],
            Node::Source { key, shape, device, requirement } => crate::shape::shape_dims(shape),
            Node::Matmul(lhs, rhs) => seq![lhs.dims()[0], rhs.dims()[1]],
            Node::Add(lhs, rhs) => crate::shape::broadcast_dims(lhs.dims(), rhs.dims()),
            Node::MulScalar(inner, _) => inner.dims(),
            Node::ToDevice(inner, _) => inner.dims(),
            Node::RequireGrad(inner) => inner.dims(),
            Node::Untrack(inner) => inner.dims(),
            Node::Detach(inner) => inner.dims(),
            Node::Inner(inner) => inner.dims(),
            Node::FromInner(inner) => inner.dims(),
        }
    }

    /// The device that the value lives on.
    pub open spec fn device_spec(self) -> Device
        decreases self,
    {
        match self {
            Node::Data { data, device } => device,
            Node::Zeros { rows, cols, device } => device,
            Node::Uniform { key, rows, cols, device } => device,
            Node::Source { key, shape, device, requirement } => device,
            Node::Matmul(lhs, rhs) => lhs.device_spec(),
            Node::Add(lhs, rhs) => lhs.device_spec(),
            Node::MulScalar(inner, _) => inner.device_spec(),
            Node::ToDevice(inner, device) => device,
            Node::RequireGrad(inner) => inner.device_spec(),
            Node::Untrack(inner) => inner.device_spec(),
            Node::Detach(inner) => inner.device_spec(),
            Node::Inner(inner) => (Device { autodiff: false, ..inner.device_spec() }),
            Node::FromInner(inner) => (Device { autodiff: true, ..inner.device_spec() }),
        }
    }

    /// How the value takes part in differentiation.
    pub open spec fn requirement_spec(self) -> Requirement
        decreases self,
    {
        match self {
            Node::Data { data, device } => Requirement::Untracked,
            Node::Zeros { rows, cols, device } => Requirement::Untracked,
            Node::Uniform { key, rows, cols, device } => Requirement::Untracked,
            Node::Source { key, shape, device, requirement } => requirement,
            Node::Matmul(lhs, rhs) => lhs.requirement_spec().infer_spec(rhs.requirement_spec()),
            Node::Add(lhs, rhs) => lhs.requirement_spec().infer_spec(rhs.requirement_spec()),
            Node::MulScalar(inner, _) => inner.requirement_spec().infer_spec(
                Requirement::Untracked,
            ),
            Node::ToDevice(inner, _) => inner.requirement_spec().infer_spec(
                Requirement::Untracked,
            ),
            Node::RequireGrad(inner) => Requirement::Leaf,
            Node::Untrack(inner) => Requirement::Untracked,
            Node::Detach(inner) => if inner.requirement_spec() == Requirement::Leaf {
                Requirement::Leaf
            } else {
                Requirement::Untracked
            },
            Node::Inner(inner) => Requirement::Untracked,
            Node::FromInner(inner) => Requirement::Untracked,
        }
    }

    /// Whether every operation of the graph can be run: operands are on one
    /// device and have sizes that fit, and gradients are asked for only where
    /// operations are recorded.
    pub open spec fn wf(self) -> bool
        decreases self,
    {
        match self {
            Node::Data { data, device } => true,
            Node::Zeros { rows, cols, device } => true,
            Node::Uniform { key, rows, cols, device } => true,
            Node::Source { key, shape, device, requirement } => device.autodiff || requirement
                == Requirement::Untracked,
            Node::Matmul(lhs, rhs) => {
                &&& lhs.wf()
                &&& rhs.wf()
                &&& lhs.device_spec() == rhs.device_spec()
                &&& lhs.dims().len() == 2
                &&& rhs.dims().len() == 2
                &&& lhs.dims()[1] == rhs.dims()[0]
            },
            Node::Add(lhs, rhs) => {
                &&& lhs.wf()
                &&& rhs.wf()
                &&& lhs.device_spec() == rhs.device_spec()
                &&& crate::shape::broadcastable(lhs.dims(), rhs.dims())
            },
            Node::MulScalar(inner, _) => inner.wf(),
            Node::ToDevice(inner, device) => inner.wf() && inner.device_spec().autodiff
                == device.autodiff,
            Node::RequireGrad(inner) => inner.wf() && inner.device_spec().autodiff
                && inner.requirement_spec() == Requirement::Untracked,
            Node::Untrack(inner) => inner.wf() && inner.device_spec().autodiff,
            Node::Detach(inner) => inner.wf() && inner.device_spec().autodiff,
            Node::Inner(inner) => inner.wf() && inner.device_spec().autodiff,
            Node::FromInner(inner) => inner.wf() && !inner.device_spec().autodiff,
        }
    }

    /// Tells whether every operation of the graph can be run.
    pub fn can_run(&self) -> (out: bool)
        ensures
            out == self.wf(),
        decreases self,
    {
        match self {
            Node::Data { data, device } => true,
            Node::Zeros { rows, cols, device } => true,
            Node::Uniform { key, rows, cols, device } => true,
            Node::Source { key, shape, device, requirement } => device.autodiff || *requirement
                == Requirement::Untracked,
            Node::Matmul(lhs, rhs) => {
                if !lhs.can_run() || !rhs.can_run() || lhs.device() != rhs.device() {
                    return false;
                }
                let left = shape_to_vec(&lhs.shape());
                let right = shape_to_vec(&rhs.shape());
                left.len() == 2 && right.len() == 2 && left[1] == right[0]
            },
            Node::Add(lhs, rhs) => lhs.can_run() && rhs.can_run() && lhs.device()
                == rhs.device() && broadcast_shape(&lhs.shape(), &rhs.shape()).is_ok(),
            Node::MulScalar(inner, _) => inner.can_run(),
            Node::ToDevice(inner, device) => inner.can_run() && inner.device().autodiff
                == device.autodiff,
            Node::RequireGrad(inner) => inner.can_run() && inner.device().autodiff
                && inner.requirement() == Requirement::Untracked,
            Node::Untrack(inner) => inner.can_run() && inner.device().autodiff,
            Node::Detach(inner) => inner.can_run() && inner.device().autodiff,
            Node::Inner(inner) => inner.can_run() && inner.device().autodiff,
            Node::FromInner(inner) => inner.can_run() && !inner.device().autodiff,
        }
    }

    /// The shape of the value.
    pub fn shape(&self) -> (out: Shape)
        requires
            self.wf(),
        ensures
            crate::shape::shape_dims(out) == self.dims(),
        decreases self,
    {
        match self {
            Node::Data { data, device } => data_shape(data),
            Node::Zeros { rows, cols, device } => matrix_shape(*rows, *cols),
            Node::Uniform { key, rows, cols, device } => matrix_shape(*rows, *cols),
            Node::Source { key, shape, device, requirement } => clone_shape(shape),
            Node::Matmul(lhs, rhs) => matmul_shape(&lhs.shape(), &rhs.shape()).unwrap(),
            Node::Add(lhs, rhs) => broadcast_shape(&lhs.shape(), &rhs.shape()).unwrap(),
            Node::MulScalar(inner, _) => inner.shape(),
            Node::ToDevice(inner, _) => inner.shape(),
            Node::RequireGrad(inner) => inner.shape(),
            Node::Untrack(inner) => inner.shape(),
            Node::Detach(inner) => inner.shape(),
            Node::Inner(inner) => inner.shape(),
            Node::FromInner(inner) => inner.shape(),
        }
    }

    /// The device that the value lives on.
    pub fn device(&self) -> (out: Device)
        ensures
            out == self.device_spec(),
        decreases self,
    {
        match self {
            Node::Data { data, device } => *device,
            Node::Zeros { rows, cols, device } => *device,
            Node::Uniform { key, rows, cols, device } => *device,
            Node::Source { key, shape, device, requirement } => *device,
            Node::Matmul(lhs, rhs) => lhs.device(),
            Node::Add(lhs, rhs) => lhs.device(),
            Node::MulScalar(inner, _) => inner.device(),
            Node::ToDevice(inner, device) => *device,
            Node::RequireGrad(inner) => inner.device(),
            Node::Untrack(inner) => inner.device(),
            Node::Detach(inner) => inner.device(),
            Node::Inner(inner) => {
                let outer = inner.device();
                Device { type_id: outer.type_id, index_id: outer.index_id, autodiff: false }
            },
            Node::FromInner(inner) => {
                let outer = inner.device();
                Device { type_id: outer.type_id, index_id: outer.index_id, autodiff: true }
            },
        }
    }

    /// How the value takes part in differentiation.
    pub fn requirement(&self) -> (out: Requirement)
        ensures
            out == self.requirement_spec(),
        decreases self,
    {
        match self {
            Node::Data { data, device } => Requirement::Untracked,
            Node::Zeros { rows, cols, device } => Requirement::Untracked,
            Node::Uniform { key, rows, cols, device } => Requirement::Untracked,
            Node::Source { key, shape, device, requirement } => *requirement,
            Node::Matmul(lhs, rhs) => lhs.requirement().infer(rhs.requirement()),
            Node::Add(lhs, rhs) => lhs.requirement().infer(rhs.requirement()),
            Node::MulScalar(inner, _) => inner.requirement().infer(Requirement::Untracked),
            Node::ToDevice(inner, _) => inner.requirement().infer(Requirement::Untracked),
            Node::RequireGrad(inner) => Requirement::Leaf,
            Node::Untrack(inner) => Requirement::Untracked,
            Node::Detach(inner) => if inner.requirement() == Requirement::Leaf {
                Requirement::Leaf
            } else {
                Requirement::Untracked
            },
            Node::Inner(inner) => Requirement::Untracked,
            Node::FromInner(inner) => Requirement::Untracked,
        }
    }
}

/// On a device that does not record operations, nothing is tracked.
pub proof fn untracked_without_autodiff(node: &Node)
    requires
        node.wf(),
        !node.device_spec().autodiff,
    ensures
        node.requirement_spec() == Requirement::Untracked,
    decreases node,
{
    match node {
        Node::Matmul(lhs, rhs) => {
            untracked_without_autodiff(&**lhs);
            untracked_without_autodiff(&**rhs);
        },
        Node::Add(lhs, rhs) => {
            untracked_without_autodiff(&**lhs);
            untracked_without_autodiff(&**rhs);
        },
        Node::MulScalar(inner, _) => untracked_without_autodiff(&**inner),
        Node::ToDevice(inner, _) => untracked_without_autodiff(&**inner),
        _ => {},
    }
}

/// The kind of a tensor of real numbers.
#[derive(Clone, Copy, Debug)]
pub struct Float;

/// The kind of a tensor of integers.
#[derive(Clone, Copy, Debug)]
pub struct Int;

/// The kind of a tensor of truth values.
#[derive(Clone, Copy, Debug)]
pub struct Bool;

/// A deferred tensor with elements of kind `K`.
#[derive(Debug)]
pub struct Tensor<K = Float> {
    /// The operation that gives the elements.
    pub node: Arc<Node>,
    /// The kind of the elements.
    pub kind: PhantomData<K>,
}

impl<K> Clone for Tensor<K> {
    /// The same tensor: the graph is shared.
    fn clone(&self) -> (out: Self)
        ensures
            out == *self,
    {
        Tensor { node: self.node.clone(), kind: PhantomData }
    }
}

impl<K> Tensor<K> {
    /// The tensor that `node` describes.
    pub open spec fn of(node: Node) -> Self {
        Tensor { node: Arc::new(node), kind: PhantomData }
    }

    pub(crate) fn from_node(node: Node) -> (out: Self)
        ensures
            out == Self::of(node),
    {
        Tensor { node: Arc::new(node), kind: PhantomData }
    }

    /// Whether every operation of its graph can be run.
    pub open spec fn runs(self) -> bool {
        self.node.wf()
    }

    /// The dimensions, outermost first.
    pub open spec fn dims_spec(self) -> Seq<usize> {
        self.node.dims()
    }

    /// The device.
    pub open spec fn device_spec(self) -> Device {
        self.node.device_spec()
    }

    /// A tensor with the elements of `data` on `device`.
    pub fn from_data(data: TensorData, device: &Device) -> (out: Self)
        ensures
            out == Self::of(Node::Data { data, device: *device }),
            out.runs(),
            out.dims_spec() == crate::shape::data_dims(data),
            out.device_spec() == *device,
            out.node.requirement_spec() == Requirement::Untracked,
    {
        Self::from_node(Node::Data { data, device: *device })
    }

    /// The tensor that the backend holds under `key`.
    pub fn from_source(key: u64, shape: Shape, device: &Device, requirement: Requirement) -> (out:
        Self)
        ensures
            out == Self::of(Node::Source { key, shape, device: *device, requirement }),
            out.runs() == (device.autodiff || requirement == Requirement::Untracked),
            out.dims_spec() == crate::shape::shape_dims(shape),
            out.device_spec() == *device,
            out.node.requirement_spec() == requirement,
    {
        Self::from_node(Node::Source { key, shape, device: *device, requirement })
    }

    /// Tells whether every operation of its graph can be run.
    pub fn can_run(&self) -> (out: bool)
        ensures
            out == self.runs(),
    {
        self.node.can_run()
    }

    /// The shape.
    pub fn shape(&self) -> (out: Shape)
        requires
            self.runs(),
        ensures
            crate::shape::shape_dims(out) == self.dims_spec(),
    {
        self.node.shape()
    }

    /// The dimensions, outermost first.
    pub fn dims(&self) -> (out: Vec<usize>)
        requires
            self.runs(),
        ensures
            out@ == self.dims_spec(),
    {
        shape_to_vec(&self.node.shape())
    }

    /// The device.
    pub fn device(&self) -> (out: Device)
        ensures
            out == self.device_spec(),
    {
        self.node.device()
    }

    /// The tensor moved to `device`.
    pub open spec fn to_device_spec(self, device: Device) -> Self {
        Self::of(Node::ToDevice(self.node, device))
    }

    /// Moves the tensor to `device`, of the same backend.
    pub fn to_device(self, device: &Device) -> (out: Self)
        requires
            self.runs(),
            device.autodiff == self.device_spec().autodiff,
        ensures
            out == self.to_device_spec(*device),
            out.runs(),
            out.device_spec() == *device,
            out.dims_spec() == self.dims_spec(),
    {
        Self::from_node(Node::ToDevice(self.node, *device))
    }

    /// The tensor without autodiff information.
    pub open spec fn inner_spec(self) -> Self {
        Self::of(Node::Inner(self.node))
    }

    /// Gives the tensor without autodiff information.
    pub fn inner(self) -> (out: Self)
        requires
            self.runs(),
            self.device_spec().autodiff,
        ensures
            out == self.inner_spec(),
            out.runs(),
            !out.device_spec().autodiff,
            out.dims_spec() == self.dims_spec(),
    {
        Self::from_node(Node::Inner(self.node))
    }

    /// The tensor on the autodiff backend.
    pub open spec fn from_inner_spec(inner: Self) -> Self {
        Self::of(Node::FromInner(inner.node))
    }

    /// Converts a tensor to the autodiff backend.
    pub fn from_inner(inner: Self) -> (out: Self)
        requires
            inner.runs(),
            !inner.device_spec().autodiff,
        ensures
            out == Self::from_inner_spec(inner),
            out.runs(),
            out.device_spec().autodiff,
            out.dims_spec() == inner.dims_spec(),
    {
        Self::from_node(Node::FromInner(inner.node))
    }
}

impl Tensor<Float> {
    /// A matrix of zeros.
    pub open spec fn zeros_spec(rows: usize, cols: usize, device: Device) -> Self {
        Self::of(Node::Zeros { rows, cols, device })
    }

    /// Makes a matrix of zeros.
    pub fn zeros(rows: usize, cols: usize, device: &Device) -> (out: Self)
        ensures
            out == Self::zeros_spec(rows, cols, *device),
            out.runs(),
            out.dims_spec() == seq![rows, cols],
            out.device_spec() == *device,
            out.node.requirement_spec() == Requirement::Untracked,
    {
        Self::from_node(Node::Zeros { rows, cols, device: *device })
    }

    /// A matrix drawn uniformly between -1 and 1; `key` tells draws apart.
    pub open spec fn uniform_spec(key: u64, rows: usize, cols: usize, device: Device) -> Self {
        Self::of(Node::Uniform { key, rows, cols, device })
    }

    /// Makes a matrix drawn uniformly between -1 and 1; `key` tells draws apart.
    pub fn uniform(key: u64, rows: usize, cols: usize, device: &Device) -> (out: Self)
        ensures
            out == Self::uniform_spec(key, rows, cols, *device),
            out.runs(),
            out.dims_spec() == seq![rows, cols],
            out.device_spec() == *device,
            out.node.requirement_spec() == Requirement::Untracked,
    {
        Self::from_node(Node::Uniform { key, rows, cols, device: *device })
    }

    /// Whether the matrix product with `rhs` can be run.
    pub open spec fn can_matmul(self, rhs: Self) -> bool {
        Self::matmul_spec(self, rhs).runs()
    }

    /// The matrix product.
    pub open spec fn matmul_spec(self, rhs: Self) -> Self {
        Self::of(Node::Matmul(self.node, rhs.node))
    }

    /// Matrix product.
    pub fn matmul(self, rhs: Self) -> (out: Self)
        requires
            self.can_matmul(rhs),
        ensures
            out == self.matmul_spec(rhs),
            out.runs(),
            out.dims_spec() == seq![self.dims_spec()[0], rhs.dims_spec()[1]],
            out.device_spec() == self.device_spec(),
    {
        Self::from_node(Node::Matmul(self.node, rhs.node))
    }

    /// Every element multiplied by `factor`.
    pub open spec fn mul_scalar_spec(self, factor: Factor) -> Self {
        Self::of(Node::MulScalar(self.node, factor))
    }

    /// Multiplies every element by `factor`.
    pub fn mul_scalar(self, factor: Factor) -> (out: Self)
        requires
            self.runs(),
        ensures
            out == self.mul_scalar_spec(factor),
            out.runs(),
            out.dims_spec() == self.dims_spec(),
            out.device_spec() == self.device_spec(),
            out.node.requirement_spec() == self.node.requirement_spec().infer_spec(
                Requirement::Untracked,
            ),
    {
        Self::from_node(Node::MulScalar(self.node, factor))
    }

    /// Whether the sum with `rhs` can be run.
    pub open spec fn can_plus(self, rhs: Self) -> bool {
        Self::plus_spec(self, rhs).runs()
    }

    /// The sum, element by element.
    pub open spec fn plus_spec(self, rhs: Self) -> Self {
        Self::of(Node::Add(self.node, rhs.node))
    }

    /// Sum, element by element.
    pub fn plus(self, rhs: Self) -> (out: Self)
        requires
            self.can_plus(rhs),
        ensures
            out == self.plus_spec(rhs),
            out.runs(),
            out.dims_spec() == crate::shape::broadcast_dims(self.dims_spec(), rhs.dims_spec()),
            out.device_spec() == self.device_spec(),
    {
        Self::from_node(Node::Add(self.node, rhs.node))
    }

    /// The tensor cut off from the operations that gave it.
    pub open spec fn detach_spec(self) -> Self {
        if self.device_spec().autodiff {
            Self::of(Node::Detach(self.node))
        } else {
            self
        }
    }

    /// Cuts the tensor off from the operations that gave it. A leaf stays one.
    /// Without autodiff, nothing happens.
    pub fn detach(self) -> (out: Self)
        requires
            self.runs(),
        ensures
            out == self.detach_spec(),
            out.runs(),
            out.dims_spec() == self.dims_spec(),
            out.device_spec() == self.device_spec(),
            out.node.requirement_spec() == (if self.node.requirement_spec() == Requirement::Leaf {
                Requirement::Leaf
            } else {
                Requirement::Untracked
            }),
    {
        if self.node.device().autodiff {
            Self::from_node(Node::Detach(self.node))
        } else {
            proof {
                untracked_without_autodiff(&*self.node);
            }
            self
        }
    }
}

} // verus!
