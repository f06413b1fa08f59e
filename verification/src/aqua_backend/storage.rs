//! Tensor operations on an AQuA device: each runs on the host values, once
//! every operand was found on the same device.

use crate::aqua_backend::{
    AquaDevice, AquaDispatch, AquaExecutor, AquaMatMulRequest, AquaStorage, CpuFallbackAquaExecutor,
};
use crate::cpu_storage::{CpuStorage, DType, WithDType};
use crate::error;
use crate::error::Error;
use crate::shape::{Layout, Shape};
use crate::text;
use vstd::prelude::*;

verus! {

/// How a reduction combines values.
#[derive(Clone, Copy, Debug, PartialEq, Eq, Structural)]
pub enum ReduceOp {
    Sum,
    Min,
    Max,
    ArgMin,
    ArgMax,
}

/// How a comparison relates values.
#[derive(Clone, Copy, Debug, PartialEq, Eq, Structural)]
pub enum CmpOp {
    Eq,
    Ne,
    Le,
    Ge,
    Lt,
    Gt,
}

/// The host's implementation of the tensor operations. Fractional arguments
/// are passed as their 64-bit patterns, elementwise functions by their name.
pub trait CpuBackend {
    /// A single value.
    type Scalar;

    /// The settings of a convolution along one dimension.
    type Conv1D;

    /// The settings of a transposed convolution along one dimension.
    type ConvTranspose1D;

    /// The settings of a convolution along two dimensions.
    type Conv2D;

    /// The settings of a transposed convolution along two dimensions.
    type ConvTranspose2D;

    /// Values that are all zero.
    fn zeros(&self, shape: &Shape, dtype: DType) -> Result<CpuStorage, Error>;

    /// Values drawn evenly from a range, given as 64-bit patterns.
    fn rand_uniform(&self, shape: &Shape, dtype: DType, min: u64, max: u64) -> Result<
        CpuStorage,
        Error,
    >;

    /// Values drawn from a normal distribution, given as 64-bit patterns.
    fn rand_normal(&self, shape: &Shape, dtype: DType, mean: u64, deviation: u64) -> Result<
        CpuStorage,
        Error,
    >;

    /// Seeds the generator of random values.
    fn set_seed(&self, seed: u64) -> Result<(), Error>;

    /// The seed of the generator of random values.
    fn get_current_seed(&self) -> Result<u64, Error>;

    /// Multiplies matrices.
    fn matmul(
        &self,
        lhs: &CpuStorage,
        rhs: &CpuStorage,
        bmnk: (usize, usize, usize, usize),
        lhs_layout: &Layout,
        rhs_layout: &Layout,
    ) -> Result<CpuStorage, Error>;

    /// Copies the values that a layout reaches.
    fn try_clone(
        &self,
        src: &CpuStorage,
        layout: &Layout,
    ) -> Result<CpuStorage, Error>;

    /// Multiplies and adds. The numbers are 64-bit patterns.
    fn affine(
        &self,
        src: &CpuStorage,
        layout: &Layout,
        mul: u64,
        add: u64,
    ) -> Result<CpuStorage, Error>;

    /// Raises to a power, given as a 64-bit pattern.
    fn powf(
        &self,
        src: &CpuStorage,
        layout: &Layout,
        alpha: u64,
    ) -> Result<CpuStorage, Error>;

    /// Applies the exponential linear unit; the slope is a 64-bit pattern.
    fn elu(
        &self,
        src: &CpuStorage,
        layout: &Layout,
        alpha: u64,
    ) -> Result<CpuStorage, Error>;

    /// Reduces along dimensions.
    fn reduce_op(
        &self,
        src: &CpuStorage,
        op: ReduceOp,
        layout: &Layout,
        dims: &Vec<usize>,
    ) -> Result<CpuStorage, Error>;

    /// Compares elementwise.
    fn cmp(
        &self,
        src: &CpuStorage,
        op: CmpOp,
        rhs: &CpuStorage,
        lhs_layout: &Layout,
        rhs_layout: &Layout,
    ) -> Result<CpuStorage, Error>;

    /// Converts to another element type.
    fn to_dtype(
        &self,
        src: &CpuStorage,
        layout: &Layout,
        dtype: DType,
    ) -> Result<CpuStorage, Error>;

    /// Applies the elementwise function that goes by a name.
    fn unary_impl(
        &self,
        src: &CpuStorage,
        op: &str,
        layout: &Layout,
    ) -> Result<CpuStorage, Error>;

    /// Applies the elementwise function of two operands that goes by a name.
    fn binary_impl(
        &self,
        src: &CpuStorage,
        op: &str,
        rhs: &CpuStorage,
        lhs_layout: &Layout,
        rhs_layout: &Layout,
    ) -> Result<CpuStorage, Error>;

    /// Chooses between two operands.
    fn where_cond(
        &self,
        src: &CpuStorage,
        layout: &Layout,
        true_value: &CpuStorage,
        true_layout: &Layout,
        false_value: &CpuStorage,
        false_layout: &Layout,
    ) -> Result<CpuStorage, Error>;

    /// Convolves along one dimension.
    fn conv1d(
        &self,
        src: &CpuStorage,
        layout: &Layout,
        kernel: &CpuStorage,
        kernel_layout: &Layout,
        params: &Self::Conv1D,
    ) -> Result<CpuStorage, Error>;

    /// Convolves, transposed, along one dimension.
    fn conv_transpose1d(
        &self,
        src: &CpuStorage,
        layout: &Layout,
        kernel: &CpuStorage,
        kernel_layout: &Layout,
        params: &Self::ConvTranspose1D,
    ) -> Result<CpuStorage, Error>;

    /// Convolves along two dimensions.
    fn conv2d(
        &self,
        src: &CpuStorage,
        layout: &Layout,
        kernel: &CpuStorage,
        kernel_layout: &Layout,
        params: &Self::Conv2D,
    ) -> Result<CpuStorage, Error>;

    /// Convolves, transposed, along two dimensions.
    fn conv_transpose2d(
        &self,
        src: &CpuStorage,
        layout: &Layout,
        kernel: &CpuStorage,
        kernel_layout: &Layout,
        params: &Self::ConvTranspose2D,
    ) -> Result<CpuStorage, Error>;

    /// Averages over windows.
    fn avg_pool2d(
        &self,
        src: &CpuStorage,
        layout: &Layout,
        kernel: (usize, usize),
        stride: (usize, usize),
    ) -> Result<CpuStorage, Error>;

    /// Takes the largest value of each window.
    fn max_pool2d(
        &self,
        src: &CpuStorage,
        layout: &Layout,
        kernel: (usize, usize),
        stride: (usize, usize),
    ) -> Result<CpuStorage, Error>;

    /// Repeats the nearest value along one dimension.
    fn upsample_nearest1d(
        &self,
        src: &CpuStorage,
        layout: &Layout,
        target: usize,
    ) -> Result<CpuStorage, Error>;

    /// Repeats the nearest value along two dimensions.
    fn upsample_nearest2d(
        &self,
        src: &CpuStorage,
        layout: &Layout,
        target_h: usize,
        target_w: usize,
    ) -> Result<CpuStorage, Error>;

    /// Interpolates along two dimensions; the scales are 64-bit patterns.
    fn upsample_bilinear2d(
        &self,
        src: &CpuStorage,
        layout: &Layout,
        target_h: usize,
        target_w: usize,
        align_corners: bool,
        scale_h: Option<u64>,
        scale_w: Option<u64>,
    ) -> Result<CpuStorage, Error>;

    /// Gathers by index along a dimension.
    fn gather(
        &self,
        src: &CpuStorage,
        layout: &Layout,
        indexes: &CpuStorage,
        indexes_layout: &Layout,
        dim: usize,
    ) -> Result<CpuStorage, Error>;

    /// Selects entries by index along a dimension.
    fn index_select(
        &self,
        src: &CpuStorage,
        indexes: &CpuStorage,
        input_layout: &Layout,
        indexes_layout: &Layout,
        dim: usize,
    ) -> Result<CpuStorage, Error>;

    /// Adds entries at indexes along a dimension.
    fn index_add(
        &self,
        src: &CpuStorage,
        layout: &Layout,
        indexes: &CpuStorage,
        indexes_layout: &Layout,
        source: &CpuStorage,
        source_layout: &Layout,
        dim: usize,
    ) -> Result<CpuStorage, Error>;

    /// Stores values at indexes along a dimension, in place. The changed values
    /// come back with the outcome.
    fn scatter_set(
        &self,
        dst: CpuStorage,
        layout: &Layout,
        indexes: &CpuStorage,
        indexes_layout: &Layout,
        source: &CpuStorage,
        source_layout: &Layout,
        dim: usize,
    ) -> (CpuStorage, Result<(), Error>);

    /// Adds values at indexes along a dimension, in place. The changed values
    /// come back with the outcome.
    fn scatter_add_set(
        &self,
        dst: CpuStorage,
        layout: &Layout,
        indexes: &CpuStorage,
        indexes_layout: &Layout,
        source: &CpuStorage,
        source_layout: &Layout,
        dim: usize,
    ) -> (CpuStorage, Result<(), Error>);

    /// Stores one value everywhere that a layout reaches, in place. The changed
    /// values come back with the outcome.
    fn const_set(
        &self,
        dst: CpuStorage,
        value: Self::Scalar,
        layout: &Layout,
    ) -> (CpuStorage, Result<(), Error>);

    /// Copies the values that a layout reaches into another storage. The changed
    /// storage comes back with the outcome.
    fn copy_strided_src(
        &self,
        src: &CpuStorage,
        dst: CpuStorage,
        dst_offset: usize,
        src_layout: &Layout,
    ) -> (CpuStorage, Result<(), Error>);

    /// Copies a rectangle of values into another storage. The changed
    /// storage comes back with the outcome.
    fn copy2d(
        &self,
        src: &CpuStorage,
        dst: CpuStorage,
        d1: usize,
        d2: usize,
        src_stride: usize,
        dst_stride: usize,
        src_offset: usize,
        dst_offset: usize,
    ) -> (CpuStorage, Result<(), Error>);

}

impl<E> AquaStorage<E> {
    /// The outcome of a host operation, on this storage's device.
    fn carry(&self, host: Result<CpuStorage, Error>) -> (outcome: Result<Self, Error>)
        ensures
            self.carries(outcome, host),
    {
        match host {
            Ok(cpu) => Ok(self.replace_cpu_storage(cpu)),
            Err(error) => Err(error),
        }
    }

    /// The element type of the values.
    pub fn dtype(&self) -> (dtype: DType)
        ensures
            dtype == self.spec_cpu().spec_dtype(),
    {
        self.cpu_storage().dtype()
    }

    /// The device that the values belong to.
    pub fn device(&self) -> (device: &AquaDevice<E>)
        ensures
            *device == self.spec_device(),
    {
        &self.device
    }

    /// A copy of the host values.
    pub fn to_cpu_storage(&self) -> (outcome: Result<CpuStorage, Error>)
        ensures
            outcome is Ok,
            outcome->Ok_0.same_values(self.spec_cpu()),
    {
        Ok(self.cpu_storage().clone())
    }

    /// Copies the values that a layout reaches.
    pub fn try_clone<B: CpuBackend>(
        &self,
        backend: &B,
        layout: &Layout,
    ) -> (outcome: Result<Self, Error>)
        ensures
            exists|host: Result<CpuStorage, Error>| #[trigger]
                call_ensures(B::try_clone, (backend, &self.spec_cpu(), layout), host) && self.carries(
                    outcome,
                    host,
                ),
    {
        self.carry(backend.try_clone(self.cpu_storage(), layout))
    }

    /// Multiplies and adds. The numbers are 64-bit patterns.
    pub fn affine<B: CpuBackend>(
        &self,
        backend: &B,
        layout: &Layout,
        mul: u64,
        add: u64,
    ) -> (outcome: Result<Self, Error>)
        ensures
            exists|host: Result<CpuStorage, Error>| #[trigger]
                call_ensures(B::affine, (backend, &self.spec_cpu(), layout, mul, add), host) && self.carries(
                    outcome,
                    host,
                ),
    {
        self.carry(backend.affine(self.cpu_storage(), layout, mul, add))
    }

    /// Raises to a power, given as a 64-bit pattern.
    pub fn powf<B: CpuBackend>(
        &self,
        backend: &B,
        layout: &Layout,
        alpha: u64,
    ) -> (outcome: Result<Self, Error>)
        ensures
            exists|host: Result<CpuStorage, Error>| #[trigger]
                call_ensures(B::powf, (backend, &self.spec_cpu(), layout, alpha), host) && self.carries(
                    outcome,
                    host,
                ),
    {
        self.carry(backend.powf(self.cpu_storage(), layout, alpha))
    }

    /// Applies the exponential linear unit; the slope is a 64-bit pattern.
    pub fn elu<B: CpuBackend>(
        &self,
        backend: &B,
        layout: &Layout,
        alpha: u64,
    ) -> (outcome: Result<Self, Error>)
        ensures
            exists|host: Result<CpuStorage, Error>| #[trigger]
                call_ensures(B::elu, (backend, &self.spec_cpu(), layout, alpha), host) && self.carries(
                    outcome,
                    host,
                ),
    {
        self.carry(backend.elu(self.cpu_storage(), layout, alpha))
    }

    /// Reduces along dimensions.
    pub fn reduce_op<B: CpuBackend>(
        &self,
        backend: &B,
        op: ReduceOp,
        layout: &Layout,
        dims: &Vec<usize>,
    ) -> (outcome: Result<Self, Error>)
        ensures
            exists|host: Result<CpuStorage, Error>| #[trigger]
                call_ensures(B::reduce_op, (backend, &self.spec_cpu(), op, layout, dims), host) && self.carries(
                    outcome,
                    host,
                ),
    {
        self.carry(backend.reduce_op(self.cpu_storage(), op, layout, dims))
    }

    /// Compares elementwise.
    pub fn cmp<B: CpuBackend>(
        &self,
        backend: &B,
        op: CmpOp,
        rhs: &Self,
        lhs_layout: &Layout,
        rhs_layout: &Layout,
    ) -> (outcome: Result<Self, Error>)
        ensures
            !self.spec_device().is_same_instance(rhs.spec_device())
                ==> self.mismatches(*rhs, "cmp"@, outcome),
            self.spec_device().is_same_instance(rhs.spec_device()) ==> exists|host: Result<CpuStorage, Error>| #[trigger]
                call_ensures(B::cmp, (backend, &self.spec_cpu(), op, &rhs.spec_cpu(), lhs_layout, rhs_layout), host) && self.carries(
                    outcome,
                    host,
                ),
    {
        match self.ensure_same_device(rhs, "cmp") {
            Ok(()) => {},
            Err(error) => {
                return Err(error);
            },
        }
        self.carry(backend.cmp(self.cpu_storage(), op, rhs.cpu_storage(), lhs_layout, rhs_layout))
    }

    /// Converts to another element type.
    pub fn to_dtype<B: CpuBackend>(
        &self,
        backend: &B,
        layout: &Layout,
        dtype: DType,
    ) -> (outcome: Result<Self, Error>)
        ensures
            exists|host: Result<CpuStorage, Error>| #[trigger]
                call_ensures(B::to_dtype, (backend, &self.spec_cpu(), layout, dtype), host) && self.carries(
                    outcome,
                    host,
                ),
    {
        self.carry(backend.to_dtype(self.cpu_storage(), layout, dtype))
    }

    /// Applies the elementwise function that goes by a name.
    pub fn unary_impl<B: CpuBackend>(
        &self,
        backend: &B,
        op: &str,
        layout: &Layout,
    ) -> (outcome: Result<Self, Error>)
        ensures
            exists|host: Result<CpuStorage, Error>| #[trigger]
                call_ensures(B::unary_impl, (backend, &self.spec_cpu(), op, layout), host) && self.carries(
                    outcome,
                    host,
                ),
    {
        self.carry(backend.unary_impl(self.cpu_storage(), op, layout))
    }

    /// Applies the elementwise function of two operands that goes by a name.
    pub fn binary_impl<B: CpuBackend>(
        &self,
        backend: &B,
        op: &str,
        rhs: &Self,
        lhs_layout: &Layout,
        rhs_layout: &Layout,
    ) -> (outcome: Result<Self, Error>)
        ensures
            !self.spec_device().is_same_instance(rhs.spec_device())
                ==> self.mismatches(*rhs, op@, outcome),
            self.spec_device().is_same_instance(rhs.spec_device()) ==> exists|host: Result<CpuStorage, Error>| #[trigger]
                call_ensures(B::binary_impl, (backend, &self.spec_cpu(), op, &rhs.spec_cpu(), lhs_layout, rhs_layout), host) && self.carries(
                    outcome,
                    host,
                ),
    {
        match self.ensure_same_device(rhs, op) {
            Ok(()) => {},
            Err(error) => {
                return Err(error);
            },
        }
        self.carry(backend.binary_impl(self.cpu_storage(), op, rhs.cpu_storage(), lhs_layout, rhs_layout))
    }

    /// Chooses between two operands.
    pub fn where_cond<B: CpuBackend>(
        &self,
        backend: &B,
        layout: &Layout,
        true_value: &Self,
        true_layout: &Layout,
        false_value: &Self,
        false_layout: &Layout,
    ) -> (outcome: Result<Self, Error>)
        ensures
            !self.spec_device().is_same_instance(true_value.spec_device())
                ==> self.mismatches(*true_value, "where"@, outcome),
            self.spec_device().is_same_instance(true_value.spec_device()) && !self.spec_device().is_same_instance(false_value.spec_device())
                ==> self.mismatches(*false_value, "where"@, outcome),
            self.spec_device().is_same_instance(true_value.spec_device()) && self.spec_device().is_same_instance(false_value.spec_device()) ==> exists|host: Result<CpuStorage, Error>| #[trigger]
                call_ensures(B::where_cond, (backend, &self.spec_cpu(), layout, &true_value.spec_cpu(), true_layout, &false_value.spec_cpu(), false_layout), host) && self.carries(
                    outcome,
                    host,
                ),
    {
        match self.ensure_same_device(true_value, "where") {
            Ok(()) => {},
            Err(error) => {
                return Err(error);
            },
        }
        match self.ensure_same_device(false_value, "where") {
            Ok(()) => {},
            Err(error) => {
                return Err(error);
            },
        }
        self.carry(backend.where_cond(self.cpu_storage(), layout, true_value.cpu_storage(), true_layout, false_value.cpu_storage(), false_layout))
    }

    /// Convolves along one dimension.
    pub fn conv1d<B: CpuBackend>(
        &self,
        backend: &B,
        layout: &Layout,
        kernel: &Self,
        kernel_layout: &Layout,
        params: &B::Conv1D,
    ) -> (outcome: Result<Self, Error>)
        ensures
            !self.spec_device().is_same_instance(kernel.spec_device())
                ==> self.mismatches(*kernel, "conv1d"@, outcome),
            self.spec_device().is_same_instance(kernel.spec_device()) ==> exists|host: Result<CpuStorage, Error>| #[trigger]
                call_ensures(B::conv1d, (backend, &self.spec_cpu(), layout, &kernel.spec_cpu(), kernel_layout, params), host) && self.carries(
                    outcome,
                    host,
                ),
    {
        match self.ensure_same_device(kernel, "conv1d") {
            Ok(()) => {},
            Err(error) => {
                return Err(error);
            },
        }
        self.carry(backend.conv1d(self.cpu_storage(), layout, kernel.cpu_storage(), kernel_layout, params))
    }

    /// Convolves, transposed, along one dimension.
    pub fn conv_transpose1d<B: CpuBackend>(
        &self,
        backend: &B,
        layout: &Layout,
        kernel: &Self,
        kernel_layout: &Layout,
        params: &B::ConvTranspose1D,
    ) -> (outcome: Result<Self, Error>)
        ensures
            !self.spec_device().is_same_instance(kernel.spec_device())
                ==> self.mismatches(*kernel, "conv-transpose1d"@, outcome),
            self.spec_device().is_same_instance(kernel.spec_device()) ==> exists|host: Result<CpuStorage, Error>| #[trigger]
                call_ensures(B::conv_transpose1d, (backend, &self.spec_cpu(), layout, &kernel.spec_cpu(), kernel_layout, params), host) && self.carries(
                    outcome,
                    host,
                ),
    {
        match self.ensure_same_device(kernel, "conv-transpose1d") {
            Ok(()) => {},
            Err(error) => {
                return Err(error);
            },
        }
        self.carry(backend.conv_transpose1d(self.cpu_storage(), layout, kernel.cpu_storage(), kernel_layout, params))
    }

    /// Convolves along two dimensions.
    pub fn conv2d<B: CpuBackend>(
        &self,
        backend: &B,
        layout: &Layout,
        kernel: &Self,
        kernel_layout: &Layout,
        params: &B::Conv2D,
    ) -> (outcome: Result<Self, Error>)
        ensures
            !self.spec_device().is_same_instance(kernel.spec_device())
                ==> self.mismatches(*kernel, "conv2d"@, outcome),
            self.spec_device().is_same_instance(kernel.spec_device()) ==> exists|host: Result<CpuStorage, Error>| #[trigger]
                call_ensures(B::conv2d, (backend, &self.spec_cpu(), layout, &kernel.spec_cpu(), kernel_layout, params), host) && self.carries(
                    outcome,
                    host,
                ),
    {
        match self.ensure_same_device(kernel, "conv2d") {
            Ok(()) => {},
            Err(error) => {
                return Err(error);
            },
        }
        self.carry(backend.conv2d(self.cpu_storage(), layout, kernel.cpu_storage(), kernel_layout, params))
    }

    /// Convolves, transposed, along two dimensions.
    pub fn conv_transpose2d<B: CpuBackend>(
        &self,
        backend: &B,
        layout: &Layout,
        kernel: &Self,
        kernel_layout: &Layout,
        params: &B::ConvTranspose2D,
    ) -> (outcome: Result<Self, Error>)
        ensures
            !self.spec_device().is_same_instance(kernel.spec_device())
                ==> self.mismatches(*kernel, "conv-transpose2d"@, outcome),
            self.spec_device().is_same_instance(kernel.spec_device()) ==> exists|host: Result<CpuStorage, Error>| #[trigger]
                call_ensures(B::conv_transpose2d, (backend, &self.spec_cpu(), layout, &kernel.spec_cpu(), kernel_layout, params), host) && self.carries(
                    outcome,
                    host,
                ),
    {
        match self.ensure_same_device(kernel, "conv-transpose2d") {
            Ok(()) => {},
            Err(error) => {
                return Err(error);
            },
        }
        self.carry(backend.conv_transpose2d(self.cpu_storage(), layout, kernel.cpu_storage(), kernel_layout, params))
    }

    /// Averages over windows.
    pub fn avg_pool2d<B: CpuBackend>(
        &self,
        backend: &B,
        layout: &Layout,
        kernel: (usize, usize),
        stride: (usize, usize),
    ) -> (outcome: Result<Self, Error>)
        ensures
            exists|host: Result<CpuStorage, Error>| #[trigger]
                call_ensures(B::avg_pool2d, (backend, &self.spec_cpu(), layout, kernel, stride), host) && self.carries(
                    outcome,
                    host,
                ),
    {
        self.carry(backend.avg_pool2d(self.cpu_storage(), layout, kernel, stride))
    }

    /// Takes the largest value of each window.
    pub fn max_pool2d<B: CpuBackend>(
        &self,
        backend: &B,
        layout: &Layout,
        kernel: (usize, usize),
        stride: (usize, usize),
    ) -> (outcome: Result<Self, Error>)
        ensures
            exists|host: Result<CpuStorage, Error>| #[trigger]
                call_ensures(B::max_pool2d, (backend, &self.spec_cpu(), layout, kernel, stride), host) && self.carries(
                    outcome,
                    host,
                ),
    {
        self.carry(backend.max_pool2d(self.cpu_storage(), layout, kernel, stride))
    }

    /// Repeats the nearest value along one dimension.
    pub fn upsample_nearest1d<B: CpuBackend>(
        &self,
        backend: &B,
        layout: &Layout,
        target: usize,
    ) -> (outcome: Result<Self, Error>)
        ensures
            exists|host: Result<CpuStorage, Error>| #[trigger]
                call_ensures(B::upsample_nearest1d, (backend, &self.spec_cpu(), layout, target), host) && self.carries(
                    outcome,
                    host,
                ),
    {
        self.carry(backend.upsample_nearest1d(self.cpu_storage(), layout, target))
    }

    /// Repeats the nearest value along two dimensions.
    pub fn upsample_nearest2d<B: CpuBackend>(
        &self,
        backend: &B,
        layout: &Layout,
        target_h: usize,
        target_w: usize,
    ) -> (outcome: Result<Self, Error>)
        ensures
            exists|host: Result<CpuStorage, Error>| #[trigger]
                call_ensures(B::upsample_nearest2d, (backend, &self.spec_cpu(), layout, target_h, target_w), host) && self.carries(
                    outcome,
                    host,
                ),
    {
        self.carry(backend.upsample_nearest2d(self.cpu_storage(), layout, target_h, target_w))
    }

    /// Interpolates along two dimensions; the scales are 64-bit patterns.
    pub fn upsample_bilinear2d<B: CpuBackend>(
        &self,
        backend: &B,
        layout: &Layout,
        target_h: usize,
        target_w: usize,
        align_corners: bool,
        scale_h: Option<u64>,
        scale_w: Option<u64>,
    ) -> (outcome: Result<Self, Error>)
        ensures
            exists|host: Result<CpuStorage, Error>| #[trigger]
                call_ensures(B::upsample_bilinear2d, (backend, &self.spec_cpu(), layout, target_h, target_w, align_corners, scale_h, scale_w), host) && self.carries(
                    outcome,
                    host,
                ),
    {
        self.carry(backend.upsample_bilinear2d(self.cpu_storage(), layout, target_h, target_w, align_corners, scale_h, scale_w))
    }

    /// Gathers by index along a dimension.
    pub fn gather<B: CpuBackend>(
        &self,
        backend: &B,
        layout: &Layout,
        indexes: &Self,
        indexes_layout: &Layout,
        dim: usize,
    ) -> (outcome: Result<Self, Error>)
        ensures
            !self.spec_device().is_same_instance(indexes.spec_device())
                ==> self.mismatches(*indexes, "gather"@, outcome),
            self.spec_device().is_same_instance(indexes.spec_device()) ==> exists|host: Result<CpuStorage, Error>| #[trigger]
                call_ensures(B::gather, (backend, &self.spec_cpu(), layout, &indexes.spec_cpu(), indexes_layout, dim), host) && self.carries(
                    outcome,
                    host,
                ),
    {
        match self.ensure_same_device(indexes, "gather") {
            Ok(()) => {},
            Err(error) => {
                return Err(error);
            },
        }
        self.carry(backend.gather(self.cpu_storage(), layout, indexes.cpu_storage(), indexes_layout, dim))
    }

    /// Selects entries by index along a dimension.
    pub fn index_select<B: CpuBackend>(
        &self,
        backend: &B,
        indexes: &Self,
        input_layout: &Layout,
        indexes_layout: &Layout,
        dim: usize,
    ) -> (outcome: Result<Self, Error>)
        ensures
            !self.spec_device().is_same_instance(indexes.spec_device())
                ==> self.mismatches(*indexes, "index-select"@, outcome),
            self.spec_device().is_same_instance(indexes.spec_device()) ==> exists|host: Result<CpuStorage, Error>| #[trigger]
                call_ensures(B::index_select, (backend, &self.spec_cpu(), &indexes.spec_cpu(), input_layout, indexes_layout, dim), host) && self.carries(
                    outcome,
                    host,
                ),
    {
        match self.ensure_same_device(indexes, "index-select") {
            Ok(()) => {},
            Err(error) => {
                return Err(error);
            },
        }
        self.carry(backend.index_select(self.cpu_storage(), indexes.cpu_storage(), input_layout, indexes_layout, dim))
    }

    /// Adds entries at indexes along a dimension.
    pub fn index_add<B: CpuBackend>(
        &self,
        backend: &B,
        layout: &Layout,
        indexes: &Self,
        indexes_layout: &Layout,
        source: &Self,
        source_layout: &Layout,
        dim: usize,
    ) -> (outcome: Result<Self, Error>)
        ensures
            !self.spec_device().is_same_instance(indexes.spec_device())
                ==> self.mismatches(*indexes, "index-add"@, outcome),
            self.spec_device().is_same_instance(indexes.spec_device()) && !self.spec_device().is_same_instance(source.spec_device())
                ==> self.mismatches(*source, "index-add"@, outcome),
            self.spec_device().is_same_instance(indexes.spec_device()) && self.spec_device().is_same_instance(source.spec_device()) ==> exists|host: Result<CpuStorage, Error>| #[trigger]
                call_ensures(B::index_add, (backend, &self.spec_cpu(), layout, &indexes.spec_cpu(), indexes_layout, &source.spec_cpu(), source_layout, dim), host) && self.carries(
                    outcome,
                    host,
                ),
    {
        match self.ensure_same_device(indexes, "index-add") {
            Ok(()) => {},
            Err(error) => {
                return Err(error);
            },
        }
        match self.ensure_same_device(source, "index-add") {
            Ok(()) => {},
            Err(error) => {
                return Err(error);
            },
        }
        self.carry(backend.index_add(self.cpu_storage(), layout, indexes.cpu_storage(), indexes_layout, source.cpu_storage(), source_layout, dim))
    }

    /// Stores values at indexes along a dimension, in place.
    pub fn scatter_set<B: CpuBackend>(
        &mut self,
        backend: &B,
        layout: &Layout,
        indexes: &Self,
        indexes_layout: &Layout,
        source: &Self,
        source_layout: &Layout,
        dim: usize,
    ) -> (outcome: Result<(), Error>)
        ensures
            final(self).spec_device() == old(self).spec_device(),
            !old(self).spec_device().is_same_instance(indexes.spec_device()) ==> {
                &&& old(self).mismatches(*indexes, "scatter-set"@, outcome)
                &&& *final(self) == *old(self)
            },
            old(self).spec_device().is_same_instance(indexes.spec_device()) && !old(self).spec_device().is_same_instance(source.spec_device()) ==> {
                &&& old(self).mismatches(*source, "scatter-set"@, outcome)
                &&& *final(self) == *old(self)
            },
            old(self).spec_device().is_same_instance(indexes.spec_device()) && old(self).spec_device().is_same_instance(source.spec_device()) ==> exists|host: (CpuStorage, Result<(), Error>)| #[trigger]
                call_ensures(B::scatter_set, (backend, old(self).spec_cpu(), layout, &indexes.spec_cpu(), indexes_layout, &source.spec_cpu(), source_layout, dim), host)
                    && final(self).spec_cpu() == host.0 && outcome == host.1,
    {
        match self.ensure_same_device(indexes, "scatter-set") {
            Ok(()) => {},
            Err(error) => {
                return Err(error);
            },
        }
        match self.ensure_same_device(source, "scatter-set") {
            Ok(()) => {},
            Err(error) => {
                return Err(error);
            },
        }
        let mut dst = CpuStorage::U8(Vec::new());
        std::mem::swap(&mut self.cpu, &mut dst);
        let (changed, outcome) = backend.scatter_set(dst, layout, indexes.cpu_storage(), indexes_layout, source.cpu_storage(), source_layout, dim);
        self.cpu = changed;
        outcome
    }

    /// Adds values at indexes along a dimension, in place.
    pub fn scatter_add_set<B: CpuBackend>(
        &mut self,
        backend: &B,
        layout: &Layout,
        indexes: &Self,
        indexes_layout: &Layout,
        source: &Self,
        source_layout: &Layout,
        dim: usize,
    ) -> (outcome: Result<(), Error>)
        ensures
            final(self).spec_device() == old(self).spec_device(),
            !old(self).spec_device().is_same_instance(indexes.spec_device()) ==> {
                &&& old(self).mismatches(*indexes, "scatter-add"@, outcome)
                &&& *final(self) == *old(self)
            },
            old(self).spec_device().is_same_instance(indexes.spec_device()) && !old(self).spec_device().is_same_instance(source.spec_device()) ==> {
                &&& old(self).mismatches(*source, "scatter-add"@, outcome)
                &&& *final(self) == *old(self)
            },
            old(self).spec_device().is_same_instance(indexes.spec_device()) && old(self).spec_device().is_same_instance(source.spec_device()) ==> exists|host: (CpuStorage, Result<(), Error>)| #[trigger]
                call_ensures(B::scatter_add_set, (backend, old(self).spec_cpu(), layout, &indexes.spec_cpu(), indexes_layout, &source.spec_cpu(), source_layout, dim), host)
                    && final(self).spec_cpu() == host.0 && outcome == host.1,
    {
        match self.ensure_same_device(indexes, "scatter-add") {
            Ok(()) => {},
            Err(error) => {
                return Err(error);
            },
        }
        match self.ensure_same_device(source, "scatter-add") {
            Ok(()) => {},
            Err(error) => {
                return Err(error);
            },
        }
        let mut dst = CpuStorage::U8(Vec::new());
        std::mem::swap(&mut self.cpu, &mut dst);
        let (changed, outcome) = backend.scatter_add_set(dst, layout, indexes.cpu_storage(), indexes_layout, source.cpu_storage(), source_layout, dim);
        self.cpu = changed;
        outcome
    }

    /// Stores one value everywhere that a layout reaches, in place.
    pub fn const_set<B: CpuBackend>(
        &mut self,
        backend: &B,
        value: B::Scalar,
        layout: &Layout,
    ) -> (outcome: Result<(), Error>)
        ensures
            final(self).spec_device() == old(self).spec_device(),
            exists|host: (CpuStorage, Result<(), Error>)| #[trigger]
                call_ensures(B::const_set, (backend, old(self).spec_cpu(), value, layout), host)
                    && final(self).spec_cpu() == host.0 && outcome == host.1,
    {
        let mut dst = CpuStorage::U8(Vec::new());
        std::mem::swap(&mut self.cpu, &mut dst);
        let (changed, outcome) = backend.const_set(dst, value, layout);
        self.cpu = changed;
        outcome
    }

    /// Copies the values that a layout reaches into another storage.
    pub fn copy_strided_src<B: CpuBackend>(
        &self,
        backend: &B,
        dst: &mut Self,
        dst_offset: usize,
        src_layout: &Layout,
    ) -> (outcome: Result<(), Error>)
        ensures
            final(dst).spec_device() == old(dst).spec_device(),
            !self.spec_device().is_same_instance(old(dst).spec_device()) ==> {
                &&& self.mismatches(*old(dst), "copy"@, outcome)
                &&& *final(dst) == *old(dst)
            },
            self.spec_device().is_same_instance(old(dst).spec_device()) ==> exists|
                host: (CpuStorage, Result<(), Error>),
            | #[trigger]
                call_ensures(
                    B::copy_strided_src,
                    (backend, &self.spec_cpu(), old(dst).spec_cpu(), dst_offset, src_layout),
                    host,
                ) && final(dst).spec_cpu() == host.0 && outcome == host.1,
    {
        match self.ensure_same_device(dst, "copy") {
            Ok(()) => {},
            Err(error) => {
                return Err(error);
            },
        }
        let mut values = CpuStorage::U8(Vec::new());
        std::mem::swap(&mut dst.cpu, &mut values);
        let (changed, outcome) = backend.copy_strided_src(self.cpu_storage(), values, dst_offset, src_layout);
        dst.cpu = changed;
        outcome
    }

    /// Copies a rectangle of values into another storage.
    pub fn copy2d<B: CpuBackend>(
        &self,
        backend: &B,
        dst: &mut Self,
        d1: usize,
        d2: usize,
        src_stride: usize,
        dst_stride: usize,
        src_offset: usize,
        dst_offset: usize,
    ) -> (outcome: Result<(), Error>)
        ensures
            final(dst).spec_device() == old(dst).spec_device(),
            !self.spec_device().is_same_instance(old(dst).spec_device()) ==> {
                &&& self.mismatches(*old(dst), "copy2d"@, outcome)
                &&& *final(dst) == *old(dst)
            },
            self.spec_device().is_same_instance(old(dst).spec_device()) ==> exists|
                host: (CpuStorage, Result<(), Error>),
            | #[trigger]
                call_ensures(
                    B::copy2d,
                    (backend, &self.spec_cpu(), old(dst).spec_cpu(), d1, d2, src_stride, dst_stride, src_offset, dst_offset),
                    host,
                ) && final(dst).spec_cpu() == host.0 && outcome == host.1,
    {
        match self.ensure_same_device(dst, "copy2d") {
            Ok(()) => {},
            Err(error) => {
                return Err(error);
            },
        }
        let mut values = CpuStorage::U8(Vec::new());
        std::mem::swap(&mut dst.cpu, &mut values);
        let (changed, outcome) = backend.copy2d(self.cpu_storage(), values, d1, d2, src_stride, dst_stride, src_offset, dst_offset);
        dst.cpu = changed;
        outcome
    }

}

/// A product came from the executor's answer: an executed one is taken if it
/// passes its checks, and a declined one is computed on the host.
pub open spec fn product_of_dispatch<E, B: CpuBackend>(
    lhs: AquaStorage<E>,
    backend: &B,
    rhs: AquaStorage<E>,
    bmnk: (usize, usize, usize, usize),
    lhs_layout: &Layout,
    rhs_layout: &Layout,
    dispatch: AquaDispatch<CpuStorage>,
    outcome: Result<AquaStorage<E>, Error>,
) -> bool {
    match dispatch {
        AquaDispatch::Executed(product) => match crate::aqua_backend::matmul_output_outcome(
            lhs.spec_cpu(),
            product,
            bmnk,
        ) {
            Ok(_) => lhs.carries(outcome, Ok(product)),
            Err(text) => error::fails_with(outcome, text),
        },
        AquaDispatch::Fallback => exists|host: Result<CpuStorage, Error>| #[trigger]
            call_ensures(
                B::matmul,
                (backend, &lhs.spec_cpu(), &rhs.spec_cpu(), bmnk, lhs_layout, rhs_layout),
                host,
            ) && lhs.carries(outcome, host),
    }
}

/// The request that a product hands to the executor.
pub open spec fn product_request<'a, E>(
    lhs: &'a AquaStorage<E>,
    rhs: &'a AquaStorage<E>,
    bmnk: (usize, usize, usize, usize),
    lhs_layout: &'a Layout,
    rhs_layout: &'a Layout,
) -> AquaMatMulRequest<'a> {
    AquaMatMulRequest {
        lhs: &lhs.spec_cpu(),
        rhs: &rhs.spec_cpu(),
        bmnk,
        lhs_layout,
        rhs_layout,
    }
}

impl<E: AquaExecutor> AquaStorage<E> {
    /// The product, given the executor's answer.
    pub fn complete_matmul<B: CpuBackend>(
        &self,
        backend: &B,
        rhs: &Self,
        bmnk: (usize, usize, usize, usize),
        lhs_layout: &Layout,
        rhs_layout: &Layout,
        dispatch: AquaDispatch<CpuStorage>,
    ) -> (outcome: Result<Self, Error>)
        ensures
            product_of_dispatch(
                *self,
                backend,
                *rhs,
                bmnk,
                lhs_layout,
                rhs_layout,
                dispatch,
                outcome,
            ),
    {
        match dispatch {
            AquaDispatch::Executed(product) => {
                match self.validate_matmul_output(&product, bmnk) {
                    Ok(()) => {},
                    Err(error) => {
                        return Err(error);
                    },
                }
                self.carry(Ok(product))
            },
            AquaDispatch::Fallback => self.carry(
                backend.matmul(
                    self.cpu_storage(),
                    rhs.cpu_storage(),
                    bmnk,
                    lhs_layout,
                    rhs_layout,
                ),
            ),
        }
    }

    /// Multiplies matrices: by the device's executor, or on the host where the
    /// executor declines.
    pub fn matmul<B: CpuBackend>(
        &self,
        backend: &B,
        rhs: &Self,
        bmnk: (usize, usize, usize, usize),
        lhs_layout: &Layout,
        rhs_layout: &Layout,
    ) -> (outcome: Result<Self, Error>)
        ensures
            !self.spec_device().is_same_instance(rhs.spec_device()) ==> self.mismatches(
                *rhs,
                "matmul"@,
                outcome,
            ),
            self.spec_device().is_same_instance(rhs.spec_device()) ==> exists|
                answer: Result<AquaDispatch<CpuStorage>, Error>,
            | #[trigger]
                call_ensures(
                    E::matmul,
                    (
                        &self.spec_device().spec_executor(),
                        product_request(self, rhs, bmnk, lhs_layout, rhs_layout),
                    ),
                    answer,
                ) && match answer {
                    Err(error) => outcome == Err::<Self, Error>(error),
                    Ok(dispatch) => product_of_dispatch(
                        *self,
                        backend,
                        *rhs,
                        bmnk,
                        lhs_layout,
                        rhs_layout,
                        dispatch,
                        outcome,
                    ),
                },
    {
        match self.ensure_same_device(rhs, "matmul") {
            Ok(()) => {},
            Err(error) => {
                return Err(error);
            },
        }
        let request = AquaMatMulRequest {
            lhs: self.cpu_storage(),
            rhs: rhs.cpu_storage(),
            bmnk,
            lhs_layout,
            rhs_layout,
        };
        let answer = self.device().executor().matmul(request);
        match answer {
            Ok(dispatch) => self.complete_matmul(
                backend,
                rhs,
                bmnk,
                lhs_layout,
                rhs_layout,
                dispatch,
            ),
            Err(error) => Err(error),
        }
    }
}

impl<E> AquaDevice<E> {
    /// The outcome of a host operation, on this device.
    pub open spec fn places(
        self,
        outcome: Result<AquaStorage<E>, Error>,
        host: Result<CpuStorage, Error>,
    ) -> bool {
        match host {
            Ok(cpu) => {
                &&& outcome is Ok
                &&& outcome->Ok_0.spec_device() == self
                &&& outcome->Ok_0.spec_cpu() == cpu
            },
            Err(error) => outcome == Err::<AquaStorage<E>, Error>(error),
        }
    }

    /// The outcome of a host operation, on this device.
    fn place(&self, host: Result<CpuStorage, Error>) -> (outcome: Result<AquaStorage<E>, Error>)
        ensures
            self.places(outcome, host),
    {
        match host {
            Ok(cpu) => Ok(self.wrap_cpu_storage(cpu)),
            Err(error) => Err(error),
        }
    }

    /// Values that are all zero.
    pub fn zeros_impl<B: CpuBackend>(&self, backend: &B, shape: &Shape, dtype: DType) -> (outcome:
        Result<AquaStorage<E>, Error>)
        ensures
            exists|host: Result<CpuStorage, Error>| #[trigger]
                call_ensures(B::zeros, (backend, shape, dtype), host) && self.places(outcome, host),
    {
        self.place(backend.zeros(shape, dtype))
    }

    /// Values that the caller will overwrite. They are zero, so that nothing
    /// uninitialized is ever read.
    pub fn alloc_uninit<B: CpuBackend>(&self, backend: &B, shape: &Shape, dtype: DType) -> (outcome:
        Result<AquaStorage<E>, Error>)
        ensures
            exists|host: Result<CpuStorage, Error>| #[trigger]
                call_ensures(B::zeros, (backend, shape, dtype), host) && self.places(outcome, host),
    {
        self.place(backend.zeros(shape, dtype))
    }

    /// A copy of the values, on this device.
    pub fn storage_from_slice<T: WithDType>(&self, values: &[T]) -> (outcome: Result<
        AquaStorage<E>,
        Error,
    >)
        ensures
            outcome is Ok,
            outcome->Ok_0.spec_device() == *self,
            T::held_by(values@, outcome->Ok_0.spec_cpu()),
    {
        Ok(self.wrap_cpu_storage(T::to_cpu_storage(values)))
    }

    /// A copy of host values, on this device.
    pub fn storage_from_cpu_storage(&self, storage: &CpuStorage) -> (outcome: Result<
        AquaStorage<E>,
        Error,
    >)
        ensures
            outcome is Ok,
            outcome->Ok_0.spec_device() == *self,
            outcome->Ok_0.spec_cpu().same_values(*storage),
    {
        Ok(self.wrap_cpu_storage(storage.clone()))
    }

    /// Host values, on this device.
    pub fn storage_from_cpu_storage_owned(&self, storage: CpuStorage) -> (outcome: Result<
        AquaStorage<E>,
        Error,
    >)
        ensures
            outcome is Ok,
            outcome->Ok_0.spec_device() == *self,
            outcome->Ok_0.spec_cpu() == storage,
    {
        Ok(self.wrap_cpu_storage(storage))
    }

    /// Values drawn evenly from a range, given as 64-bit patterns.
    pub fn rand_uniform<B: CpuBackend>(
        &self,
        backend: &B,
        shape: &Shape,
        dtype: DType,
        min: u64,
        max: u64,
    ) -> (outcome: Result<AquaStorage<E>, Error>)
        ensures
            exists|host: Result<CpuStorage, Error>| #[trigger]
                call_ensures(B::rand_uniform, (backend, shape, dtype, min, max), host)
                    && self.places(outcome, host),
    {
        self.place(backend.rand_uniform(shape, dtype, min, max))
    }

    /// Values drawn from a normal distribution, given as 64-bit patterns.
    pub fn rand_normal<B: CpuBackend>(
        &self,
        backend: &B,
        shape: &Shape,
        dtype: DType,
        mean: u64,
        deviation: u64,
    ) -> (outcome: Result<AquaStorage<E>, Error>)
        ensures
            exists|host: Result<CpuStorage, Error>| #[trigger]
                call_ensures(B::rand_normal, (backend, shape, dtype, mean, deviation), host)
                    && self.places(outcome, host),
    {
        self.place(backend.rand_normal(shape, dtype, mean, deviation))
    }

    /// Seeds the host's generator of random values.
    pub fn set_seed<B: CpuBackend>(&self, backend: &B, seed: u64) -> (outcome: Result<(), Error>)
        ensures
            call_ensures(B::set_seed, (backend, seed), outcome),
    {
        backend.set_seed(seed)
    }

    /// The seed of the host's generator of random values.
    pub fn get_current_seed<B: CpuBackend>(&self, backend: &B) -> (outcome: Result<u64, Error>)
        ensures
            call_ensures(B::get_current_seed, (backend,), outcome),
    {
        backend.get_current_seed()
    }
}

impl<E: AquaExecutor> AquaDevice<E> {
    /// Waits until all submitted work is done.
    pub fn synchronize(&self) -> (outcome: Result<(), Error>)
        ensures
            call_ensures(E::synchronize, (&self.spec_executor(),), outcome),
    {
        self.executor().synchronize()
    }
}

/// On a device with the fallback executor, every product is the host's: the
/// executor declines each request, so the outcome carries what the host
/// returned.
pub proof fn law_fallback_product_is_the_host_product<B: CpuBackend>(
    lhs: AquaStorage<CpuFallbackAquaExecutor>,
    backend: &B,
    rhs: AquaStorage<CpuFallbackAquaExecutor>,
    bmnk: (usize, usize, usize, usize),
    lhs_layout: &Layout,
    rhs_layout: &Layout,
    answer: Result<AquaDispatch<CpuStorage>, Error>,
    outcome: Result<AquaStorage<CpuFallbackAquaExecutor>, Error>,
)
    requires
        call_ensures(
            <CpuFallbackAquaExecutor as AquaExecutor>::matmul,
            (
                &lhs.spec_device().spec_executor(),
                product_request(&lhs, &rhs, bmnk, lhs_layout, rhs_layout),
            ),
            answer,
        ),
        answer matches Ok(dispatch) ==> product_of_dispatch(
            lhs,
            backend,
            rhs,
            bmnk,
            lhs_layout,
            rhs_layout,
            dispatch,
            outcome,
        ),
    ensures
        answer == Ok::<AquaDispatch<CpuStorage>, Error>(AquaDispatch::Fallback),
        exists|host: Result<CpuStorage, Error>| #[trigger]
            call_ensures(
                B::matmul,
                (backend, &lhs.spec_cpu(), &rhs.spec_cpu(), bmnk, lhs_layout, rhs_layout),
                host,
            ) && lhs.carries(outcome, host),
{
}

/// An accepted product of an executor has the left operand's type and one
/// element per entry of the result.
pub proof fn law_executed_product_is_well_shaped<E, B: CpuBackend>(
    lhs: AquaStorage<E>,
    backend: &B,
    rhs: AquaStorage<E>,
    bmnk: (usize, usize, usize, usize),
    lhs_layout: &Layout,
    rhs_layout: &Layout,
    product: CpuStorage,
    outcome: Result<AquaStorage<E>, Error>,
)
    requires
        product_of_dispatch(
            lhs,
            backend,
            rhs,
            bmnk,
            lhs_layout,
            rhs_layout,
            AquaDispatch::Executed(product),
            outcome,
        ),
        outcome is Ok,
    ensures
        outcome->Ok_0.spec_device() == lhs.spec_device(),
        outcome->Ok_0.spec_cpu() == product,
        product.spec_dtype() == lhs.spec_cpu().spec_dtype(),
        product.spec_len() == bmnk.0 as nat * bmnk.1 as nat * bmnk.2 as nat,
{
}

/// The request that reaches the executor holds the values of the receiver on
/// the left and those of the argument on the right, each with its own layout,
/// and the sizes as they were given.
pub proof fn law_executor_gets_the_operands_in_order<E: AquaExecutor, B: CpuBackend>(
    lhs: &AquaStorage<E>,
    backend: &B,
    rhs: &AquaStorage<E>,
    bmnk: (usize, usize, usize, usize),
    lhs_layout: &Layout,
    rhs_layout: &Layout,
    outcome: Result<AquaStorage<E>, Error>,
)
    requires
        call_ensures(
            AquaStorage::<E>::matmul::<B>,
            (lhs, backend, rhs, bmnk, lhs_layout, rhs_layout),
            outcome,
        ),
        lhs.spec_device().is_same_instance(rhs.spec_device()),
    ensures
        exists|request: AquaMatMulRequest<'_>, answer: Result<AquaDispatch<CpuStorage>, Error>|
            {
                &&& #[trigger] call_ensures(
                    E::matmul,
                    (&lhs.spec_device().spec_executor(), request),
                    answer,
                )
                &&& *request.lhs == lhs.spec_cpu()
                &&& *request.rhs == rhs.spec_cpu()
                &&& request.bmnk == bmnk
                &&& *request.lhs_layout == *lhs_layout
                &&& *request.rhs_layout == *rhs_layout
                &&& answer is Err ==> outcome == Err::<AquaStorage<E>, Error>(answer->Err_0)
                &&& outcome is Ok && answer->Ok_0 is Executed ==> outcome->Ok_0.spec_cpu()
                    == answer->Ok_0->Executed_0
            },
{
    let request = product_request(lhs, rhs, bmnk, lhs_layout, rhs_layout);
    let answer = choose|answer: Result<AquaDispatch<CpuStorage>, Error>| #[trigger]
        call_ensures(E::matmul, (&lhs.spec_device().spec_executor(), request), answer)
            && match answer {
            Err(error) => outcome == Err::<AquaStorage<E>, Error>(error),
            Ok(dispatch) => product_of_dispatch(
                *lhs,
                backend,
                *rhs,
                bmnk,
                lhs_layout,
                rhs_layout,
                dispatch,
                outcome,
            ),
        };
    assert(call_ensures(E::matmul, (&lhs.spec_device().spec_executor(), request), answer));
}

/// The executor computes what the host computes: every product that it hands
/// out is one that the host could give for the same request.
pub open spec fn agrees_with_host<E: AquaExecutor, B: CpuBackend>(executor: &E, backend: &B) -> bool {
    forall|request: AquaMatMulRequest<'_>, product: CpuStorage| #[trigger]
        call_ensures(E::matmul, (executor, request), Ok(AquaDispatch::Executed(product)))
            ==> call_ensures(
            B::matmul,
            (
                backend,
                request.lhs,
                request.rhs,
                request.bmnk,
                request.lhs_layout,
                request.rhs_layout,
            ),
            Ok(product),
        )
}

/// A device whose executor agrees with the host gives the host's product of its
/// operands, on the device of the left one: it makes no difference who computed
/// it.
pub proof fn law_product_is_that_of_the_host<E: AquaExecutor, B: CpuBackend>(
    lhs: &AquaStorage<E>,
    backend: &B,
    rhs: &AquaStorage<E>,
    bmnk: (usize, usize, usize, usize),
    lhs_layout: &Layout,
    rhs_layout: &Layout,
    outcome: Result<AquaStorage<E>, Error>,
)
    requires
        call_ensures(
            AquaStorage::<E>::matmul::<B>,
            (lhs, backend, rhs, bmnk, lhs_layout, rhs_layout),
            outcome,
        ),
        lhs.spec_device().is_same_instance(rhs.spec_device()),
        agrees_with_host(&lhs.spec_device().spec_executor(), backend),
        outcome is Ok,
    ensures
        outcome->Ok_0.spec_device() == lhs.spec_device(),
        call_ensures(
            B::matmul,
            (backend, &lhs.spec_cpu(), &rhs.spec_cpu(), bmnk, lhs_layout, rhs_layout),
            Ok(outcome->Ok_0.spec_cpu()),
        ),
{
    let executor = &lhs.spec_device().spec_executor();
    let request = product_request(lhs, rhs, bmnk, lhs_layout, rhs_layout);
    let answer = choose|answer: Result<AquaDispatch<CpuStorage>, Error>| #[trigger]
        call_ensures(E::matmul, (executor, request), answer) && match answer {
            Err(error) => outcome == Err::<AquaStorage<E>, Error>(error),
            Ok(dispatch) => product_of_dispatch(
                *lhs,
                backend,
                *rhs,
                bmnk,
                lhs_layout,
                rhs_layout,
                dispatch,
                outcome,
            ),
        };
    match answer->Ok_0 {
        AquaDispatch::Executed(product) => {
            assert(call_ensures(E::matmul, (executor, request), Ok(AquaDispatch::Executed(product))));
        },
        AquaDispatch::Fallback => {},
    }
}

/// An executor's product is accepted exactly where it has the type of the left
/// operand and one value for each entry of the result, a row of `n` for each of
/// `m` rows of each of `b` matrices.
pub proof fn law_accepted_products_have_the_right_size<E>(
    lhs: &AquaStorage<E>,
    output: &CpuStorage,
    bmnk: (usize, usize, usize, usize),
    outcome: Result<(), Error>,
)
    requires
        call_ensures(AquaStorage::<E>::validate_matmul_output, (lhs, output, bmnk), outcome),
    ensures
        outcome is Ok ==> output.spec_dtype() == lhs.spec_cpu().spec_dtype(),
        outcome is Ok ==> output.spec_len() == bmnk.0 as nat * bmnk.1 as nat * bmnk.2 as nat,
        output.spec_dtype() == lhs.spec_cpu().spec_dtype() && bmnk.0 as nat * bmnk.1 as nat
            <= usize::MAX && output.spec_len() == bmnk.0 as nat * bmnk.1 as nat * bmnk.2 as nat
            && output.spec_len() <= usize::MAX ==> outcome is Ok,
        outcome is Err && output.spec_dtype() != lhs.spec_cpu().spec_dtype() ==> outcome->Err_0.says(
            "Aqua executor matmul returned dtype "@ + output.spec_dtype().spec_name()
                + ", expected "@ + lhs.spec_cpu().spec_dtype().spec_name(),
        ),
{
}

/// Operands of other devices are refused by every operation that takes two, and
/// by none where they share a device: the check says which two devices met.
pub proof fn law_other_devices_are_refused<E>(
    here: &AquaStorage<E>,
    other: &AquaStorage<E>,
    op: &str,
    outcome: Result<(), Error>,
)
    requires
        call_ensures(AquaStorage::<E>::ensure_same_device, (here, other, op), outcome),
    ensures
        outcome is Ok <==> {
            &&& here.spec_device().spec_device_id() == other.spec_device().spec_device_id()
            &&& here.spec_device().executor_identity() == other.spec_device().executor_identity()
        },
        outcome is Err ==> outcome->Err_0 is DeviceMismatchBinaryOp,
        outcome matches Err(Error::DeviceMismatchBinaryOp { lhs, rhs, op: name }) ==> {
            &&& lhs == here.spec_device().spec_location()
            &&& rhs == other.spec_device().spec_location()
            &&& name@ == op@
        },
{
}

/// An executor's product of the wrong size is refused with both sizes, or for
/// the overflow of the expected one.
pub proof fn law_products_of_the_wrong_size_are_refused<E>(
    lhs: &AquaStorage<E>,
    output: &CpuStorage,
    bmnk: (usize, usize, usize, usize),
    outcome: Result<(), Error>,
)
    requires
        call_ensures(AquaStorage::<E>::validate_matmul_output, (lhs, output, bmnk), outcome),
        output.spec_dtype() == lhs.spec_cpu().spec_dtype(),
        outcome is Err,
    ensures
        ({
            let matrices = bmnk.0 as nat * bmnk.1 as nat;
            let expected = matrices * bmnk.2 as nat;
            &&& matrices > usize::MAX || expected > usize::MAX ==> outcome->Err_0@
                == "Aqua executor matmul output size overflow"@
            &&& matrices <= usize::MAX && expected <= usize::MAX ==> outcome->Err_0@
                == "Aqua executor matmul returned "@ + text::decimal(output.spec_len())
                + " elements, expected "@ + text::decimal(expected)
        }),
{
}

/// Given the executor's answer, the product is the executor's own, on the left
/// operand's device, where it fits; where the executor declined, it is the
/// host's for both operands in order.
pub proof fn law_answers_become_products<E: AquaExecutor, B: CpuBackend>(
    lhs: &AquaStorage<E>,
    backend: &B,
    rhs: &AquaStorage<E>,
    bmnk: (usize, usize, usize, usize),
    lhs_layout: &Layout,
    rhs_layout: &Layout,
    dispatch: AquaDispatch<CpuStorage>,
    outcome: Result<AquaStorage<E>, Error>,
)
    requires
        call_ensures(
            AquaStorage::<E>::complete_matmul::<B>,
            (lhs, backend, rhs, bmnk, lhs_layout, rhs_layout, dispatch),
            outcome,
        ),
    ensures
        outcome is Ok ==> outcome->Ok_0.spec_device() == lhs.spec_device(),
        dispatch is Executed && outcome is Ok ==> {
            &&& outcome->Ok_0.spec_cpu() == dispatch->Executed_0
            &&& dispatch->Executed_0.spec_dtype() == lhs.spec_cpu().spec_dtype()
            &&& dispatch->Executed_0.spec_len() == bmnk.0 as nat * bmnk.1 as nat * bmnk.2 as nat
        },
        dispatch is Fallback && outcome is Ok ==> call_ensures(
            B::matmul,
            (backend, &lhs.spec_cpu(), &rhs.spec_cpu(), bmnk, lhs_layout, rhs_layout),
            Ok(outcome->Ok_0.spec_cpu()),
        ),
        dispatch is Fallback && outcome is Err ==> call_ensures(
            B::matmul,
            (backend, &lhs.spec_cpu(), &rhs.spec_cpu(), bmnk, lhs_layout, rhs_layout),
            Err(outcome->Err_0),
        ),
{
}

/// The seed of random values goes to the host's generator as it is, and comes
/// from there.
pub proof fn law_seeds_are_those_of_the_host<E, B: CpuBackend>(
    device: &AquaDevice<E>,
    backend: &B,
    seed: u64,
    outcome: Result<(), Error>,
    current: Result<u64, Error>,
)
    requires
        call_ensures(AquaDevice::<E>::set_seed::<B>, (device, backend, seed), outcome),
        call_ensures(AquaDevice::<E>::get_current_seed::<B>, (device, backend), current),
    ensures
        call_ensures(B::set_seed, (backend, seed), outcome),
        call_ensures(B::get_current_seed, (backend,), current),
{
}

/// Host values put on a device belong to it and stay as they are.
pub proof fn law_values_put_on_a_device_stay_as_they_are<E>(
    device: &AquaDevice<E>,
    values: CpuStorage,
    words: &[u32],
    owned: Result<AquaStorage<E>, Error>,
    copied: Result<AquaStorage<E>, Error>,
    sliced: Result<AquaStorage<E>, Error>,
    wrapped: AquaStorage<E>,
    i: int,
)
    requires
        call_ensures(AquaDevice::<E>::storage_from_cpu_storage_owned, (device, values), owned),
        call_ensures(AquaDevice::<E>::storage_from_cpu_storage, (device, &values), copied),
        call_ensures(AquaDevice::<E>::storage_from_slice::<u32>, (device, words), sliced),
        call_ensures(AquaDevice::<E>::wrap_cpu_storage, (device, values), wrapped),
    ensures
        owned is Ok && copied is Ok && sliced is Ok,
        owned->Ok_0.spec_device() == *device,
        copied->Ok_0.spec_device() == *device,
        sliced->Ok_0.spec_device() == *device,
        wrapped.spec_device() == *device,
        owned->Ok_0.spec_cpu() == values,
        wrapped.spec_cpu() == values,
        copied->Ok_0.spec_cpu().same_values(values),
        sliced->Ok_0.spec_cpu() is U32,
        sliced->Ok_0.spec_cpu()->U32_0@.len() == words@.len(),
        0 <= i < words@.len() ==> sliced->Ok_0.spec_cpu()->U32_0@[i] == words@[i],
{
}

} // verus!
