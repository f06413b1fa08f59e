//! What holds of every tensor operation on an AQuA device: it gives what the
//! host gives for the same operands in the same roles, and keeps to its device.

use crate::aqua_backend::storage::{CmpOp, CpuBackend, ReduceOp};
use crate::aqua_backend::{AquaDevice, AquaStorage};
use crate::cpu_storage::{CpuStorage, DType};
use crate::error;
use crate::error::Error;
use crate::shape::{Layout, Shape};
use vstd::prelude::*;

verus! {

/// Copying the values that a layout reaches gives what the host gives, on the same
/// device.
pub proof fn law_try_clone_is_that_of_the_host<E, B: CpuBackend>(
    src: &AquaStorage<E>,
    backend: &B,
    layout: &Layout,
    outcome: Result<AquaStorage<E>, Error>,
)
    requires
        call_ensures(
            AquaStorage::<E>::try_clone::<B>,
            (src, backend, layout),
            outcome,
        ),
    ensures
        outcome is Ok ==> outcome->Ok_0.spec_device() == src.spec_device(),
        outcome is Ok ==> call_ensures(
            B::try_clone,
            (backend, &src.spec_cpu(), layout),
            Ok(outcome->Ok_0.spec_cpu()),
        ),
        outcome is Err ==> call_ensures(
            B::try_clone,
            (backend, &src.spec_cpu(), layout),
            Err(outcome->Err_0),
        ),
{
}

/// Multiplying and adding gives what the host gives, on the same
/// device.
pub proof fn law_affine_is_that_of_the_host<E, B: CpuBackend>(
    src: &AquaStorage<E>,
    backend: &B,
    layout: &Layout,
    mul: u64,
    add: u64,
    outcome: Result<AquaStorage<E>, Error>,
)
    requires
        call_ensures(
            AquaStorage::<E>::affine::<B>,
            (src, backend, layout, mul, add),
            outcome,
        ),
    ensures
        outcome is Ok ==> outcome->Ok_0.spec_device() == src.spec_device(),
        outcome is Ok ==> call_ensures(
            B::affine,
            (backend, &src.spec_cpu(), layout, mul, add),
            Ok(outcome->Ok_0.spec_cpu()),
        ),
        outcome is Err ==> call_ensures(
            B::affine,
            (backend, &src.spec_cpu(), layout, mul, add),
            Err(outcome->Err_0),
        ),
{
}

/// Raising to a power gives what the host gives, on the same
/// device.
pub proof fn law_powf_is_that_of_the_host<E, B: CpuBackend>(
    src: &AquaStorage<E>,
    backend: &B,
    layout: &Layout,
    alpha: u64,
    outcome: Result<AquaStorage<E>, Error>,
)
    requires
        call_ensures(
            AquaStorage::<E>::powf::<B>,
            (src, backend, layout, alpha),
            outcome,
        ),
    ensures
        outcome is Ok ==> outcome->Ok_0.spec_device() == src.spec_device(),
        outcome is Ok ==> call_ensures(
            B::powf,
            (backend, &src.spec_cpu(), layout, alpha),
            Ok(outcome->Ok_0.spec_cpu()),
        ),
        outcome is Err ==> call_ensures(
            B::powf,
            (backend, &src.spec_cpu(), layout, alpha),
            Err(outcome->Err_0),
        ),
{
}

/// The exponential linear unit gives what the host gives, on the same
/// device.
pub proof fn law_elu_is_that_of_the_host<E, B: CpuBackend>(
    src: &AquaStorage<E>,
    backend: &B,
    layout: &Layout,
    alpha: u64,
    outcome: Result<AquaStorage<E>, Error>,
)
    requires
        call_ensures(
            AquaStorage::<E>::elu::<B>,
            (src, backend, layout, alpha),
            outcome,
        ),
    ensures
        outcome is Ok ==> outcome->Ok_0.spec_device() == src.spec_device(),
        outcome is Ok ==> call_ensures(
            B::elu,
            (backend, &src.spec_cpu(), layout, alpha),
            Ok(outcome->Ok_0.spec_cpu()),
        ),
        outcome is Err ==> call_ensures(
            B::elu,
            (backend, &src.spec_cpu(), layout, alpha),
            Err(outcome->Err_0),
        ),
{
}

/// Reducing along dimensions gives what the host gives, on the same
/// device.
pub proof fn law_reduce_op_is_that_of_the_host<E, B: CpuBackend>(
    src: &AquaStorage<E>,
    backend: &B,
    op: ReduceOp,
    layout: &Layout,
    dims: &Vec<usize>,
    outcome: Result<AquaStorage<E>, Error>,
)
    requires
        call_ensures(
            AquaStorage::<E>::reduce_op::<B>,
            (src, backend, op, layout, dims),
            outcome,
        ),
    ensures
        outcome is Ok ==> outcome->Ok_0.spec_device() == src.spec_device(),
        outcome is Ok ==> call_ensures(
            B::reduce_op,
            (backend, &src.spec_cpu(), op, layout, dims),
            Ok(outcome->Ok_0.spec_cpu()),
        ),
        outcome is Err ==> call_ensures(
            B::reduce_op,
            (backend, &src.spec_cpu(), op, layout, dims),
            Err(outcome->Err_0),
        ),
{
}

/// Comparing gives what the host gives for the operands
/// in their roles, on the device of the first, and refuses operands of another
/// device.
pub proof fn law_cmp_is_that_of_the_host<E, B: CpuBackend>(
    src: &AquaStorage<E>,
    backend: &B,
    op: CmpOp,
    rhs: &AquaStorage<E>,
    lhs_layout: &Layout,
    rhs_layout: &Layout,
    outcome: Result<AquaStorage<E>, Error>,
)
    requires
        call_ensures(
            AquaStorage::<E>::cmp::<B>,
            (src, backend, op, rhs, lhs_layout, rhs_layout),
            outcome,
        ),
    ensures
        outcome is Ok ==> outcome->Ok_0.spec_device() == src.spec_device(),
        src.spec_device().is_same_instance(rhs.spec_device()) && outcome is Ok ==> call_ensures(
            B::cmp,
            (backend, &src.spec_cpu(), op, &rhs.spec_cpu(), lhs_layout, rhs_layout),
            Ok(outcome->Ok_0.spec_cpu()),
        ),
        src.spec_device().is_same_instance(rhs.spec_device()) && outcome is Err ==> call_ensures(
            B::cmp,
            (backend, &src.spec_cpu(), op, &rhs.spec_cpu(), lhs_layout, rhs_layout),
            Err(outcome->Err_0),
        ),
        !src.spec_device().is_same_instance(rhs.spec_device()) ==> error::is_device_mismatch(
            outcome,
            src.spec_device().spec_location(),
            rhs.spec_device().spec_location(),
            "cmp"@,
        ),
{
}

/// Converting gives what the host gives, on the same
/// device.
pub proof fn law_to_dtype_is_that_of_the_host<E, B: CpuBackend>(
    src: &AquaStorage<E>,
    backend: &B,
    layout: &Layout,
    dtype: DType,
    outcome: Result<AquaStorage<E>, Error>,
)
    requires
        call_ensures(
            AquaStorage::<E>::to_dtype::<B>,
            (src, backend, layout, dtype),
            outcome,
        ),
    ensures
        outcome is Ok ==> outcome->Ok_0.spec_device() == src.spec_device(),
        outcome is Ok ==> call_ensures(
            B::to_dtype,
            (backend, &src.spec_cpu(), layout, dtype),
            Ok(outcome->Ok_0.spec_cpu()),
        ),
        outcome is Err ==> call_ensures(
            B::to_dtype,
            (backend, &src.spec_cpu(), layout, dtype),
            Err(outcome->Err_0),
        ),
{
}

/// A function of one operand gives what the host gives, on the same
/// device.
pub proof fn law_unary_impl_is_that_of_the_host<E, B: CpuBackend>(
    src: &AquaStorage<E>,
    backend: &B,
    op: &str,
    layout: &Layout,
    outcome: Result<AquaStorage<E>, Error>,
)
    requires
        call_ensures(
            AquaStorage::<E>::unary_impl::<B>,
            (src, backend, op, layout),
            outcome,
        ),
    ensures
        outcome is Ok ==> outcome->Ok_0.spec_device() == src.spec_device(),
        outcome is Ok ==> call_ensures(
            B::unary_impl,
            (backend, &src.spec_cpu(), op, layout),
            Ok(outcome->Ok_0.spec_cpu()),
        ),
        outcome is Err ==> call_ensures(
            B::unary_impl,
            (backend, &src.spec_cpu(), op, layout),
            Err(outcome->Err_0),
        ),
{
}

/// A function of two operands gives what the host gives for the operands
/// in their roles, on the device of the first, and refuses operands of another
/// device.
pub proof fn law_binary_impl_is_that_of_the_host<E, B: CpuBackend>(
    src: &AquaStorage<E>,
    backend: &B,
    op: &str,
    rhs: &AquaStorage<E>,
    lhs_layout: &Layout,
    rhs_layout: &Layout,
    outcome: Result<AquaStorage<E>, Error>,
)
    requires
        call_ensures(
            AquaStorage::<E>::binary_impl::<B>,
            (src, backend, op, rhs, lhs_layout, rhs_layout),
            outcome,
        ),
    ensures
        outcome is Ok ==> outcome->Ok_0.spec_device() == src.spec_device(),
        src.spec_device().is_same_instance(rhs.spec_device()) && outcome is Ok ==> call_ensures(
            B::binary_impl,
            (backend, &src.spec_cpu(), op, &rhs.spec_cpu(), lhs_layout, rhs_layout),
            Ok(outcome->Ok_0.spec_cpu()),
        ),
        src.spec_device().is_same_instance(rhs.spec_device()) && outcome is Err ==> call_ensures(
            B::binary_impl,
            (backend, &src.spec_cpu(), op, &rhs.spec_cpu(), lhs_layout, rhs_layout),
            Err(outcome->Err_0),
        ),
        !src.spec_device().is_same_instance(rhs.spec_device()) ==> error::is_device_mismatch(
            outcome,
            src.spec_device().spec_location(),
            rhs.spec_device().spec_location(),
            op@,
        ),
{
}

/// Choosing between two operands gives what the host gives for the operands
/// in their roles, on the device of the first, and refuses operands of another
/// device.
pub proof fn law_where_cond_is_that_of_the_host<E, B: CpuBackend>(
    src: &AquaStorage<E>,
    backend: &B,
    layout: &Layout,
    true_value: &AquaStorage<E>,
    true_layout: &Layout,
    false_value: &AquaStorage<E>,
    false_layout: &Layout,
    outcome: Result<AquaStorage<E>, Error>,
)
    requires
        call_ensures(
            AquaStorage::<E>::where_cond::<B>,
            (src, backend, layout, true_value, true_layout, false_value, false_layout),
            outcome,
        ),
    ensures
        outcome is Ok ==> outcome->Ok_0.spec_device() == src.spec_device(),
        src.spec_device().is_same_instance(true_value.spec_device()) && src.spec_device().is_same_instance(false_value.spec_device()) && outcome is Ok ==> call_ensures(
            B::where_cond,
            (backend, &src.spec_cpu(), layout, &true_value.spec_cpu(), true_layout, &false_value.spec_cpu(), false_layout),
            Ok(outcome->Ok_0.spec_cpu()),
        ),
        src.spec_device().is_same_instance(true_value.spec_device()) && src.spec_device().is_same_instance(false_value.spec_device()) && outcome is Err ==> call_ensures(
            B::where_cond,
            (backend, &src.spec_cpu(), layout, &true_value.spec_cpu(), true_layout, &false_value.spec_cpu(), false_layout),
            Err(outcome->Err_0),
        ),
        !src.spec_device().is_same_instance(true_value.spec_device()) ==> error::is_device_mismatch(
            outcome,
            src.spec_device().spec_location(),
            true_value.spec_device().spec_location(),
            "where"@,
        ),
        src.spec_device().is_same_instance(true_value.spec_device()) && !src.spec_device().is_same_instance(false_value.spec_device()) ==> error::is_device_mismatch(
            outcome,
            src.spec_device().spec_location(),
            false_value.spec_device().spec_location(),
            "where"@,
        ),
{
}

/// Convolving along one dimension gives what the host gives for the operands
/// in their roles, on the device of the first, and refuses operands of another
/// device.
pub proof fn law_conv1d_is_that_of_the_host<E, B: CpuBackend>(
    src: &AquaStorage<E>,
    backend: &B,
    layout: &Layout,
    kernel: &AquaStorage<E>,
    kernel_layout: &Layout,
    params: &B::Conv1D,
    outcome: Result<AquaStorage<E>, Error>,
)
    requires
        call_ensures(
            AquaStorage::<E>::conv1d::<B>,
            (src, backend, layout, kernel, kernel_layout, params),
            outcome,
        ),
    ensures
        outcome is Ok ==> outcome->Ok_0.spec_device() == src.spec_device(),
        src.spec_device().is_same_instance(kernel.spec_device()) && outcome is Ok ==> call_ensures(
            B::conv1d,
            (backend, &src.spec_cpu(), layout, &kernel.spec_cpu(), kernel_layout, params),
            Ok(outcome->Ok_0.spec_cpu()),
        ),
        src.spec_device().is_same_instance(kernel.spec_device()) && outcome is Err ==> call_ensures(
            B::conv1d,
            (backend, &src.spec_cpu(), layout, &kernel.spec_cpu(), kernel_layout, params),
            Err(outcome->Err_0),
        ),
        !src.spec_device().is_same_instance(kernel.spec_device()) ==> error::is_device_mismatch(
            outcome,
            src.spec_device().spec_location(),
            kernel.spec_device().spec_location(),
            "conv1d"@,
        ),
{
}

/// Convolving, transposed, along one dimension gives what the host gives for the operands
/// in their roles, on the device of the first, and refuses operands of another
/// device.
pub proof fn law_conv_transpose1d_is_that_of_the_host<E, B: CpuBackend>(
    src: &AquaStorage<E>,
    backend: &B,
    layout: &Layout,
    kernel: &AquaStorage<E>,
    kernel_layout: &Layout,
    params: &B::ConvTranspose1D,
    outcome: Result<AquaStorage<E>, Error>,
)
    requires
        call_ensures(
            AquaStorage::<E>::conv_transpose1d::<B>,
            (src, backend, layout, kernel, kernel_layout, params),
            outcome,
        ),
    ensures
        outcome is Ok ==> outcome->Ok_0.spec_device() == src.spec_device(),
        src.spec_device().is_same_instance(kernel.spec_device()) && outcome is Ok ==> call_ensures(
            B::conv_transpose1d,
            (backend, &src.spec_cpu(), layout, &kernel.spec_cpu(), kernel_layout, params),
            Ok(outcome->Ok_0.spec_cpu()),
        ),
        src.spec_device().is_same_instance(kernel.spec_device()) && outcome is Err ==> call_ensures(
            B::conv_transpose1d,
            (backend, &src.spec_cpu(), layout, &kernel.spec_cpu(), kernel_layout, params),
            Err(outcome->Err_0),
        ),
        !src.spec_device().is_same_instance(kernel.spec_device()) ==> error::is_device_mismatch(
            outcome,
            src.spec_device().spec_location(),
            kernel.spec_device().spec_location(),
            "conv-transpose1d"@,
        ),
{
}

/// Convolving along two dimensions gives what the host gives for the operands
/// in their roles, on the device of the first, and refuses operands of another
/// device.
pub proof fn law_conv2d_is_that_of_the_host<E, B: CpuBackend>(
    src: &AquaStorage<E>,
    backend: &B,
    layout: &Layout,
    kernel: &AquaStorage<E>,
    kernel_layout: &Layout,
    params: &B::Conv2D,
    outcome: Result<AquaStorage<E>, Error>,
)
    requires
        call_ensures(
            AquaStorage::<E>::conv2d::<B>,
            (src, backend, layout, kernel, kernel_layout, params),
            outcome,
        ),
    ensures
        outcome is Ok ==> outcome->Ok_0.spec_device() == src.spec_device(),
        src.spec_device().is_same_instance(kernel.spec_device()) && outcome is Ok ==> call_ensures(
            B::conv2d,
            (backend, &src.spec_cpu(), layout, &kernel.spec_cpu(), kernel_layout, params),
            Ok(outcome->Ok_0.spec_cpu()),
        ),
        src.spec_device().is_same_instance(kernel.spec_device()) && outcome is Err ==> call_ensures(
            B::conv2d,
            (backend, &src.spec_cpu(), layout, &kernel.spec_cpu(), kernel_layout, params),
            Err(outcome->Err_0),
        ),
        !src.spec_device().is_same_instance(kernel.spec_device()) ==> error::is_device_mismatch(
            outcome,
            src.spec_device().spec_location(),
            kernel.spec_device().spec_location(),
            "conv2d"@,
        ),
{
}

/// Convolving, transposed, along two dimensions gives what the host gives for the operands
/// in their roles, on the device of the first, and refuses operands of another
/// device.
pub proof fn law_conv_transpose2d_is_that_of_the_host<E, B: CpuBackend>(
    src: &AquaStorage<E>,
    backend: &B,
    layout: &Layout,
    kernel: &AquaStorage<E>,
    kernel_layout: &Layout,
    params: &B::ConvTranspose2D,
    outcome: Result<AquaStorage<E>, Error>,
)
    requires
        call_ensures(
            AquaStorage::<E>::conv_transpose2d::<B>,
            (src, backend, layout, kernel, kernel_layout, params),
            outcome,
        ),
    ensures
        outcome is Ok ==> outcome->Ok_0.spec_device() == src.spec_device(),
        src.spec_device().is_same_instance(kernel.spec_device()) && outcome is Ok ==> call_ensures(
            B::conv_transpose2d,
            (backend, &src.spec_cpu(), layout, &kernel.spec_cpu(), kernel_layout, params),
            Ok(outcome->Ok_0.spec_cpu()),
        ),
        src.spec_device().is_same_instance(kernel.spec_device()) && outcome is Err ==> call_ensures(
            B::conv_transpose2d,
            (backend, &src.spec_cpu(), layout, &kernel.spec_cpu(), kernel_layout, params),
            Err(outcome->Err_0),
        ),
        !src.spec_device().is_same_instance(kernel.spec_device()) ==> error::is_device_mismatch(
            outcome,
            src.spec_device().spec_location(),
            kernel.spec_device().spec_location(),
            "conv-transpose2d"@,
        ),
{
}

/// Averaging over windows gives what the host gives, on the same
/// device.
pub proof fn law_avg_pool2d_is_that_of_the_host<E, B: CpuBackend>(
    src: &AquaStorage<E>,
    backend: &B,
    layout: &Layout,
    kernel: (usize, usize),
    stride: (usize, usize),
    outcome: Result<AquaStorage<E>, Error>,
)
    requires
        call_ensures(
            AquaStorage::<E>::avg_pool2d::<B>,
            (src, backend, layout, kernel, stride),
            outcome,
        ),
    ensures
        outcome is Ok ==> outcome->Ok_0.spec_device() == src.spec_device(),
        outcome is Ok ==> call_ensures(
            B::avg_pool2d,
            (backend, &src.spec_cpu(), layout, kernel, stride),
            Ok(outcome->Ok_0.spec_cpu()),
        ),
        outcome is Err ==> call_ensures(
            B::avg_pool2d,
            (backend, &src.spec_cpu(), layout, kernel, stride),
            Err(outcome->Err_0),
        ),
{
}

/// Taking the largest value of each window gives what the host gives, on the same
/// device.
pub proof fn law_max_pool2d_is_that_of_the_host<E, B: CpuBackend>(
    src: &AquaStorage<E>,
    backend: &B,
    layout: &Layout,
    kernel: (usize, usize),
    stride: (usize, usize),
    outcome: Result<AquaStorage<E>, Error>,
)
    requires
        call_ensures(
            AquaStorage::<E>::max_pool2d::<B>,
            (src, backend, layout, kernel, stride),
            outcome,
        ),
    ensures
        outcome is Ok ==> outcome->Ok_0.spec_device() == src.spec_device(),
        outcome is Ok ==> call_ensures(
            B::max_pool2d,
            (backend, &src.spec_cpu(), layout, kernel, stride),
            Ok(outcome->Ok_0.spec_cpu()),
        ),
        outcome is Err ==> call_ensures(
            B::max_pool2d,
            (backend, &src.spec_cpu(), layout, kernel, stride),
            Err(outcome->Err_0),
        ),
{
}

/// Repeating values along one dimension gives what the host gives, on the same
/// device.
pub proof fn law_upsample_nearest1d_is_that_of_the_host<E, B: CpuBackend>(
    src: &AquaStorage<E>,
    backend: &B,
    layout: &Layout,
    target: usize,
    outcome: Result<AquaStorage<E>, Error>,
)
    requires
        call_ensures(
            AquaStorage::<E>::upsample_nearest1d::<B>,
            (src, backend, layout, target),
            outcome,
        ),
    ensures
        outcome is Ok ==> outcome->Ok_0.spec_device() == src.spec_device(),
        outcome is Ok ==> call_ensures(
            B::upsample_nearest1d,
            (backend, &src.spec_cpu(), layout, target),
            Ok(outcome->Ok_0.spec_cpu()),
        ),
        outcome is Err ==> call_ensures(
            B::upsample_nearest1d,
            (backend, &src.spec_cpu(), layout, target),
            Err(outcome->Err_0),
        ),
{
}

/// Repeating values along two dimensions gives what the host gives, on the same
/// device.
pub proof fn law_upsample_nearest2d_is_that_of_the_host<E, B: CpuBackend>(
    src: &AquaStorage<E>,
    backend: &B,
    layout: &Layout,
    target_h: usize,
    target_w: usize,
    outcome: Result<AquaStorage<E>, Error>,
)
    requires
        call_ensures(
            AquaStorage::<E>::upsample_nearest2d::<B>,
            (src, backend, layout, target_h, target_w),
            outcome,
        ),
    ensures
        outcome is Ok ==> outcome->Ok_0.spec_device() == src.spec_device(),
        outcome is Ok ==> call_ensures(
            B::upsample_nearest2d,
            (backend, &src.spec_cpu(), layout, target_h, target_w),
            Ok(outcome->Ok_0.spec_cpu()),
        ),
        outcome is Err ==> call_ensures(
            B::upsample_nearest2d,
            (backend, &src.spec_cpu(), layout, target_h, target_w),
            Err(outcome->Err_0),
        ),
{
}

/// Interpolating along two dimensions gives what the host gives, on the same
/// device.
pub proof fn law_upsample_bilinear2d_is_that_of_the_host<E, B: CpuBackend>(
    src: &AquaStorage<E>,
    backend: &B,
    layout: &Layout,
    target_h: usize,
    target_w: usize,
    align_corners: bool,
    scale_h: Option<u64>,
    scale_w: Option<u64>,
    outcome: Result<AquaStorage<E>, Error>,
)
    requires
        call_ensures(
            AquaStorage::<E>::upsample_bilinear2d::<B>,
            (src, backend, layout, target_h, target_w, align_corners, scale_h, scale_w),
            outcome,
        ),
    ensures
        outcome is Ok ==> outcome->Ok_0.spec_device() == src.spec_device(),
        outcome is Ok ==> call_ensures(
            B::upsample_bilinear2d,
            (backend, &src.spec_cpu(), layout, target_h, target_w, align_corners, scale_h, scale_w),
            Ok(outcome->Ok_0.spec_cpu()),
        ),
        outcome is Err ==> call_ensures(
            B::upsample_bilinear2d,
            (backend, &src.spec_cpu(), layout, target_h, target_w, align_corners, scale_h, scale_w),
            Err(outcome->Err_0),
        ),
{
}

/// Gathering by index gives what the host gives for the operands
/// in their roles, on the device of the first, and refuses operands of another
/// device.
pub proof fn law_gather_is_that_of_the_host<E, B: CpuBackend>(
    src: &AquaStorage<E>,
    backend: &B,
    layout: &Layout,
    indexes: &AquaStorage<E>,
    indexes_layout: &Layout,
    dim: usize,
    outcome: Result<AquaStorage<E>, Error>,
)
    requires
        call_ensures(
            AquaStorage::<E>::gather::<B>,
            (src, backend, layout, indexes, indexes_layout, dim),
            outcome,
        ),
    ensures
        outcome is Ok ==> outcome->Ok_0.spec_device() == src.spec_device(),
        src.spec_device().is_same_instance(indexes.spec_device()) && outcome is Ok ==> call_ensures(
            B::gather,
            (backend, &src.spec_cpu(), layout, &indexes.spec_cpu(), indexes_layout, dim),
            Ok(outcome->Ok_0.spec_cpu()),
        ),
        src.spec_device().is_same_instance(indexes.spec_device()) && outcome is Err ==> call_ensures(
            B::gather,
            (backend, &src.spec_cpu(), layout, &indexes.spec_cpu(), indexes_layout, dim),
            Err(outcome->Err_0),
        ),
        !src.spec_device().is_same_instance(indexes.spec_device()) ==> error::is_device_mismatch(
            outcome,
            src.spec_device().spec_location(),
            indexes.spec_device().spec_location(),
            "gather"@,
        ),
{
}

/// Selecting by index gives what the host gives for the operands
/// in their roles, on the device of the first, and refuses operands of another
/// device.
pub proof fn law_index_select_is_that_of_the_host<E, B: CpuBackend>(
    src: &AquaStorage<E>,
    backend: &B,
    indexes: &AquaStorage<E>,
    input_layout: &Layout,
    indexes_layout: &Layout,
    dim: usize,
    outcome: Result<AquaStorage<E>, Error>,
)
    requires
        call_ensures(
            AquaStorage::<E>::index_select::<B>,
            (src, backend, indexes, input_layout, indexes_layout, dim),
            outcome,
        ),
    ensures
        outcome is Ok ==> outcome->Ok_0.spec_device() == src.spec_device(),
        src.spec_device().is_same_instance(indexes.spec_device()) && outcome is Ok ==> call_ensures(
            B::index_select,
            (backend, &src.spec_cpu(), &indexes.spec_cpu(), input_layout, indexes_layout, dim),
            Ok(outcome->Ok_0.spec_cpu()),
        ),
        src.spec_device().is_same_instance(indexes.spec_device()) && outcome is Err ==> call_ensures(
            B::index_select,
            (backend, &src.spec_cpu(), &indexes.spec_cpu(), input_layout, indexes_layout, dim),
            Err(outcome->Err_0),
        ),
        !src.spec_device().is_same_instance(indexes.spec_device()) ==> error::is_device_mismatch(
            outcome,
            src.spec_device().spec_location(),
            indexes.spec_device().spec_location(),
            "index-select"@,
        ),
{
}

/// Adding at indexes gives what the host gives for the operands
/// in their roles, on the device of the first, and refuses operands of another
/// device.
pub proof fn law_index_add_is_that_of_the_host<E, B: CpuBackend>(
    src: &AquaStorage<E>,
    backend: &B,
    layout: &Layout,
    indexes: &AquaStorage<E>,
    indexes_layout: &Layout,
    source: &AquaStorage<E>,
    source_layout: &Layout,
    dim: usize,
    outcome: Result<AquaStorage<E>, Error>,
)
    requires
        call_ensures(
            AquaStorage::<E>::index_add::<B>,
            (src, backend, layout, indexes, indexes_layout, source, source_layout, dim),
            outcome,
        ),
    ensures
        outcome is Ok ==> outcome->Ok_0.spec_device() == src.spec_device(),
        src.spec_device().is_same_instance(indexes.spec_device()) && src.spec_device().is_same_instance(source.spec_device()) && outcome is Ok ==> call_ensures(
            B::index_add,
            (backend, &src.spec_cpu(), layout, &indexes.spec_cpu(), indexes_layout, &source.spec_cpu(), source_layout, dim),
            Ok(outcome->Ok_0.spec_cpu()),
        ),
        src.spec_device().is_same_instance(indexes.spec_device()) && src.spec_device().is_same_instance(source.spec_device()) && outcome is Err ==> call_ensures(
            B::index_add,
            (backend, &src.spec_cpu(), layout, &indexes.spec_cpu(), indexes_layout, &source.spec_cpu(), source_layout, dim),
            Err(outcome->Err_0),
        ),
        !src.spec_device().is_same_instance(indexes.spec_device()) ==> error::is_device_mismatch(
            outcome,
            src.spec_device().spec_location(),
            indexes.spec_device().spec_location(),
            "index-add"@,
        ),
        src.spec_device().is_same_instance(indexes.spec_device()) && !src.spec_device().is_same_instance(source.spec_device()) ==> error::is_device_mismatch(
            outcome,
            src.spec_device().spec_location(),
            source.spec_device().spec_location(),
            "index-add"@,
        ),
{
}

/// Zeros are the host's, on the device that was asked.
pub proof fn law_zeros_impl_is_that_of_the_host<E, B: CpuBackend>(
    device: &AquaDevice<E>,
    backend: &B,
    shape: &Shape,
    dtype: DType,
    outcome: Result<AquaStorage<E>, Error>,
)
    requires
        call_ensures(AquaDevice::<E>::zeros_impl::<B>, (device, backend, shape, dtype), outcome),
    ensures
        outcome is Ok ==> outcome->Ok_0.spec_device() == *device,
        outcome is Ok ==> call_ensures(
            B::zeros,
            (backend, shape, dtype),
            Ok(outcome->Ok_0.spec_cpu()),
        ),
        outcome is Err ==> call_ensures(B::zeros, (backend, shape, dtype), Err(outcome->Err_0)),
{
}

/// Values to be overwritten are the host's, on the device that was asked. They are zeros, never
/// what happened to be in memory.
pub proof fn law_alloc_uninit_is_that_of_the_host<E, B: CpuBackend>(
    device: &AquaDevice<E>,
    backend: &B,
    shape: &Shape,
    dtype: DType,
    outcome: Result<AquaStorage<E>, Error>,
)
    requires
        call_ensures(AquaDevice::<E>::alloc_uninit::<B>, (device, backend, shape, dtype), outcome),
    ensures
        outcome is Ok ==> outcome->Ok_0.spec_device() == *device,
        outcome is Ok ==> call_ensures(
            B::zeros,
            (backend, shape, dtype),
            Ok(outcome->Ok_0.spec_cpu()),
        ),
        outcome is Err ==> call_ensures(B::zeros, (backend, shape, dtype), Err(outcome->Err_0)),
{
}

/// Evenly drawn values are the host's, on the device that was asked.
pub proof fn law_rand_uniform_is_that_of_the_host<E, B: CpuBackend>(
    device: &AquaDevice<E>,
    backend: &B,
    shape: &Shape,
    dtype: DType,
    min: u64,
    max: u64,
    outcome: Result<AquaStorage<E>, Error>,
)
    requires
        call_ensures(AquaDevice::<E>::rand_uniform::<B>, (device, backend, shape, dtype, min, max), outcome),
    ensures
        outcome is Ok ==> outcome->Ok_0.spec_device() == *device,
        outcome is Ok ==> call_ensures(
            B::rand_uniform,
            (backend, shape, dtype, min, max),
            Ok(outcome->Ok_0.spec_cpu()),
        ),
        outcome is Err ==> call_ensures(B::rand_uniform, (backend, shape, dtype, min, max), Err(outcome->Err_0)),
{
}

/// Normally drawn values are the host's, on the device that was asked.
pub proof fn law_rand_normal_is_that_of_the_host<E, B: CpuBackend>(
    device: &AquaDevice<E>,
    backend: &B,
    shape: &Shape,
    dtype: DType,
    mean: u64,
    deviation: u64,
    outcome: Result<AquaStorage<E>, Error>,
)
    requires
        call_ensures(AquaDevice::<E>::rand_normal::<B>, (device, backend, shape, dtype, mean, deviation), outcome),
    ensures
        outcome is Ok ==> outcome->Ok_0.spec_device() == *device,
        outcome is Ok ==> call_ensures(
            B::rand_normal,
            (backend, shape, dtype, mean, deviation),
            Ok(outcome->Ok_0.spec_cpu()),
        ),
        outcome is Err ==> call_ensures(B::rand_normal, (backend, shape, dtype, mean, deviation), Err(outcome->Err_0)),
{
}

/// Values that go to a device and come back are the same.
pub proof fn law_values_come_back_from_the_device<E>(
    device: &AquaDevice<E>,
    values: &CpuStorage,
    there: Result<AquaStorage<E>, Error>,
    back: Result<CpuStorage, Error>,
)
    requires
        call_ensures(AquaDevice::<E>::storage_from_cpu_storage, (device, values), there),
        there is Ok ==> call_ensures(AquaStorage::<E>::to_cpu_storage, (&there->Ok_0,), back),
    ensures
        there is Ok,
        there->Ok_0.spec_device() == *device,
        back is Ok,
        back->Ok_0.same_values(*values),
{
}

/// Storing values at indexes changes the first operand as the host does, and
/// nothing where an operand is of another device.
pub proof fn law_scatter_set_is_that_of_the_host<E, B: CpuBackend>(
    dst: &mut AquaStorage<E>,
    backend: &B,
    layout: &Layout,
    indexes: &AquaStorage<E>,
    indexes_layout: &Layout,
    source: &AquaStorage<E>,
    source_layout: &Layout,
    dim: usize,
    outcome: Result<(), Error>,
)
    requires
        call_ensures(
            AquaStorage::<E>::scatter_set::<B>,
            (dst, backend, layout, indexes, indexes_layout, source, source_layout, dim),
            outcome,
        ),
    ensures
        final(dst).spec_device() == old(dst).spec_device(),
        old(dst).spec_device().is_same_instance(indexes.spec_device()) && old(
            dst,
        ).spec_device().is_same_instance(source.spec_device()) ==> call_ensures(
            B::scatter_set,
            (
                backend,
                old(dst).spec_cpu(),
                layout,
                &indexes.spec_cpu(),
                indexes_layout,
                &source.spec_cpu(),
                source_layout,
                dim,
            ),
            (final(dst).spec_cpu(), outcome),
        ),
        !old(dst).spec_device().is_same_instance(indexes.spec_device()) || !old(
            dst,
        ).spec_device().is_same_instance(source.spec_device()) ==> {
            &&& *final(dst) == *old(dst)
            &&& outcome is Err
            &&& outcome->Err_0 is DeviceMismatchBinaryOp
            &&& outcome->Err_0->op@ == "scatter-set"@
        },
{
}

/// Adding values at indexes changes the first operand as the host does, and
/// nothing where an operand is of another device.
pub proof fn law_scatter_add_set_is_that_of_the_host<E, B: CpuBackend>(
    dst: &mut AquaStorage<E>,
    backend: &B,
    layout: &Layout,
    indexes: &AquaStorage<E>,
    indexes_layout: &Layout,
    source: &AquaStorage<E>,
    source_layout: &Layout,
    dim: usize,
    outcome: Result<(), Error>,
)
    requires
        call_ensures(
            AquaStorage::<E>::scatter_add_set::<B>,
            (dst, backend, layout, indexes, indexes_layout, source, source_layout, dim),
            outcome,
        ),
    ensures
        final(dst).spec_device() == old(dst).spec_device(),
        old(dst).spec_device().is_same_instance(indexes.spec_device()) && old(
            dst,
        ).spec_device().is_same_instance(source.spec_device()) ==> call_ensures(
            B::scatter_add_set,
            (
                backend,
                old(dst).spec_cpu(),
                layout,
                &indexes.spec_cpu(),
                indexes_layout,
                &source.spec_cpu(),
                source_layout,
                dim,
            ),
            (final(dst).spec_cpu(), outcome),
        ),
        !old(dst).spec_device().is_same_instance(indexes.spec_device()) || !old(
            dst,
        ).spec_device().is_same_instance(source.spec_device()) ==> {
            &&& *final(dst) == *old(dst)
            &&& outcome is Err
            &&& outcome->Err_0 is DeviceMismatchBinaryOp
            &&& outcome->Err_0->op@ == "scatter-add"@
        },
{
}

/// Storing one value changes the operand as the host does.
pub proof fn law_const_set_is_that_of_the_host<E, B: CpuBackend>(
    dst: &mut AquaStorage<E>,
    backend: &B,
    value: B::Scalar,
    layout: &Layout,
    outcome: Result<(), Error>,
)
    requires
        call_ensures(AquaStorage::<E>::const_set::<B>, (dst, backend, value, layout), outcome),
    ensures
        final(dst).spec_device() == old(dst).spec_device(),
        call_ensures(
            B::const_set,
            (backend, old(dst).spec_cpu(), value, layout),
            (final(dst).spec_cpu(), outcome),
        ),
{
}

/// Copying what a layout reaches changes the target as the host does, from the
/// given offset of the target on, and nothing where it is of another device.
pub proof fn law_copy_strided_src_is_that_of_the_host<E, B: CpuBackend>(
    src: &AquaStorage<E>,
    backend: &B,
    dst: &mut AquaStorage<E>,
    dst_offset: usize,
    src_layout: &Layout,
    outcome: Result<(), Error>,
)
    requires
        call_ensures(
            AquaStorage::<E>::copy_strided_src::<B>,
            (src, backend, dst, dst_offset, src_layout),
            outcome,
        ),
    ensures
        final(dst).spec_device() == old(dst).spec_device(),
        src.spec_device().is_same_instance(old(dst).spec_device()) ==> call_ensures(
            B::copy_strided_src,
            (backend, &src.spec_cpu(), old(dst).spec_cpu(), dst_offset, src_layout),
            (final(dst).spec_cpu(), outcome),
        ),
        !src.spec_device().is_same_instance(old(dst).spec_device()) ==> {
            &&& *final(dst) == *old(dst)
            &&& outcome is Err
            &&& outcome->Err_0 is DeviceMismatchBinaryOp
            &&& outcome->Err_0->op@ == "copy"@
        },
{
}

/// Copying a rectangle changes the target as the host does, with the strides
/// and offsets of source and target in their roles, and nothing where it is of
/// another device.
pub proof fn law_copy2d_is_that_of_the_host<E, B: CpuBackend>(
    src: &AquaStorage<E>,
    backend: &B,
    dst: &mut AquaStorage<E>,
    d1: usize,
    d2: usize,
    src_stride: usize,
    dst_stride: usize,
    src_offset: usize,
    dst_offset: usize,
    outcome: Result<(), Error>,
)
    requires
        call_ensures(
            AquaStorage::<E>::copy2d::<B>,
            (src, backend, dst, d1, d2, src_stride, dst_stride, src_offset, dst_offset),
            outcome,
        ),
    ensures
        final(dst).spec_device() == old(dst).spec_device(),
        src.spec_device().is_same_instance(old(dst).spec_device()) ==> call_ensures(
            B::copy2d,
            (
                backend,
                &src.spec_cpu(),
                old(dst).spec_cpu(),
                d1,
                d2,
                src_stride,
                dst_stride,
                src_offset,
                dst_offset,
            ),
            (final(dst).spec_cpu(), outcome),
        ),
        !src.spec_device().is_same_instance(old(dst).spec_device()) ==> {
            &&& *final(dst) == *old(dst)
            &&& outcome is Err
            &&& outcome->Err_0 is DeviceMismatchBinaryOp
            &&& outcome->Err_0->op@ == "copy2d"@
        },
{
}

} // verus!
