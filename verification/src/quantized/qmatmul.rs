//! A matrix that inputs are multiplied with, quantized or not.

use crate::cpu_storage::{CpuStorage, DType};
use crate::dtype::GgmlDType;
use crate::error;
use crate::error::{error_text, error_text4, Error};
use crate::quantized::kernels::BlockKernels;
use crate::quantized::matmul;
use crate::quantized::qtensor;
use crate::quantized::qtensor::QTensor;
use crate::quantized::storage;
use crate::shape;
use crate::shape::{Layout, Shape};
use crate::tensor;
use crate::tensor::{Storage, Tensor};
use crate::text;
use crate::text::same_text;
use std::sync::Arc;
use vstd::prelude::*;

verus! {

/// A matrix that inputs are multiplied with: kept quantized, or dequantized to
/// F32 or F16.
#[derive(Debug)]
pub enum QMatMul {
    QTensor(Arc<QTensor>),
    Tensor(Tensor),
    TensorF16(Tensor),
}

impl QMatMul {
    /// The same matrix: the same shared blocks, or the same values.
    pub open spec fn same_matrix(self, other: QMatMul) -> bool {
        match (self, other) {
            (QMatMul::QTensor(a), QMatMul::QTensor(b)) => a == b,
            (QMatMul::Tensor(a), QMatMul::Tensor(b)) => a.storage.same_values(b.storage)
                && a.shape@ == b.shape@,
            (QMatMul::TensorF16(a), QMatMul::TensorF16(b)) => a.storage.same_values(b.storage)
                && a.shape@ == b.shape@,
            _ => false,
        }
    }
}

impl Clone for QMatMul {
    fn clone(&self) -> (copy: QMatMul)
        ensures
            copy.same_matrix(*self),
    {
        match self {
            QMatMul::QTensor(blocks) => QMatMul::QTensor(blocks.clone()),
            QMatMul::Tensor(floats) => QMatMul::Tensor(floats.clone()),
            QMatMul::TensorF16(halves) => QMatMul::TensorF16(halves.clone()),
        }
    }
}

/// The switch in the environment that asks for dequantizing all matrices to
/// F32.
pub const DEQUANTIZE_ALL: &'static str = "CANDLE_DEQUANTIZE_ALL";

/// The switch in the environment that asks for dequantizing all matrices to
/// F16.
pub const DEQUANTIZE_ALL_F16: &'static str = "CANDLE_DEQUANTIZE_ALL_F16";

/// A switch in the environment is on: it has a value other than the empty one
/// and `0`.
pub open spec fn switched_on(value: Option<Seq<char>>) -> bool {
    match value {
        Some(text) => text.len() > 0 && text != "0"@,
        None => false,
    }
}

/// Whether a switch in the environment is on.
pub fn is_switched_on(value: Option<&str>) -> (on: bool)
    ensures
        on == switched_on(match value {
            Some(text) => Some(text@),
            None => None,
        }),
{
    match value {
        Some(text) => {
            let empty = same_text(text, "");
            proof {
                reveal_strlit("");
                assert(""@ =~= Seq::<char>::empty());
                assert(text@.len() == 0 ==> text@ =~= ""@);
            }
            !empty && !same_text(text, "0")
        },
        None => false,
    }
}

/// The type holds plain numbers, so that nothing is gained by keeping it.
pub open spec fn plain(dtype: GgmlDType) -> bool {
    dtype == GgmlDType::F32 || dtype == GgmlDType::F16 || dtype == GgmlDType::BF16
}

/// What `from_arc` does: plain numbers are dequantized, and so is everything
/// where the switches ask for it; else the matrix stays quantized.
pub open spec fn prepared<K: BlockKernels>(
    kernels: &K,
    weights: Arc<QTensor>,
    dequantize_all: bool,
    dequantize_all_f16: bool,
    outcome: Result<QMatMul, Error>,
) -> bool {
    let device = weights.spec_storage().spec_device();
    if plain(weights.spec_storage().spec_dtype()) || dequantize_all {
        exists|floats: Result<Tensor, Error>|
            {
                &&& #[trigger] qtensor::dequantized(kernels, *weights, device, floats)
                &&& match floats {
                    Ok(values) => outcome == Ok::<QMatMul, Error>(QMatMul::Tensor(values)),
                    Err(error) => outcome == Err::<QMatMul, Error>(error),
                }
            }
    } else if dequantize_all_f16 {
        exists|floats: Result<Tensor, Error>|
            {
                &&& #[trigger] qtensor::dequantized_f16(kernels, *weights, device, floats)
                &&& match floats {
                    Ok(values) => outcome == Ok::<QMatMul, Error>(QMatMul::TensorF16(values)),
                    Err(error) => outcome == Err::<QMatMul, Error>(error),
                }
            }
    } else {
        outcome == Ok::<QMatMul, Error>(QMatMul::QTensor(weights))
    }
}

/// The leading extents over which a plain matrix is repeated.
pub open spec fn batch(dims: Seq<usize>) -> Seq<usize> {
    if dims.len() == 4 {
        seq![dims[0], dims[1]]
    } else if dims.len() == 3 {
        seq![dims[0]]
    } else {
        seq![]
    }
}

/// What multiplying with a plain matrix does.
pub open spec fn plain_product<K: BlockKernels>(
    kernels: &K,
    weights: Tensor,
    xs: Tensor,
    dims: Seq<usize>,
    outcome: Result<Tensor, Error>,
) -> bool {
    exists|repeated: Vec<usize>|
        {
            &&& repeated@ == batch(dims)
            &&& #[trigger] call_ensures(
                K::matmul_transposed,
                (kernels, &xs, &weights, &repeated),
                outcome,
            )
        }
}

/// What multiplying as F16 does: the input is converted, multiplied, and the
/// product converted back to the input's type.
pub open spec fn product_via_f16<K: BlockKernels>(
    kernels: &K,
    weights: Tensor,
    xs: Tensor,
    outcome: Result<Tensor, Error>,
) -> bool {
    exists|halves: Result<Tensor, Error>|
        {
            &&& #[trigger] tensor::tensor_converted(kernels, xs, DType::F16, halves)
            &&& match halves {
                Err(error) => outcome == Err::<Tensor, Error>(error),
                Ok(input) => exists|product: Result<Tensor, Error>|
                    {
                        &&& #[trigger] plain_product(kernels, weights, input, xs.shape@, product)
                        &&& match product {
                            Err(error) => outcome == Err::<Tensor, Error>(error),
                            Ok(result) => tensor::tensor_converted(
                                kernels,
                                result,
                                xs.storage.spec_dtype(),
                                outcome,
                            ),
                        }
                    },
            }
        }
}

/// What multiplying with a quantized matrix does.
pub open spec fn quantized_product<K: BlockKernels>(
    kernels: &K,
    weights: QTensor,
    xs: Tensor,
    outcome: Result<Tensor, Error>,
) -> bool {
    match xs.storage {
        Storage::Cpu(values) => exists|layout: Layout, product: Result<(CpuStorage, Shape), Error>|
            {
                &&& shape::row_major(layout, xs.shape@)
                &&& #[trigger] matmul::forwarded(kernels, weights, values, layout, product)
                &&& match product {
                    Err(error) => outcome == Err::<Tensor, Error>(error),
                    Ok((cpu, dims)) => outcome == Ok::<Tensor, Error>(
                        Tensor { storage: Storage::Cpu(cpu), shape: dims },
                    ),
                }
            },
        Storage::Cuda { .. } => outcome == Err::<Tensor, Error>(Error::NotCompiledWithCudaSupport),
        Storage::Metal { .. } => outcome == Err::<Tensor, Error>(Error::NotCompiledWithMetalSupport),
        Storage::Aqua(_) => error::fails_with(
            outcome,
            "quantized storage is not supported on Aqua devices"@,
        ),
    }
}

/// A quantized matrix can be multiplied with the input: on a GPU both are
/// there, and on the host the product can be counted.
pub open spec fn quantized_product_fits(weights: QTensor, xs: Tensor) -> bool {
    match xs.storage {
        Storage::Cpu(values) => {
            &&& shape::strides_fit(xs.shape@)
            &&& weights@.len() == 2 && xs.shape@.len() >= 2 && xs.shape@.last() == weights@[1]
                && weights.spec_storage() is Cpu && (values is F32 || values is F16) ==> {
                &&& weights@[0] > 0
                &&& shape::elements_fit(xs.shape@)
                &&& shape::elements(xs.shape@) <= values.spec_len()
                &&& shape::elements_fit(matmul::product_dims(xs.shape@, weights@[0]))
            }
        },
        Storage::Cuda { .. } => weights.spec_storage() is Cuda,
        Storage::Metal { .. } => weights.spec_storage() is Metal,
        Storage::Aqua(_) => true,
    }
}

/// What a caller prints when rows cannot take the extents that were asked for.
pub open spec fn reshape_text(from: Seq<usize>, to: Seq<usize>) -> Seq<char> {
    "shape mismatch in reshape, lhs: "@ + text::decimal_list(from) + ", rhs: "@ + text::decimal_list(to)
}

/// What looking up rows of a plain matrix does: the rows that the ids name, in
/// the shape of the ids with one more dimension for the row.
pub open spec fn plain_rows<K: BlockKernels>(
    kernels: &K,
    weights: Tensor,
    ids: Tensor,
    outcome: Result<Tensor, Error>,
) -> bool {
    if weights.shape@.len() == 0 {
        error::fails_with(outcome, shape::last_dim_text(weights.shape@))
    } else {
        exists|here: Result<Tensor, Error>|
            {
                &&& #[trigger] tensor::tensor_moved(ids, weights.storage.spec_device(), here)
                &&& match here {
                    Err(error) => outcome == Err::<Tensor, Error>(error),
                    Ok(local) => exists|rows: Result<Tensor, Error>|
                        {
                            &&& #[trigger] call_ensures(
                                K::index_select,
                                (kernels, &weights, &local),
                                rows,
                            )
                            &&& match rows {
                                Err(error) => outcome == Err::<Tensor, Error>(error),
                                Ok(selected) => reshaped(
                                    selected,
                                    ids.shape@.push(weights.shape@.last()),
                                    outcome,
                                ),
                            }
                        },
                }
            }
    }
}

/// The same values with the extents `dims`, where there are as many.
pub open spec fn reshaped(source: Tensor, dims: Seq<usize>, outcome: Result<Tensor, Error>) -> bool {
    if source.storage.spec_len() == shape::elements(dims) {
        &&& outcome is Ok
        &&& outcome->Ok_0.storage == source.storage
        &&& outcome->Ok_0.shape@ == dims
    } else {
        error::fails_with(outcome, reshape_text(source.shape@, dims))
    }
}

/// What `dequantize_f16` does.
pub open spec fn halved<K: BlockKernels>(
    kernels: &K,
    weights: QMatMul,
    outcome: Result<Tensor, Error>,
) -> bool {
    match weights {
        QMatMul::QTensor(blocks) => qtensor::dequantized_f16(
            kernels,
            *blocks,
            blocks.spec_storage().spec_device(),
            outcome,
        ),
        QMatMul::Tensor(floats) => tensor::tensor_converted(kernels, floats, DType::F16, outcome),
        QMatMul::TensorF16(halves) => {
            &&& outcome is Ok
            &&& outcome->Ok_0.storage.same_values(halves.storage)
            &&& outcome->Ok_0.shape@ == halves.shape@
        },
    }
}

/// The leading extents over which a plain matrix is repeated.
fn batch_of(dims: &Vec<usize>) -> (repeated: Vec<usize>)
    ensures
        repeated@ == batch(dims@),
{
    let mut repeated: Vec<usize> = Vec::new();
    if dims.len() == 4 {
        repeated.push(dims[0]);
        repeated.push(dims[1]);
    } else if dims.len() == 3 {
        repeated.push(dims[0]);
    }
    assert(repeated@ =~= batch(dims@));
    repeated
}

/// The product of `xs` with a plain matrix, computed as F16.
fn multiply_via_f16<K: BlockKernels>(kernels: &K, weights: &Tensor, xs: &Tensor) -> (outcome: Result<
    Tensor,
    Error,
>)
    ensures
        product_via_f16(kernels, *weights, *xs, outcome),
{
    let in_dtype = xs.dtype();
    let repeated = batch_of(xs.shape.dims());
    let halves = xs.to_dtype(kernels, DType::F16);
    match halves {
        Err(error) => Err(error),
        Ok(input) => {
            let product = kernels.matmul_transposed(&input, weights, &repeated);
            assert(plain_product(kernels, *weights, input, xs.shape@, product));
            match product {
                Err(error) => Err(error),
                Ok(result) => result.to_dtype(kernels, in_dtype),
            }
        },
    }
}

impl QMatMul {
    /// A matrix from quantized blocks. The two flags say whether the switches
    /// `DEQUANTIZE_ALL` and `DEQUANTIZE_ALL_F16` are on.
    pub fn from_arc<K: BlockKernels>(
        kernels: &K,
        qtensor: Arc<QTensor>,
        dequantize_all: bool,
        dequantize_all_f16: bool,
    ) -> (outcome: Result<QMatMul, Error>)
        requires
            shape::elements_fit(qtensor@),
        ensures
            prepared(kernels, qtensor, dequantize_all, dequantize_all_f16, outcome),
    {
        let dequantize = match qtensor.dtype() {
            GgmlDType::F32 | GgmlDType::F16 | GgmlDType::BF16 => true,
            _ => dequantize_all,
        };
        if dequantize {
            let device = qtensor.device();
            let floats = qtensor.dequantize(kernels, &device);
            match floats {
                Err(error) => Err(error),
                Ok(values) => Ok(QMatMul::Tensor(values)),
            }
        } else if dequantize_all_f16 {
            let device = qtensor.device();
            let floats = qtensor.dequantize_f16(kernels, &device);
            match floats {
                Err(error) => Err(error),
                Ok(values) => Ok(QMatMul::TensorF16(values)),
            }
        } else {
            Ok(QMatMul::QTensor(qtensor))
        }
    }

    /// A matrix from quantized blocks.
    pub fn from_qtensor<K: BlockKernels>(
        kernels: &K,
        qtensor: QTensor,
        dequantize_all: bool,
        dequantize_all_f16: bool,
    ) -> (outcome: Result<QMatMul, Error>)
        requires
            shape::elements_fit(qtensor@),
        ensures
            prepared(kernels, Arc::new(qtensor), dequantize_all, dequantize_all_f16, outcome),
    {
        QMatMul::from_arc(kernels, Arc::new(qtensor), dequantize_all, dequantize_all_f16)
    }

    /// The quantized blocks can be counted.
    pub open spec fn fits(self) -> bool {
        match self {
            QMatMul::QTensor(blocks) => shape::elements_fit(blocks@),
            _ => true,
        }
    }

    /// The matrix as F16.
    pub fn dequantize_f16<K: BlockKernels>(&self, kernels: &K) -> (outcome: Result<Tensor, Error>)
        requires
            self.fits(),
        ensures
            halved(kernels, *self, outcome),
    {
        match self {
            QMatMul::QTensor(blocks) => {
                let device = blocks.device();
                blocks.dequantize_f16(kernels, &device)
            },
            QMatMul::Tensor(floats) => floats.to_dtype(kernels, DType::F16),
            QMatMul::TensorF16(halves) => Ok(halves.clone()),
        }
    }

    /// The product of `xs` with the matrix, computed as F16 and returned in
    /// the type of `xs`.
    pub fn forward_via_f16<K: BlockKernels>(&self, kernels: &K, xs: &Tensor) -> (outcome: Result<
        Tensor,
        Error,
    >)
        requires
            self.fits(),
        ensures
            exists|weights: Result<Tensor, Error>|
                {
                    &&& #[trigger] halved(kernels, *self, weights)
                    &&& match weights {
                        Err(error) => outcome == Err::<Tensor, Error>(error),
                        Ok(halves) => product_via_f16(kernels, halves, *xs, outcome),
                    }
                },
    {
        let weights = self.dequantize_f16(kernels);
        match weights {
            Err(error) => Err(error),
            Ok(halves) => multiply_via_f16(kernels, &halves, xs),
        }
    }

    /// The product with the experts that the ids name, which is there for
    /// quantized matrices on CUDA devices only and needs their runtime.
    pub fn indexed_moe_forward(&self, x: &Tensor, ids: &Tensor) -> (outcome: Result<Tensor, Error>)
        requires
            match *self {
                QMatMul::QTensor(blocks) => blocks.spec_storage() is Cuda,
                _ => false,
            },
            x.storage is Cuda,
            ids.storage is Cuda,
        ensures
            outcome == Err::<Tensor, Error>(Error::NotCompiledWithCudaSupport),
    {
        match self {
            QMatMul::QTensor(blocks) => blocks.indexed_moe_forward(x, ids),
            _ => Err(Error::NotCompiledWithCudaSupport),
        }
    }

    /// The rows of the matrix that the ids name.
    pub fn embedding<K: BlockKernels>(&self, kernels: &K, ids: &Tensor) -> (outcome: Result<
        Tensor,
        Error,
    >)
        requires
            match *self {
                QMatMul::QTensor(blocks) => blocks.wf() && shape::elements_fit(blocks@),
                QMatMul::Tensor(weights) | QMatMul::TensorF16(weights) => weights.shape@.len() > 0
                    ==> shape::elements_fit(ids.shape@.push(weights.shape@.last())),
            },
        ensures
            match *self {
                QMatMul::QTensor(blocks) => qtensor::tensor_embedded(kernels, *blocks, *ids, outcome),
                QMatMul::Tensor(weights) | QMatMul::TensorF16(weights) => plain_rows(
                    kernels,
                    weights,
                    *ids,
                    outcome,
                ),
            },
    {
        match self {
            QMatMul::QTensor(blocks) => blocks.embedding(kernels, ids),
            QMatMul::Tensor(weights) => select_rows(kernels, weights, ids),
            QMatMul::TensorF16(weights) => select_rows(kernels, weights, ids),
        }
    }

    /// The product of `xs` with the matrix.
    pub fn forward<K: BlockKernels>(&self, kernels: &K, xs: &Tensor) -> (outcome: Result<Tensor, Error>)
        requires
            match *self {
                QMatMul::QTensor(blocks) => quantized_product_fits(*blocks, *xs),
                _ => true,
            },
        ensures
            match *self {
                QMatMul::QTensor(blocks) => quantized_product(kernels, *blocks, *xs, outcome),
                QMatMul::Tensor(weights) => plain_product(
                    kernels,
                    weights,
                    *xs,
                    xs.shape@,
                    outcome,
                ),
                QMatMul::TensorF16(weights) => product_via_f16(kernels, weights, *xs, outcome),
            },
    {
        match self {
            QMatMul::QTensor(blocks) => match &xs.storage {
                Storage::Cpu(values) => {
                    let layout = Layout::row_after_row(xs.shape.clone());
                    let product = blocks.cpu_fwd(kernels, values, &layout);
                    match product {
                        Err(error) => Err(error),
                        Ok((cpu, dims)) => Ok(Tensor::from_storage(Storage::Cpu(cpu), dims)),
                    }
                },
                Storage::Metal { .. } => Err(Error::NotCompiledWithMetalSupport),
                Storage::Cuda { .. } => Err(Error::NotCompiledWithCudaSupport),
                Storage::Aqua(_) => Err(
                    error_text("quantized storage is not supported on Aqua devices"),
                ),
            },
            QMatMul::Tensor(weights) => {
                let repeated = batch_of(xs.shape.dims());
                kernels.matmul_transposed(xs, weights, &repeated)
            },
            QMatMul::TensorF16(weights) => multiply_via_f16(kernels, weights, xs),
        }
    }
}

/// The rows of a plain matrix that the ids name.
fn select_rows<K: BlockKernels>(kernels: &K, weights: &Tensor, ids: &Tensor) -> (outcome: Result<
    Tensor,
    Error,
>)
    requires
        weights.shape@.len() > 0 ==> shape::elements_fit(ids.shape@.push(weights.shape@.last())),
    ensures
        plain_rows(kernels, *weights, *ids, outcome),
{
    let width: usize = match weights.shape.last_dim() {
        Err(error) => return Err(error),
        Ok(width) => width,
    };
    let mut final_dims: Vec<usize> = ids.shape.clone().into_dims();
    final_dims.push(width);
    let final_shape = Shape::from_dims(final_dims);
    let device = weights.device();
    let moved = ids.to_device(&device);
    let local = match moved {
        Err(error) => return Err(error),
        Ok(local) => local,
    };
    let rows = kernels.index_select(weights, &local);
    match rows {
        Err(error) => Err(error),
        Ok(selected) => {
            if selected.storage.len() == final_shape.elem_count() {
                Ok(Tensor::from_storage(selected.storage, final_shape))
            } else {
                Err(
                    error_text4(
                        "shape mismatch in reshape, lhs: ",
                        selected.shape.text().as_str(),
                        ", rhs: ",
                        final_shape.text().as_str(),
                    ),
                )
            }
        },
    }
}

/// A plain matrix is repeated over all but the last two extents of the input,
/// in their order, so that both agree on every leading extent; an input with
/// other than three or four dimensions asks for no repetition.
pub proof fn law_repeated_weights_match_the_leading_extents(dims: Seq<usize>)
    ensures
        3 <= dims.len() <= 4 ==> batch(dims) == dims.take(dims.len() - 2),
        dims.len() < 3 || dims.len() > 4 ==> batch(dims).len() == 0,
        3 <= dims.len() <= 4 ==> batch(dims) + dims.skip(dims.len() - 2) == dims,
        3 <= dims.len() <= 4 ==> shape::elements(dims) == shape::elements(batch(dims))
            * dims[dims.len() - 2] * dims[dims.len() - 1],
{
    if 3 <= dims.len() <= 4 {
        let rest = dims.drop_last();
        assert(batch(dims) =~= dims.take(dims.len() - 2));
        assert(batch(dims) + dims.skip(dims.len() - 2) =~= dims);
        assert(rest.drop_last() =~= batch(dims));
        assert(shape::elements(dims) == shape::elements(rest) * dims.last() as nat);
        assert(shape::elements(rest) == shape::elements(batch(dims)) * rest.last() as nat);
    }
}

/// The product with a plain matrix is the kernel's, of the input and the matrix
/// in this order, the matrix repeated over all but the last two extents of an
/// input with three or four dimensions.
pub proof fn law_plain_matrix_is_multiplied_by_the_kernel<K: BlockKernels>(
    matrix: &QMatMul,
    kernels: &K,
    xs: &Tensor,
    outcome: Result<Tensor, Error>,
)
    requires
        *matrix is Tensor,
        call_ensures(QMatMul::forward::<K>, (matrix, kernels, xs), outcome),
    ensures
        exists|repeated: Vec<usize>|
            {
                &&& #[trigger] call_ensures(
                    K::matmul_transposed,
                    (kernels, xs, &matrix->Tensor_0, &repeated),
                    outcome,
                )
                &&& 3 <= xs.shape@.len() <= 4 ==> repeated@ == xs.shape@.take(xs.shape@.len() - 2)
                &&& xs.shape@.len() < 3 || xs.shape@.len() > 4 ==> repeated@.len() == 0
            },
{
    law_repeated_weights_match_the_leading_extents(xs.shape@);
    let repeated = choose|repeated: Vec<usize>|
        {
            &&& repeated@ == batch(xs.shape@)
            &&& #[trigger] call_ensures(
                K::matmul_transposed,
                (kernels, xs, &matrix->Tensor_0, &repeated),
                outcome,
            )
        };
    assert(call_ensures(
        K::matmul_transposed,
        (kernels, xs, &matrix->Tensor_0, &repeated),
        outcome,
    ));
}

/// The product with an F16 matrix is computed on the input as F16, with the
/// input's extents, and handed back in the type of the input; the matrix is
/// repeated as a plain one is.
pub proof fn law_f16_matrix_is_multiplied_as_f16<K: BlockKernels>(
    matrix: &QMatMul,
    kernels: &K,
    xs: &Tensor,
    outcome: Result<Tensor, Error>,
)
    requires
        *matrix is TensorF16,
        call_ensures(QMatMul::forward::<K>, (matrix, kernels, xs), outcome),
        outcome is Ok,
    ensures
        outcome->Ok_0.storage.spec_dtype() == xs.storage.spec_dtype(),
        exists|input: Tensor, repeated: Vec<usize>, product: Result<Tensor, Error>|
            {
                &&& #[trigger] call_ensures(
                    K::matmul_transposed,
                    (kernels, &input, &matrix->TensorF16_0, &repeated),
                    product,
                )
                &&& input.storage.spec_dtype() is F16
                &&& input.shape@ == xs.shape@
                &&& input.storage.spec_device() == xs.storage.spec_device()
                &&& 3 <= xs.shape@.len() <= 4 ==> repeated@ == xs.shape@.take(xs.shape@.len() - 2)
                &&& xs.shape@.len() < 3 || xs.shape@.len() > 4 ==> repeated@.len() == 0
                &&& product is Ok
                &&& outcome->Ok_0.shape@ == product->Ok_0.shape@
                &&& outcome->Ok_0.storage.spec_device() == product->Ok_0.storage.spec_device()
            },
{
    let weights = matrix->TensorF16_0;
    law_repeated_weights_match_the_leading_extents(xs.shape@);
    let halves = choose|halves: Result<Tensor, Error>|
        {
            &&& #[trigger] tensor::tensor_converted(kernels, *xs, DType::F16, halves)
            &&& match halves {
                Err(error) => outcome == Err::<Tensor, Error>(error),
                Ok(input) => exists|product: Result<Tensor, Error>|
                    {
                        &&& #[trigger] plain_product(kernels, weights, input, xs.shape@, product)
                        &&& match product {
                            Err(error) => outcome == Err::<Tensor, Error>(error),
                            Ok(result) => tensor::tensor_converted(
                                kernels,
                                result,
                                xs.storage.spec_dtype(),
                                outcome,
                            ),
                        }
                    },
            }
        };
    let input = halves->Ok_0;
    let product = choose|product: Result<Tensor, Error>|
        {
            &&& #[trigger] plain_product(kernels, weights, input, xs.shape@, product)
            &&& match product {
                Err(error) => outcome == Err::<Tensor, Error>(error),
                Ok(result) => tensor::tensor_converted(
                    kernels,
                    result,
                    xs.storage.spec_dtype(),
                    outcome,
                ),
            }
        };
    let repeated = choose|repeated: Vec<usize>|
        {
            &&& repeated@ == batch(xs.shape@)
            &&& #[trigger] call_ensures(
                K::matmul_transposed,
                (kernels, &input, &weights, &repeated),
                product,
            )
        };
    tensor::law_conversion_keeps_extents_and_place(kernels, *xs, DType::F16, halves);
    tensor::law_conversion_keeps_extents_and_place(
        kernels,
        product->Ok_0,
        xs.storage.spec_dtype(),
        outcome,
    );
    assert(call_ensures(
        K::matmul_transposed,
        (kernels, &input, &matrix->TensorF16_0, &repeated),
        product,
    ));
}

/// How a matrix is kept: plain numbers are dequantized, and with the first
/// switch everything is; with the second alone, the rest is dequantized to F16;
/// else the shared blocks stay as they are.
pub proof fn law_switches_say_how_a_matrix_is_kept<K: BlockKernels>(
    kernels: &K,
    blocks: Arc<QTensor>,
    dequantize_all: bool,
    dequantize_all_f16: bool,
    outcome: Result<QMatMul, Error>,
)
    requires
        call_ensures(
            QMatMul::from_arc::<K>,
            (kernels, blocks, dequantize_all, dequantize_all_f16),
            outcome,
        ),
        outcome is Ok,
    ensures
        outcome->Ok_0 is Tensor <==> dequantize_all || blocks.spec_storage().spec_dtype().spec_block_size() == 1,
        outcome->Ok_0 is TensorF16 <==> dequantize_all_f16 && !dequantize_all
            && blocks.spec_storage().spec_dtype().spec_block_size() > 1,
        outcome->Ok_0 is QTensor <==> !dequantize_all_f16 && !dequantize_all
            && blocks.spec_storage().spec_dtype().spec_block_size() > 1,
        outcome->Ok_0 is QTensor ==> outcome->Ok_0->QTensor_0 == blocks,
        outcome->Ok_0 is Tensor ==> outcome->Ok_0->Tensor_0.shape@ == blocks@,
        outcome->Ok_0 is TensorF16 ==> {
            &&& outcome->Ok_0->TensorF16_0.shape@ == blocks@
            &&& outcome->Ok_0->TensorF16_0.storage.spec_dtype() is F16
        },
{
    if outcome->Ok_0 is TensorF16 {
        let halves = outcome->Ok_0->TensorF16_0;
        let floats = choose|floats: Result<Tensor, Error>|
            {
                &&& #[trigger] qtensor::dequantized(
                    kernels,
                    *blocks,
                    blocks.spec_storage().spec_device(),
                    floats,
                )
                &&& match floats {
                    Err(error) => false,
                    Ok(values) => tensor::tensor_converted(kernels, values, DType::F16, Ok(halves)),
                }
            };
        tensor::law_conversion_keeps_extents_and_place(
            kernels,
            floats->Ok_0,
            DType::F16,
            Ok(halves),
        );
    }
}

/// A switch is on for every value but the empty one and a single zero, and off
/// where it is not set.
pub proof fn law_switch_is_on_for_any_other_value(value: Option<&str>, on: bool, text: &str)
    requires
        call_ensures(is_switched_on, (value,), on),
        value == Some(text) || value is None,
    ensures
        value is None ==> !on,
        value is Some && (text@.len() == 0 || text@ == "0"@) ==> !on,
        value is Some && text@.len() > 1 ==> on,
        value is Some && text@.len() == 1 && text@[0] != '0' ==> on,
{
    reveal_strlit("0");
}

/// A matrix made of blocks is kept as one made of shared blocks is.
pub proof fn law_own_blocks_are_kept_as_shared_ones<K: BlockKernels>(
    kernels: &K,
    blocks: QTensor,
    dequantize_all: bool,
    dequantize_all_f16: bool,
    outcome: Result<QMatMul, Error>,
)
    requires
        call_ensures(
            QMatMul::from_qtensor::<K>,
            (kernels, blocks, dequantize_all, dequantize_all_f16),
            outcome,
        ),
        outcome is Ok,
    ensures
        outcome->Ok_0 is Tensor <==> dequantize_all || blocks.spec_storage().spec_dtype().spec_block_size() == 1,
        outcome->Ok_0 is TensorF16 <==> dequantize_all_f16 && !dequantize_all
            && blocks.spec_storage().spec_dtype().spec_block_size() > 1,
        outcome->Ok_0 is QTensor ==> *outcome->Ok_0->QTensor_0 == blocks,
        outcome->Ok_0 is Tensor ==> outcome->Ok_0->Tensor_0.shape@ == blocks@,
{
}

/// A dequantized matrix holds the kernel's values for all the bytes of its
/// blocks.
pub proof fn law_dequantized_matrix_holds_the_kernels_values<K: BlockKernels>(
    kernels: &K,
    blocks: Arc<QTensor>,
    dequantize_all: bool,
    dequantize_all_f16: bool,
    outcome: Result<QMatMul, Error>,
)
    requires
        call_ensures(
            QMatMul::from_arc::<K>,
            (kernels, blocks, dequantize_all, dequantize_all_f16),
            outcome,
        ),
        shape::elements_fit(blocks@),
        outcome is Ok,
        outcome->Ok_0 is Tensor,
    ensures
        blocks.spec_storage() is Cpu,
        outcome->Ok_0->Tensor_0.storage is Cpu,
        outcome->Ok_0->Tensor_0.storage->Cpu_0 is F32,
        exists|bytes: &[u8], zeros: Vec<u32>, values: Vec<u32>|
            {
                &&& #[trigger] call_ensures(
                    K::to_float,
                    (kernels, blocks.spec_storage()->Cpu_0.dtype, bytes, zeros),
                    Ok(values),
                )
                &&& bytes@ == blocks.spec_storage()->Cpu_0.data@
                &&& values@.len() == shape::elements(blocks@)
                &&& zeros@.len() == values@.len()
                &&& outcome->Ok_0->Tensor_0.storage->Cpu_0->F32_0@ == values@
            },
{
    let count = shape::elements(blocks@) as usize;
    assert(blocks@.take(blocks@.len() as int) =~= blocks@);
    let floats = Ok::<Tensor, Error>(outcome->Ok_0->Tensor_0);
    assert(qtensor::dequantized(kernels, *blocks, blocks.spec_storage().spec_device(), floats));
    let values = choose|values: Result<Storage, Error>|
        {
            &&& #[trigger] storage::host_dequantized(
                kernels,
                blocks.spec_storage()->Cpu_0,
                count,
                values,
            )
            &&& match values {
                Err(error) => false,
                Ok(read) => tensor::moved(
                    read,
                    blocks.spec_storage().spec_device(),
                    Ok(floats->Ok_0.storage),
                ),
            }
        };
    let (bytes, zeros, answer) = choose|
        bytes: &[u8],
        zeros: Vec<u32>,
        answer: Result<Vec<u32>, Error>,
    |
        {
            &&& bytes@ == blocks.spec_storage()->Cpu_0.data@
            &&& zeros@ == Seq::new(count as nat, |i: int| 0u32)
            &&& #[trigger] call_ensures(
                K::to_float,
                (kernels, blocks.spec_storage()->Cpu_0.dtype, bytes, zeros),
                answer,
            )
            &&& storage::values_accepted(blocks.spec_storage()->Cpu_0.dtype, answer, count, values)
        };
    assert(answer == Ok::<Vec<u32>, Error>(answer->Ok_0));
    assert(call_ensures(
        K::to_float,
        (kernels, blocks.spec_storage()->Cpu_0.dtype, bytes, zeros),
        Ok(answer->Ok_0),
    ));
}

/// The product of a host input with a quantized matrix is on the host and in the
/// type of the input; its extents are those of the input, but for the last,
/// which is the number of rows of the matrix. On other devices there is none.
pub proof fn law_quantized_matrix_replaces_the_row_width<K: BlockKernels>(
    matrix: &QMatMul,
    kernels: &K,
    xs: &Tensor,
    outcome: Result<Tensor, Error>,
)
    requires
        *matrix is QTensor,
        call_ensures(QMatMul::forward::<K>, (matrix, kernels, xs), outcome),
    ensures
        xs.storage is Cuda ==> outcome is Err && outcome->Err_0 is NotCompiledWithCudaSupport,
        xs.storage is Metal ==> outcome is Err && outcome->Err_0 is NotCompiledWithMetalSupport,
        xs.storage is Aqua ==> outcome is Err,
        outcome is Ok ==> {
            &&& xs.storage is Cpu
            &&& outcome->Ok_0.storage is Cpu
            &&& outcome->Ok_0.storage->Cpu_0.spec_dtype() == xs.storage->Cpu_0.spec_dtype()
            &&& matrix->QTensor_0@.len() == 2
            &&& xs.shape@.len() >= 2
            &&& xs.shape@.last() == matrix->QTensor_0@[1]
            &&& outcome->Ok_0.shape@.len() == xs.shape@.len()
            &&& outcome->Ok_0.shape@.drop_last() == xs.shape@.drop_last()
            &&& outcome->Ok_0.shape@.last() == matrix->QTensor_0@[0]
        },
{
    if outcome is Ok {
        let (layout, product) = choose|layout: Layout, product: Result<(CpuStorage, Shape), Error>|
            {
                &&& shape::row_major(layout, xs.shape@)
                &&& #[trigger] matmul::forwarded(
                    kernels,
                    *matrix->QTensor_0,
                    xs.storage->Cpu_0,
                    layout,
                    product,
                )
                &&& match product {
                    Err(error) => outcome == Err::<Tensor, Error>(error),
                    Ok((cpu, dims)) => outcome == Ok::<Tensor, Error>(
                        Tensor { storage: Storage::Cpu(cpu), shape: dims },
                    ),
                }
            };
        assert(outcome->Ok_0.shape@.drop_last() =~= xs.shape@.drop_last());
    }
}

/// A quantized matrix is multiplied with the whole of a host input: the kernel
/// gets every value of an F32 input, in order, and all rows of the matrix.
pub proof fn law_quantized_matrix_is_multiplied_by_the_kernel<K: BlockKernels>(
    matrix: &QMatMul,
    kernels: &K,
    bits: Vec<u32>,
    xs: &Tensor,
    outcome: Result<Tensor, Error>,
)
    requires
        *matrix is QTensor,
        call_ensures(QMatMul::forward::<K>, (matrix, kernels, xs), outcome),
        xs.storage == Storage::Cpu(CpuStorage::F32(bits)),
        quantized_product_fits(*matrix->QTensor_0, *xs),
        bits@.len() == shape::elements(xs.shape@),
        outcome is Ok,
    ensures
        matrix->QTensor_0.spec_storage() is Cpu,
        exists|m: usize, input: &[u32], zeros: Vec<u32>, product: Vec<u32>|
            {
                &&& #[trigger] call_ensures(
                    K::matmul,
                    (
                        kernels,
                        matrix->QTensor_0.spec_storage()->Cpu_0.dtype,
                        (m, matrix->QTensor_0@[1], matrix->QTensor_0@[0]),
                        input,
                        &matrix->QTensor_0.spec_storage()->Cpu_0.data,
                        zeros,
                    ),
                    Ok(product),
                )
                &&& input@ == bits@
                &&& m * matrix->QTensor_0@[1] == bits@.len()
                &&& outcome->Ok_0.storage == Storage::Cpu(CpuStorage::F32(product))
            },
{
    let (layout, product) = choose|layout: Layout, product: Result<(CpuStorage, Shape), Error>|
        {
            &&& shape::row_major(layout, xs.shape@)
            &&& #[trigger] matmul::forwarded(
                kernels,
                *matrix->QTensor_0,
                CpuStorage::F32(bits),
                layout,
                product,
            )
            &&& match product {
                Err(error) => outcome == Err::<Tensor, Error>(error),
                Ok((cpu, dims)) => outcome == Ok::<Tensor, Error>(
                    Tensor { storage: Storage::Cpu(cpu), shape: dims },
                ),
            }
        };
    let dims = matmul::product_dims(xs.shape@, matrix->QTensor_0@[0]);
    let mkn = matmul::product_sizes(xs.shape@, matrix->QTensor_0@[1], matrix->QTensor_0@[0]);
    matmul::law_product_sizes_cover_the_tensors(xs.shape@, matrix->QTensor_0@[0]);
    let (input, zeros, answer) = choose|
        input: &[u32],
        zeros: Vec<u32>,
        answer: Result<Vec<u32>, Error>,
    |
        {
            &&& input@ == matmul::covered(bits@, layout)
            &&& zeros@ == Seq::new(shape::elements(dims), |i: int| 0u32)
            &&& #[trigger] call_ensures(
                K::matmul,
                (
                    kernels,
                    matrix->QTensor_0.spec_storage()->Cpu_0.dtype,
                    mkn,
                    input,
                    &matrix->QTensor_0.spec_storage()->Cpu_0.data,
                    zeros,
                ),
                answer,
            )
            &&& match answer {
                Err(error) => product == Err::<(CpuStorage, Shape), Error>(error),
                Ok(values) => matmul::product_result(
                    matrix->QTensor_0.spec_storage()->Cpu_0.dtype,
                    CpuStorage::F32(values),
                    dims,
                    product,
                ),
            }
        };
    assert(input@ =~= bits@);
    assert(call_ensures(
        K::matmul,
        (
            kernels,
            matrix->QTensor_0.spec_storage()->Cpu_0.dtype,
            (mkn.0, matrix->QTensor_0@[1], matrix->QTensor_0@[0]),
            input,
            &matrix->QTensor_0.spec_storage()->Cpu_0.data,
            zeros,
        ),
        Ok(answer->Ok_0),
    ));
}

/// A matrix read as F16 has its extents and F16 values; one that is kept so
/// keeps its values.
pub proof fn law_matrix_is_read_as_f16<K: BlockKernels>(
    matrix: &QMatMul,
    kernels: &K,
    outcome: Result<Tensor, Error>,
)
    requires
        call_ensures(QMatMul::dequantize_f16::<K>, (matrix, kernels), outcome),
    ensures
        *matrix is TensorF16 ==> {
            &&& outcome is Ok
            &&& outcome->Ok_0.storage.same_values(matrix->TensorF16_0.storage)
            &&& outcome->Ok_0.shape@ == matrix->TensorF16_0.shape@
        },
        *matrix is Tensor && outcome is Ok ==> {
            &&& outcome->Ok_0.storage.spec_dtype() is F16
            &&& outcome->Ok_0.shape@ == matrix->Tensor_0.shape@
            &&& outcome->Ok_0.storage.spec_device() == matrix->Tensor_0.storage.spec_device()
        },
        *matrix is QTensor && outcome is Ok ==> {
            &&& outcome->Ok_0.storage.spec_dtype() is F16
            &&& outcome->Ok_0.shape@ == matrix->QTensor_0@
        },
{
}

/// A product computed as F16 comes back in the type of the input.
pub proof fn law_product_via_f16_has_the_type_of_the_input<K: BlockKernels>(
    matrix: &QMatMul,
    kernels: &K,
    xs: &Tensor,
    outcome: Result<Tensor, Error>,
)
    requires
        call_ensures(QMatMul::forward_via_f16::<K>, (matrix, kernels, xs), outcome),
        outcome is Ok,
    ensures
        outcome->Ok_0.storage.spec_dtype() == xs.storage.spec_dtype(),
        exists|weights: Tensor, input: Tensor, repeated: Vec<usize>, product: Tensor|
            {
                &&& #[trigger] call_ensures(
                    K::matmul_transposed,
                    (kernels, &input, &weights, &repeated),
                    Ok(product),
                )
                &&& input.storage.spec_dtype() is F16
                &&& input.shape@ == xs.shape@
                &&& 3 <= xs.shape@.len() <= 4 ==> repeated@ == xs.shape@.take(xs.shape@.len() - 2)
                &&& xs.shape@.len() < 3 || xs.shape@.len() > 4 ==> repeated@.len() == 0
                &&& *matrix is TensorF16 ==> weights.storage.same_values(
                    matrix->TensorF16_0.storage,
                ) && weights.shape@ == matrix->TensorF16_0.shape@
                &&& !(*matrix is TensorF16) ==> weights.storage.spec_dtype() is F16
                &&& outcome->Ok_0.shape@ == product.shape@
            },
{
    law_repeated_weights_match_the_leading_extents(xs.shape@);
    let weights = choose|weights: Result<Tensor, Error>|
        {
            &&& #[trigger] halved(kernels, *matrix, weights)
            &&& match weights {
                Err(error) => outcome == Err::<Tensor, Error>(error),
                Ok(halves) => product_via_f16(kernels, halves, *xs, outcome),
            }
        };
    let halves = choose|halves: Result<Tensor, Error>|
        {
            &&& #[trigger] tensor::tensor_converted(kernels, *xs, DType::F16, halves)
            &&& match halves {
                Err(error) => outcome == Err::<Tensor, Error>(error),
                Ok(input) => exists|product: Result<Tensor, Error>|
                    {
                        &&& #[trigger] plain_product(
                            kernels,
                            weights->Ok_0,
                            input,
                            xs.shape@,
                            product,
                        )
                        &&& match product {
                            Err(error) => outcome == Err::<Tensor, Error>(error),
                            Ok(result) => tensor::tensor_converted(
                                kernels,
                                result,
                                xs.storage.spec_dtype(),
                                outcome,
                            ),
                        }
                    },
            }
        };
    let product = choose|product: Result<Tensor, Error>|
        {
            &&& #[trigger] plain_product(kernels, weights->Ok_0, halves->Ok_0, xs.shape@, product)
            &&& match product {
                Err(error) => outcome == Err::<Tensor, Error>(error),
                Ok(result) => tensor::tensor_converted(
                    kernels,
                    result,
                    xs.storage.spec_dtype(),
                    outcome,
                ),
            }
        };
    assert(product == Ok::<Tensor, Error>(product->Ok_0));
    let repeated = choose|repeated: Vec<usize>|
        {
            &&& repeated@ == batch(xs.shape@)
            &&& #[trigger] call_ensures(
                K::matmul_transposed,
                (kernels, &halves->Ok_0, &weights->Ok_0, &repeated),
                product,
            )
        };
    assert(call_ensures(
        K::matmul_transposed,
        (kernels, &halves->Ok_0, &weights->Ok_0, &repeated),
        Ok(product->Ok_0),
    ));
}

/// The rows of a plain matrix are the kernel's for the matrix and the ids in
/// this order; they come in the shape of the ids with the row width behind it.
pub proof fn law_plain_rows_stand_at_their_ids<K: BlockKernels>(
    matrix: &QMatMul,
    kernels: &K,
    weights: Tensor,
    ids: &Tensor,
    outcome: Result<Tensor, Error>,
)
    requires
        call_ensures(QMatMul::embedding::<K>, (matrix, kernels, ids), outcome),
        *matrix == QMatMul::Tensor(weights) || *matrix == QMatMul::TensorF16(weights),
    ensures
        weights.shape@.len() == 0 ==> outcome is Err && outcome->Err_0@
            == "dim: dimension index -1 out of range for shape "@ + text::decimal_list(
            weights.shape@,
        ),
        outcome is Ok ==> {
            &&& outcome->Ok_0.shape@.len() == ids.shape@.len() + 1
            &&& outcome->Ok_0.shape@.take(ids.shape@.len() as int) == ids.shape@
            &&& outcome->Ok_0.shape@.last() == weights.shape@.last()
            &&& outcome->Ok_0.storage.spec_len() == shape::elements(outcome->Ok_0.shape@)
            &&& exists|local: Tensor, rows: Tensor|
                {
                    &&& #[trigger] call_ensures(
                        K::index_select,
                        (kernels, &weights, &local),
                        Ok(rows),
                    )
                    &&& local.shape@ == ids.shape@
                    &&& local.storage.spec_device().is_same_device(weights.storage.spec_device())
                    &&& ids.storage.spec_device().is_same_device(weights.storage.spec_device())
                        ==> local.storage.same_values(ids.storage)
                    &&& rows.storage == outcome->Ok_0.storage
                }
        },
{
    if outcome is Ok {
        let here = choose|here: Result<Tensor, Error>|
            {
                &&& #[trigger] tensor::tensor_moved(*ids, weights.storage.spec_device(), here)
                &&& match here {
                    Err(error) => outcome == Err::<Tensor, Error>(error),
                    Ok(local) => exists|rows: Result<Tensor, Error>|
                        {
                            &&& #[trigger] call_ensures(
                                K::index_select,
                                (kernels, &weights, &local),
                                rows,
                            )
                            &&& match rows {
                                Err(error) => outcome == Err::<Tensor, Error>(error),
                                Ok(selected) => reshaped(
                                    selected,
                                    ids.shape@.push(weights.shape@.last()),
                                    outcome,
                                ),
                            }
                        },
                }
            };
        let local = here->Ok_0;
        let rows = choose|rows: Result<Tensor, Error>|
            {
                &&& #[trigger] call_ensures(K::index_select, (kernels, &weights, &local), rows)
                &&& match rows {
                    Err(error) => outcome == Err::<Tensor, Error>(error),
                    Ok(selected) => reshaped(
                        selected,
                        ids.shape@.push(weights.shape@.last()),
                        outcome,
                    ),
                }
            };
        assert(rows == Ok::<Tensor, Error>(rows->Ok_0));
        assert(call_ensures(K::index_select, (kernels, &weights, &local), Ok(rows->Ok_0)));
        assert(outcome->Ok_0.shape@.take(ids.shape@.len() as int) =~= ids.shape@);
    }
}

} // verus!
