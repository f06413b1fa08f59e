//! Products with quantized matrices.

use crate::cpu_storage::CpuStorage;
use crate::dtype::GgmlDType;
use crate::error;
use crate::error::{error_text, error_text2, error_text4, Error};
use crate::quantized::kernels::BlockKernels;
use crate::quantized::qtensor::QTensor;
use crate::quantized::storage;
use crate::quantized::storage::{kernel_length_error, QStorage, QuantizedBlocks};
use crate::shape;
use crate::shape::{Layout, Shape};
use crate::text;
use vstd::arithmetic::div_mod::lemma_div_multiples_vanish;
use vstd::prelude::*;
use vstd::slice::slice_subrange;

verus! {

/// The extents of a product: those of the input, with the row width replaced.
pub open spec fn product_dims(src: Seq<usize>, n: usize) -> Seq<usize> {
    src.drop_last().push(n)
}

/// The number of input rows, the row width of the input, and that of the
/// product.
pub open spec fn product_sizes(src: Seq<usize>, k: usize, n: usize) -> (usize, usize, usize) {
    ((shape::elements(product_dims(src, n)) / n as nat) as usize, k, n)
}

/// The part of a flat run of values that a contiguous layout covers.
pub open spec fn covered<T>(values: Seq<T>, layout: Layout) -> Seq<T> {
    values.subrange(
        layout.start_offset as int,
        layout.start_offset + shape::elements(layout.shape@),
    )
}

/// What a caller prints when the input has gaps.
pub open spec fn gaps_text(layout: Layout) -> Seq<char> {
    "input tensor is not contiguous "@ + layout.spec_text()
}

/// What a caller prints when the input is a single row.
pub open spec fn flat_text(layout: Layout) -> Seq<char> {
    "input tensor has only one dimension "@ + layout.spec_text()
}

/// What a caller prints when the input rows and the matrix rows differ in
/// width.
pub open spec fn width_text(layout: Layout, dims: Seq<usize>) -> Seq<char> {
    "input tensor "@ + layout.spec_text() + " incompatible with "@ + text::decimal_list(dims)
}

/// What a caller prints when the blocks are kept raw.
pub open spec fn raw_matmul_text(dtype: GgmlDType) -> Seq<char> {
    "matmul is not implemented for "@ + dtype.spec_name()
}

/// The input is one that the matrix can be multiplied with.
pub open spec fn multiplies(weights: QTensor, layout: Layout) -> bool {
    &&& shape::contiguous(layout.shape@, layout.stride@)
    &&& weights@.len() == 2
    &&& layout.shape@.len() >= 2
    &&& layout.shape@.last() == weights@[1]
}

/// The kernel's product as the result, where it has the product's size.
pub open spec fn product_result(
    dtype: GgmlDType,
    values: CpuStorage,
    dims: Seq<usize>,
    outcome: Result<(CpuStorage, Shape), Error>,
) -> bool {
    if values.spec_len() == shape::elements(dims) {
        &&& outcome is Ok
        &&& outcome->Ok_0.0 == values
        &&& outcome->Ok_0.1@ == dims
    } else {
        error::fails_with(
            outcome,
            storage::kernel_length_text(dtype, values.spec_len(), shape::elements(dims)),
        )
    }
}

/// A kernel's product as the result, where it has the product's size.
pub fn accept_product(dtype: GgmlDType, values: CpuStorage, shape: Shape) -> (outcome: Result<
    (CpuStorage, Shape),
    Error,
>)
    requires
        shape::elements_fit(shape@),
    ensures
        product_result(dtype, values, shape@, outcome),
{
    let got: usize = values.len();
    let count: usize = shape.elem_count();
    if got == count {
        Ok((values, shape))
    } else {
        Err(kernel_length_error(dtype, got, count))
    }
}

/// What the product of F32 rows with host blocks is.
pub open spec fn f32_product<K: BlockKernels>(
    kernels: &K,
    blocks: QuantizedBlocks,
    mkn: (usize, usize, usize),
    lhs: Seq<u32>,
    dims: Seq<usize>,
    outcome: Result<(CpuStorage, Shape), Error>,
) -> bool {
    exists|input: &[u32], zeros: Vec<u32>, answer: Result<Vec<u32>, Error>|
        {
            &&& input@ == lhs
            &&& zeros@ == Seq::new(shape::elements(dims), |i: int| 0u32)
            &&& #[trigger] call_ensures(
                K::matmul,
                (kernels, blocks.dtype, mkn, input, &blocks.data, zeros),
                answer,
            )
            &&& match answer {
                Err(error) => outcome == Err::<(CpuStorage, Shape), Error>(error),
                Ok(values) => product_result(blocks.dtype, CpuStorage::F32(values), dims, outcome),
            }
        }
}

/// What the product of F16 rows with host blocks is.
pub open spec fn f16_product<K: BlockKernels>(
    kernels: &K,
    blocks: QuantizedBlocks,
    mkn: (usize, usize, usize),
    lhs: Seq<u16>,
    dims: Seq<usize>,
    outcome: Result<(CpuStorage, Shape), Error>,
) -> bool {
    exists|input: &[u16], zeros: Vec<u16>, answer: Result<Vec<u16>, Error>|
        {
            &&& input@ == lhs
            &&& zeros@ == Seq::new(shape::elements(dims), |i: int| 0u16)
            &&& #[trigger] call_ensures(
                K::matmul_f16,
                (kernels, blocks.dtype, mkn, input, &blocks.data, zeros),
                answer,
            )
            &&& match answer {
                Err(error) => outcome == Err::<(CpuStorage, Shape), Error>(error),
                Ok(values) => product_result(blocks.dtype, CpuStorage::F16(values), dims, outcome),
            }
        }
}

/// What `cpu_fwd` does.
pub open spec fn forwarded<K: BlockKernels>(
    kernels: &K,
    weights: QTensor,
    values: CpuStorage,
    layout: Layout,
    outcome: Result<(CpuStorage, Shape), Error>,
) -> bool {
    if !shape::contiguous(layout.shape@, layout.stride@) {
        error::fails_with(outcome, gaps_text(layout))
    } else if weights@.len() != 2 {
        error::fails_with(outcome, shape::rank_two_text(weights@))
    } else if layout.shape@.len() < 2 {
        error::fails_with(outcome, flat_text(layout))
    } else if layout.shape@.last() != weights@[1] {
        error::fails_with(outcome, width_text(layout, weights@))
    } else {
        let dims = product_dims(layout.shape@, weights@[0]);
        let mkn = product_sizes(layout.shape@, weights@[1], weights@[0]);
        match weights.spec_storage() {
            QStorage::CpuRaw(raw) => error::fails_with(outcome, raw_matmul_text(raw.spec_dtype())),
            QStorage::Metal(_) | QStorage::Cuda(_) => error::fails_with(outcome, "Invalid storage"@),
            QStorage::Cpu(blocks) => match values {
                CpuStorage::F32(bits) => f32_product(
                    kernels,
                    blocks,
                    mkn,
                    covered(bits@, layout),
                    dims,
                    outcome,
                ),
                CpuStorage::F16(bits) => f16_product(
                    kernels,
                    blocks,
                    mkn,
                    covered(bits@, layout),
                    dims,
                    outcome,
                ),
                _ => error::fails_with(outcome, "Expected f32/f16"@),
            },
        }
    }
}

/// Where a product is computed, the input lies in the values, the product can
/// be counted, and the matrix has a row.
pub open spec fn product_fits(weights: QTensor, values: CpuStorage, layout: Layout) -> bool {
    multiplies(weights, layout) && weights.spec_storage() is Cpu && (values is F32 || values is F16)
        ==> {
        &&& weights@[0] > 0
        &&& shape::elements_fit(layout.shape@)
        &&& layout.start_offset + shape::elements(layout.shape@) <= values.spec_len()
        &&& shape::elements_fit(product_dims(layout.shape@, weights@[0]))
    }
}

impl QTensor {
    /// The operation's name.
    pub fn name(&self) -> (name: &'static str)
        ensures
            name@ == "qmatmul"@,
    {
        "qmatmul"
    }

    /// The product of host rows with this matrix, whose rows are the columns
    /// of the product.
    pub fn cpu_fwd<K: BlockKernels>(
        &self,
        kernels: &K,
        storage: &CpuStorage,
        layout: &Layout,
    ) -> (outcome: Result<(CpuStorage, Shape), Error>)
        requires
            shape::strides_fit(layout.shape@),
            product_fits(*self, *storage, *layout),
        ensures
            forwarded(kernels, *self, *storage, *layout, outcome),
    {
        if !layout.is_contiguous() {
            return Err(error_text2("input tensor is not contiguous ", layout.text().as_str()));
        }
        let (n, k): (usize, usize) = match self.shape().dims2() {
            Err(error) => return Err(error),
            Ok(pair) => pair,
        };
        if layout.shape.rank() < 2 {
            return Err(error_text2("input tensor has only one dimension ", layout.text().as_str()));
        }
        let mut dims: Vec<usize> = layout.shape.clone().into_dims();
        let last_k: usize = dims[dims.len() - 1];
        dims.truncate(dims.len() - 1);
        if last_k != k {
            return Err(
                error_text4(
                    "input tensor ",
                    layout.text().as_str(),
                    " incompatible with ",
                    self.shape().text().as_str(),
                ),
            );
        }
        dims.push(n);
        assert(dims@ =~= product_dims(layout.shape@, n));
        let dst_shape = Shape::from_dims(dims);
        let blocks = match self.storage() {
            QStorage::Cpu(blocks) => blocks,
            QStorage::CpuRaw(raw) => {
                return Err(error_text2("matmul is not implemented for ", raw.dtype().name()));
            },
            QStorage::Metal(_) | QStorage::Cuda(_) => {
                return Err(error_text("Invalid storage"));
            },
        };
        match storage {
            CpuStorage::F32(values) => {
                let count: usize = dst_shape.elem_count();
                let total: usize = values.len();
                assert(layout.start_offset + shape::elements(layout.shape@) <= total);
                let end: usize = layout.start_offset + layout.shape.elem_count();
                let input = slice_subrange(values.as_slice(), layout.start_offset, end);
                let zeros: Vec<u32> = vec![0u32; count];
                assert(zeros@ =~= Seq::new(shape::elements(dst_shape@), |i: int| 0u32));
                match kernels.matmul(blocks.dtype, (count / n, k, n), input, &blocks.data, zeros) {
                    Err(error) => Err(error),
                    Ok(product) => accept_product(
                        blocks.dtype,
                        CpuStorage::F32(product),
                        dst_shape,
                    ),
                }
            },
            CpuStorage::F16(values) => {
                let count: usize = dst_shape.elem_count();
                let total: usize = values.len();
                assert(layout.start_offset + shape::elements(layout.shape@) <= total);
                let end: usize = layout.start_offset + layout.shape.elem_count();
                let input = slice_subrange(values.as_slice(), layout.start_offset, end);
                let zeros: Vec<u16> = vec![0u16; count];
                assert(zeros@ =~= Seq::new(shape::elements(dst_shape@), |i: int| 0u16));
                match kernels.matmul_f16(blocks.dtype, (count / n, k, n), input, &blocks.data, zeros) {
                    Err(error) => Err(error),
                    Ok(product) => accept_product(
                        blocks.dtype,
                        CpuStorage::F16(product),
                        dst_shape,
                    ),
                }
            },
            _ => Err(error_text("Expected f32/f16")),
        }
    }
}

/// The sizes that a product is computed with cover the whole input and the
/// whole product: as many rows of the input's width as the input has elements,
/// and as many rows of the product's width as the product has.
pub proof fn law_product_sizes_cover_the_tensors(src: Seq<usize>, n: usize)
    requires
        src.len() > 0,
        n > 0,
        shape::elements_fit(product_dims(src, n)),
    ensures
        product_sizes(src, src.last(), n).0 == shape::elements(src.drop_last()),
        product_sizes(src, src.last(), n).0 * src.last() == shape::elements(src),
        product_sizes(src, src.last(), n).0 * n == shape::elements(product_dims(src, n)),
{
    let dims = product_dims(src, n);
    let rows = shape::elements(src.drop_last());
    assert(dims.drop_last() =~= src.drop_last());
    assert(dims.take(dims.len() as int) =~= dims);
    assert(shape::elements(dims.take(dims.len() as int)) <= usize::MAX);
    lemma_div_multiples_vanish(rows as int, n as int);
    assert(rows * n == n * rows) by (nonlinear_arith);
    assert(rows <= rows * n) by (nonlinear_arith)
        requires
            n >= 1,
    ;
}

/// A product has the extents of the input, but for the last, which is the number
/// of rows of the matrix; its values have the type of the input and are as many
/// as its extents ask for. The rows of input and matrix have one width.
pub proof fn law_product_replaces_the_row_width<K: BlockKernels>(
    weights: &QTensor,
    kernels: &K,
    values: &CpuStorage,
    layout: &Layout,
    outcome: Result<(CpuStorage, Shape), Error>,
)
    requires
        call_ensures(QTensor::cpu_fwd::<K>, (weights, kernels, values, layout), outcome),
        outcome is Ok,
    ensures
        weights@.len() == 2,
        layout.shape@.len() >= 2,
        layout.shape@.last() == weights@[1],
        outcome->Ok_0.1@.len() == layout.shape@.len(),
        forall|i: int|
            0 <= i < layout.shape@.len() - 1 ==> #[trigger] outcome->Ok_0.1@[i] == layout.shape@[i],
        outcome->Ok_0.1@.last() == weights@[0],
        outcome->Ok_0.0.spec_dtype() == values.spec_dtype(),
        outcome->Ok_0.0.spec_len() == shape::elements(outcome->Ok_0.1@),
        values.spec_dtype() is F32 || values.spec_dtype() is F16,
        shape::contiguous(layout.shape@, layout.stride@),
{
}

/// The kernel multiplies the rows that the layout reaches, from its offset on,
/// with all rows of the matrix: it is told how many input rows there are, their
/// width, and how many rows the matrix has, in this order.
pub proof fn law_kernel_gets_all_rows_of_both<K: BlockKernels>(
    weights: &QTensor,
    kernels: &K,
    bits: Vec<u32>,
    layout: &Layout,
    outcome: Result<(CpuStorage, Shape), Error>,
)
    requires
        call_ensures(
            QTensor::cpu_fwd::<K>,
            (weights, kernels, &CpuStorage::F32(bits), layout),
            outcome,
        ),
        product_fits(*weights, CpuStorage::F32(bits), *layout),
        outcome is Ok,
    ensures
        weights.spec_storage() is Cpu,
        exists|m: usize, input: &[u32], zeros: Vec<u32>, product: Vec<u32>|
            {
                &&& #[trigger] call_ensures(
                    K::matmul,
                    (
                        kernels,
                        weights.spec_storage()->Cpu_0.dtype,
                        (m, weights@[1], weights@[0]),
                        input,
                        &weights.spec_storage()->Cpu_0.data,
                        zeros,
                    ),
                    Ok(product),
                )
                &&& m * weights@[1] == shape::elements(layout.shape@)
                &&& input@.len() == m * weights@[1]
                &&& forall|i: int|
                    0 <= i < input@.len() ==> #[trigger] input@[i] == bits@[layout.start_offset + i]
                &&& zeros@.len() == m * weights@[0]
                &&& forall|i: int| 0 <= i < zeros@.len() ==> #[trigger] zeros@[i] == 0
                &&& outcome->Ok_0.0 == CpuStorage::F32(product)
            },
{
    let dims = product_dims(layout.shape@, weights@[0]);
    let mkn = product_sizes(layout.shape@, weights@[1], weights@[0]);
    let blocks = weights.spec_storage()->Cpu_0;
    let lhs = covered(bits@, *layout);
    law_product_sizes_cover_the_tensors(layout.shape@, weights@[0]);
    let (input, zeros, answer) = choose|
        input: &[u32],
        zeros: Vec<u32>,
        answer: Result<Vec<u32>, Error>,
    |
        {
            &&& input@ == lhs
            &&& zeros@ == Seq::new(shape::elements(dims), |i: int| 0u32)
            &&& #[trigger] call_ensures(
                K::matmul,
                (kernels, blocks.dtype, mkn, input, &blocks.data, zeros),
                answer,
            )
            &&& match answer {
                Err(error) => outcome == Err::<(CpuStorage, Shape), Error>(error),
                Ok(values) => product_result(blocks.dtype, CpuStorage::F32(values), dims, outcome),
            }
        };
    assert(call_ensures(
        K::matmul,
        (
            kernels,
            weights.spec_storage()->Cpu_0.dtype,
            (mkn.0, weights@[1], weights@[0]),
            input,
            &weights.spec_storage()->Cpu_0.data,
            zeros,
        ),
        Ok(answer->Ok_0),
    ));
}

/// The kernel multiplies F16 rows in the same way.
pub proof fn law_f16_kernel_gets_all_rows_of_both<K: BlockKernels>(
    weights: &QTensor,
    kernels: &K,
    bits: Vec<u16>,
    layout: &Layout,
    outcome: Result<(CpuStorage, Shape), Error>,
)
    requires
        call_ensures(
            QTensor::cpu_fwd::<K>,
            (weights, kernels, &CpuStorage::F16(bits), layout),
            outcome,
        ),
        product_fits(*weights, CpuStorage::F16(bits), *layout),
        outcome is Ok,
    ensures
        weights.spec_storage() is Cpu,
        exists|m: usize, input: &[u16], zeros: Vec<u16>, product: Vec<u16>|
            {
                &&& #[trigger] call_ensures(
                    K::matmul_f16,
                    (
                        kernels,
                        weights.spec_storage()->Cpu_0.dtype,
                        (m, weights@[1], weights@[0]),
                        input,
                        &weights.spec_storage()->Cpu_0.data,
                        zeros,
                    ),
                    Ok(product),
                )
                &&& m * weights@[1] == shape::elements(layout.shape@)
                &&& input@.len() == m * weights@[1]
                &&& forall|i: int|
                    0 <= i < input@.len() ==> #[trigger] input@[i] == bits@[layout.start_offset + i]
                &&& zeros@.len() == m * weights@[0]
                &&& forall|i: int| 0 <= i < zeros@.len() ==> #[trigger] zeros@[i] == 0
                &&& outcome->Ok_0.0 == CpuStorage::F16(product)
            },
{
    let dims = product_dims(layout.shape@, weights@[0]);
    let mkn = product_sizes(layout.shape@, weights@[1], weights@[0]);
    let blocks = weights.spec_storage()->Cpu_0;
    let lhs = covered(bits@, *layout);
    law_product_sizes_cover_the_tensors(layout.shape@, weights@[0]);
    let (input, zeros, answer) = choose|
        input: &[u16],
        zeros: Vec<u16>,
        answer: Result<Vec<u16>, Error>,
    |
        {
            &&& input@ == lhs
            &&& zeros@ == Seq::new(shape::elements(dims), |i: int| 0u16)
            &&& #[trigger] call_ensures(
                K::matmul_f16,
                (kernels, blocks.dtype, mkn, input, &blocks.data, zeros),
                answer,
            )
            &&& match answer {
                Err(error) => outcome == Err::<(CpuStorage, Shape), Error>(error),
                Ok(values) => product_result(blocks.dtype, CpuStorage::F16(values), dims, outcome),
            }
        };
    assert(call_ensures(
        K::matmul_f16,
        (
            kernels,
            weights.spec_storage()->Cpu_0.dtype,
            (mkn.0, weights@[1], weights@[0]),
            input,
            &weights.spec_storage()->Cpu_0.data,
            zeros,
        ),
        Ok(answer->Ok_0),
    ));
}

/// A product is refused for an input with gaps, for weights that are no matrix,
/// for an input of fewer than two dimensions, for rows of another width, for raw
/// blocks, for blocks on a GPU, and for other types than F32 and F16, in this
/// order; the text tells which.
pub proof fn law_products_are_refused_for_a_reason<K: BlockKernels>(
    weights: &QTensor,
    kernels: &K,
    values: &CpuStorage,
    layout: &Layout,
    outcome: Result<(CpuStorage, Shape), Error>,
)
    requires
        call_ensures(QTensor::cpu_fwd::<K>, (weights, kernels, values, layout), outcome),
    ensures
        ({
            let gapless = shape::contiguous(layout.shape@, layout.stride@);
            let matrix = gapless && weights@.len() == 2;
            let rows = matrix && layout.shape@.len() >= 2;
            let multiplied = rows && layout.shape@.last() == weights@[1];
            &&& !gapless ==> outcome is Err && outcome->Err_0@ == "input tensor is not contiguous "@
                + layout.spec_text()
            &&& gapless && !matrix ==> outcome is Err && outcome->Err_0@
                == "unexpected rank, expected: 2, got: "@ + text::decimal(weights@.len()) + " ("@
                + text::decimal_list(weights@) + ")"@
            &&& matrix && !rows ==> outcome is Err && outcome->Err_0@
                == "input tensor has only one dimension "@ + layout.spec_text()
            &&& rows && !multiplied ==> outcome is Err && outcome->Err_0@ == "input tensor "@
                + layout.spec_text() + " incompatible with "@ + text::decimal_list(weights@)
            &&& multiplied && weights.spec_storage() is CpuRaw ==> outcome is Err && outcome->Err_0@
                == "matmul is not implemented for "@ + weights.spec_storage().spec_dtype().spec_name()
            &&& multiplied && (weights.spec_storage() is Cuda || weights.spec_storage() is Metal)
                ==> outcome is Err && outcome->Err_0@ == "Invalid storage"@
            &&& multiplied && weights.spec_storage() is Cpu && !(*values is F32) && !(*values is F16)
                ==> outcome is Err && outcome->Err_0@ == "Expected f32/f16"@
        }),
{
}

/// A kernel's product is taken as it is where it has one value for each element
/// of its shape, and refused else.
pub proof fn law_products_have_the_size_of_their_shape(
    dtype: GgmlDType,
    values: CpuStorage,
    shape: Shape,
    outcome: Result<(CpuStorage, Shape), Error>,
)
    requires
        call_ensures(accept_product, (dtype, values, shape), outcome),
    ensures
        outcome is Ok <==> values.spec_len() == shape::elements(shape@),
        outcome is Ok ==> outcome->Ok_0.0 == values && outcome->Ok_0.1@ == shape@,
        outcome is Err ==> outcome->Err_0@ == dtype.spec_name() + " kernel filled "@ + text::decimal(
            values.spec_len(),
        ) + " entries, expected "@ + text::decimal(shape::elements(shape@)),
{
}

} // verus!
