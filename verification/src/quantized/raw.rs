//! Blocks of the Q8_H family. They are kept as raw bytes, unchanged; reading
//! the scales in them is left to the arithmetic.

use crate::dtype::GgmlDType;
use crate::error;
use crate::error::{error_text3, error_text5, Error};
use crate::text;
use crate::text::decimal_text;
use vstd::arithmetic::div_mod::{lemma_fundamental_div_mod, lemma_fundamental_div_mod_converse};
use vstd::prelude::*;
use vstd::slice::slice_subrange;

verus! {

/// The bytes of a run of blocks, one block after another.
pub open spec fn block_bytes<const N: usize>(blocks: Seq<[u8; N]>) -> Seq<u8> {
    Seq::new(blocks.len() * N as nat, |i: int| blocks[i / N as int]@[i % N as int])
}

/// Reads one block from its bytes, by `zerocopy::FromBytes::read_from_bytes`
/// on the byte array of that length: it copies the bytes, and refuses a run of
/// another length.
#[verifier::external_body]
fn read_block<const N: usize>(bytes: &[u8]) -> (block: Option<[u8; N]>)
    ensures
        block is Some <==> bytes@.len() == N,
        block matches Some(copy) ==> copy@ == bytes@,
{
    <[u8; N] as zerocopy::FromBytes>::read_from_bytes(bytes).ok()
}

/// A block of zero bytes, by `zerocopy::FromZeros::new_zeroed`: the instance
/// whose bytes are all zero.
#[verifier::external_body]
fn zeroed_block<const N: usize>() -> (block: [u8; N])
    ensures
        block@ == Seq::new(N as nat, |i: int| 0u8),
{
    <[u8; N] as zerocopy::FromZeros>::new_zeroed()
}

/// The bytes of a run of blocks, by `zerocopy::IntoBytes::as_bytes` on the
/// slice of byte arrays: the arrays' bytes in memory order, which is the order
/// of the blocks and of the bytes in each.
#[verifier::external_body]
fn blocks_as_bytes<const N: usize>(blocks: &[[u8; N]]) -> (bytes: &[u8])
    ensures
        bytes@ == block_bytes(blocks@),
{
    zerocopy::IntoBytes::as_bytes(blocks)
}

/// Storage whose blocks are kept as raw bytes.
pub trait RawQuantizedType: Send + Sync {
    /// The element type.
    spec fn spec_dtype(&self) -> GgmlDType;

    /// The number of elements in each block.
    spec fn spec_block_size(&self) -> usize;

    /// The bytes of the blocks.
    spec fn spec_data(&self) -> Seq<u8>;

    /// The element type.
    fn dtype(&self) -> (dtype: GgmlDType)
        ensures
            dtype == self.spec_dtype(),
    ;

    /// The number of elements in each block.
    fn block_size(&self) -> (size: usize)
        ensures
            size == self.spec_block_size(),
    ;

    /// The bytes of the blocks.
    fn data(&self) -> (data: &[u8])
        ensures
            data@ == self.spec_data(),
    ;
}

/// A run of raw blocks of `N` bytes each.
#[derive(Debug)]
pub struct RawBlockStorage<const N: usize> {
    blocks: Vec<[u8; N]>,
    dtype: GgmlDType,
    block_size: usize,
}

impl<const N: usize> RawQuantizedType for RawBlockStorage<N> {
    closed spec fn spec_dtype(&self) -> GgmlDType {
        self.dtype
    }

    closed spec fn spec_block_size(&self) -> usize {
        self.block_size
    }

    closed spec fn spec_data(&self) -> Seq<u8> {
        block_bytes(self.blocks@)
    }

    fn dtype(&self) -> (dtype: GgmlDType) {
        self.dtype
    }

    fn block_size(&self) -> (size: usize) {
        self.block_size
    }

    fn data(&self) -> (data: &[u8]) {
        blocks_as_bytes(self.blocks.as_slice())
    }
}

/// Appending a block appends its bytes.
proof fn lemma_push_block<const N: usize>(blocks: Seq<[u8; N]>, block: [u8; N])
    ensures
        block_bytes(blocks.push(block)) == block_bytes(blocks) + block@,
{
    let n = N as int;
    let count = blocks.len() as int;
    let grown = blocks.push(block);
    let left = block_bytes(grown);
    let right = block_bytes(blocks) + block@;
    assert((count + 1) * n == count * n + n) by (nonlinear_arith);
    assert(left.len() == right.len());
    assert forall|i: int| 0 <= i < left.len() implies left[i] == right[i] by {
        if n > 0 {
            if i < count * n {
                lemma_fundamental_div_mod(i, n);
                assert(i / n < count) by (nonlinear_arith)
                    requires
                        0 <= i < count * n,
                        n > 0,
                        i == n * (i / n) + i % n,
                        0 <= i % n,
                ;
                assert(grown[i / n] == blocks[i / n]);
            } else {
                assert(i == count * n + (i - count * n));
                lemma_fundamental_div_mod_converse(i, n, count, i - count * n);
                assert(grown[count] == block);
            }
        }
    }
    assert(left =~= right);
}

/// The bytes of a run among the blocks are a run among the bytes.
pub proof fn lemma_bytes_of_run<const N: usize>(blocks: Seq<[u8; N]>, from: int, to: int)
    requires
        0 <= from <= to <= blocks.len(),
    ensures
        0 <= from * N <= to * N <= block_bytes(blocks).len(),
        block_bytes(blocks.subrange(from, to)) == block_bytes(blocks).subrange(from * N, to * N),
{
    let n = N as int;
    let run = blocks.subrange(from, to);
    assert(0 <= from * n <= to * n <= blocks.len() * n) by (nonlinear_arith)
        requires
            0 <= from <= to <= blocks.len(),
            0 <= n,
    ;
    assert((to - from) * n == to * n - from * n) by (nonlinear_arith);
    let left = block_bytes(run);
    let right = block_bytes(blocks).subrange(from * n, to * n);
    assert forall|i: int| 0 <= i < left.len() implies left[i] == right[i] by {
        lemma_fundamental_div_mod(i, n);
        assert(0 <= i / n < run.len()) by (nonlinear_arith)
            requires
                0 <= i < run.len() * n,
                n > 0,
                i == n * (i / n) + i % n,
                0 <= i % n < n,
        ;
        assert(from * n + i == (from + i / n) * n + i % n) by (nonlinear_arith)
            requires
                i == n * (i / n) + i % n,
        ;
        lemma_fundamental_div_mod_converse(from * n + i, n, from + i / n, i % n);
    }
    assert(left =~= right);
}

/// What a caller prints when a run of bytes does not divide into blocks.
pub open spec fn raw_length_text(dtype: GgmlDType, len: nat, type_size: nat) -> Seq<char> {
    dtype.spec_name() + " raw data length "@ + text::decimal(len)
        + " is not divisible by block byte size "@ + text::decimal(type_size)
}

/// Raw storage that holds the given blocks.
pub fn raw_storage_from_blocks<const N: usize>(
    blocks: Vec<[u8; N]>,
    dtype: GgmlDType,
    block_size: usize,
) -> (storage: RawBlockStorage<N>)
    ensures
        storage.spec_data() == block_bytes(blocks@),
        storage.spec_dtype() == dtype,
        storage.spec_block_size() == block_size,
{
    RawBlockStorage { blocks, dtype, block_size }
}

/// Raw storage that holds a copy of the given bytes.
pub fn raw_storage_from_data<const N: usize>(
    data: &[u8],
    dtype: GgmlDType,
    block_size: usize,
) -> (outcome: Result<RawBlockStorage<N>, Error>)
    requires
        N > 0,
    ensures
        data@.len() % N as nat == 0 ==> {
            &&& outcome is Ok
            &&& outcome->Ok_0.spec_data() == data@
            &&& outcome->Ok_0.spec_dtype() == dtype
            &&& outcome->Ok_0.spec_block_size() == block_size
        },
        data@.len() % N as nat != 0 ==> error::fails_with(
            outcome,
            raw_length_text(dtype, data@.len(), N as nat),
        ),
{
    if data.len() % N != 0 {
        return Err(
            error_text5(
                dtype.name(),
                " raw data length ",
                decimal_text(data.len() as u64).as_str(),
                " is not divisible by block byte size ",
                decimal_text(N as u64).as_str(),
            ),
        );
    }
    let mut blocks: Vec<[u8; N]> = Vec::new();
    let mut at: usize = 0;
    proof {
        assert(block_bytes(blocks@) =~= data@.take(0)) by {
            assert(0 * N as nat == 0) by (nonlinear_arith);
        }
    }
    while at < data.len()
        invariant
            N > 0,
            at <= data@.len(),
            data@.len() % N as nat == 0,
            at as nat % N as nat == 0,
            block_bytes(blocks@) == data@.take(at as int),
        decreases data@.len() - at,
    {
        proof {
            let n = N as int;
            lemma_fundamental_div_mod(data@.len() as int, n);
            lemma_fundamental_div_mod(at as int, n);
            let whole = data@.len() as int / n;
            let done = at as int / n;
            assert(n * done < n * whole);
            assert(done < whole) by (nonlinear_arith)
                requires
                    n > 0,
                    n * done < n * whole,
            ;
            assert(n * (done + 1) <= n * whole) by (nonlinear_arith)
                requires
                    n > 0,
                    done < whole,
            ;
            assert(n * (done + 1) == n * done + n) by (nonlinear_arith);
            lemma_fundamental_div_mod_converse(at + n, n, done + 1, 0);
        }
        let chunk = slice_subrange(data, at, at + N);
        match read_block::<N>(chunk) {
            Some(block) => {
                proof {
                    lemma_push_block(blocks@, block);
                    assert(data@.take(at as int) + chunk@ =~= data@.take(at + N));
                }
                blocks.push(block);
            },
            None => {
                return Err(error_text3("failed to copy one ", dtype.name(), " raw block"));
            },
        }
        at = at + N;
    }
    assert(data@.take(at as int) =~= data@);
    Ok(raw_storage_from_blocks(blocks, dtype, block_size))
}

/// A run of zeroed blocks.
pub fn zeroed_blocks<const N: usize>(block_count: usize) -> (blocks: Vec<[u8; N]>)
    ensures
        blocks@.len() == block_count,
        forall|j: int|
            0 <= j < block_count ==> (#[trigger] blocks@[j])@ == Seq::new(N as nat, |k: int| 0u8),
{
    let mut blocks: Vec<[u8; N]> = Vec::new();
    let mut i: usize = 0;
    while i < block_count
        invariant
            i <= block_count,
            blocks@.len() == i,
            forall|j: int| 0 <= j < i ==> (#[trigger] blocks@[j])@ == Seq::new(N as nat, |k: int| 0u8),
        decreases block_count - i,
    {
        blocks.push(zeroed_block::<N>());
        i = i + 1;
    }
    blocks
}

/// Raw storage of zeroed blocks.
pub fn raw_zero_storage<const N: usize>(
    block_count: usize,
    dtype: GgmlDType,
    block_size: usize,
) -> (storage: RawBlockStorage<N>)
    ensures
        storage.spec_data() == Seq::new(block_count as nat * N as nat, |i: int| 0u8),
        storage.spec_dtype() == dtype,
        storage.spec_block_size() == block_size,
{
    let blocks = zeroed_blocks::<N>(block_count);
    proof {
        let zeros = Seq::new(block_count as nat * N as nat, |k: int| 0u8);
        let bytes = block_bytes(blocks@);
        let n = N as int;
        assert forall|k: int| 0 <= k < bytes.len() implies bytes[k] == zeros[k] by {
            if n > 0 {
                lemma_fundamental_div_mod(k, n);
                assert(0 <= k / n < block_count) by (nonlinear_arith)
                    requires
                        0 <= k < block_count * n,
                        n > 0,
                        k == n * (k / n) + k % n,
                        0 <= k % n < n,
                ;
                assert(blocks@[k / n]@[k % n] == 0u8);
            }
        }
        assert(bytes =~= zeros);
    }
    raw_storage_from_blocks(blocks, dtype, block_size)
}

/// The bytes of blocks are the bytes of each, one block after another: none for
/// no block, a block's own for a single one, and those of two runs in a row for
/// both runs together.
pub proof fn law_block_bytes_stand_in_a_row<const N: usize>(
    left: Seq<[u8; N]>,
    right: Seq<[u8; N]>,
    block: [u8; N],
)
    ensures
        block_bytes(Seq::<[u8; N]>::empty()).len() == 0,
        block_bytes(seq![block]) == block@,
        block_bytes(left + right) == block_bytes(left) + block_bytes(right),
    decreases right.len(),
{
    assert(0 * N as nat == 0) by (nonlinear_arith);
    let none = Seq::<[u8; N]>::empty();
    lemma_push_block(none, block);
    assert(none.push(block) =~= seq![block]);
    assert(block_bytes(none) + block@ =~= block@);
    if right.len() == 0 {
        assert(left + right =~= left);
        assert(block_bytes(right).len() == 0);
        assert(block_bytes(left) + block_bytes(right) =~= block_bytes(left));
    } else {
        let shorter = right.drop_last();
        let last = right.last();
        law_block_bytes_stand_in_a_row(left, shorter, block);
        lemma_push_block(left + shorter, last);
        lemma_push_block(shorter, last);
        assert((left + shorter).push(last) =~= left + right);
        assert(shorter.push(last) =~= right);
        assert((block_bytes(left) + block_bytes(shorter)) + last@ =~= block_bytes(left) + (
        block_bytes(shorter) + last@));
    }
}

/// Raw storage holds the bytes that it was made from, under the type and the
/// block size that it was given, where the bytes are whole blocks; other bytes
/// are refused.
pub proof fn law_raw_storage_holds_whole_blocks<const N: usize>(
    data: &[u8],
    dtype: GgmlDType,
    block_size: usize,
    outcome: Result<RawBlockStorage<N>, Error>,
)
    requires
        N > 0,
        call_ensures(raw_storage_from_data::<N>, (data, dtype, block_size), outcome),
    ensures
        outcome is Ok <==> data@.len() % N as nat == 0,
        outcome is Ok ==> {
            &&& outcome->Ok_0.spec_data() == data@
            &&& outcome->Ok_0.spec_dtype() == dtype
            &&& outcome->Ok_0.spec_block_size() == block_size
        },
        outcome is Err ==> outcome->Err_0@ == dtype.spec_name() + " raw data length "@ + text::decimal(
            data@.len(),
        ) + " is not divisible by block byte size "@ + text::decimal(N as nat),
{
}

/// Zeroed raw storage has as many blocks as were asked for, and no byte of them
/// is set.
pub proof fn law_zeroed_raw_storage_is_zero<const N: usize>(
    block_count: usize,
    dtype: GgmlDType,
    block_size: usize,
    storage: RawBlockStorage<N>,
    i: int,
)
    requires
        call_ensures(raw_zero_storage::<N>, (block_count, dtype, block_size), storage),
    ensures
        storage.spec_data().len() == block_count * N,
        0 <= i < block_count * N ==> storage.spec_data()[i] == 0,
        storage.spec_dtype() == dtype,
        storage.spec_block_size() == block_size,
{
}

} // verus!
