//! Quantized tensors, with the arithmetic of these tests.

use candle_aqua::cpu_storage::{CpuStorage, DType};
use candle_aqua::device::Device;
use candle_aqua::error::Error;
use candle_aqua::quantized::qmatmul::{is_switched_on, DEQUANTIZE_ALL, DEQUANTIZE_ALL_F16};
use candle_aqua::quantized::qtensor::{can_hold, check_shape};
use candle_aqua::quantized::raw::{raw_storage_from_data, raw_zero_storage};
use candle_aqua::quantized::rows::quantize_h_cpu;
use candle_aqua::quantized::storage::{GpuStorage, QuantizedBlocks};
use candle_aqua::quantized::{
    BlockKernels, GgmlDType, QMatMul, QStorage, QTensor, QuantizedType, RawQuantizedType,
    RowQuantizer, QK8_H,
};
use candle_aqua::shape::{Layout, Shape};
use candle_aqua::tensor::{Conversion, Storage, Tensor};
use half::{bf16, f16};
use std::sync::Arc;

/// Reference arithmetic.
struct Reference;

/// Arithmetic that returns buffers of other lengths than it was handed.
struct Careless;

fn floats(values: &[f32]) -> Vec<u32> {
    values.iter().map(|value| value.to_bits()).collect()
}

fn from_bits(bits: &[u32]) -> Vec<f32> {
    bits.iter().map(|bits| f32::from_bits(*bits)).collect()
}

fn tensor(values: &[f32], dims: &[usize]) -> Tensor {
    Tensor::from_storage(
        Storage::Cpu(CpuStorage::F32(floats(values))),
        Shape::from_dims(dims.to_vec()),
    )
}

fn values(tensor: &Tensor) -> Vec<f32> {
    match &tensor.storage {
        Storage::Cpu(CpuStorage::F32(bits)) => from_bits(bits),
        Storage::Cpu(CpuStorage::F16(bits)) => bits
            .iter()
            .map(|bits| f16::from_bits(*bits).to_f32())
            .collect(),
        other => panic!("expected host values, got {other:?}"),
    }
}

/// The least power of two that is not below `x`.
fn power_of_two_above(x: f32) -> f32 {
    let mut power = 1.0f32;
    while power < x {
        power *= 2.0;
    }
    while power / 2.0 >= x {
        power /= 2.0;
    }
    power
}

fn amax(block: &[f32]) -> f32 {
    block.iter().fold(0.0, |max, value| f32::max(max, value.abs()))
}

impl Conversion for Reference {
    fn to_dtype(&self, values: &CpuStorage, dtype: DType) -> Result<CpuStorage, Error> {
        match (values, dtype) {
            (CpuStorage::F16(bits), DType::F32) => Ok(CpuStorage::F32(
                bits.iter()
                    .map(|bits| f16::from_bits(*bits).to_f32().to_bits())
                    .collect(),
            )),
            (CpuStorage::F32(bits), DType::F16) => Ok(CpuStorage::F16(
                bits.iter()
                    .map(|bits| f16::from_f32(f32::from_bits(*bits)).to_bits())
                    .collect(),
            )),
            (CpuStorage::I64(ids), DType::U32) => {
                Ok(CpuStorage::U32(ids.iter().map(|id| *id as u32).collect()))
            }
            (CpuStorage::U8(_), _) => Ok(CpuStorage::U8(vec![0; values.len()])),
            (CpuStorage::I16(_), DType::F32) => Ok(CpuStorage::F32(vec![0])),
            _ => Err(Error::Msg("no such conversion".to_string())),
        }
    }
}

impl RowQuantizer<44> for Reference {
    fn quantize_row(&self, row: &[u32], blocks: Vec<[u8; 44]>) -> Result<Vec<[u8; 44]>, Error> {
        let row = from_bits(row);
        let scales: Vec<f32> = row
            .chunks_exact(QK8_H)
            .map(|block| f16::from_f32(amax(block) / 127.0).to_f32())
            .collect();
        let low = scales.iter().fold(f32::INFINITY, |a, b| a.min(*b));
        let high = scales.iter().fold(0.0f32, |a, b| a.max(*b));
        let row_scale = if high > low { (high - low) / 255.0 } else { high };
        let offset = if row_scale > 0.0 { (low / row_scale).round() as u16 } else { 0 };
        let mut blocks = blocks;
        for ((block, scale), values) in blocks.iter_mut().zip(&scales).zip(row.chunks_exact(QK8_H)) {
            for (q, value) in block.iter_mut().zip(values) {
                if amax(values) > 0.0 {
                    *q = (value / (amax(values) / 127.0)).round() as i8 as u8;
                }
            }
            if high > low {
                block[32] = ((scale - low) / row_scale).round() as u8;
            }
            block[36..40].copy_from_slice(&row_scale.to_ne_bytes());
            block[40..42].copy_from_slice(&offset.to_ne_bytes());
        }
        Ok(blocks)
    }
}

impl RowQuantizer<40> for Reference {
    fn quantize_row(&self, row: &[u32], blocks: Vec<[u8; 40]>) -> Result<Vec<[u8; 40]>, Error> {
        let row = from_bits(row);
        if row.iter().any(|value| !value.is_finite()) {
            return Err(Error::Msg("row is not finite".to_string()));
        }
        let scales: Vec<f32> = row
            .chunks_exact(QK8_H)
            .map(|block| {
                let max = amax(block);
                if max > 0.0 { power_of_two_above(max / 127.0) } else { 0.0 }
            })
            .collect();
        let smallest = scales
            .iter()
            .filter(|scale| **scale > 0.0)
            .fold(f32::INFINITY, |a, b| a.min(*b));
        let row_scale = if smallest.is_finite() { smallest } else { 0.0 };
        let mut blocks = blocks;
        for ((block, scale), values) in blocks.iter_mut().zip(&scales).zip(row.chunks_exact(QK8_H)) {
            let mut shift = i16::MIN;
            if *scale > 0.0 {
                shift = (scale / row_scale).log2() as i16;
                for (q, value) in block.iter_mut().zip(values) {
                    *q = (value / scale).round() as i8 as u8;
                }
            }
            block[32..34].copy_from_slice(&shift.to_ne_bytes());
            block[36..40].copy_from_slice(&row_scale.to_ne_bytes());
        }
        Ok(blocks)
    }
}

fn block_values(dtype: GgmlDType, blocks: &[u8]) -> Vec<f32> {
    match dtype {
        GgmlDType::F32 => blocks
            .chunks_exact(4)
            .map(|bytes| f32::from_le_bytes([bytes[0], bytes[1], bytes[2], bytes[3]]))
            .collect(),
        GgmlDType::F16 => blocks
            .chunks_exact(2)
            .map(|bytes| f16::from_le_bytes([bytes[0], bytes[1]]).to_f32())
            .collect(),
        GgmlDType::BF16 => blocks
            .chunks_exact(2)
            .map(|bytes| bf16::from_le_bytes([bytes[0], bytes[1]]).to_f32())
            .collect(),
        GgmlDType::Q8_0 => blocks
            .chunks_exact(34)
            .flat_map(|block| {
                let scale = f16::from_le_bytes([block[0], block[1]]).to_f32();
                block[2..]
                    .iter()
                    .map(move |q| f32::from(*q as i8) * scale)
                    .collect::<Vec<_>>()
            })
            .collect(),
        other => panic!("no arithmetic for {other:?}"),
    }
}

impl BlockKernels for Reference {
    fn from_float(&self, dtype: GgmlDType, values: &Vec<u32>, blocks: &Vec<u8>) -> Result<Vec<u8>, Error> {
        assert!(blocks.iter().all(|byte| *byte == 0));
        let values = from_bits(values);
        Ok(match dtype {
            GgmlDType::F32 => values.iter().flat_map(|value| value.to_le_bytes()).collect(),
            GgmlDType::F16 => values
                .iter()
                .flat_map(|value| f16::from_f32(*value).to_le_bytes())
                .collect(),
            GgmlDType::BF16 => values
                .iter()
                .flat_map(|value| bf16::from_f32(*value).to_le_bytes())
                .collect(),
            GgmlDType::Q8_0 => values
                .chunks_exact(32)
                .flat_map(|block| {
                    let scale = amax(block) / 127.0;
                    let mut bytes = f16::from_f32(scale).to_le_bytes().to_vec();
                    for value in block {
                        bytes.push(if scale > 0.0 { (value / scale).round() as i8 as u8 } else { 0 });
                    }
                    bytes
                })
                .collect(),
            _ => blocks.clone(),
        })
    }

    fn from_float_imatrix(
        &self,
        dtype: GgmlDType,
        values: &Vec<u32>,
        weights: &Vec<u32>,
        n_per_row: usize,
        blocks: &Vec<u8>,
    ) -> Result<Vec<u8>, Error> {
        assert_eq!(weights.len(), n_per_row);
        self.from_float(dtype, values, blocks)
    }

    fn to_float(&self, dtype: GgmlDType, blocks: &[u8], values: Vec<u32>) -> Result<Vec<u32>, Error> {
        assert!(values.iter().all(|bits| *bits == 0));
        Ok(floats(&block_values(dtype, blocks)))
    }

    fn matmul(
        &self,
        dtype: GgmlDType,
        mkn: (usize, usize, usize),
        lhs: &[u32],
        blocks: &Vec<u8>,
        dst: Vec<u32>,
    ) -> Result<Vec<u32>, Error> {
        let (m, k, n) = mkn;
        assert_eq!(lhs.len(), m * k);
        let lhs = from_bits(lhs);
        let rows = block_values(dtype, blocks);
        let mut dst = dst;
        for i in 0..m {
            for j in 0..n {
                let sum: f32 = (0..k).map(|x| lhs[i * k + x] * rows[j * k + x]).sum();
                dst[i * n + j] = sum.to_bits();
            }
        }
        Ok(dst)
    }

    fn matmul_f16(
        &self,
        dtype: GgmlDType,
        mkn: (usize, usize, usize),
        lhs: &[u16],
        blocks: &Vec<u8>,
        dst: Vec<u16>,
    ) -> Result<Vec<u16>, Error> {
        let wide: Vec<u32> = lhs
            .iter()
            .map(|bits| f16::from_bits(*bits).to_f32().to_bits())
            .collect();
        let product = self.matmul(dtype, mkn, &wide, blocks, vec![0; dst.len()])?;
        Ok(product
            .iter()
            .map(|bits| f16::from_f32(f32::from_bits(*bits)).to_bits())
            .collect())
    }

    fn matmul_transposed(&self, xs: &Tensor, weights: &Tensor, batch: &Vec<usize>) -> Result<Tensor, Error> {
        let (n, k) = weights.shape.dims2()?;
        let rank = xs.shape.rank();
        if rank > 2 {
            assert_eq!(batch.as_slice(), &xs.shape.dims()[..rank - 2]);
        } else {
            assert!(batch.is_empty());
        }
        let (lhs, rows) = (values(xs), values(weights));
        let m = lhs.len() / k;
        let mut product = Vec::new();
        for i in 0..m {
            for j in 0..n {
                product.push((0..k).map(|x| lhs[i * k + x] * rows[j * k + x]).sum::<f32>());
            }
        }
        let mut dims = xs.shape.dims().clone();
        dims.pop();
        dims.push(n);
        let result = tensor(&product, &dims);
        if xs.dtype() == DType::F16 {
            result.to_dtype(self, DType::F16)
        } else {
            Ok(result)
        }
    }

    fn index_select(&self, weights: &Tensor, ids: &Tensor) -> Result<Tensor, Error> {
        let (_, width) = weights.shape.dims2()?;
        let all = values(weights);
        match &ids.storage {
            Storage::Cpu(CpuStorage::U32(ids)) => {
                let rows: Vec<f32> = ids
                    .iter()
                    .flat_map(|id| all[*id as usize * width..(*id as usize + 1) * width].to_vec())
                    .collect();
                Ok(tensor(&rows, &[ids.len(), width]))
            }
            _ => Err(Error::Msg("ids must be U32".to_string())),
        }
    }
}

impl Conversion for Careless {
    fn to_dtype(&self, _: &CpuStorage, _: DType) -> Result<CpuStorage, Error> {
        Ok(CpuStorage::U8(Vec::new()))
    }
}

impl RowQuantizer<44> for Careless {
    fn quantize_row(&self, _: &[u32], _: Vec<[u8; 44]>) -> Result<Vec<[u8; 44]>, Error> {
        Ok(Vec::new())
    }
}

impl RowQuantizer<40> for Careless {
    fn quantize_row(&self, row: &[u32], blocks: Vec<[u8; 40]>) -> Result<Vec<[u8; 40]>, Error> {
        if row[0] == 0 {
            Ok(blocks)
        } else {
            Err(Error::Msg("refused".to_string()))
        }
    }
}

impl BlockKernels for Careless {
    fn from_float(&self, dtype: GgmlDType, _: &Vec<u32>, _: &Vec<u8>) -> Result<Vec<u8>, Error> {
        if dtype == GgmlDType::BF16 {
            return Err(Error::Msg("refused".to_string()));
        }
        Ok(vec![1])
    }

    fn from_float_imatrix(&self, _: GgmlDType, _: &Vec<u32>, _: &Vec<u32>, _: usize, _: &Vec<u8>) -> Result<Vec<u8>, Error> {
        Ok(vec![1, 2])
    }

    fn to_float(&self, dtype: GgmlDType, _: &[u8], _: Vec<u32>) -> Result<Vec<u32>, Error> {
        if dtype == GgmlDType::BF16 {
            return Err(Error::Msg("refused".to_string()));
        }
        Ok(vec![1, 2, 3])
    }

    fn matmul(&self, _: GgmlDType, _: (usize, usize, usize), _: &[u32], _: &Vec<u8>, _: Vec<u32>) -> Result<Vec<u32>, Error> {
        Ok(vec![7])
    }

    fn matmul_f16(&self, _: GgmlDType, _: (usize, usize, usize), _: &[u16], _: &Vec<u8>, _: Vec<u16>) -> Result<Vec<u16>, Error> {
        Err(Error::Msg("refused".to_string()))
    }

    fn matmul_transposed(&self, _: &Tensor, _: &Tensor, _: &Vec<usize>) -> Result<Tensor, Error> {
        Err(Error::Msg("refused".to_string()))
    }

    fn index_select(&self, _: &Tensor, _: &Tensor) -> Result<Tensor, Error> {
        Ok(tensor(&[1.0], &[1]))
    }
}

fn q8_h1_fixture() -> [u8; 44] {
    let mut bytes = [0u8; 44];
    for (index, byte) in bytes[..32].iter_mut().enumerate() {
        *byte = (index as u8).wrapping_mul(17).wrapping_add(3);
    }
    bytes[32] = 0x7d;
    bytes[33..36].copy_from_slice(&[0xa1, 0xb2, 0xc3]);
    bytes[36..40].copy_from_slice(&f32::from_bits(0x3eaaaaab).to_ne_bytes());
    bytes[40..42].copy_from_slice(&0xbeefu16.to_ne_bytes());
    bytes[42..44].copy_from_slice(&[0xd4, 0xe5]);
    bytes
}

fn q8_hp1_fixture() -> [u8; 40] {
    let mut bytes = [0u8; 40];
    for (index, byte) in bytes[..32].iter_mut().enumerate() {
        *byte = (index as u8).wrapping_mul(29).wrapping_add(11);
    }
    bytes[32..34].copy_from_slice(&(-1234i16).to_ne_bytes());
    bytes[34..36].copy_from_slice(&[0xc7, 0xd8]);
    bytes[36..40].copy_from_slice(&f32::from_bits(0x3f123456).to_ne_bytes());
    bytes
}

fn h1_scale(block: &[u8]) -> f32 {
    f32::from_ne_bytes([block[36], block[37], block[38], block[39]])
}

fn h1_offset(block: &[u8]) -> u16 {
    u16::from_ne_bytes([block[40], block[41]])
}

fn hp1_shift(block: &[u8]) -> i16 {
    i16::from_ne_bytes([block[32], block[33]])
}

fn blocks_of(tensor: &QTensor, size: usize) -> Vec<Vec<u8>> {
    tensor
        .data()
        .unwrap()
        .chunks_exact(size)
        .map(|block| block.to_vec())
        .collect()
}

fn quantize(values: &[f32], dims: &[usize], dtype: GgmlDType) -> Result<QTensor, Error> {
    QTensor::quantize(&Reference, &tensor(values, dims), dtype)
}

#[test]
fn q8_h1_cpu_from_data_preserves_bytes() -> Result<(), Error> {
    let bytes = q8_h1_fixture();
    let mut unaligned = vec![0xff];
    unaligned.extend_from_slice(&bytes);
    let raw = &unaligned[1..];
    let storage = QStorage::from_data(raw, &Device::Cpu, GgmlDType::Q8H1)?;
    let tensor = QTensor::new(storage, Shape::from_dims(vec![QK8_H]))?;
    assert_eq!(tensor.dtype(), GgmlDType::Q8H1);
    assert_eq!(tensor.storage_size_in_bytes(), bytes.len());
    assert_eq!(tensor.data()?, bytes);
    Ok(())
}

#[test]
fn q8_hp1_cpu_from_data_preserves_bytes() -> Result<(), Error> {
    let bytes = q8_hp1_fixture();
    let storage = QStorage::from_data(&bytes, &Device::Cpu, GgmlDType::Q8HP1)?;
    let tensor = QTensor::new(storage, Shape::from_dims(vec![QK8_H]))?;
    assert_eq!(tensor.dtype(), GgmlDType::Q8HP1);
    assert_eq!(tensor.storage_size_in_bytes(), bytes.len());
    assert_eq!(tensor.data()?, bytes);
    Ok(())
}

#[test]
fn q8_h1_cpu_zero_storage_geometry() -> Result<(), Error> {
    let storage = Device::Cpu.qzeros(2 * QK8_H, GgmlDType::Q8H1)?;
    let tensor = QTensor::new(storage, Shape::from_dims(vec![2 * QK8_H]))?;
    assert_eq!(tensor.storage_size_in_bytes(), 2 * 44);
    assert_eq!(tensor.data()?, [0u8; 88]);
    Ok(())
}

#[test]
fn q8_hp1_cpu_zero_storage_geometry() -> Result<(), Error> {
    let storage = Device::Cpu.qzeros(2 * QK8_H, GgmlDType::Q8HP1)?;
    let tensor = QTensor::new(storage, Shape::from_dims(vec![2 * QK8_H]))?;
    assert_eq!(tensor.storage_size_in_bytes(), 2 * 40);
    assert_eq!(tensor.data()?, [0u8; 80]);
    Ok(())
}

#[test]
fn q8_h1_qtensor_quantize_isolates_rows() -> Result<(), Error> {
    let mut values = Vec::new();
    for (first, second) in [(1.0, -1.0), (8.0, -8.0)] {
        values.extend(vec![first; QK8_H]);
        values.extend(vec![second; QK8_H]);
    }
    let quantized = quantize(&values, &[2, 64], GgmlDType::Q8H1)?;
    let blocks = blocks_of(&quantized, 44);

    assert_eq!(quantized.shape().dims(), &vec![2, 64]);
    assert_eq!(quantized.storage_size_in_bytes(), 4 * 44);
    assert_eq!(blocks.len(), 4);
    let row0_scale = f16::from_f32(1.0 / 127.0).to_f32();
    let row1_scale = f16::from_f32(8.0 / 127.0).to_f32();
    for block in &blocks[..2] {
        assert_eq!(h1_scale(block).to_bits(), row0_scale.to_bits());
        assert_eq!(h1_offset(block), 1);
    }
    for block in &blocks[2..] {
        assert_eq!(h1_scale(block).to_bits(), row1_scale.to_bits());
        assert_eq!(h1_offset(block), 1);
    }
    assert_ne!(h1_scale(&blocks[0]).to_bits(), h1_scale(&blocks[2]).to_bits());
    Ok(())
}

#[test]
fn q8_hp1_qtensor_quantize_isolates_rows() -> Result<(), Error> {
    let mut values = Vec::new();
    for (first, second) in [(1.0, 8.0), (4.0, 32.0)] {
        values.extend(vec![first; QK8_H]);
        values.extend(vec![second; QK8_H]);
    }
    let quantized = quantize(&values, &[2, 64], GgmlDType::Q8HP1)?;
    let blocks = blocks_of(&quantized, 40);

    assert_eq!(quantized.shape().dims(), &vec![2, 64]);
    assert_eq!(quantized.storage_size_in_bytes(), 4 * 40);
    assert_eq!(blocks.len(), 4);
    assert_eq!([hp1_shift(&blocks[0]), hp1_shift(&blocks[1])], [0, 3]);
    assert_eq!([hp1_shift(&blocks[2]), hp1_shift(&blocks[3])], [0, 3]);
    assert!(blocks[..2].iter().all(|block| h1_scale(block) == 1.0 / 64.0));
    assert!(blocks[2..].iter().all(|block| h1_scale(block) == 1.0 / 16.0));
    assert!(blocks.iter().all(|block| block[..32] == [64; QK8_H]));
    Ok(())
}

#[test]
fn q8_hp1_qtensor_quantize_uses_higher_rank_rows() -> Result<(), Error> {
    let mut values = Vec::new();
    for base in [1.0, 2.0, 4.0, 8.0] {
        values.extend(vec![base; QK8_H]);
        values.extend(vec![base * 8.0; QK8_H]);
    }
    let quantized = quantize(&values, &[2, 2, 64], GgmlDType::Q8HP1)?;
    let blocks = blocks_of(&quantized, 40);

    assert_eq!(quantized.shape().dims(), &vec![2, 2, 64]);
    assert_eq!(quantized.storage_size_in_bytes(), 8 * 40);
    assert_eq!(blocks.len(), 8);
    for (row, expected_scale) in [1.0 / 64.0, 1.0 / 32.0, 1.0 / 16.0, 1.0 / 8.0]
        .into_iter()
        .enumerate()
    {
        let row_blocks = &blocks[row * 2..row * 2 + 2];
        assert_eq!([hp1_shift(&row_blocks[0]), hp1_shift(&row_blocks[1])], [0, 3]);
        assert!(row_blocks.iter().all(|block| h1_scale(block) == expected_scale));
    }
    Ok(())
}

#[test]
fn q8_h_qtensor_quantize_zeroes_padding_bytes() -> Result<(), Error> {
    for (dtype, block_size, padding_ranges) in [
        (GgmlDType::Q8H1, 44, &[(33, 36), (42, 44)][..]),
        (GgmlDType::Q8HP1, 40, &[(34, 36)][..]),
    ] {
        let quantized = quantize(&[1.0; 128], &[2, 64], dtype)?;
        let data = quantized.data()?;
        for block in data.chunks_exact(block_size) {
            for &(start, end) in padding_ranges {
                assert_eq!(&block[start..end], vec![0; end - start]);
            }
        }
    }
    Ok(())
}

#[test]
fn q8_h_qtensor_dequantization_remains_unsupported() -> Result<(), Error> {
    for dtype in [GgmlDType::Q8H1, GgmlDType::Q8HP1] {
        let quantized = quantize(&[1.0; QK8_H], &[QK8_H], dtype)?;
        let refused = quantized.dequantize(&Reference, &Device::Cpu);
        assert!(refused.is_err());
        assert_eq!(
            refused.unwrap_err().message(),
            format!("dequantization is not implemented for {}", dtype.name())
        );
    }
    Ok(())
}

#[test]
fn quantized_storage_is_explicitly_unsupported() -> Result<(), Error> {
    let aqua = Device::new_aqua(0)?;
    let tensor = tensor(&[1.0; 32], &[1, 32]).to_device(&aqua)?;
    let error = match QTensor::quantize(&Reference, &tensor, GgmlDType::Q4_0) {
        Ok(_) => panic!("Aqua unexpectedly created quantized storage"),
        Err(error) => error,
    };
    assert_eq!(
        error.message(),
        "quantized storage is not supported on Aqua devices"
    );
    Ok(())
}

#[test]
fn raw_blocks_copy_and_zero() -> Result<(), Error> {
    let bytes: Vec<u8> = (0..88).collect();
    let storage = raw_storage_from_data::<44>(&bytes, GgmlDType::Q8H1, QK8_H)?;
    assert_eq!(storage.data(), bytes.as_slice());
    assert_eq!(storage.dtype(), GgmlDType::Q8H1);
    assert_eq!(storage.block_size(), 32);
    assert_eq!(
        raw_storage_from_data::<44>(&bytes[..87], GgmlDType::Q8H1, QK8_H)
            .expect_err("half a block")
            .message(),
        "Q8H1 raw data length 87 is not divisible by block byte size 44"
    );
    assert_eq!(raw_zero_storage::<40>(3, GgmlDType::Q8HP1, QK8_H).data(), [0u8; 120]);
    assert!(raw_storage_from_data::<40>(&[], GgmlDType::Q8HP1, QK8_H)?.data().is_empty());
    Ok(())
}

#[test]
fn storage_from_data_knows_its_devices() -> Result<(), Error> {
    let bytes = [1u8, 2, 3, 4, 5, 6, 7, 8];
    let storage = QStorage::from_data(&bytes, &Device::Cpu, GgmlDType::F32)?;
    assert_eq!(storage.data()?, bytes);
    assert_eq!(storage.size_in_bytes(), 8);
    assert_eq!(storage.block_size(), 1);
    assert!(storage.device().is_cpu());
    let message = |device: Device, dtype: GgmlDType| {
        QStorage::from_data(&bytes, &device, dtype)
            .expect_err("not on the host")
            .message()
    };
    assert_eq!(
        message(Device::Metal { gpu_id: 0 }, GgmlDType::Q8H1),
        "Q8H1 raw storage is not supported on Metal"
    );
    assert_eq!(
        message(Device::Cuda { gpu_id: 0 }, GgmlDType::Q8HP1),
        "Q8HP1 raw storage is not supported on CUDA"
    );
    assert_eq!(
        message(Device::Cuda { gpu_id: 0 }, GgmlDType::F32),
        "the candle crate has not been built with cuda support"
    );
    assert_eq!(
        message(Device::Metal { gpu_id: 0 }, GgmlDType::F16),
        "the candle crate has not been built with metal support"
    );
    assert_eq!(
        message(Device::new_aqua(1)?, GgmlDType::F32),
        "quantized storage is not supported on Aqua devices"
    );
    Ok(())
}

#[test]
fn zeroed_blocks_have_the_size_of_their_type() -> Result<(), Error> {
    for (dtype, elements, size) in [
        (GgmlDType::F32, 6, 24),
        (GgmlDType::BF16, 6, 12),
        (GgmlDType::Q4_0, 64, 36),
        (GgmlDType::Q6K, 512, 420),
        (GgmlDType::Q8H1, 96, 132),
    ] {
        let storage = dtype.cpu_zeros(elements);
        assert_eq!(storage.dtype(), dtype);
        assert_eq!(storage.data()?, vec![0u8; size]);
    }
    assert!(Device::Cuda { gpu_id: 0 }.qzeros(32, GgmlDType::F32).is_err());
    assert!(Device::Metal { gpu_id: 0 }.qzeros(32, GgmlDType::F32).is_err());
    assert!(Device::new_aqua(0)?.qzeros(32, GgmlDType::F32).is_err());
    Ok(())
}

#[test]
fn blocks_know_their_geometry() {
    let blocks = QuantizedBlocks { dtype: GgmlDType::Q8_0, data: vec![0; 68] };
    assert_eq!(blocks.dtype(), GgmlDType::Q8_0);
    assert_eq!(blocks.block_size(), 32);
    assert_eq!(blocks.storage_size_in_bytes(), 68);
    assert_eq!(blocks.size(), 68);
}

#[test]
fn storage_is_filled_only_from_its_own_device() -> Result<(), Error> {
    let host = Storage::Cpu(CpuStorage::F32(floats(&[1.0, 2.0])));
    let mut blocks = GgmlDType::F32.cpu_zeros(2);
    blocks.quantize(&Reference, &host)?;
    assert_eq!(blocks.data()?, [0, 0, 128, 63, 0, 0, 0, 64]);

    let integers = Storage::Cpu(CpuStorage::U32(vec![1, 2]));
    assert_eq!(
        blocks.quantize(&Reference, &integers).unwrap_err().message(),
        "unexpected dtype, expected: F32, got: U32"
    );
    assert_eq!(blocks.data()?, [0, 0, 128, 63, 0, 0, 0, 64]);

    let mut raw = GgmlDType::Q8H1.cpu_zeros(32);
    assert_eq!(
        raw.quantize(&Reference, &host).unwrap_err().message(),
        "Invalid quantize storage locations do not match"
    );
    assert_eq!(
        raw.quantize_onto(&Reference, &host).unwrap_err().message(),
        "Invalid quantize source storage locations: not on cpu"
    );
    let weights = floats(&[1.0, 1.0]);
    assert_eq!(
        raw.quantize_imatrix(&Reference, &host, &weights, 2).unwrap_err().message(),
        "Invalid quantize storage locations do not match"
    );
    assert_eq!(
        raw.quantize_imatrix_onto(&Reference, &host, &weights, 2).unwrap_err().message(),
        "Invalid quantize storage locations do not match"
    );
    let mut metal = QStorage::Metal(GpuStorage { dtype: GgmlDType::F32, gpu_id: 0 });
    assert_eq!(
        metal.quantize_onto(&Reference, &host).unwrap_err().message(),
        "the candle crate has not been built with metal support"
    );
    Ok(())
}

#[test]
fn buffers_of_another_length_are_refused() {
    assert_eq!(
        QTensor::quantize(&Careless, &tensor(&[1.0], &[1]), GgmlDType::F32)
            .unwrap_err()
            .message(),
        "F32 kernel filled 1 entries, expected 4"
    );
    assert_eq!(
        QTensor::quantize(&Careless, &tensor(&[1.0; 32], &[32]), GgmlDType::Q8H1)
            .unwrap_err()
            .message(),
        "row quantizer filled 0 blocks, expected 1"
    );
    assert_eq!(
        quantize(&[1.0; 2], &[2], GgmlDType::F32)
            .unwrap()
            .dequantize(&Careless, &Device::Cpu)
            .unwrap_err()
            .message(),
        "F32 kernel filled 3 entries, expected 2"
    );
}

#[test]
fn rows_are_quantized_in_order_up_to_the_first_refusal() -> Result<(), Error> {
    let mut values = vec![0u32; 64];
    let shape = Shape::from_dims(vec![2, 32]);
    let storage = quantize_h_cpu(&Careless, &values, &shape, GgmlDType::Q8HP1)?;
    assert_eq!(storage.data()?, [0u8; 80]);
    values[32] = 1;
    assert_eq!(
        quantize_h_cpu(&Careless, &values, &shape, GgmlDType::Q8HP1)
            .unwrap_err()
            .message(),
        "refused"
    );
    Ok(())
}

#[test]
fn row_quantization_refuses_what_is_not_rows_of_blocks() {
    let message = |values: &[u32], dims: Vec<usize>, dtype: GgmlDType| {
        quantize_h_cpu(&Reference, values, &Shape::from_dims(dims), dtype)
            .unwrap_err()
            .message()
    };
    assert_eq!(message(&[0], vec![], GgmlDType::Q8H1), "Q8H1 cannot quantize a scalar tensor");
    assert_eq!(message(&[], vec![3, 0], GgmlDType::Q8H1), "Q8H1 row width cannot be zero");
    assert_eq!(
        message(&[0; 33], vec![33], GgmlDType::Q8HP1),
        "Q8HP1 row width 33 is not divisible by block size 32"
    );
    assert_eq!(
        message(&[0; 32], vec![2, 32], GgmlDType::Q8HP1),
        "Q8HP1 flat value count 32 is incompatible with shape [2, 32]"
    );
    assert_eq!(
        message(&[0; 32], vec![1, 32], GgmlDType::F32),
        "internal misuse of H-family quantizer with F32"
    );
}

#[test]
fn shapes_need_rows_of_whole_blocks() -> Result<(), Error> {
    check_shape(&Shape::from_dims(vec![3, 64]), 32)?;
    assert_eq!(
        check_shape(&Shape::from_dims(vec![]), 32).unwrap_err().message(),
        "scalar tensor cannot be quantized []"
    );
    assert_eq!(
        check_shape(&Shape::from_dims(vec![2, 33]), 32).unwrap_err().message(),
        "quantized tensor must have their last dim divisible by block size [2, 33] 32"
    );
    assert_eq!(
        quantize(&[1.0; 66], &[2, 33], GgmlDType::Q8H1).unwrap_err().message(),
        "quantized tensor must have their last dim divisible by block size [2, 33] 32"
    );
    Ok(())
}

#[test]
fn sizes_beyond_the_machine_are_recognized() {
    let huge = Shape::from_dims(vec![usize::MAX, 2]);
    assert_eq!(huge.checked_elem_count(), None);
    assert!(!can_hold(&huge, GgmlDType::F32));
    let large = Shape::from_dims(vec![usize::MAX]);
    assert_eq!(large.checked_elem_count(), Some(usize::MAX));
    assert!(!can_hold(&large, GgmlDType::F32));
    assert!(can_hold(&large, GgmlDType::Q4_0));
    assert_eq!(Shape::from_dims(vec![3, 4]).checked_elem_count(), Some(12));
}

#[test]
fn quantized_values_read_back() -> Result<(), Error> {
    let source = [1.0, -2.5, 0.0, 1024.0];
    for dtype in [GgmlDType::F32, GgmlDType::F16, GgmlDType::BF16] {
        let quantized = quantize(&source, &[2, 2], dtype)?;
        assert_eq!(quantized.rank(), 2);
        assert_eq!(quantized.text(), format!("QTensor[[2, 2]; {}]", dtype.name()));
        assert_eq!(format!("{quantized:?}"), quantized.text());
        assert!(quantized.device().is_cpu());
        let restored = quantized.dequantize(&Reference, &Device::Cpu)?;
        assert_eq!(values(&restored), source);
        assert_eq!(restored.shape.dims(), &vec![2, 2]);
        let halves = quantized.dequantize_f16(&Reference, &Device::Cpu)?;
        assert_eq!(halves.dtype(), DType::F16);
        assert_eq!(values(&halves), source);
    }
    let far = quantize(&source, &[2, 2], GgmlDType::F32)?;
    assert!(far.dequantize(&Reference, &Device::new_aqua(0)?)?.device().is_aqua());
    assert!(far.dequantize(&Reference, &Device::Cuda { gpu_id: 0 }).is_err());
    Ok(())
}

#[test]
fn other_element_types_are_converted_first() -> Result<(), Error> {
    let halves = tensor(&[1.0, 2.0], &[2]).to_dtype(&Reference, DType::F16)?;
    let quantized = QTensor::quantize(&Reference, &halves, GgmlDType::F32)?;
    assert_eq!(values(&quantized.dequantize(&Reference, &Device::Cpu)?), [1.0, 2.0]);

    let bytes = Tensor::from_storage(
        Storage::Cpu(CpuStorage::U8(vec![1, 2])),
        Shape::from_dims(vec![2]),
    );
    assert_eq!(
        QTensor::quantize(&Reference, &bytes, GgmlDType::F32).unwrap_err().message(),
        "unexpected dtype, expected: F32, got: U8"
    );
    let shorts = Tensor::from_storage(
        Storage::Cpu(CpuStorage::I16(vec![1, 2])),
        Shape::from_dims(vec![2]),
    );
    assert_eq!(
        QTensor::quantize(&Reference, &shorts, GgmlDType::F32).unwrap_err().message(),
        "conversion gave 1 values, expected 2"
    );
    let gpu = Tensor::from_storage(
        Storage::Cuda { gpu_id: 0, dtype: DType::F16 },
        Shape::from_dims(vec![32]),
    );
    assert_eq!(
        QTensor::quantize(&Reference, &gpu, GgmlDType::F32).unwrap_err().message(),
        "the candle crate has not been built with cuda support"
    );
    assert_eq!(
        QTensor::quantize(&Reference, &gpu, GgmlDType::Q8H1).unwrap_err().message(),
        "Q8H1 quantization is currently CPU-only"
    );
    Ok(())
}

#[test]
fn importances_need_one_entry_for_each_column() -> Result<(), Error> {
    let source = tensor(&[1.0, 2.0, 3.0, 4.0], &[2, 2]);
    let weights = floats(&[1.0, 1.0]);
    let quantized = QTensor::quantize_imatrix(&Reference, &source, &weights, GgmlDType::F32)?;
    assert_eq!(
        values(&quantized.dequantize(&Reference, &Device::Cpu)?),
        [1.0, 2.0, 3.0, 4.0]
    );
    let onto = QTensor::quantize_imatrix_onto(
        &Reference,
        &source,
        &weights,
        GgmlDType::F32,
        &Device::Cpu,
    )?;
    assert_eq!(onto.data()?, quantized.data()?);
    assert_eq!(
        QTensor::quantize_imatrix(&Reference, &source, &floats(&[1.0]), GgmlDType::F32)
            .unwrap_err()
            .message(),
        "imatrix weights must have the same length 1 as the last dim of src 2"
    );
    assert_eq!(
        QTensor::quantize_imatrix(&Reference, &tensor(&[1.0], &[]), &weights, GgmlDType::F32)
            .unwrap_err()
            .message(),
        "dim: dimension index -1 out of range for shape []"
    );
    let wide = tensor(&[1.0; 32], &[32]);
    assert_eq!(
        QTensor::quantize_imatrix(&Reference, &wide, &floats(&[1.0; 32]), GgmlDType::Q8H1)
            .unwrap_err()
            .message(),
        "Invalid quantize storage locations do not match"
    );
    assert_eq!(
        QTensor::quantize_imatrix(&Careless, &source, &weights, GgmlDType::F32)
            .unwrap_err()
            .message(),
        "F32 kernel filled 2 entries, expected 16"
    );
    Ok(())
}

#[test]
fn quantizing_onto_a_device_starts_from_the_host() -> Result<(), Error> {
    let source = tensor(&[1.0; 32], &[32]);
    let quantized = QTensor::quantize_onto(&Reference, &source, GgmlDType::Q8_0, &Device::Cpu)?;
    assert_eq!(quantized.storage_size_in_bytes(), 34);
    assert_eq!(
        QTensor::quantize_onto(&Reference, &source, GgmlDType::Q8HP1, &Device::Cpu)
            .unwrap_err()
            .message(),
        "Invalid quantize source storage locations: not on cpu"
    );
    assert_eq!(
        QTensor::quantize_onto(&Reference, &source, GgmlDType::F32, &Device::new_aqua(0)?)
            .unwrap_err()
            .message(),
        "quantized storage is not supported on Aqua devices"
    );
    let far = source.to_device(&Device::new_aqua(2)?)?;
    assert_eq!(
        QTensor::quantize_onto(&Reference, &far, GgmlDType::F32, &Device::Cpu)
            .unwrap_err()
            .message(),
        "`quantize_onto` expects a `src` to be on the cpu, got Aqua(AquaDevice { device_id: 2, executor: \"cpu-fallback\" })."
    );
    assert!(QTensor::quantize_imatrix_onto(
        &Reference,
        &far,
        &floats(&[1.0; 32]),
        GgmlDType::F32,
        &Device::Cpu
    )
    .is_err());
    Ok(())
}

#[test]
fn embedding_looks_rows_up() -> Result<(), Error> {
    let table = quantize(&[1.0, 2.0, 3.0, 4.0, 5.0, 6.0], &[3, 2], GgmlDType::F16)?;
    let ids = Tensor::from_storage(
        Storage::Cpu(CpuStorage::I64(vec![2, 0, 2])),
        Shape::from_dims(vec![1, 3]),
    );
    let rows = table.embedding(&Reference, &ids)?;
    assert_eq!(values(&rows), [5.0, 6.0, 1.0, 2.0, 5.0, 6.0]);
    assert_eq!(rows.shape.dims(), &vec![1, 3, 2]);

    let missing = Tensor::from_storage(
        Storage::Cpu(CpuStorage::U32(vec![0, 3])),
        Shape::from_dims(vec![2]),
    );
    assert_eq!(
        table.embedding(&Reference, &missing).unwrap_err().message(),
        "embedding id 3 is out of range for 3 rows"
    );
    assert_eq!(
        table.embedding(&Careless, &missing).unwrap_err().message(),
        "F16 kernel filled 3 entries, expected 2"
    );
    let flat = quantize(&[1.0; 4], &[4], GgmlDType::F32)?;
    assert_eq!(
        flat.embedding(&Reference, &missing).unwrap_err().message(),
        "unexpected rank, expected: 2, got: 1 ([4])"
    );
    let raw = quantize(&[1.0; 64], &[2, 32], GgmlDType::Q8H1)?;
    assert_eq!(
        raw.embedding(&Reference, &missing).unwrap_err().message(),
        "embedding is not implemented for Q8H1"
    );
    let blocks = QuantizedBlocks { dtype: GgmlDType::Q8_0, data: vec![0; 34] };
    assert_eq!(
        blocks.embedding(&Reference, &vec![0], 1, 33).unwrap_err().message(),
        "quantized embedding hidden size 33 is not divisible by block size 32"
    );
    assert_eq!(
        blocks.embedding(&Reference, &vec![0], 2, 32).unwrap_err().message(),
        "quantized tensor has 1 blocks, expected 2"
    );
    Ok(())
}

#[test]
fn quantized_products_cover_every_row() -> Result<(), Error> {
    let weights = quantize(&[1.0, 2.0, 3.0, 4.0, 5.0, 6.0], &[3, 2], GgmlDType::F16)?;
    let storage = CpuStorage::F32(floats(&[9.0, 1.0, 0.0, 0.0, 1.0]));
    let layout = Layout {
        shape: Shape::from_dims(vec![2, 2]),
        stride: vec![2, 1],
        start_offset: 1,
    };
    let (product, shape) = weights.cpu_fwd(&Reference, &storage, &layout)?;
    match product {
        CpuStorage::F32(bits) => assert_eq!(from_bits(&bits), [1.0, 3.0, 5.0, 2.0, 4.0, 6.0]),
        other => panic!("expected F32 values, got {other:?}"),
    }
    assert_eq!(shape.dims(), &vec![2, 3]);
    assert_eq!(weights.name(), "qmatmul");

    let halves = CpuStorage::F16(vec![f16::ZERO.to_bits(), f16::ONE.to_bits()]);
    let row = Layout::row_after_row(Shape::from_dims(vec![1, 2]));
    let (product, shape) = weights.cpu_fwd(&Reference, &halves, &row)?;
    match product {
        CpuStorage::F16(bits) => assert_eq!(
            bits,
            [2.0, 4.0, 6.0].map(|value| f16::from_f32(value).to_bits())
        ),
        other => panic!("expected F16 values, got {other:?}"),
    }
    assert_eq!(shape.dims(), &vec![1, 3]);
    Ok(())
}

#[test]
fn quantized_products_refuse_what_does_not_fit() -> Result<(), Error> {
    let weights = quantize(&[1.0, 2.0], &[1, 2], GgmlDType::F32)?;
    let storage = CpuStorage::F32(floats(&[1.0; 6]));
    let message = |weights: &QTensor, dims: Vec<usize>, stride: Vec<usize>| {
        let layout = Layout { shape: Shape::from_dims(dims), stride, start_offset: 0 };
        weights.cpu_fwd(&Reference, &storage, &layout).unwrap_err().message()
    };
    assert_eq!(
        message(&weights, vec![2, 2], vec![1, 2]),
        "input tensor is not contiguous Layout { shape: [2, 2], stride: [1, 2], start_offset: 0 }"
    );
    assert_eq!(
        message(&weights, vec![2], vec![1]),
        "input tensor has only one dimension Layout { shape: [2], stride: [1], start_offset: 0 }"
    );
    assert_eq!(
        message(&weights, vec![2, 3], vec![3, 1]),
        "input tensor Layout { shape: [2, 3], stride: [3, 1], start_offset: 0 } incompatible with [1, 2]"
    );
    let flat = quantize(&[1.0, 2.0], &[2], GgmlDType::F32)?;
    assert_eq!(
        message(&flat, vec![2, 2], vec![2, 1]),
        "unexpected rank, expected: 2, got: 1 ([2])"
    );
    let raw = quantize(&[1.0; 32], &[1, 32], GgmlDType::Q8HP1)?;
    assert_eq!(
        message(&raw, vec![1, 32], vec![32, 1]),
        "matmul is not implemented for Q8HP1"
    );
    let gpu = QTensor::new(
        QStorage::Cuda(GpuStorage { dtype: GgmlDType::F32, gpu_id: 0 }),
        Shape::from_dims(vec![1, 2]),
    )?;
    assert_eq!(message(&gpu, vec![2, 2], vec![2, 1]), "Invalid storage");
    let pair = Layout::row_after_row(Shape::from_dims(vec![2, 2]));
    assert_eq!(
        weights
            .cpu_fwd(&Reference, &CpuStorage::I64(vec![0; 4]), &pair)
            .unwrap_err()
            .message(),
        "Expected f32/f16"
    );
    assert_eq!(
        weights.cpu_fwd(&Careless, &storage, &pair).unwrap_err().message(),
        "F32 kernel filled 1 entries, expected 2"
    );
    assert_eq!(
        weights
            .cpu_fwd(&Careless, &CpuStorage::F16(vec![0; 4]), &pair)
            .unwrap_err()
            .message(),
        "refused"
    );
    Ok(())
}

#[test]
fn gpu_tensors_need_their_runtime() -> Result<(), Error> {
    let gpu = QTensor::new(
        QStorage::Cuda(GpuStorage { dtype: GgmlDType::Q4_0, gpu_id: 3 }),
        Shape::from_dims(vec![1, 32]),
    )?;
    assert!(matches!(gpu.device(), Device::Cuda { gpu_id: 3 }));
    assert_eq!(gpu.storage_size_in_bytes(), 0);
    let needs = "the candle crate has not been built with cuda support";
    assert_eq!(gpu.data().unwrap_err().message(), needs);
    assert_eq!(gpu.device_ptr().unwrap_err().message(), needs);
    assert_eq!(gpu.dequantize(&Reference, &Device::Cpu).unwrap_err().message(), needs);
    let there = Tensor::from_storage(
        Storage::Cuda { gpu_id: 3, dtype: DType::F32 },
        Shape::from_dims(vec![1, 32]),
    );
    assert_eq!(gpu.indexed_moe_forward(&there, &there).unwrap_err().message(), needs);
    let host = quantize(&[1.0], &[1], GgmlDType::F32)?;
    assert_eq!(host.device_ptr().unwrap_err().message(), "not implemented");
    Ok(())
}

#[test]
fn matrices_stay_quantized_unless_asked() -> Result<(), Error> {
    let plain = quantize(&[1.0, 2.0], &[1, 2], GgmlDType::BF16)?;
    assert!(matches!(
        QMatMul::from_qtensor(&Reference, plain, false, false)?,
        QMatMul::Tensor(_)
    ));
    let blocks = Arc::new(quantize(&[1.0; 32], &[1, 32], GgmlDType::Q8_0)?);
    let kept = QMatMul::from_arc(&Reference, blocks.clone(), false, false)?;
    match &kept {
        QMatMul::QTensor(same) => assert!(Arc::ptr_eq(same, &blocks)),
        other => panic!("expected quantized blocks, got {other:?}"),
    }
    assert!(matches!(
        QMatMul::from_arc(&Reference, blocks.clone(), true, true)?,
        QMatMul::Tensor(_)
    ));
    let halves = QMatMul::from_arc(&Reference, blocks.clone(), false, true)?;
    match &halves {
        QMatMul::TensorF16(tensor) => assert_eq!(tensor.dtype(), DType::F16),
        other => panic!("expected F16 values, got {other:?}"),
    }
    assert_eq!(
        values(&halves.dequantize_f16(&Reference)?),
        values(&kept.dequantize_f16(&Reference)?)
    );
    let raw = quantize(&[1.0; 32], &[1, 32], GgmlDType::Q8H1)?;
    assert!(QMatMul::from_qtensor(&Reference, raw, true, false).is_err());
    Ok(())
}

#[test]
fn switches_are_on_for_any_value_but_zero() {
    assert_eq!(DEQUANTIZE_ALL, "CANDLE_DEQUANTIZE_ALL");
    assert_eq!(DEQUANTIZE_ALL_F16, "CANDLE_DEQUANTIZE_ALL_F16");
    assert!(!is_switched_on(None));
    assert!(!is_switched_on(Some("")));
    assert!(!is_switched_on(Some("0")));
    assert!(is_switched_on(Some("1")));
    assert!(is_switched_on(Some("00")));
    assert!(is_switched_on(Some("no")));
}

#[test]
fn products_agree_whatever_the_matrix_is_kept_as() -> Result<(), Error> {
    let source = [1.0, 2.0, 3.0, 4.0];
    let quantized = QMatMul::QTensor(Arc::new(quantize(&source, &[2, 2], GgmlDType::F16)?));
    let plain = QMatMul::Tensor(tensor(&source, &[2, 2]));
    let halves = QMatMul::TensorF16(tensor(&source, &[2, 2]).to_dtype(&Reference, DType::F16)?);
    for dims in [vec![2, 2], vec![1, 2, 2], vec![1, 1, 2, 2]] {
        let xs = tensor(&[1.0, 0.0, 1.0, 1.0], &dims);
        for matrix in [&quantized, &plain, &halves] {
            let product = matrix.forward(&Reference, &xs)?;
            assert_eq!(values(&product), [1.0, 3.0, 3.0, 7.0]);
            assert_eq!(product.shape.dims(), &dims);
            assert_eq!(product.dtype(), DType::F32);
            let via = matrix.forward_via_f16(&Reference, &xs)?;
            assert_eq!(values(&via), [1.0, 3.0, 3.0, 7.0]);
            assert_eq!(via.dtype(), DType::F32);
        }
    }
    let xs = tensor(&[1.0; 4], &[2, 2]);
    assert_eq!(plain.forward(&Careless, &xs).unwrap_err().message(), "refused");
    Ok(())
}

#[test]
fn rows_quantize_alone_to_the_same_bytes() -> Result<(), Error> {
    let values: Vec<f32> = (0..192).map(|i| (i * i % 37) as f32 - 11.5).collect();
    for (dtype, size) in [(GgmlDType::Q8H1, 44), (GgmlDType::Q8HP1, 40)] {
        let whole = quantize(&values, &[3, 64], dtype)?;
        for i in 0..3 {
            let alone = quantize(&values[i * 64..(i + 1) * 64], &[64], dtype)?;
            assert_eq!(alone.data()?, &whole.data()?[i * 2 * size..(i + 1) * 2 * size]);
        }
    }
    Ok(())
}

#[test]
fn quantizing_onto_the_host_agrees_with_quantizing() -> Result<(), Error> {
    let values: Vec<f32> = (0..64).map(|i| i as f32 / 3.0).collect();
    for dtype in [GgmlDType::F32, GgmlDType::F16, GgmlDType::BF16, GgmlDType::Q8_0] {
        let source = tensor(&values, &[2, 32]);
        let onto = QTensor::quantize_onto(&Reference, &source, dtype, &Device::Cpu)?;
        let here = QTensor::quantize(&Reference, &source, dtype)?;
        assert_eq!(onto.data()?, here.data()?);
        assert_eq!(onto.dtype(), here.dtype());
        assert_eq!(onto.shape().dims(), here.shape().dims());
    }
    Ok(())
}

#[test]
fn looked_up_rows_are_rows_of_the_whole() -> Result<(), Error> {
    let source: Vec<f32> = (0..192).map(|i| (i % 29) as f32 - 14.0).collect();
    for dtype in [GgmlDType::F16, GgmlDType::Q8_0] {
        let table = quantize(&source, &[3, 64], dtype)?;
        let whole = values(&table.dequantize(&Reference, &Device::Cpu)?);
        let ids = [2u32, 0, 2, 1];
        let looked_up = values(&table.embedding(
            &Reference,
            &Tensor::from_storage(
                Storage::Cpu(CpuStorage::U32(ids.to_vec())),
                Shape::from_dims(vec![4]),
            ),
        )?);
        for (i, id) in ids.iter().enumerate() {
            let id = *id as usize;
            assert_eq!(looked_up[i * 64..(i + 1) * 64], whole[id * 64..(id + 1) * 64]);
        }
    }
    Ok(())
}

#[test]
fn quantized_products_of_aqua_inputs_are_refused() -> Result<(), Error> {
    let source = [1.0, 2.0, 3.0, 4.0];
    let quantized = QMatMul::QTensor(Arc::new(quantize(&source, &[2, 2], GgmlDType::F16)?));
    let far = tensor(&[1.0; 4], &[2, 2]).to_device(&Device::new_aqua(0)?)?;
    assert_eq!(
        quantized.forward(&Reference, &far).unwrap_err().message(),
        "quantized storage is not supported on Aqua devices"
    );
    Ok(())
}

#[test]
fn cloned_matrices_are_the_same() -> Result<(), Error> {
    let blocks = Arc::new(quantize(&[1.0; 32], &[1, 32], GgmlDType::Q8_0)?);
    match QMatMul::QTensor(blocks.clone()).clone() {
        QMatMul::QTensor(same) => assert!(Arc::ptr_eq(&same, &blocks)),
        other => panic!("expected quantized blocks, got {other:?}"),
    }
    match QMatMul::Tensor(tensor(&[1.0, 2.0], &[1, 2])).clone() {
        QMatMul::Tensor(same) => {
            assert_eq!(values(&same), [1.0, 2.0]);
            assert_eq!(same.shape.dims(), &vec![1, 2]);
        }
        other => panic!("expected plain values, got {other:?}"),
    }
    Ok(())
}

#[test]
fn errors_of_block_kernels_are_passed_on() -> Result<(), Error> {
    assert_eq!(
        QTensor::quantize(&Careless, &tensor(&[1.0], &[1]), GgmlDType::BF16)
            .unwrap_err()
            .message(),
        "refused"
    );
    let table = quantize(&[1.0, 2.0], &[1, 2], GgmlDType::BF16)?;
    assert_eq!(
        table.dequantize(&Careless, &Device::Cpu).unwrap_err().message(),
        "refused"
    );
    let ids = Tensor::from_storage(
        Storage::Cpu(CpuStorage::U32(vec![0])),
        Shape::from_dims(vec![1]),
    );
    assert_eq!(table.embedding(&Careless, &ids).unwrap_err().message(), "refused");
    Ok(())
}

#[test]
fn matrices_look_rows_up_too() -> Result<(), Error> {
    let source = [1.0, 2.0, 3.0, 4.0];
    let quantized = QMatMul::QTensor(Arc::new(quantize(&source, &[2, 2], GgmlDType::F32)?));
    let plain = QMatMul::Tensor(tensor(&source, &[2, 2]));
    let ids = Tensor::from_storage(
        Storage::Cpu(CpuStorage::U32(vec![1, 0])),
        Shape::from_dims(vec![2, 1]),
    );
    for matrix in [&quantized, &plain] {
        let rows = matrix.embedding(&Reference, &ids)?;
        assert_eq!(values(&rows), [3.0, 4.0, 1.0, 2.0]);
        assert_eq!(rows.shape.dims(), &vec![2, 1, 2]);
    }
    assert_eq!(
        plain.embedding(&Careless, &ids).unwrap_err().message(),
        "shape mismatch in reshape, lhs: [1], rhs: [2, 1, 2]"
    );
    let scalar = QMatMul::Tensor(tensor(&[1.0], &[]));
    assert_eq!(
        scalar.embedding(&Reference, &ids).unwrap_err().message(),
        "dim: dimension index -1 out of range for shape []"
    );
    Ok(())
}
