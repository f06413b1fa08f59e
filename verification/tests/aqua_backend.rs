//! The AQuA device and its storage.

use candle_aqua::aqua_backend::storage::{CmpOp, CpuBackend, ReduceOp};
use candle_aqua::aqua_backend::{
    AquaDevice, AquaDispatch, AquaExecutor, AquaGgufTensorRequest, AquaMatMulRequest, AquaStorage,
    CpuFallbackAquaExecutor,
};
use candle_aqua::cpu_storage::{BF16Bits, CpuStorage, DType, F16Bits, F32Bits, F64Bits};
use candle_aqua::device::{Device, DeviceLocation};
use candle_aqua::error::Error;
use candle_aqua::gguf_file::GgufTypeProfile;
use candle_aqua::quantized::GgmlDType;
use candle_aqua::shape::{Layout, Shape};
use candle_aqua::tensor::{Storage, Tensor};
use std::sync::atomic::{AtomicUsize, Ordering};
use std::sync::Arc;

#[derive(Debug, Default)]
struct RecordingExecutor {
    matmuls: AtomicUsize,
}

impl AquaExecutor for RecordingExecutor {
    fn name(&self) -> &'static str {
        "recording"
    }

    fn matmul(&self, request: AquaMatMulRequest<'_>) -> Result<AquaDispatch<CpuStorage>, Error> {
        self.matmuls.fetch_add(1, Ordering::SeqCst);
        assert_eq!(request.bmnk, (1, 2, 2, 2));
        Ok(AquaDispatch::Executed(floats(&[19.0, 22.0, 43.0, 50.0])))
    }
}

#[derive(Clone, Copy, Debug)]
enum MalformedOutputExecutor {
    DType,
    Length,
}

#[derive(Debug)]
struct QuotedNameExecutor;

impl AquaExecutor for QuotedNameExecutor {
    fn name(&self) -> &'static str {
        "a\"b"
    }
}

impl AquaExecutor for MalformedOutputExecutor {
    fn name(&self) -> &'static str {
        "malformed-output"
    }

    fn matmul(&self, _request: AquaMatMulRequest<'_>) -> Result<AquaDispatch<CpuStorage>, Error> {
        let output = match self {
            Self::DType => CpuStorage::I64(vec![0; 4]),
            Self::Length => floats(&[0.0; 3]),
        };
        Ok(AquaDispatch::Executed(output))
    }
}

/// The host operations that these tests need, on F32 values.
struct Host;

fn missing<T>() -> Result<T, Error> {
    Err(Error::Msg("not available".to_string()))
}

fn values(storage: &CpuStorage) -> Vec<f32> {
    match storage {
        CpuStorage::F32(bits) => bits.iter().map(|bits| f32::from_bits(*bits)).collect(),
        other => panic!("expected F32 values, got {other:?}"),
    }
}

fn floats(values: &[f32]) -> CpuStorage {
    CpuStorage::F32(values.iter().map(|value| value.to_bits()).collect())
}

fn at(layout: &Layout, row: usize, column: usize) -> usize {
    layout.start_offset + row * layout.stride[0] + column * layout.stride[1]
}

impl CpuBackend for Host {
    type Scalar = u32;
    type Conv1D = ();
    type ConvTranspose1D = ();
    type Conv2D = ();
    type ConvTranspose2D = ();

    fn zeros(&self, shape: &Shape, dtype: DType) -> Result<CpuStorage, Error> {
        match dtype {
            DType::F32 => Ok(CpuStorage::F32(vec![0; shape.elem_count()])),
            DType::I64 => Ok(CpuStorage::I64(vec![0; shape.elem_count()])),
            _ => missing(),
        }
    }

    fn rand_uniform(&self, shape: &Shape, _: DType, min: u64, _: u64) -> Result<CpuStorage, Error> {
        Ok(floats(&vec![f64::from_bits(min) as f32; shape.elem_count()]))
    }

    fn rand_normal(&self, shape: &Shape, _: DType, mean: u64, _: u64) -> Result<CpuStorage, Error> {
        Ok(floats(&vec![f64::from_bits(mean) as f32; shape.elem_count()]))
    }

    fn set_seed(&self, seed: u64) -> Result<(), Error> {
        if seed == 0 {
            missing()
        } else {
            Ok(())
        }
    }

    fn get_current_seed(&self) -> Result<u64, Error> {
        Ok(299792458)
    }

    fn matmul(
        &self,
        lhs: &CpuStorage,
        rhs: &CpuStorage,
        bmnk: (usize, usize, usize, usize),
        lhs_layout: &Layout,
        rhs_layout: &Layout,
    ) -> Result<CpuStorage, Error> {
        let (_, m, n, k) = bmnk;
        let (lhs, rhs) = (values(lhs), values(rhs));
        let mut product = vec![0f32; m * n];
        for row in 0..m {
            for column in 0..n {
                for inner in 0..k {
                    product[row * n + column] +=
                        lhs[at(lhs_layout, row, inner)] * rhs[at(rhs_layout, inner, column)];
                }
            }
        }
        Ok(floats(&product))
    }

    fn try_clone(&self, src: &CpuStorage, _: &Layout) -> Result<CpuStorage, Error> {
        Ok(src.clone())
    }

    fn affine(&self, src: &CpuStorage, _: &Layout, mul: u64, add: u64) -> Result<CpuStorage, Error> {
        let (mul, add) = (f64::from_bits(mul) as f32, f64::from_bits(add) as f32);
        let result: Vec<f32> = values(src).iter().map(|value| value * mul + add).collect();
        Ok(floats(&result))
    }

    fn powf(&self, _: &CpuStorage, _: &Layout, _: u64) -> Result<CpuStorage, Error> {
        missing()
    }

    fn elu(&self, _: &CpuStorage, _: &Layout, _: u64) -> Result<CpuStorage, Error> {
        missing()
    }

    fn reduce_op(&self, src: &CpuStorage, op: ReduceOp, _: &Layout, _: &Vec<usize>) -> Result<CpuStorage, Error> {
        match op {
            ReduceOp::Sum => Ok(floats(&[values(src).iter().sum()])),
            _ => missing(),
        }
    }

    fn cmp(&self, _: &CpuStorage, _: CmpOp, _: &CpuStorage, _: &Layout, _: &Layout) -> Result<CpuStorage, Error> {
        missing()
    }

    fn to_dtype(&self, _: &CpuStorage, _: &Layout, _: DType) -> Result<CpuStorage, Error> {
        missing()
    }

    fn unary_impl(&self, src: &CpuStorage, op: &str, _: &Layout) -> Result<CpuStorage, Error> {
        if op != "relu" {
            return missing();
        }
        let result: Vec<f32> = values(src).iter().map(|value| value.max(0.0)).collect();
        Ok(floats(&result))
    }

    fn binary_impl(&self, src: &CpuStorage, op: &str, rhs: &CpuStorage, _: &Layout, _: &Layout) -> Result<CpuStorage, Error> {
        if op != "add" {
            return missing();
        }
        let result: Vec<f32> = values(src).iter().zip(values(rhs)).map(|(a, b)| a + b).collect();
        Ok(floats(&result))
    }

    fn where_cond(&self, _: &CpuStorage, _: &Layout, _: &CpuStorage, _: &Layout, _: &CpuStorage, _: &Layout) -> Result<CpuStorage, Error> {
        missing()
    }

    fn conv1d(&self, _: &CpuStorage, _: &Layout, _: &CpuStorage, _: &Layout, _: &()) -> Result<CpuStorage, Error> {
        missing()
    }

    fn conv_transpose1d(&self, _: &CpuStorage, _: &Layout, _: &CpuStorage, _: &Layout, _: &()) -> Result<CpuStorage, Error> {
        missing()
    }

    fn conv2d(&self, _: &CpuStorage, _: &Layout, _: &CpuStorage, _: &Layout, _: &()) -> Result<CpuStorage, Error> {
        missing()
    }

    fn conv_transpose2d(&self, _: &CpuStorage, _: &Layout, _: &CpuStorage, _: &Layout, _: &()) -> Result<CpuStorage, Error> {
        missing()
    }

    fn avg_pool2d(&self, _: &CpuStorage, _: &Layout, _: (usize, usize), _: (usize, usize)) -> Result<CpuStorage, Error> {
        missing()
    }

    fn max_pool2d(&self, _: &CpuStorage, _: &Layout, _: (usize, usize), _: (usize, usize)) -> Result<CpuStorage, Error> {
        missing()
    }

    fn upsample_nearest1d(&self, _: &CpuStorage, _: &Layout, _: usize) -> Result<CpuStorage, Error> {
        missing()
    }

    fn upsample_nearest2d(&self, _: &CpuStorage, _: &Layout, _: usize, _: usize) -> Result<CpuStorage, Error> {
        missing()
    }

    fn upsample_bilinear2d(&self, _: &CpuStorage, _: &Layout, _: usize, _: usize, _: bool, _: Option<u64>, _: Option<u64>) -> Result<CpuStorage, Error> {
        missing()
    }

    fn gather(&self, _: &CpuStorage, _: &Layout, _: &CpuStorage, _: &Layout, _: usize) -> Result<CpuStorage, Error> {
        missing()
    }

    fn index_select(&self, _: &CpuStorage, _: &CpuStorage, _: &Layout, _: &Layout, _: usize) -> Result<CpuStorage, Error> {
        missing()
    }

    fn index_add(&self, _: &CpuStorage, _: &Layout, _: &CpuStorage, _: &Layout, _: &CpuStorage, _: &Layout, _: usize) -> Result<CpuStorage, Error> {
        missing()
    }

    fn scatter_set(&self, dst: CpuStorage, _: &Layout, _: &CpuStorage, _: &Layout, _: &CpuStorage, _: &Layout, _: usize) -> (CpuStorage, Result<(), Error>) {
        (dst, missing())
    }

    fn scatter_add_set(&self, dst: CpuStorage, _: &Layout, _: &CpuStorage, _: &Layout, _: &CpuStorage, _: &Layout, _: usize) -> (CpuStorage, Result<(), Error>) {
        (dst, missing())
    }

    fn const_set(&self, dst: CpuStorage, value: u32, _: &Layout) -> (CpuStorage, Result<(), Error>) {
        (CpuStorage::F32(vec![value; dst.len()]), Ok(()))
    }

    fn copy_strided_src(&self, src: &CpuStorage, dst: CpuStorage, dst_offset: usize, _: &Layout) -> (CpuStorage, Result<(), Error>) {
        let mut result = values(&dst);
        for (i, value) in values(src).iter().enumerate() {
            result[dst_offset + i] = *value;
        }
        (floats(&result), Ok(()))
    }

    fn copy2d(&self, _: &CpuStorage, dst: CpuStorage, _: usize, _: usize, _: usize, _: usize, _: usize, _: usize) -> (CpuStorage, Result<(), Error>) {
        (dst, missing())
    }
}

fn square() -> Layout {
    Layout::row_after_row(Shape::from_dims(vec![2, 2]))
}

fn on<E>(device: &AquaDevice<E>, data: &[f32]) -> AquaStorage<E> {
    device.wrap_cpu_storage(floats(data))
}

fn tensor(data: &[f32], dims: Vec<usize>) -> Tensor {
    Tensor::from_storage(Storage::Cpu(floats(data)), Shape::from_dims(dims))
}

fn tensor_values(tensor: &Tensor) -> Vec<f32> {
    match &tensor.storage {
        Storage::Cpu(cpu) => values(cpu),
        Storage::Aqua(aqua) => values(aqua.cpu_storage()),
        other => panic!("expected host values, got {other:?}"),
    }
}

#[test]
fn creates_aqua_device() -> Result<(), Error> {
    let device = Device::new_aqua(0)?;
    assert!(device.is_aqua());
    assert_eq!(device.location(), DeviceLocation::Aqua { device_id: 0 });

    let handle = AquaDevice::new(0)?;
    assert_eq!(handle.location(), DeviceLocation::Aqua { device_id: 0 });
    assert_eq!(handle.device_id(), 0);
    assert_eq!(handle.executor().name(), "cpu-fallback");
    Ok(())
}

#[test]
fn aqua_uninitialized_allocation_uses_initialized_cpu_shadow() -> Result<(), Error> {
    let device = AquaDevice::cpu_fallback(0);
    let shape = Shape::from_dims(vec![2, 2]);
    let storage = device.alloc_uninit(&Host, &shape, DType::F32)?;
    match storage.to_cpu_storage()? {
        CpuStorage::F32(bits) => assert_eq!(bits, vec![0f32.to_bits(); 4]),
        other => panic!("expected F32 CPU shadow, got {other:?}"),
    }
    Ok(())
}

#[test]
fn moves_tensor_between_cpu_and_aqua() -> Result<(), Error> {
    let cpu = Device::Cpu;
    let aqua = Device::new_aqua(0)?;
    let original = tensor(&[1.0, 2.0, 3.0, 4.0], vec![2, 2]);

    let on_aqua = original.to_device(&aqua)?;
    assert!(on_aqua.device().is_aqua());
    assert_eq!(tensor_values(&on_aqua), vec![1.0, 2.0, 3.0, 4.0]);
    assert_eq!(on_aqua.shape.dims(), &vec![2, 2]);

    let restored = on_aqua.to_device(&cpu)?;
    assert!(restored.device().is_cpu());
    assert_eq!(tensor_values(&restored), tensor_values(&original));
    assert_eq!(restored.shape.dims(), original.shape.dims());
    Ok(())
}

#[test]
fn gpu_moves_need_their_runtime() {
    let original = tensor(&[1.0], vec![1]);
    let cuda = original.to_device(&Device::Cuda { gpu_id: 0 });
    assert_eq!(
        cuda.expect_err("no runtime").message(),
        "the candle crate has not been built with cuda support"
    );
    let metal = original.to_device(&Device::Metal { gpu_id: 0 });
    assert_eq!(
        metal.expect_err("no runtime").message(),
        "the candle crate has not been built with metal support"
    );
}

#[test]
fn cpu_fallback_matmul_matches_cpu_exactly() -> Result<(), Error> {
    let aqua = AquaDevice::new(0)?;
    let lhs_data = [1.0, 2.0, 3.0, 4.0];
    let rhs_data = [5.0, 6.0, 7.0, 8.0];

    let cpu_result = Host.matmul(
        &floats(&lhs_data),
        &floats(&rhs_data),
        (1, 2, 2, 2),
        &square(),
        &square(),
    )?;
    let aqua_result = on(&aqua, &lhs_data).matmul(
        &Host,
        &on(&aqua, &rhs_data),
        (1, 2, 2, 2),
        &square(),
        &square(),
    )?;

    assert!(aqua_result.device().same_device(&aqua));
    assert_eq!(values(aqua_result.cpu_storage()), values(&cpu_result));
    assert_eq!(values(&cpu_result), vec![19.0, 22.0, 43.0, 50.0]);
    Ok(())
}

#[test]
fn cloned_device_is_same_but_separate_device_is_not() -> Result<(), Error> {
    let first = Device::new_aqua(0)?;
    let cloned = first.clone();
    let separate = Device::new_aqua(0)?;

    assert!(first.same_device(&cloned));
    assert!(!first.same_device(&separate));
    Ok(())
}

#[test]
fn devices_are_told_apart() -> Result<(), Error> {
    let aqua = Device::new_aqua(0)?;
    let cuda = Device::Cuda { gpu_id: 0 };
    assert!(Device::Cpu.same_device(&Device::Cpu));
    assert!(!Device::Cpu.same_device(&aqua));
    assert!(!aqua.same_device(&Device::Cpu));
    assert!(cuda.same_device(&cuda.clone()));
    assert!(!cuda.same_device(&Device::Cuda { gpu_id: 1 }));
    assert!(!cuda.same_device(&Device::Metal { gpu_id: 0 }));

    let fallback = AquaDevice::new(0)?;
    let other = AquaDevice::with_executor(0, Arc::new(RecordingExecutor::default()));
    assert!(!fallback.same_device(&other));
    assert!(!other.same_device(&fallback));
    Ok(())
}

#[test]
fn devices_are_printed_with_their_executor() -> Result<(), Error> {
    assert_eq!(
        Device::new_aqua(7)?.text(),
        "Aqua(AquaDevice { device_id: 7, executor: \"cpu-fallback\" })"
    );
    assert_eq!(Device::Cpu.text(), "Cpu");
    let named = AquaDevice::with_executor(1, Arc::new(QuotedNameExecutor));
    assert_eq!(named.text(), "AquaDevice { device_id: 1, executor: \"a\\\"b\" }");
    assert_eq!(format!("{named:?}"), named.text());
    assert_eq!(
        format!("{named:#?}"),
        "AquaDevice {\n    device_id: 1,\n    executor: \"a\\\"b\",\n}"
    );
    let device = Device::new_aqua(7)?;
    assert_eq!(format!("{device:?}"), device.text());
    assert_eq!(
        format!("{:?}", named.wrap_cpu_storage(CpuStorage::U8(vec![1, 2]))),
        "AquaStorage { device: AquaDevice { device_id: 1, executor: \"a\\\"b\" }, cpu: U8([1, 2]) }"
    );
    Ok(())
}

#[test]
fn moves_between_devices_of_one_number_change_the_device() -> Result<(), Error> {
    let here = Device::new_aqua(0)?;
    let there = Device::new_aqua(0)?;
    let near = tensor(&[1.0, 2.0], vec![2]).to_device(&here)?;
    let far = near.to_device(&there)?;
    assert!(near.device().same_device(&here));
    assert!(far.device().same_device(&there));
    assert!(!far.device().same_device(&here));
    assert_eq!(tensor_values(&far), vec![1.0, 2.0]);
    Ok(())
}

#[test]
fn clones_share_the_device_and_the_values() {
    let device = AquaDevice::with_executor(2, Arc::new(CpuFallbackAquaExecutor::default()));
    let storage = on(&device, &[1.0, 2.0]);
    let copy = storage.clone();
    assert!(copy.device().same_device(&device));
    assert_eq!(values(copy.cpu_storage()), vec![1.0, 2.0]);
}

#[test]
fn cpu_shadow_tensor_ops_match_cpu() -> Result<(), Error> {
    let aqua = AquaDevice::new(0)?;
    let lhs = on(&aqua, &[1.0, -2.0, 3.0, 4.0]);
    let rhs = on(&aqua, &[2.0, 1.0, 0.5, 3.0]);
    let transposed = Layout {
        shape: Shape::from_dims(vec![2, 2]),
        stride: vec![1, 2],
        start_offset: 0,
    };

    let sum = lhs.binary_impl(&Host, "add", &rhs, &square(), &square())?;
    let positive = sum.unary_impl(&Host, "relu", &square())?;
    let result = positive.matmul(&Host, &rhs, (1, 2, 2, 2), &square(), &transposed)?;
    assert_eq!(values(result.cpu_storage()), vec![6.0, 1.5, 14.0, 22.75]);
    assert!(lhs.device().same_device(&aqua));

    let shown = tensor(&[1.0, -2.0, 3.0, 4.0], vec![2, 2]).to_device(&Device::new_aqua(0)?)?;
    assert_eq!(format!("{shown:?}"), "Tensor[dims 2, 2; f32, aqua:0]");
    assert_eq!(shown.text(), "Tensor[dims 2, 2; f32, aqua:0]");
    assert_eq!(format!("{:?}", shown.shape), "[2, 2]");
    Ok(())
}

#[test]
fn injected_executor_dispatches_matmul_and_preserves_arc_identity() -> Result<(), Error> {
    let executor = Arc::new(RecordingExecutor::default());
    let aqua = AquaDevice::with_executor(7, executor.clone());
    assert!(Arc::ptr_eq(aqua.executor(), &executor));

    let lhs = on(&aqua, &[1.0, 2.0, 3.0, 4.0]);
    let rhs = on(&aqua, &[5.0, 6.0, 7.0, 8.0]);
    let product = lhs.matmul(&Host, &rhs, (1, 2, 2, 2), &square(), &square())?;
    assert_eq!(values(product.cpu_storage()), vec![19.0, 22.0, 43.0, 50.0]);
    assert_eq!(executor.matmuls.load(Ordering::SeqCst), 1);
    Ok(())
}

#[test]
fn rejects_malformed_executor_matmul_outputs() -> Result<(), Error> {
    let cases = [
        (MalformedOutputExecutor::DType, "returned dtype"),
        (MalformedOutputExecutor::Length, "returned 3 elements"),
    ];

    for (executor, expected_message) in cases {
        let aqua = AquaDevice::with_executor(0, Arc::new(executor));
        let lhs = on(&aqua, &[1.0, 2.0, 3.0, 4.0]);
        let rhs = on(&aqua, &[5.0, 6.0, 7.0, 8.0]);
        let error = match lhs.matmul(&Host, &rhs, (1, 2, 2, 2), &square(), &square()) {
            Ok(_) => panic!("malformed executor output unexpectedly succeeded"),
            Err(error) => error,
        };
        assert!(error.message().contains(expected_message));
    }
    Ok(())
}

#[test]
fn executor_arc_identity_defines_device_identity() -> Result<(), Error> {
    let shared = Arc::new(RecordingExecutor::default());
    let first = AquaDevice::with_executor(3, shared.clone());
    let same = AquaDevice::with_executor(3, shared);
    let distinct = AquaDevice::with_executor(3, Arc::new(RecordingExecutor::default()));

    assert!(first.same_device(&same));
    assert!(!first.same_device(&distinct));

    let layout = Layout::row_after_row(Shape::from_dims(vec![1]));
    let lhs = on(&first, &[1.0]);
    let rhs = on(&distinct, &[1.0]);
    let error = match lhs.binary_impl(&Host, "add", &rhs, &layout, &layout) {
        Ok(_) => panic!("different executor Arcs unexpectedly shared a device"),
        Err(error) => error,
    };
    assert!(error.message().contains("device mismatch"));
    assert_eq!(
        error.message(),
        "device mismatch in add, lhs: Aqua { device_id: 3 }, rhs: Aqua { device_id: 3 }"
    );
    match error {
        Error::DeviceMismatchBinaryOp { lhs, rhs, op } => {
            assert_eq!(lhs, DeviceLocation::Aqua { device_id: 3 });
            assert_eq!(rhs, DeviceLocation::Aqua { device_id: 3 });
            assert_eq!(op, "add");
        }
        other => panic!("expected a device mismatch, got {other:?}"),
    }
    Ok(())
}

#[test]
fn device_number_is_part_of_the_identity() {
    let shared = Arc::new(CpuFallbackAquaExecutor);
    let first = AquaDevice::with_executor(1, shared.clone());
    let second = AquaDevice::with_executor(2, shared);
    assert!(!first.same_device(&second));
    assert!(!second.same_instance(&first));
}

#[test]
fn mismatched_in_place_operation_changes_nothing() -> Result<(), Error> {
    let here = AquaDevice::new(0)?;
    let there = AquaDevice::new(0)?;
    let layout = Layout::row_after_row(Shape::from_dims(vec![2]));
    let source = on(&here, &[7.0, 8.0]);
    let mut far = on(&there, &[1.0, 2.0]);
    assert!(source.copy_strided_src(&Host, &mut far, 0, &layout).is_err());
    assert_eq!(values(far.cpu_storage()), vec![1.0, 2.0]);

    let mut near = on(&here, &[1.0, 2.0, 3.0]);
    source.copy_strided_src(&Host, &mut near, 1, &layout)?;
    assert_eq!(values(near.cpu_storage()), vec![1.0, 7.0, 8.0]);
    near.const_set(&Host, 4.0f32.to_bits(), &layout)?;
    assert_eq!(values(near.cpu_storage()), vec![4.0; 3]);
    Ok(())
}

#[test]
fn operations_stay_on_their_device() -> Result<(), Error> {
    let device = AquaDevice::new(5)?;
    let layout = Layout::row_after_row(Shape::from_dims(vec![2]));
    let shape = Shape::from_dims(vec![2]);
    let ones = device.rand_uniform(&Host, &shape, DType::F32, 1f64.to_bits(), 2f64.to_bits())?;
    let scaled = ones.affine(&Host, &layout, 3f64.to_bits(), 1f64.to_bits())?;
    assert_eq!(values(scaled.cpu_storage()), vec![4.0, 4.0]);
    assert!(scaled.device().same_device(&device));
    let sum = scaled.reduce_op(&Host, ReduceOp::Sum, &layout, &vec![0])?;
    assert_eq!(values(sum.cpu_storage()), vec![8.0]);
    assert_eq!(
        sum.powf(&Host, &layout, 2f64.to_bits())
            .expect_err("the host has no such function")
            .message(),
        "not available"
    );
    assert_eq!(device.get_current_seed(&Host)?, 299792458);
    assert!(device.set_seed(&Host, 0).is_err());
    device.set_seed(&Host, 1)?;
    device.synchronize()?;
    let zeros = device.zeros_impl(&Host, &shape, DType::I64)?;
    assert_eq!(zeros.dtype(), DType::I64);
    let copy = device.storage_from_cpu_storage(&floats(&[9.0]))?;
    assert_eq!(values(copy.cpu_storage()), vec![9.0]);
    Ok(())
}

#[test]
fn slices_become_storage_of_their_type() -> Result<(), Error> {
    let device = AquaDevice::new(0)?;
    let numbers = device.storage_from_slice(&[3u32, 1, 2])?;
    assert!(numbers.device().same_device(&device));
    match numbers.cpu_storage() {
        CpuStorage::U32(values) => assert_eq!(values, &vec![3, 1, 2]),
        other => panic!("expected U32 values, got {other:?}"),
    }
    assert_eq!(device.storage_from_slice(&[-1i64])?.dtype(), DType::I64);
    assert_eq!(device.storage_from_slice(&[1u8])?.dtype(), DType::U8);
    assert_eq!(device.storage_from_slice(&[1i16])?.dtype(), DType::I16);
    assert_eq!(device.storage_from_slice(&[1i32])?.dtype(), DType::I32);
    let fractions = device.storage_from_slice(&[F32Bits(1.5f32.to_bits()), F32Bits(0)])?;
    assert_eq!(values(fractions.cpu_storage()), vec![1.5, 0.0]);
    match device.storage_from_slice(&[F64Bits(2.5f64.to_bits())])?.cpu_storage() {
        CpuStorage::F64(bits) => assert_eq!(bits, &vec![2.5f64.to_bits()]),
        other => panic!("expected F64 values, got {other:?}"),
    }
    assert_eq!(device.storage_from_slice(&[F16Bits(7)])?.dtype(), DType::F16);
    assert_eq!(device.storage_from_slice(&[BF16Bits(7)])?.dtype(), DType::BF16);
    Ok(())
}

#[test]
fn gguf_tensor_requests_hand_over_what_they_were_given() {
    let shape = Shape::from_dims(vec![2, 32]);
    let bytes = vec![7u8; 80];
    let request = AquaGgufTensorRequest::new(
        "blk.0.attn_q.weight",
        &shape,
        GgmlDType::Q8HP1,
        bytes.as_slice(),
        GgufTypeProfile::AquaQ8Hp1,
    );
    assert_eq!(request.name(), "blk.0.attn_q.weight");
    assert_eq!(request.shape().dims(), &vec![2, 32]);
    assert_eq!(request.dtype(), GgmlDType::Q8HP1);
    assert_eq!(request.raw_data(), bytes.as_slice());
    assert_eq!(request.profile(), GgufTypeProfile::AquaQ8Hp1);
}
