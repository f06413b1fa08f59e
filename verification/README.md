# candle_aqua

A verified core for quantized tensors and the AQuA device:

- `src/aqua_backend*` - the AQuA device and its storage, an injected executor over host memory;
- `src/dtype.rs`, `src/ggml_file.rs`, `src/gguf_file*` - the element types of GGML and GGUF files,
  and the profiles under which a GGUF file uses the type numbers of the Q8_H family;
- `src/quantized*` - blocks, quantized tensors, embeddings and products; `src/quantized/laws.rs`
  says what holds of them from one call to the next;
- `src/convert*` - the conversion of files: which tensors are quantized, what is counted, which
  metadata change, and how the result reaches its place;
- `src/tensor.rs`, `src/shape.rs`, `src/cpu_storage.rs`, `src/device.rs`, `src/error.rs`,
  `src/names.rs`, `src/sorting.rs`, `src/text.rs`, `src/printing.rs` - what these build on.

Floating point arithmetic is not part of the library. It comes in through the traits
`aqua_backend::CpuBackend`, `tensor::Conversion`, `quantized::RowQuantizer` and
`quantized::BlockKernels`, which promise nothing; every contract says what the library does with
whatever comes back. Fractional values are kept as bit patterns.

`app/` is the command line tool around the library.
