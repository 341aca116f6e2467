//! The tensor library as this crate sees it: opaque tensors whose shape is
//! named, and the few shape operations that the decode steps make.

use candle_core::{CudaDevice, DType, Device, Error, MetalDevice, Tensor};
use vstd::prelude::*;

verus! {

/// `candle_core::Tensor`, carried through without a look inside.
#[verifier::external_type_specification]
#[verifier::external_body]
pub struct ExTensor(Tensor);

/// `candle_core::Error`, carried through without a look inside.
#[verifier::external_type_specification]
#[verifier::external_body]
pub struct ExError(Error);

/// `candle_core::DType`, with its variants as the crate declares them.
#[verifier::external_type_specification]
pub struct ExDType(DType);

/// `candle_core::CudaDevice`, carried through without a look inside.
#[verifier::external_type_specification]
#[verifier::external_body]
pub struct ExCudaDevice(CudaDevice);

/// `candle_core::MetalDevice`, carried through without a look inside.
#[verifier::external_type_specification]
#[verifier::external_body]
pub struct ExMetalDevice(MetalDevice);

/// `candle_core::Device`, with its variants as the crate declares them.
#[verifier::external_type_specification]
pub struct ExDevice(Device);

/// The size of a tensor along each of its axes, outermost first.
pub uninterp spec fn tensor_dims(t: Tensor) -> Seq<usize>;

/// The type of a tensor's elements: what `Tensor::dtype` returns.
pub uninterp spec fn tensor_dtype(t: Tensor) -> DType;

/// The device that a tensor lives on: what `Tensor::device` returns.
pub uninterp spec fn tensor_device(t: Tensor) -> Device;

/// Where in its storage a tensor's first element lies: the start offset of
/// its layout.
pub uninterp spec fn tensor_start_offset(t: Tensor) -> usize;

/// How far apart in its storage two neighbours along each axis lie: what
/// `Tensor::stride` returns.
pub uninterp spec fn tensor_stride(t: Tensor) -> Seq<usize>;

/// `Tensor::dims`: the sizes along the axes.
pub assume_specification[ Tensor::dims ](t: &Tensor) -> (r: &[usize])
    ensures
        r@ == tensor_dims(*t),
;

/// `Device::is_cuda`: whether the device is the `Cuda` variant.
pub assume_specification[ Device::is_cuda ](d: &Device) -> (r: bool)
    ensures
        r == (d is Cuda),
;

/// The shape after `squeeze`: axis `dim` is dropped where its size is one,
/// and the shape is kept otherwise.
pub open spec fn squeezed(dims: Seq<usize>, dim: int) -> Seq<usize>
    recommends
        0 <= dim < dims.len(),
{
    if dims[dim] == 1 {
        dims.remove(dim)
    } else {
        dims
    }
}

/// `Tensor::squeeze` with an axis index. It fails where the tensor has no
/// axis `dim`. Where the axis is there, it succeeds if the axis is kept (the
/// tensor itself comes back) and on the CPU; on another device, dropping the
/// axis may take a copy that the device can refuse. A tensor that comes back
/// has the squeezed shape, and the element type and the device of `t`.
#[verifier::external_body]
pub(crate) fn squeeze(t: &Tensor, dim: usize) -> (r: Result<Tensor, Error>)
    ensures
        dim >= tensor_dims(*t).len() ==> r is Err,
        dim < tensor_dims(*t).len() && (tensor_dims(*t)[dim as int] != 1 || tensor_device(*t) is Cpu)
            ==> r is Ok,
        r matches Ok(s) ==> {
            &&& tensor_dims(s) == squeezed(tensor_dims(*t), dim as int)
            &&& tensor_dtype(s) == tensor_dtype(*t)
            &&& tensor_device(s) == tensor_device(*t)
        },
{
    t.squeeze(dim)
}

/// `Tensor::to_dtype`. It succeeds where the tensor has the element type
/// already (the tensor itself comes back) and on the CPU; on another device
/// the cast is the device's to refuse. A tensor that comes back has the shape
/// and the device of `t`, and the element type asked for.
#[verifier::external_body]
pub(crate) fn to_dtype(t: &Tensor, dtype: DType) -> (r: Result<Tensor, Error>)
    ensures
        tensor_dtype(*t) == dtype || tensor_device(*t) is Cpu ==> r is Ok,
        r matches Ok(s) ==> {
            &&& tensor_dims(s) == tensor_dims(*t)
            &&& tensor_dtype(s) == dtype
            &&& tensor_device(s) == tensor_device(*t)
        },
{
    t.to_dtype(dtype)
}

/// How many parts `chunk` cuts an axis of `size` into when asked for `chunks`.
pub open spec fn chunk_count(size: int, chunks: int) -> int {
    if size < chunks {
        size
    } else {
        chunks
    }
}

/// The size along the cut axis of part `i`.
pub open spec fn chunk_len(size: int, chunks: int, i: int) -> int
    recommends
        chunks > 0,
{
    if size < chunks {
        1
    } else if i < size % chunks {
        size / chunks + 1
    } else {
        size / chunks
    }
}

/// The index along the cut axis at which part `i` begins: the lengths of
/// the parts before it, added up.
pub open spec fn chunk_start(size: int, chunks: int, i: int) -> int
    recommends
        chunks > 0,
{
    if size < chunks {
        i
    } else if i < size % chunks {
        i * (size / chunks) + i
    } else {
        i * (size / chunks) + size % chunks
    }
}

/// `Tensor::chunk` with an axis index. It fails where the tensor has no axis
/// `dim` and succeeds where it has one: cutting is arithmetic on the shape.
/// The parts are as many as `chunk_count` says, in order along the axis. Each
/// has the shape of `t` but for axis `dim`, where it has the size that
/// `chunk_len` says; it has the element type, the device and the strides of
/// `t`, and begins in the storage where the index `chunk_start` along axis
/// `dim` lies.
#[verifier::external_body]
pub(crate) fn chunk(t: &Tensor, chunks: usize, dim: usize) -> (r: Result<Vec<Tensor>, Error>)
    requires
        chunks > 0,
    ensures
        dim >= tensor_dims(*t).len() ==> r is Err,
        dim < tensor_dims(*t).len() ==> r is Ok,
        r matches Ok(parts) ==> {
            &&& dim < tensor_dims(*t).len()
            &&& parts@.len() == chunk_count(tensor_dims(*t)[dim as int] as int, chunks as int)
            &&& forall|i: int|
                0 <= i < parts@.len() ==> (#[trigger] tensor_dims(parts@[i])).len()
                    == tensor_dims(*t).len()
            &&& forall|i: int, k: int|
                0 <= i < parts@.len() && 0 <= k < tensor_dims(*t).len() ==> (
                #[trigger] tensor_dims(parts@[i])[k]) as int == (if k == dim {
                    chunk_len(tensor_dims(*t)[dim as int] as int, chunks as int, i)
                } else {
                    tensor_dims(*t)[k] as int
                })
            &&& forall|i: int|
                0 <= i < parts@.len() ==> {
                    &&& #[trigger] tensor_dtype(parts@[i]) == tensor_dtype(*t)
                    &&& tensor_device(parts@[i]) == tensor_device(*t)
                    &&& tensor_stride(parts@[i]) == tensor_stride(*t)
                    &&& tensor_start_offset(parts@[i]) as int == tensor_start_offset(*t)
                        + tensor_stride(*t)[dim as int] * chunk_start(
                        tensor_dims(*t)[dim as int] as int,
                        chunks as int,
                        i,
                    )
                }
        },
{
    t.chunk(chunks, dim)
}

} // verus!
