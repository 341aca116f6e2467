//! Shaping the logits of a forward pass for the decode steps: one flat vector
//! for each position that is to be decided.

use crate::tensor::{
    chunk, squeeze, squeezed, tensor_device, tensor_dims, tensor_dtype, tensor_start_offset,
    tensor_stride, to_dtype,
};
use candle_core::{DType, Error, Tensor};
use vstd::prelude::*;

verus! {

/// Why logits could not be shaped.
#[derive(Debug)]
pub enum LogitsError {
    /// A tensor operation failed.
    Computation(Error),
    /// Without their leading axes of size one, the logits have `rank` axes
    /// and not the single one of a vector over the vocabulary.
    NotFlat { rank: usize },
    /// The logits have no position axis of length `expected`; `found` is the
    /// length of that axis, if there is one.
    PositionMismatch { expected: usize, found: Option<usize> },
}

/// The shape of logits without the batch axis and the position axis, where
/// these have size one.
pub open spec fn flat_dims(dims: Seq<usize>) -> Seq<usize>
    recommends
        dims.len() > 0,
        squeezed(dims, 0).len() > 0,
{
    squeezed(squeezed(dims, 0), 0)
}

/// Hands `logits` on if they are a vector, and refuses them otherwise.
pub fn require_vector(logits: Tensor) -> (r: Result<Tensor, LogitsError>)
    ensures
        match r {
            Ok(vector) => vector == logits && tensor_dims(logits).len() == 1,
            Err(LogitsError::NotFlat { rank }) => rank == tensor_dims(logits).len() && rank != 1,
            Err(_) => false,
        },
{
    let rank = logits.dims().len();
    if rank != 1 {
        return Err(LogitsError::NotFlat { rank });
    }
    Ok(logits)
}

/// Whether the outcome of flattening is the device's to decide: the tensor
/// is not on the CPU, and an axis is to be dropped or the elements are to be
/// cast.
pub open spec fn device_decides(logits: Tensor) -> bool
    recommends
        tensor_dims(logits).len() > 0,
{
    !(tensor_device(logits) is Cpu) && (tensor_dims(logits)[0] == 1 || tensor_dtype(logits)
        != DType::F32)
}

/// Drops the batch axis and the position axis of the logits of one position,
/// where these have size one, and casts the elements to single precision.
///
/// Logits without an axis, and logits that have none left after the first is
/// dropped, are refused with the tensor library's error. Of the others, those
/// that are a vector once shaped come back as that vector, in single
/// precision and on the device they were on, and those that are not are
/// refused as `NotFlat`; only where the device decides may the tensor
/// library's error come instead.
pub fn flatten_logits(logits: &Tensor) -> (r: Result<Tensor, LogitsError>)
    ensures
        match r {
            Ok(flat) => {
                &&& tensor_dims(*logits).len() > 0
                &&& squeezed(tensor_dims(*logits), 0).len() > 0
                &&& tensor_dims(flat) == flat_dims(tensor_dims(*logits))
                &&& tensor_dims(flat).len() == 1
                &&& tensor_dtype(flat) == DType::F32
                &&& tensor_device(flat) == tensor_device(*logits)
            },
            Err(LogitsError::NotFlat { rank }) => {
                &&& tensor_dims(*logits).len() > 0
                &&& squeezed(tensor_dims(*logits), 0).len() > 0
                &&& rank == flat_dims(tensor_dims(*logits)).len()
                &&& rank != 1
            },
            Err(LogitsError::Computation(_)) => {
                ||| tensor_dims(*logits).len() == 0
                ||| squeezed(tensor_dims(*logits), 0).len() == 0
                ||| device_decides(*logits)
            },
            Err(LogitsError::PositionMismatch { .. }) => false,
        },
        tensor_dims(*logits).len() == 0 || squeezed(tensor_dims(*logits), 0).len() == 0 ==> r is Err
            && r->Err_0 is Computation,
{
    let without_batch = match squeeze(logits, 0) {
        Ok(t) => t,
        Err(e) => {
            return Err(LogitsError::Computation(e));
        },
    };
    let without_position = match squeeze(&without_batch, 0) {
        Ok(t) => t,
        Err(e) => {
            return Err(LogitsError::Computation(e));
        },
    };
    let flat = match to_dtype(&without_position, DType::F32) {
        Ok(t) => t,
        Err(e) => {
            return Err(LogitsError::Computation(e));
        },
    };
    require_vector(flat)
}

/// The shape of the logits of one candidate position: that of the whole
/// tensor, with the position axis of length one.
pub open spec fn candidate_dims(dims: Seq<usize>) -> Seq<usize>
    recommends
        dims.len() >= 2,
{
    dims.update(1, 1usize)
}

/// Cuts logits that span `n_toks` candidate positions into the logits of
/// each position, in position order: part `i` begins in the storage where
/// position `i` lies. Logits whose position axis (the second) does not have
/// length `n_toks` are refused, and no others.
pub fn split_candidates(logits: &Tensor, n_toks: usize) -> (r: Result<Vec<Tensor>, LogitsError>)
    ensures
        r is Ok <==> tensor_dims(*logits).len() >= 2 && tensor_dims(*logits)[1] == n_toks,
        match r {
            Ok(parts) => {
                &&& parts@.len() == n_toks
                &&& forall|i: int|
                    0 <= i < parts@.len() ==> {
                        &&& #[trigger] tensor_dims(parts@[i]) == candidate_dims(
                            tensor_dims(*logits),
                        )
                        &&& tensor_dtype(parts@[i]) == tensor_dtype(*logits)
                        &&& tensor_device(parts@[i]) == tensor_device(*logits)
                        &&& tensor_stride(parts@[i]) == tensor_stride(*logits)
                        &&& tensor_start_offset(parts@[i]) as int == tensor_start_offset(*logits)
                            + tensor_stride(*logits)[1] * i
                    }
            },
            Err(LogitsError::PositionMismatch { expected, found }) => {
                &&& expected == n_toks
                &&& found == if tensor_dims(*logits).len() >= 2 {
                    Some(tensor_dims(*logits)[1])
                } else {
                    None
                }
            },
            Err(_) => false,
        },
{
    let dims = logits.dims();
    if dims.len() < 2 {
        return Err(LogitsError::PositionMismatch { expected: n_toks, found: None });
    }
    if dims[1] != n_toks {
        return Err(LogitsError::PositionMismatch { expected: n_toks, found: Some(dims[1]) });
    }
    if n_toks == 0 {
        return Ok(Vec::new());
    }
    match chunk(logits, n_toks, 1) {
        Ok(parts) => {
            proof {
                let size = n_toks as int;
                assert(size / size == 1 && size % size == 0) by (nonlinear_arith)
                    requires
                        size > 0,
                ;
                assert forall|i: int| 0 <= i < parts@.len() implies {
                    &&& #[trigger] tensor_dims(parts@[i]) == candidate_dims(tensor_dims(*logits))
                    &&& tensor_start_offset(parts@[i]) as int == tensor_start_offset(*logits)
                        + tensor_stride(*logits)[1] * i
                } by {
                    assert(tensor_dims(parts@[i]) =~= candidate_dims(tensor_dims(*logits)));
                    assert(tensor_dtype(parts@[i]) == tensor_dtype(*logits));
                    assert(crate::tensor::chunk_start(size, size, i) == i);
                }
            }
            Ok(parts)
        },
        Err(e) => Err(LogitsError::Computation(e)),
    }
}

} // verus!
