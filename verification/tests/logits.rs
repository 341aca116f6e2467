use candle_core::{DType, Device, Tensor};
use mistralrs_core::logits::{flatten_logits, require_vector, split_candidates, LogitsError};

#[test]
fn flatten_drops_the_two_leading_axes_and_casts() {
    let logits = Tensor::new(&[[[1f64, 2., 3., 4., 5.]]], &Device::Cpu).expect("a tensor");
    assert_eq!(logits.dims(), &[1, 1, 5]);
    let flat = flatten_logits(&logits).expect("logits of one position");
    assert_eq!(flat.dims(), &[5]);
    assert_eq!(flat.dtype(), DType::F32);
    assert_eq!(flat.to_vec1::<f32>().expect("a vector"), vec![1., 2., 3., 4., 5.]);
}

#[test]
fn flatten_keeps_a_vector_as_it_is() {
    let logits = Tensor::new(&[0.5f32, -1.5, 2.5], &Device::Cpu).expect("a tensor");
    let flat = flatten_logits(&logits).expect("a vector already");
    assert_eq!(flat.dims(), &[3]);
    assert_eq!(flat.to_vec1::<f32>().expect("a vector"), vec![0.5, -1.5, 2.5]);
}

#[test]
fn flatten_takes_one_leading_axis_too() {
    let logits = Tensor::new(&[[7u32, 8, 9, 10]], &Device::Cpu).expect("a tensor");
    let flat = flatten_logits(&logits).expect("one axis to drop");
    assert_eq!(flat.dims(), &[4]);
    assert_eq!(flat.dtype(), DType::F32);
    assert_eq!(flat.to_vec1::<f32>().expect("a vector"), vec![7., 8., 9., 10.]);
}

#[test]
fn flatten_refuses_logits_of_several_positions() {
    let logits = Tensor::zeros((2, 3, 5), DType::F32, &Device::Cpu).expect("a tensor");
    match flatten_logits(&logits) {
        Err(LogitsError::NotFlat { rank }) => assert_eq!(rank, 3),
        other => panic!("expected NotFlat, got {:?}", other.map(|t| t.dims().to_vec())),
    }
    let logits = Tensor::zeros((1, 3, 5), DType::F32, &Device::Cpu).expect("a tensor");
    match flatten_logits(&logits) {
        Err(LogitsError::NotFlat { rank }) => assert_eq!(rank, 2),
        other => panic!("expected NotFlat, got {:?}", other.map(|t| t.dims().to_vec())),
    }
}

#[test]
fn flatten_refuses_a_scalar() {
    let logits = Tensor::new(1f32, &Device::Cpu).expect("a tensor");
    assert!(matches!(flatten_logits(&logits), Err(LogitsError::Computation(_))));
    let logits = Tensor::new(&[1f32], &Device::Cpu).expect("a tensor");
    assert!(matches!(flatten_logits(&logits), Err(LogitsError::Computation(_))));
}

#[test]
fn split_cuts_one_part_for_each_position() {
    let logits = Tensor::new(
        &[[[1f32, 2., 3., 4., 5.], [6., 7., 8., 9., 10.], [11., 12., 13., 14., 15.]]],
        &Device::Cpu,
    )
    .expect("a tensor");
    let parts = split_candidates(&logits, 3).expect("three positions");
    assert_eq!(parts.len(), 3);
    let mut rows = Vec::new();
    for part in &parts {
        assert_eq!(part.dims(), &[1, 1, 5]);
        let flat = flatten_logits(part).expect("logits of one position");
        rows.push(flat.to_vec1::<f32>().expect("a vector"));
    }
    assert_eq!(
        rows,
        vec![
            vec![1., 2., 3., 4., 5.],
            vec![6., 7., 8., 9., 10.],
            vec![11., 12., 13., 14., 15.]
        ]
    );
}

#[test]
fn split_refuses_another_number_of_positions() {
    let logits = Tensor::zeros((1, 3, 5), DType::F32, &Device::Cpu).expect("a tensor");
    for n_toks in [0usize, 1, 2, 4, 6] {
        match split_candidates(&logits, n_toks) {
            Err(LogitsError::PositionMismatch { expected, found }) => {
                assert_eq!(expected, n_toks);
                assert_eq!(found, Some(3));
            }
            other => panic!("expected PositionMismatch, got {:?}", other.map(|p| p.len())),
        }
    }
}

#[test]
fn split_refuses_logits_without_a_position_axis() {
    let logits = Tensor::zeros(5, DType::F32, &Device::Cpu).expect("a tensor");
    match split_candidates(&logits, 5) {
        Err(LogitsError::PositionMismatch { expected, found }) => {
            assert_eq!(expected, 5);
            assert_eq!(found, None);
        }
        other => panic!("expected PositionMismatch, got {:?}", other.map(|p| p.len())),
    }
}

#[test]
fn split_of_no_position_is_empty() {
    let logits = Tensor::zeros((1, 0, 5), DType::F32, &Device::Cpu).expect("a tensor");
    let parts = split_candidates(&logits, 0).expect("no position");
    assert!(parts.is_empty());
}

#[test]
fn only_a_vector_is_handed_on() {
    let vector = Tensor::new(&[1f32, 2., 3.], &Device::Cpu).expect("a tensor");
    let same = require_vector(vector).expect("a vector");
    assert_eq!(same.to_vec1::<f32>().expect("a vector"), vec![1., 2., 3.]);
    let scalar = Tensor::new(1f32, &Device::Cpu).expect("a tensor");
    assert!(matches!(require_vector(scalar), Err(LogitsError::NotFlat { rank: 0 })));
    let matrix = Tensor::zeros((2, 3), DType::F32, &Device::Cpu).expect("a tensor");
    assert!(matches!(require_vector(matrix), Err(LogitsError::NotFlat { rank: 2 })));
}

#[test]
fn split_parts_begin_where_their_positions_lie() {
    let whole = Tensor::arange(0f32, 25., &Device::Cpu)
        .and_then(|t| t.reshape((1, 5, 5)))
        .expect("a tensor");
    let logits = whole.narrow(1, 1, 3).expect("three positions out of five");
    assert_eq!(logits.layout().start_offset(), 5);
    let parts = split_candidates(&logits, 3).expect("three positions");
    for (i, part) in parts.iter().enumerate() {
        assert_eq!(part.dims(), &[1, 1, 5]);
        assert_eq!(part.dtype(), DType::F32);
        assert_eq!(part.stride(), logits.stride());
        assert_eq!(part.layout().start_offset(), 5 + 5 * i);
        let first = 5. * (i as f32 + 1.);
        assert_eq!(
            flatten_logits(part).expect("one position").to_vec1::<f32>().expect("a vector"),
            vec![first, first + 1., first + 2., first + 3., first + 4.]
        );
    }
}

#[test]
fn flatten_copies_logits_that_are_not_contiguous() {
    let column = Tensor::new(&[[[1f64]], [[2.]], [[3.]], [[4.]]], &Device::Cpu).expect("a tensor");
    let logits = column.transpose(0, 2).expect("axes 0 and 2");
    assert_eq!(logits.dims(), &[1, 1, 4]);
    assert!(!logits.is_contiguous());
    let flat = flatten_logits(&logits).expect("on the CPU nothing is refused");
    assert_eq!(flat.dims(), &[4]);
    assert_eq!(flat.dtype(), DType::F32);
    assert!(matches!(flat.device(), Device::Cpu));
    assert_eq!(flat.to_vec1::<f32>().expect("a vector"), vec![1., 2., 3., 4.]);
}

#[test]
fn flatten_refuses_logits_with_nothing_left_after_one_axis() {
    for dtype in [DType::U8, DType::U32, DType::I64, DType::BF16, DType::F16, DType::F32, DType::F64] {
        let vector = Tensor::zeros(3, dtype, &Device::Cpu).expect("a tensor");
        let flat = flatten_logits(&vector).expect("a vector of any element type");
        assert_eq!(flat.dtype(), DType::F32);
        assert_eq!(flat.dims(), &[3]);
        let single = Tensor::zeros(1, dtype, &Device::Cpu).expect("a tensor");
        assert!(matches!(flatten_logits(&single), Err(LogitsError::Computation(_))));
    }
}
