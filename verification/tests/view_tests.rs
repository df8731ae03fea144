use tensoru::view::{check_size, checked_size, fix_1_sized_dims_strides, strides_from_shape, ShapeError, View};

#[test]
fn test_strides_from_shape_simple() {
    let shape = [2, 2];
    assert_eq!(vec![2, 1], strides_from_shape(&shape));
}

#[test]
fn test_1_sized_dim_stride() {
    assert_eq!(
        vec![2, 0, 1],
        fix_1_sized_dims_strides(&[2, 1, 2], vec![2, 2, 1])
    );
}

#[test]
fn size_simple() {
    let v = View::new(&[2, 2], &[2, 1]).unwrap();
    assert_eq!(4, v.size(), "mismatched view size");
    assert!(v.is_contiguous());
}

#[test]
fn test_indexing_expr() {
    let v = View::from_shape(&[32, 16, 8]);
    println!("{}", v.indexing_expr("buff", &["i", "j", "k"]).unwrap());
}

#[test]
fn test_permute_axes_simple() {
    let v = View::from_shape(&[32, 16]);
    let reversed_strides: Vec<usize> = v.strides().iter().rev().copied().collect();
    let pv = v.permute_axes(&[1, 0]).unwrap();
    assert_eq!([16, 32], pv.shape());
    assert_eq!(&reversed_strides, pv.strides());

    println!("{}", pv.indexing_expr("buff", &["i", "j"]).unwrap());
}

#[test]
fn test_permute_axes_two_last() {
    let v = View::from_shape(&[64, 32, 16]);
    let pv = v.permute_axes(&[0, 2, 1]).unwrap();
    assert_eq!([64, 16, 32], pv.shape());
    assert_eq!([512, 1, 16], pv.strides());
}

#[test]
#[should_panic]
fn test_permute_axes_missing_axis() {
    let v = View::from_shape(&[32, 16]);
    v.permute_axes(&[1]).unwrap();
}

#[test]
fn test_reshape_simple() {
    let v = View::from_shape(&[3, 2]);
    assert!(v.reshape(&[2, 3]).is_some());
}

#[test]
fn test_reshape_simple_after_permute() {
    let v = View::from_shape(&[3, 2]);
    let pv = v.permute_axes(&[1, 0]).unwrap();
    assert!(pv.reshape(&[3, 2]).is_none());
}

#[test]
fn indexing_expr_two_by_two() {
    let v = View::new(&[2, 2], &[2, 1]).unwrap();
    let e = v.indexing_expr("buff", &["i", "j"]).unwrap();
    assert_eq!("buff[0 + i * 2 + j * 1]", e.as_str());
}

#[test]
fn indexing_expr_rank_zero() {
    let v = View::from_shape(&[]);
    let e = v.indexing_expr("buff", &[]).unwrap();
    assert_eq!("buff[0]", e.as_str());
}

#[test]
fn permute_reverses_strides_exactly() {
    let v = View::from_shape(&[32, 16]);
    assert_eq!([16, 1], v.strides());
    let pv = v.permute_axes(&[1, 0]).unwrap();
    assert_eq!([16, 32], pv.shape());
    assert_eq!([1, 16], pv.strides());
    assert!(!pv.is_contiguous());
}

#[test]
fn permute_round_trip_restores_view() {
    let v = View::new(&[4, 3, 2], &[1, 4, 12]).unwrap();
    let p = [2, 0, 1];
    let inverse = [1, 2, 0];
    let back = v
        .permute_axes(&p)
        .unwrap()
        .permute_axes(&inverse)
        .unwrap();
    assert_eq!(v.shape(), back.shape());
    assert_eq!(v.strides(), back.strides());
}

#[test]
fn from_shape_is_contiguous() {
    assert!(View::from_shape(&[7]).is_contiguous());
    assert!(View::from_shape(&[3, 1, 5]).is_contiguous());
    assert!(View::from_shape(&[]).is_contiguous());
}

#[test]
fn unit_axes_have_stride_zero() {
    assert_eq!([0], View::from_shape(&[1]).strides());
    assert_eq!([6, 0, 2, 1], View::from_shape(&[5, 1, 3, 2]).strides());
    // `new` applies the fixup irrespective of the given strides.
    let v = View::new(&[1, 2], &[5, 1]).unwrap();
    assert_eq!([0, 1], v.strides());
    // permuting keeps the fixed-up strides with their axes
    let pv = v.permute_axes(&[1, 0]).unwrap();
    assert_eq!([2, 1], pv.shape());
    assert_eq!([1, 0], pv.strides());
}

#[test]
fn new_rank_mismatch() {
    assert_eq!(
        Err(ShapeError::RankMismatch),
        View::new(&[2, 2], &[1]).map(|_| ())
    );
}

#[test]
fn indexing_expr_rank_mismatch() {
    let v = View::from_shape(&[2, 2]);
    assert_eq!(
        Err(ShapeError::RankMismatch),
        v.indexing_expr("buff", &["i"]).map(|_| ())
    );
}

#[test]
fn permute_axes_invalid_permutation() {
    let v = View::from_shape(&[2, 2]);
    assert_eq!(
        Err(ShapeError::InvalidPermutation),
        v.permute_axes(&[0, 0]).map(|_| ())
    );
    assert_eq!(
        Err(ShapeError::InvalidPermutation),
        v.permute_axes(&[0, 2]).map(|_| ())
    );
}

#[test]
fn reshape_contiguous_succeeds_with_matching_product() {
    let v = View::from_shape(&[4, 6]);
    let r = v.reshape(&[2, 3, 4]).unwrap();
    assert_eq!([2, 3, 4], r.shape());
    assert_eq!([12, 4, 1], r.strides());
    assert!(r.is_contiguous());
}

#[test]
fn reshape_identity_keeps_non_contiguous_view() {
    let v = View::from_shape(&[3, 2]);
    let pv = v.permute_axes(&[1, 0]).unwrap();
    assert!(!pv.is_contiguous());
    let r = pv.reshape(&[2, 3]).unwrap();
    assert_eq!(pv.shape(), r.shape());
    assert_eq!(pv.strides(), r.strides());
    assert_eq!(pv.is_contiguous(), r.is_contiguous());
}

#[test]
fn size_with_zero_extent() {
    let v = View::from_shape(&[3, 0, 2]);
    assert_eq!(0, v.size());
    assert_eq!([0, 2, 1], v.strides());
}

#[test]
fn checked_size_matches_product() {
    assert_eq!(Some(1), checked_size(&[]));
    assert_eq!(Some(24), checked_size(&[2, 3, 4]));
    assert_eq!(Some(0), checked_size(&[usize::MAX, 0, usize::MAX]));
    assert_eq!(None, checked_size(&[usize::MAX, 2]));
}

#[test]
fn check_size_reports_product_mismatch() {
    assert_eq!(Ok(()), check_size(&[2, 3], 6));
    assert_eq!(Err(ShapeError::SizeMismatch), check_size(&[2, 3], 5));
    assert_eq!(Err(ShapeError::SizeMismatch), check_size(&[usize::MAX, 2], 10));
}
