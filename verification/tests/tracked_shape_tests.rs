use tensoru::tracked_shape::TrackedShape;
use tensoru::view::View;

#[test]
fn shape() {
    let initial_view = View::new(&[2, 2], &[1, 1]).unwrap();
    let ts = TrackedShape::new(initial_view.clone());

    assert_eq!(initial_view.shape(), ts.shape());
}

#[test]
fn accessors_delegate_to_last_view() {
    let first = View::from_shape(&[4, 6]);
    let second = View::from_shape(&[2, 3, 4]);
    let chain = TrackedShape::new(first).compose(TrackedShape::new(second.clone()));
    assert_eq!(second.shape(), chain.shape());
    assert_eq!(second.strides(), chain.strides());
    assert_eq!(24, chain.size());
}

#[test]
fn compose_keeps_composing() {
    let a = TrackedShape::new(View::from_shape(&[8]));
    let b = TrackedShape::new(View::from_shape(&[2, 4]));
    let c = TrackedShape::new(View::from_shape(&[4, 2]));
    let chain = a.compose(b).compose(c);
    assert_eq!([4, 2], chain.shape());
    assert_eq!([2, 1], chain.strides());
}
