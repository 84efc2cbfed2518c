use plinth::visuals::{Canvas, FromVisual, Image, Visual};

#[test]
fn visuals_are_read_by_kind() {
    let v: Visual = Canvas {}.into();
    assert!(Canvas::from_ref(&v).is_some());
    assert!(Image::from_ref(&v).is_none());
    let mut w: Visual = Image {}.into();
    assert!(Image::from_mut(&mut w).is_some());
    assert!(Canvas::from_mut(&mut w).is_none());
    assert_eq!(Image::from_node(w), Some(Image {}));
    assert_eq!(Canvas::from_node(v), Some(Canvas {}));
    assert_eq!(Canvas::from_node(Visual::Image(Image {})), None);
}
