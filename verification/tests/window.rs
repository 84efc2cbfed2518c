use plinth::window::{
    PaintReason, WindowAttributes, WindowError, WindowEvent, WindowExtent, WindowPoint,
    WindowState, CW_USEDEFAULT,
};

fn state() -> WindowState {
    WindowState::new(
        String::from("main"),
        WindowExtent::new(640, 480),
        WindowPoint { x: 10, y: 20 },
        WindowExtent::new(100, 100),
        WindowExtent::max(),
        96,
        true,
        true,
    )
}

#[test]
fn a_new_state_has_its_flags() {
    let s = state();
    assert!(s.is_visible());
    assert!(s.is_resizable());
    assert!(!s.has_focus());
    assert!(!s.has_pointer());
    assert_eq!(s.paint_reason, None);
}

#[test]
fn show_and_hide() {
    let mut s = state();
    assert_eq!(s.show(false), WindowEvent::Hidden);
    assert!(!s.is_visible());
    assert!(s.is_resizable());
    assert_eq!(s.show(true), WindowEvent::Shown);
    assert!(s.is_visible());
}

#[test]
fn a_drag_resize_begins_with_the_first_size_change_and_ends_with_the_loop() {
    let mut s = state();
    s.modal_loop_enter();
    s.modal_loop_enter();
    assert_eq!(s.pos_changed(10, 20, 640, 480), vec![]);
    assert_eq!(
        s.pos_changed(10, 20, 700, 480),
        vec![WindowEvent::DragResize(true), WindowEvent::Resize(WindowExtent::new(700, 480))]
    );
    assert_eq!(s.paint_reason, Some(PaintReason::Commanded));
    assert_eq!(s.modal_loop_leave(), Some(WindowEvent::DragResize(false)));
    assert_eq!(s.modal_loop_leave(), None);
}

#[test]
fn a_move_reports_only_the_move() {
    let mut s = state();
    assert_eq!(
        s.pos_changed(30, 40, 640, 480),
        vec![WindowEvent::Move(WindowPoint { x: 30, y: 40 })]
    );
    assert_eq!(s.paint_reason, None);
}

#[test]
fn the_strongest_paint_reason_is_kept() {
    let mut s = state();
    s.paint_defer();
    assert_eq!(s.paint_reason, Some(PaintReason::Requested));
    assert_eq!(s.paint(), WindowEvent::Repaint(PaintReason::Requested));
    assert_eq!(s.paint_reason, None);
    assert_eq!(s.paint(), WindowEvent::Repaint(PaintReason::Commanded));
    let e = s.dpi_changed(144, WindowExtent::new(960, 720));
    assert_eq!(e, WindowEvent::DpiChange(144, WindowExtent::new(960, 720)));
    s.paint_defer();
    assert_eq!(s.paint_reason, Some(PaintReason::Commanded));
    assert_eq!(s.dpi, 144);
}

#[test]
fn the_pointer_enters_once() {
    let mut s = state();
    let p = WindowPoint { x: 1, y: 2 };
    assert_eq!(s.mouse_move(p), vec![WindowEvent::PointerEntered(p), WindowEvent::PointerMoved(p)]);
    assert_eq!(s.mouse_move(p), vec![WindowEvent::PointerMoved(p)]);
    assert_eq!(s.mouse_leave(), WindowEvent::PointerLeft);
    assert!(!s.has_pointer());
}

#[test]
fn tracking_limits_combine_window_and_platform() {
    let s = state();
    assert_eq!(s.min_max_info(120, 50, 4000, 3000), (120, 100, 4000, 3000));
}

#[test]
fn create_params_fill_in_platform_defaults() {
    let attrs = WindowAttributes::default();
    let p = attrs.create_params(255).unwrap();
    assert_eq!((p.x, p.y, p.width, p.height), (CW_USEDEFAULT, CW_USEDEFAULT, CW_USEDEFAULT, CW_USEDEFAULT));
    assert_eq!(p.min_size, WindowExtent::new(0, 0));
    assert_eq!(p.max_size, WindowExtent::max());
    assert!(p.is_visible && p.is_resizable);

    let attrs = WindowAttributes::default()
        .with_title(String::from("hello"))
        .with_size(WindowExtent::new(800, 600))
        .with_position(WindowPoint { x: 5, y: 6 })
        .with_min_size(WindowExtent::new(200, 100))
        .with_max_size(WindowExtent::new(1000, 900))
        .with_visibility(false)
        .with_resizability(false);
    let p = attrs.create_params(255).unwrap();
    assert_eq!((p.x, p.y, p.width, p.height), (5, 6, 800, 600));
    assert_eq!(p.min_size, WindowExtent::new(200, 100));
    assert_eq!(p.max_size, WindowExtent::new(1000, 900));
    assert!(!p.is_visible && !p.is_resizable);
}

#[test]
fn a_title_over_the_limit_is_refused() {
    let attrs = WindowAttributes::default().with_title("x".repeat(256));
    assert_eq!(attrs.create_params(255), Err(WindowError::TitleTooLong));
    let attrs = WindowAttributes::default().with_title("é".repeat(128));
    assert_eq!(attrs.create_params(255), Err(WindowError::TitleTooLong));
    let attrs = WindowAttributes::default().with_title("x".repeat(255));
    assert!(attrs.create_params(255).is_ok());
}
