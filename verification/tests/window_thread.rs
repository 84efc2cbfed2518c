use plinth::window_thread::{ThreadAction, ThreadEvent, ThreadMode, ThreadState};

#[test]
fn a_new_thread_is_idle() {
    let s = ThreadState::new();
    assert_eq!(s.mode, ThreadMode::Idle);
    assert!(!s.need_repaint && !s.repaint_now && !s.is_drag_resizing);
}

#[test]
fn destroy_closes_and_ends_the_thread() {
    let mut s = ThreadState::new();
    let (go_on, actions) = s.on_event(ThreadEvent::Destroy);
    assert!(!go_on);
    assert_eq!(actions, vec![ThreadAction::Destroy]);
    assert_eq!(s.mode, ThreadMode::Closed);
}

#[test]
fn other_events_keep_the_thread_going() {
    let mut s = ThreadState::new();
    let (go_on, actions) = s.on_event(ThreadEvent::CloseRequest);
    assert!(go_on);
    assert_eq!(actions, vec![ThreadAction::CloseRequest]);
    let (go_on, actions) = s.on_event(ThreadEvent::Visible(false));
    assert!(go_on);
    assert_eq!(actions, vec![ThreadAction::Visible(false)]);
    assert_eq!(s, ThreadState::new());
}

#[test]
fn a_drag_resize_resizes_the_swapchain_flexibly() {
    let mut s = ThreadState::new();
    let (_, actions) = s.on_event(ThreadEvent::BeginResize);
    assert_eq!(actions, vec![ThreadAction::BeginResize]);
    assert!(s.is_drag_resizing);
    let (_, actions) = s.on_event(ThreadEvent::Resize { width: 640, height: 480 });
    assert_eq!(
        actions,
        vec![
            ThreadAction::ResizeSwapchain { width: 640, height: 480, flexible: true },
            ThreadAction::StoreSize { width: 640, height: 480, is_visible: true },
            ThreadAction::Resize { width: 640, height: 480 },
        ]
    );
    let (_, actions) = s.on_event(ThreadEvent::EndResize);
    assert_eq!(
        actions,
        vec![ThreadAction::ResizeSwapchainToStoredSize, ThreadAction::EndResize]
    );
    assert!(!s.is_drag_resizing);
}

#[test]
fn a_resize_to_nothing_hides_the_window() {
    let mut s = ThreadState::new();
    let (_, actions) = s.on_event(ThreadEvent::Resize { width: 0, height: 300 });
    assert_eq!(
        actions,
        vec![
            ThreadAction::ResizeSwapchain { width: 0, height: 300, flexible: false },
            ThreadAction::StoreSize { width: 0, height: 300, is_visible: false },
            ThreadAction::Resize { width: 0, height: 300 },
        ]
    );
}

#[test]
fn animation_repaints_every_few_vblanks() {
    let mut s = ThreadState::new();
    let (_, actions) = s.on_event(ThreadEvent::SetAnimationFrequency(Some(2)));
    assert!(actions.is_empty());
    assert_eq!(s.mode, ThreadMode::Animating { vblanks_since_last_present: 2 });
    assert!(s.on_vblank());
    assert_eq!(s.mode, ThreadMode::Animating { vblanks_since_last_present: 0 });
    s.repainted();
    assert!(!s.on_vblank());
    assert_eq!(s.mode, ThreadMode::Animating { vblanks_since_last_present: 1 });
    assert!(s.on_vblank());
    s.on_event(ThreadEvent::SetAnimationFrequency(None));
    assert_eq!(s.mode, ThreadMode::Idle);
}

#[test]
fn a_repaint_request_repaints_at_once() {
    let mut s = ThreadState::new();
    let (go_on, actions) = s.on_event(ThreadEvent::Repaint);
    assert!(go_on && actions.is_empty());
    assert!(s.need_repaint && s.repaint_now);
    s.repainted();
    assert!(!s.need_repaint && !s.repaint_now);
}
