use plinth::vsync::{
    removals_fit_in, Client, Delivery, FrameId, Mode, VsyncRequest, VsyncSchedule, MAX_WINDOWS,
};

fn schedule_of(requests: &[VsyncRequest]) -> VsyncSchedule {
    let mut schedule = VsyncSchedule::new();
    for r in requests {
        schedule.apply_request(*r);
    }
    schedule
}

#[test]
fn requests_keep_clients_sorted_by_window() {
    let rate = 30.0f64.to_bits();
    let schedule = schedule_of(&[
        VsyncRequest::AtFrame(5, FrameId(10)),
        VsyncRequest::AtFrameRate(3, rate, 2),
        VsyncRequest::AtFrame(7, FrameId(4)),
    ]);
    assert_eq!(schedule.len(), 3);
    assert_eq!(schedule.client(0).hwnd, 3);
    assert_eq!(schedule.client(1).hwnd, 5);
    assert_eq!(schedule.client(2).hwnd, 7);
    assert_eq!(schedule.find(5), Ok(1));
    assert_eq!(schedule.find(4), Err(1));
    assert_eq!(schedule.find(9), Err(3));
    assert_eq!(
        schedule.client(0),
        Client { hwnd: 3, mode: Mode::ForFps { interval: 2, requested: rate, next: FrameId(0) } }
    );
}

#[test]
fn a_second_request_replaces_the_first() {
    let mut schedule = schedule_of(&[VsyncRequest::AtFrame(5, FrameId(10))]);
    schedule.apply_request(VsyncRequest::AtFrame(5, FrameId(20)));
    assert_eq!(schedule.len(), 1);
    assert_eq!(schedule.client(0), Client { hwnd: 5, mode: Mode::AtFrame(FrameId(20)) });
}

#[test]
fn idle_removes_the_client_and_ignores_unknown_windows() {
    let mut schedule = schedule_of(&[
        VsyncRequest::AtFrame(5, FrameId(10)),
        VsyncRequest::AtFrame(7, FrameId(10)),
    ]);
    schedule.apply_request(VsyncRequest::Idle(5));
    assert_eq!(schedule.len(), 1);
    assert_eq!(schedule.find(5), Err(0));
    schedule.apply_request(VsyncRequest::Idle(42));
    assert_eq!(schedule.len(), 1);
    assert_eq!(schedule.client(0).hwnd, 7);
}

#[test]
fn dispatch_delivers_due_clients_and_advances_rates() {
    let rate = 30.0f64.to_bits();
    let mut schedule = schedule_of(&[
        VsyncRequest::AtFrameRate(3, rate, 2),
        VsyncRequest::AtFrame(7, FrameId(10)),
    ]);
    let first = schedule.dispatch(FrameId(0));
    assert_eq!(first, vec![Delivery { index: Some(0), hwnd: 3, interval: Some(2) }]);
    assert_eq!(
        schedule.client(0).mode,
        Mode::ForFps { interval: 2, requested: rate, next: FrameId(2) }
    );
    // Not due yet: the rate client waits for frame 2.
    assert_eq!(schedule.dispatch(FrameId(1)), vec![]);
    // Late by eight frames: the rate client catches up on the grid.
    let late = schedule.dispatch(FrameId(10));
    assert_eq!(
        late,
        vec![
            Delivery { index: Some(0), hwnd: 3, interval: Some(2) },
            Delivery { index: None, hwnd: 7, interval: None },
        ]
    );
    assert_eq!(
        schedule.client(0).mode,
        Mode::ForFps { interval: 2, requested: rate, next: FrameId(12) }
    );
    // The single-frame request was answered and left the schedule.
    assert_eq!(schedule.len(), 1);
    assert_eq!(schedule.find(7), Err(1));
}

#[test]
fn catch_up_rounds_up_to_the_next_grid_frame() {
    let rate = 20.0f64.to_bits();
    let mut schedule = schedule_of(&[VsyncRequest::AtFrameRate(1, rate, 3)]);
    schedule.dispatch(FrameId(0));
    // Next is 3; at frame 7 the client is due and moves past 7 on the grid
    // of 3 that started at 0.
    schedule.dispatch(FrameId(7));
    assert_eq!(
        schedule.client(0).mode,
        Mode::ForFps { interval: 3, requested: rate, next: FrameId(12) }
    );
}

#[test]
fn remove_failed_removes_each_listed_position() {
    let mut schedule = schedule_of(&[
        VsyncRequest::AtFrame(1, FrameId(0)),
        VsyncRequest::AtFrame(2, FrameId(0)),
        VsyncRequest::AtFrame(3, FrameId(0)),
        VsyncRequest::AtFrame(4, FrameId(0)),
    ]);
    schedule.remove_failed(&vec![0, 2]);
    assert_eq!(schedule.len(), 2);
    assert_eq!(schedule.client(0).hwnd, 2);
    assert_eq!(schedule.client(1).hwnd, 4);
}

#[test]
fn set_interval_changes_only_rate_clients() {
    let rate = 60.0f64.to_bits();
    let mut schedule = schedule_of(&[
        VsyncRequest::AtFrameRate(1, rate, 1),
        VsyncRequest::AtFrame(2, FrameId(9)),
    ]);
    schedule.set_interval(0, 4);
    schedule.set_interval(1, 4);
    assert_eq!(
        schedule.client(0).mode,
        Mode::ForFps { interval: 4, requested: rate, next: FrameId(0) }
    );
    assert_eq!(schedule.client(1).mode, Mode::AtFrame(FrameId(9)));
}

#[test]
fn remove_failed_removes_the_last_listed_position_first() {
    let mut schedule = schedule_of(&[
        VsyncRequest::AtFrame(1, FrameId(0)),
        VsyncRequest::AtFrame(2, FrameId(0)),
        VsyncRequest::AtFrame(3, FrameId(0)),
        VsyncRequest::AtFrame(4, FrameId(0)),
    ]);
    assert!(removals_fit_in(4, &vec![2, 0]));
    schedule.remove_failed(&vec![2, 0]);
    assert_eq!(schedule.len(), 2);
    assert_eq!(schedule.client(0).hwnd, 2);
    assert_eq!(schedule.client(1).hwnd, 3);
}

#[test]
fn removals_must_each_find_a_client() {
    assert!(removals_fit_in(0, &vec![]));
    assert!(removals_fit_in(2, &vec![0, 1]));
    assert!(!removals_fit_in(2, &vec![1, 0]));
    assert!(removals_fit_in(2, &vec![0, 0]));
    assert!(!removals_fit_in(2, &vec![1, 1]));
    assert!(!removals_fit_in(1, &vec![1]));
    assert!(!removals_fit_in(1, &vec![0, 0]));
}

#[test]
fn a_single_frame_request_is_answered_once_and_at_once_when_passed() {
    let mut schedule = schedule_of(&[
        VsyncRequest::AtFrame(5, FrameId(3)),
        VsyncRequest::AtFrame(6, FrameId(30)),
    ]);
    assert_eq!(
        schedule.dispatch(FrameId(10)),
        vec![Delivery { index: None, hwnd: 5, interval: None }]
    );
    // Answered once: the window is not notified again.
    assert_eq!(schedule.dispatch(FrameId(11)), vec![]);
    assert_eq!(schedule.len(), 1);
    assert_eq!(schedule.client(0).hwnd, 6);
    assert_eq!(
        schedule.dispatch(FrameId(30)),
        vec![Delivery { index: None, hwnd: 6, interval: None }]
    );
    assert_eq!(schedule.len(), 0);
}

#[test]
fn a_tick_applies_pending_requests_in_order() {
    let mut schedule = schedule_of(&[VsyncRequest::AtFrame(5, FrameId(10))]);
    let pending = vec![
        VsyncRequest::AtFrame(9, FrameId(3)),
        VsyncRequest::Idle(5),
        VsyncRequest::AtFrame(2, FrameId(1)),
        VsyncRequest::AtFrame(9, FrameId(8)),
    ];
    assert_eq!(schedule.apply_requests(&pending), Ok(()));
    assert_eq!(schedule.len(), 2);
    assert_eq!(schedule.client(0), Client { hwnd: 2, mode: Mode::AtFrame(FrameId(1)) });
    assert_eq!(schedule.client(1), Client { hwnd: 9, mode: Mode::AtFrame(FrameId(8)) });
    // The idled window gets nothing from the dispatch that follows.
    let deliveries = schedule.dispatch(FrameId(20));
    assert!(deliveries.iter().all(|d| d.hwnd != 5));
    assert_eq!(deliveries.len(), 2);
    assert_eq!(schedule.len(), 0);
}

#[test]
fn a_tick_stops_at_the_first_request_without_room() {
    let mut schedule = VsyncSchedule::new();
    let mut pending: Vec<VsyncRequest> =
        (0..MAX_WINDOWS as isize).map(|h| VsyncRequest::AtFrame(h, FrameId(1))).collect();
    pending.push(VsyncRequest::AtFrame(0, FrameId(2)));
    pending.push(VsyncRequest::AtFrame(1000, FrameId(2)));
    pending.push(VsyncRequest::Idle(0));
    assert_eq!(schedule.apply_requests(&pending), Err(MAX_WINDOWS + 1));
    assert_eq!(schedule.len(), MAX_WINDOWS);
    assert_eq!(schedule.client(0), Client { hwnd: 0, mode: Mode::AtFrame(FrameId(2)) });
    assert_eq!(schedule.find(1000), Err(MAX_WINDOWS));
}

#[test]
fn a_rate_change_updates_reached_rate_clients_and_reports_the_others() {
    let rate = 30.0f64.to_bits();
    let mut schedule = schedule_of(&[
        VsyncRequest::AtFrameRate(3, rate, 2),
        VsyncRequest::AtFrame(5, FrameId(10)),
        VsyncRequest::AtFrameRate(7, rate, 2),
        VsyncRequest::AtFrameRate(9, rate, 2),
    ]);
    let failed = schedule.rate_changed(&vec![true, true, false, true], &vec![4, 4, 4, 1]);
    assert_eq!(failed, vec![2]);
    assert_eq!(
        schedule.client(0).mode,
        Mode::ForFps { interval: 4, requested: rate, next: FrameId(0) }
    );
    assert_eq!(schedule.client(1).mode, Mode::AtFrame(FrameId(10)));
    assert_eq!(
        schedule.client(2).mode,
        Mode::ForFps { interval: 2, requested: rate, next: FrameId(0) }
    );
    assert_eq!(
        schedule.client(3).mode,
        Mode::ForFps { interval: 1, requested: rate, next: FrameId(0) }
    );
}
