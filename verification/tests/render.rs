use plinth::render::{
    count_windows, decide_after_tick, decide_while_paused, AppMessage, ClockControl,
    ClockDecision, ClockMessage, OutputTable, WindowId,
};

#[test]
fn window_ids_are_reused_most_recent_first() {
    let mut table = OutputTable::<&str>::new();
    let a = table.new_window("a");
    let b = table.new_window("b");
    let c = table.new_window("c");
    assert_eq!((a, b, c), (WindowId(0), WindowId(1), WindowId(2)));
    assert_eq!(table.destroy_window(a).map(|o| o.swapchain), Some("a"));
    assert_eq!(table.destroy_window(c).map(|o| o.swapchain), Some("c"));
    assert!(table.destroy_window(c).is_none());
    assert_eq!(table.new_window("d"), WindowId(2));
    assert_eq!(table.new_window("e"), WindowId(0));
    assert_eq!(table.new_window("f"), WindowId(3));
    assert_eq!(table.output(WindowId(2)).swapchain, "d");
}

#[test]
fn the_clock_runs_while_any_window_draws_on_vsync() {
    let mut table = OutputTable::<u8>::new();
    let a = table.new_window(0);
    let b = table.new_window(1);
    assert_eq!(table.enable_vsync(a), Some(ClockControl::Start));
    assert_eq!(table.enable_vsync(b), None);
    assert_eq!(table.vsync_windows(), vec![a, b]);
    assert_eq!(table.disable_vsync(a), None);
    assert_eq!(table.vsync_windows(), vec![b]);
    assert_eq!(table.disable_vsync(b), Some(ClockControl::Stop));
    assert_eq!(table.vsync_windows(), vec![]);
    assert!(!table.output(a).is_vsync_enabled);
}

#[test]
fn destroying_a_vsync_window_releases_its_enable() {
    let mut table = OutputTable::<u8>::new();
    let a = table.new_window(0);
    let b = table.new_window(1);
    table.enable_vsync(a);
    let out = table.destroy_window(a).unwrap();
    assert!(out.is_vsync_enabled);
    assert_eq!(table.enable_vsync(b), Some(ClockControl::Start));
}

#[test]
fn clock_decisions_after_a_tick() {
    assert_eq!(decide_after_tick(&vec![]), ClockDecision::Continue);
    assert_eq!(decide_after_tick(&vec![ClockMessage::Stop]), ClockDecision::Pause);
    assert_eq!(decide_after_tick(&vec![ClockMessage::Stop, ClockMessage::Start]), ClockDecision::Continue);
    assert_eq!(decide_after_tick(&vec![ClockMessage::Stop, ClockMessage::Stop, ClockMessage::Start]), ClockDecision::Pause);
    assert_eq!(decide_after_tick(&vec![ClockMessage::Start, ClockMessage::Exit, ClockMessage::Stop]), ClockDecision::Exit);
}

#[test]
fn clock_decisions_while_paused() {
    assert_eq!(decide_while_paused(ClockMessage::Start), Some(ClockDecision::Continue));
    assert_eq!(decide_while_paused(ClockMessage::Exit), Some(ClockDecision::Exit));
    assert_eq!(decide_while_paused(ClockMessage::Stop), None);
}

#[test]
fn the_application_stops_when_the_last_window_closes() {
    assert_eq!(count_windows(0, AppMessage::WindowCreated), (1, false));
    assert_eq!(count_windows(2, AppMessage::WindowClosed), (1, false));
    assert_eq!(count_windows(1, AppMessage::WindowClosed), (0, true));
}
