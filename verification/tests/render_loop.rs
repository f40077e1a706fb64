use rsys_cli::events::{Config, Event, DEFAULT_TICK_RATE};
use rsys_cli::render_loop::{Dispatch, LoopState, RenderLoop};
use rsys_cli::widget::PollError;

#[test]
fn exit_key_terminates_within_one_cycle() {
    let mut rl = RenderLoop::new();
    assert!(rl.should_draw());
    let d = rl.on_event(&Event::Input('q'), 'q');
    assert_eq!(d, Dispatch::Exit);
    assert_eq!(rl.state, LoopState::Terminated);
    assert!(!rl.should_draw());
}

#[test]
fn other_keys_are_ignored() {
    let mut rl = RenderLoop::new();
    let d = rl.on_event(&Event::Input('x'), 'q');
    assert_eq!(d, Dispatch::Ignored);
    assert_eq!(rl.state, LoopState::Running);
    assert!(rl.should_draw());
}

#[test]
fn tick_requests_an_update() {
    let mut rl = RenderLoop::new();
    let d = rl.on_event(&Event::<char>::Tick, 'q');
    assert_eq!(d, Dispatch::RunUpdate);
    assert!(rl.should_draw());
}

#[test]
fn failed_update_overlays_for_one_tick() {
    let mut rl = RenderLoop::new();
    rl.note_update(Err(PollError { index: 2, label: String::from("cpu2") }));
    assert_eq!(rl.overlay.as_deref(), Some("cpu2"));
    rl.note_update(Ok(()));
    assert_eq!(rl.overlay, None);
}

#[test]
fn config_new_sets_exit_key_and_rate() {
    let c = Config::new(250);
    assert_eq!(c.exit_key, 'q');
    assert_eq!(c.tick_rate_ms, 250);
}

#[test]
fn config_default_rate_is_one_second() {
    let c = Config::default();
    assert_eq!(c.exit_key, 'q');
    assert_eq!(c.tick_rate_ms, DEFAULT_TICK_RATE);
    assert_eq!(c.tick_rate_ms, 1000);
}

#[test]
fn config_new_or_default_picks_the_given_rate() {
    assert_eq!(Config::new_or_default(Some(250)), Config::new(250));
    assert_eq!(Config::new_or_default(None), Config::default());
}
