use comelit_hub::covering::{
    PositionState, WindowCoveringConfig, WindowCoveringSettings, WindowCoveringState,
    WindowCoveringWorker, WorkerEffects, WorkerState, FULLY_CLOSED, FULLY_OPENED,
};
use comelit_hub::devices::WindowCoveringDeviceData;
use comelit_hub::protocol::{DeviceStatus, ObjectSubtype, ObjectType, WindowCoveringStatus};

fn report(status: &str, powerst: &str) -> WindowCoveringDeviceData {
    WindowCoveringDeviceData {
        id: "DOM#BL#20.1".to_string(),
        object_type: ObjectType::WindowCovering,
        sub_type: ObjectSubtype::ElectricBlind,
        status: Some(DeviceStatus::from_text(status)),
        description: None,
        power_status: Some(WindowCoveringStatus::from_text(powerst)),
    }
}

fn stopped_at(pos: u8) -> WindowCoveringState {
    WindowCoveringState { current_position: pos, target_position: pos, position_state: PositionState::Stopped }
}

fn config() -> WindowCoveringConfig {
    WindowCoveringConfig { closing_time_ms: 1600, opening_time_ms: 1600 }
}

const NOTHING: WorkerEffects = WorkerEffects { save: false, notify: false };

#[test]
fn state_test_decode() {
    // {"id":"DOM#BL#20.1","type":2,"sub_type":7,"status":"0","powerst":"0","open_status":"1",...}
    let data = report("0", "0");
    let state = WindowCoveringState::from_device_data(&data);
    assert_eq!(state.current_position, FULLY_OPENED);
    assert_eq!(state.target_position, FULLY_OPENED);
    assert_eq!(state.position_state, PositionState::Stopped);
}

#[test]
fn window_covering_test_decode() {
    let data = report("0", "0");
    let state = WindowCoveringState::from_device_data(&data);
    assert_eq!(state.current_position, FULLY_OPENED);
    assert_eq!(state.target_position, FULLY_OPENED);
    assert_eq!(state.position_state, PositionState::Stopped);
    assert!(!state.is_moving());
    assert!(!state.is_opening());
}

#[test]
fn decode_of_moving_reports() {
    let up = WindowCoveringState::from_device_data(&report("1", "1"));
    assert_eq!(up, WindowCoveringState { current_position: FULLY_CLOSED, target_position: FULLY_OPENED, position_state: PositionState::MovingUp });
    assert!(up.is_moving() && up.is_opening());
    let down = WindowCoveringState::from_device_data(&report("0", "2"));
    assert_eq!(down, WindowCoveringState { current_position: FULLY_OPENED, target_position: FULLY_CLOSED, position_state: PositionState::MovingDown });
}

#[test]
fn position_state_codes() {
    assert_eq!(PositionState::decode(0), PositionState::MovingDown);
    assert_eq!(PositionState::decode(1), PositionState::MovingUp);
    assert_eq!(PositionState::decode(2), PositionState::Stopped);
    assert_eq!(PositionState::MovingUp.code(), 1);
    assert_eq!(WindowCoveringSettings::default(), WindowCoveringSettings { opening_time: 35, closing_time: 35 });
}

#[test]
fn worker_opens_then_stops_at_target() {
    let mut w = WindowCoveringWorker::new(stopped_at(0), config());
    // Opening: the start toggle is "on".
    assert_eq!(w.move_to_command(100), Some(true));
    let e = w.handle_move_to(100, 1000, true);
    assert_eq!(e, WorkerEffects { save: false, notify: true });
    assert_eq!(w.state.target_position, 100);
    assert_eq!(w.state.position_state, PositionState::MovingUp);
    // The hub confirms the movement.
    assert_eq!(w.handle_status_update(PositionState::MovingUp, 1100), NOTHING);
    assert!(matches!(w.worker_state, WorkerState::MovingInternal { .. }));
    // Half way after 800 ms.
    assert_eq!(w.position_command(1900), None);
    let e = w.update_position(1900, true);
    assert_eq!(e, WorkerEffects { save: false, notify: true });
    assert_eq!(w.state.current_position, 50);
    // At the target after 1600 ms: the stop toggle ("off") is sent.
    assert_eq!(w.position_command(2700), Some(false));
    w.update_position(2700, true);
    assert_eq!(w.state.current_position, 100);
    assert!(matches!(w.worker_state, WorkerState::WaitingForStopConfirmation { current_pos: 100 }));
    // The hub reports the stop: the state is saved and reported.
    let e = w.handle_status_update(PositionState::Stopped, 2800);
    assert_eq!(e, WorkerEffects { save: true, notify: true });
    assert_eq!(w.state, stopped_at(100));
    assert_eq!(w.worker_state, WorkerState::Idle);
}

#[test]
fn worker_closing_sends_off_toggle() {
    let mut w = WindowCoveringWorker::new(stopped_at(100), config());
    assert_eq!(w.move_to_command(0), Some(false));
    w.handle_move_to(0, 0, true);
    assert_eq!(w.state.position_state, PositionState::MovingDown);
}

#[test]
fn worker_ignores_request_for_current_position() {
    let mut w = WindowCoveringWorker::new(stopped_at(50), config());
    assert_eq!(w.move_to_command(50), None);
    assert_eq!(w.handle_move_to(50, 0, true), NOTHING);
    assert_eq!(w.worker_state, WorkerState::Idle);
}

#[test]
fn worker_follows_external_movement() {
    let mut w = WindowCoveringWorker::new(stopped_at(50), config());
    let e = w.handle_status_update(PositionState::MovingUp, 0);
    assert_eq!(e, WorkerEffects { save: false, notify: true });
    assert_eq!(w.state.target_position, FULLY_OPENED);
    w.update_position(400, true);
    assert_eq!(w.state.current_position, 75);
    let e = w.handle_status_update(PositionState::Stopped, 500);
    assert_eq!(e, WorkerEffects { save: true, notify: true });
    assert_eq!(w.state, stopped_at(75));
}

#[test]
fn worker_stop_while_moving_and_when_idle() {
    let mut w = WindowCoveringWorker::new(stopped_at(50), config());
    assert_eq!(w.stop_command(), None);
    w.handle_stop(true);
    assert_eq!(w.worker_state, WorkerState::Idle);
    w.handle_move_to(100, 0, true);
    w.handle_status_update(PositionState::MovingUp, 10);
    assert_eq!(w.stop_command(), Some(false));
    w.handle_stop(true);
    assert!(matches!(w.worker_state, WorkerState::WaitingForStopConfirmation { .. }));
}

#[test]
fn failed_start_toggle_keeps_worker_idle() {
    let mut w = WindowCoveringWorker::new(stopped_at(20), config());
    assert_eq!(w.handle_move_to(80, 0, false), NOTHING);
    assert_eq!(w.worker_state, WorkerState::Idle);
    assert_eq!(w.state.target_position, 80);
}

#[test]
fn unconfirmed_start_times_out_on_stopped_report() {
    let mut w = WindowCoveringWorker::new(stopped_at(20), config());
    w.handle_move_to(80, 0, true);
    // Within the grace period a stopped report is ignored.
    assert_eq!(w.handle_status_update(PositionState::Stopped, 2999), NOTHING);
    // After it the movement counts as refused.
    let e = w.handle_status_update(PositionState::Stopped, 3000);
    assert_eq!(e, WorkerEffects { save: true, notify: true });
    assert_eq!(w.state, stopped_at(20));
}

#[test]
fn near_target_position_snaps_on_stop() {
    let mut w = WindowCoveringWorker::new(stopped_at(0), config());
    w.handle_move_to(60, 0, true);
    w.handle_status_update(PositionState::MovingUp, 0);
    w.update_position(900, true); // 56%
    assert_eq!(w.state.current_position, 56);
    w.handle_status_update(PositionState::Stopped, 950);
    assert_eq!(w.state, stopped_at(60));
}

#[test]
fn closing_reaches_its_target() {
    let cfg = WindowCoveringConfig { closing_time_ms: 2000, opening_time_ms: 1000 };
    let mut w = WindowCoveringWorker::new(stopped_at(80), cfg);
    w.handle_move_to(10, 0, true);
    w.handle_status_update(PositionState::MovingDown, 0);
    // 70% of a two-second travel, rounded: reached after 1390 ms.
    assert_eq!(w.position_command(1389), None);
    assert_eq!(w.position_command(1390), Some(true));
    assert_eq!(w.position_command(2000), Some(true));
}

#[test]
fn a_very_late_update_wraps_the_position_byte() {
    // Going up from 50 with a one-second travel, 2.5 s later the estimate is
    // 50 + 250 = 300, which as a byte is 44.
    let cfg = WindowCoveringConfig { closing_time_ms: 1000, opening_time_ms: 1000 };
    let mut w = WindowCoveringWorker::new(stopped_at(50), cfg);
    w.handle_move_to(60, 0, true);
    w.handle_status_update(PositionState::MovingUp, 0);
    assert_eq!(w.position_command(2500), None);
    w.update_position(2500, true);
    assert_eq!(w.state.current_position, 44);
}
