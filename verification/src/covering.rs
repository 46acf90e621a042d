//! Window coverings: the position model and the worker that drives a blind
//! from start/stop toggles and the hub's status pushes.
//!
//! The hub only knows "start moving up/down" and "stop" (both sent as one
//! toggle), and reports whether a blind is moving. The worker estimates the
//! position from the time the blind has been moving and the configured full
//! travel time, stops the blind when it reaches the requested target, and
//! follows movements started from a wall switch.
//!
//! The worker is a state machine: every handler takes the event and, where
//! a step sends a toggle to the hub and waits for it, the outcome of that
//! toggle. The toggle to send is given beforehand by the matching `*_command`
//! method, computed from the same state.
use vstd::prelude::*;
use crate::devices::WindowCoveringDeviceData;
use crate::protocol::{DeviceStatus, WindowCoveringStatus};

verus! {

/// Position of a fully opened covering.
pub const FULLY_OPENED: u8 = 100;

/// Position of a fully closed covering.
pub const FULLY_CLOSED: u8 = 0;

/// Movement of a covering.
#[derive(Debug, Clone, Copy, PartialEq, Eq, Structural)]
pub enum PositionState {
    MovingDown,
    MovingUp,
    Stopped,
}

impl PositionState {
    /// The number HomeKit uses for this movement.
    pub open spec fn code_of(self) -> int {
        match self {
            PositionState::MovingDown => 0,
            PositionState::MovingUp => 1,
            PositionState::Stopped => 2,
        }
    }

    /// The number HomeKit uses for this movement.
    pub fn code(&self) -> (c: u8)
        ensures
            c == self.code_of(),
    {
        match self {
            PositionState::MovingDown => 0,
            PositionState::MovingUp => 1,
            PositionState::Stopped => 2,
        }
    }

    /// The movement a stored number stands for; unknown numbers read as
    /// `Stopped`.
    pub open spec fn of_code(raw: int) -> PositionState {
        if raw == 0 {
            PositionState::MovingDown
        } else if raw == 1 {
            PositionState::MovingUp
        } else {
            PositionState::Stopped
        }
    }

    /// The movement a stored number stands for; unknown numbers read as
    /// `Stopped`.
    pub fn decode(raw: u8) -> (p: PositionState)
        ensures
            p == PositionState::of_code(raw as int),
    {
        match raw {
            0 => PositionState::MovingDown,
            1 => PositionState::MovingUp,
            _ => PositionState::Stopped,
        }
    }
}

/// Position and movement of a covering, 0 = fully closed, 100 = fully open.
#[derive(Debug, Clone, Copy, PartialEq, Eq, Structural)]
pub struct WindowCoveringState {
    pub current_position: u8,
    pub target_position: u8,
    pub position_state: PositionState,
}

/// Whether the hub reports the covering moving (its power status is not
/// "stopped").
pub open spec fn reported_moving(data: WindowCoveringDeviceData) -> bool {
    match data.power_status {
        Some(s) => s != WindowCoveringStatus::Stopped,
        None => false,
    }
}

/// Whether the hub reports the covering going up: its status text is the
/// one the hub uses for "going up" (`"1"`).
pub open spec fn reported_opening(data: WindowCoveringDeviceData) -> bool {
    match data.status {
        Some(s) => s.code_of() == WindowCoveringStatus::GoingUp.code_of(),
        None => false,
    }
}

/// The state a hub report gives: a blind going up is assumed to start from
/// fully closed, any other from fully open; a moving blind heads for the end
/// it moves to, a stopped one stays where it is.
pub open spec fn state_of_report(data: WindowCoveringDeviceData) -> WindowCoveringState {
    let moving = reported_moving(data);
    let opening = reported_opening(data);
    let current = if opening { FULLY_CLOSED } else { FULLY_OPENED };
    WindowCoveringState {
        current_position: current,
        target_position: if moving {
            if opening { FULLY_OPENED } else { FULLY_CLOSED }
        } else {
            current
        },
        position_state: if moving {
            if opening { PositionState::MovingUp } else { PositionState::MovingDown }
        } else {
            PositionState::Stopped
        },
    }
}

impl WindowCoveringState {
    /// Whether the covering is moving.
    pub fn is_moving(&self) -> (b: bool)
        ensures
            b == (self.position_state != PositionState::Stopped),
    {
        self.position_state != PositionState::Stopped
    }

    /// Whether the covering is below its target (so it has to open).
    pub fn is_opening(&self) -> (b: bool)
        ensures
            b == (self.current_position < self.target_position),
    {
        self.current_position < self.target_position
    }

    /// The state a hub report gives (see [`state_of_report`]).
    pub fn from_device_data(data: &WindowCoveringDeviceData) -> (s: WindowCoveringState)
        ensures
            s == state_of_report(*data),
    {
        let moving = match data.power_status {
            Some(st) => st != WindowCoveringStatus::Stopped,
            None => false,
        };
        let opening = match data.status {
            Some(st) => st.code() == WindowCoveringStatus::GoingUp.code(),
            None => false,
        };
        let position_state = if moving {
            if opening {
                PositionState::MovingUp
            } else {
                PositionState::MovingDown
            }
        } else {
            PositionState::Stopped
        };
        let current_position: u8 = if opening { FULLY_CLOSED } else { FULLY_OPENED };
        let target_position: u8 = if moving {
            if opening { FULLY_OPENED } else { FULLY_CLOSED }
        } else {
            current_position
        };
        WindowCoveringState { current_position, target_position, position_state }
    }
}

/// Full travel times of a covering, in milliseconds.
#[derive(Debug, Clone, Copy, PartialEq, Eq, Structural)]
pub struct WindowCoveringConfig {
    pub closing_time_ms: u64,
    pub opening_time_ms: u64,
}

/// Full travel times of a covering as configured, in seconds.
#[derive(Debug, Clone, PartialEq, Eq, Structural)]
pub struct WindowCoveringSettings {
    pub opening_time: u64,
    pub closing_time: u64,
}

impl Default for WindowCoveringSettings {
    /// 35 seconds each way.
    fn default() -> (s: WindowCoveringSettings)
        ensures
            s.opening_time == 35,
            s.closing_time == 35,
    {
        WindowCoveringSettings { opening_time: 35, closing_time: 35 }
    }
}

/// Where a covering's worker reports the covering's state: the HomeKit or
/// Matter side of the bridge implements it.
pub trait WindowCoveringSink {
    /// Takes the covering's latest state.
    fn update(&self, state: WindowCoveringState);
}

/// What the worker is doing.
#[derive(Debug, Clone, Copy, PartialEq, Eq, Structural)]
pub enum WorkerState {
    /// Nothing is moving.
    Idle,
    /// A start toggle was sent at `sent_at_ms`; the hub has not yet reported
    /// the movement.
    WaitingForMoveConfirmation { target: u8, direction: PositionState, sent_at_ms: u64 },
    /// A movement the worker started, heading for `target`.
    MovingInternal { target: u8, direction: PositionState, started_at_ms: u64, start_pos: u8 },
    /// A movement started outside the bridge (wall switch, hub app).
    MovingExternal { direction: PositionState, started_at_ms: u64, start_pos: u8 },
    /// A stop toggle was sent; the hub has not yet reported the stop.
    WaitingForStopConfirmation { current_pos: u8 },
}

impl WorkerState {
    /// The movement the worker follows, if it follows one.
    pub open spec fn moving_direction(self) -> Option<PositionState> {
        match self {
            WorkerState::MovingInternal { direction, .. } => Some(direction),
            WorkerState::MovingExternal { direction, .. } => Some(direction),
            _ => None,
        }
    }
}

/// What the caller has to do after a step of the worker.
///
/// When `save` holds, the covering state is stored, and the sink is told of
/// the new state only if storing succeeded; otherwise the sink is told when
/// `notify` holds.
#[derive(Debug, Clone, Copy, PartialEq, Eq, Structural)]
pub struct WorkerEffects {
    pub save: bool,
    pub notify: bool,
}

/// No effect.
pub open spec fn no_effects() -> WorkerEffects {
    WorkerEffects { save: false, notify: false }
}

/// Tell the sink of the new state.
pub open spec fn notify_only() -> WorkerEffects {
    WorkerEffects { save: false, notify: true }
}

/// Store the state, then tell the sink.
pub open spec fn save_and_notify() -> WorkerEffects {
    WorkerEffects { save: true, notify: true }
}

/// How long a start toggle may go unconfirmed before a "stopped" report
/// counts as the hub refusing to move, in milliseconds.
pub const MOVE_CONFIRMATION_GRACE_MS: u64 = 3000;

/// Percentage of the full travel covered after `elapsed_ms` of a travel that
/// takes `travel_ms`, rounded to the nearest integer (halves up) and capped
/// at the largest `i16`. A zero travel time covers nothing at time zero and
/// everything (the cap) afterwards.
pub open spec fn travel_percent(elapsed_ms: int, travel_ms: int) -> int {
    if travel_ms == 0 {
        if elapsed_ms == 0 { 0 } else { 32767 }
    } else {
        let r = (elapsed_ms * 200 + travel_ms) / (2 * travel_ms);
        if r > 32767 { 32767 } else { r }
    }
}

/// Position reached from `start` after moving `change` percent in
/// `direction`. Going up, the sum is taken modulo 256 (the position is a
/// byte) and capped at fully open; going down, the position stops at fully
/// closed.
pub open spec fn moved_position(start: int, change: int, direction: PositionState) -> int {
    if direction == PositionState::MovingUp {
        let raw = (start + change) % 256;
        if raw > FULLY_OPENED { FULLY_OPENED as int } else { raw }
    } else {
        if change >= start { FULLY_CLOSED as int } else { start - change }
    }
}

/// The estimated position of a moving covering at `now_ms`.
pub open spec fn estimated_position(
    config: WindowCoveringConfig,
    direction: PositionState,
    started_at_ms: int,
    start_pos: int,
    now_ms: int,
) -> int {
    let elapsed = if now_ms >= started_at_ms { now_ms - started_at_ms } else { 0 };
    let travel = if direction == PositionState::MovingUp {
        config.opening_time_ms as int
    } else {
        config.closing_time_ms as int
    };
    moved_position(start_pos, travel_percent(elapsed, travel), direction)
}

/// Whether `pos` has reached `target` when moving in `direction`.
pub open spec fn reached(pos: int, target: int, direction: PositionState) -> bool {
    if direction == PositionState::MovingUp { pos >= target } else { pos <= target }
}

/// The covering state after a movement ends without a known target: it
/// stops where it is.
pub open spec fn finalized(s: WindowCoveringState) -> WindowCoveringState {
    WindowCoveringState {
        current_position: s.current_position,
        target_position: s.current_position,
        position_state: PositionState::Stopped,
    }
}

/// The covering state after a movement toward `target` ends: a position
/// within 5 of the target snaps to it (and, going up, never exceeds fully
/// open); the covering stops there.
pub open spec fn finalized_with_target(
    s: WindowCoveringState,
    target: u8,
    direction: PositionState,
) -> WindowCoveringState {
    let diff = if s.current_position >= target {
        s.current_position - target
    } else {
        target - s.current_position
    };
    let snapped = if diff <= 5 { target as int } else { s.current_position as int };
    let pos = if direction == PositionState::MovingUp && snapped > FULLY_OPENED {
        FULLY_OPENED as int
    } else {
        snapped
    };
    WindowCoveringState {
        current_position: pos as u8,
        target_position: pos as u8,
        position_state: PositionState::Stopped,
    }
}

/// The worker of one window covering.
#[derive(Debug, Clone, Copy, PartialEq, Eq, Structural)]
pub struct WindowCoveringWorker {
    pub state: WindowCoveringState,
    pub worker_state: WorkerState,
    pub config: WindowCoveringConfig,
}

impl WindowCoveringWorker {
    /// The toggle a move request sends (`Some(on)`), or `None` when it sends
    /// nothing: a request for the current position, or one that arrives
    /// while a toggle is unconfirmed, does nothing; during a movement the
    /// request first stops the covering (the toggle opposite to the
    /// movement); at rest it starts the movement (`on` opens).
    pub open spec fn move_to_toggle(self, new_pos: u8) -> Option<bool> {
        if self.state.current_position == new_pos {
            None
        } else {
            match self.worker_state {
                WorkerState::MovingInternal { direction, .. } => Some(
                    direction == PositionState::MovingDown,
                ),
                WorkerState::MovingExternal { direction, .. } => Some(
                    direction == PositionState::MovingDown,
                ),
                WorkerState::Idle => Some(new_pos > self.state.current_position),
                _ => None,
            }
        }
    }

    /// The worker after a move request to `new_pos` at `now_ms`, whose
    /// toggle (if any) succeeded when `toggle_ok` holds.
    pub open spec fn after_move_to(self, new_pos: u8, now_ms: u64, toggle_ok: bool) -> (
        WindowCoveringWorker,
        WorkerEffects,
    ) {
        if self.state.current_position == new_pos {
            (self, no_effects())
        } else {
            match self.worker_state {
                WorkerState::MovingInternal { .. } | WorkerState::MovingExternal { .. } => {
                    if toggle_ok {
                        (
                            WindowCoveringWorker {
                                worker_state: WorkerState::WaitingForStopConfirmation {
                                    current_pos: self.state.current_position,
                                },
                                ..self
                            },
                            no_effects(),
                        )
                    } else {
                        (self, no_effects())
                    }
                },
                WorkerState::Idle => {
                    let direction = if new_pos > self.state.current_position {
                        PositionState::MovingUp
                    } else {
                        PositionState::MovingDown
                    };
                    let state = WindowCoveringState {
                        target_position: new_pos,
                        position_state: direction,
                        ..self.state
                    };
                    if toggle_ok {
                        (
                            WindowCoveringWorker {
                                state,
                                worker_state: WorkerState::WaitingForMoveConfirmation {
                                    target: new_pos,
                                    direction,
                                    sent_at_ms: now_ms,
                                },
                                ..self
                            },
                            notify_only(),
                        )
                    } else {
                        (WindowCoveringWorker { state, ..self }, no_effects())
                    }
                },
                _ => (self, no_effects()),
            }
        }
    }

    /// The toggle a stop request sends: the one opposite to the movement the
    /// worker follows, nothing otherwise.
    pub open spec fn stop_toggle(self) -> Option<bool> {
        match self.worker_state.moving_direction() {
            Some(direction) => Some(direction == PositionState::MovingDown),
            None => None,
        }
    }

    /// The worker after a stop request whose toggle (if any) succeeded when
    /// `toggle_ok` holds.
    pub open spec fn after_stop(self, toggle_ok: bool) -> WindowCoveringWorker {
        if self.worker_state.moving_direction() is Some && toggle_ok {
            WindowCoveringWorker {
                worker_state: WorkerState::WaitingForStopConfirmation {
                    current_pos: self.state.current_position,
                },
                ..self
            }
        } else {
            self
        }
    }

    /// The worker after the hub reports `reported` at `now_ms`.
    pub open spec fn after_status_update(self, reported: PositionState, now_ms: u64) -> (
        WindowCoveringWorker,
        WorkerEffects,
    ) {
        let stopped = reported == PositionState::Stopped;
        match self.worker_state {
            WorkerState::Idle => {
                if stopped {
                    (self, no_effects())
                } else {
                    (
                        WindowCoveringWorker {
                            state: WindowCoveringState {
                                position_state: reported,
                                target_position: if reported == PositionState::MovingUp {
                                    FULLY_OPENED
                                } else {
                                    FULLY_CLOSED
                                },
                                ..self.state
                            },
                            worker_state: WorkerState::MovingExternal {
                                direction: reported,
                                started_at_ms: now_ms,
                                start_pos: self.state.current_position,
                            },
                            ..self
                        },
                        notify_only(),
                    )
                }
            },
            WorkerState::WaitingForMoveConfirmation { target, direction, sent_at_ms } => {
                if reported == direction {
                    (
                        WindowCoveringWorker {
                            worker_state: WorkerState::MovingInternal {
                                target,
                                direction,
                                started_at_ms: now_ms,
                                start_pos: self.state.current_position,
                            },
                            ..self
                        },
                        no_effects(),
                    )
                } else if stopped && now_ms >= sent_at_ms + MOVE_CONFIRMATION_GRACE_MS {
                    (
                        WindowCoveringWorker {
                            state: finalized(self.state),
                            worker_state: WorkerState::Idle,
                            ..self
                        },
                        save_and_notify(),
                    )
                } else {
                    (self, no_effects())
                }
            },
            WorkerState::MovingInternal { target, direction, .. } => {
                if stopped {
                    (
                        WindowCoveringWorker {
                            state: finalized_with_target(self.state, target, direction),
                            worker_state: WorkerState::Idle,
                            ..self
                        },
                        save_and_notify(),
                    )
                } else {
                    (self, no_effects())
                }
            },
            _ => {
                if stopped {
                    (
                        WindowCoveringWorker {
                            state: finalized(self.state),
                            worker_state: WorkerState::Idle,
                            ..self
                        },
                        save_and_notify(),
                    )
                } else {
                    (self, no_effects())
                }
            },
        }
    }

    /// The estimated position at `now_ms` while the worker follows a
    /// movement.
    pub open spec fn position_at(self, now_ms: u64) -> int {
        match self.worker_state {
            WorkerState::MovingInternal { direction, started_at_ms, start_pos, .. } =>
                estimated_position(self.config, direction, started_at_ms as int, start_pos as int, now_ms as int),
            WorkerState::MovingExternal { direction, started_at_ms, start_pos } =>
                estimated_position(self.config, direction, started_at_ms as int, start_pos as int, now_ms as int),
            _ => self.state.current_position as int,
        }
    }

    /// Whether the periodic update at `now_ms` finds a movement the worker
    /// started at its target.
    pub open spec fn target_reached_at(self, now_ms: u64) -> bool {
        match self.worker_state {
            WorkerState::MovingInternal { target, direction, .. } =>
                reached(self.position_at(now_ms), target as int, direction),
            _ => false,
        }
    }

    /// The toggle the periodic update sends: the stop toggle (opposite to the
    /// movement) once a movement the worker started reaches its target.
    pub open spec fn position_toggle(self, now_ms: u64) -> Option<bool> {
        if self.target_reached_at(now_ms) {
            match self.worker_state {
                WorkerState::MovingInternal { direction, .. } => Some(
                    direction == PositionState::MovingDown,
                ),
                _ => None,
            }
        } else {
            None
        }
    }

    /// The worker after the periodic position update at `now_ms`, whose stop
    /// toggle (if any) succeeded when `toggle_ok` holds.
    pub open spec fn after_update_position(self, now_ms: u64, toggle_ok: bool) -> (
        WindowCoveringWorker,
        WorkerEffects,
    ) {
        if self.worker_state.moving_direction() is Some {
            let pos = self.position_at(now_ms);
            let moved = WindowCoveringWorker {
                state: WindowCoveringState { current_position: pos as u8, ..self.state },
                ..self
            };
            if self.target_reached_at(now_ms) {
                if toggle_ok {
                    (
                        WindowCoveringWorker {
                            worker_state: WorkerState::WaitingForStopConfirmation {
                                current_pos: pos as u8,
                            },
                            ..moved
                        },
                        notify_only(),
                    )
                } else {
                    (moved, no_effects())
                }
            } else {
                (moved, notify_only())
            }
        } else {
            (self, no_effects())
        }
    }

    /// A worker at rest over `state`.
    pub fn new(state: WindowCoveringState, config: WindowCoveringConfig) -> (w: WindowCoveringWorker)
        ensures
            w.state == state,
            w.config == config,
            w.worker_state == WorkerState::Idle,
    {
        WindowCoveringWorker { state, worker_state: WorkerState::Idle, config }
    }

    /// The toggle a move request to `new_pos` sends (see
    /// [`Self::move_to_toggle`]).
    pub fn move_to_command(&self, new_pos: u8) -> (t: Option<bool>)
        ensures
            t == self.move_to_toggle(new_pos),
    {
        if self.state.current_position == new_pos {
            return None;
        }
        match self.worker_state {
            WorkerState::MovingInternal { direction, .. } => Some(
                direction == PositionState::MovingDown,
            ),
            WorkerState::MovingExternal { direction, .. } => Some(
                direction == PositionState::MovingDown,
            ),
            WorkerState::Idle => Some(new_pos > self.state.current_position),
            _ => None,
        }
    }

    /// Handles a move request to `new_pos` at `now_ms`; `toggle_ok` is the
    /// outcome of the toggle that [`Self::move_to_command`] asked for.
    pub fn handle_move_to(&mut self, new_pos: u8, now_ms: u64, toggle_ok: bool) -> (e: WorkerEffects)
        ensures
            (*final(self), e) == old(self).after_move_to(new_pos, now_ms, toggle_ok),
    {
        let current_pos = self.state.current_position;
        if current_pos == new_pos {
            return WorkerEffects { save: false, notify: false };
        }
        let direction = if new_pos > current_pos {
            PositionState::MovingUp
        } else {
            PositionState::MovingDown
        };
        match self.worker_state {
            WorkerState::MovingInternal { .. } | WorkerState::MovingExternal { .. } => {
                if toggle_ok {
                    self.worker_state = WorkerState::WaitingForStopConfirmation {
                        current_pos,
                    };
                }
                WorkerEffects { save: false, notify: false }
            },
            WorkerState::Idle => {
                self.state.target_position = new_pos;
                self.state.position_state = direction;
                if toggle_ok {
                    self.worker_state = WorkerState::WaitingForMoveConfirmation {
                        target: new_pos,
                        direction,
                        sent_at_ms: now_ms,
                    };
                    WorkerEffects { save: false, notify: true }
                } else {
                    WorkerEffects { save: false, notify: false }
                }
            },
            _ => WorkerEffects { save: false, notify: false },
        }
    }

    /// The toggle a stop request sends (see [`Self::stop_toggle`]).
    pub fn stop_command(&self) -> (t: Option<bool>)
        ensures
            t == self.stop_toggle(),
    {
        match self.worker_state {
            WorkerState::MovingInternal { direction, .. } => Some(
                direction == PositionState::MovingDown,
            ),
            WorkerState::MovingExternal { direction, .. } => Some(
                direction == PositionState::MovingDown,
            ),
            _ => None,
        }
    }

    /// Handles a stop request; `toggle_ok` is the outcome of the toggle that
    /// [`Self::stop_command`] asked for.
    pub fn handle_stop(&mut self, toggle_ok: bool)
        ensures
            *final(self) == old(self).after_stop(toggle_ok),
    {
        match self.worker_state {
            WorkerState::MovingInternal { .. } | WorkerState::MovingExternal { .. } => {
                if toggle_ok {
                    self.worker_state = WorkerState::WaitingForStopConfirmation {
                        current_pos: self.state.current_position,
                    };
                }
            },
            _ => {},
        }
    }

    /// Ends the followed movement where the covering is.
    pub fn finalize_position(&mut self) -> (e: WorkerEffects)
        ensures
            final(self).state == finalized(old(self).state),
            final(self).worker_state == old(self).worker_state,
            final(self).config == old(self).config,
            e == save_and_notify(),
    {
        self.state.position_state = PositionState::Stopped;
        self.state.target_position = self.state.current_position;
        WorkerEffects { save: true, notify: true }
    }

    /// Ends a movement toward `target` in `direction`.
    pub fn finalize_position_with_target(&mut self, target: u8, direction: PositionState) -> (e: WorkerEffects)
        ensures
            final(self).state == finalized_with_target(old(self).state, target, direction),
            final(self).worker_state == old(self).worker_state,
            final(self).config == old(self).config,
            e == save_and_notify(),
    {
        let current = self.state.current_position;
        let diff: u8 = if current >= target { current - target } else { target - current };
        if diff <= 5 {
            self.state.current_position = target;
        }
        if direction == PositionState::MovingUp && self.state.current_position > FULLY_OPENED {
            self.state.current_position = FULLY_OPENED;
        }
        self.state.position_state = PositionState::Stopped;
        self.state.target_position = self.state.current_position;
        WorkerEffects { save: true, notify: true }
    }

    /// Handles the hub reporting the covering's movement as `reported` at
    /// `now_ms`.
    pub fn handle_status_update(&mut self, reported: PositionState, now_ms: u64) -> (e: WorkerEffects)
        ensures
            (*final(self), e) == old(self).after_status_update(reported, now_ms),
    {
        let stopped = reported == PositionState::Stopped;
        match self.worker_state {
            WorkerState::Idle => {
                if stopped {
                    WorkerEffects { save: false, notify: false }
                } else {
                    let current_pos = self.state.current_position;
                    self.state.position_state = reported;
                    self.state.target_position = if reported == PositionState::MovingUp {
                        FULLY_OPENED
                    } else {
                        FULLY_CLOSED
                    };
                    self.worker_state = WorkerState::MovingExternal {
                        direction: reported,
                        started_at_ms: now_ms,
                        start_pos: current_pos,
                    };
                    WorkerEffects { save: false, notify: true }
                }
            },
            WorkerState::WaitingForMoveConfirmation { target, direction, sent_at_ms } => {
                if reported == direction {
                    self.worker_state = WorkerState::MovingInternal {
                        target,
                        direction,
                        started_at_ms: now_ms,
                        start_pos: self.state.current_position,
                    };
                    WorkerEffects { save: false, notify: false }
                } else if stopped {
                    let elapsed: u64 = if now_ms >= sent_at_ms { now_ms - sent_at_ms } else { 0 };
                    if elapsed < MOVE_CONFIRMATION_GRACE_MS {
                        WorkerEffects { save: false, notify: false }
                    } else {
                        self.worker_state = WorkerState::Idle;
                        self.finalize_position()
                    }
                } else {
                    WorkerEffects { save: false, notify: false }
                }
            },
            WorkerState::MovingInternal { target, direction, .. } => {
                if stopped {
                    self.worker_state = WorkerState::Idle;
                    self.finalize_position_with_target(target, direction)
                } else {
                    WorkerEffects { save: false, notify: false }
                }
            },
            _ => {
                if stopped {
                    self.worker_state = WorkerState::Idle;
                    self.finalize_position()
                } else {
                    WorkerEffects { save: false, notify: false }
                }
            },
        }
    }

    /// The estimated position at `now_ms` of a movement in `direction` that
    /// started at `started_at_ms` from `start_pos`.
    fn estimate_position(&self, direction: PositionState, started_at_ms: u64, start_pos: u8, now_ms: u64) -> (p: u8)
        ensures
            p == estimated_position(self.config, direction, started_at_ms as int, start_pos as int, now_ms as int),
    {
        let elapsed: u64 = if now_ms >= started_at_ms { now_ms - started_at_ms } else { 0 };
        let travel: u64 = if direction == PositionState::MovingUp {
            self.config.opening_time_ms
        } else {
            self.config.closing_time_ms
        };
        let change: u128 = if travel == 0 {
            if elapsed == 0 { 0 } else { 32767 }
        } else {
            let r: u128 = (elapsed as u128 * 200 + travel as u128) / (2 * travel as u128);
            if r > 32767 { 32767 } else { r }
        };
        if direction == PositionState::MovingUp {
            let raw: u128 = (start_pos as u128 + change) % 256;
            if raw > FULLY_OPENED as u128 { FULLY_OPENED } else { raw as u8 }
        } else {
            if change >= start_pos as u128 { FULLY_CLOSED } else { (start_pos as u128 - change) as u8 }
        }
    }

    /// The toggle the periodic position update at `now_ms` sends (see
    /// [`Self::position_toggle`]).
    pub fn position_command(&self, now_ms: u64) -> (t: Option<bool>)
        ensures
            t == self.position_toggle(now_ms),
    {
        match self.worker_state {
            WorkerState::MovingInternal { target, direction, started_at_ms, start_pos } => {
                let pos = self.estimate_position(direction, started_at_ms, start_pos, now_ms);
                let hit = if direction == PositionState::MovingUp { pos >= target } else { pos <= target };
                if hit {
                    Some(direction == PositionState::MovingDown)
                } else {
                    None
                }
            },
            _ => None,
        }
    }

    /// The periodic position update at `now_ms`; `toggle_ok` is the outcome
    /// of the toggle that [`Self::position_command`] asked for.
    pub fn update_position(&mut self, now_ms: u64, toggle_ok: bool) -> (e: WorkerEffects)
        ensures
            (*final(self), e) == old(self).after_update_position(now_ms, toggle_ok),
    {
        let (direction, started_at_ms, start_pos, target) = match self.worker_state {
            WorkerState::MovingInternal { target, direction, started_at_ms, start_pos } =>
                (direction, started_at_ms, start_pos, Some(target)),
            WorkerState::MovingExternal { direction, started_at_ms, start_pos } =>
                (direction, started_at_ms, start_pos, None),
            _ => {
                return WorkerEffects { save: false, notify: false };
            },
        };
        let new_position = self.estimate_position(direction, started_at_ms, start_pos, now_ms);
        let reached_target = match target {
            Some(t) => if direction == PositionState::MovingUp { new_position >= t } else { new_position <= t },
            None => false,
        };
        self.state.current_position = new_position;
        if reached_target {
            if toggle_ok {
                self.worker_state = WorkerState::WaitingForStopConfirmation {
                    current_pos: new_position,
                };
                WorkerEffects { save: false, notify: true }
            } else {
                WorkerEffects { save: false, notify: false }
            }
        } else {
            WorkerEffects { save: false, notify: true }
        }
    }
}


/// Positions of a worker are all within `0..=100`.
pub open spec fn positions_in_range(w: WindowCoveringWorker) -> bool {
    &&& w.state.current_position <= FULLY_OPENED
    &&& w.state.target_position <= FULLY_OPENED
    &&& match w.worker_state {
        WorkerState::Idle => true,
        WorkerState::WaitingForMoveConfirmation { target, .. } => target <= FULLY_OPENED,
        WorkerState::MovingInternal { target, start_pos, .. } => target <= FULLY_OPENED && start_pos <= FULLY_OPENED,
        WorkerState::MovingExternal { start_pos, .. } => start_pos <= FULLY_OPENED,
        WorkerState::WaitingForStopConfirmation { current_pos } => current_pos <= FULLY_OPENED,
    }
}

/// Every step of the worker keeps all positions within `0..=100`, provided
/// move requests ask for positions within that range.
pub proof fn lemma_positions_stay_in_range(
    w: WindowCoveringWorker,
    new_pos: u8,
    reported: PositionState,
    now_ms: u64,
    ok: bool,
)
    requires
        positions_in_range(w),
        new_pos <= FULLY_OPENED,
    ensures
        positions_in_range(w.after_move_to(new_pos, now_ms, ok).0),
        positions_in_range(w.after_stop(ok)),
        positions_in_range(w.after_status_update(reported, now_ms).0),
        positions_in_range(w.after_update_position(now_ms, ok).0),
{
}

/// A move request for the position the covering is already at sends nothing
/// and changes nothing, whatever the worker is doing.
pub proof fn lemma_move_to_current_position_is_noop(w: WindowCoveringWorker, now_ms: u64, ok: bool)
    ensures
        w.move_to_toggle(w.state.current_position) == None::<bool>,
        w.after_move_to(w.state.current_position, now_ms, ok) == (w, no_effects()),
{
}

/// A stop request while the worker follows no movement sends nothing and
/// changes nothing.
pub proof fn lemma_stop_without_movement_is_noop(w: WindowCoveringWorker, ok: bool)
    requires
        w.worker_state.moving_direction() is None,
    ensures
        w.stop_toggle() == None::<bool>,
        w.after_stop(ok) == w,
{
}

/// The toggle that stops a movement is the opposite of the toggle that
/// started it: a worker at rest asked to move sends `b`; once the hub
/// confirms the movement, a stop request sends `!b`.
pub proof fn lemma_stop_toggle_reverses_start_toggle(
    w: WindowCoveringWorker,
    new_pos: u8,
    sent_ms: u64,
    confirmed_ms: u64,
)
    requires
        w.worker_state == WorkerState::Idle,
        w.state.current_position != new_pos,
    ensures
        ({
            let moving = w.after_move_to(new_pos, sent_ms, true).0;
            let confirmed = moving.after_status_update(moving.state.position_state, confirmed_ms).0;
            &&& w.move_to_toggle(new_pos) is Some
            &&& confirmed.stop_toggle() == Some(!w.move_to_toggle(new_pos).unwrap())
        }),
{
}

/// Whatever movement the worker follows or waits to see stop, a "stopped"
/// report ends it: the worker rests, the covering is stopped at a target
/// equal to its position, and the state is stored and published. A start
/// toggle still unconfirmed is ended this way only once the grace period has
/// passed (the start toggle of a move always names a direction).
pub proof fn lemma_stopped_report_ends_movement(w: WindowCoveringWorker, now_ms: u64)
    requires
        w.worker_state != WorkerState::Idle,
        w.worker_state matches WorkerState::WaitingForMoveConfirmation { sent_at_ms, direction, .. } ==>
            now_ms >= sent_at_ms + MOVE_CONFIRMATION_GRACE_MS && direction != PositionState::Stopped,
    ensures
        ({
            let (next, e) = w.after_status_update(PositionState::Stopped, now_ms);
            &&& next.worker_state == WorkerState::Idle
            &&& next.state.position_state == PositionState::Stopped
            &&& next.state.target_position == next.state.current_position
            &&& e == save_and_notify()
        }),
{
}

/// A movement the worker started is stopped once it reaches its target: the
/// periodic update then sends the toggle opposite to the movement and waits
/// for the hub to confirm the stop at the reached position.
pub proof fn lemma_reaching_target_sends_stop(w: WindowCoveringWorker, now_ms: u64)
    requires
        w.worker_state matches WorkerState::MovingInternal { target, direction, .. } &&
            reached(w.position_at(now_ms), target as int, direction),
    ensures
        w.position_toggle(now_ms) == w.stop_toggle(),
        w.position_toggle(now_ms) is Some,
        ({
            let (next, e) = w.after_update_position(now_ms, true);
            &&& next.worker_state == (WorkerState::WaitingForStopConfirmation {
                current_pos: next.state.current_position,
            })
            &&& next.state.current_position as int == w.position_at(now_ms)
            &&& e == notify_only()
        }),
{
    assert(0 <= w.position_at(now_ms) <= 255);
}

/// An estimated position never exceeds fully open going up, and never
/// exceeds the start position going down.
pub proof fn lemma_estimate_bounds(
    config: WindowCoveringConfig,
    direction: PositionState,
    started_at_ms: int,
    start_pos: u8,
    now_ms: int,
)
    ensures
        0 <= estimated_position(config, direction, started_at_ms, start_pos as int, now_ms),
        direction == PositionState::MovingUp ==>
            estimated_position(config, direction, started_at_ms, start_pos as int, now_ms) <= FULLY_OPENED,
        direction != PositionState::MovingUp ==>
            estimated_position(config, direction, started_at_ms, start_pos as int, now_ms) <= start_pos,
{
}

/// A travel that has lasted its full time covers at least the whole way.
proof fn lemma_full_travel_covers_all(elapsed: int, travel: int)
    requires
        0 < travel <= elapsed,
    ensures
        travel_percent(elapsed, travel) >= 100,
{
    assert((elapsed * 200 + travel) / (2 * travel) >= 100) by (nonlinear_arith)
        requires
            0 < travel <= elapsed,
    {
        assert(elapsed * 200 + travel >= 200 * travel);
        assert(200 * travel == (2 * travel) * 100);
    }
}

/// A movement the worker started reaches its target once the blind has
/// travelled for the full travel time of its direction: the periodic update
/// then sends the stop toggle. Going up, this holds as long as the start
/// position plus the covered percentage still fits in a byte (the position
/// is a byte, and a larger sum wraps around).
pub proof fn lemma_internal_movement_reaches_target(w: WindowCoveringWorker, now_ms: u64)
    requires
        w.worker_state matches WorkerState::MovingInternal { target, direction, started_at_ms, start_pos }
            && target <= FULLY_OPENED
            && start_pos <= FULLY_OPENED
            && direction != PositionState::Stopped
            && ({
                let travel = if direction == PositionState::MovingUp {
                    w.config.opening_time_ms as int
                } else {
                    w.config.closing_time_ms as int
                };
                &&& 0 < travel
                &&& now_ms >= started_at_ms + travel
                &&& direction == PositionState::MovingUp ==>
                    start_pos + travel_percent(now_ms - started_at_ms, travel) <= 255
            }),
    ensures
        w.target_reached_at(now_ms),
        w.position_toggle(now_ms) == Some(w.worker_state.moving_direction() == Some(PositionState::MovingDown)),
{
    if let WorkerState::MovingInternal { target, direction, started_at_ms, start_pos } = w.worker_state {
        let travel = if direction == PositionState::MovingUp {
            w.config.opening_time_ms as int
        } else {
            w.config.closing_time_ms as int
        };
        let elapsed = now_ms - started_at_ms;
        lemma_full_travel_covers_all(elapsed, travel);
        let change = travel_percent(elapsed, travel);
        assert(w.position_at(now_ms) == moved_position(start_pos as int, change, direction));
        if direction == PositionState::MovingUp {
            assert((start_pos + change) % 256 == start_pos + change);
            assert(w.position_at(now_ms) == FULLY_OPENED);
        } else {
            assert(w.position_at(now_ms) == FULLY_CLOSED);
        }
        assert(reached(w.position_at(now_ms), target as int, direction));
    }
}

/// When a movement the worker started ends on a "stopped" report, the blind
/// stays where its position was estimated, unless that is within 5 of the
/// target: then it is taken to be at the target (going up, never beyond
/// fully open). Either way it rests there, with the target set to that
/// position, and the worker is idle.
pub proof fn lemma_stopped_movement_keeps_estimate(w: WindowCoveringWorker, now_ms: u64)
    requires
        w.worker_state matches WorkerState::MovingInternal { target, .. } && target <= 100,
        w.state.current_position <= 100,
    ensures
        ({
            let next = w.after_status_update(PositionState::Stopped, now_ms).0;
            let cur = w.state.current_position as int;
            let target = match w.worker_state {
                WorkerState::MovingInternal { target, .. } => target as int,
                _ => 0,
            };
            &&& (cur - target > 5 || target - cur > 5) ==> next.state.current_position == cur
            &&& (cur - target <= 5 && target - cur <= 5) ==> next.state.current_position == target
            &&& next.state.target_position == next.state.current_position
            &&& next.state.position_state == PositionState::Stopped
            &&& next.worker_state == WorkerState::Idle
        }),
{
}

/// A move request to another position while the worker follows a movement
/// first stops the blind: it sends the stop toggle, which is "on" exactly
/// when the blind is going down (the opposite of the toggle that started the
/// movement).
pub proof fn lemma_move_while_moving_sends_stop(w: WindowCoveringWorker, new_pos: u8)
    requires
        w.worker_state.moving_direction() is Some,
        new_pos != w.state.current_position,
    ensures
        w.move_to_toggle(new_pos) == Some(w.worker_state.moving_direction() == Some(PositionState::MovingDown)),
        w.move_to_toggle(new_pos) == w.stop_toggle(),
        w.worker_state.moving_direction() == Some(PositionState::MovingUp) ==> w.move_to_toggle(new_pos) == Some(false),
        w.worker_state.moving_direction() == Some(PositionState::MovingDown) ==> w.move_to_toggle(new_pos) == Some(true),
{
}

} // verus!
