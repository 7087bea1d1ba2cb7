//! One bench's lifecycle: identity, latest telemetry, operating state and the
//! completion status of the current qualification run.
use vstd::prelude::*;

use crate::clock::{millis_in_range, now_millis, rfc3339_of_millis, rfc3339_text};
use crate::command::{AnnounceCompletionPayload, Command, RequestDataPayload};

verus! {

/// Operating state. It cycles through `Standby`: a bench never moves
/// between `Charge` and `Discharge` directly.
#[derive(Clone, Copy, Debug, PartialEq, Eq, Structural)]
pub enum BatteryBenchState {
    Standby,
    Charge,
    Discharge,
}

impl Default for BatteryBenchState {
    fn default() -> (r: BatteryBenchState)
        ensures
            r == BatteryBenchState::Standby,
    {
        BatteryBenchState::Standby
    }
}

/// Completion status of the current run; `Success` and `Fail` are final
/// until a new run starts.
#[derive(Clone, Copy, Debug, PartialEq, Eq, Structural)]
pub enum CompletionStatus {
    Success,
    Fail,
    InProgress,
}

/// Why a bench could not be built or moved.
#[derive(Clone, Copy, Debug, PartialEq, Eq, Structural)]
pub enum BenchError {
    MissingId,
    MissingPort,
    /// A move along the operating-state or completion axis that is not an
    /// allowed edge.
    InvalidTransition,
}

/// One physical bench. Temperatures, voltage and current are raw readings
/// (tenths of a unit); timestamps are milliseconds since the Unix epoch.
#[derive(Clone, Debug)]
pub struct BatteryBench {
    pub id: u8,
    pub port: String,
    pub temperature: u16,
    pub battery_temperature: u16,
    pub electronic_load_temperature: u16,
    pub voltage: u16,
    pub current: u16,
    pub state: BatteryBenchState,
    pub status: CompletionStatus,
    pub start_date: i64,
    pub end_date: i64,
}

/// The mathematical value of a bench.
pub struct BenchView {
    pub id: u8,
    pub port: Seq<char>,
    pub telemetry: RequestDataPayload,
    pub state: BatteryBenchState,
    pub status: CompletionStatus,
    pub start_date: i64,
    pub end_date: i64,
}

impl View for BatteryBench {
    type V = BenchView;

    open spec fn view(&self) -> BenchView {
        BenchView {
            id: self.id,
            port: self.port@,
            telemetry: RequestDataPayload {
                battery_temperature: self.battery_temperature,
                bench_temperature: self.temperature,
                load_temperature: self.electronic_load_temperature,
                voltage: self.voltage,
                current: self.current,
            },
            state: self.state,
            status: self.status,
            start_date: self.start_date,
            end_date: self.end_date,
        }
    }
}

/// The allowed one-step moves of the operating state: into `Standby` from
/// `Charge` or `Discharge`, and out of `Standby` into either of them.
pub open spec fn transition_allowed(from: BatteryBenchState, to: BatteryBenchState) -> bool {
    (from == BatteryBenchState::Standby) != (to == BatteryBenchState::Standby)
}

/// The completion status announced by a completion flag: any non-zero flag
/// is a success.
pub open spec fn status_for_flag(flag: u8) -> CompletionStatus {
    if flag != 0 {
        CompletionStatus::Success
    } else {
        CompletionStatus::Fail
    }
}

pub open spec fn state_name(s: BatteryBenchState) -> Seq<char> {
    match s {
        BatteryBenchState::Standby => "Standby"@,
        BatteryBenchState::Charge => "Charge"@,
        BatteryBenchState::Discharge => "Discharge"@,
    }
}

pub open spec fn status_name(s: CompletionStatus) -> Seq<char> {
    match s {
        CompletionStatus::Success => "Success"@,
        CompletionStatus::Fail => "Fail"@,
        CompletionStatus::InProgress => "InProgress"@,
    }
}

impl BatteryBenchState {
    /// The variant's name.
    pub fn name(&self) -> (r: &'static str)
        ensures
            r@ == state_name(*self),
    {
        match self {
            BatteryBenchState::Standby => "Standby",
            BatteryBenchState::Charge => "Charge",
            BatteryBenchState::Discharge => "Discharge",
        }
    }
}

impl CompletionStatus {
    /// The variant's name.
    pub fn name(&self) -> (r: &'static str)
        ensures
            r@ == status_name(*self),
    {
        match self {
            CompletionStatus::Success => "Success",
            CompletionStatus::Fail => "Fail",
            CompletionStatus::InProgress => "InProgress",
        }
    }
}


/// A bench's loggable record: every field, with the two enums by name and
/// the timestamps as RFC 3339 text.
pub struct LogRecord {
    pub id: u8,
    pub port: String,
    pub temperature: u16,
    pub battery_temperature: u16,
    pub electronic_load_temperature: u16,
    pub voltage: u16,
    pub current: u16,
    pub state: String,
    pub status: String,
    pub start_date: String,
    pub end_date: String,
}

impl BatteryBench {
    /// A completed run ends no earlier than it started.
    pub open spec fn wf(&self) -> bool {
        self.status != CompletionStatus::InProgress ==> self.start_date <= self.end_date
    }

    /// A fresh bench with zeroed telemetry, in `Standby`, with a run in
    /// progress that started (and provisionally ends) at `now`. Fails when the
    /// id or the port is absent, the id being checked first.
    pub fn new_at(id: Option<u8>, port: Option<String>, now: i64) -> (r: Result<
        BatteryBench,
        BenchError,
    >)
        ensures
            id is None ==> r == Err::<BatteryBench, BenchError>(BenchError::MissingId),
            id is Some && port is None ==> r == Err::<BatteryBench, BenchError>(
                BenchError::MissingPort,
            ),
            id is Some && port is Some ==> (r matches Ok(b) && b.wf() && b@ == (BenchView {
                id: id->0,
                port: port->0@,
                telemetry: RequestDataPayload {
                    battery_temperature: 0,
                    bench_temperature: 0,
                    load_temperature: 0,
                    voltage: 0,
                    current: 0,
                },
                state: BatteryBenchState::Standby,
                status: CompletionStatus::InProgress,
                start_date: now,
                end_date: now,
            })),
    {
        match id {
            None => Err(BenchError::MissingId),
            Some(id) => match port {
                None => Err(BenchError::MissingPort),
                Some(port) => Ok(
                    BatteryBench {
                        id,
                        port,
                        temperature: 0,
                        battery_temperature: 0,
                        electronic_load_temperature: 0,
                        voltage: 0,
                        current: 0,
                        state: BatteryBenchState::Standby,
                        status: CompletionStatus::InProgress,
                        start_date: now,
                        end_date: now,
                    },
                ),
            },
        }
    }

    /// As `new_at`, with the run starting at the current time.
    pub fn new(id: Option<u8>, port: Option<String>) -> (r: Result<BatteryBench, BenchError>)
        ensures
            id is None ==> r == Err::<BatteryBench, BenchError>(BenchError::MissingId),
            id is Some && port is None ==> r == Err::<BatteryBench, BenchError>(
                BenchError::MissingPort,
            ),
            id is Some && port is Some ==> (r matches Ok(b) && b.wf() && b.id == id->0
                && b.port@ == port->0@ && b.state == BatteryBenchState::Standby && b.status
                == CompletionStatus::InProgress && b.start_date == b.end_date && b.temperature == 0
                && b.battery_temperature == 0 && b.electronic_load_temperature == 0 && b.voltage
                == 0 && b.current == 0),
    {
        let now = now_millis();
        BatteryBench::new_at(id, port, now)
    }

    /// Starts a new run at `now`: the status goes back to `InProgress` and both
    /// timestamps are set to `now`. Nothing else changes.
    pub fn start_sequence_at(&mut self, now: i64)
        ensures
            final(self)@ == (BenchView {
                status: CompletionStatus::InProgress,
                start_date: now,
                end_date: now,
                ..old(self)@
            }),
            final(self).wf(),
    {
        self.status = CompletionStatus::InProgress;
        self.start_date = now;
        self.end_date = now;
    }

    /// As `start_sequence_at`, at the current time.
    pub fn start_sequence(&mut self)
        ensures
            final(self).status == CompletionStatus::InProgress,
            final(self).start_date == final(self).end_date,
            final(self)@ == (BenchView {
                status: CompletionStatus::InProgress,
                start_date: final(self).start_date,
                end_date: final(self).end_date,
                ..old(self)@
            }),
            final(self).wf(),
    {
        let now = now_millis();
        self.start_sequence_at(now);
    }

    /// Moves the operating state to `to` when that is an allowed edge; else
    /// fails with `InvalidTransition` and changes nothing.
    pub fn set_state(&mut self, to: BatteryBenchState) -> (r: Result<(), BenchError>)
        ensures
            transition_allowed(old(self).state, to) ==> r == Ok::<(), BenchError>(()) && final(self)@ == (BenchView {
                state: to,
                ..old(self)@
            }),
            !transition_allowed(old(self).state, to) ==> r == Err::<(), BenchError>(
                BenchError::InvalidTransition,
            ) && final(self)@ == old(self)@,
            old(self).wf() ==> final(self).wf(),
    {
        let from_standby = match self.state {
            BatteryBenchState::Standby => true,
            _ => false,
        };
        let to_standby = match to {
            BatteryBenchState::Standby => true,
            _ => false,
        };
        if from_standby != to_standby {
            self.state = to;
            Ok(())
        } else {
            Err(BenchError::InvalidTransition)
        }
    }

    /// Ends the current charge or discharge step: the bench returns to
    /// `Standby`. Fails with `InvalidTransition`, changing nothing, when it is
    /// already in `Standby`.
    pub fn complete_sequence_step(&mut self) -> (r: Result<(), BenchError>)
        ensures
            old(self).state != BatteryBenchState::Standby ==> r == Ok::<(), BenchError>(()) && final(self)@ == (
            BenchView { state: BatteryBenchState::Standby, ..old(self)@ }),
            old(self).state == BatteryBenchState::Standby ==> r == Err::<(), BenchError>(
                BenchError::InvalidTransition,
            ) && final(self)@ == old(self)@,
            old(self).wf() ==> final(self).wf(),
    {
        self.set_state(BatteryBenchState::Standby)
    }

    /// Closes the current run with `Success` or `Fail`, ending it at `now`, or
    /// at its start if `now` is earlier. A run that is already closed is not
    /// closed again: that fails with `InvalidTransition` and changes nothing.
    pub fn complete_sequence_at(&mut self, success: bool, now: i64) -> (r: Result<(), BenchError>)
        ensures
            old(self).status == CompletionStatus::InProgress ==> r == Ok::<(), BenchError>(()) && final(self)@ == (
            BenchView {
                status: if success {
                    CompletionStatus::Success
                } else {
                    CompletionStatus::Fail
                },
                end_date: if now < old(self).start_date {
                    old(self).start_date
                } else {
                    now
                },
                ..old(self)@
            }),
            old(self).status != CompletionStatus::InProgress ==> r == Err::<(), BenchError>(
                BenchError::InvalidTransition,
            ) && final(self)@ == old(self)@,
            old(self).wf() ==> final(self).wf(),
    {
        match self.status {
            CompletionStatus::InProgress => {
                self.status = if success {
                    CompletionStatus::Success
                } else {
                    CompletionStatus::Fail
                };
                self.end_date = if now < self.start_date {
                    self.start_date
                } else {
                    now
                };
                Ok(())
            },
            _ => Err(BenchError::InvalidTransition),
        }
    }

    /// As `complete_sequence_at`, at the current time.
    pub fn complete_sequence(&mut self, success: bool) -> (r: Result<(), BenchError>)
        ensures
            old(self).status == CompletionStatus::InProgress ==> r == Ok::<(), BenchError>(()) && final(self)@ == (
            BenchView {
                status: if success {
                    CompletionStatus::Success
                } else {
                    CompletionStatus::Fail
                },
                end_date: final(self).end_date,
                ..old(self)@
            }) && final(self).end_date >= old(self).start_date,
            old(self).status != CompletionStatus::InProgress ==> r == Err::<(), BenchError>(
                BenchError::InvalidTransition,
            ) && final(self)@ == old(self)@,
            old(self).wf() ==> final(self).wf(),
    {
        let now = now_millis();
        self.complete_sequence_at(success, now)
    }

    /// Overwrites all five telemetry readings at once; nothing else changes.
    pub fn update_telemetry(&mut self, t: RequestDataPayload)
        ensures
            final(self)@ == (BenchView { telemetry: t, ..old(self)@ }),
            old(self).wf() ==> final(self).wf(),
    {
        self.battery_temperature = t.battery_temperature;
        self.temperature = t.bench_temperature;
        self.electronic_load_temperature = t.load_temperature;
        self.voltage = t.voltage;
        self.current = t.current;
    }

    /// Applies a command addressed to this bench at time `now`. `SetStandby`,
    /// `SetCharge` and `SetDischarge` move the operating state;
    /// `AnnounceCompletion` closes the run (a non-zero flag is a success);
    /// `RequestData` overwrites the telemetry; `AssignID` gives the bench its
    /// new id; `Ping` changes nothing.
    pub fn apply_command_at(&mut self, c: Command, now: i64) -> (r: Result<(), BenchError>)
        ensures
            r == apply_result(old(self)@, c),
            r is Ok ==> final(self)@ == applied(old(self)@, c, now),
            r is Err ==> final(self)@ == old(self)@,
            old(self).wf() ==> final(self).wf(),
    {
        match c {
            Command::Ping(_) => Ok(()),
            Command::AssignID(p) => {
                self.id = p.new_id;
                Ok(())
            },
            Command::RequestData(t) => {
                self.update_telemetry(t);
                Ok(())
            },
            Command::SetStandby => self.set_state(BatteryBenchState::Standby),
            Command::SetDischarge => self.set_state(BatteryBenchState::Discharge),
            Command::SetCharge => self.set_state(BatteryBenchState::Charge),
            Command::AnnounceCompletion(p) => self.complete_sequence_at(p.flag != 0, now),
        }
    }

    /// The record logged for this bench: its fields, the state and status by
    /// name, and both timestamps as RFC 3339 text. Always given for timestamps
    /// in years 1970 to 9999; `None` only when chrono cannot represent one.
    pub fn log_record(&self) -> (r: Option<LogRecord>)
        ensures
            r matches Some(rec) ==> {
                &&& rec.id == self.id
                &&& rec.port@ == self.port@
                &&& rec.temperature == self.temperature
                &&& rec.battery_temperature == self.battery_temperature
                &&& rec.electronic_load_temperature == self.electronic_load_temperature
                &&& rec.voltage == self.voltage
                &&& rec.current == self.current
                &&& rec.state@ == state_name(self.state)
                &&& rec.status@ == status_name(self.status)
                &&& rec.start_date@ == rfc3339_text(self.start_date)
                &&& rec.end_date@ == rfc3339_text(self.end_date)
            },
            millis_in_range(self.start_date) && millis_in_range(self.end_date) ==> r is Some,
    {
        let start = match rfc3339_of_millis(self.start_date) {
            Some(s) => s,
            None => return None,
        };
        let end = match rfc3339_of_millis(self.end_date) {
            Some(s) => s,
            None => return None,
        };
        Some(
            LogRecord {
                id: self.id,
                port: self.port.clone(),
                temperature: self.temperature,
                battery_temperature: self.battery_temperature,
                electronic_load_temperature: self.electronic_load_temperature,
                voltage: self.voltage,
                current: self.current,
                state: self.state.name().to_owned(),
                status: self.status.name().to_owned(),
                start_date: start,
                end_date: end,
            },
        )
    }
}

/// Whether applying `c` to bench `b` succeeds.
pub open spec fn apply_result(b: BenchView, c: Command) -> Result<(), BenchError> {
    if match c {
        Command::SetStandby => transition_allowed(b.state, BatteryBenchState::Standby),
        Command::SetDischarge => transition_allowed(b.state, BatteryBenchState::Discharge),
        Command::SetCharge => transition_allowed(b.state, BatteryBenchState::Charge),
        Command::AnnounceCompletion(_) => b.status == CompletionStatus::InProgress,
        Command::Ping(_) | Command::AssignID(_) | Command::RequestData(_) => true,
    } {
        Ok(())
    } else {
        Err(BenchError::InvalidTransition)
    }
}

/// The bench after `c` was applied successfully at time `now`.
pub open spec fn applied(v: BenchView, c: Command, now: i64) -> BenchView {
    match c {
        Command::Ping(_) => v,
        Command::AssignID(p) => BenchView { id: p.new_id, ..v },
        Command::RequestData(t) => BenchView { telemetry: t, ..v },
        Command::SetStandby => BenchView { state: BatteryBenchState::Standby, ..v },
        Command::SetDischarge => BenchView { state: BatteryBenchState::Discharge, ..v },
        Command::SetCharge => BenchView { state: BatteryBenchState::Charge, ..v },
        Command::AnnounceCompletion(p) => BenchView {
            status: status_for_flag(p.flag),
            end_date: if now < v.start_date {
                v.start_date
            } else {
                now
            },
            ..v
        },
    }
}


/// From `Standby` exactly `Charge` and `Discharge` can be reached in one step,
/// and from `Charge` or `Discharge` exactly `Standby`; in particular a
/// direct move from `Charge` to `Discharge` is refused with
/// `InvalidTransition`.
pub proof fn lemma_operating_transitions(v: BenchView)
    ensures
        forall|to: BatteryBenchState| #[trigger]
            transition_allowed(BatteryBenchState::Standby, to) <==> (to == BatteryBenchState::Charge
                || to == BatteryBenchState::Discharge),
        forall|to: BatteryBenchState| #[trigger]
            transition_allowed(BatteryBenchState::Charge, to) <==> to == BatteryBenchState::Standby,
        forall|to: BatteryBenchState| #[trigger]
            transition_allowed(BatteryBenchState::Discharge, to) <==> to
                == BatteryBenchState::Standby,
        v.state == BatteryBenchState::Charge ==> apply_result(v, Command::SetDischarge) == Err::<
            (),
            BenchError,
        >(BenchError::InvalidTransition),
{
}

/// Every command that a bench accepts either leaves its operating state as it
/// was or moves it along an allowed edge.
pub proof fn lemma_command_steps(v: BenchView, c: Command, now: i64)
    requires
        apply_result(v, c) is Ok,
    ensures
        applied(v, c, now).state == v.state || transition_allowed(v.state, applied(v, c, now).state),
{
}

/// Once a run has closed with `Success` or `Fail`, no command changes its
/// status and a further `AnnounceCompletion` is refused with
/// `InvalidTransition`.
pub proof fn lemma_completion_terminal(v: BenchView, c: Command, now: i64)
    requires
        v.status != CompletionStatus::InProgress,
    ensures
        apply_result(v, c) is Ok ==> applied(v, c, now).status == v.status,
        c is AnnounceCompletion ==> apply_result(v, c) == Err::<(), BenchError>(
            BenchError::InvalidTransition,
        ),
{
}

/// Announcing completion twice in one run: the first closes the run, the
/// second is refused.
pub proof fn lemma_second_completion_rejected(
    v: BenchView,
    first: AnnounceCompletionPayload,
    second: AnnounceCompletionPayload,
    now: i64,
)
    requires
        v.status == CompletionStatus::InProgress,
    ensures
        apply_result(v, Command::AnnounceCompletion(first)) == Ok::<(), BenchError>(()),
        apply_result(
            applied(v, Command::AnnounceCompletion(first), now),
            Command::AnnounceCompletion(second),
        ) == Err::<(), BenchError>(BenchError::InvalidTransition),
{
}

} // verus!
