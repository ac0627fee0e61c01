//! Anonymous telemetry of the daemon: what is queued, and what is sent when.
use vstd::prelude::*;

use crate::session::{asks, Dialogue, Session, Stop};
use crate::types::{Capabilities, PowerProfile};

verus! {

/// The time without a message after which the state of the machine is reported, in seconds.
pub const TELEMETRY_INTERVAL_S: u64 = 300;

/// A report of the daemon.
#[derive(PartialEq, Eq, Debug)]
pub enum TelemetryData {
    Startup {
        host: String,
        profile: String,
        forced_profile: bool,
        firmware: String,
        hram_offset: u16,
        caps: Box<Capabilities>,
        restore_error: Option<String>,
    },
    Unsupported { host: String, chip: Option<String> },
    Status { profile: PowerProfile, temps: [u32; 2], fans: [u32; 2] },
    Panic { error: String },
}

/// A report with the number of the client that sends it.
#[derive(PartialEq, Eq, Debug)]
pub struct TelemetryPayload {
    pub id: u64,
    pub data: TelemetryData,
}

/// The telemetry of one daemon.
pub struct Telemetry {
    pub enabled: bool,
    pub client_id: u64,
    /// Reports that wait for the worker; there is no queue before the worker has been set up.
    pub queue: Option<Vec<TelemetryData>>,
}

impl Telemetry {
    /// The waiting reports.
    pub open spec fn waiting(self) -> Option<Seq<TelemetryData>> {
        match self.queue {
            Some(queue) => Some(queue@),
            None => None,
        }
    }

    /// The waiting reports once `data` has been handed in.
    pub open spec fn queued(self, data: TelemetryData) -> Option<Seq<TelemetryData>> {
        match self.waiting() {
            Some(queue) => if self.enabled {
                Some(queue.push(data))
            } else {
                Some(queue)
            },
            None => None,
        }
    }

    /// Telemetry before it has been set up: on, anonymous, and without a queue.
    pub fn unset() -> (telemetry: Telemetry)
        ensures
            telemetry.enabled,
            telemetry.client_id == 0,
            telemetry.waiting() is None,
    {
        Telemetry { enabled: true, client_id: 0, queue: None }
    }
}

/// Sets telemetry up for the client `client_id`.
pub fn init(telemetry: &mut Telemetry, start_enabled: bool, client_id: u64)
    requires
        old(telemetry).waiting() is None,
    ensures
        final(telemetry).enabled == start_enabled,
        final(telemetry).client_id == client_id,
        final(telemetry).waiting() == Some(Seq::<TelemetryData>::empty()),
{
    telemetry.enabled = start_enabled;
    telemetry.client_id = client_id;
    telemetry.queue = Some(Vec::new());
}

/// Queues a report, if telemetry is on and has been set up.
pub fn send(telemetry: &mut Telemetry, data: TelemetryData)
    ensures
        final(telemetry).enabled == old(telemetry).enabled,
        final(telemetry).client_id == old(telemetry).client_id,
        final(telemetry).waiting() == old(telemetry).queued(data),
{
    if is_enabled(telemetry) {
        match telemetry.queue.take() {
            Some(queue) => {
                let mut queue = queue;
                queue.push(data);
                telemetry.queue = Some(queue);
            },
            None => {},
        }
    }
}

/// Turns telemetry on.
pub fn enable(telemetry: &mut Telemetry)
    ensures
        *final(telemetry) == (Telemetry { enabled: true, ..*old(telemetry) }),
{
    telemetry.enabled = true;
}

/// Turns telemetry off.
pub fn disable(telemetry: &mut Telemetry)
    ensures
        *final(telemetry) == (Telemetry { enabled: false, ..*old(telemetry) }),
{
    telemetry.enabled = false;
}

/// Whether telemetry is on.
pub fn is_enabled(telemetry: &Telemetry) -> (enabled: bool)
    ensures
        enabled == telemetry.enabled,
{
    telemetry.enabled
}

// ---- The worker ----

/// What the worker wakes up to.
#[derive(PartialEq, Eq, Debug)]
pub enum WorkerEvent {
    /// A queued report.
    Message(TelemetryData),
    /// Nothing was queued for the whole interval.
    Timeout,
    /// Nothing will be queued any more.
    Disconnected,
}

/// What the worker does next.
#[derive(PartialEq, Eq, Debug)]
pub enum WorkerAction {
    /// Send a payload to the server, then wait.
    Post(TelemetryPayload),
    Wait,
    Exit,
}

/// What the worker asks of the device.
#[derive(Clone, Copy, PartialEq, Eq, Debug, Structural)]
pub enum StatusRequest {
    ReadPowerProfile,
    ReadTemperatures,
    ReadFansRpm,
}

/// The answers.
#[derive(Clone, Copy, PartialEq, Eq, Debug, Structural)]
pub enum StatusReply {
    Profile(PowerProfile),
    /// The temperatures of the processor and of the system.
    Temperatures(u8, u8),
    /// The speeds of the two fans.
    Fans(u16, u16),
    Failed,
}

pub type StatusIo = Session<StatusRequest, StatusReply>;

pub type StatusTalk = Dialogue<StatusRequest, StatusReply>;

pub type StatusRun<T> = (StatusTalk, Result<T, Stop<()>>);

/// The state of the machine.
#[derive(Clone, Copy, PartialEq, Eq, Debug)]
pub struct Status {
    pub profile: PowerProfile,
    pub temps: (u8, u8),
    pub fans: (u16, u16),
}

/// Reading the state of the machine: the profile, the temperatures and the fans, in this order, up
/// to the first one that cannot be read.
pub open spec fn status_run(d: StatusTalk) -> StatusRun<Option<Status>> {
    match asks::<StatusRequest, StatusReply, ()>(d, StatusRequest::ReadPowerProfile) {
        (d, Err(stop)) => (d, Err(stop)),
        (d, Ok(StatusReply::Profile(profile))) => match asks::<StatusRequest, StatusReply, ()>(
            d,
            StatusRequest::ReadTemperatures,
        ) {
            (d, Err(stop)) => (d, Err(stop)),
            (d, Ok(StatusReply::Temperatures(cpu, sys))) => match asks::<
                StatusRequest,
                StatusReply,
                (),
            >(d, StatusRequest::ReadFansRpm) {
                (d, Err(stop)) => (d, Err(stop)),
                (d, Ok(StatusReply::Fans(first, second))) => (
                    d,
                    Ok(Some(Status { profile, temps: (cpu, sys), fans: (first, second) })),
                ),
                (d, Ok(_)) => (d, Ok(None)),
            },
            (d, Ok(_)) => (d, Ok(None)),
        },
        (d, Ok(_)) => (d, Ok(None)),
    }
}

/// `payload` reports `status` for the client `id`.
pub open spec fn reports(payload: TelemetryPayload, id: u64, status: Status) -> bool {
    &&& payload.id == id
    &&& payload.data matches TelemetryData::Status { profile, temps, fans } && profile
        == status.profile && temps@ == seq![status.temps.0 as u32, status.temps.1 as u32] && fans@
        == seq![status.fans.0 as u32, status.fans.1 as u32]
}

fn read_status(io: &mut StatusIo) -> (result: Result<Option<Status>, Stop<()>>)
    ensures
        (final(io)@, result) == status_run(old(io)@),
{
    let profile = match *io.ask(StatusRequest::ReadPowerProfile)? {
        StatusReply::Profile(profile) => profile,
        _ => {
            return Ok(None);
        },
    };
    let temps = match *io.ask(StatusRequest::ReadTemperatures)? {
        StatusReply::Temperatures(cpu, sys) => (cpu, sys),
        _ => {
            return Ok(None);
        },
    };
    let fans = match *io.ask(StatusRequest::ReadFansRpm)? {
        StatusReply::Fans(first, second) => (first, second),
        _ => {
            return Ok(None);
        },
    };
    Ok(Some(Status { profile, temps, fans }))
}

/// The payload in which a report is sent to the server.
pub fn payload(telemetry: &Telemetry, data: TelemetryData) -> (payload: TelemetryPayload)
    ensures
        payload == (TelemetryPayload { id: telemetry.client_id, data }),
{
    TelemetryPayload { id: telemetry.client_id, data }
}

/// `result` is the outcome of one turn of the worker, which leads the conversation from `before` to
/// `after`.
pub open spec fn turns(
    telemetry: Telemetry,
    event: WorkerEvent,
    has_device: bool,
    before: StatusTalk,
    after: StatusTalk,
    result: Result<WorkerAction, Stop<()>>,
) -> bool {
    match event {
        WorkerEvent::Message(data) => {
            &&& after == before
            &&& result == Ok::<WorkerAction, Stop<()>>(
                if telemetry.enabled {
                    WorkerAction::Post(TelemetryPayload { id: telemetry.client_id, data })
                } else {
                    WorkerAction::Wait
                },
            )
        },
        WorkerEvent::Timeout => if telemetry.enabled && has_device {
            &&& after == status_run(before).0
            &&& match status_run(before).1 {
                Err(stop) => result == Err::<WorkerAction, Stop<()>>(stop),
                Ok(None) => result == Ok::<WorkerAction, Stop<()>>(WorkerAction::Wait),
                Ok(Some(status)) => result matches Ok(WorkerAction::Post(sent)) && reports(
                    sent,
                    telemetry.client_id,
                    status,
                ),
            }
        } else {
            &&& after == before
            &&& result == Ok::<WorkerAction, Stop<()>>(WorkerAction::Wait)
        },
        WorkerEvent::Disconnected => {
            &&& after == before
            &&& result == Ok::<WorkerAction, Stop<()>>(WorkerAction::Exit)
        },
    }
}

/// One turn of the worker. A queued report is sent; when none came, the state of the machine is
/// read from the device, if there is one, and sent. Nothing is read or sent while telemetry is off.
pub fn worker_step(
    telemetry: &Telemetry,
    event: WorkerEvent,
    has_device: bool,
    io: &mut StatusIo,
) -> (result: Result<WorkerAction, Stop<()>>)
    ensures
        turns(*telemetry, event, has_device, old(io)@, final(io)@, result),
{
    match event {
        WorkerEvent::Message(data) => {
            if is_enabled(telemetry) {
                Ok(WorkerAction::Post(payload(telemetry, data)))
            } else {
                Ok(WorkerAction::Wait)
            }
        },
        WorkerEvent::Timeout => {
            if !is_enabled(telemetry) || !has_device {
                return Ok(WorkerAction::Wait);
            }
            match read_status(io)? {
                Some(status) => Ok(
                    WorkerAction::Post(
                        payload(
                            telemetry,
                            TelemetryData::Status {
                                profile: status.profile,
                                temps: [status.temps.0 as u32, status.temps.1 as u32],
                                fans: [status.fans.0 as u32, status.fans.1 as u32],
                            },
                        ),
                    ),
                ),
                None => Ok(WorkerAction::Wait),
            }
        },
        WorkerEvent::Disconnected => Ok(WorkerAction::Exit),
    }
}

/// The state of the machine is read in one order, and told only if all of it could be read: each value
/// is then the one that was answered.
pub proof fn law_the_status_is_what_was_read(d: StatusTalk)
    requires
        0 <= d.used,
        d.used + 3 <= d.replies.len(),
    ensures
        ({
            let (end, result) = status_run(d);
            let first = d.asked.len() as int;
            &&& result matches Ok(told) && match (
                d.replies[d.used],
                d.replies[d.used + 1],
                d.replies[d.used + 2],
            ) {
                (
                    StatusReply::Profile(profile),
                    StatusReply::Temperatures(cpu, sys),
                    StatusReply::Fans(one, two),
                ) => told matches Some(status) && status.profile == profile && status.temps.0 == cpu
                    && status.temps.1 == sys && status.fans.0 == one && status.fans.1 == two,
                _ => told is None,
            }
            &&& end.asked.len() > first
            &&& end.asked[first] == StatusRequest::ReadPowerProfile
            &&& end.asked.len() > first + 1 <==> d.replies[d.used] is Profile
            &&& end.asked.len() > first + 1 ==> end.asked[first + 1]
                == StatusRequest::ReadTemperatures
            &&& end.asked.len() > first + 2 <==> d.replies[d.used] is Profile
                && d.replies[d.used + 1] is Temperatures
            &&& end.asked.len() > first + 2 ==> end.asked[first + 2] == StatusRequest::ReadFansRpm
            &&& end.asked.len() <= first + 3
        }),
{
}

/// A report of the state carries the number of the client and the numbers that were read, each in its
/// place.
pub proof fn law_a_report_carries_the_numbers(payload: TelemetryPayload, id: u64, status: Status)
    requires
        reports(payload, id, status),
    ensures
        payload.id == id,
        payload.data matches TelemetryData::Status { profile, temps, fans } && {
            &&& profile == status.profile
            &&& temps@[0] == status.temps.0
            &&& temps@[1] == status.temps.1
            &&& fans@[0] == status.fans.0
            &&& fans@[1] == status.fans.1
        },
{
}

/// A report waits behind those that came before it, if telemetry is on; it is dropped if it is off, and
/// there is no queue before telemetry has been set up.
pub proof fn law_reports_wait_in_turn(telemetry: Telemetry, data: TelemetryData)
    ensures
        telemetry.waiting() is None ==> telemetry.queued(data) is None,
        telemetry.waiting() matches Some(queue) ==> {
            &&& !telemetry.enabled ==> telemetry.queued(data) == Some(queue)
            &&& telemetry.enabled ==> (telemetry.queued(data) matches Some(longer) && longer.len()
                == queue.len() + 1 && longer.last() == data && longer.drop_last() == queue)
        },
{
    if let Some(queue) = telemetry.waiting() {
        assert(queue.push(data).drop_last() =~= queue);
    }
}

/// While telemetry is off nothing is sent and nothing is read from the machine, whatever the worker
/// wakes up to.
pub proof fn law_nothing_is_sent_while_off(
    telemetry: Telemetry,
    event: WorkerEvent,
    has_device: bool,
    before: StatusTalk,
    after: StatusTalk,
    result: Result<WorkerAction, Stop<()>>,
)
    requires
        turns(telemetry, event, has_device, before, after, result),
        !telemetry.enabled,
    ensures
        after == before,
        result matches Ok(action) && !(action is Post),
{
}

/// While telemetry is on, a report is sent as it was handed in, under the number of the client; without
/// one the state is read from the machine, if there is one, and sent if all of it could be read. The
/// worker ends exactly when nothing can come any more.
pub proof fn law_what_is_sent_while_on(
    telemetry: Telemetry,
    event: WorkerEvent,
    has_device: bool,
    before: StatusTalk,
    after: StatusTalk,
    result: Result<WorkerAction, Stop<()>>,
)
    requires
        turns(telemetry, event, has_device, before, after, result),
        telemetry.enabled,
    ensures
        event matches WorkerEvent::Message(data) ==> after == before && (result matches Ok(
            WorkerAction::Post(sent),
        ) && sent.id == telemetry.client_id && sent.data == data),
        event is Timeout && !has_device ==> after == before && result == Ok::<
            WorkerAction,
            Stop<()>,
        >(WorkerAction::Wait),
        event is Timeout && has_device ==> after == status_run(before).0 && match status_run(
            before,
        ).1 {
            Ok(Some(status)) => result matches Ok(WorkerAction::Post(sent)) && sent.id
                == telemetry.client_id && reports(sent, telemetry.client_id, status),
            Ok(None) => result == Ok::<WorkerAction, Stop<()>>(WorkerAction::Wait),
            Err(stop) => result == Err::<WorkerAction, Stop<()>>(stop),
        },
        event is Disconnected <==> result == Ok::<WorkerAction, Stop<()>>(WorkerAction::Exit),
{
}

} // verus!
