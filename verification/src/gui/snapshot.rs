//! What the control centre knows of the machine, and how it is read from the daemon: one request
//! after the other, and only what the machine can tell.
use vstd::prelude::*;

use super::replies::{complaint, debug_form, ipc_error_text, ipc_success, unexpected_response};
use crate::types::{
    Capabilities, ChargeStatus, CurrentSettings, DaemonCommand, IpcRequest, IpcResponse,
    KeyboardBacklightLevel, PowerProfile, SystemInfo,
};

verus! {

#[derive(Clone, Copy, PartialEq, Eq, Debug, Structural)]
pub struct TemperatureReading {
    pub cpu_c: u8,
    pub system_c: u8,
}

#[derive(Clone, Copy, PartialEq, Eq, Debug, Structural)]
pub struct FanReading {
    pub cpu_rpm: u16,
    pub gpu_rpm: u16,
}

/// What is known of the machine.
#[derive(PartialEq, Eq, Debug)]
pub struct Snapshot {
    pub capabilities: Option<Capabilities>,
    pub system: Option<SystemInfo>,
    pub settings: Option<CurrentSettings>,
    pub temperatures: Option<TemperatureReading>,
    pub fans: Option<FanReading>,
    pub charge: Option<ChargeStatus>,
    pub power_profile: Option<PowerProfile>,
    pub keyboard_backlight: Option<KeyboardBacklightLevel>,
    /// When it was read, in milliseconds of the program's own clock.
    pub updated_at: Option<u64>,
}

/// Nothing is known.
pub open spec fn unknown() -> Snapshot {
    Snapshot {
        capabilities: None,
        system: None,
        settings: None,
        temperatures: None,
        fans: None,
        charge: None,
        power_profile: None,
        keyboard_backlight: None,
        updated_at: None,
    }
}

impl Default for Snapshot {
    fn default() -> (snapshot: Self)
        ensures
            snapshot == unknown(),
    {
        Snapshot {
            capabilities: None,
            system: None,
            settings: None,
            temperatures: None,
            fans: None,
            charge: None,
            power_profile: None,
            keyboard_backlight: None,
            updated_at: None,
        }
    }
}

/// What is read next.
#[derive(Clone, Copy, PartialEq, Eq, Debug, Structural)]
pub enum FetchStage {
    Capabilities,
    System,
    Settings,
    Temperatures,
    Fans,
    Charge,
    PowerProfile,
    Keyboard,
    Done,
}

/// The stages in their order.
pub open spec fn rank(stage: FetchStage) -> int {
    match stage {
        FetchStage::Capabilities => 0,
        FetchStage::System => 1,
        FetchStage::Settings => 2,
        FetchStage::Temperatures => 3,
        FetchStage::Fans => 4,
        FetchStage::Charge => 5,
        FetchStage::PowerProfile => 6,
        FetchStage::Keyboard => 7,
        FetchStage::Done => 8,
    }
}

/// The stage after a stage.
pub open spec fn successor(stage: FetchStage) -> FetchStage {
    match stage {
        FetchStage::Capabilities => FetchStage::System,
        FetchStage::System => FetchStage::Settings,
        FetchStage::Settings => FetchStage::Temperatures,
        FetchStage::Temperatures => FetchStage::Fans,
        FetchStage::Fans => FetchStage::Charge,
        FetchStage::Charge => FetchStage::PowerProfile,
        FetchStage::PowerProfile => FetchStage::Keyboard,
        FetchStage::Keyboard => FetchStage::Done,
        FetchStage::Done => FetchStage::Done,
    }
}

/// Whether a machine of these capabilities has anything to say at a stage.
pub open spec fn wants(capabilities: Capabilities, stage: FetchStage) -> bool {
    match stage {
        FetchStage::Temperatures => capabilities.sensors@.len() > 0,
        FetchStage::Fans => capabilities.fans@.len() > 0,
        FetchStage::Charge => capabilities.charge.supported,
        FetchStage::PowerProfile => capabilities.power_profiles@.len() > 0,
        FetchStage::Keyboard => capabilities.kbd.on_off || capabilities.kbd.levels
            || capabilities.kbd.custom,
        _ => true,
    }
}

/// The first stage from `stage` on at which the machine has anything to say.
pub open spec fn settled(capabilities: Capabilities, stage: FetchStage) -> FetchStage
    decreases 8 - rank(stage),
{
    if stage is Done || wants(capabilities, stage) {
        stage
    } else {
        settled(capabilities, successor(stage))
    }
}

/// What is asked at a stage.
pub open spec fn request_at(stage: FetchStage) -> Option<IpcRequest> {
    match stage {
        FetchStage::Capabilities => Some(IpcRequest::DaemonCommand(DaemonCommand::GetCapabilities)),
        FetchStage::System => Some(IpcRequest::GetSystemState),
        FetchStage::Settings => Some(IpcRequest::DaemonCommand(DaemonCommand::GetSettings)),
        FetchStage::Temperatures => Some(IpcRequest::GetTemperatures),
        FetchStage::Fans => Some(IpcRequest::GetFansRPM),
        FetchStage::Charge => Some(IpcRequest::GetChargeStatus),
        FetchStage::PowerProfile => Some(IpcRequest::GetPowerProfile),
        FetchStage::Keyboard => Some(IpcRequest::GetKeyboardBacklight),
        FetchStage::Done => None,
    }
}

/// The user's name for what is read at a stage.
pub open spec fn subject_at(stage: FetchStage) -> Seq<char> {
    match stage {
        FetchStage::Capabilities => "硬件能力"@,
        FetchStage::System => "系统信息"@,
        FetchStage::Settings => "当前设置"@,
        FetchStage::Temperatures => "温度数据"@,
        FetchStage::Fans => "风扇转速"@,
        FetchStage::Charge => "电池状态"@,
        FetchStage::PowerProfile => "性能模式"@,
        FetchStage::Keyboard => "键盘背光"@,
        FetchStage::Done => ""@,
    }
}

/// The snapshot with an answer taken in, if the answer fits the stage.
pub open spec fn taken(stage: FetchStage, snapshot: Snapshot, response: IpcResponse) -> Option<
    Snapshot,
> {
    match (stage, response) {
        (FetchStage::Capabilities, IpcResponse::Capabilities(value)) => Some(
            Snapshot { capabilities: Some(*value), ..snapshot },
        ),
        (FetchStage::System, IpcResponse::SystemInfo(value)) => Some(
            Snapshot { system: Some(value), ..snapshot },
        ),
        (FetchStage::Settings, IpcResponse::Settings(value)) => Some(
            Snapshot { settings: Some(*value), ..snapshot },
        ),
        (FetchStage::Temperatures, IpcResponse::Temps { cpu_c, sys_c }) => Some(
            Snapshot {
                temperatures: Some(TemperatureReading { cpu_c, system_c: sys_c }),
                ..snapshot
            },
        ),
        (FetchStage::Fans, IpcResponse::FanRpm { cpu, gpu }) => Some(
            Snapshot { fans: Some(FanReading { cpu_rpm: cpu, gpu_rpm: gpu }), ..snapshot },
        ),
        (FetchStage::Charge, IpcResponse::ChargeStatus(value)) => Some(
            Snapshot { charge: Some(value), ..snapshot },
        ),
        (FetchStage::PowerProfile, IpcResponse::PowerLimit(value)) => Some(
            Snapshot { power_profile: Some(value), ..snapshot },
        ),
        (FetchStage::Keyboard, IpcResponse::KeyboardBacklight(value)) => Some(
            Snapshot { keyboard_backlight: Some(value), ..snapshot },
        ),
        _ => None,
    }
}

/// The words for an answer that does not fit the stage.
pub open spec fn refusal(stage: FetchStage, response: IpcResponse) -> Seq<char> {
    match response {
        IpcResponse::Error(error) => ipc_error_text(error),
        _ => complaint(subject_at(stage), debug_form(response)),
    }
}

/// A snapshot that is being read.
pub struct SnapshotFetch {
    pub stage: FetchStage,
    pub snapshot: Snapshot,
}

impl SnapshotFetch {
    /// Whether what has been read and what is read next go together: everything the machine can
    /// tell before the stage has been read, and nothing else.
    pub open spec fn wf(self) -> bool {
        let known = self.snapshot;
        &&& known.updated_at is None
        &&& match known.capabilities {
            None => self.stage is Capabilities && known == unknown(),
            Some(capabilities) => {
                let at = rank(self.stage);
                &&& at > 0
                &&& wants(capabilities, self.stage)
                &&& (known.system is Some <==> at > 1)
                &&& (known.settings is Some <==> at > 2)
                &&& (known.temperatures is Some <==> at > 3 && wants(
                    capabilities,
                    FetchStage::Temperatures,
                ))
                &&& (known.fans is Some <==> at > 4 && wants(capabilities, FetchStage::Fans))
                &&& (known.charge is Some <==> at > 5 && wants(capabilities, FetchStage::Charge))
                &&& (known.power_profile is Some <==> at > 6 && wants(
                    capabilities,
                    FetchStage::PowerProfile,
                ))
                &&& (known.keyboard_backlight is Some <==> at > 7 && wants(
                    capabilities,
                    FetchStage::Keyboard,
                ))
            },
        }
    }

    /// A fetch in which nothing has been read.
    pub fn start() -> (fetch: SnapshotFetch)
        ensures
            fetch == (SnapshotFetch { stage: FetchStage::Capabilities, snapshot: unknown() }),
            fetch.wf(),
    {
        SnapshotFetch { stage: FetchStage::Capabilities, snapshot: Snapshot::default() }
    }

    /// What is to be asked next; nothing when everything has been read.
    pub fn next_request(&self) -> (request: Option<IpcRequest>)
        ensures
            request == request_at(self.stage),
    {
        match self.stage {
            FetchStage::Capabilities => Some(
                IpcRequest::DaemonCommand(DaemonCommand::GetCapabilities),
            ),
            FetchStage::System => Some(IpcRequest::GetSystemState),
            FetchStage::Settings => Some(IpcRequest::DaemonCommand(DaemonCommand::GetSettings)),
            FetchStage::Temperatures => Some(IpcRequest::GetTemperatures),
            FetchStage::Fans => Some(IpcRequest::GetFansRPM),
            FetchStage::Charge => Some(IpcRequest::GetChargeStatus),
            FetchStage::PowerProfile => Some(IpcRequest::GetPowerProfile),
            FetchStage::Keyboard => Some(IpcRequest::GetKeyboardBacklight),
            FetchStage::Done => None,
        }
    }

    /// Takes the answer to the last request in. An error of the daemon, and an answer that does not
    /// fit, end the fetch.
    pub fn accept(self, response: IpcResponse) -> (result: Result<SnapshotFetch, String>)
        requires
            self.wf(),
        ensures
            match taken(self.stage, self.snapshot, response) {
                Some(snapshot) => {
                    &&& result matches Ok(fetch) && fetch.wf() && fetch.snapshot == snapshot
                        && fetch.stage == settled(
                        snapshot.capabilities->Some_0,
                        successor(self.stage),
                    )
                },
                None => result matches Err(text) && text@ == refusal(self.stage, response),
            },
    {
        let SnapshotFetch { stage, mut snapshot } = self;
        match ipc_success(response) {
            Err(text) => {
                return Err(text);
            },
            Ok(value) => match (stage, value) {
                (FetchStage::Capabilities, IpcResponse::Capabilities(value)) => {
                    snapshot.capabilities = Some(*value);
                },
                (FetchStage::System, IpcResponse::SystemInfo(value)) => {
                    snapshot.system = Some(value);
                },
                (FetchStage::Settings, IpcResponse::Settings(value)) => {
                    snapshot.settings = Some(*value);
                },
                (FetchStage::Temperatures, IpcResponse::Temps { cpu_c, sys_c }) => {
                    snapshot.temperatures = Some(TemperatureReading { cpu_c, system_c: sys_c });
                },
                (FetchStage::Fans, IpcResponse::FanRpm { cpu, gpu }) => {
                    snapshot.fans = Some(FanReading { cpu_rpm: cpu, gpu_rpm: gpu });
                },
                (FetchStage::Charge, IpcResponse::ChargeStatus(value)) => {
                    snapshot.charge = Some(value);
                },
                (FetchStage::PowerProfile, IpcResponse::PowerLimit(value)) => {
                    snapshot.power_profile = Some(value);
                },
                (FetchStage::Keyboard, IpcResponse::KeyboardBacklight(value)) => {
                    snapshot.keyboard_backlight = Some(value);
                },
                (_, other) => {
                    return Err(unexpected_response(subject(stage), &other));
                },
            },
        }
        let next = match &snapshot.capabilities {
            Some(capabilities) => stage_after(capabilities, stage),
            None => stage,
        };
        proof {
            lemma_settled(snapshot.capabilities->Some_0, successor(stage));
        }
        Ok(SnapshotFetch { stage: next, snapshot })
    }

    /// What has been read, with the time at which it was.
    pub open spec fn finished(self, now: u64) -> Snapshot {
        Snapshot { updated_at: Some(now), ..self.snapshot }
    }

    /// The finished snapshot. It holds everything that the machine can tell, and nothing else.
    pub fn finish(self, now: u64) -> (snapshot: Snapshot)
        requires
            self.wf(),
            self.stage is Done,
        ensures
            snapshot == self.finished(now),
            complete(snapshot),
    {
        let mut snapshot = self.snapshot;
        snapshot.updated_at = Some(now);
        snapshot
    }
}

/// Everything that the machine can tell is known, and nothing else: temperatures where it has
/// sensors, speeds where it has fans, the battery where charging is supported, the profile where there
/// are any, and the backlight where it can be controlled in some way.
pub open spec fn complete(snapshot: Snapshot) -> bool {
    &&& snapshot.capabilities matches Some(capabilities) && {
        &&& snapshot.temperatures is Some <==> capabilities.sensors@.len() > 0
        &&& snapshot.fans is Some <==> capabilities.fans@.len() > 0
        &&& snapshot.charge is Some <==> capabilities.charge.supported
        &&& snapshot.power_profile is Some <==> capabilities.power_profiles@.len() > 0
        &&& snapshot.keyboard_backlight is Some <==> capabilities.kbd.on_off
            || capabilities.kbd.levels || capabilities.kbd.custom
    }
    &&& snapshot.system is Some
    &&& snapshot.settings is Some
    &&& snapshot.updated_at is Some
}

fn subject(stage: FetchStage) -> (name: &'static str)
    ensures
        name@ == subject_at(stage),
{
    match stage {
        FetchStage::Capabilities => "硬件能力",
        FetchStage::System => "系统信息",
        FetchStage::Settings => "当前设置",
        FetchStage::Temperatures => "温度数据",
        FetchStage::Fans => "风扇转速",
        FetchStage::Charge => "电池状态",
        FetchStage::PowerProfile => "性能模式",
        FetchStage::Keyboard => "键盘背光",
        FetchStage::Done => "",
    }
}

fn stage_after(capabilities: &Capabilities, stage: FetchStage) -> (next: FetchStage)
    ensures
        next == settled(*capabilities, successor(stage)),
{
    let mut next = stage;
    loop
        invariant
            settled(*capabilities, successor(next)) == settled(*capabilities, successor(stage)),
        decreases 9 - rank(next) - if next is Done { 1int } else { 0int },
    {
        let wanted = match next {
            FetchStage::Capabilities => {
                next = FetchStage::System;
                true
            },
            FetchStage::System => {
                next = FetchStage::Settings;
                true
            },
            FetchStage::Settings => {
                next = FetchStage::Temperatures;
                !capabilities.sensors.is_empty()
            },
            FetchStage::Temperatures => {
                next = FetchStage::Fans;
                !capabilities.fans.is_empty()
            },
            FetchStage::Fans => {
                next = FetchStage::Charge;
                capabilities.charge.supported
            },
            FetchStage::Charge => {
                next = FetchStage::PowerProfile;
                !capabilities.power_profiles.is_empty()
            },
            FetchStage::PowerProfile => {
                next = FetchStage::Keyboard;
                capabilities.kbd.on_off || capabilities.kbd.levels || capabilities.kbd.custom
            },
            FetchStage::Keyboard | FetchStage::Done => {
                next = FetchStage::Done;
                true
            },
        };
        if wanted {
            return next;
        }
    }
}

proof fn lemma_settled(capabilities: Capabilities, stage: FetchStage)
    ensures
        wants(capabilities, settled(capabilities, stage)),
        rank(stage) <= rank(settled(capabilities, stage)),
        forall|skipped: FetchStage|
            rank(stage) <= rank(skipped) < rank(settled(capabilities, stage)) ==> !(#[trigger] wants(
                capabilities,
                skipped,
            )),
    decreases 8 - rank(stage),
{
    if !(stage is Done || wants(capabilities, stage)) {
        lemma_settled(capabilities, successor(stage));
    }
}

// ---- What a whole fetch asks ----

/// One request, if it is wanted.
pub open spec fn if_wanted(capabilities: Capabilities, stage: FetchStage) -> Seq<IpcRequest> {
    if wants(capabilities, stage) {
        seq![request_at(stage)->Some_0]
    } else {
        Seq::empty()
    }
}

/// The requests before a stage in a fetch from a machine of these capabilities.
pub open spec fn requests_before(capabilities: Capabilities, stage: FetchStage) -> Seq<IpcRequest>
    decreases rank(stage),
{
    match stage {
        FetchStage::Capabilities => Seq::empty(),
        FetchStage::System => requests_before(capabilities, FetchStage::Capabilities) + if_wanted(
            capabilities,
            FetchStage::Capabilities,
        ),
        FetchStage::Settings => requests_before(capabilities, FetchStage::System) + if_wanted(
            capabilities,
            FetchStage::System,
        ),
        FetchStage::Temperatures => requests_before(capabilities, FetchStage::Settings) + if_wanted(
            capabilities,
            FetchStage::Settings,
        ),
        FetchStage::Fans => requests_before(capabilities, FetchStage::Temperatures) + if_wanted(
            capabilities,
            FetchStage::Temperatures,
        ),
        FetchStage::Charge => requests_before(capabilities, FetchStage::Fans) + if_wanted(
            capabilities,
            FetchStage::Fans,
        ),
        FetchStage::PowerProfile => requests_before(capabilities, FetchStage::Charge) + if_wanted(
            capabilities,
            FetchStage::Charge,
        ),
        FetchStage::Keyboard => requests_before(capabilities, FetchStage::PowerProfile) + if_wanted(
            capabilities,
            FetchStage::PowerProfile,
        ),
        FetchStage::Done => requests_before(capabilities, FetchStage::Keyboard) + if_wanted(
            capabilities,
            FetchStage::Keyboard,
        ),
    }
}

/// A fetch asks for everything that is wanted, once, in the order of the stages, and for nothing
/// else: the stage that follows an answered one has exactly one more request before it.
pub proof fn law_fetch_asks_what_is_wanted(capabilities: Capabilities, stage: FetchStage)
    requires
        !(stage is Done),
        wants(capabilities, stage),
    ensures
        requests_before(capabilities, settled(capabilities, successor(stage))) == requests_before(
            capabilities,
            stage,
        ).push(request_at(stage)->Some_0),
{
    lemma_skipping(capabilities, successor(stage));
}

proof fn lemma_skipping(capabilities: Capabilities, stage: FetchStage)
    ensures
        requests_before(capabilities, settled(capabilities, stage)) =~= requests_before(
            capabilities,
            stage,
        ),
    decreases 8 - rank(stage),
{
    if !(stage is Done || wants(capabilities, stage)) {
        lemma_skipping(capabilities, successor(stage));
    }
}

/// A fetch that has come to its end has read what the capabilities promise, field by field, and
/// nothing else.
pub proof fn law_a_finished_fetch_is_complete(fetch: SnapshotFetch, now: u64)
    requires
        fetch.wf(),
        fetch.stage is Done,
    ensures
        ({
            let known = fetch.finished(now);
            &&& known.capabilities is Some
            &&& known.system is Some
            &&& known.settings is Some
            &&& known.updated_at == Some(now)
            &&& known.temperatures is Some <==> known.capabilities->Some_0.sensors@.len() > 0
            &&& known.fans is Some <==> known.capabilities->Some_0.fans@.len() > 0
            &&& known.charge is Some <==> known.capabilities->Some_0.charge.supported
            &&& known.power_profile is Some <==> known.capabilities->Some_0.power_profiles@.len()
                > 0
            &&& known.keyboard_backlight is Some <==> known.capabilities->Some_0.kbd.on_off
                || known.capabilities->Some_0.kbd.levels || known.capabilities->Some_0.kbd.custom
            &&& (known.temperatures, known.fans, known.charge) == (
                fetch.snapshot.temperatures,
                fetch.snapshot.fans,
                fetch.snapshot.charge,
            )
            &&& (known.power_profile, known.keyboard_backlight) == (
                fetch.snapshot.power_profile,
                fetch.snapshot.keyboard_backlight,
            )
            &&& (known.capabilities, known.system, known.settings) == (
                fetch.snapshot.capabilities,
                fetch.snapshot.system,
                fetch.snapshot.settings,
            )
        }),
{
}

/// What a whole fetch asks, from the fields of the capabilities: three things of every machine, and
/// each of the others exactly where the machine has it, in this order.
pub proof fn law_a_whole_fetch_asks(capabilities: Capabilities)
    ensures
        ({
            let none = Seq::<IpcRequest>::empty();
            requests_before(capabilities, FetchStage::Done) == seq![
                IpcRequest::DaemonCommand(DaemonCommand::GetCapabilities),
                IpcRequest::GetSystemState,
                IpcRequest::DaemonCommand(DaemonCommand::GetSettings),
            ] + (if capabilities.sensors@.len() > 0 {
                seq![IpcRequest::GetTemperatures]
            } else {
                none
            }) + (if capabilities.fans@.len() > 0 {
                seq![IpcRequest::GetFansRPM]
            } else {
                none
            }) + (if capabilities.charge.supported {
                seq![IpcRequest::GetChargeStatus]
            } else {
                none
            }) + (if capabilities.power_profiles@.len() > 0 {
                seq![IpcRequest::GetPowerProfile]
            } else {
                none
            }) + (if capabilities.kbd.on_off || capabilities.kbd.levels || capabilities.kbd.custom {
                seq![IpcRequest::GetKeyboardBacklight]
            } else {
                none
            })
        }),
{
    reveal_with_fuel(requests_before, 9);
    assert(requests_before(capabilities, FetchStage::Temperatures) =~= seq![
        IpcRequest::DaemonCommand(DaemonCommand::GetCapabilities),
        IpcRequest::GetSystemState,
        IpcRequest::DaemonCommand(DaemonCommand::GetSettings),
    ]);
}

/// Which stage is next, from the fields of the capabilities: the first of the following ones that the
/// machine has anything to say at.
pub proof fn law_the_next_stage(capabilities: Capabilities)
    ensures
        ({
            let keyboard = if capabilities.kbd.on_off || capabilities.kbd.levels
                || capabilities.kbd.custom {
                FetchStage::Keyboard
            } else {
                FetchStage::Done
            };
            let profile = if capabilities.power_profiles@.len() > 0 {
                FetchStage::PowerProfile
            } else {
                keyboard
            };
            let charge = if capabilities.charge.supported { FetchStage::Charge } else { profile };
            let fans = if capabilities.fans@.len() > 0 { FetchStage::Fans } else { charge };
            let temperatures = if capabilities.sensors@.len() > 0 {
                FetchStage::Temperatures
            } else {
                fans
            };
            &&& settled(capabilities, successor(FetchStage::Capabilities)) == FetchStage::System
            &&& settled(capabilities, successor(FetchStage::System)) == FetchStage::Settings
            &&& settled(capabilities, successor(FetchStage::Settings)) == temperatures
            &&& settled(capabilities, successor(FetchStage::Temperatures)) == fans
            &&& settled(capabilities, successor(FetchStage::Fans)) == charge
            &&& settled(capabilities, successor(FetchStage::Charge)) == profile
            &&& settled(capabilities, successor(FetchStage::PowerProfile)) == keyboard
            &&& settled(capabilities, successor(FetchStage::Keyboard)) == FetchStage::Done
        }),
{
    reveal_with_fuel(settled, 7);
}

/// Each stage asks for one thing, and for another than every other stage.
pub proof fn law_each_stage_asks_for_its_own(one: FetchStage, other: FetchStage)
    ensures
        request_at(one) == request_at(other) ==> one == other,
        request_at(one) is None <==> one is Done,
        one is Capabilities <==> request_at(one) == Some(
            IpcRequest::DaemonCommand(DaemonCommand::GetCapabilities),
        ),
        one is System <==> request_at(one) == Some(IpcRequest::GetSystemState),
        one is Settings <==> request_at(one) == Some(
            IpcRequest::DaemonCommand(DaemonCommand::GetSettings),
        ),
        one is Temperatures <==> request_at(one) == Some(IpcRequest::GetTemperatures),
        one is Fans <==> request_at(one) == Some(IpcRequest::GetFansRPM),
        one is Charge <==> request_at(one) == Some(IpcRequest::GetChargeStatus),
        one is PowerProfile <==> request_at(one) == Some(IpcRequest::GetPowerProfile),
        one is Keyboard <==> request_at(one) == Some(IpcRequest::GetKeyboardBacklight),
{
}

/// An answer that fits its stage goes into the field of that stage, whole, and every other field stays
/// as it was. An answer of another kind is not taken.
pub proof fn law_answers_go_into_their_field(
    stage: FetchStage,
    known: Snapshot,
    response: IpcResponse,
)
    ensures
        taken(stage, known, response) is Some <==> match stage {
            FetchStage::Capabilities => response is Capabilities,
            FetchStage::System => response is SystemInfo,
            FetchStage::Settings => response is Settings,
            FetchStage::Temperatures => response is Temps,
            FetchStage::Fans => response is FanRpm,
            FetchStage::Charge => response is ChargeStatus,
            FetchStage::PowerProfile => response is PowerLimit,
            FetchStage::Keyboard => response is KeyboardBacklight,
            FetchStage::Done => false,
        },
        taken(stage, known, response) matches Some(more) ==> {
            &&& more.updated_at == known.updated_at
            &&& more.capabilities == if stage is Capabilities {
                Some(*response->Capabilities_0)
            } else {
                known.capabilities
            }
            &&& more.system == if stage is System {
                Some(response->SystemInfo_0)
            } else {
                known.system
            }
            &&& more.settings == if stage is Settings {
                Some(*response->Settings_0)
            } else {
                known.settings
            }
            &&& if stage is Temperatures {
                more.temperatures matches Some(read) && response matches IpcResponse::Temps {
                    cpu_c,
                    sys_c,
                } && read.cpu_c == cpu_c && read.system_c == sys_c
            } else {
                more.temperatures == known.temperatures
            }
            &&& if stage is Fans {
                more.fans matches Some(read) && response matches IpcResponse::FanRpm { cpu, gpu }
                    && read.cpu_rpm == cpu && read.gpu_rpm == gpu
            } else {
                more.fans == known.fans
            }
            &&& more.charge == if stage is Charge {
                Some(response->ChargeStatus_0)
            } else {
                known.charge
            }
            &&& more.power_profile == if stage is PowerProfile {
                Some(response->PowerLimit_0)
            } else {
                known.power_profile
            }
            &&& more.keyboard_backlight == if stage is Keyboard {
                Some(response->KeyboardBacklight_0)
            } else {
                known.keyboard_backlight
            }
        },
{
}

/// The reason why an answer is not taken: the daemon's own error, or the name of what was read and the
/// answer that came instead.
pub proof fn law_refusals_say_why(stage: FetchStage, response: IpcResponse)
    ensures
        response matches IpcResponse::Error(error) ==> refusal(stage, response) == ipc_error_text(
            error,
        ),
        !(response is Error) ==> refusal(stage, response) == "读取"@ + subject_at(stage)
            + "时收到意外响应："@ + debug_form(response),
        subject_at(FetchStage::Temperatures) == "温度数据"@,
        subject_at(FetchStage::Fans) == "风扇转速"@,
        subject_at(FetchStage::Charge) == "电池状态"@,
        subject_at(FetchStage::Keyboard) == "键盘背光"@,
        subject_at(FetchStage::PowerProfile) == "性能模式"@,
        subject_at(FetchStage::Settings) == "当前设置"@,
        subject_at(FetchStage::System) == "系统信息"@,
        subject_at(FetchStage::Capabilities) == "硬件能力"@,
{
}

} // verus!
