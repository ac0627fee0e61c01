//! The operations of the daemon, of its driver, of its connections and of the desktop repeat
//! themselves.
use vstd::prelude::*;

use super::{
    continued, ended, followed, law_continuations_repeat, law_sequences_repeat,
    law_waiting_repeats, lemma_ended, repeats, sound, Operation,
};
use crate::daemon::{
    board_run, both_run, charger_run, chosen_profile, event_run, has_argument, keep_run,
    led_and_keep_run, leds_run, place, publish_run, refresh_run, reply_run, report_run, request_run,
    service_run, setup_run, start_run, unsupported_run, wake_run, EventReply, EventRequest,
    EventTalk, Launch, StartError, StartReply, StartRequest, StartTalk,
};
use crate::ec::device::BoardProfile;
use crate::ec::driver::{
    access_run, attempt_run, bring_up_run, change, change_run, done_run, flag_run, library_run,
    ready_run, start_and_wait_run, start_run as driver_start_run, state_run, too_late, wait_run,
    DriverReply, DriverRequest, DriverTalk, Waiting, ERROR_SERVICE_DOES_NOT_EXIST, SERVICE_POLL_MS, SERVICE_TIMEOUT_MS,
};
use crate::ec::error::{DriverState, EcError};
use crate::gui::desktop::{
    enabling_run, minimize_run, removal_run, set_minimize_run, starts_the_program, startup_run,
    DesktopError, DesktopTalk, RegistryReply, RegistryRequest,
};
use crate::ipc::{
    connect_run, daemon_run, exchange_run, listen_run, open_to_users, wire_run, Access,
    RequestError, WireError, WireReply, WireRequest, WireTalk,
};
use crate::services::InternalEvent;
use crate::session::{continues, Stop};
use crate::telemetry::{status_run, StatusTalk};
use crate::types::{BreathConfig, CurrentSettings, IpcRequest, IpcResponse, PowerLedMode};

verus! {

/// Reading the state of the machine for telemetry repeats itself.
pub proof fn law_status_report_repeats()
    ensures
        repeats(|d: StatusTalk| status_run(d)),
{
}

/// One request about a socket repeats itself: waiting for the next client is one.
pub proof fn law_socket_requests_repeat(request: WireRequest)
    ensures
        repeats(|d: WireTalk| wire_run(d, request)),
{
}

/// Connecting to the daemon repeats itself.
pub proof fn law_connecting_repeats(name: WireRequest)
    ensures
        repeats(|d: WireTalk| connect_run(d, name)),
{
}

/// An exchange with the daemon repeats itself.
pub proof fn law_exchanges_repeat(request: IpcRequest)
    ensures
        repeats(|d: WireTalk| exchange_run(d, request)),
{
}

/// Listening for clients repeats itself.
pub proof fn law_listening_repeats(name: WireRequest, access: Access)
    ensures
        repeats(|d: WireTalk| listen_run(d, name, access)),
{
}

/// Two requests for a socket that ask for the same, text for text.
pub open spec fn same_listening(one: WireRequest, other: WireRequest) -> bool {
    ||| one == other
    ||| one matches WireRequest::Listen(Access::Descriptor(text)) && other
        matches WireRequest::Listen(Access::Descriptor(again)) && text@ == again@
}

/// Listening for clients repeats itself also where the access is written down anew: what was asked
/// is asked again, text for text, and a run that ended ends the same way.
pub proof fn law_listening_anew_repeats(
    d: WireTalk,
    more: Seq<WireReply>,
    name: WireRequest,
    windows: bool,
    one: Access,
    other: Access,
)
    requires
        sound(d),
        open_to_users(one, windows),
        open_to_users(other, windows),
    ensures
        ({
            let short = listen_run(d, name, one);
            let long = listen_run(d.with(more), name, other);
            &&& continues(d, short.0)
            &&& short.0.asked.len() <= long.0.asked.len()
            &&& forall|i: int|
                0 <= i < short.0.asked.len() ==> same_listening(
                    #[trigger] short.0.asked[i],
                    long.0.asked[i],
                )
            &&& short.1 != Err::<(), Stop<WireError>>(Stop::Suspended) ==> long.1 == short.1
                && long.0.used == short.0.used && long.0.asked.len() == short.0.asked.len()
        }),
{
}

/// Telling and setting the desktop's preferences repeats itself.
pub proof fn law_preferences_repeat(enabled: bool, command: String)
    ensures
        repeats(|d: DesktopTalk| startup_run(d)),
        repeats(|d: DesktopTalk| enabling_run(d, command)),
        repeats(|d: DesktopTalk| removal_run(d)),
        repeats(|d: DesktopTalk| minimize_run(d)),
        repeats(|d: DesktopTalk| set_minimize_run(d, enabled)),
{
}

/// Two requests to the registry that ask for the same, text for text.
pub open spec fn same_registry(one: RegistryRequest, other: RegistryRequest) -> bool {
    ||| one == other
    ||| one matches RegistryRequest::WriteStartup(text) && other
        matches RegistryRequest::WriteStartup(again) && text@ == again@
}

/// Making the control centre start with the session repeats itself also where the command is
/// written down anew: what was asked is asked again, text for text, and a run that ended ends the
/// same way.
pub proof fn law_enabling_anew_repeats(
    d: DesktopTalk,
    more: Seq<RegistryReply>,
    one: String,
    other: String,
)
    requires
        sound(d),
        starts_the_program(d, one),
        starts_the_program(d.with(more), other),
    ensures
        ({
            let short = enabling_run(d, one);
            let long = enabling_run(d.with(more), other);
            &&& continues(d, short.0)
            &&& short.0.asked.len() <= long.0.asked.len()
            &&& forall|i: int|
                0 <= i < short.0.asked.len() ==> same_registry(
                    #[trigger] short.0.asked[i],
                    long.0.asked[i],
                )
            &&& short.1 != Err::<(), Stop<DesktopError>>(Stop::Suspended) ==> long.1 == short.1
                && long.0.used == short.0.used && long.0.asked.len() == short.0.asked.len()
        }),
{
}

/// A request of a reconnecting client, with whether it is connected afterwards.
pub open spec fn daemon_operation(connected: bool, request: IpcRequest) -> Operation<
    WireRequest,
    WireReply,
    (bool, IpcResponse),
    RequestError,
> {
    |d: WireTalk|
        match daemon_run(d, connected, request) {
            (d, after, Ok(response)) => (d, Ok((after, response))),
            (d, _, Err(stop)) => (d, Err(stop)),
        }
}

/// A request of a reconnecting client repeats itself.
pub proof fn law_daemon_requests_repeat(connected: bool, request: IpcRequest)
    ensures
        repeats(daemon_operation(connected, request)),
{
    let exchange = |d: WireTalk| exchange_run(d, request);
    let answered = |outcome: Result<IpcResponse, WireError>|
        ended::<WireRequest, WireReply, (bool, IpcResponse), RequestError>(
            match outcome {
                Ok(response) => Ok((true, response)),
                Err(error) => Err(RequestError::Exchange(error)),
            },
        );
    law_exchanges_repeat(request);
    assert forall|outcome: Result<IpcResponse, WireError>| repeats(
        #[trigger] answered(outcome),
    ) by {}
    law_sequences_repeat(exchange, answered);
    let exchanged = followed(exchange, answered);
    if connected {
        assert(exchanged =~= daemon_operation(connected, request));
    } else {
        let connect = |d: WireTalk| connect_run(d, WireRequest::SocketName);
        let next = |outcome: Result<(), WireError>|
            match outcome {
                Ok(()) => exchanged,
                Err(error) => ended(Err(RequestError::Connect(error))),
            };
        law_connecting_repeats(WireRequest::SocketName);
        assert forall|outcome: Result<(), WireError>| repeats(#[trigger] next(outcome)) by {
            if let Err(error) = outcome {
                lemma_ended::<WireRequest, WireReply, (bool, IpcResponse), RequestError>(
                    Err(RequestError::Connect(error)),
                );
            }
        }
        law_sequences_repeat(connect, next);
        assert(followed(connect, next) =~= daemon_operation(connected, request));
    }
}

// ---- The driver ----

/// One look at the service that is waited for.
spec fn change_step(waiting: Waiting) -> Operation<DriverRequest, DriverReply, bool, EcError> {
    |d: DriverTalk|
        match state_run(d) {
            (d, Err(stop)) => (d, Err(stop)),
            (d, Ok(state)) => match change(waiting, state) {
                Err(error) => (d, Err(Stop::Failed(error))),
                Ok(true) => (d, Ok(true)),
                Ok(false) => match flag_run(d, DriverRequest::TimerExpired) {
                    (d, Err(stop)) => (d, Err(stop)),
                    (d, Ok(true)) => (d, Err(Stop::Failed(too_late(waiting)))),
                    (d, Ok(false)) => match done_run(
                        d,
                        DriverRequest::Sleep(SERVICE_POLL_MS),
                        None,
                    ) {
                        (d, Err(stop)) => (d, Err(stop)),
                        (d, Ok(())) => (d, Ok(false)),
                    },
                },
            },
        }
}

/// Waiting for the driver's service repeats itself.
pub proof fn law_waiting_for_the_service_repeats(waiting: Waiting)
    ensures
        repeats(|d: DriverTalk| wait_run(d, waiting)),
{
    let step = change_step(waiting);
    let whole = |d: DriverTalk| change_run(d, waiting);
    assert(repeats(step));
    law_waiting_repeats(step, whole);
    let timer = |d: DriverTalk|
        done_run(d, DriverRequest::StartTimer(SERVICE_TIMEOUT_MS), None);
    let rest = |_set: ()| whole;
    assert(repeats(timer));
    law_continuations_repeat(timer, rest);
    assert(continued(timer, rest) =~= (|d: DriverTalk| wait_run(d, waiting)));
}

proof fn lemma_start_and_wait()
    ensures
        repeats(|d: DriverTalk| start_and_wait_run(d)),
{
    let start = |d: DriverTalk| driver_start_run(d);
    let wait = |d: DriverTalk| wait_run(d, Waiting::ForRunning);
    let rest = |_started: ()| wait;
    assert(repeats(start));
    law_waiting_for_the_service_repeats(Waiting::ForRunning);
    law_continuations_repeat(start, rest);
    assert(continued(start, rest) =~= (|d: DriverTalk| start_and_wait_run(d)));
}

proof fn lemma_bring_up(state: DriverState)
    ensures
        repeats(|d: DriverTalk| bring_up_run(d, state)),
{
    let whole = |d: DriverTalk| bring_up_run(d, state);
    let starting = |d: DriverTalk| wait_run(d, Waiting::ForRunning);
    let stopping = |d: DriverTalk| wait_run(d, Waiting::ForStopped);
    let start = |d: DriverTalk| start_and_wait_run(d);
    let rest = |_stopped: ()| start;
    law_waiting_for_the_service_repeats(Waiting::ForRunning);
    law_waiting_for_the_service_repeats(Waiting::ForStopped);
    lemma_start_and_wait();
    law_continuations_repeat(stopping, rest);
    match state {
        DriverState::StartPending => {
            assert(starting =~= whole);
        },
        DriverState::Stopped => {
            assert(start =~= whole);
        },
        DriverState::StopPending => {
            assert(continued(stopping, rest) =~= whole);
        },
        _ => {
            let result = if state is Running {
                Ok::<(), EcError>(())
            } else {
                Err(EcError::ServiceState(state))
            };
            lemma_ended::<DriverRequest, DriverReply, (), EcError>(result);
            assert(ended::<DriverRequest, DriverReply, (), EcError>(result) =~= whole);
        },
    }
}

/// Making sure that the driver's service runs repeats itself.
pub proof fn law_readying_the_driver_repeats()
    ensures
        repeats(|d: DriverTalk| ready_run(d)),
{
    let manager = |d: DriverTalk| done_run(d, DriverRequest::OpenManager, None);
    let service = |d: DriverTalk|
        attempt_run(d, DriverRequest::OpenService, ERROR_SERVICE_DOES_NOT_EXIST);
    let query = |d: DriverTalk| state_run(d);
    let up = |state: DriverState| (|d: DriverTalk| bring_up_run(d, state));
    let brought = continued(query, up);
    let there = |found: bool|
        if found {
            brought
        } else {
            ended(Ok(()))
        };
    let opened = continued(service, there);
    let rest = |_open: ()| opened;
    assert(repeats(manager));
    assert(repeats(service));
    assert(repeats(query));
    assert forall|state: DriverState| repeats(#[trigger] up(state)) by {
        lemma_bring_up(state);
        assert((|d: DriverTalk| bring_up_run(d, state)) =~= up(state));
    }
    law_continuations_repeat(query, up);
    assert forall|found: bool| repeats(#[trigger] there(found)) by {
        lemma_ended::<DriverRequest, DriverReply, (), EcError>(Ok(()));
    }
    law_continuations_repeat(service, there);
    law_continuations_repeat(manager, rest);
    assert(continued(manager, rest) =~= (|d: DriverTalk| ready_run(d)));
}

/// Loading the driver's library repeats itself.
pub proof fn law_loading_the_library_repeats()
    ensures
        repeats(|d: DriverTalk| library_run(d)),
{
}

/// Getting access to the ports repeats itself: the driver, then the library.
pub proof fn law_getting_access_repeats()
    ensures
        repeats(|d: DriverTalk| access_run(d)),
{
    let ready = |d: DriverTalk| ready_run(d);
    let library = |d: DriverTalk| library_run(d);
    let rest = |_ready: ()| library;
    law_readying_the_driver_repeats();
    law_loading_the_library_repeats();
    law_continuations_repeat(ready, rest);
    assert(continued(ready, rest) =~= (|d: DriverTalk| access_run(d)));
}

// ---- The start of the daemon ----

proof fn lemma_report(settings: CurrentSettings, profile: usize, forced: bool, restored: bool)
    ensures
        repeats(|d: StartTalk| report_run(d, settings, profile, forced, restored)),
{
}

proof fn lemma_publish(settings: CurrentSettings, bound: bool)
    ensures
        repeats(|d: StartTalk| publish_run(d, settings, bound)),
{
}

proof fn lemma_request(request: StartRequest)
    ensures
        repeats(|d: StartTalk| request_run(d, request)),
{
}

proof fn lemma_board(
    args: Seq<String>,
    settings: CurrentSettings,
    bound: bool,
    profile: usize,
    forced: bool,
)
    ensures
        repeats(|d: StartTalk| board_run(d, args, settings, bound, profile, forced)),
{
    let device = StartRequest::OpenDevice { profile, insecure: has_argument(args, "--insecure"@) };
    let open = |d: StartTalk| request_run(d, device);
    let dump = |d: StartTalk| request_run(d, StartRequest::DumpProfile);
    let dumped = |reply: StartReply|
        ended::<StartRequest, StartReply, Launch, StartError>(
            if reply is Done {
                Ok(Launch::Dumped)
            } else {
                Err(StartError::Dump)
            },
        );
    let restore = |d: StartTalk| request_run(d, StartRequest::Restore(settings));
    let report = |reply: StartReply|
        (|d: StartTalk| report_run(d, settings, profile, forced, reply is Done));
    let publish = |d: StartTalk| publish_run(d, settings, bound);
    let published = |_reported: ()| publish;
    let restored = |reply: StartReply| continued(report(reply), published);
    let rest = |reply: StartReply|
        if reply is Done {
            if has_argument(args, "--dump-profile"@) {
                continued(dump, dumped)
            } else {
                continued(restore, restored)
            }
        } else {
            ended(Err(StartError::Device))
        };
    lemma_request(device);
    lemma_request(StartRequest::DumpProfile);
    lemma_request(StartRequest::Restore(settings));
    lemma_publish(settings, bound);
    assert forall|reply: StartReply| repeats(#[trigger] dumped(reply)) by {}
    law_continuations_repeat(dump, dumped);
    assert forall|reply: StartReply| repeats(#[trigger] restored(reply)) by {
        lemma_report(settings, profile, forced, reply is Done);
        assert((|d: StartTalk| report_run(d, settings, profile, forced, reply is Done)) =~= report(
            reply,
        ));
        law_continuations_repeat(report(reply), published);
    }
    law_continuations_repeat(restore, restored);
    assert forall|reply: StartReply| repeats(#[trigger] rest(reply)) by {
        lemma_ended::<StartRequest, StartReply, Launch, StartError>(Err(StartError::Device));
    }
    law_continuations_repeat(open, rest);
    assert(continued(open, rest) =~= (|d: StartTalk|
        board_run(d, args, settings, bound, profile, forced)));
}

/// The start of the daemon repeats itself.
pub proof fn law_starting_repeats(args: Seq<String>, profiles: Seq<BoardProfile>, windows: bool)
    ensures
        repeats(|d: StartTalk| start_run(d, args, profiles, windows)),
{
    let service = |d: StartTalk| service_run(d, args, windows);
    let setup = |d: StartTalk| setup_run(d);
    let detect = |d: StartTalk| request_run(d, StartRequest::DetectBoard);
    let found = |settings: CurrentSettings, bound: bool|
        (|reply: StartReply|
            (|d: StartTalk|
                match chosen_profile(
                    args,
                    profiles,
                    match reply {
                        StartReply::Board(found) => place(found),
                        _ => None,
                    },
                ) {
                    Some((profile, forced)) => board_run(
                        d,
                        args,
                        settings,
                        bound,
                        profile as usize,
                        forced,
                    ),
                    None => unsupported_run(d, bound),
                }));
    let detected = |ready: (CurrentSettings, bool)| continued(detect, found(ready.0, ready.1));
    assert(repeats(service));
    assert(repeats(setup));
    lemma_request(StartRequest::DetectBoard);
    assert forall|ready: (CurrentSettings, bool)| repeats(#[trigger] detected(ready)) by {
        let (settings, bound) = ready;
        let last = found(settings, bound);
        assert forall|reply: StartReply| repeats(#[trigger] last(reply)) by {
            match chosen_profile(
                args,
                profiles,
                match reply {
                    StartReply::Board(found) => place(found),
                    _ => None,
                },
            ) {
                Some((profile, forced)) => {
                    lemma_board(args, settings, bound, profile as usize, forced);
                    assert((|d: StartTalk|
                        board_run(d, args, settings, bound, profile as usize, forced)) =~= last(
                        reply,
                    ));
                },
                None => {
                    let other = |d: StartTalk| unsupported_run(d, bound);
                    assert(repeats(other));
                    assert(other =~= last(reply));
                },
            }
        }
        law_continuations_repeat(detect, last);
    }
    law_continuations_repeat(setup, detected);
    let prepared = continued(setup, detected);
    let rest = |_service: ()| prepared;
    law_continuations_repeat(service, rest);
    assert(continued(service, rest) =~= (|d: StartTalk| start_run(d, args, profiles, windows)));
}

// ---- Events ----

/// What an event does to the conversation and, in the end, to the settings.
pub open spec fn event_operation(settings: CurrentSettings, event: InternalEvent) -> Operation<
    EventRequest,
    EventReply,
    CurrentSettings,
    (),
> {
    |d: EventTalk|
        match event_run(d, settings, event) {
            (d, after, Ok(())) => (d, Ok(after)),
            (d, _, Err(stop)) => (d, Err(stop)),
        }
}

spec fn keep_operation(settings: CurrentSettings) -> Operation<
    EventRequest,
    EventReply,
    CurrentSettings,
    (),
> {
    |d: EventTalk|
        match keep_run(d, settings) {
            (d, after, Ok(())) => (d, Ok(after)),
            (d, _, Err(stop)) => (d, Err(stop)),
        }
}

proof fn lemma_reply(request: EventRequest)
    ensures
        repeats(|d: EventTalk| reply_run(d, request)),
{
}

proof fn lemma_keep(settings: CurrentSettings)
    ensures
        repeats(keep_operation(settings)),
{
    let take = |d: EventTalk| reply_run(d, EventRequest::TakeSettings);
    let refresh = |d: EventTalk|
        match refresh_run(d, settings) {
            (d, after, Ok(())) => (d, Ok::<CurrentSettings, Stop<()>>(after)),
            (d, _, Err(stop)) => (d, Err(stop)),
        };
    let save = |after: CurrentSettings|
        (|d: EventTalk|
            match both_run(d, EventRequest::Save(after), EventRequest::ReleaseSettings) {
                (d, Ok(())) => (d, Ok::<CurrentSettings, Stop<()>>(after)),
                (d, Err(stop)) => (d, Err(stop)),
            });
    let rest = |reply: EventReply|
        if reply is Done {
            continued(refresh, save)
        } else {
            ended(Ok(settings))
        };
    lemma_reply(EventRequest::TakeSettings);
    assert(repeats(refresh));
    assert forall|after: CurrentSettings| repeats(#[trigger] save(after)) by {}
    law_continuations_repeat(refresh, save);
    assert forall|reply: EventReply| repeats(#[trigger] rest(reply)) by {
        lemma_ended::<EventRequest, EventReply, CurrentSettings, ()>(Ok(settings));
    }
    law_continuations_repeat(take, rest);
    assert(continued(take, rest) =~= keep_operation(settings));
}

proof fn lemma_led_and_keep(settings: CurrentSettings, mode: PowerLedMode, event: InternalEvent)
    requires
        forall|d: EventTalk| #[trigger]
            event_run(d, settings, event) == led_and_keep_run(d, settings, mode),
    ensures
        repeats(event_operation(settings, event)),
{
    let light = |d: EventTalk| reply_run(d, EventRequest::ApplyLed(mode));
    let keep = keep_operation(settings);
    let rest = |_reply: EventReply| keep;
    lemma_reply(EventRequest::ApplyLed(mode));
    lemma_keep(settings);
    law_continuations_repeat(light, rest);
    assert(continued(light, rest) =~= event_operation(settings, event));
}

proof fn lemma_leds()
    ensures
        repeats(|d: EventTalk| leds_run(d)),
{
}

proof fn lemma_charger(settings: CurrentSettings)
    ensures
        repeats(|d: EventTalk| charger_run(d, settings)),
{
    let take = |d: EventTalk| reply_run(d, EventRequest::TakeSettings);
    let both = |d: EventTalk|
        both_run(d, EventRequest::ReleaseSettings, EventRequest::Reconcile(settings.charge));
    let leds = |d: EventTalk| leds_run(d);
    let lit = |_done: ()| leds;
    let rest = |reply: EventReply|
        if reply is Done {
            continued(both, lit)
        } else {
            leds
        };
    lemma_reply(EventRequest::TakeSettings);
    assert(repeats(both));
    lemma_leds();
    law_continuations_repeat(both, lit);
    law_continuations_repeat(take, rest);
    assert(continued(take, rest) =~= (|d: EventTalk| charger_run(d, settings)));
}

/// What an event calls for repeats itself.
pub proof fn law_events_repeat(settings: CurrentSettings, event: InternalEvent)
    ensures
        repeats(event_operation(settings, event)),
{
    let whole = event_operation(settings, event);
    let same = |_done: ()| ended::<EventRequest, EventReply, CurrentSettings, ()>(Ok(settings));
    assert forall|done: ()| repeats(#[trigger] same(done)) by {}
    match event {
        InternalEvent::SystemShuttingDown | InternalEvent::SystemHibernating => {
            lemma_led_and_keep(settings, PowerLedMode::Auto, event);
        },
        InternalEvent::SystemSleeping => {
            lemma_led_and_keep(settings, PowerLedMode::Animation(BreathConfig::Sleep), event);
        },
        InternalEvent::SystemWakingUp => {
            let wake = |d: EventTalk| wake_run(d, settings);
            assert(repeats(wake));
            law_continuations_repeat(wake, same);
            assert(continued(wake, same) =~= whole);
        },
        InternalEvent::ChargerConnected => {
            let charge = |d: EventTalk| charger_run(d, settings);
            lemma_charger(settings);
            law_continuations_repeat(charge, same);
            assert(continued(charge, same) =~= whole);
        },
        InternalEvent::ChargerDisconnected => {
            let dark = |d: EventTalk| reply_run(d, EventRequest::BatteryLeds(false, false));
            let rest = |_reply: EventReply|
                ended::<EventRequest, EventReply, CurrentSettings, ()>(Ok(settings));
            lemma_reply(EventRequest::BatteryLeds(false, false));
            assert forall|reply: EventReply| repeats(#[trigger] rest(reply)) by {}
            law_continuations_repeat(dark, rest);
            assert(continued(dark, rest) =~= whole);
        },
        InternalEvent::Inited => {
            lemma_ended::<EventRequest, EventReply, CurrentSettings, ()>(Ok(settings));
            assert(ended::<EventRequest, EventReply, CurrentSettings, ()>(Ok(settings)) =~= whole);
        },
    }
}

/// An event may be run again from the settings that an earlier run left, though that run may have
/// changed some of them before it was suspended: with more replies on record it does exactly what
/// it does from the first settings.
pub proof fn law_events_go_on_from_the_settings_left(
    d: EventTalk,
    settings: CurrentSettings,
    event: InternalEvent,
    more: Seq<EventReply>,
)
    requires
        sound(d),
    ensures
        ({
            let left = event_run(d, settings, event).1;
            event_run(d.with(more), left, event) == event_run(d.with(more), settings, event)
        }),
{
}

/// Up to the request that takes the settings, an event does not depend on them: a run suspended
/// there may be run again from whatever settings were taken.
pub proof fn law_settings_count_once_they_are_taken(
    d: EventTalk,
    before: CurrentSettings,
    taken: CurrentSettings,
    event: InternalEvent,
)
    requires
        sound(d),
        event_run(d, before, event).2 == Err::<(), Stop<()>>(Stop::Suspended),
        event_run(d, before, event).0.asked.last() is TakeSettings,
    ensures
        event_run(d, before, event).1 == before,
        event_run(d, taken, event) == (
            event_run(d, before, event).0,
            taken,
            Err::<(), Stop<()>>(Stop::Suspended),
        ),
{
}

} // verus!
