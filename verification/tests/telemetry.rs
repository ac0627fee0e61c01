use lecoo_control::session::{Session, Stop};
use lecoo_control::telemetry::{
    disable, enable, init, is_enabled, payload, send, worker_step, StatusIo, StatusReply,
    StatusRequest, Telemetry, TelemetryData, TelemetryPayload, WorkerAction, WorkerEvent,
};
use lecoo_control::telemetry_server::{
    daemon_version, equiv, judge, parsed_row, store_step, DecodedPayload, Header, StoreAction,
    StoreEvent, TelemetryEvent, Verdict, MAX_BODY_SIZE,
};
use lecoo_control::types::PowerProfile;

fn panic_report(text: &str) -> TelemetryData {
    TelemetryData::Panic { error: text.to_owned() }
}

#[test]
fn reports_are_queued_only_while_telemetry_is_on() {
    let mut telemetry = Telemetry::unset();
    assert!(is_enabled(&telemetry));
    send(&mut telemetry, panic_report("early"));
    init(&mut telemetry, true, 42);
    send(&mut telemetry, panic_report("one"));
    disable(&mut telemetry);
    assert!(!is_enabled(&telemetry));
    send(&mut telemetry, panic_report("two"));
    enable(&mut telemetry);
    send(&mut telemetry, panic_report("three"));
    assert_eq!(telemetry.client_id, 42);
    assert_eq!(telemetry.queue, Some(vec![panic_report("one"), panic_report("three")]));
}

fn set_up(enabled: bool) -> Telemetry {
    let mut telemetry = Telemetry::unset();
    init(&mut telemetry, enabled, 42);
    telemetry
}

fn turn(
    telemetry: &Telemetry,
    device: bool,
    replies: Vec<StatusReply>,
) -> (WorkerAction, Vec<StatusRequest>) {
    let mut io: StatusIo = Session::new();
    let mut replies = replies.into_iter();
    loop {
        match worker_step(telemetry, WorkerEvent::Timeout, device, &mut io) {
            Ok(action) => return (action, io.asked().clone()),
            Err(Stop::Failed(())) => panic!("turns do not fail"),
            Err(Stop::Suspended) => io.answer(replies.next().expect("enough replies")),
        }
    }
}

#[test]
fn queued_reports_are_sent() {
    let mut io: StatusIo = Session::new();
    let sent = worker_step(
        &set_up(true),
        WorkerEvent::Message(panic_report("x")),
        false,
        &mut io,
    );
    assert_eq!(
        sent,
        Ok(WorkerAction::Post(TelemetryPayload { id: 42, data: panic_report("x") }))
    );
    let sent = worker_step(
        &set_up(false),
        WorkerEvent::Message(panic_report("x")),
        false,
        &mut io,
    );
    assert_eq!(sent, Ok(WorkerAction::Wait));
    assert_eq!(
        worker_step(&set_up(true), WorkerEvent::Disconnected, true, &mut io),
        Ok(WorkerAction::Exit)
    );
    assert_eq!(payload(&set_up(true), panic_report("y")).id, 42);
}

#[test]
fn the_state_is_reported_when_nothing_was_queued() {
    let (action, asked) = turn(
        &set_up(true),
        true,
        vec![
            StatusReply::Profile(PowerProfile::Performance),
            StatusReply::Temperatures(63, 41),
            StatusReply::Fans(2345, 1987),
        ],
    );
    assert_eq!(
        action,
        WorkerAction::Post(TelemetryPayload {
            id: 42,
            data: TelemetryData::Status {
                profile: PowerProfile::Performance,
                temps: [63, 41],
                fans: [2345, 1987],
            },
        })
    );
    assert_eq!(
        asked,
        vec![
            StatusRequest::ReadPowerProfile,
            StatusRequest::ReadTemperatures,
            StatusRequest::ReadFansRpm,
        ]
    );
}

#[test]
fn nothing_is_reported_of_a_machine_that_cannot_be_read() {
    assert_eq!(turn(&set_up(true), false, vec![]), (WorkerAction::Wait, vec![]));
    assert_eq!(turn(&set_up(false), true, vec![]), (WorkerAction::Wait, vec![]));
    let (action, asked) = turn(
        &set_up(true),
        true,
        vec![StatusReply::Profile(PowerProfile::Silent), StatusReply::Failed],
    );
    assert_eq!(action, WorkerAction::Wait);
    assert_eq!(asked.len(), 2);
}

// ---- The server ----

#[test]
fn only_posts_to_telemetry_are_read() {
    assert_eq!(judge(true, "/telemetry", Some(10)), Verdict::ReadBody);
    assert_eq!(judge(true, "/telemetry", None), Verdict::ReadBody);
    assert_eq!(judge(false, "/telemetry", Some(10)), Verdict::Respond(404));
    assert_eq!(judge(true, "/", Some(10)), Verdict::Respond(404));
    assert_eq!(judge(true, "/telemetry", Some(MAX_BODY_SIZE)), Verdict::ReadBody);
    assert_eq!(judge(true, "/telemetry", Some(MAX_BODY_SIZE + 1)), Verdict::Respond(413));
    assert_eq!(MAX_BODY_SIZE, 524_288);
}

#[test]
fn the_version_comes_from_its_header() {
    let header = |field: &str, value: &str| Header {
        field: field.to_owned(),
        value: value.to_owned(),
    };
    assert_eq!(daemon_version(&vec![]), "Unknown");
    assert_eq!(daemon_version(&vec![header("Host", "x")]), "Unknown");
    assert_eq!(
        daemon_version(&vec![
            header("Host", "x"),
            header("x-daemon-VERSION", "1.2"),
            header("X-Daemon-Version", "1.3"),
        ]),
        "1.2"
    );
    assert!(equiv("AzÄ", "aZÄ"));
    assert!(!equiv("Ä", "ä"));
    assert!(!equiv("a", "ab"));
}

#[test]
fn bodies_are_stored_before_they_are_decoded() {
    let body = vec![1, 2, 3];
    assert_eq!(
        store_step(StoreEvent::Body(Some(body.clone())), "1"),
        StoreAction::StoreRaw(body.clone())
    );
    assert_eq!(
        store_step(StoreEvent::RawStored(Some(9), body.clone()), "1"),
        StoreAction::Decode(9, body.clone())
    );
    assert_eq!(store_step(StoreEvent::RawStored(None, body), "1"), StoreAction::Respond(500));
    assert_eq!(store_step(StoreEvent::Body(None), "1"), StoreAction::Respond(400));
    assert_eq!(
        store_step(StoreEvent::Body(Some(vec![0; MAX_BODY_SIZE + 1])), "1"),
        StoreAction::Respond(400)
    );
    assert_eq!(store_step(StoreEvent::Decoded(9, None), "1"), StoreAction::Respond(202));
    assert_eq!(store_step(StoreEvent::ParsedStored(true), "1"), StoreAction::Respond(201));
    assert_eq!(store_step(StoreEvent::ParsedStored(false), "1"), StoreAction::Respond(500));
}

#[test]
fn rows_hold_what_was_reported() {
    let row = parsed_row(
        5,
        "1.2",
        DecodedPayload {
            id: 0xAB,
            data: TelemetryEvent::Startup { firmware: "IT5570-02".to_owned(), offset: 0xC40 },
        },
    );
    assert_eq!(row.raw_id, 5);
    assert_eq!(row.client_uuid, "0x00000000000000AB");
    assert_eq!(row.daemon_version, "1.2");
    assert_eq!(row.event_type, "Startup");
    assert_eq!(row.firmware.as_deref(), Some("IT5570-02"));
    assert_eq!(row.offset.as_deref(), Some("0x0C40"));
    assert_eq!((row.profile, row.error_msg), (None, None));
    let row = parsed_row(
        6,
        "1.2",
        DecodedPayload {
            id: 1,
            data: TelemetryEvent::Status {
                profile: PowerProfile::Default,
                temps: [63, 41],
                fans: [2345, 1987],
            },
        },
    );
    assert_eq!(row.event_type, "Status");
    assert_eq!(row.profile.as_deref(), Some("Default"));
    assert_eq!((row.temp_1, row.temp_2), (Some(63), Some(41)));
    assert_eq!((row.fan_1, row.fan_2), (Some(2345), Some(1987)));
    assert_eq!((row.firmware, row.offset), (None, None));
    let action = store_step(
        StoreEvent::Decoded(
            7,
            Some(DecodedPayload { id: 1, data: TelemetryEvent::Panic { error: "e".to_owned() } }),
        ),
        "1.2",
    );
    match action {
        StoreAction::StoreParsed(row) => {
            assert_eq!(row.event_type, "Panic");
            assert_eq!(row.error_msg.as_deref(), Some("e"));
            assert_eq!(row.temp_1, None);
        }
        other => panic!("unexpected action: {other:?}"),
    }
}
