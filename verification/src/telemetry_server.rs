//! The server that collects telemetry: how a request is judged, what is stored of it and how it is
//! answered.
//!
//! Every acceptable body is stored as it came before it is decoded, so that nothing is lost when it
//! cannot be decoded.
use vstd::prelude::*;

use crate::text::{
    around, characters, hex, hex_number, hex_text, law_hex_is_read_back, same_text, sixteens,
};
use crate::types::PowerProfile;

verus! {

/// The largest body that is accepted, in bytes.
pub const MAX_BODY_SIZE: usize = 512 * 1024;

/// The largest payload that is decoded, in bytes.
pub const DECODE_LIMIT: usize = 64 * 1024;

/// A report as the server knows it.
#[derive(PartialEq, Eq, Debug)]
pub enum TelemetryEvent {
    Startup { firmware: String, offset: u16 },
    Status { profile: PowerProfile, temps: [u32; 2], fans: [u32; 2] },
    Panic { error: String },
}

/// A decoded body.
#[derive(PartialEq, Eq, Debug)]
pub struct DecodedPayload {
    pub id: u64,
    pub data: TelemetryEvent,
}

/// One header of a request.
#[derive(PartialEq, Eq, Debug)]
pub struct Header {
    pub field: String,
    pub value: String,
}

// ---- Judging a request ----

/// A letter of the English alphabet in its small form; any other character as it is.
pub open spec fn small(c: char) -> char {
    if 'A' <= c && c <= 'Z' {
        ((c as u8 + 32) as u8) as char
    } else {
        c
    }
}

/// Whether two texts differ only in the case of English letters.
pub open spec fn equivalent(a: Seq<char>, b: Seq<char>) -> bool {
    &&& a.len() == b.len()
    &&& forall|i: int| 0 <= i < a.len() ==> small(a[i]) == small(#[trigger] b[i])
}

fn small_char(c: char) -> (lower: char)
    ensures
        lower == small(c),
{
    if 'A' <= c && c <= 'Z' {
        ((c as u8) + 32) as char
    } else {
        c
    }
}

/// Whether two texts differ only in the case of English letters.
pub fn equiv(a: &str, b: &str) -> (same: bool)
    ensures
        same == equivalent(a@, b@),
{
    let first = characters(a);
    let second = characters(b);
    if first.len() != second.len() {
        return false;
    }
    let mut i: usize = 0;
    while i < first.len()
        invariant
            i <= first@.len(),
            first@ == a@,
            second@ == b@,
            first@.len() == second@.len(),
            forall|j: int| 0 <= j < i ==> small(a@[j]) == small(#[trigger] b@[j]),
        decreases first.len() - i,
    {
        if small_char(first[i]) != small_char(second[i]) {
            assert(small(a@[i as int]) != small(b@[i as int]));
            return false;
        }
        i = i + 1;
    }
    true
}

/// The value of the first header from the `i`-th on that carries the version of the daemon.
pub open spec fn version_from(headers: Seq<Header>, i: int) -> Seq<char>
    decreases headers.len() - i,
{
    if i < 0 || i >= headers.len() {
        "Unknown"@
    } else if equivalent(headers[i].field@, "X-Daemon-Version"@) {
        headers[i].value@
    } else {
        version_from(headers, i + 1)
    }
}

/// The version of the daemon that sent a request.
pub fn daemon_version(headers: &Vec<Header>) -> (version: String)
    ensures
        version@ == version_from(headers@, 0),
{
    let mut i: usize = 0;
    while i < headers.len()
        invariant
            i <= headers@.len(),
            version_from(headers@, i as int) == version_from(headers@, 0),
        decreases headers.len() - i,
    {
        if equiv(headers[i].field.as_str(), "X-Daemon-Version") {
            return headers[i].value.clone();
        }
        i = i + 1;
    }
    "Unknown".to_owned()
}

/// What becomes of a request before its body is read.
#[derive(Clone, Copy, PartialEq, Eq, Debug, Structural)]
pub enum Verdict {
    ReadBody,
    /// Answer with a status.
    Respond(u16),
}

/// The verdict on a request to `url` with a body that says to be `body_length` bytes long.
pub open spec fn verdict_on(is_post: bool, url: Seq<char>, body_length: Option<usize>) -> Verdict {
    if !is_post || url != "/telemetry"@ {
        Verdict::Respond(404)
    } else {
        match body_length {
            Some(length) => if length > MAX_BODY_SIZE {
                Verdict::Respond(413)
            } else {
                Verdict::ReadBody
            },
            None => Verdict::ReadBody,
        }
    }
}

/// Judges a request before its body is read.
pub fn judge(is_post: bool, url: &str, body_length: Option<usize>) -> (verdict: Verdict)
    ensures
        verdict == verdict_on(is_post, url@, body_length),
{
    if !is_post || !same_text(url, "/telemetry") {
        return Verdict::Respond(404);
    }
    let content_length: usize = match body_length {
        Some(length) => length,
        None => 0,
    };
    if content_length > MAX_BODY_SIZE {
        Verdict::Respond(413)
    } else {
        Verdict::ReadBody
    }
}

// ---- Storing it ----

/// What happens after the body has been read.
#[derive(PartialEq, Eq, Debug)]
pub enum StoreEvent {
    /// The body has been read as far as it goes; `None` if that failed.
    Body(Option<Vec<u8>>),
    /// The raw body was stored in the row with this number; `None` if that failed.
    RawStored(Option<i64>, Vec<u8>),
    /// The body of the row with this number was decoded; `None` if that failed.
    Decoded(i64, Option<DecodedPayload>),
    /// The parsed row was stored, or not.
    ParsedStored(bool),
}

/// A row of the table of parsed reports.
#[derive(PartialEq, Eq, Debug)]
pub struct ParsedRow {
    pub raw_id: i64,
    pub client_uuid: String,
    pub daemon_version: String,
    pub event_type: String,
    pub firmware: Option<String>,
    pub offset: Option<String>,
    pub profile: Option<String>,
    pub temp_1: Option<u32>,
    pub temp_2: Option<u32>,
    pub fan_1: Option<u32>,
    pub fan_2: Option<u32>,
    pub error_msg: Option<String>,
}

/// What is done next.
#[derive(PartialEq, Eq, Debug)]
pub enum StoreAction {
    /// Store the body as it came.
    StoreRaw(Vec<u8>),
    /// Decode the body of the row with this number.
    Decode(i64, Vec<u8>),
    StoreParsed(ParsedRow),
    Respond(u16),
}

/// A text, where there is one.
pub open spec fn text_of(text: Option<String>) -> Option<Seq<char>> {
    match text {
        Some(text) => Some(text@),
        None => None,
    }
}

/// The name of a power profile.
pub open spec fn profile_text(profile: PowerProfile) -> Seq<char> {
    match profile {
        PowerProfile::Silent => "Silent"@,
        PowerProfile::Default => "Default"@,
        PowerProfile::Performance => "Performance"@,
    }
}

/// The columns of a row that depend on the kind of the report.
pub open spec fn event_columns(row: ParsedRow, data: TelemetryEvent) -> bool {
    match data {
        TelemetryEvent::Startup { firmware, offset } => {
            &&& row.event_type@ == "Startup"@
            &&& row.firmware == Some(firmware)
            &&& text_of(row.offset) == Some("0x"@ + hex(offset as nat, 4))
            &&& row.profile is None
            &&& (row.temp_1, row.temp_2, row.fan_1, row.fan_2) == (
                None::<u32>,
                None::<u32>,
                None::<u32>,
                None::<u32>,
            )
            &&& row.error_msg is None
        },
        TelemetryEvent::Status { profile, temps, fans } => {
            &&& row.event_type@ == "Status"@
            &&& row.firmware is None
            &&& row.offset is None
            &&& text_of(row.profile) == Some(profile_text(profile))
            &&& (row.temp_1, row.temp_2) == (Some(temps@[0]), Some(temps@[1]))
            &&& (row.fan_1, row.fan_2) == (Some(fans@[0]), Some(fans@[1]))
            &&& row.error_msg is None
        },
        TelemetryEvent::Panic { error } => {
            &&& row.event_type@ == "Panic"@
            &&& row.firmware is None
            &&& row.offset is None
            &&& row.profile is None
            &&& (row.temp_1, row.temp_2, row.fan_1, row.fan_2) == (
                None::<u32>,
                None::<u32>,
                None::<u32>,
                None::<u32>,
            )
            &&& row.error_msg == Some(error)
        },
    }
}

/// `row` stands for `payload`, which came in the raw row `raw_id` from a daemon of `version`.
pub open spec fn row_of(
    row: ParsedRow,
    raw_id: i64,
    version: Seq<char>,
    payload: DecodedPayload,
) -> bool {
    &&& row.raw_id == raw_id
    &&& row.client_uuid@ == "0x"@ + hex(payload.id as nat, 16)
    &&& row.daemon_version@ == version
    &&& event_columns(row, payload.data)
}

fn profile_name(profile: PowerProfile) -> (name: String)
    ensures
        name@ == profile_text(profile),
{
    match profile {
        PowerProfile::Silent => "Silent".to_owned(),
        PowerProfile::Default => "Default".to_owned(),
        PowerProfile::Performance => "Performance".to_owned(),
    }
}

/// The row of a decoded report.
pub fn parsed_row(raw_id: i64, version: &str, payload: DecodedPayload) -> (row: ParsedRow)
    ensures
        row_of(row, raw_id, version@, payload),
{
    let client_uuid = around("0x", hex_text(payload.id, 16), "");
    assert("0x"@ + hex(payload.id as nat, 16) + ""@ =~= "0x"@ + hex(payload.id as nat, 16)) by {
        reveal_strlit("");
    }
    let daemon_version = version.to_owned();
    match payload.data {
        TelemetryEvent::Startup { firmware, offset } => {
            let hex_offset = around("0x", hex_text(offset as u64, 4), "");
            assert("0x"@ + hex(offset as nat, 4) + ""@ =~= "0x"@ + hex(offset as nat, 4)) by {
                reveal_strlit("");
            }
            ParsedRow {
                raw_id,
                client_uuid,
                daemon_version,
                event_type: "Startup".to_owned(),
                firmware: Some(firmware),
                offset: Some(hex_offset),
                profile: None,
                temp_1: None,
                temp_2: None,
                fan_1: None,
                fan_2: None,
                error_msg: None,
            }
        },
        TelemetryEvent::Status { profile, temps, fans } => ParsedRow {
            raw_id,
            client_uuid,
            daemon_version,
            event_type: "Status".to_owned(),
            firmware: None,
            offset: None,
            profile: Some(profile_name(profile)),
            temp_1: Some(temps[0]),
            temp_2: Some(temps[1]),
            fan_1: Some(fans[0]),
            fan_2: Some(fans[1]),
            error_msg: None,
        },
        TelemetryEvent::Panic { error } => ParsedRow {
            raw_id,
            client_uuid,
            daemon_version,
            event_type: "Panic".to_owned(),
            firmware: None,
            offset: None,
            profile: None,
            temp_1: None,
            temp_2: None,
            fan_1: None,
            fan_2: None,
            error_msg: Some(error),
        },
    }
}

/// `action` is what follows `event` for a request of a daemon of `version`.
pub open spec fn follows(event: StoreEvent, version: Seq<char>, action: StoreAction) -> bool {
    match event {
        StoreEvent::Body(None) => action == StoreAction::Respond(400),
        StoreEvent::Body(Some(body)) => if body@.len() > MAX_BODY_SIZE {
            action == StoreAction::Respond(400)
        } else {
            action == StoreAction::StoreRaw(body)
        },
        StoreEvent::RawStored(None, _) => action == StoreAction::Respond(500),
        StoreEvent::RawStored(Some(raw_id), body) => action == StoreAction::Decode(raw_id, body),
        StoreEvent::Decoded(_, None) => action == StoreAction::Respond(202),
        StoreEvent::Decoded(raw_id, Some(payload)) => action matches StoreAction::StoreParsed(row)
            && row_of(row, raw_id, version, payload),
        StoreEvent::ParsedStored(stored) => action == StoreAction::Respond(
            if stored {
                201
            } else {
                500
            },
        ),
    }
}

/// What follows an event. The raw body is stored first; a body that cannot be decoded is answered
/// with 202, for it has been stored all the same.
pub fn store_step(event: StoreEvent, version: &str) -> (action: StoreAction)
    ensures
        follows(event, version@, action),
{
    match event {
        StoreEvent::Body(None) => StoreAction::Respond(400),
        StoreEvent::Body(Some(body)) => {
            if body.len() > MAX_BODY_SIZE {
                StoreAction::Respond(400)
            } else {
                StoreAction::StoreRaw(body)
            }
        },
        StoreEvent::RawStored(None, _) => StoreAction::Respond(500),
        StoreEvent::RawStored(Some(raw_id), body) => StoreAction::Decode(raw_id, body),
        StoreEvent::Decoded(_, None) => StoreAction::Respond(202),
        StoreEvent::Decoded(raw_id, Some(payload)) => StoreAction::StoreParsed(
            parsed_row(raw_id, version, payload),
        ),
        StoreEvent::ParsedStored(stored) => {
            if stored {
                StoreAction::Respond(201)
            } else {
                StoreAction::Respond(500)
            }
        },
    }
}

/// Nothing is lost: an accepted body is handed to the raw table, whole, before anything else is
/// done with it, and only a stored body is decoded.
pub proof fn law_raw_body_is_stored_first(event: StoreEvent, version: Seq<char>, action: StoreAction)
    requires
        follows(event, version, action),
    ensures
        action is StoreRaw ==> event == StoreEvent::Body(Some(action->StoreRaw_0))
            && action->StoreRaw_0@.len() <= MAX_BODY_SIZE,
        action is Decode ==> event == StoreEvent::RawStored(
            Some(action->Decode_0),
            action->Decode_1,
        ),
        action is StoreParsed ==> event is Decoded,
{
}

/// A success is reported only for what has been stored: 201 after both rows, 202 after the raw row
/// alone.
pub proof fn law_success_means_stored(event: StoreEvent, version: Seq<char>)
    ensures
        follows(event, version, StoreAction::Respond(201)) ==> event == StoreEvent::ParsedStored(
            true,
        ),
        follows(event, version, StoreAction::Respond(202)) ==> event is Decoded && event->Decoded_1
            is None,
{
}

// ---- Requests, headers and rows ----

/// Small letters: only the capitals of the English alphabet change, each to the letter 32 places on.
pub proof fn law_small_letters(c: char)
    ensures
        'A' <= c && c <= 'Z' ==> small(c) as int == c as int + 32,
        !('A' <= c && c <= 'Z') ==> small(c) == c,
        small(small(c)) == small(c),
{
}

/// Headers are compared without regard to case, and to nothing else: texts of different lengths
/// differ, and so do texts with a character that differs in more than its case.
pub proof fn law_only_case_is_disregarded(a: Seq<char>, b: Seq<char>, i: int)
    ensures
        equivalent(a, a),
        equivalent(a, b) ==> equivalent(b, a) && a.len() == b.len(),
        equivalent(a, b) && 0 <= i < a.len() ==> a[i] == b[i] || a[i] as int == b[i] as int + 32
            || b[i] as int == a[i] as int + 32,
        a.len() == b.len() && (forall|k: int| 0 <= k < a.len() ==> a[k] == #[trigger] b[k])
            ==> equivalent(a, b),
{
    if equivalent(a, b) {
        assert forall|k: int| 0 <= k < b.len() implies small(b[k]) == small(#[trigger] a[k]) by {
            assert(small(a[k]) == small(b[k]));
        }
        if 0 <= i < a.len() {
            assert(small(a[i]) == small(b[i]));
        }
    }
}

/// The version is the value of the first header of that name, whatever its case, and unknown where
/// there is none.
pub proof fn law_the_first_version_counts(headers: Seq<Header>, i: int, at: int)
    requires
        0 <= i <= headers.len(),
        i <= at <= headers.len(),
        forall|j: int|
            i <= j < at ==> !equivalent((#[trigger] headers[j]).field@, "X-Daemon-Version"@),
        at < headers.len() ==> equivalent(headers[at].field@, "X-Daemon-Version"@),
    ensures
        at < headers.len() ==> version_from(headers, i) == headers[at].value@,
        at == headers.len() ==> version_from(headers, i) == "Unknown"@,
    decreases at - i,
{
    if i < at {
        assert(!equivalent(headers[i].field@, "X-Daemon-Version"@));
        law_the_first_version_counts(headers, i + 1, at);
    }
}

/// Which requests are read: posts to the one address, with a body that does not say to be longer than
/// 512 KiB. A longer one is answered with 413, and everything else with 404.
pub proof fn law_only_posts_to_telemetry_are_read(
    is_post: bool,
    url: Seq<char>,
    body_length: Option<usize>,
)
    ensures
        !is_post || url != "/telemetry"@ <==> verdict_on(is_post, url, body_length)
            == Verdict::Respond(404),
        is_post && url == "/telemetry"@ && (body_length matches Some(length) && length > 524288)
            <==> verdict_on(is_post, url, body_length) == Verdict::Respond(413),
        verdict_on(is_post, url, body_length) is ReadBody <==> is_post && url == "/telemetry"@ && (
        body_length matches Some(length) ==> length <= 524288),
{
}

/// How each event is answered: 400 for a body that cannot be read or is too long, 500 for a row that
/// cannot be stored, 202 for a body that cannot be decoded, and 201 once both rows are stored.
pub proof fn law_how_events_are_answered(event: StoreEvent, version: Seq<char>, action: StoreAction)
    requires
        follows(event, version, action),
    ensures
        event matches StoreEvent::Body(body) ==> {
            &&& body is None || body->Some_0@.len() > 524288 <==> action == StoreAction::Respond(400)
            &&& body matches Some(bytes) ==> (bytes@.len() <= 524288 ==> action
                == StoreAction::StoreRaw(bytes))
        },
        event matches StoreEvent::RawStored(row, body) ==> {
            &&& row is None <==> action == StoreAction::Respond(500)
            &&& row matches Some(raw_id) ==> action == StoreAction::Decode(raw_id, body)
        },
        event matches StoreEvent::Decoded(raw_id, payload) ==> {
            &&& payload is None <==> action == StoreAction::Respond(202)
            &&& payload is Some ==> (action matches StoreAction::StoreParsed(row) && row.raw_id
                == raw_id && row.daemon_version@ == version)
        },
        event matches StoreEvent::ParsedStored(stored) ==> {
            &&& stored <==> action == StoreAction::Respond(201)
            &&& !stored <==> action == StoreAction::Respond(500)
        },
{
}

/// A row keeps what its report says and nothing else: the client's number in base sixteen, which can
/// be read back; and of the columns of the three kinds only those of its own kind.
pub proof fn law_a_row_keeps_its_report(
    row: ParsedRow,
    raw_id: i64,
    version: Seq<char>,
    payload: DecodedPayload,
)
    requires
        row_of(row, raw_id, version, payload),
    ensures
        row.raw_id == raw_id,
        row.daemon_version@ == version,
        row.client_uuid@.len() == 18,
        row.client_uuid@.take(2) == "0x"@,
        hex_number(row.client_uuid@.skip(2)) == Some(payload.id as nat),
        row.firmware is Some <==> payload.data is Startup,
        row.offset is Some <==> payload.data is Startup,
        row.profile is Some <==> payload.data is Status,
        row.temp_1 is Some <==> payload.data is Status,
        row.temp_2 is Some <==> payload.data is Status,
        row.fan_1 is Some <==> payload.data is Status,
        row.fan_2 is Some <==> payload.data is Status,
        row.error_msg is Some <==> payload.data is Panic,
        payload.data matches TelemetryEvent::Startup { firmware, offset } ==> {
            &&& row.event_type@ == "Startup"@
            &&& row.firmware == Some(firmware)
            &&& row.offset->Some_0@.len() == 6
            &&& row.offset->Some_0@.take(2) == "0x"@
            &&& hex_number(row.offset->Some_0@.skip(2)) == Some(offset as nat)
        },
        payload.data matches TelemetryEvent::Status { profile, temps, fans } ==> {
            &&& row.event_type@ == "Status"@
            &&& row.temp_1 == Some(temps@[0]) && row.temp_2 == Some(temps@[1])
            &&& row.fan_1 == Some(fans@[0]) && row.fan_2 == Some(fans@[1])
            &&& profile is Silent ==> row.profile->Some_0@ == "Silent"@
            &&& profile is Default ==> row.profile->Some_0@ == "Default"@
            &&& profile is Performance ==> row.profile->Some_0@ == "Performance"@
        },
        payload.data matches TelemetryEvent::Panic { error } ==> row.event_type@ == "Panic"@
            && row.error_msg == Some(error),
{
    reveal_strlit("0x");
    reveal_with_fuel(sixteens, 17);
    law_hex_is_read_back(payload.id as nat, 16);
    assert(row.client_uuid@.take(2) =~= "0x"@);
    assert(row.client_uuid@.skip(2) =~= hex(payload.id as nat, 16));
    if let TelemetryEvent::Startup { firmware, offset } = payload.data {
        law_hex_is_read_back(offset as nat, 4);
        assert(row.offset->Some_0@.take(2) =~= "0x"@);
        assert(row.offset->Some_0@.skip(2) =~= hex(offset as nat, 4));
    }
}

} // verus!
