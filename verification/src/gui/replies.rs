//! What the answers of the daemon mean to the user.
use vstd::prelude::*;

use crate::ipc::{RequestError, WireError};
use crate::text::{blank, hex, hex_text, is_blank, joined};
use crate::types::{ErrorCode, IpcError, IpcResponse};

verus! {

/// The outcome of an action that the daemon carried out.
#[derive(PartialEq, Eq, Debug)]
pub struct ActionOutcome {
    pub message: String,
    pub telemetry_id: Option<u64>,
}

/// What an error is about, without the daemon's own message.
pub open spec fn error_subject(error: IpcError) -> Seq<char> {
    match error.unsupported {
        Some(info) => match info.chip {
            Some(chip) => "此硬件暂不受支持："@ + info.board@ + "（"@ + chip@ + "）"@,
            None => "此硬件暂不受支持："@ + info.board@,
        },
        None => match error.code {
            ErrorCode::Internal => "后台服务返回内部错误"@,
            ErrorCode::UnsupportedRequest => "当前后台服务不支持该操作，请更新组件"@,
            ErrorCode::UnsupportedHardware => "本机硬件不支持该操作"@,
            ErrorCode::Precondition => "操作已保存，但当前条件不满足"@,
        },
    }
}

/// An error, with the daemon's own message where there is more to it than blanks.
pub open spec fn ipc_error_text(error: IpcError) -> Seq<char> {
    if is_blank(error.message@) {
        error_subject(error)
    } else {
        error_subject(error) + "："@ + error.message@
    }
}

/// An error of the daemon in words.
pub fn format_ipc_error(error: &IpcError) -> (text: String)
    ensures
        text@ == ipc_error_text(*error),
{
    let mut result = match &error.unsupported {
        Some(info) => {
            let mut named = joined("此硬件暂不受支持：", info.board.as_str());
            if let Some(chip) = &info.chip {
                named.append("（");
                named.append(chip.as_str());
                named.append("）");
            }
            named
        },
        None => match error.code {
            ErrorCode::Internal => "后台服务返回内部错误".to_owned(),
            ErrorCode::UnsupportedRequest => "当前后台服务不支持该操作，请更新组件".to_owned(),
            ErrorCode::UnsupportedHardware => "本机硬件不支持该操作".to_owned(),
            ErrorCode::Precondition => "操作已保存，但当前条件不满足".to_owned(),
        },
    };
    if !blank(error.message.as_str()) {
        result.append("：");
        result.append(error.message.as_str());
    }
    result
}

/// An answer of the daemon as the standard library's `{:?}` writes it.
pub uninterp spec fn debug_form(response: IpcResponse) -> Seq<char>;

/// Formats an answer with `std::format!` and `{:?}`. The text depends on the answer alone; it is
/// named and not spelt out.
#[verifier::external_body]
fn debug_text(response: &IpcResponse) -> (text: String)
    ensures
        text@ == debug_form(*response),
{
    format!("{:?}", response)
}

/// The complaint about an answer that does not fit what was asked, with the answer as `shown`.
pub open spec fn complaint(name: Seq<char>, shown: Seq<char>) -> Seq<char> {
    "读取"@ + name + "时收到意外响应："@ + shown
}

/// The complaint about an answer, shown as `shown`, that came where `name` was asked for.
pub fn complaint_text(name: &str, shown: &str) -> (text: String)
    ensures
        text@ == complaint(name@, shown@),
{
    let mut text = joined("读取", name);
    text.append("时收到意外响应：");
    text.append(shown);
    text
}

/// The complaint about an answer that came where `name` was asked for.
pub fn unexpected_response(name: &str, response: &IpcResponse) -> (text: String)
    ensures
        text@ == complaint(name@, debug_form(*response)),
{
    complaint_text(name, debug_text(response).as_str())
}

/// Lets every answer through but an error, which is put into words.
pub fn ipc_success(response: IpcResponse) -> (result: Result<IpcResponse, String>)
    ensures
        match response {
            IpcResponse::Error(error) => result matches Err(text) && text@ == ipc_error_text(error),
            _ => result == Ok::<IpcResponse, String>(response),
        },
{
    match response {
        IpcResponse::Error(error) => Err(format_ipc_error(&error)),
        value => Ok(value),
    }
}

/// The message of an action that was answered with `response`, shown as `shown` where there are no
/// better words for it; nothing where the daemon reports an error.
pub open spec fn outcome_text(response: IpcResponse, shown: Seq<char>) -> Option<Seq<char>> {
    match response {
        IpcResponse::Error(_) => None,
        IpcResponse::Success => Some("已应用。"@),
        IpcResponse::TelemetryDisabledInfo => Some("匿名遥测已关闭。"@),
        IpcResponse::TelemetryId(id) => Some("遥测 ID："@ + hex(id as nat, 16)),
        _ => Some("已完成："@ + shown),
    }
}

/// The number of the client in an answer.
pub open spec fn outcome_id(response: IpcResponse) -> Option<u64> {
    match response {
        IpcResponse::TelemetryId(id) => Some(id),
        _ => None,
    }
}

/// `result` is the outcome of an action that was answered with `response`.
pub open spec fn is_outcome(
    result: Result<ActionOutcome, String>,
    response: IpcResponse,
    shown: Seq<char>,
) -> bool {
    match result {
        Ok(outcome) => outcome_text(response, shown) == Some(outcome.message@)
            && outcome.telemetry_id == outcome_id(response),
        Err(text) => response matches IpcResponse::Error(error) && text@ == ipc_error_text(error),
    }
}

/// The outcome of an action that was answered with `response`, which is shown as `shown` where there
/// are no better words for it.
pub fn outcome_shown(response: &IpcResponse, shown: &str) -> (result: Result<ActionOutcome, String>)
    ensures
        is_outcome(result, *response, shown@),
{
    match response {
        IpcResponse::Error(error) => Err(format_ipc_error(error)),
        IpcResponse::Success => Ok(
            ActionOutcome { message: "已应用。".to_owned(), telemetry_id: None },
        ),
        IpcResponse::TelemetryDisabledInfo => Ok(
            ActionOutcome { message: "匿名遥测已关闭。".to_owned(), telemetry_id: None },
        ),
        IpcResponse::TelemetryId(id) => Ok(
            ActionOutcome {
                message: joined("遥测 ID：", hex_text(*id, 16).as_str()),
                telemetry_id: Some(*id),
            },
        ),
        _ => Ok(ActionOutcome { message: joined("已完成：", shown), telemetry_id: None }),
    }
}

/// The outcome of an action that was answered with `response`.
pub fn action_outcome(response: IpcResponse) -> (result: Result<ActionOutcome, String>)
    ensures
        is_outcome(result, response, debug_form(response)),
{
    let shown = debug_text(&response);
    outcome_shown(&response, shown.as_str())
}

/// The system's words for an error on the connection.
pub open spec fn wire_error_text(error: WireError) -> Seq<char> {
    match error {
        WireError::Fault(message) => message@,
        WireError::UnexpectedReply => "unexpected reply"@,
    }
}

/// An unanswered request in words.
pub open spec fn request_error_text(error: RequestError) -> Seq<char> {
    match error {
        RequestError::Connect(error) => "无法连接 Lecoo 后台服务："@ + wire_error_text(error),
        RequestError::Exchange(error) => "与 Lecoo 后台服务通信失败："@ + wire_error_text(error),
    }
}

/// An unanswered request in words.
pub fn format_request_error(error: &RequestError) -> (text: String)
    ensures
        text@ == request_error_text(*error),
{
    let (subject, cause) = match error {
        RequestError::Connect(cause) => ("无法连接 Lecoo 后台服务：", cause),
        RequestError::Exchange(cause) => ("与 Lecoo 后台服务通信失败：", cause),
    };
    match cause {
        WireError::Fault(message) => joined(subject, message.as_str()),
        WireError::UnexpectedReply => joined(subject, "unexpected reply"),
    }
}

// ---- What holds of the words ----

/// The daemon's own message ends the text of an error, after a colon, unless it shows nothing; the
/// text is the subject alone where it does.
pub proof fn law_errors_end_with_the_message(error: IpcError)
    ensures
        is_blank(error.message@) ==> ipc_error_text(error) == error_subject(error),
        !is_blank(error.message@) ==> ipc_error_text(error) == error_subject(error) + "："@
            + error.message@,
{
}

/// What an error is about: the board that is not supported, and its chip where one was found, count
/// before the code.
pub proof fn law_what_an_error_is_about(error: IpcError)
    ensures
        error.unsupported matches Some(info) ==> {
            &&& info.chip is None ==> error_subject(error) == "此硬件暂不受支持："@ + info.board@
            &&& info.chip matches Some(chip) ==> error_subject(error) == "此硬件暂不受支持："@
                + info.board@ + "（"@ + chip@ + "）"@
        },
        error.unsupported is None ==> {
            &&& error.code is Internal ==> error_subject(error) == "后台服务返回内部错误"@
            &&& error.code is UnsupportedRequest ==> error_subject(error)
                == "当前后台服务不支持该操作，请更新组件"@
            &&& error.code is UnsupportedHardware ==> error_subject(error) == "本机硬件不支持该操作"@
            &&& error.code is Precondition ==> error_subject(error)
                == "操作已保存，但当前条件不满足"@
        },
{
}

/// The outcome of an action: it failed exactly if the daemon answered with an error, and then says
/// what the error says. A number of the client is kept exactly where the answer is one, and it is
/// shown with sixteen digits.
pub proof fn law_outcomes_of_actions(
    result: Result<ActionOutcome, String>,
    response: IpcResponse,
    shown: Seq<char>,
)
    requires
        is_outcome(result, response, shown),
    ensures
        result is Err <==> response is Error,
        response matches IpcResponse::Error(error) ==> result->Err_0@ == ipc_error_text(error),
        result matches Ok(outcome) ==> {
            &&& response matches IpcResponse::TelemetryId(id) ==> outcome.telemetry_id == Some(id)
                && outcome.message@ == "遥测 ID："@ + hex(id as nat, 16)
            &&& !(response is TelemetryId) ==> outcome.telemetry_id is None
            &&& response is Success ==> outcome.message@ == "已应用。"@
            &&& response is TelemetryDisabledInfo ==> outcome.message@ == "匿名遥测已关闭。"@
            &&& !(response is TelemetryId) && !(response is Success) && !(
            response is TelemetryDisabledInfo) ==> outcome.message@ == "已完成："@ + shown
        },
{
}

/// An unanswered request says whether the connection or the exchange failed, and the system's own
/// words for it.
pub proof fn law_unanswered_requests_in_words(error: RequestError)
    ensures
        error matches RequestError::Connect(WireError::Fault(message)) ==> request_error_text(error)
            == "无法连接 Lecoo 后台服务："@ + message@,
        error matches RequestError::Exchange(WireError::Fault(message)) ==> request_error_text(error)
            == "与 Lecoo 后台服务通信失败："@ + message@,
        error == RequestError::Connect(WireError::UnexpectedReply) ==> request_error_text(error)
            == "无法连接 Lecoo 后台服务："@ + "unexpected reply"@,
        error == RequestError::Exchange(WireError::UnexpectedReply) ==> request_error_text(error)
            == "与 Lecoo 后台服务通信失败："@ + "unexpected reply"@,
{
}

/// A complaint names what was asked for and shows the answer that came.
pub proof fn law_a_complaint_shows_the_answer(name: Seq<char>, shown: Seq<char>)
    ensures
        complaint(name, shown) == "读取"@ + name + "时收到意外响应："@ + shown,
{
}

} // verus!
