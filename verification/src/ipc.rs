//! The two ends of the connection between the daemon and its clients.
//!
//! A socket, and the messages on it, are somebody else's: the functions here say in which order
//! they are made and used, and what is returned for each answer.
use vstd::prelude::*;

use crate::session::{asks, Dialogue, Session, Stop};
use crate::types::{IpcRequest, IpcResponse};

verus! {

/// What the two ends ask of the system.
#[derive(PartialEq, Eq, Debug)]
pub enum WireRequest {
    /// Find the name of the installed daemon's socket.
    SocketName,
    /// Make a name in the system's own namespace out of a text.
    Name(String),
    /// Connect to the socket of that name.
    Connect,
    /// Introduce the client to the daemon.
    Handshake,
    Send(IpcRequest),
    Receive,
    /// Listen on the socket of that name.
    Listen(Access),
    /// Wait for the next client.
    Accept,
}

/// Who may use the daemon's socket.
#[derive(PartialEq, Eq, Debug)]
pub enum Access {
    /// The mode of the socket's file.
    Mode(u32),
    /// A security descriptor.
    Descriptor(String),
}

/// What the system answers.
#[derive(PartialEq, Eq, Debug)]
pub enum WireReply {
    Done,
    Response(IpcResponse),
    /// The message of an error.
    Fault(String),
}

/// Why a connection could not be made or used.
#[derive(PartialEq, Eq, Debug)]
pub enum WireError {
    /// The system's own message.
    Fault(String),
    /// The answer does not fit the request.
    UnexpectedReply,
}

pub type WireIo = Session<WireRequest, WireReply>;

pub type WireTalk = Dialogue<WireRequest, WireReply>;

pub type WireRun<T> = (WireTalk, Result<T, Stop<WireError>>);

/// A request that is answered without a value.
pub open spec fn wire_run(d: WireTalk, request: WireRequest) -> WireRun<()> {
    match asks::<WireRequest, WireReply, WireError>(d, request) {
        (d, Err(stop)) => (d, Err(stop)),
        (d, Ok(WireReply::Done)) => (d, Ok(())),
        (d, Ok(WireReply::Fault(message))) => (d, Err(Stop::Failed(WireError::Fault(message)))),
        (d, Ok(_)) => (d, Err(Stop::Failed(WireError::UnexpectedReply))),
    }
}

/// The next message of the daemon.
pub open spec fn receive_run(d: WireTalk) -> WireRun<IpcResponse> {
    match asks::<WireRequest, WireReply, WireError>(d, WireRequest::Receive) {
        (d, Err(stop)) => (d, Err(stop)),
        (d, Ok(WireReply::Response(response))) => (d, Ok(response)),
        (d, Ok(WireReply::Fault(message))) => (d, Err(Stop::Failed(WireError::Fault(message)))),
        (d, Ok(_)) => (d, Err(Stop::Failed(WireError::UnexpectedReply))),
    }
}

/// Connecting: the name is found, the socket connected, and the client introduced.
pub open spec fn connect_run(d: WireTalk, name: WireRequest) -> WireRun<()> {
    match wire_run(d, name) {
        (d, Err(stop)) => (d, Err(stop)),
        (d, Ok(())) => match wire_run(d, WireRequest::Connect) {
            (d, Err(stop)) => (d, Err(stop)),
            (d, Ok(())) => wire_run(d, WireRequest::Handshake),
        },
    }
}

/// One exchange: the request is sent, and the answer received.
pub open spec fn exchange_run(d: WireTalk, request: IpcRequest) -> WireRun<IpcResponse> {
    match wire_run(d, WireRequest::Send(request)) {
        (d, Err(stop)) => (d, Err(stop)),
        (d, Ok(())) => receive_run(d),
    }
}

/// Listening: the name is found, and a socket with the given access made.
pub open spec fn listen_run(d: WireTalk, name: WireRequest, access: Access) -> WireRun<()> {
    match wire_run(d, name) {
        (d, Err(stop)) => (d, Err(stop)),
        (d, Ok(())) => wire_run(d, WireRequest::Listen(access)),
    }
}

/// `access` lets every local user talk to the daemon: by mode on Unix; on Windows with full access
/// for the system and its administrators, and reading and writing for the users.
pub open spec fn open_to_users(access: Access, windows: bool) -> bool {
    if windows {
        access matches Access::Descriptor(text) && text@
            == "D:(A;;GA;;;SY)(A;;GA;;;BA)(A;;GRGW;;;BU)"@
    } else {
        access == Access::Mode(0o666)
    }
}

/// The reply as far as it is a message of the daemon.
pub open spec fn borrowed(result: Result<&IpcResponse, Stop<WireError>>) -> Result<
    IpcResponse,
    Stop<WireError>,
> {
    match result {
        Ok(response) => Ok(*response),
        Err(stop) => Err(stop),
    }
}

fn wire(io: &mut WireIo, request: WireRequest) -> (result: Result<(), Stop<WireError>>)
    ensures
        (final(io)@, result) == wire_run(old(io)@, request),
{
    match io.ask(request)? {
        WireReply::Done => Ok(()),
        WireReply::Fault(message) => Err(Stop::Failed(WireError::Fault(message.clone()))),
        _ => Err(Stop::Failed(WireError::UnexpectedReply)),
    }
}

fn access_for(windows: bool) -> (access: Access)
    ensures
        open_to_users(access, windows),
{
    if windows {
        Access::Descriptor("D:(A;;GA;;;SY)(A;;GA;;;BA)(A;;GRGW;;;BU)".to_owned())
    } else {
        Access::Mode(0o666)
    }
}

/// A client of the daemon, connected and introduced.
#[derive(PartialEq, Eq, Debug)]
pub struct IpcClient {
    introduced: (),
}

impl IpcClient {
    /// Connects to the installed daemon.
    pub fn connect(io: &mut WireIo) -> (result: Result<IpcClient, Stop<WireError>>)
        ensures
            final(io)@ == connect_run(old(io)@, WireRequest::SocketName).0,
            match result {
                Ok(_) => Ok::<(), Stop<WireError>>(()),
                Err(stop) => Err(stop),
            } == connect_run(old(io)@, WireRequest::SocketName).1,
    {
        wire(io, WireRequest::SocketName)?;
        wire(io, WireRequest::Connect)?;
        wire(io, WireRequest::Handshake)?;
        Ok(IpcClient { introduced: () })
    }

    /// Connects to a socket of the caller's choice.
    pub fn connect_to(name: String, io: &mut WireIo) -> (result: Result<
        IpcClient,
        Stop<WireError>,
    >)
        ensures
            final(io)@ == connect_run(old(io)@, WireRequest::Name(name)).0,
            match result {
                Ok(_) => Ok::<(), Stop<WireError>>(()),
                Err(stop) => Err(stop),
            } == connect_run(old(io)@, WireRequest::Name(name)).1,
    {
        wire(io, WireRequest::Name(name))?;
        wire(io, WireRequest::Connect)?;
        wire(io, WireRequest::Handshake)?;
        Ok(IpcClient { introduced: () })
    }

    /// Sends a request and receives the answer.
    pub fn request<'s>(&mut self, request: &IpcRequest, io: &'s mut WireIo) -> (result: Result<
        &'s IpcResponse,
        Stop<WireError>,
    >)
        ensures
            final(io)@ == exchange_run(old(io)@, *request).0,
            borrowed(result) == exchange_run(old(io)@, *request).1,
    {
        wire(io, WireRequest::Send(*request))?;
        match io.ask(WireRequest::Receive)? {
            WireReply::Response(response) => Ok(response),
            WireReply::Fault(message) => Err(Stop::Failed(WireError::Fault(message.clone()))),
            _ => Err(Stop::Failed(WireError::UnexpectedReply)),
        }
    }
}

/// The daemon's end: a socket that is listened on.
#[derive(PartialEq, Eq, Debug)]
pub struct IpcServer {
    listening: (),
}

impl IpcServer {
    /// Listens on the installed daemon's socket.
    pub fn bind(windows: bool, io: &mut WireIo) -> (result: Result<IpcServer, Stop<WireError>>)
        ensures
            exists|access: Access| #[trigger]
                open_to_users(access, windows) && final(io)@ == listen_run(
                    old(io)@,
                    WireRequest::SocketName,
                    access,
                ).0 && match result {
                    Ok(_) => Ok::<(), Stop<WireError>>(()),
                    Err(stop) => Err(stop),
                } == listen_run(old(io)@, WireRequest::SocketName, access).1,
    {
        let access = access_for(windows);
        assert(open_to_users(access, windows));
        wire(io, WireRequest::SocketName)?;
        wire(io, WireRequest::Listen(access))?;
        Ok(IpcServer { listening: () })
    }

    /// Listens on a socket of the caller's choice.
    pub fn bind_to(name: String, windows: bool, io: &mut WireIo) -> (result: Result<
        IpcServer,
        Stop<WireError>,
    >)
        ensures
            exists|access: Access| #[trigger]
                open_to_users(access, windows) && final(io)@ == listen_run(
                    old(io)@,
                    WireRequest::Name(name),
                    access,
                ).0 && match result {
                    Ok(_) => Ok::<(), Stop<WireError>>(()),
                    Err(stop) => Err(stop),
                } == listen_run(old(io)@, WireRequest::Name(name), access).1,
    {
        let access = access_for(windows);
        assert(open_to_users(access, windows));
        wire(io, WireRequest::Name(name))?;
        wire(io, WireRequest::Listen(access))?;
        Ok(IpcServer { listening: () })
    }

    /// Waits for the next client; a connection that is accepted has still to be introduced.
    pub fn accept(&mut self, io: &mut WireIo) -> (result: Result<(), Stop<WireError>>)
        ensures
            (final(io)@, result) == wire_run(old(io)@, WireRequest::Accept),
    {
        wire(io, WireRequest::Accept)
    }
}

// ---- A client that reconnects ----

/// Why a request of a reconnecting client was not answered.
#[derive(PartialEq, Eq, Debug)]
pub enum RequestError {
    Connect(WireError),
    Exchange(WireError),
}

/// Asking the daemon, with a connection made first where there is none. The connection is given up
/// when it fails; a suspended run leaves it as it was.
pub open spec fn daemon_run(d: WireTalk, connected: bool, request: IpcRequest) -> (
    WireTalk,
    bool,
    Result<IpcResponse, Stop<RequestError>>,
) {
    let ready = if connected {
        (d, Ok::<(), Stop<WireError>>(()))
    } else {
        connect_run(d, WireRequest::SocketName)
    };
    match ready {
        (d, Err(Stop::Suspended)) => (d, connected, Err(Stop::Suspended)),
        (d, Err(Stop::Failed(error))) => (
            d,
            false,
            Err(Stop::Failed(RequestError::Connect(error))),
        ),
        (d, Ok(())) => match exchange_run(d, request) {
            (d, Err(Stop::Suspended)) => (d, connected, Err(Stop::Suspended)),
            (d, Err(Stop::Failed(error))) => (
                d,
                false,
                Err(Stop::Failed(RequestError::Exchange(error))),
            ),
            (d, Ok(response)) => (d, true, Ok(response)),
        },
    }
}

/// Asks the daemon, with a connection made first where there is none.
pub fn daemon_request<'s>(
    client: &mut Option<IpcClient>,
    request: &IpcRequest,
    io: &'s mut WireIo,
) -> (result: Result<&'s IpcResponse, Stop<RequestError>>)
    ensures
        (
            final(io)@,
            *final(client) is Some,
            match result {
                Ok(response) => Ok::<IpcResponse, Stop<RequestError>>(*response),
                Err(stop) => Err(stop),
            },
        ) == daemon_run(old(io)@, *old(client) is Some, *request),
{
    let mut current = match client {
        Some(_) => IpcClient { introduced: () },
        None => match IpcClient::connect(io) {
            Ok(made) => made,
            Err(Stop::Suspended) => {
                return Err(Stop::Suspended);
            },
            Err(Stop::Failed(error)) => {
                return Err(Stop::Failed(RequestError::Connect(error)));
            },
        },
    };
    match current.request(request, io) {
        Ok(response) => {
            *client = Some(current);
            Ok(response)
        },
        Err(Stop::Suspended) => Err(Stop::Suspended),
        Err(Stop::Failed(error)) => {
            *client = None;
            Err(Stop::Failed(RequestError::Exchange(error)))
        },
    }
}

/// A failed exchange is not repeated on the same connection: the next request of a client whose
/// last one failed begins with connecting.
pub proof fn law_failed_client_reconnects(
    d: WireTalk,
    connected: bool,
    request: IpcRequest,
    next: WireTalk,
    again: IpcRequest,
)
    requires
        daemon_run(d, connected, request).2 is Err,
        daemon_run(d, connected, request).2->Err_0 is Failed,
    ensures
        ({
            let after = daemon_run(d, connected, request).1;
            let run = daemon_run(next, after, again).0;
            run.asked.len() > next.asked.len() && run.asked[next.asked.len() as int]
                == WireRequest::SocketName
        }),
{
}

/// A client that is connected does not connect again.
pub proof fn law_connected_client_stays_connected(d: WireTalk, request: IpcRequest)
    ensures
        ({
            let run = daemon_run(d, true, request).0;
            &&& run.asked[d.asked.len() as int] == WireRequest::Send(request)
            &&& run.asked.len() <= d.asked.len() + 2
            &&& forall|i: int|
                d.asked.len() <= i < run.asked.len() ==> #[trigger] run.asked[i]
                    == WireRequest::Send(request) || run.asked[i] == WireRequest::Receive
        }),
{
}

// ---- The conversations in their order ----

/// A request without a value succeeds exactly if it is answered as done, and a fault is passed on with
/// its message; an answer of the daemon is passed on whole.
pub proof fn law_wire_answers(d: WireTalk, request: WireRequest)
    requires
        0 <= d.used < d.replies.len(),
    ensures
        wire_run(d, request).0.asked == d.asked.push(request),
        wire_run(d, request).1 is Ok <==> d.replies[d.used] is Done,
        d.replies[d.used] matches WireReply::Fault(message) ==> wire_run(d, request).1 == Err::<
            (),
            Stop<WireError>,
        >(Stop::Failed(WireError::Fault(message))) && receive_run(d).1 == Err::<
            IpcResponse,
            Stop<WireError>,
        >(Stop::Failed(WireError::Fault(message))),
        receive_run(d).0.asked == d.asked.push(WireRequest::Receive),
        receive_run(d).1 is Ok <==> d.replies[d.used] is Response,
        d.replies[d.used] matches WireReply::Response(response) ==> receive_run(d).1 == Ok::<
            IpcResponse,
            Stop<WireError>,
        >(response),
{
}

/// Connecting asks for the name, the socket and the introduction, one after the other, and goes on
/// only while each is done.
pub proof fn law_connecting_in_its_order(d: WireTalk, name: WireRequest, good: int)
    requires
        0 <= good <= 3,
        0 <= d.used,
        d.used + good <= d.replies.len(),
        good < 3 ==> d.used + good < d.replies.len() && d.replies[d.used + good] is Fault,
        forall|k: int| d.used <= k < d.used + good ==> d.replies[k] == WireReply::Done,
    ensures
        connect_run(d, name).0.asked == d.asked + seq![
            name,
            WireRequest::Connect,
            WireRequest::Handshake,
        ].take(if good < 3 { good + 1 } else { 3 }),
        good == 3 ==> connect_run(d, name).1 is Ok,
        good < 3 ==> connect_run(d, name).1 == Err::<(), Stop<WireError>>(
            Stop::Failed(WireError::Fault(d.replies[d.used + good]->Fault_0)),
        ),
{
    assert(connect_run(d, name).0.asked =~= d.asked + seq![
        name,
        WireRequest::Connect,
        WireRequest::Handshake,
    ].take(if good < 3 { good + 1 } else { 3 }));
}

/// An exchange sends the request and receives the answer to it, which is returned as it came; nothing
/// is received where the sending failed.
pub proof fn law_an_exchange_in_its_order(d: WireTalk, request: IpcRequest)
    requires
        0 <= d.used,
        d.used + 2 <= d.replies.len(),
    ensures
        d.replies[d.used] == WireReply::Done ==> exchange_run(d, request).0.asked == d.asked.push(
            WireRequest::Send(request),
        ).push(WireRequest::Receive),
        d.replies[d.used] == WireReply::Done ==> (d.replies[d.used + 1] matches WireReply::Response(
            response,
        ) ==> exchange_run(d, request).1 == Ok::<IpcResponse, Stop<WireError>>(response)),
        d.replies[d.used] != WireReply::Done ==> exchange_run(d, request).1 is Err && exchange_run(
            d,
            request,
        ).0.asked == d.asked.push(WireRequest::Send(request)),
{
}

/// A socket is listened on under its name and with the given access.
pub proof fn law_listening_in_its_order(d: WireTalk, name: WireRequest, access: Access)
    requires
        0 <= d.used,
        d.used + 2 <= d.replies.len(),
        d.replies[d.used] == WireReply::Done,
    ensures
        listen_run(d, name, access).0.asked == d.asked.push(name).push(WireRequest::Listen(access)),
        listen_run(d, name, access).1 is Ok <==> d.replies[d.used + 1] is Done,
{
}

/// The access of the daemon's socket: on Unix a mode with reading and writing for everybody and
/// nothing else; on Windows a descriptor, and never one kind for the other.
pub proof fn law_the_socket_is_for_every_user(access: Access, windows: bool)
    requires
        open_to_users(access, windows),
    ensures
        windows <==> access is Descriptor,
        access matches Access::Mode(mode) ==> mode == 6 * 64 + 6 * 8 + 6,
        access matches Access::Descriptor(text) ==> text@
            == "D:(A;;GA;;;SY)(A;;GA;;;BA)(A;;GRGW;;;BU)"@,
{
}

/// A client without a connection makes one before it asks; the request that is sent is the one that
/// was asked for, the answer is the daemon's, and the connection is kept for the next one.
pub proof fn law_a_new_client_connects_and_asks(
    d: WireTalk,
    request: IpcRequest,
    response: IpcResponse,
)
    requires
        0 <= d.used,
        d.used + 5 <= d.replies.len(),
        forall|k: int| d.used <= k < d.used + 4 ==> d.replies[k] == WireReply::Done,
        d.replies[d.used + 4] == WireReply::Response(response),
    ensures
        daemon_run(d, false, request).0.asked == d.asked + seq![
            WireRequest::SocketName,
            WireRequest::Connect,
            WireRequest::Handshake,
            WireRequest::Send(request),
            WireRequest::Receive,
        ],
        daemon_run(d, false, request).1,
        daemon_run(d, false, request).2 == Ok::<IpcResponse, Stop<RequestError>>(response),
{
}

/// A failure is told apart: one while connecting from one of the exchange. Either way the connection
/// is given up.
pub proof fn law_failures_are_told_apart(
    d: WireTalk,
    connected: bool,
    request: IpcRequest,
    message: String,
    good: int,
)
    requires
        0 <= good < if connected { 2int } else { 5 },
        0 <= d.used,
        d.used + good < d.replies.len(),
        forall|k: int| d.used <= k < d.used + good ==> d.replies[k] == WireReply::Done,
        d.replies[d.used + good] == WireReply::Fault(message),
    ensures
        !daemon_run(d, connected, request).1,
        daemon_run(d, connected, request).2 == Err::<IpcResponse, Stop<RequestError>>(
            Stop::Failed(
                if !connected && good < 3 {
                    RequestError::Connect(WireError::Fault(message))
                } else {
                    RequestError::Exchange(WireError::Fault(message))
                },
            ),
        ),
{
}

/// An answer of another kind than was asked for is reported as one that does not answer.
pub proof fn law_other_wire_answers_are_errors(d: WireTalk, request: WireRequest)
    requires
        0 <= d.used < d.replies.len(),
        !(d.replies[d.used] is Fault),
    ensures
        !(d.replies[d.used] is Done) ==> wire_run(d, request).1 == Err::<(), Stop<WireError>>(
            Stop::Failed(WireError::UnexpectedReply),
        ),
        !(d.replies[d.used] is Response) ==> receive_run(d).1 == Err::<
            IpcResponse,
            Stop<WireError>,
        >(Stop::Failed(WireError::UnexpectedReply)),
{
}

} // verus!
