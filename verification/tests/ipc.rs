use lecoo_control::ipc::{
    daemon_request, Access, IpcClient, IpcServer, RequestError, WireError, WireIo, WireReply,
    WireRequest,
};
use lecoo_control::session::{Session, Stop};
use lecoo_control::types::{IpcRequest, IpcResponse};

fn fault(text: &str) -> WireReply {
    WireReply::Fault(text.to_owned())
}

/// Asks the daemon with the replies given, and tells the outcome and how many requests it took.
fn ask(
    client: &mut Option<IpcClient>,
    replies: Vec<WireReply>,
) -> (Result<IpcResponse, RequestError>, Vec<String>) {
    let mut io: WireIo = Session::new();
    let mut replies = replies.into_iter();
    loop {
        let outcome = match daemon_request(client, &IpcRequest::GetTemperatures, &mut io) {
            Ok(response) => Ok(response.clone()),
            Err(Stop::Failed(error)) => Err(error),
            Err(Stop::Suspended) => {
                io.answer(replies.next().expect("enough replies"));
                continue;
            }
        };
        let asked = io.asked().iter().map(|request| format!("{request:?}")).collect();
        return (outcome, asked);
    }
}

#[test]
fn a_client_connects_before_its_first_request() {
    let mut client = None;
    let (outcome, asked) = ask(
        &mut client,
        vec![
            WireReply::Done,
            WireReply::Done,
            WireReply::Done,
            WireReply::Done,
            WireReply::Response(IpcResponse::Success),
        ],
    );
    assert_eq!(outcome, Ok(IpcResponse::Success));
    assert_eq!(
        asked,
        vec!["SocketName", "Connect", "Handshake", "Send(GetTemperatures)", "Receive"]
    );
    assert!(client.is_some());
    let (outcome, asked) = ask(
        &mut client,
        vec![WireReply::Done, WireReply::Response(IpcResponse::TelemetryId(4))],
    );
    assert_eq!(outcome, Ok(IpcResponse::TelemetryId(4)));
    assert_eq!(asked, vec!["Send(GetTemperatures)", "Receive"]);
}

#[test]
fn a_failed_client_connects_again() {
    let mut client = None;
    let (outcome, _) = ask(&mut client, vec![WireReply::Done, fault("refused")]);
    assert_eq!(
        outcome,
        Err(RequestError::Connect(WireError::Fault("refused".to_owned())))
    );
    assert!(client.is_none());
    let (_, asked) = ask(
        &mut client,
        vec![
            WireReply::Done,
            WireReply::Done,
            WireReply::Done,
            WireReply::Done,
            WireReply::Response(IpcResponse::Success),
        ],
    );
    assert_eq!(asked.len(), 5);
    let (outcome, _) = ask(&mut client, vec![WireReply::Done, fault("gone")]);
    assert_eq!(outcome, Err(RequestError::Exchange(WireError::Fault("gone".to_owned()))));
    assert!(client.is_none());
    let (outcome, asked) = ask(&mut client, vec![fault("no name")]);
    assert_eq!(
        outcome,
        Err(RequestError::Connect(WireError::Fault("no name".to_owned())))
    );
    assert_eq!(asked, vec!["SocketName"]);
}

#[test]
fn an_answer_that_does_not_fit_is_an_error() {
    let mut client = None;
    let (outcome, _) = ask(&mut client, vec![WireReply::Response(IpcResponse::Success)]);
    assert_eq!(outcome, Err(RequestError::Connect(WireError::UnexpectedReply)));
}

#[test]
fn clients_connect_to_other_sockets() {
    let mut io: WireIo = Session::new();
    for _ in 0..3 {
        assert_eq!(
            IpcClient::connect_to("test".to_owned(), &mut io).err(),
            Some(Stop::Suspended)
        );
        io.answer(WireReply::Done);
    }
    let mut client = IpcClient::connect_to("test".to_owned(), &mut io).unwrap();
    assert_eq!(
        io.asked(),
        &vec![
            WireRequest::Name("test".to_owned()),
            WireRequest::Connect,
            WireRequest::Handshake,
        ]
    );
    let mut io: WireIo = Session::new();
    assert_eq!(
        client.request(&IpcRequest::GetFansRPM, &mut io).err(),
        Some(Stop::Suspended)
    );
    io.answer(fault("pipe"));
    assert_eq!(
        client.request(&IpcRequest::GetFansRPM, &mut io).err(),
        Some(Stop::Failed(WireError::Fault("pipe".to_owned())))
    );
    let mut io: WireIo = Session::new();
    assert_eq!(IpcClient::connect(&mut io).err(), Some(Stop::Suspended));
    assert_eq!(io.pending(), Some(&WireRequest::SocketName));
}

#[test]
fn servers_let_every_local_user_in() {
    let mut io: WireIo = Session::new();
    assert_eq!(IpcServer::bind(false, &mut io).err(), Some(Stop::Suspended));
    io.answer(WireReply::Done);
    assert_eq!(IpcServer::bind(false, &mut io).err(), Some(Stop::Suspended));
    assert_eq!(io.pending(), Some(&WireRequest::Listen(Access::Mode(0o666))));
    io.answer(WireReply::Done);
    let mut server = IpcServer::bind(false, &mut io).unwrap();
    let mut io: WireIo = Session::new();
    assert_eq!(server.accept(&mut io), Err(Stop::Suspended));
    io.answer(WireReply::Done);
    assert_eq!(server.accept(&mut io), Ok(()));
    let mut io: WireIo = Session::new();
    assert_eq!(IpcServer::bind_to("t".to_owned(), true, &mut io).err(), Some(Stop::Suspended));
    assert_eq!(io.pending(), Some(&WireRequest::Name("t".to_owned())));
    io.answer(WireReply::Done);
    assert_eq!(IpcServer::bind_to("t".to_owned(), true, &mut io).err(), Some(Stop::Suspended));
    assert_eq!(
        io.pending(),
        Some(&WireRequest::Listen(Access::Descriptor(
            "D:(A;;GA;;;SY)(A;;GA;;;BA)(A;;GRGW;;;BU)".to_owned()
        )))
    );
}
