//! The conversation between the controller's operations and the machine they run on: bytes of the
//! controller, the lock around them, the restore file, and the clock.
use vstd::prelude::*;

use super::error::EcError;
use super::port::{
    done_run as port_done_run, lemma_script_done, open, probe_chip, probe_run, raw_read,
    raw_read_run, raw_write, raw_write_run, script_run, selection, PortIo, PortReply, PortRequest,
    PortTalk,
};
use crate::session::{asks, continues, Dialogue, Session, Stop};

verus! {

/// Which of the two charge modes of an N161A was asked for.
#[derive(Clone, Copy, PartialEq, Eq, Debug, Structural)]
pub enum SavedMode {
    Hold,
    Native,
}

/// What an operation asks of the machine.
#[derive(Clone, Copy, PartialEq, Eq, Debug, Structural)]
pub enum EcRequest {
    /// Get access to the ports.
    OpenPorts,
    /// Look for a chip, in insecure mode or not.
    ProbeChip(bool),
    /// Take the lock that keeps other users off the controller.
    Lock,
    /// Give the lock back.
    Unlock,
    /// Read a byte: the port of the chip, and the address.
    ReadByte(u16, u16),
    /// Write a byte: the port of the chip, the address, and the byte.
    WriteByte(u16, u16, u8),
    /// Read the restore file.
    LoadState,
    /// Write the restore file.
    SaveState { original: u8, mode: SavedMode },
    /// Tell whether there is a restore file.
    StateExists,
    /// Delete the restore file.
    RemoveState,
    /// Set a deadline this many milliseconds from now.
    StartTimer(u64),
    /// Tell whether the deadline has been reached.
    TimerExpired,
    /// Wait this many milliseconds.
    Sleep(u64),
}

/// What the machine answers.
#[derive(PartialEq, Eq, Debug)]
pub enum EcReply {
    Done,
    Byte(u8),
    Flag(bool),
    Text(String),
    Chip { port: u16, id1: u8, id2: u8, ver: u8 },
    Fault(u32),
}

pub type EcIo = Session<EcRequest, EcReply>;

pub type EcTalk = Dialogue<EcRequest, EcReply>;

/// The outcome of an operation on a conversation.
pub type EcRun<T> = (EcTalk, Result<T, Stop<EcError>>);

/// `later` continues `earlier` without a single write to the controller.
pub open spec fn quiet(earlier: EcTalk, later: EcTalk) -> bool {
    &&& continues(earlier, later)
    &&& forall|i: int|
        earlier.asked.len() <= i < later.asked.len() ==> !(#[trigger] later.asked[i] is WriteByte)
}

/// The cells of the controller after the writes among the requests from `from` on.
pub open spec fn written(cells: Map<u16, u8>, asked: Seq<EcRequest>, from: int) -> Map<u16, u8>
    decreases asked.len(),
{
    if asked.len() <= from || asked.len() == 0 {
        cells
    } else {
        let before = written(cells, asked.drop_last(), from);
        match asked.last() {
            EcRequest::WriteByte(_, addr, val) => before.insert(addr, val),
            _ => before,
        }
    }
}

/// A run that asks for something to be done.
pub open spec fn done_run(d: EcTalk, request: EcRequest) -> EcRun<()> {
    match asks::<EcRequest, EcReply, EcError>(d, request) {
        (d, Err(stop)) => (d, Err(stop)),
        (d, Ok(EcReply::Done)) => (d, Ok(())),
        (d, Ok(EcReply::Fault(n))) => (d, Err(Stop::Failed(EcError::Fault(n)))),
        (d, Ok(_)) => (d, Err(Stop::Failed(EcError::UnexpectedReply))),
    }
}

/// A run that reads a byte of the controller.
pub open spec fn byte_run(d: EcTalk, port: u16, addr: u16) -> EcRun<u8> {
    match asks::<EcRequest, EcReply, EcError>(d, EcRequest::ReadByte(port, addr)) {
        (d, Err(stop)) => (d, Err(stop)),
        (d, Ok(EcReply::Byte(b))) => (d, Ok(b)),
        (d, Ok(EcReply::Fault(n))) => (d, Err(Stop::Failed(EcError::Fault(n)))),
        (d, Ok(_)) => (d, Err(Stop::Failed(EcError::UnexpectedReply))),
    }
}

/// A run that asks a question answered with yes or no.
pub open spec fn flag_run(d: EcTalk, request: EcRequest) -> EcRun<bool> {
    match asks::<EcRequest, EcReply, EcError>(d, request) {
        (d, Err(stop)) => (d, Err(stop)),
        (d, Ok(EcReply::Flag(yes))) => (d, Ok(yes)),
        (d, Ok(EcReply::Fault(n))) => (d, Err(Stop::Failed(EcError::Fault(n)))),
        (d, Ok(_)) => (d, Err(Stop::Failed(EcError::UnexpectedReply))),
    }
}

/// A run that looks for the chip.
pub open spec fn chip_run(d: EcTalk, insecure: bool) -> EcRun<(u16, (u8, u8, u8))> {
    match asks::<EcRequest, EcReply, EcError>(d, EcRequest::ProbeChip(insecure)) {
        (d, Err(stop)) => (d, Err(stop)),
        (d, Ok(EcReply::Chip { port, id1, id2, ver })) => (d, Ok((port, (id1, id2, ver)))),
        (d, Ok(EcReply::Fault(n))) => (d, Err(Stop::Failed(EcError::ChipNotFound))),
        (d, Ok(_)) => (d, Err(Stop::Failed(EcError::UnexpectedReply))),
    }
}

/// Asks for something to be done.
pub fn done(io: &mut EcIo, request: EcRequest) -> (result: Result<(), Stop<EcError>>)
    ensures
        (final(io)@, result) == done_run(old(io)@, request),
{
    match io.ask(request)? {
        EcReply::Done => Ok(()),
        EcReply::Fault(n) => Err(Stop::Failed(EcError::Fault(*n))),
        _ => Err(Stop::Failed(EcError::UnexpectedReply)),
    }
}

/// Reads a byte of the controller.
pub fn byte(io: &mut EcIo, port: u16, addr: u16) -> (result: Result<u8, Stop<EcError>>)
    ensures
        (final(io)@, result) == byte_run(old(io)@, port, addr),
{
    match io.ask(EcRequest::ReadByte(port, addr))? {
        EcReply::Byte(b) => Ok(*b),
        EcReply::Fault(n) => Err(Stop::Failed(EcError::Fault(*n))),
        _ => Err(Stop::Failed(EcError::UnexpectedReply)),
    }
}

/// Asks a question answered with yes or no.
pub fn flag(io: &mut EcIo, request: EcRequest) -> (result: Result<bool, Stop<EcError>>)
    ensures
        (final(io)@, result) == flag_run(old(io)@, request),
{
    match io.ask(request)? {
        EcReply::Flag(yes) => Ok(*yes),
        EcReply::Fault(n) => Err(Stop::Failed(EcError::Fault(*n))),
        _ => Err(Stop::Failed(EcError::UnexpectedReply)),
    }
}

/// Looks for the chip.
pub fn chip(io: &mut EcIo, insecure: bool) -> (result: Result<
    (u16, (u8, u8, u8)),
    Stop<EcError>,
>)
    ensures
        (final(io)@, result) == chip_run(old(io)@, insecure),
{
    match io.ask(EcRequest::ProbeChip(insecure))? {
        EcReply::Chip { port, id1, id2, ver } => Ok((*port, (*id1, *id2, *ver))),
        EcReply::Fault(_) => Err(Stop::Failed(EcError::ChipNotFound)),
        _ => Err(Stop::Failed(EcError::UnexpectedReply)),
    }
}

impl EcRequest {
    /// Whether the port that a byte access names has one above it, for the data.
    pub open spec fn port_fits(self) -> bool {
        match self {
            EcRequest::ReadByte(port, _) => port < 0xFFFF,
            EcRequest::WriteByte(port, _, _) => port < 0xFFFF,
            _ => true,
        }
    }

    /// Checks that the port that a byte access names has one above it.
    pub fn has_fitting_port(&self) -> (fit: bool)
        ensures
            fit == self.port_fits(),
    {
        match self {
            EcRequest::ReadByte(port, _) => *port < 0xFFFF,
            EcRequest::WriteByte(port, _, _) => *port < 0xFFFF,
            _ => true,
        }
    }
}

/// What a request to the controller does on the ports. A byte access goes out on the port that it
/// names.
pub open spec fn perform_run(d: PortTalk, request: EcRequest) -> (
    PortTalk,
    Result<EcReply, Stop<EcError>>,
) {
    match request {
        EcRequest::OpenPorts => match port_done_run(d, PortRequest::Open) {
            (d, Ok(())) => (d, Ok(EcReply::Done)),
            (d, Err(stop)) => (d, Err(stop)),
        },
        EcRequest::ProbeChip(insecure) => match probe_run(d, 0, insecure) {
            (d, Ok((port, (id1, id2, ver)))) => (d, Ok(EcReply::Chip { port, id1, id2, ver })),
            (d, Err(stop)) => (d, Err(stop)),
        },
        EcRequest::ReadByte(port, addr) => match raw_read_run(d, port, addr) {
            (d, Ok(b)) => (d, Ok(EcReply::Byte(b))),
            (d, Err(stop)) => (d, Err(stop)),
        },
        EcRequest::WriteByte(port, addr, val) => match raw_write_run(d, port, addr, val) {
            (d, Ok(())) => (d, Ok(EcReply::Done)),
            (d, Err(stop)) => (d, Err(stop)),
        },
        _ => (d, Err(Stop::Failed(EcError::UnexpectedReply))),
    }
}

/// Carries a request out on the ports.
pub fn perform(io: &mut PortIo, request: &EcRequest) -> (result: Result<EcReply, Stop<EcError>>)
    requires
        request.port_fits(),
    ensures
        (final(io)@, result) == perform_run(old(io)@, *request),
{
    match *request {
        EcRequest::OpenPorts => {
            open(io)?;
            Ok(EcReply::Done)
        },
        EcRequest::ProbeChip(insecure) => {
            let (port, (id1, id2, ver)) = probe_chip(io, insecure)?;
            Ok(EcReply::Chip { port, id1, id2, ver })
        },
        EcRequest::ReadByte(port, addr) => {
            let b = raw_read(io, port, addr)?;
            Ok(EcReply::Byte(b))
        },
        EcRequest::WriteByte(port, addr, val) => {
            raw_write(io, port, addr, val)?;
            Ok(EcReply::Done)
        },
        _ => Err(Stop::Failed(EcError::UnexpectedReply)),
    }
}

// ---- Where the accesses go ----

/// Port writes, as they are asked for.
pub open spec fn outs(script: Seq<(u16, u8)>) -> Seq<PortRequest> {
    script.map_values(|write: (u16, u8)| PortRequest::Out(write.0, write.1))
}

/// A port request that goes to the index port `port` or to the data port above it.
pub open spec fn stays_on(request: PortRequest, port: u16) -> bool {
    match request {
        PortRequest::Open => false,
        PortRequest::Out(p, _) => p == port || p == port + 1,
        PortRequest::In(p) => p == port + 1,
    }
}

proof fn lemma_script_is_asked(d: PortTalk, script: Seq<(u16, u8)>, i: int)
    requires
        0 <= i <= script.len(),
    ensures
        ({
            let (end, result) = script_run(d, script, i);
            &&& d.asked.len() <= end.asked.len() <= d.asked.len() + script.len() - i
            &&& end.asked == d.asked + outs(script).subrange(
                i,
                i + end.asked.len() - d.asked.len(),
            )
            &&& result is Ok ==> end.asked == d.asked + outs(script).skip(i)
        }),
    decreases script.len() - i,
{
    if i < script.len() {
        let (next, result) = port_done_run(d, PortRequest::Out(script[i].0, script[i].1));
        assert(next.asked =~= d.asked + outs(script).subrange(i, i + 1));
        if result is Ok {
            lemma_script_is_asked(next, script, i + 1);
            let end = script_run(next, script, i + 1).0;
            let all = outs(script);
            let upto = i + end.asked.len() - d.asked.len();
            assert(all.subrange(i, i + 1) + all.subrange(i + 1, upto) =~= all.subrange(i, upto));
            assert(all.subrange(i, i + 1) + all.skip(i + 1) =~= all.skip(i));
        }
    }
}

/// A byte access goes to the port that it names and to the one above it, and nowhere else, however
/// it ends.
pub proof fn law_accesses_stay_on_their_port(d: PortTalk, request: EcRequest)
    requires
        request.port_fits(),
        request is ReadByte || request is WriteByte,
    ensures
        ({
            let asked = perform_run(d, request).0.asked;
            let port = match request {
                EcRequest::ReadByte(port, _) => port,
                EcRequest::WriteByte(port, _, _) => port,
                _ => 0,
            };
            &&& d.asked.len() < asked.len()
            &&& forall|i: int| 0 <= i < d.asked.len() ==> #[trigger] asked[i] == d.asked[i]
            &&& forall|i: int|
                d.asked.len() <= i < asked.len() ==> stays_on(#[trigger] asked[i], port)
        }),
{
    let (port, script) = match request {
        EcRequest::ReadByte(port, addr) => (port, selection(port, addr)),
        EcRequest::WriteByte(port, addr, val) => (
            port,
            selection(port, addr).push(((port + 1) as u16, val)),
        ),
        _ => (0, Seq::empty()),
    };
    lemma_script_is_asked(d, script, 0);
    let end = script_run(d, script, 0).0;
    assert forall|k: int| 0 <= k < script.len() implies stays_on(
        #[trigger] outs(script)[k],
        port,
    ) by {
        assert(script[k].0 == port || script[k].0 == port + 1);
    }
    let count = end.asked.len() - d.asked.len();
    assert forall|i: int| d.asked.len() <= i < end.asked.len() implies stays_on(
        #[trigger] end.asked[i],
        port,
    ) by {
        assert(end.asked[i] == outs(script).subrange(0, count)[i - d.asked.len()]);
        assert(end.asked[i] == outs(script)[i - d.asked.len()]);
    }
    assert(end.asked.len() > d.asked.len()) by {
        reveal_with_fuel(script_run, 2);
        let first = port_done_run(d, PortRequest::Out(script[0].0, script[0].1));
        if first.1 is Ok {
            lemma_script_is_asked(first.0, script, 1);
        }
    }
}

/// Writing a byte is twelve port writes: the high and the low half of the address are put into the
/// cursor, then the byte is written.
pub proof fn law_a_write_is_twelve_port_writes(d: PortTalk, port: u16, addr: u16, val: u8)
    requires
        port < 0xFFFF,
        0 <= d.used,
        d.used + 12 <= d.replies.len(),
        forall|k: int| d.used <= k < d.used + 12 ==> d.replies[k] == PortReply::Done,
    ensures
        ({
            let (end, result) = perform_run(d, EcRequest::WriteByte(port, addr, val));
            let data = (port + 1) as u16;
            &&& result == Ok::<EcReply, Stop<EcError>>(EcReply::Done)
            &&& end.asked == d.asked + seq![
                PortRequest::Out(port, 0x2E),
                PortRequest::Out(data, 0x11),
                PortRequest::Out(port, 0x2F),
                PortRequest::Out(data, (addr / 256) as u8),
                PortRequest::Out(port, 0x2E),
                PortRequest::Out(data, 0x10),
                PortRequest::Out(port, 0x2F),
                PortRequest::Out(data, (addr % 256) as u8),
                PortRequest::Out(port, 0x2E),
                PortRequest::Out(data, 0x12),
                PortRequest::Out(port, 0x2F),
                PortRequest::Out(data, val),
            ]
        }),
{
    let script = selection(port, addr).push(((port + 1) as u16, val));
    lemma_script_done(d, script, 0);
    lemma_script_is_asked(d, script, 0);
    assert(outs(script).skip(0) =~= outs(script));
}

/// Reading a byte is eleven port writes and one port read, and the byte is what the port showed.
pub proof fn law_a_read_selects_the_cell(d: PortTalk, port: u16, addr: u16, byte: u8)
    requires
        port < 0xFFFF,
        0 <= d.used,
        d.used + 12 <= d.replies.len(),
        forall|k: int| d.used <= k < d.used + 11 ==> d.replies[k] == PortReply::Done,
        d.replies[d.used + 11] == PortReply::Byte(byte),
    ensures
        ({
            let (end, result) = perform_run(d, EcRequest::ReadByte(port, addr));
            &&& result == Ok::<EcReply, Stop<EcError>>(EcReply::Byte(byte))
            &&& end.asked == (d.asked + outs(selection(port, addr))).push(
                PortRequest::In((port + 1) as u16),
            )
        }),
{
    let script = selection(port, addr);
    lemma_script_done(d, script, 0);
    lemma_script_is_asked(d, script, 0);
    assert(outs(script).skip(0) =~= outs(script));
}

// ---- The cells after a conversation ----

/// Requests that write nothing leave the cells as they are, and a write is the last word on its cell.
pub proof fn law_a_write_is_the_last_word(
    cells: Map<u16, u8>,
    asked: Seq<EcRequest>,
    from: int,
    request: EcRequest,
)
    requires
        0 <= from <= asked.len(),
    ensures
        written(cells, asked, asked.len() as int) == cells,
        !(request is WriteByte) ==> written(cells, asked.push(request), from) == written(
            cells,
            asked,
            from,
        ),
        request matches EcRequest::WriteByte(_, addr, val) ==> written(
            cells,
            asked.push(request),
            from,
        ) == written(cells, asked, from).insert(addr, val),
{
    assert(asked.push(request).drop_last() =~= asked);
}

/// Something that is asked to be done is done exactly if the answer says so; a failure is passed on
/// with its number.
pub proof fn law_done_means_done(d: EcTalk, request: EcRequest)
    ensures
        done_run(d, request).0.asked == d.asked.push(request),
        d.used < d.replies.len() ==> done_run(d, request).0.used == d.used + 1,
        d.used >= d.replies.len() <==> done_run(d, request).1 == Err::<(), Stop<EcError>>(
            Stop::Suspended,
        ),
        d.used < d.replies.len() ==> (done_run(d, request).1 is Ok <==> d.replies[d.used]
            == EcReply::Done),
        d.used < d.replies.len() ==> (d.replies[d.used] matches EcReply::Fault(n) ==> done_run(
            d,
            request,
        ).1 == Err::<(), Stop<EcError>>(Stop::Failed(EcError::Fault(n)))),
        flag_run(d, request).0 == done_run(d, request).0,
        d.used < d.replies.len() ==> (forall|yes: bool|
            flag_run(d, request).1 == Ok::<bool, Stop<EcError>>(yes) <==> #[trigger] d.replies[d.used]
                == EcReply::Flag(yes)),
        d.used < d.replies.len() ==> (d.replies[d.used] matches EcReply::Fault(n) ==> flag_run(
            d,
            request,
        ).1 == Err::<bool, Stop<EcError>>(Stop::Failed(EcError::Fault(n)))),
{
}

/// A byte that is read is the byte that was answered, and the chip that is found the one that was.
pub proof fn law_readings_are_the_answers(d: EcTalk, port: u16, addr: u16, insecure: bool)
    requires
        0 <= d.used < d.replies.len(),
    ensures
        byte_run(d, port, addr).0.asked == d.asked.push(EcRequest::ReadByte(port, addr)),
        chip_run(d, insecure).0.asked == d.asked.push(EcRequest::ProbeChip(insecure)),
        d.replies[d.used] matches EcReply::Byte(b) ==> byte_run(d, port, addr).1 == Ok::<
            u8,
            Stop<EcError>,
        >(b),
        d.replies[d.used] matches EcReply::Fault(n) ==> byte_run(d, port, addr).1 == Err::<
            u8,
            Stop<EcError>,
        >(Stop::Failed(EcError::Fault(n))),
        byte_run(d, port, addr).1 is Ok ==> d.replies[d.used] is Byte,
        d.replies[d.used] matches EcReply::Chip { port: at, id1, id2, ver } ==> chip_run(
            d,
            insecure,
        ).1 == Ok::<(u16, (u8, u8, u8)), Stop<EcError>>((at, (id1, id2, ver))),
        d.replies[d.used] is Fault ==> chip_run(d, insecure).1 == Err::<
            (u16, (u8, u8, u8)),
            Stop<EcError>,
        >(Stop::Failed(EcError::ChipNotFound)),
        chip_run(d, insecure).1 is Ok ==> d.replies[d.used] is Chip,
{
}

/// Getting access to the ports is one port request, and looking for the chip is the search on the
/// ports, with the same leave to take a port blindly; what is found is passed on as it is.
pub proof fn law_other_requests_on_the_ports(d: PortTalk, insecure: bool)
    ensures
        perform_run(d, EcRequest::OpenPorts).0.asked == d.asked.push(PortRequest::Open),
        d.used < d.replies.len() ==> (perform_run(d, EcRequest::OpenPorts).1 is Ok
            <==> d.replies[d.used] == PortReply::Done),
        perform_run(d, EcRequest::OpenPorts).1 matches Ok(reply) ==> reply == EcReply::Done,
        perform_run(d, EcRequest::ProbeChip(insecure)).0 == probe_run(d, 0, insecure).0,
        match probe_run(d, 0, insecure).1 {
            Ok((port, (id1, id2, ver))) => perform_run(d, EcRequest::ProbeChip(insecure)).1 == Ok::<
                EcReply,
                Stop<EcError>,
            >(EcReply::Chip { port, id1, id2, ver }),
            Err(stop) => perform_run(d, EcRequest::ProbeChip(insecure)).1 == Err::<
                EcReply,
                Stop<EcError>,
            >(stop),
        },
{
}

/// A byte access can be carried out unless its port is the last of all, which has none above it for
/// the data.
pub proof fn law_which_ports_fit(port: u16, addr: u16, val: u8)
    ensures
        EcRequest::ReadByte(port, addr).port_fits() <==> port != 0xFFFF,
        EcRequest::WriteByte(port, addr, val).port_fits() <==> port != 0xFFFF,
{
}

/// An answer of another kind than was asked for is reported as one that does not answer.
pub proof fn law_other_answers_are_errors(
    d: EcTalk,
    request: EcRequest,
    port: u16,
    addr: u16,
    insecure: bool,
)
    requires
        0 <= d.used < d.replies.len(),
        !(d.replies[d.used] is Fault),
    ensures
        !(d.replies[d.used] is Done) ==> done_run(d, request).1 == Err::<(), Stop<EcError>>(
            Stop::Failed(EcError::UnexpectedReply),
        ),
        !(d.replies[d.used] is Flag) ==> flag_run(d, request).1 == Err::<bool, Stop<EcError>>(
            Stop::Failed(EcError::UnexpectedReply),
        ),
        !(d.replies[d.used] is Byte) ==> byte_run(d, port, addr).1 == Err::<u8, Stop<EcError>>(
            Stop::Failed(EcError::UnexpectedReply),
        ),
        !(d.replies[d.used] is Chip) ==> chip_run(d, insecure).1 == Err::<
            (u16, (u8, u8, u8)),
            Stop<EcError>,
        >(Stop::Failed(EcError::UnexpectedReply)),
{
}

/// A byte access on the ports is the access of its own cell, and what came of it is passed on. Requests
/// that are none of the ports' are refused without touching one.
pub proof fn law_cells_are_accessed_on_the_ports(d: PortTalk, port: u16, addr: u16, val: u8)
    ensures
        perform_run(d, EcRequest::ReadByte(port, addr)).0 == raw_read_run(d, port, addr).0,
        raw_read_run(d, port, addr).1 matches Ok(byte) ==> perform_run(
            d,
            EcRequest::ReadByte(port, addr),
        ).1 == Ok::<EcReply, Stop<EcError>>(EcReply::Byte(byte)),
        raw_read_run(d, port, addr).1 matches Err(stop) ==> perform_run(
            d,
            EcRequest::ReadByte(port, addr),
        ).1 == Err::<EcReply, Stop<EcError>>(stop),
        perform_run(d, EcRequest::WriteByte(port, addr, val)).0 == raw_write_run(
            d,
            port,
            addr,
            val,
        ).0,
        raw_write_run(d, port, addr, val).1 is Ok ==> perform_run(
            d,
            EcRequest::WriteByte(port, addr, val),
        ).1 == Ok::<EcReply, Stop<EcError>>(EcReply::Done),
        raw_write_run(d, port, addr, val).1 matches Err(stop) ==> perform_run(
            d,
            EcRequest::WriteByte(port, addr, val),
        ).1 == Err::<EcReply, Stop<EcError>>(stop),
        perform_run(d, EcRequest::Lock) == (
            d,
            Err::<EcReply, Stop<EcError>>(Stop::Failed(EcError::UnexpectedReply)),
        ),
        perform_run(d, EcRequest::Unlock) == (
            d,
            Err::<EcReply, Stop<EcError>>(Stop::Failed(EcError::UnexpectedReply)),
        ),
        perform_run(d, EcRequest::LoadState) == (
            d,
            Err::<EcReply, Stop<EcError>>(Stop::Failed(EcError::UnexpectedReply)),
        ),
{
}

} // verus!
