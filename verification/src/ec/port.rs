//! Access to the controller through its index and data ports.
//!
//! A byte of the controller's address space is reached in steps: the two halves of the address
//! are put into the chip's cursor registers, then the cell is read or written. Each step is a
//! write of one byte to a port.
use vstd::prelude::*;

use super::error::EcError;
use crate::session::{asks, Dialogue, Session, Stop};

verus! {

/// What is asked of the port driver.
#[derive(Clone, Copy, PartialEq, Eq, Debug, Structural)]
pub enum PortRequest {
    /// Get access to the ports.
    Open,
    /// Write a byte to a port.
    Out(u16, u8),
    /// Read a byte from a port.
    In(u16),
}

/// What the port driver answers.
#[derive(Clone, Copy, PartialEq, Eq, Debug, Structural)]
pub enum PortReply {
    Done,
    Byte(u8),
    Fault(u32),
}

pub type PortIo = Session<PortRequest, PortReply>;

pub type PortTalk = Dialogue<PortRequest, PortReply>;

/// A run that asks for something to be done.
pub open spec fn done_run(d: PortTalk, request: PortRequest) -> (
    PortTalk,
    Result<(), Stop<EcError>>,
) {
    match asks::<PortRequest, PortReply, EcError>(d, request) {
        (d, Err(stop)) => (d, Err(stop)),
        (d, Ok(PortReply::Done)) => (d, Ok(())),
        (d, Ok(PortReply::Fault(n))) => (d, Err(Stop::Failed(EcError::Fault(n)))),
        (d, Ok(_)) => (d, Err(Stop::Failed(EcError::UnexpectedReply))),
    }
}

/// A run that reads one port.
pub open spec fn in_run(d: PortTalk, port: u16) -> (PortTalk, Result<u8, Stop<EcError>>) {
    match asks::<PortRequest, PortReply, EcError>(d, PortRequest::In(port)) {
        (d, Err(stop)) => (d, Err(stop)),
        (d, Ok(PortReply::Byte(b))) => (d, Ok(b)),
        (d, Ok(PortReply::Fault(n))) => (d, Err(Stop::Failed(EcError::Fault(n)))),
        (d, Ok(_)) => (d, Err(Stop::Failed(EcError::UnexpectedReply))),
    }
}

/// Writes the bytes of `script` from position `i` on, in order, up to the first failure.
pub open spec fn script_run(d: PortTalk, script: Seq<(u16, u8)>, i: int) -> (
    PortTalk,
    Result<(), Stop<EcError>>,
)
    decreases script.len() - i,
{
    if i < 0 || i >= script.len() {
        (d, Ok(()))
    } else {
        match done_run(d, PortRequest::Out(script[i].0, script[i].1)) {
            (d, Ok(())) => script_run(d, script, i + 1),
            (d, Err(stop)) => (d, Err(stop)),
        }
    }
}

/// The port writes that select the cell `addr` of the chip at `port`.
pub open spec fn selection(port: u16, addr: u16) -> Seq<(u16, u8)> {
    let data = (port + 1) as u16;
    seq![
        (port, 0x2E), (data, 0x11), (port, 0x2F), (data, (addr / 256) as u8),
        (port, 0x2E), (data, 0x10), (port, 0x2F), (data, (addr % 256) as u8),
        (port, 0x2E), (data, 0x12), (port, 0x2F),
    ]
}

/// Reading a cell: it is selected, then the data port is read.
pub open spec fn raw_read_run(d: PortTalk, port: u16, addr: u16) -> (
    PortTalk,
    Result<u8, Stop<EcError>>,
) {
    match script_run(d, selection(port, addr), 0) {
        (d, Ok(())) => in_run(d, (port + 1) as u16),
        (d, Err(stop)) => (d, Err(stop)),
    }
}

/// Writing a cell: it is selected, then the byte is written to the data port.
pub open spec fn raw_write_run(d: PortTalk, port: u16, addr: u16, val: u8) -> (
    PortTalk,
    Result<(), Stop<EcError>>,
) {
    script_run(d, selection(port, addr).push(((port + 1) as u16, val)), 0)
}

fn done(io: &mut PortIo, request: PortRequest) -> (result: Result<(), Stop<EcError>>)
    ensures
        (final(io)@, result) == done_run(old(io)@, request),
{
    match io.ask(request)? {
        PortReply::Done => Ok(()),
        PortReply::Fault(n) => Err(Stop::Failed(EcError::Fault(*n))),
        _ => Err(Stop::Failed(EcError::UnexpectedReply)),
    }
}

/// Gets access to the ports.
pub fn open(io: &mut PortIo) -> (result: Result<(), Stop<EcError>>)
    ensures
        (final(io)@, result) == done_run(old(io)@, PortRequest::Open),
{
    done(io, PortRequest::Open)
}

/// Writes a byte to a port.
pub fn outb(io: &mut PortIo, port: u16, val: u8) -> (result: Result<(), Stop<EcError>>)
    ensures
        (final(io)@, result) == done_run(old(io)@, PortRequest::Out(port, val)),
{
    done(io, PortRequest::Out(port, val))
}

/// Reads a byte from a port.
pub fn inb(io: &mut PortIo, port: u16) -> (result: Result<u8, Stop<EcError>>)
    ensures
        (final(io)@, result) == in_run(old(io)@, port),
{
    match io.ask(PortRequest::In(port))? {
        PortReply::Byte(b) => Ok(*b),
        PortReply::Fault(n) => Err(Stop::Failed(EcError::Fault(*n))),
        _ => Err(Stop::Failed(EcError::UnexpectedReply)),
    }
}

fn play(io: &mut PortIo, script: &Vec<(u16, u8)>) -> (result: Result<(), Stop<EcError>>)
    ensures
        (final(io)@, result) == script_run(old(io)@, script@, 0),
{
    let mut i: usize = 0;
    while i < script.len()
        invariant
            i <= script.len(),
            script_run(io@, script@, i as int) == script_run(old(io)@, script@, 0),
        decreases script.len() - i,
    {
        outb(io, script[i].0, script[i].1)?;
        i = i + 1;
    }
    Ok(())
}

fn select(port: u16, addr: u16) -> (script: Vec<(u16, u8)>)
    requires
        port < 0xFFFF,
    ensures
        script@ == selection(port, addr),
{
    proof {
        assert((addr >> 8) as u8 == (addr / 256) as u8) by (bit_vector);
        assert((addr & 0xFF) as u8 == (addr % 256) as u8) by (bit_vector);
    }
    let data: u16 = port + 1;
    let high: u8 = (addr >> 8) as u8;
    let low: u8 = (addr & 0xFF) as u8;
    let script: Vec<(u16, u8)> = vec![
        (port, 0x2E), (data, 0x11), (port, 0x2F), (data, high),
        (port, 0x2E), (data, 0x10), (port, 0x2F), (data, low),
        (port, 0x2E), (data, 0x12), (port, 0x2F),
    ];
    proof {
        assert(script@ =~= selection(port, addr));
    }
    script
}

/// Reads one byte of the controller's address space.
pub fn raw_read(io: &mut PortIo, port: u16, addr: u16) -> (result: Result<u8, Stop<EcError>>)
    requires
        port < 0xFFFF,
    ensures
        (final(io)@, result) == raw_read_run(old(io)@, port, addr),
{
    let script = select(port, addr);
    play(io, &script)?;
    inb(io, port + 1)
}

/// Writes one byte of the controller's address space.
pub fn raw_write(io: &mut PortIo, port: u16, addr: u16, val: u8) -> (result: Result<
    (),
    Stop<EcError>,
>)
    requires
        port < 0xFFFF,
    ensures
        (final(io)@, result) == raw_write_run(old(io)@, port, addr, val),
{
    let mut script = select(port, addr);
    script.push((port + 1, val));
    play(io, &script)
}

// ---- Finding the chip ----

pub const REG_CHIP_ID1: u16 = 0x2000;

pub const REG_CHIP_ID2: u16 = 0x2001;

pub const REG_CHIP_VER: u16 = 0x2002;

/// A chip: its two identification bytes and its version.
pub type ChipId = (u8, u8, u8);

/// The ports at which a chip may answer, in the order in which they are tried.
pub open spec fn probe_ports() -> Seq<u16> {
    seq![0x2E, 0x4E, 0x6E]
}

/// The first identification bytes of the chips that are driven.
pub open spec fn known_chip(id1: u8) -> bool {
    id1 == 0x55 || id1 == 0x81 || id1 == 0x85 || id1 == 0x89 || id1 == 0x90
}

/// A read whose failure counts as zero.
pub open spec fn or_zero(run: (PortTalk, Result<u8, Stop<EcError>>)) -> (
    PortTalk,
    Result<u8, Stop<EcError>>,
) {
    match run.1 {
        Err(Stop::Failed(_)) => (run.0, Ok(0)),
        _ => run,
    }
}

/// The rest of the identification of the chip at `port`.
pub open spec fn identify_run(d: PortTalk, port: u16, id1: u8) -> (
    PortTalk,
    Result<(u16, ChipId), Stop<EcError>>,
) {
    match or_zero(raw_read_run(d, port, REG_CHIP_ID2)) {
        (d, Err(stop)) => (d, Err(stop)),
        (d, Ok(id2)) => match or_zero(raw_read_run(d, port, REG_CHIP_VER)) {
            (d, Err(stop)) => (d, Err(stop)),
            (d, Ok(ver)) => (d, Ok((port, (id1, id2, ver)))),
        },
    }
}

/// Tries the ports from the `i`-th on. The first with a known chip is taken; without any the
/// last port is taken blindly in insecure mode, and the search fails otherwise.
pub open spec fn probe_run(d: PortTalk, i: int, insecure: bool) -> (
    PortTalk,
    Result<(u16, ChipId), Stop<EcError>>,
)
    decreases probe_ports().len() - i,
{
    if i < 0 || i >= probe_ports().len() {
        if insecure {
            (d, Ok((probe_ports().last(), (0, 0, 0))))
        } else {
            (d, Err(Stop::Failed(EcError::ChipNotFound)))
        }
    } else {
        match raw_read_run(d, probe_ports()[i], REG_CHIP_ID1) {
            (d, Err(Stop::Suspended)) => (d, Err(Stop::Suspended)),
            (d, Err(Stop::Failed(_))) => probe_run(d, i + 1, insecure),
            (d, Ok(id1)) => if known_chip(id1) {
                identify_run(d, probe_ports()[i], id1)
            } else {
                probe_run(d, i + 1, insecure)
            },
        }
    }
}

fn read_or_zero(io: &mut PortIo, port: u16, addr: u16) -> (result: Result<u8, Stop<EcError>>)
    requires
        port < 0xFFFF,
    ensures
        (final(io)@, result) == or_zero(raw_read_run(old(io)@, port, addr)),
{
    match raw_read(io, port, addr) {
        Err(Stop::Failed(_)) => Ok(0),
        other => other,
    }
}

/// Looks for a known chip on the known ports.
pub fn probe_chip(io: &mut PortIo, insecure_mode: bool) -> (result: Result<
    (u16, ChipId),
    Stop<EcError>,
>)
    ensures
        (final(io)@, result) == probe_run(old(io)@, 0, insecure_mode),
        result matches Ok((port, _)) ==> probe_ports().contains(port),
{
    let ports: [u16; 3] = [0x2E, 0x4E, 0x6E];
    proof {
        assert(ports@ =~= probe_ports());
    }
    let mut last: u16 = ports[0];
    let mut i: usize = 0;
    while i < 3
        invariant
            i <= 3,
            ports@ == probe_ports(),
            i > 0 ==> last == ports@[i - 1],
            probe_run(io@, i as int, insecure_mode) == probe_run(old(io)@, 0, insecure_mode),
        decreases 3 - i,
    {
        let port: u16 = ports[i];
        last = port;
        match raw_read(io, port, REG_CHIP_ID1) {
            Err(Stop::Suspended) => {
                return Err(Stop::Suspended);
            },
            Err(Stop::Failed(_)) => {},
            Ok(id1) => {
                if id1 == 0x55 || id1 == 0x81 || id1 == 0x85 || id1 == 0x89 || id1 == 0x90 {
                    let id2 = read_or_zero(io, port, REG_CHIP_ID2)?;
                    let ver = read_or_zero(io, port, REG_CHIP_VER)?;
                    return Ok((port, (id1, id2, ver)));
                }
            },
        }
        i = i + 1;
    }
    if insecure_mode {
        Ok((last, (0, 0, 0)))
    } else {
        Err(Stop::Failed(EcError::ChipNotFound))
    }
}

/// Opening the ports and looking for a chip, with every failure taken as "none".
pub open spec fn probe_only_run(d: PortTalk) -> (PortTalk, Result<Option<ChipId>, Stop<EcError>>) {
    match done_run(d, PortRequest::Open) {
        (d, Err(Stop::Suspended)) => (d, Err(Stop::Suspended)),
        (d, Err(Stop::Failed(_))) => (d, Ok(None)),
        (d, Ok(())) => match probe_run(d, 0, false) {
            (d, Err(Stop::Suspended)) => (d, Err(Stop::Suspended)),
            (d, Err(Stop::Failed(_))) => (d, Ok(None)),
            (d, Ok((_, chip))) => (d, Ok(Some(chip))),
        },
    }
}

/// Diagnostic probe that never initializes the controller.
pub fn probe_chip_only(io: &mut PortIo) -> (result: Result<Option<ChipId>, Stop<EcError>>)
    ensures
        (final(io)@, result) == probe_only_run(old(io)@),
{
    match open(io) {
        Err(Stop::Suspended) => Err(Stop::Suspended),
        Err(Stop::Failed(_)) => Ok(None),
        Ok(()) => match probe_chip(io, false) {
            Err(Stop::Suspended) => Err(Stop::Suspended),
            Err(Stop::Failed(_)) => Ok(None),
            Ok((_, chip)) => Ok(Some(chip)),
        },
    }
}

// ---- The chip as a machine ----

/// The part of the chip that port accesses reach: the index register behind the index port, the
/// number of the cursor register that is open, the two halves of the cursor, and the cells.
pub struct Chip {
    pub port: u16,
    pub index: u8,
    pub register: u8,
    pub high: u8,
    pub low: u8,
    pub cells: Map<u16, u8>,
}

impl Chip {
    /// The cell that the cursor points at.
    pub open spec fn cursor(self) -> u16 {
        (self.high * 256 + self.low) as u16
    }
}

/// What a port write does to the chip: index 0x2E opens a register, index 0x2F writes the open
/// one, which is a half of the cursor (0x11, 0x10) or the cell under it (0x12).
pub open spec fn chip_out(chip: Chip, port: u16, val: u8) -> Chip {
    if port == chip.port {
        Chip { index: val, ..chip }
    } else if port == chip.port + 1 && chip.index == 0x2E {
        Chip { register: val, ..chip }
    } else if port == chip.port + 1 && chip.index == 0x2F && chip.register == 0x11 {
        Chip { high: val, ..chip }
    } else if port == chip.port + 1 && chip.index == 0x2F && chip.register == 0x10 {
        Chip { low: val, ..chip }
    } else if port == chip.port + 1 && chip.index == 0x2F && chip.register == 0x12 {
        Chip { cells: chip.cells.insert(chip.cursor(), val), ..chip }
    } else {
        chip
    }
}

/// What the data port shows while the cell register is open.
pub open spec fn chip_in(chip: Chip, port: u16) -> Option<u8> {
    if port == chip.port + 1 && chip.index == 0x2F && chip.register == 0x12 {
        Some(chip.cells[chip.cursor()])
    } else {
        None
    }
}

/// The chip after the first `n` port writes of `script`.
pub open spec fn chip_after(chip: Chip, script: Seq<(u16, u8)>, n: int) -> Chip
    decreases n,
{
    if n <= 0 {
        chip
    } else {
        let before = chip_after(chip, script, n - 1);
        chip_out(before, script[n - 1].0, script[n - 1].1)
    }
}

proof fn lemma_selected(chip: Chip, script: Seq<(u16, u8)>, addr: u16)
    requires
        chip.port < 0xFFFF,
        script.len() >= 11,
        script.take(11) == selection(chip.port, addr),
    ensures
        chip_after(chip, script, 11) == (Chip {
            index: 0x2F,
            register: 0x12,
            high: (addr / 256) as u8,
            low: (addr % 256) as u8,
            ..chip
        }),
        chip_after(chip, script, 11).cursor() == addr,
{
    let list = selection(chip.port, addr);
    assert forall|i: int| 0 <= i < 11 implies script[i] == list[i] by {
        assert(script.take(11)[i] == script[i]);
    }
    reveal_with_fuel(chip_after, 12);
}

/// Selecting a cell and reading the data port shows that cell and leaves every cell as it was.
pub proof fn law_read_shows_the_cell(chip: Chip, addr: u16)
    requires
        chip.port < 0xFFFF,
    ensures
        chip_in(
            chip_after(chip, selection(chip.port, addr), 11),
            (chip.port + 1) as u16,
        ) == Some(chip.cells[addr]),
        chip_after(chip, selection(chip.port, addr), 11).cells == chip.cells,
{
    let script = selection(chip.port, addr);
    assert(script.take(11) =~= script);
    lemma_selected(chip, script, addr);
}

/// The port writes of a cell write put the byte into that cell and touch no other.
pub proof fn law_write_reaches_the_cell(chip: Chip, addr: u16, val: u8)
    requires
        chip.port < 0xFFFF,
    ensures
        chip_after(
            chip,
            selection(chip.port, addr).push(((chip.port + 1) as u16, val)),
            12,
        ).cells == chip.cells.insert(addr, val),
{
    let script = selection(chip.port, addr).push(((chip.port + 1) as u16, val));
    assert(script.take(11) =~= selection(chip.port, addr));
    lemma_selected(chip, script, addr);
    assert(script[11] == ((chip.port + 1) as u16, val));
    reveal_with_fuel(chip_after, 2);
}

/// A cell that was written is read back with what was written.
pub proof fn law_write_then_read(chip: Chip, addr: u16, val: u8)
    requires
        chip.port < 0xFFFF,
    ensures
        ({
            let written = chip_after(
                chip,
                selection(chip.port, addr).push(((chip.port + 1) as u16, val)),
                12,
            );
            chip_in(
                chip_after(written, selection(chip.port, addr), 11),
                (chip.port + 1) as u16,
            ) == Some(val)
        }),
{
    let script = selection(chip.port, addr).push(((chip.port + 1) as u16, val));
    law_write_reaches_the_cell(chip, addr, val);
    let written = chip_after(chip, script, 12);
    assert(script.take(11) =~= selection(chip.port, addr));
    lemma_selected(chip, script, addr);
    assert(script[11] == ((chip.port + 1) as u16, val));
    assert(written.port == chip.port) by {
        reveal_with_fuel(chip_after, 2);
    }
    law_read_shows_the_cell(written, addr);
}

/// A script whose every write is carried out comes to its end.
pub proof fn lemma_script_done(d: PortTalk, script: Seq<(u16, u8)>, i: int)
    requires
        0 <= i <= script.len(),
        0 <= d.used,
        d.used + script.len() - i <= d.replies.len(),
        forall|k: int|
            d.used <= k < d.used + script.len() - i ==> d.replies[k] == PortReply::Done,
    ensures
        script_run(d, script, i).1 == Ok::<(), Stop<EcError>>(()),
        script_run(d, script, i).0.used == d.used + script.len() - i,
        script_run(d, script, i).0.replies == d.replies,
    decreases script.len() - i,
{
    if i < script.len() {
        let next = done_run(d, PortRequest::Out(script[i].0, script[i].1)).0;
        lemma_script_done(next, script, i + 1);
    }
}

/// Where the driver carries every port access out on the chip, a read returns the cell.
pub proof fn law_read_returns_the_cell(chip: Chip, addr: u16, d: PortTalk)
    requires
        chip.port < 0xFFFF,
        0 <= d.used,
        d.used + 12 <= d.replies.len(),
        forall|k: int| d.used <= k < d.used + 11 ==> d.replies[k] == PortReply::Done,
        chip_in(
            chip_after(chip, selection(chip.port, addr), 11),
            (chip.port + 1) as u16,
        ) matches Some(byte) && d.replies[d.used + 11] == PortReply::Byte(byte),
    ensures
        raw_read_run(d, chip.port, addr).1 == Ok::<u8, Stop<EcError>>(chip.cells[addr]),
{
    law_read_shows_the_cell(chip, addr);
    lemma_script_done(d, selection(chip.port, addr), 0);
}

// ---- The search for the chip ----

/// A port access is done if the driver says so, and what is read is what the driver showed.
pub proof fn law_port_accesses_are_answered(d: PortTalk, request: PortRequest, port: u16)
    requires
        0 <= d.used < d.replies.len(),
    ensures
        done_run(d, request).0.asked == d.asked.push(request),
        in_run(d, port).0.asked == d.asked.push(PortRequest::In(port)),
        done_run(d, request).1 is Ok <==> d.replies[d.used] == PortReply::Done,
        d.replies[d.used] matches PortReply::Byte(b) ==> in_run(d, port).1 == Ok::<
            u8,
            Stop<EcError>,
        >(b),
        in_run(d, port).1 is Ok ==> d.replies[d.used] is Byte,
        d.replies[d.used] matches PortReply::Fault(n) ==> done_run(d, request).1 == Err::<
            (),
            Stop<EcError>,
        >(Stop::Failed(EcError::Fault(n))) && in_run(d, port).1 == Err::<u8, Stop<EcError>>(
            Stop::Failed(EcError::Fault(n)),
        ),
{
}

/// `id1` is the first byte of a chip that is driven.
pub open spec fn driven(id1: u8) -> bool {
    set![0x55u8, 0x81u8, 0x85u8, 0x89u8, 0x90u8].contains(id1)
}

/// `found` is the chip at `port`, whose first byte has been read: its other two bytes are read from
/// there, and count as zero where they cannot be.
pub open spec fn identified(
    d: PortTalk,
    port: u16,
    id1: u8,
    found: (PortTalk, Result<(u16, ChipId), Stop<EcError>>),
) -> bool {
    let (d2, second) = raw_read_run(d, port, 0x2001);
    let (d3, third) = raw_read_run(d2, port, 0x2002);
    let waiting = Err::<u8, Stop<EcError>>(Stop::Suspended);
    if second == waiting || third == waiting {
        found.1 == Err::<(u16, ChipId), Stop<EcError>>(Stop::Suspended)
    } else {
        &&& found.0 == d3
        &&& found.1 matches Ok((at, (a, b, c))) && {
            &&& at == port
            &&& a == id1
            &&& b == if second is Ok { second->Ok_0 } else { 0 }
            &&& c == if third is Ok { third->Ok_0 } else { 0 }
        }
    }
}

/// The chip is searched on the ports 0x2E, 0x4E and 0x6E, in this order, and the first one that shows
/// a chip that is driven is taken; a port that fails, or that shows another byte, is passed over.
/// Without any, the search fails, or the last port is taken blindly where that was asked for.
pub proof fn law_the_first_known_chip_is_taken(d: PortTalk, insecure: bool)
    ensures
        ({
            let found = probe_run(d, 0, insecure);
            let (d1, first) = raw_read_run(d, 0x2E, 0x2000);
            let (d2, second) = raw_read_run(d1, 0x4E, 0x2000);
            let (d3, third) = raw_read_run(d2, 0x6E, 0x2000);
            if first matches Err(Stop::Suspended) {
                found.1 == Err::<(u16, ChipId), Stop<EcError>>(Stop::Suspended)
            } else if first is Ok && driven(first->Ok_0) {
                identified(d1, 0x2E, first->Ok_0, found)
            } else if second matches Err(Stop::Suspended) {
                found.1 == Err::<(u16, ChipId), Stop<EcError>>(Stop::Suspended)
            } else if second is Ok && driven(second->Ok_0) {
                identified(d2, 0x4E, second->Ok_0, found)
            } else if third matches Err(Stop::Suspended) {
                found.1 == Err::<(u16, ChipId), Stop<EcError>>(Stop::Suspended)
            } else if third is Ok && driven(third->Ok_0) {
                identified(d3, 0x6E, third->Ok_0, found)
            } else {
                &&& found.0 == d3
                &&& insecure ==> found.1 == Ok::<(u16, ChipId), Stop<EcError>>((0x6E, (0, 0, 0)))
                &&& !insecure ==> found.1 == Err::<(u16, ChipId), Stop<EcError>>(
                    Stop::Failed(EcError::ChipNotFound),
                )
            }
        }),
{
    reveal_with_fuel(probe_run, 4);
    assert(probe_ports()[0] == 0x2E && probe_ports()[1] == 0x4E && probe_ports()[2] == 0x6E);
}

/// A look for a chip tells the chip that a search in earnest would find without taking a port
/// blindly, and tells of none where the ports cannot be opened or the search fails.
pub proof fn law_a_look_for_a_chip(d: PortTalk)
    requires
        0 <= d.used < d.replies.len(),
    ensures
        ({
            let opened = PortTalk {
                asked: d.asked.push(PortRequest::Open),
                replies: d.replies,
                used: d.used + 1,
            };
            let found = probe_run(opened, 0, false);
            let run = probe_only_run(d);
            &&& d.replies[d.used] != PortReply::Done ==> run == (
                opened,
                Ok::<Option<ChipId>, Stop<EcError>>(None),
            )
            &&& d.replies[d.used] == PortReply::Done ==> run.0 == found.0 && (found.1 matches Ok(
                (_, chip),
            ) ==> run.1 == Ok::<Option<ChipId>, Stop<EcError>>(Some(chip))) && (
            found.1 matches Err(Stop::Failed(_)) ==> run.1 == Ok::<Option<ChipId>, Stop<EcError>>(
                None,
            ))
        }),
{
}

/// A script of port writes stops at the first one that fails, and that failure is the outcome.
pub proof fn law_a_script_stops_at_a_failure(
    d: PortTalk,
    script: Seq<(u16, u8)>,
    i: int,
    good: int,
    fault: u32,
)
    requires
        0 <= i,
        0 <= good,
        i + good < script.len(),
        0 <= d.used,
        d.used + good < d.replies.len(),
        forall|k: int| d.used <= k < d.used + good ==> d.replies[k] == PortReply::Done,
        d.replies[d.used + good] == PortReply::Fault(fault),
    ensures
        script_run(d, script, i).1 == Err::<(), Stop<EcError>>(Stop::Failed(EcError::Fault(fault))),
        script_run(d, script, i).0.asked.len() == d.asked.len() + good + 1,
        script_run(d, script, i).0.asked.last() == PortRequest::Out(
            script[i + good].0,
            script[i + good].1,
        ),
    decreases good,
{
    if good > 0 {
        let next = done_run(d, PortRequest::Out(script[i].0, script[i].1)).0;
        law_a_script_stops_at_a_failure(next, script, i + 1, good - 1, fault);
    }
}

/// A cell that cannot be selected is not read.
pub proof fn law_an_unselected_cell_is_not_read(d: PortTalk, port: u16, addr: u16)
    ensures
        script_run(d, selection(port, addr), 0).1 matches Err(stop) ==> raw_read_run(
            d,
            port,
            addr,
        ) == (script_run(d, selection(port, addr), 0).0, Err::<u8, Stop<EcError>>(stop)),
{
}

/// A cell is reached through the two ports of its chip: its address goes out high byte first, each half
/// into its own register, and the data port is read or written last.
pub proof fn law_a_cell_is_reached_through_two_ports(
    d: PortTalk,
    port: u16,
    high: u8,
    low: u8,
    val: u8,
)
    requires
        port < 0xFFFF,
        0 <= d.used,
        d.used + 12 <= d.replies.len(),
        forall|k: int| d.used <= k < d.used + 11 ==> d.replies[k] == PortReply::Done,
    ensures
        ({
            let addr = (high * 256 + low) as u16;
            let data = (port + 1) as u16;
            let selected = d.asked + seq![
                PortRequest::Out(port, 0x2E),
                PortRequest::Out(data, 0x11),
                PortRequest::Out(port, 0x2F),
                PortRequest::Out(data, high),
                PortRequest::Out(port, 0x2E),
                PortRequest::Out(data, 0x10),
                PortRequest::Out(port, 0x2F),
                PortRequest::Out(data, low),
                PortRequest::Out(port, 0x2E),
                PortRequest::Out(data, 0x12),
                PortRequest::Out(port, 0x2F),
            ];
            &&& raw_read_run(d, port, addr).0.asked == selected.push(PortRequest::In(data))
            &&& raw_write_run(d, port, addr, val).0.asked == selected.push(
                PortRequest::Out(data, val),
            )
            &&& d.replies[d.used + 11] matches PortReply::Byte(byte) ==> raw_read_run(
                d,
                port,
                addr,
            ).1 == Ok::<u8, Stop<EcError>>(byte)
            &&& d.replies[d.used + 11] == PortReply::Done ==> raw_write_run(
                d,
                port,
                addr,
                val,
            ).1 is Ok
            &&& d.replies[d.used + 11] matches PortReply::Fault(n) ==> {
                &&& raw_read_run(d, port, addr).1 == Err::<u8, Stop<EcError>>(
                    Stop::Failed(EcError::Fault(n)),
                )
                &&& raw_write_run(d, port, addr, val).1 == Err::<(), Stop<EcError>>(
                    Stop::Failed(EcError::Fault(n)),
                )
            }
        }),
{
    reveal_with_fuel(script_run, 13);
    let addr = (high * 256 + low) as u16;
    assert((addr / 256) as u8 == high);
    assert((addr % 256) as u8 == low);
}

/// An answer of another kind than was asked for is reported as one that does not answer.
pub proof fn law_other_port_answers_are_errors(d: PortTalk, request: PortRequest, port: u16)
    requires
        0 <= d.used < d.replies.len(),
        !(d.replies[d.used] is Fault),
    ensures
        !(d.replies[d.used] is Done) ==> done_run(d, request).1 == Err::<(), Stop<EcError>>(
            Stop::Failed(EcError::UnexpectedReply),
        ),
        !(d.replies[d.used] is Byte) ==> in_run(d, port).1 == Err::<u8, Stop<EcError>>(
            Stop::Failed(EcError::UnexpectedReply),
        ),
{
}

} // verus!
