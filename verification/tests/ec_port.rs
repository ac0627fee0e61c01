use std::collections::HashMap;

use lecoo_control::ec::error::EcError;
use lecoo_control::ec::io::{perform, EcReply, EcRequest};
use lecoo_control::ec::port::{
    inb, outb, probe_chip, probe_chip_only, raw_read, raw_write, PortIo, PortReply, PortRequest,
};
use lecoo_control::session::{Session, Stop};

/// A chip behind an index and a data port.
struct Chip {
    port: u16,
    cells: HashMap<u16, u8>,
    index: u8,
    register: u8,
    high: u8,
    low: u8,
    closed: bool,
}

impl Chip {
    fn at(port: u16, cells: &[(u16, u8)]) -> Chip {
        Chip {
            port,
            cells: cells.iter().copied().collect(),
            index: 0,
            register: 0,
            high: 0,
            low: 0,
            closed: false,
        }
    }

    fn cursor(&self) -> u16 {
        u16::from(self.high) * 256 + u16::from(self.low)
    }

    fn perform(&mut self, request: PortRequest) -> PortReply {
        match request {
            PortRequest::Open => {
                if self.closed {
                    PortReply::Fault(5)
                } else {
                    PortReply::Done
                }
            }
            PortRequest::Out(port, val) => {
                if port == self.port {
                    self.index = val;
                } else if port == self.port + 1 {
                    match (self.index, self.register) {
                        (0x2E, _) => self.register = val,
                        (0x2F, 0x11) => self.high = val,
                        (0x2F, 0x10) => self.low = val,
                        (0x2F, 0x12) => {
                            let at = self.cursor();
                            self.cells.insert(at, val);
                        }
                        _ => {}
                    }
                }
                PortReply::Done
            }
            PortRequest::In(port) => {
                if port == self.port + 1 && self.index == 0x2F && self.register == 0x12 {
                    PortReply::Byte(self.cells.get(&self.cursor()).copied().unwrap_or(0))
                } else {
                    PortReply::Byte(0xFF)
                }
            }
        }
    }
}

fn drive<T>(
    chip: &mut Chip,
    mut operation: impl FnMut(&mut PortIo) -> Result<T, Stop<EcError>>,
) -> Result<T, EcError> {
    let mut io: PortIo = Session::new();
    loop {
        match operation(&mut io) {
            Ok(value) => return Ok(value),
            Err(Stop::Failed(error)) => return Err(error),
            Err(Stop::Suspended) => {
                let request = *io.pending().expect("a suspended run waits for something");
                let reply = chip.perform(request);
                io.answer(reply);
            }
        }
    }
}

#[test]
fn a_cell_is_read_through_the_ports() {
    let mut chip = Chip::at(0x4E, &[(0xD070, 0x2A)]);
    assert_eq!(drive(&mut chip, |io| raw_read(io, 0x4E, 0xD070)), Ok(0x2A));
}

#[test]
fn a_write_reaches_the_cell_and_is_read_back() {
    let mut chip = Chip::at(0x4E, &[(0xD070, 0x2A), (0xD071, 0x2B)]);
    drive(&mut chip, |io| raw_write(io, 0x4E, 0xD070, 0x77)).unwrap();
    assert_eq!(chip.cells[&0xD070], 0x77);
    assert_eq!(chip.cells[&0xD071], 0x2B);
    assert_eq!(drive(&mut chip, |io| raw_read(io, 0x4E, 0xD070)), Ok(0x77));
}

#[test]
fn reading_asks_for_the_documented_port_writes() {
    let mut io: PortIo = Session::new();
    for _ in 0..11 {
        assert_eq!(raw_read(&mut io, 0x4E, 0x1234), Err(Stop::Suspended));
        io.answer(PortReply::Done);
    }
    assert_eq!(raw_read(&mut io, 0x4E, 0x1234), Err(Stop::Suspended));
    assert_eq!(
        io.asked(),
        &vec![
            PortRequest::Out(0x4E, 0x2E),
            PortRequest::Out(0x4F, 0x11),
            PortRequest::Out(0x4E, 0x2F),
            PortRequest::Out(0x4F, 0x12),
            PortRequest::Out(0x4E, 0x2E),
            PortRequest::Out(0x4F, 0x10),
            PortRequest::Out(0x4E, 0x2F),
            PortRequest::Out(0x4F, 0x34),
            PortRequest::Out(0x4E, 0x2E),
            PortRequest::Out(0x4F, 0x12),
            PortRequest::Out(0x4E, 0x2F),
            PortRequest::In(0x4F),
        ]
    );
}

#[test]
fn a_failing_port_ends_the_access() {
    let mut io: PortIo = Session::new();
    assert_eq!(raw_read(&mut io, 0x4E, 0x1234), Err(Stop::Suspended));
    io.answer(PortReply::Fault(9));
    assert_eq!(raw_read(&mut io, 0x4E, 0x1234), Err(Stop::Failed(EcError::Fault(9))));
    assert_eq!(io.asked().len(), 1);
}

#[test]
fn single_port_accesses() {
    let mut io: PortIo = Session::new();
    assert_eq!(outb(&mut io, 0x80, 3), Err(Stop::Suspended));
    io.answer(PortReply::Done);
    assert_eq!(outb(&mut io, 0x80, 3), Ok(()));
    let mut io: PortIo = Session::new();
    assert_eq!(inb(&mut io, 0x80), Err(Stop::Suspended));
    io.answer(PortReply::Byte(6));
    assert_eq!(inb(&mut io, 0x80), Ok(6));
    let mut io: PortIo = Session::new();
    assert_eq!(inb(&mut io, 0x80), Err(Stop::Suspended));
    io.answer(PortReply::Done);
    assert_eq!(inb(&mut io, 0x80), Err(Stop::Failed(EcError::UnexpectedReply)));
}

#[test]
fn the_chip_is_found_on_a_later_port() {
    let cells = [(0x2000, 0x89), (0x2001, 0x87), (0x2002, 0x03)];
    let mut chip = Chip::at(0x4E, &cells);
    assert_eq!(drive(&mut chip, |io| probe_chip(io, false)), Ok((0x4E, (0x89, 0x87, 0x03))));
    let mut chip = Chip::at(0x6E, &cells);
    assert_eq!(drive(&mut chip, |io| probe_chip(io, true)), Ok((0x6E, (0x89, 0x87, 0x03))));
}

#[test]
fn an_unknown_chip_is_taken_only_in_insecure_mode() {
    let mut chip = Chip::at(0x4E, &[(0x2000, 0x12)]);
    assert_eq!(drive(&mut chip, |io| probe_chip(io, false)), Err(EcError::ChipNotFound));
    assert_eq!(drive(&mut chip, |io| probe_chip(io, true)), Ok((0x6E, (0, 0, 0))));
    assert_eq!(
        EcError::ChipNotFound.message(""),
        Some("ITE IT5570/IT8987 chip not found on any known port".to_owned())
    );
}

#[test]
fn probing_alone_never_fails() {
    let cells = [(0x2000, 0x55), (0x2001, 0x70), (0x2002, 0x02)];
    let mut chip = Chip::at(0x2E, &cells);
    assert_eq!(drive(&mut chip, |io| probe_chip_only(io)), Ok(Some((0x55, 0x70, 0x02))));
    chip.closed = true;
    assert_eq!(drive(&mut chip, |io| probe_chip_only(io)), Ok(None));
    let mut empty = Chip::at(0x2E, &[]);
    assert_eq!(drive(&mut empty, |io| probe_chip_only(io)), Ok(None));
}

#[test]
fn controller_requests_become_port_accesses() {
    let cells = [(0x2000, 0x55), (0x2001, 0x70), (0x2002, 0x02), (0x0414, 0x01)];
    let mut chip = Chip::at(0x4E, &cells);
    assert_eq!(drive(&mut chip, |io| perform(io, &EcRequest::OpenPorts)), Ok(EcReply::Done));
    assert_eq!(
        drive(&mut chip, |io| perform(io, &EcRequest::ProbeChip(false))),
        Ok(EcReply::Chip { port: 0x4E, id1: 0x55, id2: 0x70, ver: 0x02 })
    );
    assert_eq!(
        drive(&mut chip, |io| perform(io, &EcRequest::WriteByte(0x4E, 0x0414, 0x13))),
        Ok(EcReply::Done)
    );
    assert_eq!(
        drive(&mut chip, |io| perform(io, &EcRequest::ReadByte(0x4E, 0x0414))),
        Ok(EcReply::Byte(0x13))
    );
    assert_eq!(
        drive(&mut chip, |io| perform(io, &EcRequest::LoadState)),
        Err(EcError::UnexpectedReply)
    );
}

#[test]
fn a_byte_write_is_twelve_port_writes() {
    let mut io: PortIo = Session::new();
    let request = EcRequest::WriteByte(0x4E, 0xC405, 0x7F);
    assert!(request.has_fitting_port());
    for _ in 0..12 {
        assert_eq!(perform(&mut io, &request), Err(Stop::Suspended));
        io.answer(PortReply::Done);
    }
    assert_eq!(perform(&mut io, &request), Ok(EcReply::Done));
    let writes: Vec<PortRequest> = [
        (0x4E, 0x2E), (0x4F, 0x11), (0x4E, 0x2F), (0x4F, 0xC4),
        (0x4E, 0x2E), (0x4F, 0x10), (0x4E, 0x2F), (0x4F, 0x05),
        (0x4E, 0x2E), (0x4F, 0x12), (0x4E, 0x2F), (0x4F, 0x7F),
    ]
    .into_iter()
    .map(|(port, val)| PortRequest::Out(port, val))
    .collect();
    assert_eq!(io.asked(), &writes);
}

#[test]
fn a_byte_read_ends_at_the_data_port() {
    let mut io: PortIo = Session::new();
    let request = EcRequest::ReadByte(0x2E, 0x0414);
    for _ in 0..11 {
        assert_eq!(perform(&mut io, &request), Err(Stop::Suspended));
        assert!(matches!(io.pending(), Some(PortRequest::Out(0x2E | 0x2F, _))));
        io.answer(PortReply::Done);
    }
    assert_eq!(perform(&mut io, &request), Err(Stop::Suspended));
    assert_eq!(io.pending(), Some(&PortRequest::In(0x2F)));
    io.answer(PortReply::Byte(0x13));
    assert_eq!(perform(&mut io, &request), Ok(EcReply::Byte(0x13)));
}

#[test]
fn a_port_without_one_above_it_does_not_fit() {
    assert!(!EcRequest::ReadByte(0xFFFF, 0).has_fitting_port());
    assert!(!EcRequest::WriteByte(0xFFFF, 0, 0).has_fitting_port());
    assert!(EcRequest::ReadByte(0xFFFE, 0xFFFF).has_fitting_port());
    assert!(EcRequest::Lock.has_fitting_port());
}
