//! The controller as a device: where its bytes are, how a group of accesses is kept together, and
//! how the window of its memory is found.
use vstd::prelude::*;

use super::error::EcError;
use super::io::{
    byte, byte_run, chip, chip_run, done, done_run, quiet, EcIo, EcReply, EcRequest, EcRun, EcTalk,
};
use crate::session::{continues, Stop};
use crate::types::SensorRole;

verus! {

const MIN_PLAUSIBLE_TEMPERATURE_C: u8 = 0x10;

const MAX_PLAUSIBLE_TEMPERATURE_C: u8 = 110;

/// A temperature, in degrees Celsius, that a running machine can have.
pub open spec fn plausible(value: u8) -> bool {
    0x10 < value <= 110
}

/// Returns whether a raw CPU-temperature byte is credible enough to identify a memory window.
pub fn is_plausible_temperature(value: u8) -> (yes: bool)
    ensures
        yes == plausible(value),
{
    value > MIN_PLAUSIBLE_TEMPERATURE_C && value <= MAX_PLAUSIBLE_TEMPERATURE_C
}

/// Where a byte of the controller is.
#[derive(Clone, Copy, PartialEq, Eq, Debug, Structural)]
pub enum Addr {
    /// At an absolute address.
    Reg(u16),
    /// At an offset in the memory window.
    Ram(u16),
    /// At an offset in the bank that the memory window lies in.
    Banked(u16),
}

#[derive(Clone, Copy, PartialEq, Eq, Debug, Structural)]
pub struct Sensor {
    pub role: SensorRole,
    pub addr: Addr,
}

#[derive(Clone, Copy, PartialEq, Eq, Debug, Structural)]
pub struct Battery {
    /// The relative state of charge, in percent.
    pub rsoc: Addr,
}

/// Offsets in the memory window, and what else differs from board to board.
#[derive(Clone, Copy, PartialEq, Eq, Debug, Structural)]
pub struct EcOffsets {
    pub ram_thermal_policy_cpu: u16,
    pub ram_thermal_policy_gpu: u16,
    pub ram_bat_limit_min: u16,
    pub ram_bat_limit_max: u16,
    pub ram_bat_rsoc: u16,
    pub ram_power_profile: u16,
    /// Whether the board has the charge hold of the N161A.
    pub n161a_native_charge_hold: bool,
}

/// A board.
#[derive(PartialEq, Eq, Debug)]
pub struct BoardProfile {
    pub id: String,
    pub sensors: Vec<Sensor>,
    pub battery: Option<Battery>,
    /// The addresses at which the memory window may begin, in order of preference.
    pub hram_candidates: Vec<u16>,
    pub offsets: EcOffsets,
}

/// The first sensor with the role `role`, from the `i`-th on.
pub open spec fn sensor_from(sensors: Seq<Sensor>, role: SensorRole, i: int) -> Option<Sensor>
    decreases sensors.len() - i,
{
    if i < 0 || i >= sensors.len() {
        None
    } else if sensors[i].role == role {
        Some(sensors[i])
    } else {
        sensor_from(sensors, role, i + 1)
    }
}

impl BoardProfile {
    /// Where the CPU temperature lies in the memory window, if it does.
    pub open spec fn cpu_offset(self) -> Option<u16> {
        match sensor_from(self.sensors@, SensorRole::Cpu, 0) {
            Some(sensor) => match sensor.addr {
                Addr::Ram(offset) => Some(offset),
                _ => None,
            },
            None => None,
        }
    }

    /// Where the state of charge lies in the memory window, if it does.
    pub open spec fn rsoc_offset(self) -> Option<u16> {
        match self.battery {
            Some(battery) => match battery.rsoc {
                Addr::Ram(offset) => Some(offset),
                _ => None,
            },
            None => None,
        }
    }

    /// Where the detection looks for the state of charge, if it does. With one candidate there is
    /// no tie to break.
    pub open spec fn tie_offset(self) -> Option<u16> {
        if self.hram_candidates@.len() > 1 {
            self.rsoc_offset()
        } else {
            None
        }
    }

    /// Every candidate window has the bytes that the detection looks at.
    pub open spec fn windows_fit(self) -> bool {
        &&& self.cpu_offset() matches Some(offset) ==> forall|i: int|
            0 <= i < self.hram_candidates@.len() ==> #[trigger] self.hram_candidates@[i] + offset
                <= 0xFFFF
        &&& self.tie_offset() matches Some(offset) ==> forall|i: int|
            0 <= i < self.hram_candidates@.len() ==> #[trigger] self.hram_candidates@[i] + offset
                <= 0xFFFF
    }

    /// Checks that every candidate window has the bytes that the detection looks at.
    pub fn has_fitting_windows(&self) -> (fit: bool)
        ensures
            fit == self.windows_fit(),
    {
        let temp: Option<u16> = match self.sensor(SensorRole::Cpu) {
            Some(sensor) => match sensor.addr {
                Addr::Ram(offset) => Some(offset),
                _ => None,
            },
            None => None,
        };
        let rsoc: Option<u16> = if self.hram_candidates.len() > 1 {
            match self.battery {
                Some(battery) => match battery.rsoc {
                    Addr::Ram(offset) => Some(offset),
                    _ => None,
                },
                None => None,
            }
        } else {
            None
        };
        let mut i: usize = 0;
        while i < self.hram_candidates.len()
            invariant
                i <= self.hram_candidates@.len(),
                temp == self.cpu_offset(),
                rsoc == self.tie_offset(),
                temp matches Some(offset) ==> forall|k: int|
                    0 <= k < i ==> #[trigger] self.hram_candidates@[k] + offset <= 0xFFFF,
                rsoc matches Some(offset) ==> forall|k: int|
                    0 <= k < i ==> #[trigger] self.hram_candidates@[k] + offset <= 0xFFFF,
            decreases self.hram_candidates.len() - i,
        {
            let base: u16 = self.hram_candidates[i];
            if let Some(offset) = temp {
                if offset > 0xFFFF - base {
                    return false;
                }
            }
            if let Some(offset) = rsoc {
                if offset > 0xFFFF - base {
                    return false;
                }
            }
            i = i + 1;
        }
        true
    }

    /// The sensor that measures `role`.
    pub fn sensor(&self, role: SensorRole) -> (sensor: Option<Sensor>)
        ensures
            sensor == sensor_from(self.sensors@, role, 0),
    {
        let mut i: usize = 0;
        while i < self.sensors.len()
            invariant
                i <= self.sensors@.len(),
                sensor_from(self.sensors@, role, i as int) == sensor_from(self.sensors@, role, 0),
            decreases self.sensors.len() - i,
        {
            if self.sensors[i].role == role {
                return Some(self.sensors[i]);
            }
            i = i + 1;
        }
        None
    }
}

/// What is known of the chip once it has been found.
#[derive(Clone, Copy, PartialEq, Eq, Debug, Structural)]
pub struct EcRuntime {
    pub port: u16,
    /// Where the memory window begins.
    pub hram_offset: u16,
    pub chip_id1: u8,
    pub chip_id2: u8,
    pub chip_ver: u8,
}

impl EcRuntime {
    /// The absolute address of `addr`; beyond 0xFFFF there is none.
    pub open spec fn resolved(self, addr: Addr) -> int {
        match addr {
            Addr::Reg(x) => x as int,
            Addr::Ram(x) => self.hram_offset + x,
            Addr::Banked(x) => x + (self.hram_offset / 0x1000) * 0x1000,
        }
    }

    /// Whether `addr` exists.
    pub open spec fn addressable(self, addr: Addr) -> bool {
        self.resolved(addr) <= 0xFFFF
    }
}

/// A controller that has been found.
#[derive(Clone, Copy)]
pub struct EcDevice<'a> {
    pub profile: &'a BoardProfile,
    pub rt: EcRuntime,
}

/// A group of accesses that holds the lock.
#[derive(Clone, Copy)]
pub struct EcBatch<'a> {
    pub rt: EcRuntime,
    pub profile: &'a BoardProfile,
}

/// Giving the lock back after a group of accesses, however the group ended. A suspended group
/// keeps the lock.
pub open spec fn unlocked<T>(run: EcRun<T>) -> EcRun<T> {
    match run.1 {
        Err(Stop::Suspended) => run,
        _ => match done_run(run.0, EcRequest::Unlock) {
            (d, Ok(())) => (d, run.1),
            (d, Err(stop)) => (d, Err(stop)),
        },
    }
}

/// A group of accesses between taking the lock and giving it back.
pub open spec fn batch_run<T>(d: EcTalk, group: spec_fn(EcTalk) -> EcRun<T>) -> EcRun<T> {
    match done_run(d, EcRequest::Lock) {
        (d, Ok(())) => unlocked(group(d)),
        (d, Err(stop)) => (d, Err(stop)),
    }
}

/// One byte read on its own, under the lock.
pub open spec fn read_run(d: EcTalk, port: u16, addr: u16) -> EcRun<u8> {
    batch_run(d, |d: EcTalk| byte_run(d, port, addr))
}

/// One byte written on its own, under the lock.
pub open spec fn write_run(d: EcTalk, port: u16, addr: u16, val: u8) -> EcRun<()> {
    batch_run(d, |d: EcTalk| done_run(d, EcRequest::WriteByte(port, addr, val)))
}

impl<'a> EcBatch<'a> {
    /// The absolute address of `addr`.
    pub fn resolve(&self, addr: Addr) -> (absolute: u16)
        requires
            self.rt.addressable(addr),
        ensures
            absolute == self.rt.resolved(addr),
    {
        match addr {
            Addr::Reg(x) => x,
            Addr::Ram(x) => self.rt.hram_offset + x,
            Addr::Banked(x) => {
                let base: u16 = self.rt.hram_offset;
                proof {
                    assert(base & 0xF000 == (base / 0x1000) * 0x1000) by (bit_vector);
                }
                x + (base & 0xF000)
            },
        }
    }

    /// Reads a byte.
    pub fn read(&self, io: &mut EcIo, addr: Addr) -> (result: Result<u8, Stop<EcError>>)
        requires
            self.rt.addressable(addr),
        ensures
            (final(io)@, result) == byte_run(old(io)@, self.rt.port, self.rt.resolved(addr) as u16),
    {
        let absolute = self.resolve(addr);
        self.read_abs(io, absolute)
    }

    /// Writes a byte.
    pub fn write(&self, io: &mut EcIo, addr: Addr, val: u8) -> (result: Result<(), Stop<EcError>>)
        requires
            self.rt.addressable(addr),
        ensures
            (final(io)@, result) == done_run(
                old(io)@,
                EcRequest::WriteByte(self.rt.port, self.rt.resolved(addr) as u16, val),
            ),
    {
        let absolute = self.resolve(addr);
        self.write_abs(io, absolute, val)
    }

    /// Reads the byte at an absolute address.
    pub fn read_abs(&self, io: &mut EcIo, addr: u16) -> (result: Result<u8, Stop<EcError>>)
        ensures
            (final(io)@, result) == byte_run(old(io)@, self.rt.port, addr),
    {
        byte(io, self.rt.port, addr)
    }

    /// Writes the byte at an absolute address.
    pub fn write_abs(&self, io: &mut EcIo, addr: u16, val: u8) -> (result: Result<
        (),
        Stop<EcError>,
    >)
        ensures
            (final(io)@, result) == done_run(
                old(io)@,
                EcRequest::WriteByte(self.rt.port, addr, val),
            ),
    {
        done(io, EcRequest::WriteByte(self.rt.port, addr, val))
    }
}

/// The value with the bits of `mask` taken from `val` and the others from `current`.
pub open spec fn merged(current: u8, mask: u8, val: u8) -> u8 {
    (current & !mask) | (val & mask)
}

/// Reading a byte, writing it back with the bits of `mask` replaced, and reading it again.
pub open spec fn update_run(d: EcTalk, port: u16, addr: u16, mask: u8, val: u8) -> EcRun<u8> {
    match byte_run(d, port, addr) {
        (d, Err(stop)) => (d, Err(stop)),
        (d, Ok(current)) => match done_run(
            d,
            EcRequest::WriteByte(port, addr, merged(current, mask, val)),
        ) {
            (d, Err(stop)) => (d, Err(stop)),
            (d, Ok(())) => byte_run(d, port, addr),
        },
    }
}

/// Replacing bits under a mask sets those bits and no others.
pub proof fn law_update_touches_only_the_mask(current: u8, mask: u8, val: u8)
    ensures
        merged(current, mask, val) & mask == val & mask,
        merged(current, mask, val) & !mask == current & !mask,
{
    assert(((current & !mask) | (val & mask)) & mask == val & mask) by (bit_vector);
    assert(((current & !mask) | (val & mask)) & !mask == current & !mask) by (bit_vector);
}

// ---- Finding the memory window ----

/// The candidate windows from the `i`-th on that show a plausible temperature at `offset`,
/// appended to `found`. A window that cannot be read is passed over.
pub open spec fn scan_run(
    d: EcTalk,
    port: u16,
    candidates: Seq<u16>,
    offset: u16,
    i: int,
    found: Seq<u16>,
) -> EcRun<Seq<u16>>
    decreases candidates.len() - i,
{
    if i < 0 || i >= candidates.len() {
        (d, Ok(found))
    } else {
        match read_run(d, port, (candidates[i] + offset) as u16) {
            (d, Err(Stop::Suspended)) => (d, Err(Stop::Suspended)),
            (d, Err(Stop::Failed(_))) => scan_run(d, port, candidates, offset, i + 1, found),
            (d, Ok(value)) => scan_run(
                d,
                port,
                candidates,
                offset,
                i + 1,
                if plausible(value) { found.push(candidates[i]) } else { found },
            ),
        }
    }
}

/// The first window from the `i`-th on that shows a charge of at most 100 percent at `offset`.
pub open spec fn tie_run(
    d: EcTalk,
    port: u16,
    windows: Seq<u16>,
    offset: u16,
    i: int,
) -> EcRun<Option<u16>>
    decreases windows.len() - i,
{
    if i < 0 || i >= windows.len() {
        (d, Ok(None))
    } else {
        match read_run(d, port, (windows[i] + offset) as u16) {
            (d, Err(Stop::Suspended)) => (d, Err(Stop::Suspended)),
            (d, Err(Stop::Failed(_))) => tie_run(d, port, windows, offset, i + 1),
            (d, Ok(value)) => if value <= 100 {
                (d, Ok(Some(windows[i])))
            } else {
                tie_run(d, port, windows, offset, i + 1)
            },
        }
    }
}

/// The choice among the windows with a plausible temperature: the only one, or else the first
/// with a plausible charge, or else the first.
pub open spec fn choose_run(
    d: EcTalk,
    port: u16,
    found: Seq<u16>,
    rsoc: Option<u16>,
) -> EcRun<u16> {
    if found.len() == 0 {
        (d, Err(Stop::Failed(EcError::HramNotFound)))
    } else if found.len() == 1 || rsoc is None {
        (d, Ok(found[0]))
    } else {
        match tie_run(d, port, found, rsoc->0, 0) {
            (d, Err(stop)) => (d, Err(stop)),
            (d, Ok(Some(window))) => (d, Ok(window)),
            (d, Ok(None)) => (d, Ok(found[0])),
        }
    }
}

/// Finding the window of a board.
pub open spec fn detect_run(d: EcTalk, port: u16, profile: BoardProfile) -> EcRun<u16> {
    match profile.cpu_offset() {
        None => (d, Err(Stop::Failed(EcError::NoRamSensor))),
        Some(offset) => match scan_run(
            d,
            port,
            profile.hram_candidates@,
            offset,
            0,
            Seq::empty(),
        ) {
            (d, Err(stop)) => (d, Err(stop)),
            (d, Ok(found)) => choose_run(d, port, found, profile.rsoc_offset()),
        },
    }
}

/// Taking a board into use: the ports are opened, the chip is found, then the memory window.
pub open spec fn start_run(d: EcTalk, profile: BoardProfile, insecure: bool) -> EcRun<EcRuntime> {
    match done_run(d, EcRequest::OpenPorts) {
        (d, Err(stop)) => (d, Err(stop)),
        (d, Ok(())) => match chip_run(d, insecure) {
            (d, Err(stop)) => (d, Err(stop)),
            (d, Ok((port, (chip_id1, chip_id2, chip_ver)))) => match detect_run(d, port, profile) {
                (d, Err(stop)) => (d, Err(stop)),
                (d, Ok(hram_offset)) => (
                    d,
                    Ok(EcRuntime { port, hram_offset, chip_id1, chip_id2, chip_ver }),
                ),
            },
        },
    }
}

/// Taking a board into use whose profile has been looked up.
pub open spec fn new_run(d: EcTalk, detected: Option<&BoardProfile>, insecure: bool) -> EcRun<
    EcRuntime,
> {
    match detected {
        None => (d, Err(Stop::Failed(EcError::UnsupportedBoard))),
        Some(profile) => start_run(d, *profile, insecure),
    }
}

/// Writing the bytes of `list` from the `i`-th on, in order, up to the first failure.
pub open spec fn writes_run(d: EcTalk, port: u16, list: Seq<(u16, u8)>, i: int) -> EcRun<()>
    decreases list.len() - i,
{
    if i < 0 || i >= list.len() {
        (d, Ok(()))
    } else {
        match done_run(d, EcRequest::WriteByte(port, list[i].0, list[i].1)) {
            (d, Ok(())) => writes_run(d, port, list, i + 1),
            (d, Err(stop)) => (d, Err(stop)),
        }
    }
}

impl<'a> EcDevice<'a> {
    /// The absolute address of an offset in the memory window.
    pub open spec fn ram(self, offset: u16) -> u16 {
        (self.rt.hram_offset + offset) as u16
    }

    /// Checks whether `addr` exists.
    pub fn is_addressable(&self, addr: Addr) -> (yes: bool)
        ensures
            yes == self.rt.addressable(addr),
    {
        match addr {
            Addr::Reg(_) => true,
            Addr::Ram(x) => x <= 0xFFFF - self.rt.hram_offset,
            Addr::Banked(x) => {
                let base: u16 = self.rt.hram_offset;
                proof {
                    assert(base & 0xF000 == (base / 0x1000) * 0x1000) by (bit_vector);
                    assert(base & 0xF000 <= 0xFFFF) by (bit_vector);
                }
                x <= 0xFFFF - (base & 0xF000)
            },
        }
    }

    /// The group of accesses that [`Self::with_batch`] hands to its operation.
    pub open spec fn batch(self) -> EcBatch<'a> {
        EcBatch { rt: self.rt, profile: self.profile }
    }

    /// Takes a board into use whose profile has been looked up.
    pub fn new(
        detected: Option<&'a BoardProfile>,
        insecure_mode: bool,
        io: &mut EcIo,
    ) -> (result: Result<EcDevice<'a>, Stop<EcError>>)
        requires
            detected matches Some(profile) ==> profile.windows_fit(),
        ensures
            (
                final(io)@,
                match result {
                    Ok(device) => Ok(device.rt),
                    Err(stop) => Err(stop),
                },
            ) == new_run(old(io)@, detected, insecure_mode),
            result matches Ok(device) ==> detected == Some(device.profile),
    {
        match detected {
            None => Err(Stop::Failed(EcError::UnsupportedBoard)),
            Some(profile) => EcDevice::new_with_profile(profile, insecure_mode, io),
        }
    }

    /// Takes a board into use.
    pub fn new_with_profile(
        profile: &'a BoardProfile,
        insecure_mode: bool,
        io: &mut EcIo,
    ) -> (result: Result<EcDevice<'a>, Stop<EcError>>)
        requires
            profile.windows_fit(),
        ensures
            (
                final(io)@,
                match result {
                    Ok(device) => Ok(device.rt),
                    Err(stop) => Err(stop),
                },
            ) == start_run(old(io)@, *profile, insecure_mode),
            result matches Ok(device) ==> device.profile == profile,
    {
        done(io, EcRequest::OpenPorts)?;
        let (port, (chip_id1, chip_id2, chip_ver)) = chip(io, insecure_mode)?;
        let mut device = EcDevice {
            profile,
            rt: EcRuntime { port, hram_offset: 0, chip_id1, chip_id2, chip_ver },
        };
        let window = device.detect_hram(io)?;
        device.rt = EcRuntime { port, hram_offset: window, chip_id1, chip_id2, chip_ver };
        Ok(device)
    }

    /// Where the memory window begins.
    pub fn hram_offset(&self) -> (offset: u16)
        ensures
            offset == self.rt.hram_offset,
    {
        self.rt.hram_offset
    }

    /// Finds the memory window. The temperature is the primary signal; the state of charge only
    /// breaks ties between several plausible windows.
    pub fn detect_hram(&self, io: &mut EcIo) -> (result: Result<u16, Stop<EcError>>)
        requires
            self.profile.windows_fit(),
        ensures
            (final(io)@, result) == detect_run(old(io)@, self.rt.port, *self.profile),
    {
        let temp: u16 = match self.profile.sensor(SensorRole::Cpu) {
            Some(sensor) => match sensor.addr {
                Addr::Ram(offset) => offset,
                _ => {
                    return Err(Stop::Failed(EcError::NoRamSensor));
                },
            },
            None => {
                return Err(Stop::Failed(EcError::NoRamSensor));
            },
        };
        let rsoc: Option<u16> = match self.profile.battery {
            Some(battery) => match battery.rsoc {
                Addr::Ram(offset) => Some(offset),
                _ => None,
            },
            None => None,
        };

        let mut found: Vec<u16> = Vec::new();
        let mut i: usize = 0;
        let ghost candidates = self.profile.hram_candidates@;
        while i < self.profile.hram_candidates.len()
            invariant
                self.profile.windows_fit(),
                self.profile.cpu_offset() == Some(temp),
                candidates == self.profile.hram_candidates@,
                i <= candidates.len(),
                found@.len() <= i,
                forall|k: int|
                    0 <= k < found@.len() ==> candidates.contains(#[trigger] found@[k]),
                scan_run(io@, self.rt.port, candidates, temp, i as int, found@) == scan_run(
                    old(io)@,
                    self.rt.port,
                    candidates,
                    temp,
                    0,
                    Seq::empty(),
                ),
            decreases candidates.len() - i,
        {
            let base: u16 = self.profile.hram_candidates[i];
            match self.read_abs(io, base + temp) {
                Err(Stop::Suspended) => {
                    return Err(Stop::Suspended);
                },
                Err(Stop::Failed(_)) => {},
                Ok(value) => {
                    if is_plausible_temperature(value) {
                        proof {
                            assert(candidates[i as int] == base);
                        }
                        found.push(base);
                    }
                },
            }
            i = i + 1;
        }

        if found.len() == 0 {
            return Err(Stop::Failed(EcError::HramNotFound));
        }
        if found.len() == 1 {
            return Ok(found[0]);
        }
        if let Some(offset) = rsoc {
            let ghost scanned = io@;
            let mut k: usize = 0;
            while k < found.len()
                invariant
                    self.profile.windows_fit(),
                    self.profile.rsoc_offset() == Some(offset),
                    candidates == self.profile.hram_candidates@,
                    k <= found@.len(),
                    1 < found@.len() <= candidates.len(),
                    forall|j: int|
                        0 <= j < found@.len() ==> candidates.contains(#[trigger] found@[j]),
                    self.profile.cpu_offset() == Some(temp),
                    scan_run(
                        old(io)@,
                        self.rt.port,
                        candidates,
                        temp,
                        0,
                        Seq::empty(),
                    ) == (scanned, Ok::<Seq<u16>, Stop<EcError>>(found@)),
                    tie_run(io@, self.rt.port, found@, offset, k as int) == tie_run(
                        scanned,
                        self.rt.port,
                        found@,
                        offset,
                        0,
                    ),
                decreases found.len() - k,
            {
                let base: u16 = found[k];
                proof {
                    let j = candidates.index_of(base);
                    assert(candidates.contains(found@[k as int]));
                    assert(candidates[j] + offset <= 0xFFFF);
                }
                match self.read_abs(io, base + offset) {
                    Err(Stop::Suspended) => {
                        return Err(Stop::Suspended);
                    },
                    Err(Stop::Failed(_)) => {},
                    Ok(value) => {
                        if value <= 100 {
                            return Ok(base);
                        }
                    },
                }
                k = k + 1;
            }
        }
        Ok(found[0])
    }

    /// Runs a group of accesses under the lock, so that no other user gets between them.
    pub fn with_batch<F, T>(&self, io: &mut EcIo, f: F) -> (result: Result<T, Stop<EcError>>) where
        F: FnOnce(&EcBatch, &mut EcIo) -> Result<T, Stop<EcError>>,

        requires
            forall|inner: &mut EcIo| #[trigger] call_requires(f, (&self.batch(), inner)),
        ensures
            match done_run(old(io)@, EcRequest::Lock) {
                (d, Err(stop)) => final(io)@ == d && result == Err::<T, Stop<EcError>>(stop),
                (d, Ok(())) => exists|inner: &mut EcIo, outcome: Result<T, Stop<EcError>>| {
                    &&& (*inner)@ == d
                    &&& #[trigger] call_ensures(f, (&self.batch(), inner), outcome)
                    &&& unlocked((final(inner)@, outcome)) == (final(io)@, result)
                },
            },
    {
        done(io, EcRequest::Lock)?;
        let batch = EcBatch { rt: self.rt, profile: self.profile };
        let outcome = f(&batch, io);
        match outcome {
            Err(Stop::Suspended) => outcome,
            _ => {
                done(io, EcRequest::Unlock)?;
                outcome
            },
        }
    }

    /// Reads a byte.
    pub fn read(&self, io: &mut EcIo, addr: Addr) -> (result: Result<u8, Stop<EcError>>)
        requires
            self.rt.addressable(addr),
        ensures
            (final(io)@, result) == read_run(old(io)@, self.rt.port, self.rt.resolved(addr) as u16),
    {
        self.with_batch(
            io,
            |b: &EcBatch, io: &mut EcIo| -> (r: Result<u8, Stop<EcError>>)
                requires
                    b.rt.addressable(addr),
                ensures
                    (final(io)@, r) == byte_run(old(io)@, b.rt.port, b.rt.resolved(addr) as u16)
                { b.read(io, addr) },
        )
    }

    /// Writes a byte.
    pub fn write(&self, io: &mut EcIo, addr: Addr, val: u8) -> (result: Result<(), Stop<EcError>>)
        requires
            self.rt.addressable(addr),
        ensures
            (final(io)@, result) == write_run(
                old(io)@,
                self.rt.port,
                self.rt.resolved(addr) as u16,
                val,
            ),
    {
        self.with_batch(
            io,
            |b: &EcBatch, io: &mut EcIo| -> (r: Result<(), Stop<EcError>>)
                requires
                    b.rt.addressable(addr),
                ensures
                    (final(io)@, r) == done_run(
                        old(io)@,
                        EcRequest::WriteByte(b.rt.port, b.rt.resolved(addr) as u16, val),
                    )
                { b.write(io, addr, val) },
        )
    }

    /// Read-modify-write for bytes shared with firmware. Returns the value read back.
    pub fn update_bits(&self, io: &mut EcIo, addr: Addr, mask: u8, val: u8) -> (result: Result<
        u8,
        Stop<EcError>,
    >)
        requires
            self.rt.addressable(addr),
        ensures
            (final(io)@, result) == batch_run(
                old(io)@,
                |d: EcTalk| update_run(d, self.rt.port, self.rt.resolved(addr) as u16, mask, val),
            ),
    {
        self.with_batch(
            io,
            |b: &EcBatch, io: &mut EcIo| -> (r: Result<u8, Stop<EcError>>)
                requires
                    b.rt.addressable(addr),
                ensures
                    (final(io)@, r) == update_run(
                        old(io)@,
                        b.rt.port,
                        b.rt.resolved(addr) as u16,
                        mask,
                        val,
                    )
                {
                    let current = b.read(io, addr)?;
                    b.write(io, addr, (current & !mask) | (val & mask))?;
                    b.read(io, addr)
                },
        )
    }

    /// Reads the byte at an absolute address.
    pub fn read_abs(&self, io: &mut EcIo, addr: u16) -> (result: Result<u8, Stop<EcError>>)
        ensures
            (final(io)@, result) == read_run(old(io)@, self.rt.port, addr),
    {
        self.with_batch(
            io,
            |b: &EcBatch, io: &mut EcIo| -> (r: Result<u8, Stop<EcError>>)
                ensures
                    (final(io)@, r) == byte_run(old(io)@, b.rt.port, addr)
                { b.read_abs(io, addr) },
        )
    }
}

// ---- What holds of the detection and of groups ----

/// A group that writes nothing still writes nothing with the lock around it.
pub proof fn lemma_batch_is_quiet<T>(d: EcTalk, group: spec_fn(EcTalk) -> EcRun<T>)
    requires
        forall|e: EcTalk| quiet(e, (#[trigger] group(e)).0),
    ensures
        quiet(d, batch_run(d, group).0),
{
    let d1 = done_run(d, EcRequest::Lock).0;
    assert(quiet(d1, group(d1).0));
}

proof fn lemma_read_is_quiet(d: EcTalk, port: u16, addr: u16)
    ensures
        quiet(d, read_run(d, port, addr).0),
{
    lemma_batch_is_quiet(d, |d: EcTalk| byte_run(d, port, addr));
}

proof fn lemma_scan_is_quiet(
    d: EcTalk,
    port: u16,
    candidates: Seq<u16>,
    offset: u16,
    i: int,
    found: Seq<u16>,
)
    requires
        forall|k: int| 0 <= k < found.len() ==> candidates.contains(#[trigger] found[k]),
    ensures
        quiet(d, scan_run(d, port, candidates, offset, i, found).0),
        scan_run(d, port, candidates, offset, i, found).1 matches Ok(windows) ==> forall|k: int|
            0 <= k < windows.len() ==> candidates.contains(#[trigger] windows[k]),
        scan_run(d, port, candidates, offset, i, found).1 matches Err(stop) ==> stop == Stop::<
            EcError,
        >::Suspended,
    decreases candidates.len() - i,
{
    if 0 <= i < candidates.len() {
        let (d1, r) = read_run(d, port, (candidates[i] + offset) as u16);
        lemma_read_is_quiet(d, port, (candidates[i] + offset) as u16);
        match r {
            Err(Stop::Suspended) => {},
            Err(Stop::Failed(_)) => {
                lemma_scan_is_quiet(d1, port, candidates, offset, i + 1, found);
            },
            Ok(value) => {
                let next = if plausible(value) { found.push(candidates[i]) } else { found };
                assert(candidates.contains(candidates[i]));
                lemma_scan_is_quiet(d1, port, candidates, offset, i + 1, next);
            },
        }
    }
}

proof fn lemma_tie_is_quiet(d: EcTalk, port: u16, windows: Seq<u16>, offset: u16, i: int)
    ensures
        quiet(d, tie_run(d, port, windows, offset, i).0),
        tie_run(d, port, windows, offset, i).1 matches Ok(Some(window)) ==> windows.contains(
            window,
        ),
        tie_run(d, port, windows, offset, i).1 matches Err(stop) ==> stop == Stop::<
            EcError,
        >::Suspended,
    decreases windows.len() - i,
{
    if 0 <= i < windows.len() {
        let (d1, r) = read_run(d, port, (windows[i] + offset) as u16);
        lemma_read_is_quiet(d, port, (windows[i] + offset) as u16);
        lemma_tie_is_quiet(d1, port, windows, offset, i + 1);
    }
}

/// The detection of the memory window only reads.
pub proof fn law_detection_only_reads(d: EcTalk, port: u16, profile: BoardProfile)
    ensures
        quiet(d, detect_run(d, port, profile).0),
{
    if let Some(offset) = profile.cpu_offset() {
        let candidates = profile.hram_candidates@;
        lemma_scan_is_quiet(d, port, candidates, offset, 0, Seq::empty());
        let (d1, r) = scan_run(d, port, candidates, offset, 0, Seq::empty());
        if let Ok(found) = r {
            if let Some(rsoc) = profile.rsoc_offset() {
                lemma_tie_is_quiet(d1, port, found, rsoc, 0);
            }
        }
    }
}

/// A detected window is one of the board's candidates.
pub proof fn law_detected_window_is_a_candidate(d: EcTalk, port: u16, profile: BoardProfile)
    ensures
        detect_run(d, port, profile).1 matches Ok(window) ==> profile.hram_candidates@.contains(
            window,
        ),
{
    if let Some(offset) = profile.cpu_offset() {
        let candidates = profile.hram_candidates@;
        lemma_scan_is_quiet(d, port, candidates, offset, 0, Seq::empty());
        let (d1, r) = scan_run(d, port, candidates, offset, 0, Seq::empty());
        if let Ok(found) = r {
            if found.len() > 0 {
                assert(candidates.contains(found[0]));
            }
            if let Some(rsoc) = profile.rsoc_offset() {
                lemma_tie_is_quiet(d1, port, found, rsoc, 0);
                if let Ok(Some(window)) = tie_run(d1, port, found, rsoc, 0).1 {
                    assert(candidates.contains(found[found.index_of(window)]));
                }
            }
        }
    }
}

/// The state of charge only breaks ties: where some window shows a plausible temperature, the
/// detection does not fail, and where only one does, that one is taken without a further read.
pub proof fn law_charge_only_breaks_ties(d: EcTalk, port: u16, profile: BoardProfile)
    requires
        profile.cpu_offset() is Some,
    ensures
        ({
            let (d1, scanned) = scan_run(
                d,
                port,
                profile.hram_candidates@,
                profile.cpu_offset()->0,
                0,
                Seq::empty(),
            );
            scanned matches Ok(found) ==> {
                &&& found.len() > 0 ==> !(detect_run(d, port, profile).1 matches Err(
                    Stop::Failed(_),
                ))
                &&& found.len() == 1 ==> detect_run(d, port, profile) == (
                    d1,
                    Ok::<u16, Stop<EcError>>(found[0]),
                )
                &&& found.len() == 0 ==> detect_run(d, port, profile) == (
                    d1,
                    Err::<u16, Stop<EcError>>(Stop::Failed(EcError::HramNotFound)),
                )
            }
        }),
{
    let offset = profile.cpu_offset()->0;
    let (d1, r) = scan_run(d, port, profile.hram_candidates@, offset, 0, Seq::empty());
    if let Ok(found) = r {
        if let Some(rsoc) = profile.rsoc_offset() {
            lemma_tie_is_quiet(d1, port, found, rsoc, 0);
        }
    }
}

/// A finished group of accesses stands between the taking of the lock and its return, and the
/// lock is returned also when the group failed.
pub proof fn law_a_group_holds_the_lock<T>(d: EcTalk, group: spec_fn(EcTalk) -> EcRun<T>)
    requires
        forall|e: EcTalk| continues(e, (#[trigger] group(e)).0),
    ensures
        ({
            let (end, result) = batch_run(d, group);
            let first = d.asked.len() as int;
            &&& end.asked.len() > first
            &&& end.asked[first] == EcRequest::Lock
            &&& done_run(d, EcRequest::Lock).1 is Ok && !(result matches Err(Stop::Suspended))
                ==> end.asked.len() > first + 1 && end.asked.last() == EcRequest::Unlock
        }),
{
    let (d1, r) = done_run(d, EcRequest::Lock);
    assert(d1.asked[d.asked.len() as int] == EcRequest::Lock);
    assert(continues(d1, group(d1).0));
}

// ---- Accesses and the detection, in replies ----

/// Where a byte is: an absolute address stands for itself; an offset counts from the memory window, or
/// from the beginning of the bank of 0x1000 bytes that the window lies in.
pub proof fn law_addresses_count_from_their_base(rt: EcRuntime, offset: u16)
    ensures
        rt.resolved(Addr::Reg(offset)) == offset,
        rt.resolved(Addr::Ram(offset)) == rt.hram_offset + offset,
        ({
            let bank = rt.resolved(Addr::Banked(offset)) - offset;
            &&& bank % 0x1000 == 0
            &&& bank <= rt.hram_offset < bank + 0x1000
        }),
        forall|addr: Addr| #[trigger] rt.addressable(addr) <==> rt.resolved(addr) < 0x10000,
{
}

/// A group whose lock is not given is not run. One that was run has its own outcome, unless giving
/// the lock back fails.
pub proof fn law_a_group_has_its_own_outcome<T>(d: EcTalk, group: spec_fn(EcTalk) -> EcRun<T>)
    requires
        0 <= d.used < d.replies.len(),
    ensures
        ({
            let locked = EcTalk {
                asked: d.asked.push(EcRequest::Lock),
                replies: d.replies,
                used: d.used + 1,
            };
            let (inner, outcome) = group(locked);
            let (end, result) = batch_run(d, group);
            &&& d.replies[d.used] matches EcReply::Fault(n) ==> end == locked && result == Err::<
                T,
                Stop<EcError>,
            >(Stop::Failed(EcError::Fault(n)))
            &&& d.replies[d.used] == EcReply::Done && outcome == Err::<T, Stop<EcError>>(
                Stop::Suspended,
            ) ==> end == inner && result == outcome
            &&& d.replies[d.used] == EcReply::Done && outcome != Err::<T, Stop<EcError>>(
                Stop::Suspended,
            ) ==> {
                &&& end.asked == inner.asked.push(EcRequest::Unlock)
                &&& inner.used >= inner.replies.len() ==> result == Err::<T, Stop<EcError>>(
                    Stop::Suspended,
                )
                &&& inner.used < inner.replies.len() ==> {
                    &&& inner.replies[inner.used] == EcReply::Done ==> result == outcome
                    &&& inner.replies[inner.used] matches EcReply::Fault(n) ==> result == Err::<
                        T,
                        Stop<EcError>,
                    >(Stop::Failed(EcError::Fault(n)))
                }
            }
        }),
{
}

/// A single read under the lock, in its replies.
pub proof fn law_a_read_under_the_lock(d: EcTalk, port: u16, addr: u16)
    requires
        0 <= d.used,
        d.used + 3 <= d.replies.len(),
        d.replies[d.used] == EcReply::Done,
        d.replies[d.used + 2] == EcReply::Done,
    ensures
        read_run(d, port, addr).0 == (EcTalk {
            asked: d.asked + seq![
                EcRequest::Lock,
                EcRequest::ReadByte(port, addr),
                EcRequest::Unlock,
            ],
            replies: d.replies,
            used: d.used + 3,
        }),
        d.replies[d.used + 1] matches EcReply::Byte(b) ==> read_run(d, port, addr).1 == Ok::<
            u8,
            Stop<EcError>,
        >(b),
        d.replies[d.used + 1] matches EcReply::Fault(n) ==> read_run(d, port, addr).1 == Err::<
            u8,
            Stop<EcError>,
        >(Stop::Failed(EcError::Fault(n))),
{
    let end = read_run(d, port, addr).0;
    assert(end.asked =~= d.asked + seq![
        EcRequest::Lock,
        EcRequest::ReadByte(port, addr),
        EcRequest::Unlock,
    ]);
}

/// A single write under the lock, in its replies.
pub proof fn law_a_write_under_the_lock(d: EcTalk, port: u16, addr: u16, val: u8)
    requires
        0 <= d.used,
        d.used + 3 <= d.replies.len(),
        d.replies[d.used] == EcReply::Done,
        d.replies[d.used + 2] == EcReply::Done,
    ensures
        write_run(d, port, addr, val).0 == (EcTalk {
            asked: d.asked + seq![
                EcRequest::Lock,
                EcRequest::WriteByte(port, addr, val),
                EcRequest::Unlock,
            ],
            replies: d.replies,
            used: d.used + 3,
        }),
        d.replies[d.used + 1] == EcReply::Done ==> write_run(d, port, addr, val).1 is Ok,
        d.replies[d.used + 1] matches EcReply::Fault(n) ==> write_run(d, port, addr, val).1 == Err::<
            (),
            Stop<EcError>,
        >(Stop::Failed(EcError::Fault(n))),
{
    let end = write_run(d, port, addr, val).0;
    assert(end.asked =~= d.asked + seq![
        EcRequest::Lock,
        EcRequest::WriteByte(port, addr, val),
        EcRequest::Unlock,
    ]);
}

/// Replacing bits: the byte that is written has the bits of the mask as they were asked for and the
/// others as they were read, and the byte that is read back is returned.
pub proof fn law_an_update_in_full(
    d: EcTalk,
    port: u16,
    addr: u16,
    mask: u8,
    val: u8,
    current: u8,
    back: u8,
)
    requires
        0 <= d.used,
        d.used + 3 <= d.replies.len(),
        d.replies[d.used] == EcReply::Byte(current),
        d.replies[d.used + 1] == EcReply::Done,
        d.replies[d.used + 2] == EcReply::Byte(back),
    ensures
        ({
            let (end, result) = update_run(d, port, addr, mask, val);
            let first = d.asked.len() as int;
            &&& result == Ok::<u8, Stop<EcError>>(back)
            &&& end.asked.len() == first + 3
            &&& end.asked[first] == EcRequest::ReadByte(port, addr)
            &&& end.asked[first + 1] matches EcRequest::WriteByte(to, at, byte) && to == port && at
                == addr && byte & mask == val & mask && byte & !mask == current & !mask
            &&& end.asked[first + 2] == EcRequest::ReadByte(port, addr)
        }),
{
    law_update_touches_only_the_mask(current, mask, val);
}

/// Writes that all succeed are all made, in their order; a failure ends them and is reported.
pub proof fn law_writes_up_to_a_failure(
    d: EcTalk,
    port: u16,
    list: Seq<(u16, u8)>,
    i: int,
    good: int,
)
    requires
        0 <= i <= i + good <= list.len(),
        0 <= d.used,
        d.used + good <= d.replies.len(),
        forall|k: int| d.used <= k < d.used + good ==> d.replies[k] == EcReply::Done,
        i + good < list.len() ==> d.used + good < d.replies.len() && d.replies[d.used
            + good] is Fault,
    ensures
        ({
            let (end, result) = writes_run(d, port, list, i);
            let made = if i + good < list.len() { good + 1 } else { good };
            &&& end.asked == d.asked + Seq::new(
                made as nat,
                |k: int| EcRequest::WriteByte(port, list[i + k].0, list[i + k].1),
            )
            &&& end.used == d.used + made
            &&& end.replies == d.replies
            &&& i + good == list.len() ==> result is Ok
            &&& i + good < list.len() ==> result == Err::<(), Stop<EcError>>(
                Stop::Failed(EcError::Fault(d.replies[d.used + good]->Fault_0)),
            )
        }),
    decreases good,
{
    let (end, result) = writes_run(d, port, list, i);
    let made = if i + good < list.len() { good + 1 } else { good };
    let asked = Seq::new(
        made as nat,
        |k: int| EcRequest::WriteByte(port, list[i + k].0, list[i + k].1),
    );
    if good > 0 {
        let next = done_run(d, EcRequest::WriteByte(port, list[i].0, list[i].1)).0;
        law_writes_up_to_a_failure(next, port, list, i + 1, good - 1);
        assert(end.asked =~= d.asked + asked);
    } else {
        assert(end.asked =~= d.asked + asked);
    }
}

/// A credible temperature is one from 17 to 110 degrees.
pub proof fn law_credible_temperatures(value: u8)
    ensures
        plausible(value) <==> 17 <= value <= 110,
{
}

/// The sensor at `at` is the first one from `from` on that has the role `role`.
pub open spec fn first_with(sensors: Seq<Sensor>, role: SensorRole, from: int, at: int) -> bool {
    &&& from <= at < sensors.len()
    &&& sensors[at].role == role
    &&& forall|j: int| from <= j < at ==> (#[trigger] sensors[j]).role != role
}

/// The sensor of a role is the first one that has it.
pub proof fn law_the_first_sensor_counts(sensors: Seq<Sensor>, role: SensorRole, i: int)
    requires
        0 <= i <= sensors.len(),
    ensures
        forall|at: int| #[trigger]
            first_with(sensors, role, i, at) ==> sensor_from(sensors, role, i) == Some(sensors[at]),
        sensor_from(sensors, role, i) is None <==> (forall|j: int|
            i <= j < sensors.len() ==> (#[trigger] sensors[j]).role != role),
    decreases sensors.len() - i,
{
    if i < sensors.len() {
        if sensors[i].role == role {
            assert forall|at: int| #[trigger] first_with(sensors, role, i, at) implies sensor_from(
                sensors,
                role,
                i,
            ) == Some(sensors[at]) by {
                if at > i {
                    assert(sensors[i].role != role);
                }
            }
        } else {
            law_the_first_sensor_counts(sensors, role, i + 1);
            assert forall|at: int| #[trigger] first_with(sensors, role, i, at) implies sensor_from(
                sensors,
                role,
                i,
            ) == Some(sensors[at]) by {
                assert(first_with(sensors, role, i + 1, at));
            }
            assert(sensor_from(sensors, role, i) == sensor_from(sensors, role, i + 1));
            if forall|j: int| i + 1 <= j < sensors.len() ==> (#[trigger] sensors[j]).role != role {
                assert forall|j: int| i <= j < sensors.len() implies (#[trigger] sensors[j]).role
                    != role by {}
            }
        }
    }
}

/// The temperature that the detection looks at is the first CPU sensor's, if that lies in the memory
/// window, and the charge the battery's, if that does.
pub proof fn law_the_detection_looks_at(profile: BoardProfile, at: int)
    requires
        0 <= at < profile.sensors@.len(),
        profile.sensors@[at].role is Cpu,
        forall|j: int| 0 <= j < at ==> !((#[trigger] profile.sensors@[j]).role is Cpu),
    ensures
        profile.sensors@[at].addr matches Addr::Ram(offset) ==> profile.cpu_offset() == Some(
            offset,
        ),
        !(profile.sensors@[at].addr is Ram) ==> profile.cpu_offset() is None,
        profile.battery matches Some(battery) ==> (battery.rsoc matches Addr::Ram(offset)
            ==> profile.rsoc_offset() == Some(offset)) && (!(battery.rsoc is Ram)
            ==> profile.rsoc_offset() is None),
        profile.battery is None ==> profile.rsoc_offset() is None,
{
    law_the_first_sensor_counts(profile.sensors@, SensorRole::Cpu, 0);
    assert(first_with(profile.sensors@, SensorRole::Cpu, 0, at));
}

/// The windows from the `i`-th on whose byte is a credible temperature.
pub open spec fn credible(candidates: Seq<u16>, bytes: Seq<u8>, i: int) -> Seq<u16>
    decreases candidates.len() - i,
{
    if i < 0 || i >= candidates.len() {
        Seq::empty()
    } else if 17 <= bytes[i] <= 110 {
        seq![candidates[i]] + credible(candidates, bytes, i + 1)
    } else {
        credible(candidates, bytes, i + 1)
    }
}

/// The replies to a single read, from `at` on, show `byte`.
pub open spec fn read_shows(replies: Seq<EcReply>, at: int, byte: u8) -> bool {
    replies[at] == EcReply::Done && replies[at + 1] == EcReply::Byte(byte) && replies[at + 2]
        == EcReply::Done
}

/// From `at` on, the replies are those of single reads that show `bytes` from the `i`-th on.
pub open spec fn reads_show(replies: Seq<EcReply>, at: int, bytes: Seq<u8>, i: int) -> bool
    decreases bytes.len() - i,
{
    if i < 0 || i >= bytes.len() {
        0 <= at <= replies.len()
    } else {
        &&& 0 <= at
        &&& at + 3 <= replies.len()
        &&& read_shows(replies, at, bytes[i])
        &&& reads_show(replies, at + 3, bytes, i + 1)
    }
}

/// The scan finds the windows that show a credible temperature, all of them, in their order.
pub proof fn law_the_scan_finds_credible_windows(
    d: EcTalk,
    port: u16,
    candidates: Seq<u16>,
    offset: u16,
    i: int,
    found: Seq<u16>,
    bytes: Seq<u8>,
)
    requires
        0 <= i <= candidates.len(),
        bytes.len() == candidates.len(),
        reads_show(d.replies, d.used, bytes, i),
    ensures
        ({
            let (end, result) = scan_run(d, port, candidates, offset, i, found);
            &&& result == Ok::<Seq<u16>, Stop<EcError>>(found + credible(candidates, bytes, i))
            &&& end.replies == d.replies
            &&& end.used == d.used + 3 * (candidates.len() - i)
        }),
    decreases candidates.len() - i,
{
    if i < candidates.len() {
        let addr = (candidates[i] + offset) as u16;
        law_a_read_under_the_lock(d, port, addr);
        let next = read_run(d, port, addr).0;
        let more = if 17 <= bytes[i] <= 110 { found.push(candidates[i]) } else { found };
        law_the_scan_finds_credible_windows(next, port, candidates, offset, i + 1, more, bytes);
        assert(found + credible(candidates, bytes, i) =~= more + credible(
            candidates,
            bytes,
            i + 1,
        ));
    } else {
        assert(found + credible(candidates, bytes, i) =~= found);
    }
}

/// A window that cannot be read is passed over, in the scan and among the windows with a tie.
pub proof fn law_an_unreadable_window_is_passed_over(
    d: EcTalk,
    port: u16,
    windows: Seq<u16>,
    offset: u16,
    i: int,
    found: Seq<u16>,
)
    requires
        0 <= i < windows.len(),
        0 <= d.used,
        d.used + 3 <= d.replies.len(),
        d.replies[d.used] == EcReply::Done,
        d.replies[d.used + 1] is Fault,
        d.replies[d.used + 2] == EcReply::Done,
    ensures
        ({
            let passed = EcTalk {
                asked: d.asked + seq![
                    EcRequest::Lock,
                    EcRequest::ReadByte(port, (windows[i] + offset) as u16),
                    EcRequest::Unlock,
                ],
                replies: d.replies,
                used: d.used + 3,
            };
            &&& scan_run(d, port, windows, offset, i, found) == scan_run(
                passed,
                port,
                windows,
                offset,
                i + 1,
                found,
            )
            &&& tie_run(d, port, windows, offset, i) == tie_run(
                passed,
                port,
                windows,
                offset,
                i + 1,
            )
        }),
{
    law_a_read_under_the_lock(d, port, (windows[i] + offset) as u16);
}

/// Of several credible windows the first one with a charge of at most 100 percent is taken, and the
/// first one where none has.
pub proof fn law_the_first_credible_charge_counts(
    d: EcTalk,
    port: u16,
    windows: Seq<u16>,
    offset: u16,
    i: int,
    charges: Seq<u8>,
)
    requires
        0 <= i <= windows.len(),
        charges.len() == windows.len(),
        reads_show(d.replies, d.used, charges, i),
    ensures
        match tie_run(d, port, windows, offset, i).1 {
            Ok(Some(window)) => exists|at: int|
                i <= at < windows.len() && window == #[trigger] windows[at] && charges[at] <= 100 && (
                forall|j: int| i <= j < at ==> #[trigger] charges[j] > 100),
            Ok(None) => forall|j: int| i <= j < windows.len() ==> #[trigger] charges[j] > 100,
            Err(_) => false,
        },
    decreases windows.len() - i,
{
    if i < windows.len() {
        let addr = (windows[i] + offset) as u16;
        law_a_read_under_the_lock(d, port, addr);
        let next = read_run(d, port, addr).0;
        if charges[i] <= 100 {
            assert(windows[i] == windows[i]);
        } else {
            law_the_first_credible_charge_counts(next, port, windows, offset, i + 1, charges);
            if let Ok(Some(window)) = tie_run(next, port, windows, offset, i + 1).1 {
                let at = choose|at: int|
                    i + 1 <= at < windows.len() && window == #[trigger] windows[at] && charges[at]
                        <= 100 && (forall|j: int| i + 1 <= j < at ==> #[trigger] charges[j] > 100);
                assert(windows[at] == window);
            }
        }
    }
}

/// The whole detection on a board whose windows can all be read: without a credible window it fails;
/// one credible window is taken without another look; and of several the charge decides.
pub proof fn law_the_detection_in_full(
    d: EcTalk,
    port: u16,
    profile: BoardProfile,
    bytes: Seq<u8>,
    charges: Seq<u8>,
)
    requires
        profile.cpu_offset() is Some,
        bytes.len() == profile.hram_candidates@.len(),
        reads_show(d.replies, d.used, bytes, 0),
        charges.len() == credible(profile.hram_candidates@, bytes, 0).len(),
        charges.len() > 1 && profile.rsoc_offset() is Some ==> reads_show(
            d.replies,
            d.used + 3 * bytes.len(),
            charges,
            0,
        ),
    ensures
        ({
            let windows = credible(profile.hram_candidates@, bytes, 0);
            let (end, result) = detect_run(d, port, profile);
            &&& windows.len() == 0 ==> result == Err::<u16, Stop<EcError>>(
                Stop::Failed(EcError::HramNotFound),
            )
            &&& windows.len() == 1 || windows.len() > 1 && profile.rsoc_offset() is None ==> result
                == Ok::<u16, Stop<EcError>>(windows[0]) && end.used == d.used + 3 * bytes.len()
            &&& windows.len() > 1 && profile.rsoc_offset() is Some ==> {
                ||| exists|at: int|
                    0 <= at < windows.len() && result == Ok::<u16, Stop<EcError>>(
                        #[trigger] windows[at],
                    ) && charges[at] <= 100 && (forall|j: int|
                        0 <= j < at ==> #[trigger] charges[j] > 100)
                ||| (forall|j: int| 0 <= j < windows.len() ==> #[trigger] charges[j] > 100)
                    && result == Ok::<u16, Stop<EcError>>(windows[0])
            }
        }),
{
    let offset = profile.cpu_offset()->0;
    let candidates = profile.hram_candidates@;
    law_the_scan_finds_credible_windows(d, port, candidates, offset, 0, Seq::empty(), bytes);
    let windows = credible(candidates, bytes, 0);
    assert(Seq::<u16>::empty() + windows =~= windows);
    let scanned = scan_run(d, port, candidates, offset, 0, Seq::empty()).0;
    if windows.len() > 1 && profile.rsoc_offset() is Some {
        let rsoc = profile.rsoc_offset()->0;
        law_the_first_credible_charge_counts(scanned, port, windows, rsoc, 0, charges);
        if let Ok(Some(window)) = tie_run(scanned, port, windows, rsoc, 0).1 {
            let at = choose|at: int|
                0 <= at < windows.len() && window == #[trigger] windows[at] && charges[at] <= 100
                    && (forall|j: int| 0 <= j < at ==> #[trigger] charges[j] > 100);
            assert(detect_run(d, port, profile).1 == Ok::<u16, Stop<EcError>>(windows[at]));
        }
    }
}

/// A board without a CPU sensor in the memory window is not searched.
pub proof fn law_no_detection_without_a_sensor(d: EcTalk, port: u16, profile: BoardProfile)
    requires
        forall|j: int|
            0 <= j < profile.sensors@.len() ==> !((#[trigger] profile.sensors@[j]).role is Cpu),
    ensures
        detect_run(d, port, profile) == (
            d,
            Err::<u16, Stop<EcError>>(Stop::Failed(EcError::NoRamSensor)),
        ),
{
    law_the_first_sensor_counts(profile.sensors@, SensorRole::Cpu, 0);
}

/// A board that is taken into use: the ports are opened, the chip is looked for as it was asked, and
/// the window is searched on the port of that chip. What is known of the controller then is just that.
pub proof fn law_a_board_is_taken_into_use(
    d: EcTalk,
    profile: BoardProfile,
    insecure: bool,
    port: u16,
    id1: u8,
    id2: u8,
    ver: u8,
)
    requires
        0 <= d.used,
        d.used + 2 <= d.replies.len(),
        d.replies[d.used] == EcReply::Done,
        d.replies[d.used + 1] == (EcReply::Chip { port, id1, id2, ver }),
    ensures
        ({
            let found = EcTalk {
                asked: d.asked.push(EcRequest::OpenPorts).push(EcRequest::ProbeChip(insecure)),
                replies: d.replies,
                used: d.used + 2,
            };
            let (end, window) = detect_run(found, port, profile);
            let run = start_run(d, profile, insecure);
            &&& run.0 == end
            &&& match window {
                Ok(at) => run.1 matches Ok(rt) && rt.port == port && rt.hram_offset == at
                    && rt.chip_id1 == id1 && rt.chip_id2 == id2 && rt.chip_ver == ver,
                Err(stop) => run.1 == Err::<EcRuntime, Stop<EcError>>(stop),
            }
        }),
{
}

/// A board without a profile is not touched, and one with a profile is taken into use with it.
pub proof fn law_only_boards_with_a_profile_are_used(
    d: EcTalk,
    detected: Option<&BoardProfile>,
    insecure: bool,
)
    ensures
        detected is None ==> new_run(d, detected, insecure) == (
            d,
            Err::<EcRuntime, Stop<EcError>>(Stop::Failed(EcError::UnsupportedBoard)),
        ),
        detected matches Some(profile) ==> new_run(d, detected, insecure) == start_run(
            d,
            *profile,
            insecure,
        ),
{
}

/// Where a board cannot be taken into use: ports that do not open and a chip that is not found end it,
/// and nothing is searched then.
pub proof fn law_a_board_may_not_be_usable(d: EcTalk, profile: BoardProfile, insecure: bool)
    requires
        0 <= d.used,
        d.used + 2 <= d.replies.len(),
    ensures
        d.replies[d.used] matches EcReply::Fault(n) ==> start_run(d, profile, insecure).1 == Err::<
            EcRuntime,
            Stop<EcError>,
        >(Stop::Failed(EcError::Fault(n))) && start_run(d, profile, insecure).0.asked
            == d.asked.push(EcRequest::OpenPorts),
        d.replies[d.used] == EcReply::Done && d.replies[d.used + 1] is Fault ==> start_run(
            d,
            profile,
            insecure,
        ).1 == Err::<EcRuntime, Stop<EcError>>(Stop::Failed(EcError::ChipNotFound)) && start_run(
            d,
            profile,
            insecure,
        ).0.asked == d.asked.push(EcRequest::OpenPorts).push(EcRequest::ProbeChip(insecure)),
{
}

/// Where the detection looks for the state of charge: in a tie it looks where the battery keeps it in
/// the memory window, and with one candidate it does not look.
pub proof fn law_a_tie_is_broken_by_the_charge(profile: BoardProfile, battery: Battery, offset: u16)
    requires
        profile.battery == Some(battery),
        battery.rsoc == Addr::Ram(offset),
    ensures
        profile.hram_candidates@.len() > 1 ==> profile.tie_offset() == Some(offset),
        profile.hram_candidates@.len() <= 1 ==> profile.tie_offset() is None,
{
}

/// Windows fit exactly if every byte that the detection looks at has an address: the temperature in
/// every candidate, and the state of charge too where there are several.
pub proof fn law_which_windows_fit(profile: BoardProfile)
    ensures
        profile.windows_fit() <==> {
            &&& forall|i: int|
                0 <= i < profile.hram_candidates@.len() && profile.cpu_offset() is Some
                    ==> #[trigger] profile.hram_candidates@[i] + profile.cpu_offset()->0 < 65536
            &&& forall|i: int|
                0 <= i < profile.hram_candidates@.len() && 1 < profile.hram_candidates@.len()
                    && profile.rsoc_offset() is Some ==> #[trigger] profile.hram_candidates@[i]
                    + profile.rsoc_offset()->0 < 65536
        },
        profile.battery is None ==> profile.rsoc_offset() is None,
{
}

} // verus!
