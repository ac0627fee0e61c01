use lecoo_control::ec::codes::{BacklightBytes, Codes};
use lecoo_control::ec::device::{BoardProfile, EcDevice, EcOffsets, EcRuntime};
use lecoo_control::ec::driver::{DriverReply, RawPortIo};
use lecoo_control::ec::error::DriverState;
use lecoo_control::ec::io::{EcReply, EcRequest};
use lecoo_control::fixed_map;
use lecoo_control::gui::desktop::{set_startup_enabled, RegistryReply, RegistryRequest};
use lecoo_control::ipc::{Access, IpcServer, WireReply, WireRequest};
use lecoo_control::session::{Session, Stop};
use lecoo_control::types::{FanIndex, FanMode};

fn texts<Q: std::fmt::Debug, A>(io: &Session<Q, A>) -> Vec<String> {
    io.asked().iter().map(|request| format!("{request:?}")).collect()
}

/// Runs an operation on these replies and checks that every run repeats the requests of the one
/// before it. Returns the requests of the last run.
fn repeated<Q: std::fmt::Debug, A, T, E>(
    replies: Vec<A>,
    mut operation: impl FnMut(&mut Session<Q, A>) -> Result<T, Stop<E>>,
) -> Vec<String> {
    let mut io = Session::new();
    let mut before: Vec<String> = Vec::new();
    for (place, reply) in replies.into_iter().enumerate() {
        assert!(matches!(operation(&mut io), Err(Stop::Suspended)), "request {place}");
        let now = texts(&io);
        assert_eq!(now.len(), place + 1);
        assert_eq!(now[..place], before[..]);
        before = now;
        io.answer(reply);
    }
    assert!(operation(&mut io).is_ok());
    assert_eq!(texts(&io), before);
    before
}

#[test]
fn getting_access_to_the_ports_repeats() {
    let done = DriverReply::Done;
    let replies = vec![
        done,
        done,
        DriverReply::State(DriverState::Running),
        done,
        done,
        done,
        done,
        DriverReply::Flag(true),
    ];
    let asked = repeated(replies, |io| RawPortIo::new(io));
    assert_eq!((asked.len(), asked[3].as_str()), (8, "LoadLibrary"));
}

#[test]
fn turning_startup_on_repeats() {
    let replies = vec![
        RegistryReply::Done,
        RegistryReply::Path("c.exe".to_owned()),
        RegistryReply::Done,
    ];
    let asked = repeated(replies, |io| set_startup_enabled(true, io));
    let entry = RegistryRequest::WriteStartup("\"c.exe\" --minimized".to_owned());
    assert_eq!(asked[2], format!("{entry:?}"));
}

#[test]
fn listening_repeats() {
    let asked = repeated(vec![WireReply::Done, WireReply::Done], |io| IpcServer::bind(true, io));
    let text = "D:(A;;GA;;;SY)(A;;GA;;;BA)(A;;GRGW;;;BU)".to_owned();
    assert_eq!(asked[1], format!("{:?}", WireRequest::Listen(Access::Descriptor(text))));
}

#[test]
fn driving_a_fixed_fan_repeats() {
    let board = BoardProfile {
        id: "N155A".to_owned(),
        sensors: vec![],
        battery: None,
        hram_candidates: vec![],
        offsets: EcOffsets {
            ram_thermal_policy_cpu: 0,
            ram_thermal_policy_gpu: 0,
            ram_bat_limit_min: 0,
            ram_bat_limit_max: 0,
            ram_bat_rsoc: 0,
            ram_power_profile: 0,
            n161a_native_charge_hold: false,
        },
    };
    let rt = EcRuntime { port: 0x2E, hram_offset: 0xC400, chip_id1: 0, chip_id2: 0, chip_ver: 0 };
    let ec = EcDevice { profile: &board, rt };
    let backlight = BacklightBytes { off: 0, low: 1, medium: 2, high: 3 };
    let codes = Codes { fan_cpu: 0x5A, fan_gpu: 0x5B, backlight };
    let replies = (0..6).map(|_| EcReply::Done).collect();
    let asked = repeated(replies, |io| {
        fixed_map::set_fan_mode(&ec, io, &codes, &FanIndex::Gpu, &FanMode::Custom(7))
    });
    assert_eq!(asked[1], format!("{:?}", EcRequest::WriteByte(0x2E, 0xC44E, 0x40)));
    assert_eq!(asked[4], format!("{:?}", EcRequest::WriteByte(0x2E, 0xC45B, 7)));
}
