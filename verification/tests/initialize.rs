use ens160_aq::data::OperationMode;
use ens160_aq::error::Error;
use ens160_aq::init::{
    initialize_requests, InitState, Initialization, Step, CLEARED_PAUSE_MS, EXPECTED_PART_ID,
    FIRMWARE_READ_PAUSE_MS, ID_VERIFIED_PAUSE_MS, INIT_LEN, PART_ID_POSITION,
    STANDARD_READBACK_POSITION, STANDARD_SET_PAUSE_MS,
};
use ens160_aq::protocol::{
    clear_command_requests, get_firmware_version_requests, get_part_id_requests,
    get_status_requests, set_operation_mode_requests, Reply, Request,
};

const OPMODE: u8 = 0x10;
const COMMAND: u8 = 0x12;
const STATUS: u8 = 0x20;
const PART_ID: u8 = 0x00;
const GPR_READ: u8 = 0x48;

#[derive(Debug, Clone, PartialEq)]
enum BusOp {
    Write(Vec<u8>),
    Read(u8, usize),
}

#[derive(Debug, Clone, Copy, PartialEq)]
struct BusFault(u32);

/// A device on a simulated bus, at register level.
struct Simulated {
    part_id: u16,
    opmode: u8,
    /// What the mode register reads back as, whatever was written.
    stuck_mode: Option<u8>,
    firmware: [u8; 3],
    /// Number, among the bus operations, of the one that the bus fails.
    fail_at: Option<usize>,
    bus: Vec<BusOp>,
    pauses: Vec<(usize, u32)>,
}

impl Simulated {
    fn new(part_id: u16) -> Self {
        Simulated {
            part_id,
            opmode: 0x00,
            stuck_mode: None,
            firmware: [5, 4, 6],
            fail_at: None,
            bus: Vec::new(),
            pauses: Vec::new(),
        }
    }

    fn perform(&mut self, request: Request) -> Result<Reply, BusFault> {
        let (buffer, count) = request.frame();
        let sent = buffer[..count].to_vec();
        let mut reply = [0u8; 8];
        match request {
            Request::Delay { ms } => {
                self.pauses.push((self.bus.len(), ms));
                return Ok(reply);
            }
            Request::Write { .. } | Request::WriteWord { .. } => {
                let number = self.bus.len();
                self.bus.push(BusOp::Write(sent.clone()));
                if self.fail_at == Some(number) {
                    return Err(BusFault(number as u32));
                }
                if sent[0] == OPMODE {
                    self.opmode = sent[1];
                }
            }
            Request::Read { register, len } => {
                assert_eq!(sent, vec![register]);
                let number = self.bus.len();
                self.bus.push(BusOp::Read(register, len));
                if self.fail_at == Some(number) {
                    return Err(BusFault(number as u32));
                }
                match register {
                    PART_ID => reply[..2].copy_from_slice(&self.part_id.to_le_bytes()),
                    OPMODE => reply[0] = self.stuck_mode.unwrap_or(self.opmode),
                    STATUS => reply[0] = 0b1000_0100,
                    GPR_READ => reply[4..7].copy_from_slice(&self.firmware),
                    _ => {}
                }
            }
        }
        Ok(reply)
    }
}

fn initialize(device: &mut Simulated) -> Result<bool, Error<BusFault>> {
    let (mut machine, mut request) = Initialization::start();
    let mut steps = 0;
    loop {
        assert_eq!(machine.request(), request);
        assert_eq!(machine.position(), steps);
        let reply = device.perform(request);
        match machine.advance(reply) {
            Step::Continue(next, next_request) => {
                machine = next;
                request = next_request;
            }
            Step::Finish(result) => return result,
        }
        steps += 1;
        assert!(steps < INIT_LEN);
    }
}

fn full_bus_sequence() -> Vec<BusOp> {
    vec![
        BusOp::Write(vec![OPMODE, 0x01]),
        BusOp::Read(OPMODE, 1),
        BusOp::Read(STATUS, 1),
        BusOp::Read(PART_ID, 2),
        BusOp::Write(vec![COMMAND, 0x00]),
        BusOp::Write(vec![COMMAND, 0xcc]),
        BusOp::Read(STATUS, 1),
        BusOp::Write(vec![COMMAND, 0x0e]),
        BusOp::Read(GPR_READ, 8),
        BusOp::Write(vec![OPMODE, 0x02]),
        BusOp::Read(OPMODE, 1),
        BusOp::Read(STATUS, 1),
        BusOp::Read(OPMODE, 1),
    ]
}

#[test]
fn initialize_succeeds_with_the_documented_bus_sequence() {
    let mut device = Simulated::new(0x0160);
    let result = initialize(&mut device);
    assert!(matches!(result, Ok(true)));
    assert_eq!(device.bus, full_bus_sequence());
    assert_eq!(device.opmode, 0x02);
}

#[test]
fn initialize_succeeds_whatever_the_firmware_version() {
    for firmware in [[0, 0, 0], [5, 4, 6], [255, 255, 255]] {
        let mut device = Simulated::new(0x0160);
        device.firmware = firmware;
        assert!(matches!(initialize(&mut device), Ok(true)));
        assert_eq!(device.bus, full_bus_sequence());
    }
}

#[test]
fn initialize_pauses_where_the_device_needs_time() {
    let mut device = Simulated::new(0x0160);
    assert!(matches!(initialize(&mut device), Ok(true)));
    // Each pause with the number of bus operations before it.
    assert_eq!(
        device.pauses,
        vec![(1, 50), (4, 50), (6, 50), (9, 10), (10, 50), (11, 150)]
    );
    assert_eq!(ID_VERIFIED_PAUSE_MS, 50);
    assert_eq!(CLEARED_PAUSE_MS, 50);
    assert_eq!(FIRMWARE_READ_PAUSE_MS, 10);
    assert_eq!(STANDARD_SET_PAUSE_MS, 150);
}

#[test]
fn initialize_rejects_an_unexpected_part_id() {
    let mut device = Simulated::new(0x0099);
    let result = initialize(&mut device);
    assert!(matches!(result, Err(Error::UnexpectedChipId(0x0099))));
    assert_eq!(device.bus, full_bus_sequence()[..4].to_vec());
    assert_eq!(device.bus.last(), Some(&BusOp::Read(PART_ID, 2)));
    for op in &device.bus {
        if let BusOp::Write(bytes) = op {
            assert_ne!(bytes[0], COMMAND);
        }
    }
    let mode_writes = device
        .bus
        .iter()
        .filter(|op| matches!(op, BusOp::Write(bytes) if bytes[0] == OPMODE))
        .count();
    assert_eq!(mode_writes, 1);
    assert_eq!(device.opmode, 0x01);
}

#[test]
fn initialize_rejects_a_part_id_read_in_the_wrong_byte_order() {
    let mut device = Simulated::new(0x6001);
    assert!(matches!(initialize(&mut device), Err(Error::UnexpectedChipId(0x6001))));
}

#[test]
fn initialize_fails_when_standard_mode_reads_back_as_idle() {
    let mut device = Simulated::new(0x0160);
    device.stuck_mode = Some(0x01);
    let result = initialize(&mut device);
    assert!(matches!(result, Err(Error::OpModeNotCorrect(0x01))));
    assert_eq!(device.bus, full_bus_sequence()[..11].to_vec());
}

#[test]
fn initialize_reports_the_byte_read_back_even_if_it_is_no_mode() {
    let mut device = Simulated::new(0x0160);
    device.stuck_mode = Some(0x07);
    assert!(matches!(initialize(&mut device), Err(Error::OpModeNotCorrect(0x07))));
}

#[test]
fn initialize_does_not_check_the_idle_readback() {
    // The mode register reads back as standard all along, also after idle
    // was asked for.
    let mut device = Simulated::new(0x0160);
    device.stuck_mode = Some(0x02);
    assert!(matches!(initialize(&mut device), Ok(true)));
    assert_eq!(device.bus, full_bus_sequence());
}

#[test]
fn initialize_reports_false_when_the_part_id_read_fails() {
    let mut device = Simulated::new(0x0160);
    device.fail_at = Some(3);
    let result = initialize(&mut device);
    assert!(matches!(result, Ok(false)));
    assert_eq!(device.bus, full_bus_sequence()[..4].to_vec());
}

#[test]
fn initialize_hands_on_every_other_bus_error() {
    for number in 0..13usize {
        if number == 3 {
            continue;
        }
        let mut device = Simulated::new(0x0160);
        device.fail_at = Some(number);
        let result = initialize(&mut device);
        match result {
            Err(Error::I2c(fault)) => assert_eq!(fault, BusFault(number as u32)),
            other => panic!("bus operation {}: {:?}", number, other),
        }
        assert_eq!(device.bus, full_bus_sequence()[..number + 1].to_vec());
    }
}

#[test]
fn initialization_sequence_has_nineteen_requests() {
    let requests = initialize_requests();
    assert_eq!(requests.len(), INIT_LEN);
    assert_eq!(INIT_LEN, 19);
    assert_eq!(EXPECTED_PART_ID, 0x0160);
    assert_eq!(requests[PART_ID_POSITION], Request::Read { register: PART_ID, len: 2 });
    assert_eq!(
        requests[STANDARD_READBACK_POSITION],
        Request::Read { register: OPMODE, len: 1 }
    );
    assert_eq!(
        requests[STANDARD_READBACK_POSITION - 2],
        Request::Write { register: OPMODE, value: 0x02 }
    );
    let (machine, first) = Initialization::start();
    assert_eq!(first, requests[0]);
    assert_eq!(first, Request::Write { register: OPMODE, value: 0x01 });
    assert_eq!(machine.position(), 0);
}

#[test]
fn initialization_follows_its_sequence_request_by_request() {
    let requests = initialize_requests();
    let (mut machine, mut request) = Initialization::start();
    let mut good = [0u8; 8];
    good[0] = 0x60;
    good[1] = 0x01;
    for position in 0..INIT_LEN {
        assert_eq!(request, requests[position]);
        assert_eq!(machine.position(), position);
        let reply: Result<Reply, ()> = if position == STANDARD_READBACK_POSITION {
            Ok([0x02, 0, 0, 0, 0, 0, 0, 0])
        } else {
            Ok(good)
        };
        match machine.advance(reply) {
            Step::Continue(next, next_request) => {
                assert!(position + 1 < INIT_LEN);
                machine = next;
                request = next_request;
            }
            Step::Finish(result) => {
                assert_eq!(position, INIT_LEN - 1);
                assert!(matches!(result, Ok(true)));
                return;
            }
        }
    }
    unreachable!();
}

#[test]
fn initialization_passes_its_milestones_in_order() {
    let mut seen: Vec<InitState> = Vec::new();
    let (mut machine, _) = Initialization::start();
    loop {
        let state = machine.state();
        if seen.last() != Some(&state) {
            seen.push(state);
        }
        let reply: Result<Reply, ()> = if machine.position() == STANDARD_READBACK_POSITION {
            Ok([0x02, 0, 0, 0, 0, 0, 0, 0])
        } else {
            Ok([0x60, 0x01, 0, 0, 0, 0, 0, 0])
        };
        match machine.advance(reply) {
            Step::Continue(next, _) => machine = next,
            Step::Finish(_) => break,
        }
    }
    assert_eq!(
        seen,
        vec![
            InitState::Start,
            InitState::IdleSet,
            InitState::IdVerified,
            InitState::Cleared,
            InitState::FirmwareRead,
            InitState::StandardSet,
        ]
    );
}

#[test]
fn initialization_reaches_each_milestone_at_its_request() {
    let mut states: Vec<InitState> = Vec::new();
    let (mut machine, _) = Initialization::start();
    loop {
        states.push(machine.state());
        let reply: Result<Reply, ()> = if machine.position() == STANDARD_READBACK_POSITION {
            Ok([0x02, 0, 0, 0, 0, 0, 0, 0])
        } else {
            Ok([0x60, 0x01, 0, 0, 0, 0, 0, 0])
        };
        match machine.advance(reply) {
            Step::Continue(next, _) => machine = next,
            Step::Finish(_) => break,
        }
    }
    assert_eq!(states.len(), 19);
    assert_eq!(states[2], InitState::Start);
    assert_eq!(states[3], InitState::IdleSet);
    assert_eq!(states[PART_ID_POSITION], InitState::IdleSet);
    assert_eq!(states[PART_ID_POSITION + 1], InitState::IdVerified);
    assert_eq!(states[9], InitState::IdVerified);
    assert_eq!(states[10], InitState::Cleared);
    assert_eq!(states[12], InitState::FirmwareRead);
    assert_eq!(states[STANDARD_READBACK_POSITION], InitState::FirmwareRead);
    assert_eq!(states[16], InitState::StandardSet);
    assert_eq!(states[18], InitState::StandardSet);
}

#[test]
fn initialization_is_made_of_the_single_operations() {
    let mut expected: Vec<Request> = Vec::new();
    expected.extend(set_operation_mode_requests(OperationMode::Idle));
    expected.extend(get_status_requests());
    expected.extend(get_part_id_requests());
    expected.push(Request::Delay { ms: 50 });
    expected.extend(clear_command_requests());
    expected.push(Request::Delay { ms: 50 });
    expected.extend(get_status_requests());
    expected.extend(get_firmware_version_requests());
    expected.push(Request::Delay { ms: 10 });
    expected.extend(set_operation_mode_requests(OperationMode::Standard));
    expected.push(Request::Delay { ms: 150 });
    expected.extend(get_status_requests());
    expected.push(Request::Read { register: OPMODE, len: 1 });
    assert_eq!(initialize_requests().to_vec(), expected);
}
