//! What each driver operation puts on the bus, and what it makes of the
//! replies.
//!
//! An operation is a fixed sequence of [`Request`]s, given by its
//! `*_requests` function. An [`Operation`] hands them out in order, collects
//! one [`Reply`] per request and stops at the first request that the bus
//! fails. The matching `*_result` function turns the replies into the value
//! that the operation returns. Whoever owns the bus carries each request out.

use vstd::prelude::*;

use crate::constants::{
    ENS160_COMMAND, ENS160_CONFIG, ENS160_DATA_AQI, ENS160_DATA_ECO2, ENS160_DATA_ETOH,
    ENS160_DATA_RH, ENS160_DATA_T, ENS160_DATA_TVOC, ENS160_DEVICE_STATUS, ENS160_GPR_READ,
    ENS160_GRP_READ6, ENS160_OPMODE, ENS160_PART_ID, ENS160_RH_IN, ENS160_TEMP_IN,
};
use crate::data::{
    decode_air_quality_index, decode_status, decode_u16_le, encode_u16_le, u16_le,
    AirQualityIndex, ENS160Command, Measurements, OperationMode, Status, ECO2,
};
use crate::error::Error;

verus! {

/// Pause after a write to the operating mode register, in milliseconds. The
/// device needs the time to settle before the register reads back right.
pub const OPMODE_SETTLE_MS: u32 = 50;

/// Most bytes that one read asks for.
pub const MAX_READ_LEN: usize = 8;

/// One thing that the driver asks of the bus or of the timer.
#[derive(Debug, Clone, Copy, PartialEq, Eq, Structural)]
pub enum Request {
    /// Write the register address and one data byte in a single bus write.
    Write { register: u8, value: u8 },
    /// Write the register address and a 16-bit value, low byte first, in a
    /// single bus write.
    WriteWord { register: u8, word: u16 },
    /// Write the register address, then read `len` bytes back within the same
    /// bus transaction.
    Read { register: u8, len: usize },
    /// Wait for at least `ms` milliseconds.
    Delay { ms: u32 },
}

/// What came back for one request. A read fills the first `len` bytes; for
/// the other requests the content means nothing.
pub type Reply = [u8; 8];

impl Request {
    /// A read asks for at least one byte and for no more than a reply holds.
    pub open spec fn wf(self) -> bool {
        self matches Request::Read { len, .. } ==> 1 <= len <= MAX_READ_LEN
    }

    /// The bytes that the request sends to the device: for a write the
    /// register address and the data, for a read the register address, for a
    /// pause nothing.
    pub open spec fn bytes_sent(self) -> Seq<u8> {
        match self {
            Request::Write { register, value } => seq![register, value],
            Request::WriteWord { register, word } => seq![
                register,
                (word as int % 256) as u8,
                (word as int / 256) as u8,
            ],
            Request::Read { register, .. } => seq![register],
            Request::Delay { .. } => Seq::empty(),
        }
    }

    /// The number of bytes that the request reads back.
    pub open spec fn bytes_expected(self) -> int {
        match self {
            Request::Read { len, .. } => len as int,
            _ => 0,
        }
    }

    /// The bytes to send, as the first `count` bytes of `buffer`.
    pub fn frame(&self) -> (framed: ([u8; 3], usize))
        ensures
            framed.1 <= 3,
            framed.0@.take(framed.1 as int) == self.bytes_sent(),
    {
        let framed: ([u8; 3], usize) = match *self {
            Request::Write { register, value } => ([register, value, 0], 2),
            Request::WriteWord { register, word } => {
                let bytes = encode_u16_le(word);
                ([register, bytes[0], bytes[1]], 3)
            },
            Request::Read { register, .. } => ([register, 0, 0], 1),
            Request::Delay { .. } => ([0, 0, 0], 0),
        };
        assert(framed.0@.take(framed.1 as int) =~= self.bytes_sent());
        framed
    }
}

/// Whether every request of a sequence is well formed.
pub open spec fn all_wf(requests: Seq<Request>) -> bool {
    forall|i: int| 0 <= i < requests.len() ==> (#[trigger] requests[i]).wf()
}

/// The 16-bit value in the first two bytes of a reply, low byte first.
pub open spec fn reply_word(reply: Reply) -> u16 {
    u16_le(reply[0], reply[1])
}

/// The 16-bit value in the first two bytes of a reply, low byte first.
fn word_of(reply: &Reply) -> (value: u16)
    ensures
        value == reply_word(*reply),
{
    decode_u16_le([reply[0], reply[1]])
}

/// Setting the operating mode: write the mode, let the device settle, read
/// the mode register back.
pub fn set_operation_mode_requests(mode: OperationMode) -> (requests: [Request; 3])
    ensures
        requests@ == seq![
            Request::Write { register: ENS160_OPMODE, value: mode.spec_value() },
            Request::Delay { ms: OPMODE_SETTLE_MS },
            Request::Read { register: ENS160_OPMODE, len: 1 },
        ],
        all_wf(requests@),
{
    [
        Request::Write { register: ENS160_OPMODE, value: mode.value() },
        Request::Delay { ms: OPMODE_SETTLE_MS },
        Request::Read { register: ENS160_OPMODE, len: 1 },
    ]
}

/// The mode that the device reports after a mode was set, if the byte read
/// back stands for a mode. It is for the caller to compare it with the mode
/// that was asked for.
pub fn set_operation_mode_result(replies: &[Reply; 3]) -> (observed: Option<OperationMode>)
    ensures
        observed is Some <==> OperationMode::spec_is_mode(replies[2][0]),
        observed matches Some(mode) ==> mode.spec_value() == replies[2][0],
{
    OperationMode::checked_from(replies[2][0])
}

/// Reading the part identification: two bytes from the part ID register.
pub fn get_part_id_requests() -> (requests: [Request; 1])
    ensures
        requests@ == seq![Request::Read { register: ENS160_PART_ID, len: 2 }],
        all_wf(requests@),
{
    [Request::Read { register: ENS160_PART_ID, len: 2 }]
}

/// The part identification, little-endian. An ENS160 reports `0x0160`.
pub fn get_part_id_result(replies: &[Reply; 1]) -> (part_id: u16)
    ensures
        part_id == reply_word(replies[0]),
{
    word_of(&replies[0])
}

/// Reading the firmware version: the command that asks for it, then the eight
/// general purpose read registers.
pub fn get_firmware_version_requests() -> (requests: [Request; 2])
    ensures
        requests@ == seq![
            Request::Write {
                register: ENS160_COMMAND,
                value: ENS160Command::GetAppVersion.spec_value(),
            },
            Request::Read { register: ENS160_GPR_READ, len: 8 },
        ],
        all_wf(requests@),
{
    [
        Request::Write { register: ENS160_COMMAND, value: ENS160Command::GetAppVersion.value() },
        Request::Read { register: ENS160_GPR_READ, len: 8 },
    ]
}

/// The firmware version as major, minor and build number: bytes 4, 5 and 6 of
/// the general purpose read registers.
pub fn get_firmware_version_result(replies: &[Reply; 2]) -> (version: (u8, u8, u8))
    ensures
        version.0 == replies[1][4],
        version.1 == replies[1][5],
        version.2 == replies[1][6],
{
    (replies[1][4], replies[1][5], replies[1][6])
}

/// Clearing the general purpose read registers: a no-operation command, then
/// the clear command, in this order.
pub fn clear_command_requests() -> (requests: [Request; 2])
    ensures
        requests@ == seq![
            Request::Write { register: ENS160_COMMAND, value: ENS160Command::Nop.spec_value() },
            Request::Write {
                register: ENS160_COMMAND,
                value: ENS160Command::ClearGPR.spec_value(),
            },
        ],
        all_wf(requests@),
{
    [
        Request::Write { register: ENS160_COMMAND, value: ENS160Command::Nop.value() },
        Request::Write { register: ENS160_COMMAND, value: ENS160Command::ClearGPR.value() },
    ]
}

/// Reading the equivalent carbon dioxide concentration.
pub fn get_eco2_requests() -> (requests: [Request; 1])
    ensures
        requests@ == seq![Request::Read { register: ENS160_DATA_ECO2, len: 2 }],
        all_wf(requests@),
{
    [Request::Read { register: ENS160_DATA_ECO2, len: 2 }]
}

/// The equivalent carbon dioxide concentration in ppm.
pub fn get_eco2_result(replies: &[Reply; 1]) -> (eco2: ECO2)
    ensures
        eco2.value == reply_word(replies[0]),
{
    ECO2::from(word_of(&replies[0]))
}

/// Reading the concentration of total volatile organic compounds.
pub fn get_tvoc_requests() -> (requests: [Request; 1])
    ensures
        requests@ == seq![Request::Read { register: ENS160_DATA_TVOC, len: 2 }],
        all_wf(requests@),
{
    [Request::Read { register: ENS160_DATA_TVOC, len: 2 }]
}

/// The concentration of total volatile organic compounds in ppb.
pub fn get_tvoc_result(replies: &[Reply; 1]) -> (tvoc: u16)
    ensures
        tvoc == reply_word(replies[0]),
{
    word_of(&replies[0])
}

/// Reading the air quality index.
pub fn get_airquality_index_requests() -> (requests: [Request; 1])
    ensures
        requests@ == seq![Request::Read { register: ENS160_DATA_AQI, len: 1 }],
        all_wf(requests@),
{
    [Request::Read { register: ENS160_DATA_AQI, len: 1 }]
}

/// The air quality index.
pub fn get_airquality_index_result(replies: &[Reply; 1]) -> (aqi: AirQualityIndex)
    ensures
        aqi == AirQualityIndex::decode(replies[0][0]),
{
    decode_air_quality_index(replies[0][0])
}

/// Reading the ethanol concentration.
pub fn get_etoh_requests() -> (requests: [Request; 1])
    ensures
        requests@ == seq![Request::Read { register: ENS160_DATA_ETOH, len: 2 }],
        all_wf(requests@),
{
    [Request::Read { register: ENS160_DATA_ETOH, len: 2 }]
}

/// The ethanol concentration in ppb.
pub fn get_etoh_result(replies: &[Reply; 1]) -> (etoh: u16)
    ensures
        etoh == reply_word(replies[0]),
{
    word_of(&replies[0])
}

/// Reading the raw resistance of the hot plate.
pub fn get_raw_resistance_requests() -> (requests: [Request; 1])
    ensures
        requests@ == seq![Request::Read { register: ENS160_GRP_READ6, len: 2 }],
        all_wf(requests@),
{
    [Request::Read { register: ENS160_GRP_READ6, len: 2 }]
}

/// The raw resistance as the device encodes it: a value `r` stands for two to
/// the power of `r / 2048` ohms.
pub fn get_raw_resistance_result(replies: &[Reply; 1]) -> (raw: u16)
    ensures
        raw == reply_word(replies[0]),
{
    word_of(&replies[0])
}

/// Reading the device status.
pub fn get_status_requests() -> (requests: [Request; 1])
    ensures
        requests@ == seq![Request::Read { register: ENS160_DEVICE_STATUS, len: 1 }],
        all_wf(requests@),
{
    [Request::Read { register: ENS160_DEVICE_STATUS, len: 1 }]
}

/// The device status.
pub fn get_status_result(replies: &[Reply; 1]) -> (status: Status)
    ensures
        status.0 == replies[0][0],
{
    decode_status(replies[0][0])
}

/// Reading the eight general purpose read registers.
pub fn get_group_data_requests() -> (requests: [Request; 1])
    ensures
        requests@ == seq![Request::Read { register: ENS160_GPR_READ, len: 8 }],
        all_wf(requests@),
{
    [Request::Read { register: ENS160_GPR_READ, len: 8 }]
}

/// The content of the eight general purpose read registers.
pub fn get_group_data_result(replies: &[Reply; 1]) -> (data: [u8; 8])
    ensures
        data == replies[0],
{
    replies[0]
}

/// Setting the compensation values: the temperature in kelvin times 64 to the
/// temperature input register, then the relative humidity to the humidity
/// input register.
///
/// The relative humidity is written as it is given, in percent. Some
/// revisions of the data sheet describe the humidity register as percent
/// times 512; whether the device expects that is an open question, and this
/// function does not scale.
pub fn set_temp_rh_comp_requests(temp_raw: u16, rh_percent: u16) -> (requests: [Request; 2])
    ensures
        requests@ == seq![
            Request::WriteWord { register: ENS160_TEMP_IN, word: temp_raw },
            Request::WriteWord { register: ENS160_RH_IN, word: rh_percent },
        ],
        all_wf(requests@),
{
    [
        Request::WriteWord { register: ENS160_TEMP_IN, word: temp_raw },
        Request::WriteWord { register: ENS160_RH_IN, word: rh_percent },
    ]
}

/// Reading the compensation values back: the temperature register, then the
/// humidity register.
pub fn get_temp_rh_comp_requests() -> (requests: [Request; 2])
    ensures
        requests@ == seq![
            Request::Read { register: ENS160_DATA_T, len: 2 },
            Request::Read { register: ENS160_DATA_RH, len: 2 },
        ],
        all_wf(requests@),
{
    [
        Request::Read { register: ENS160_DATA_T, len: 2 },
        Request::Read { register: ENS160_DATA_RH, len: 2 },
    ]
}

/// The compensation values that the device uses: the temperature in kelvin
/// times 64 and the relative humidity.
pub fn get_temp_rh_comp_result(replies: &[Reply; 2]) -> (values: (u16, u16))
    ensures
        values.0 == reply_word(replies[0]),
        values.1 == reply_word(replies[1]),
{
    (word_of(&replies[0]), word_of(&replies[1]))
}

/// Configuring the interrupt pin: write the configuration, then read the
/// configuration register back.
pub fn config_interrupt_pin_requests(config: u8) -> (requests: [Request; 2])
    ensures
        requests@ == seq![
            Request::Write { register: ENS160_CONFIG, value: config },
            Request::Read { register: ENS160_CONFIG, len: 1 },
        ],
        all_wf(requests@),
{
    [
        Request::Write { register: ENS160_CONFIG, value: config },
        Request::Read { register: ENS160_CONFIG, len: 1 },
    ]
}

/// The content of the configuration register after the write. It equals the
/// value written unless the write failed.
pub fn config_interrupt_pin_result(replies: &[Reply; 2]) -> (observed: u8)
    ensures
        observed == replies[1][0],
{
    replies[1][0]
}

/// Reading all measurements: carbon dioxide, volatile organic compounds, air
/// quality index, ethanol and raw resistance, one register after the other.
pub fn get_measurements_requests() -> (requests: [Request; 5])
    ensures
        requests@ == seq![
            Request::Read { register: ENS160_DATA_ECO2, len: 2 },
            Request::Read { register: ENS160_DATA_TVOC, len: 2 },
            Request::Read { register: ENS160_DATA_AQI, len: 1 },
            Request::Read { register: ENS160_DATA_ETOH, len: 2 },
            Request::Read { register: ENS160_GRP_READ6, len: 2 },
        ],
        all_wf(requests@),
{
    [
        Request::Read { register: ENS160_DATA_ECO2, len: 2 },
        Request::Read { register: ENS160_DATA_TVOC, len: 2 },
        Request::Read { register: ENS160_DATA_AQI, len: 1 },
        Request::Read { register: ENS160_DATA_ETOH, len: 2 },
        Request::Read { register: ENS160_GRP_READ6, len: 2 },
    ]
}

/// The measurements, each field from the reply to its read.
pub fn get_measurements_result(replies: &[Reply; 5]) -> (measurements: Measurements)
    ensures
        measurements.co2eq_ppm.value == reply_word(replies[0]),
        measurements.tvoc_ppb == reply_word(replies[1]),
        measurements.air_quality_index == AirQualityIndex::decode(replies[2][0]),
        measurements.etoh == reply_word(replies[3]),
        measurements.raw_resistance == reply_word(replies[4]),
{
    Measurements {
        co2eq_ppm: ECO2::from(word_of(&replies[0])),
        tvoc_ppb: word_of(&replies[1]),
        air_quality_index: decode_air_quality_index(replies[2][0]),
        etoh: word_of(&replies[3]),
        raw_resistance: word_of(&replies[4]),
    }
}

/// An operation under way: its requests go out one by one, and the replies
/// are collected. The first request that the bus fails ends the operation
/// with the bus error; nothing is retried and no partial result is given.
#[derive(Debug)]
pub struct Operation<const N: usize> {
    /// The requests of the operation.
    requests: [Request; N],
    /// The replies so far, in the places of their requests.
    replies: [Reply; N],
    /// Position of the request that is out.
    position: usize,
}

/// What to do after a reply.
#[derive(Debug)]
pub enum Progress<E, const N: usize> {
    /// Carry out the request, then hand its reply to the operation.
    Continue(Operation<N>, Request),
    /// The operation is over: with the replies to all its requests, or with
    /// the error of the request that the bus failed.
    Finish(Result<[Reply; N], Error<E>>),
}

impl<const N: usize> Operation<N> {
    #[verifier::type_invariant]
    spec fn in_range(&self) -> bool {
        self.position < N
    }

    /// The requests of the operation.
    pub closed spec fn requests(&self) -> Seq<Request> {
        self.requests@
    }

    /// Position of the request that is out.
    pub closed spec fn position(&self) -> int {
        self.position as int
    }

    /// The replies to the requests before the one that is out.
    pub closed spec fn replies(&self) -> Seq<Reply> {
        self.replies@.take(self.position as int)
    }

    /// Begins an operation: its first request goes out. An operation without
    /// requests is over at once.
    pub fn start<E>(requests: [Request; N]) -> (progress: Progress<E, N>)
        ensures
            N == 0 ==> progress matches Progress::Finish(Ok(_)),
            N > 0 ==> (progress matches Progress::Continue(operation, request)
                && operation.requests() == requests@ && operation.position() == 0
                && operation.replies() == Seq::<Reply>::empty() && request == requests[0]),
    {
        let replies: [Reply; N] = [[0u8; 8];N];
        if N == 0 {
            Progress::Finish(Ok(replies))
        } else {
            let first = requests[0];
            let operation = Operation { requests, replies, position: 0 };
            assert(operation.replies() =~= Seq::<Reply>::empty());
            Progress::Continue(operation, first)
        }
    }

    /// Takes the reply to the request that is out, `Err` where the bus failed
    /// it, and decides how the operation goes on.
    pub fn advance<E>(self, reply: Result<Reply, E>) -> (progress: Progress<E, N>)
        ensures
            reply matches Err(e) ==> progress == Progress::<E, N>::Finish(Err(Error::I2c(e))),
            reply matches Ok(data) ==> (if self.position() + 1 == N {
                progress matches Progress::Finish(Ok(replies)) && replies@ == self.replies().push(
                    data,
                )
            } else {
                progress matches Progress::Continue(next, request) && next.requests()
                    == self.requests() && next.position() == self.position() + 1 && next.replies()
                    == self.replies().push(data) && request == self.requests()[self.position() + 1]
            }),
    {
        proof {
            use_type_invariant(&self);
        }
        match reply {
            Err(e) => Progress::Finish(Err(Error::I2c(e))),
            Ok(data) => {
                let ghost before = self;
                let Operation { requests, mut replies, position } = self;
                replies[position] = data;
                assert(replies@.take(position + 1) =~= before.replies().push(data));
                if position + 1 == N {
                    assert(replies@.take(position + 1) =~= replies@);
                    Progress::Finish(Ok(replies))
                } else {
                    let request = requests[position + 1];
                    let next = Operation { requests, replies, position: position + 1 };
                    Progress::Continue(next, request)
                }
            },
        }
    }
}

} // verus!
