//! The initialization sequence as a state machine.
//!
//! Initialization brings the sensor from power-on to standard gas sensing.
//! It is a fixed sequence of requests with two checks on the way: the part
//! identification must be that of an ENS160, and the device must confirm the
//! standard operating mode. Nothing is retried and every pause is fixed.
//!
//! [`Initialization::start`] gives the first request. After each request
//! [`Initialization::advance`] takes the reply and says whether to go on,
//! and with which request, or how the initialization ended.

use vstd::prelude::*;

use crate::constants::{
    ENS160_COMMAND, ENS160_DEVICE_STATUS, ENS160_GPR_READ, ENS160_OPMODE, ENS160_PART_ID,
};
use crate::data::{ENS160Command, OperationMode};
use crate::error::Error;
use crate::protocol::{
    all_wf, get_part_id_result, reply_word, Reply, Request, OPMODE_SETTLE_MS,
};

verus! {

/// The part identification of an ENS160.
pub const EXPECTED_PART_ID: u16 = 0x0160;

/// Pause after the part identification was verified, in milliseconds.
pub const ID_VERIFIED_PAUSE_MS: u32 = 50;

/// Pause after the general purpose registers were cleared, in milliseconds.
pub const CLEARED_PAUSE_MS: u32 = 50;

/// Pause after the firmware version was read, in milliseconds.
pub const FIRMWARE_READ_PAUSE_MS: u32 = 10;

/// Pause after the standard mode was confirmed, in milliseconds.
pub const STANDARD_SET_PAUSE_MS: u32 = 150;

/// Number of requests in a complete initialization.
pub const INIT_LEN: usize = 19;

/// Position of the read that follows the write of the idle mode.
pub const IDLE_READBACK_POSITION: usize = 2;

/// Position of the read of the part identification.
pub const PART_ID_POSITION: usize = 4;

/// Position of the read of the status after the general purpose registers
/// were cleared.
pub const CLEARED_STATUS_POSITION: usize = 9;

/// Position of the read of the firmware version.
pub const FIRMWARE_VERSION_POSITION: usize = 11;

/// Position of the read that confirms the standard operating mode.
pub const STANDARD_READBACK_POSITION: usize = 15;

/// The requests of a complete initialization, in order.
pub open spec fn init_requests() -> Seq<Request> {
    seq![
        // Set the idle mode and read it back, then look at the status.
        Request::Write { register: ENS160_OPMODE, value: OperationMode::Idle.spec_value() },
        Request::Delay { ms: OPMODE_SETTLE_MS },
        Request::Read { register: ENS160_OPMODE, len: 1 },
        Request::Read { register: ENS160_DEVICE_STATUS, len: 1 },
        // Verify the part identification.
        Request::Read { register: ENS160_PART_ID, len: 2 },
        // Clear the general purpose registers, then look at the status.
        Request::Delay { ms: ID_VERIFIED_PAUSE_MS },
        Request::Write { register: ENS160_COMMAND, value: ENS160Command::Nop.spec_value() },
        Request::Write { register: ENS160_COMMAND, value: ENS160Command::ClearGPR.spec_value() },
        Request::Delay { ms: CLEARED_PAUSE_MS },
        Request::Read { register: ENS160_DEVICE_STATUS, len: 1 },
        // Read the firmware version.
        Request::Write {
            register: ENS160_COMMAND,
            value: ENS160Command::GetAppVersion.spec_value(),
        },
        Request::Read { register: ENS160_GPR_READ, len: 8 },
        // Set the standard mode and have the device confirm it.
        Request::Delay { ms: FIRMWARE_READ_PAUSE_MS },
        Request::Write { register: ENS160_OPMODE, value: OperationMode::Standard.spec_value() },
        Request::Delay { ms: OPMODE_SETTLE_MS },
        Request::Read { register: ENS160_OPMODE, len: 1 },
        // Look at the status and at the mode once more.
        Request::Delay { ms: STANDARD_SET_PAUSE_MS },
        Request::Read { register: ENS160_DEVICE_STATUS, len: 1 },
        Request::Read { register: ENS160_OPMODE, len: 1 },
    ]
}

/// The requests of a complete initialization, in order.
pub fn initialize_requests() -> (requests: [Request; 19])
    ensures
        requests@ == init_requests(),
        all_wf(requests@),
{
    [
        Request::Write { register: ENS160_OPMODE, value: OperationMode::Idle.value() },
        Request::Delay { ms: OPMODE_SETTLE_MS },
        Request::Read { register: ENS160_OPMODE, len: 1 },
        Request::Read { register: ENS160_DEVICE_STATUS, len: 1 },
        Request::Read { register: ENS160_PART_ID, len: 2 },
        Request::Delay { ms: ID_VERIFIED_PAUSE_MS },
        Request::Write { register: ENS160_COMMAND, value: ENS160Command::Nop.value() },
        Request::Write { register: ENS160_COMMAND, value: ENS160Command::ClearGPR.value() },
        Request::Delay { ms: CLEARED_PAUSE_MS },
        Request::Read { register: ENS160_DEVICE_STATUS, len: 1 },
        Request::Write { register: ENS160_COMMAND, value: ENS160Command::GetAppVersion.value() },
        Request::Read { register: ENS160_GPR_READ, len: 8 },
        Request::Delay { ms: FIRMWARE_READ_PAUSE_MS },
        Request::Write { register: ENS160_OPMODE, value: OperationMode::Standard.value() },
        Request::Delay { ms: OPMODE_SETTLE_MS },
        Request::Read { register: ENS160_OPMODE, len: 1 },
        Request::Delay { ms: STANDARD_SET_PAUSE_MS },
        Request::Read { register: ENS160_DEVICE_STATUS, len: 1 },
        Request::Read { register: ENS160_OPMODE, len: 1 },
    ]
}

/// How the initialization ends on the reply to the request at `position`, or
/// `None` where it goes on.
///
/// * The bus fails the read of the part identification: the initialization
///   ends without error and reports `false`. No sensor answered.
/// * The bus fails any other request: the bus error is handed on.
/// * The part identification is not that of an ENS160: `UnexpectedChipId`
///   with the value read.
/// * The mode read back after the standard mode was set is not the standard
///   mode: `OpModeNotCorrect` with the byte read.
/// * The last request is answered: the initialization reports `true`.
pub open spec fn verdict<E>(position: int, reply: Result<Reply, E>) -> Option<
    Result<bool, Error<E>>,
> {
    match reply {
        Err(e) => if position == PART_ID_POSITION {
            Some(Ok(false))
        } else {
            Some(Err(Error::I2c(e)))
        },
        Ok(data) => if position == PART_ID_POSITION && reply_word(data) != EXPECTED_PART_ID {
            Some(Err(Error::UnexpectedChipId(reply_word(data))))
        } else if position == STANDARD_READBACK_POSITION && data[0]
            != OperationMode::Standard.spec_value() {
            Some(Err(Error::OpModeNotCorrect(data[0])))
        } else if position + 1 >= INIT_LEN {
            Some(Ok(true))
        } else {
            None
        },
    }
}

/// An initialization under way: one request is out and its reply is awaited.
#[derive(Debug)]
pub struct Initialization {
    /// Position of the request that is out.
    position: usize,
}

/// What to do after a reply.
#[derive(Debug)]
pub enum Step<E> {
    /// Carry out the request, then hand its reply to the initialization.
    Continue(Initialization, Request),
    /// The initialization is over, with this result.
    Finish(Result<bool, Error<E>>),
}

impl Initialization {
    #[verifier::type_invariant]
    spec fn in_range(&self) -> bool {
        self.position < INIT_LEN
    }

    /// Position, in the sequence of requests, of the request that is out.
    pub closed spec fn spec_position(&self) -> usize {
        self.position
    }

    /// Position, in the sequence of requests, of the request that is out.
    #[verifier::when_used_as_spec(spec_position)]
    pub fn position(&self) -> (position: usize)
        ensures
            position == self.spec_position(),
            position < INIT_LEN,
    {
        proof {
            use_type_invariant(self);
        }
        self.position
    }

    /// Begins an initialization: the first request of the sequence goes out.
    pub fn start() -> (begun: (Initialization, Request))
        ensures
            begun.0.position() == 0,
            begun.1 == init_requests()[0],
    {
        let requests = initialize_requests();
        (Initialization { position: 0 }, requests[0])
    }

    /// The request that is out.
    pub fn request(&self) -> (request: Request)
        ensures
            request == init_requests()[self.position() as int],
            request.wf(),
    {
        proof {
            use_type_invariant(self);
        }
        let requests = initialize_requests();
        requests[self.position]
    }

    /// Takes the reply to the request that is out, `Err` where the bus failed
    /// it, and decides how the initialization goes on.
    pub fn advance<E>(self, reply: Result<Reply, E>) -> (step: Step<E>)
        ensures
            verdict(self.position() as int, reply) matches Some(result) ==> step == Step::Finish(
                result,
            ),
            verdict(self.position() as int, reply) is None ==> (step matches Step::Continue(
                next,
                request,
            ) && next.position() == self.position() + 1 && request == init_requests()[self.position()
                + 1] && request.wf()),
    {
        proof {
            use_type_invariant(&self);
        }
        let position = self.position;
        match reply {
            Err(e) => {
                if position == PART_ID_POSITION {
                    Step::Finish(Ok(false))
                } else {
                    Step::Finish(Err(Error::I2c(e)))
                }
            },
            Ok(data) => {
                if position == PART_ID_POSITION {
                    let part_id = get_part_id_result(&[data]);
                    if part_id != EXPECTED_PART_ID {
                        return Step::Finish(Err(Error::UnexpectedChipId(part_id)));
                    }
                }
                if position == STANDARD_READBACK_POSITION && data[0]
                    != OperationMode::Standard.value() {
                    return Step::Finish(Err(Error::OpModeNotCorrect(data[0])));
                }
                if position + 1 >= INIT_LEN {
                    Step::Finish(Ok(true))
                } else {
                    let requests = initialize_requests();
                    Step::Continue(Initialization { position: position + 1 }, requests[position + 1])
                }
            },
        }
    }
}

/// Milestones of the initialization, and the two ways in which the device
/// can fail it.
#[derive(Debug, Clone, Copy, PartialEq, Eq, Structural)]
pub enum InitState {
    /// Nothing is known of the device yet.
    Start,
    /// The idle mode was written and read back.
    IdleSet,
    /// The part identification is that of an ENS160.
    IdVerified,
    /// The general purpose registers were cleared.
    Cleared,
    /// The firmware version was read.
    FirmwareRead,
    /// The device confirmed the standard operating mode.
    StandardSet,
    /// The initialization is complete.
    Ready,
    /// The part identification is not that of an ENS160.
    ChipIdMismatch,
    /// The device did not confirm the standard operating mode.
    ModeMismatch,
}

/// The milestone reached while the request at `position` is out.
pub open spec fn state_at(position: int) -> InitState {
    if position <= IDLE_READBACK_POSITION {
        InitState::Start
    } else if position <= PART_ID_POSITION {
        InitState::IdleSet
    } else if position <= CLEARED_STATUS_POSITION {
        InitState::IdVerified
    } else if position <= FIRMWARE_VERSION_POSITION {
        InitState::Cleared
    } else if position <= STANDARD_READBACK_POSITION {
        InitState::FirmwareRead
    } else {
        InitState::StandardSet
    }
}

/// The state that the reply to the request at `position` leads to. Where the
/// bus fails the request, the state stays as it was.
pub open spec fn state_after<E>(position: int, reply: Result<Reply, E>) -> InitState {
    match verdict(position, reply) {
        None => state_at(position + 1),
        Some(Ok(true)) => InitState::Ready,
        Some(Err(Error::UnexpectedChipId(_))) => InitState::ChipIdMismatch,
        Some(Err(Error::OpModeNotCorrect(_))) => InitState::ModeMismatch,
        Some(_) => state_at(position),
    }
}

impl Initialization {
    /// The milestone reached so far.
    pub fn state(&self) -> (state: InitState)
        ensures
            state == state_at(self.position() as int),
    {
        let position = self.position;
        if position <= IDLE_READBACK_POSITION {
            InitState::Start
        } else if position <= PART_ID_POSITION {
            InitState::IdleSet
        } else if position <= CLEARED_STATUS_POSITION {
            InitState::IdVerified
        } else if position <= FIRMWARE_VERSION_POSITION {
            InitState::Cleared
        } else if position <= STANDARD_READBACK_POSITION {
            InitState::FirmwareRead
        } else {
            InitState::StandardSet
        }
    }
}

/// The initialization fails on the device in two places only: it goes from
/// `IdleSet` to `ChipIdMismatch` on the read of the part identification, and
/// from `FirmwareRead` to `ModeMismatch` on the read that should confirm the
/// standard mode. It becomes `Ready` on the reply to the last request only.
pub proof fn lemma_failure_edges<E>(position: int, reply: Result<Reply, E>)
    requires
        0 <= position < INIT_LEN,
    ensures
        state_after(position, reply) == InitState::ChipIdMismatch ==> position == PART_ID_POSITION
            && state_at(position) == InitState::IdleSet,
        state_after(position, reply) == InitState::ModeMismatch ==> position
            == STANDARD_READBACK_POSITION && state_at(position) == InitState::FirmwareRead,
        state_after(position, reply) == InitState::Ready ==> position == INIT_LEN - 1 && state_at(
            position,
        ) == InitState::StandardSet,
{
}

/// Where and how the initialization ends when the request at position `i`, for
/// every `i` from `position` on, is answered by `replies[i]`: the position of
/// the last request that went out, and the result. `None` where the replies
/// run out before the initialization ends.
pub open spec fn run<E>(position: int, replies: Seq<Result<Reply, E>>) -> Option<
    (int, Result<bool, Error<E>>),
>
    decreases replies.len() - position,
{
    if position < 0 || position >= replies.len() {
        None
    } else {
        match verdict(position, replies[position]) {
            Some(result) => Some((position, result)),
            None => run(position + 1, replies),
        }
    }
}

/// The requests that go out when request `i` is answered by `replies[i]`: the
/// sequence up to the request on whose reply the initialization ends or, where
/// the replies run out first, up to the request that is then out.
pub open spec fn requests_issued<E>(replies: Seq<Result<Reply, E>>) -> Seq<Request> {
    match run(0, replies) {
        Some((last, _)) => init_requests().take(last + 1),
        None => init_requests().take(replies.len() as int + 1),
    }
}

/// Whether a request writes to the given register.
pub open spec fn writes_to(request: Request, register: u8) -> bool {
    match request {
        Request::Write { register: written, .. } => written == register,
        Request::WriteWord { register: written, .. } => written == register,
        _ => false,
    }
}

/// Whether every reply before `end` lets the initialization go on.
pub open spec fn all_pass<E>(replies: Seq<Result<Reply, E>>, end: int) -> bool {
    forall|i: int| 0 <= i < end ==> verdict(i, #[trigger] replies[i]) is None
}

/// Replies that let the initialization go on do not decide how it ends.
proof fn lemma_run_skips<E>(replies: Seq<Result<Reply, E>>, start: int, end: int)
    requires
        0 <= start <= end,
        end <= replies.len(),
        all_pass(replies, end),
    ensures
        run(start, replies) == run(end, replies),
    decreases end - start,
{
    if start < end {
        assert(verdict(start, replies[start]) is None);
        lemma_run_skips(replies, start + 1, end);
    }
}

/// Whatever the replies are, an initialization ends on one of its 19
/// requests: it never asks for more.
pub proof fn lemma_run_ends<E>(replies: Seq<Result<Reply, E>>, position: int)
    requires
        0 <= position < INIT_LEN,
        replies.len() >= INIT_LEN,
    ensures
        run(position, replies) matches Some((last, _)) && position <= last < INIT_LEN,
    decreases INIT_LEN - position,
{
    if verdict(position, replies[position]) is None {
        lemma_run_ends(replies, position + 1);
    }
}

/// With a bus that never fails, a device that identifies itself as an ENS160
/// and confirms the standard mode, the initialization issues all its requests
/// in order and reports `true`.
pub proof fn lemma_initialization_succeeds<E>(replies: Seq<Result<Reply, E>>)
    requires
        replies.len() == INIT_LEN,
        forall|i: int| 0 <= i < INIT_LEN ==> (#[trigger] replies[i]) is Ok,
        reply_word(replies[PART_ID_POSITION as int]->Ok_0) == EXPECTED_PART_ID,
        replies[STANDARD_READBACK_POSITION as int]->Ok_0[0] == OperationMode::Standard.spec_value(),
    ensures
        run(0, replies) == Some((INIT_LEN - 1, Ok::<bool, Error<E>>(true))),
        requests_issued(replies) == init_requests(),
{
    let last = INIT_LEN - 1;
    assert forall|i: int| 0 <= i < last implies verdict(i, #[trigger] replies[i]) is None by {
        assert(replies[i] is Ok);
    }
    lemma_run_skips(replies, 0, last);
    assert(replies[last] is Ok);
    assert(init_requests().take(last + 1) =~= init_requests());
}

/// With a device whose part identification is not that of an ENS160, the
/// initialization ends on the read of the part identification and reports
/// `UnexpectedChipId` with the value read. Nothing goes out after that read:
/// no command and no second write of the operating mode.
pub proof fn lemma_unexpected_chip_id<E>(replies: Seq<Result<Reply, E>>, data: Reply)
    requires
        replies.len() > PART_ID_POSITION,
        forall|i: int| 0 <= i < PART_ID_POSITION ==> (#[trigger] replies[i]) is Ok,
        replies[PART_ID_POSITION as int] == Ok::<Reply, E>(data),
        reply_word(data) != EXPECTED_PART_ID,
    ensures
        run(0, replies) == Some(
            (
                PART_ID_POSITION as int,
                Err::<bool, Error<E>>(Error::UnexpectedChipId(reply_word(data))),
            ),
        ),
        requests_issued(replies) == init_requests().take(PART_ID_POSITION + 1),
        forall|i: int|
            0 <= i < requests_issued(replies).len() ==> !writes_to(
                #[trigger] requests_issued(replies)[i],
                ENS160_COMMAND,
            ),
        forall|i: int|
            1 <= i < requests_issued(replies).len() ==> !writes_to(
                #[trigger] requests_issued(replies)[i],
                ENS160_OPMODE,
            ),
{
    assert forall|i: int| 0 <= i < PART_ID_POSITION implies verdict(i, #[trigger] replies[i])
        is None by {
        assert(replies[i] is Ok);
    }
    lemma_run_skips(replies, 0, PART_ID_POSITION as int);
}

/// With a device that identifies itself as an ENS160 but reads back another
/// byte than that of the standard mode after the mode was set, the
/// initialization ends on that read and reports `OpModeNotCorrect` with the
/// byte read.
pub proof fn lemma_mode_not_confirmed<E>(replies: Seq<Result<Reply, E>>, data: Reply)
    requires
        replies.len() > STANDARD_READBACK_POSITION,
        forall|i: int| 0 <= i < STANDARD_READBACK_POSITION ==> (#[trigger] replies[i]) is Ok,
        reply_word(replies[PART_ID_POSITION as int]->Ok_0) == EXPECTED_PART_ID,
        replies[STANDARD_READBACK_POSITION as int] == Ok::<Reply, E>(data),
        data[0] != OperationMode::Standard.spec_value(),
    ensures
        run(0, replies) == Some(
            (
                STANDARD_READBACK_POSITION as int,
                Err::<bool, Error<E>>(Error::OpModeNotCorrect(data[0])),
            ),
        ),
        requests_issued(replies) == init_requests().take(STANDARD_READBACK_POSITION + 1),
{
    assert forall|i: int| 0 <= i < STANDARD_READBACK_POSITION implies verdict(
        i,
        #[trigger] replies[i],
    ) is None by {
        assert(replies[i] is Ok);
    }
    lemma_run_skips(replies, 0, STANDARD_READBACK_POSITION as int);
}

/// Where the bus fails a request and every reply before let the
/// initialization go on, the initialization ends on that request. On the read
/// of the part identification it reports `false` and drops the bus error; on
/// any other request it hands the bus error on.
pub proof fn lemma_bus_failure<E>(replies: Seq<Result<Reply, E>>, failed: int, e: E)
    requires
        0 <= failed < replies.len(),
        all_pass(replies, failed),
        replies[failed] == Err::<Reply, E>(e),
    ensures
        failed == PART_ID_POSITION ==> run(0, replies) == Some(
            (failed, Ok::<bool, Error<E>>(false)),
        ),
        failed != PART_ID_POSITION ==> run(0, replies) == Some(
            (failed, Err::<bool, Error<E>>(Error::I2c(e))),
        ),
        requests_issued(replies) == init_requests().take(failed + 1),
{
    lemma_run_skips(replies, 0, failed);
}

} // verus!
