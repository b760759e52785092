//! Motor commands written by the hub: validation, refusal of duplicates, and the command that waits
//! to be dispatched.
//!
//! A command is 30 bytes, numbers least significant byte first:
//!
//! | bytes    | field                                          |
//! |----------|------------------------------------------------|
//! | 0..4     | magic "HHMC"                                   |
//! | 4        | version                                        |
//! | 5        | action                                         |
//! | 6..22    | command identifier                             |
//! | 22..26   | motor run time in milliseconds                 |
//! | 26..30   | remaining life of the command in milliseconds  |
use vstd::prelude::*;

use crate::bytes::{same_bytes, starts_with, u32_from_le, u32_to_le};

verus! {

/// "HHMC".
pub const MOTOR_COMMAND_PAYLOAD_MAGIC: [u8; 4] = [0x48, 0x48, 0x4d, 0x43];

pub const MOTOR_COMMAND_PAYLOAD_VERSION: u8 = 1;

pub const MOTOR_COMMAND_ACTION_STOP: u8 = 0;

pub const MOTOR_COMMAND_ACTION_RUN_FOR_DURATION: u8 = 1;

pub const MOTOR_COMMAND_PAYLOAD_VERSION_OFFSET: usize = 4;

pub const MOTOR_COMMAND_PAYLOAD_ACTION_OFFSET: usize = 5;

pub const MOTOR_COMMAND_PAYLOAD_COMMAND_ID_OFFSET: usize = 6;

pub const MOTOR_COMMAND_PAYLOAD_DURATION_MS_OFFSET: usize = 22;

pub const MOTOR_COMMAND_PAYLOAD_EXPIRY_MS_OFFSET: usize = 26;

pub const MOTOR_COMMAND_PAYLOAD_LEN: usize = 30;

/// Longest run of the motor that a command may ask for.
pub const MOTOR_COMMAND_MAX_DURATION_MS: u32 = 5_000;

pub const MOTOR_COMMAND_DEFAULT_EXPIRY_MS: u32 = 80_000;

/// How long an accepted identifier is remembered.
pub const MOTOR_COMMAND_DUPLICATE_RETENTION_MS: u32 = 80_000;

/// How many accepted identifiers are remembered before the history has to grow.
pub const MOTOR_COMMAND_ACCEPTED_HISTORY_LEN: usize = 4;

/// Identifier of a command.
pub type CommandId = [u8; 16];

#[derive(Clone, Copy, Debug, PartialEq, Eq, Structural)]
pub enum MotorCommandAction {
    Stop,
    RunForDuration,
}

/// A valid command.
#[derive(Clone, Copy, Debug, PartialEq, Eq)]
pub struct MotorCommandPayload {
    pub action: MotorCommandAction,
    pub command_id: CommandId,
    pub duration_ms: u32,
    pub expires_after_ms: u32,
}

/// Why a command is not valid.
#[derive(Clone, Copy, Debug, PartialEq, Eq, Structural)]
pub enum MotorCommandValidationError {
    InvalidLength,
    InvalidMagic,
    UnsupportedVersion,
    UnknownAction,
    DurationTooLong,
    Expired,
}

/// What became of a write.
#[derive(Clone, Copy, Debug, PartialEq, Eq)]
pub enum MotorCommandWriteOutcome {
    Accepted(MotorCommandPayload),
    Duplicate,
    DuplicateActive,
    Invalid(MotorCommandValidationError),
}

/// An identifier that was accepted, and when.
#[derive(Clone, Copy, Debug, PartialEq, Eq)]
pub struct AcceptedMotorCommandEntry {
    pub command_id: CommandId,
    pub accepted_at_ms: u32,
}

/// An accepted command that was not dispatched yet.
#[derive(Clone, Copy, Debug, PartialEq, Eq)]
pub struct PendingMotorCommandRequest {
    pub payload: MotorCommandPayload,
    pub accepted_at_ms: u32,
}

/// The command that waits, and the identifiers accepted lately. A slot of the history is free again
/// once its identifier has aged out.
#[derive(Debug, PartialEq, Eq)]
pub struct MotorCommandState {
    pub pending_request: Option<PendingMotorCommandRequest>,
    pub accepted_history: Vec<Option<AcceptedMotorCommandEntry>>,
}

/// A command as its fields.
pub struct MotorCommand {
    pub action: MotorCommandAction,
    pub command_id: Seq<u8>,
    pub duration_ms: u32,
    pub expires_after_ms: u32,
}

impl MotorCommand {
    /// The run time is within the limit, and the command has some life left.
    pub open spec fn is_valid(self) -> bool {
        self.duration_ms <= MOTOR_COMMAND_MAX_DURATION_MS && self.expires_after_ms > 0
    }
}

/// An accepted identifier and the time of its acceptance.
pub struct Accepted {
    pub command_id: Seq<u8>,
    pub at_ms: u32,
}

/// A waiting command and the time of its acceptance.
pub struct Pending {
    pub command: MotorCommand,
    pub at_ms: u32,
}

/// The model of [`MotorCommandState`].
pub struct CommandLog {
    pub pending: Option<Pending>,
    pub history: Seq<Option<Accepted>>,
}

impl CommandLog {
    /// Nothing waits and nothing is remembered.
    pub open spec fn empty() -> CommandLog {
        CommandLog { pending: None, history: seq![None::<Accepted>, None, None, None] }
    }
}

/// The model of [`MotorCommandWriteOutcome`].
pub enum WriteOutcome {
    Accepted(MotorCommand),
    Duplicate,
    DuplicateActive,
    Invalid(MotorCommandValidationError),
}

impl View for MotorCommandPayload {
    type V = MotorCommand;

    open spec fn view(&self) -> MotorCommand {
        MotorCommand {
            action: self.action,
            command_id: self.command_id@,
            duration_ms: self.duration_ms,
            expires_after_ms: self.expires_after_ms,
        }
    }
}

impl View for AcceptedMotorCommandEntry {
    type V = Accepted;

    open spec fn view(&self) -> Accepted {
        Accepted { command_id: self.command_id@, at_ms: self.accepted_at_ms }
    }
}

impl View for PendingMotorCommandRequest {
    type V = Pending;

    open spec fn view(&self) -> Pending {
        Pending { command: self.payload@, at_ms: self.accepted_at_ms }
    }
}

impl View for MotorCommandState {
    type V = CommandLog;

    open spec fn view(&self) -> CommandLog {
        CommandLog {
            pending: match self.pending_request {
                Some(pending) => Some(pending@),
                None => None,
            },
            history: Seq::new(
                self.accepted_history@.len(),
                |i: int|
                    match self.accepted_history@[i] {
                        Some(entry) => Some(entry@),
                        None => None,
                    },
            ),
        }
    }
}

impl View for MotorCommandWriteOutcome {
    type V = WriteOutcome;

    open spec fn view(&self) -> WriteOutcome {
        match *self {
            MotorCommandWriteOutcome::Accepted(payload) => WriteOutcome::Accepted(payload@),
            MotorCommandWriteOutcome::Duplicate => WriteOutcome::Duplicate,
            MotorCommandWriteOutcome::DuplicateActive => WriteOutcome::DuplicateActive,
            MotorCommandWriteOutcome::Invalid(err) => WriteOutcome::Invalid(err),
        }
    }
}

/// The action that a byte stands for.
pub open spec fn action_of(byte: u8) -> Option<MotorCommandAction> {
    if byte == MOTOR_COMMAND_ACTION_STOP {
        Some(MotorCommandAction::Stop)
    } else if byte == MOTOR_COMMAND_ACTION_RUN_FOR_DURATION {
        Some(MotorCommandAction::RunForDuration)
    } else {
        None
    }
}

/// The byte that stands for an action.
pub open spec fn action_byte(action: MotorCommandAction) -> u8 {
    match action {
        MotorCommandAction::Stop => MOTOR_COMMAND_ACTION_STOP,
        MotorCommandAction::RunForDuration => MOTOR_COMMAND_ACTION_RUN_FOR_DURATION,
    }
}

/// The number in the four bytes of `payload` from `at` on.
pub open spec fn number_at(payload: Seq<u8>, at: int) -> int {
    crate::bytes::le32(payload[at], payload[at + 1], payload[at + 2], payload[at + 3])
}

/// The command that `payload` stands for.
pub open spec fn parsed_command(payload: Seq<u8>) -> Result<
    MotorCommand,
    MotorCommandValidationError,
> {
    if payload.len() != MOTOR_COMMAND_PAYLOAD_LEN {
        Err(MotorCommandValidationError::InvalidLength)
    } else if payload.subrange(0, 4) != MOTOR_COMMAND_PAYLOAD_MAGIC@ {
        Err(MotorCommandValidationError::InvalidMagic)
    } else if payload[4] != MOTOR_COMMAND_PAYLOAD_VERSION {
        Err(MotorCommandValidationError::UnsupportedVersion)
    } else if action_of(payload[5]) is None {
        Err(MotorCommandValidationError::UnknownAction)
    } else if number_at(payload, 22) > MOTOR_COMMAND_MAX_DURATION_MS {
        Err(MotorCommandValidationError::DurationTooLong)
    } else if number_at(payload, 26) == 0 {
        Err(MotorCommandValidationError::Expired)
    } else {
        Ok(
            MotorCommand {
                action: action_of(payload[5]).unwrap(),
                command_id: payload.subrange(6, 22),
                duration_ms: number_at(payload, 22) as u32,
                expires_after_ms: number_at(payload, 26) as u32,
            },
        )
    }
}

/// The bytes of a command.
pub open spec fn encoded_command(command: MotorCommand) -> Seq<u8> {
    MOTOR_COMMAND_PAYLOAD_MAGIC@ + seq![MOTOR_COMMAND_PAYLOAD_VERSION, action_byte(command.action)]
        + command.command_id + crate::bytes::le_bytes(command.duration_ms as int, 4)
        + crate::bytes::le_bytes(command.expires_after_ms as int, 4)
}

/// Milliseconds from `then` to `now` on a 32-bit counter that starts again at zero.
pub open spec fn age_ms(now: u32, then: u32) -> int {
    (now - then) % 0x1_0000_0000
}

/// The entry is still remembered at `now`.
pub open spec fn is_remembered(entry: Accepted, now: u32) -> bool {
    age_ms(now, entry.at_ms) <= MOTOR_COMMAND_DUPLICATE_RETENTION_MS
}

/// What a slot of the history still holds at `now`.
pub open spec fn kept(slot: Option<Accepted>, now: u32) -> Option<Accepted> {
    match slot {
        Some(entry) => if is_remembered(entry, now) {
            slot
        } else {
            None
        },
        None => None,
    }
}

/// The history without the entries that are not remembered any more.
pub open spec fn pruned(history: Seq<Option<Accepted>>, now: u32) -> Seq<Option<Accepted>> {
    history.map_values(|slot: Option<Accepted>| kept(slot, now))
}

/// The entry in `slot` is one of `command_id`, still remembered at `now`.
pub open spec fn slot_refuses(slot: Option<Accepted>, command_id: Seq<u8>, now: u32) -> bool {
    slot matches Some(entry) && entry.command_id == command_id && is_remembered(entry, now)
}

/// `command_id` was accepted lately.
pub open spec fn is_known(history: Seq<Option<Accepted>>, command_id: Seq<u8>, now: u32) -> bool {
    exists|i: int| 0 <= i < history.len() && slot_refuses(#[trigger] history[i], command_id, now)
}

/// Slot `i` is the first free one.
pub open spec fn is_first_free(history: Seq<Option<Accepted>>, i: int) -> bool {
    &&& 0 <= i < history.len()
    &&& history[i] is None
    &&& forall|j: int| 0 <= j < i ==> #[trigger] history[j] is Some
}

/// No slot is free.
pub open spec fn is_full(history: Seq<Option<Accepted>>) -> bool {
    forall|i: int| 0 <= i < history.len() ==> #[trigger] history[i] is Some
}

/// `after` is `before` with one more entry: in the first free slot or, where none is free, in a new
/// one. No entry is overwritten.
pub open spec fn entered(
    before: Seq<Option<Accepted>>,
    entry: Accepted,
    after: Seq<Option<Accepted>>,
) -> bool {
    ||| exists|i: int| #[trigger]
        is_first_free(before, i) && after == before.update(i, Some(entry))
    ||| is_full(before) && after == before.push(Some(entry))
}

/// `after` is `before` once `command` was accepted at `now`.
pub open spec fn recorded(
    before: CommandLog,
    command: MotorCommand,
    now: u32,
    after: CommandLog,
) -> bool {
    &&& after.pending == Some(Pending { command, at_ms: now })
    &&& entered(
        before.history,
        Accepted { command_id: command.command_id, at_ms: now },
        after.history,
    )
}

/// `command_id` is that of the command that runs, or of the one that waits.
pub open spec fn is_active(log: CommandLog, command_id: Seq<u8>, active: Option<Seq<u8>>) -> bool {
    ||| active == Some(command_id)
    ||| log.pending matches Some(pending) && pending.command.command_id == command_id
}

/// What becomes of a write of `payload` at `now`, while the command `active` runs.
pub open spec fn write_outcome(
    before: CommandLog,
    payload: Seq<u8>,
    now: u32,
    active: Option<Seq<u8>>,
) -> WriteOutcome {
    match parsed_command(payload) {
        Err(err) => WriteOutcome::Invalid(err),
        Ok(command) => if is_active(before, command.command_id, active) {
            WriteOutcome::DuplicateActive
        } else if is_known(before.history, command.command_id, now) {
            WriteOutcome::Duplicate
        } else {
            WriteOutcome::Accepted(command)
        },
    }
}

/// A write of `payload` at `now` leads from `before` to `after` with `outcome`, while the command
/// `active` runs.
pub open spec fn write_leads_to(
    before: CommandLog,
    payload: Seq<u8>,
    now: u32,
    active: Option<Seq<u8>>,
    after: CommandLog,
    outcome: WriteOutcome,
) -> bool {
    &&& outcome == write_outcome(before, payload, now, active)
    &&& match outcome {
        WriteOutcome::Invalid(_) | WriteOutcome::DuplicateActive => after == before,
        WriteOutcome::Duplicate => {
            &&& after.pending == before.pending
            &&& after.history == pruned(before.history, now)
        },
        WriteOutcome::Accepted(command) => recorded(
            CommandLog { history: pruned(before.history, now), ..before },
            command,
            now,
            after,
        ),
    }
}

/// The view of an optional identifier.
pub open spec fn id_view(id: Option<&CommandId>) -> Option<Seq<u8>> {
    match id {
        Some(id) => Some(id@),
        None => None,
    }
}

/// Checks a written command. `_now_ms` is the time of the write: a command carries how long it
/// still lives, not when it ends.
pub fn parse_motor_command_payload(payload: &[u8], _now_ms: u32) -> (r: Result<
    MotorCommandPayload,
    MotorCommandValidationError,
>)
    ensures
        match parsed_command(payload@) {
            Ok(command) => r matches Ok(p) && p@ == command,
            Err(err) => r == Err::<MotorCommandPayload, _>(err),
        },
        r matches Ok(p) ==> p.duration_ms <= MOTOR_COMMAND_MAX_DURATION_MS && p.expires_after_ms
            > 0,
{
    if payload.len() != MOTOR_COMMAND_PAYLOAD_LEN {
        return Err(MotorCommandValidationError::InvalidLength);
    }
    let magic = MOTOR_COMMAND_PAYLOAD_MAGIC;
    if !starts_with(payload, magic.as_slice()) {
        return Err(MotorCommandValidationError::InvalidMagic);
    }
    if payload[MOTOR_COMMAND_PAYLOAD_VERSION_OFFSET] != MOTOR_COMMAND_PAYLOAD_VERSION {
        return Err(MotorCommandValidationError::UnsupportedVersion);
    }
    let code = payload[MOTOR_COMMAND_PAYLOAD_ACTION_OFFSET];
    let action = if code == MOTOR_COMMAND_ACTION_STOP {
        MotorCommandAction::Stop
    } else if code == MOTOR_COMMAND_ACTION_RUN_FOR_DURATION {
        MotorCommandAction::RunForDuration
    } else {
        return Err(MotorCommandValidationError::UnknownAction);
    };
    let mut command_id = [0u8; 16];
    for i in 0..16usize
        invariant
            payload@.len() == MOTOR_COMMAND_PAYLOAD_LEN,
            forall|j: int| 0 <= j < i ==> command_id@[j] == payload@[j + 6],
    {
        command_id[i] = payload[i + MOTOR_COMMAND_PAYLOAD_COMMAND_ID_OFFSET];
    }
    assert(command_id@ =~= payload@.subrange(6, 22));
    let duration_ms = u32_from_le(payload[22], payload[23], payload[24], payload[25]);
    if duration_ms > MOTOR_COMMAND_MAX_DURATION_MS {
        return Err(MotorCommandValidationError::DurationTooLong);
    }
    let expires_after_ms = u32_from_le(payload[26], payload[27], payload[28], payload[29]);
    if expires_after_ms == 0 {
        return Err(MotorCommandValidationError::Expired);
    }
    Ok(MotorCommandPayload { action, command_id, duration_ms, expires_after_ms })
}

impl MotorCommandState {
    /// Nothing waits and nothing is remembered.
    pub fn new() -> (r: MotorCommandState)
        ensures
            r@ == CommandLog::empty(),
            r@.pending is None,
            r@.history == seq![None::<Accepted>, None, None, None],
    {
        let mut accepted_history: Vec<Option<AcceptedMotorCommandEntry>> = Vec::new();
        for i in 0..MOTOR_COMMAND_ACCEPTED_HISTORY_LEN
            invariant
                accepted_history@.len() == i,
                forall|j: int| 0 <= j < i ==> #[trigger] accepted_history@[j] is None,
        {
            accepted_history.push(None);
        }
        let r = MotorCommandState { pending_request: None, accepted_history };
        assert(r@.history =~= seq![None::<Accepted>, None, None, None]);
        r
    }

    /// Takes a command written by the hub. `active_command_id` is the command that the motor runs
    /// now.
    pub fn handle_write_payload(
        &mut self,
        payload: &[u8],
        now_ms: u32,
        active_command_id: Option<&CommandId>,
    ) -> (r: MotorCommandWriteOutcome)
        ensures
            write_leads_to(
                old(self)@,
                payload@,
                now_ms,
                id_view(active_command_id),
                final(self)@,
                r@,
            ),
    {
        let parsed = match parse_motor_command_payload(payload, now_ms) {
            Ok(command) => command,
            Err(err) => return MotorCommandWriteOutcome::Invalid(err),
        };
        if let Some(current) = active_command_id {
            if same_bytes(current.as_slice(), parsed.command_id.as_slice()) {
                return MotorCommandWriteOutcome::DuplicateActive;
            }
        }
        if let Some(pending) = self.pending_request {
            if same_bytes(pending.payload.command_id.as_slice(), parsed.command_id.as_slice()) {
                return MotorCommandWriteOutcome::DuplicateActive;
            }
        }
        self.prune_expired_history(now_ms);
        proof {
            lemma_pruning_keeps_known(old(self)@.history, parsed@.command_id, now_ms);
        }
        if self.is_duplicate(&parsed.command_id, now_ms) {
            return MotorCommandWriteOutcome::Duplicate;
        }
        self.record_accepted(&parsed, now_ms);
        MotorCommandWriteOutcome::Accepted(parsed)
    }

    /// Forgets the identifiers accepted too long ago.
    pub fn prune_expired_history(&mut self, now_ms: u32)
        ensures
            final(self)@.pending == old(self)@.pending,
            final(self)@.history == pruned(old(self)@.history, now_ms),
    {
        let ghost h = self@.history;
        let count: usize = self.accepted_history.len();
        for i in 0..count
            invariant
                h == old(self)@.history,
                h.len() == count,
                self.accepted_history@.len() == count,
                self@.pending == old(self)@.pending,
                forall|j: int| 0 <= j < i ==> #[trigger] self@.history[j] == kept(h[j], now_ms),
                forall|j: int| i <= j < h.len() ==> #[trigger] self@.history[j] == h[j],
        {
            let ghost before = self@.history;
            assert(before[i as int] == h[i as int]);
            if let Some(entry) = self.accepted_history[i] {
                assert(before[i as int] == Some(entry@));
                let age = now_ms.wrapping_sub(entry.accepted_at_ms);
                assert(age == age_ms(now_ms, entry.accepted_at_ms));
                if age > MOTOR_COMMAND_DUPLICATE_RETENTION_MS {
                    self.accepted_history.set(i, None);
                }
            } else {
                assert(before[i as int] is None);
            }
            assert(self@.history[i as int] == kept(before[i as int], now_ms));
            assert(forall|j: int|
                0 <= j < h.len() && j != i ==> #[trigger] self@.history[j] == before[j]);
        }
        assert(self@.history =~= pruned(old(self)@.history, now_ms));
    }

    /// Whether an identifier was accepted lately.
    pub fn is_duplicate(&self, command_id: &CommandId, now_ms: u32) -> (r: bool)
        ensures
            r == is_known(self@.history, command_id@, now_ms),
    {
        for i in 0..self.accepted_history.len()
            invariant
                forall|j: int|
                    0 <= j < i ==> !slot_refuses(#[trigger] self@.history[j], command_id@, now_ms),
        {
            if let Some(entry) = self.accepted_history[i] {
                let age = now_ms.wrapping_sub(entry.accepted_at_ms);
                assert(age == age_ms(now_ms, entry.accepted_at_ms));
                if same_bytes(entry.command_id.as_slice(), command_id.as_slice()) && age
                    <= MOTOR_COMMAND_DUPLICATE_RETENTION_MS {
                    assert(slot_refuses(self@.history[i as int], command_id@, now_ms));
                    return true;
                }
            }
        }
        false
    }

    /// Keeps an accepted command to be dispatched, and remembers its identifier in the first free
    /// slot or, where none is free, in a new one.
    pub fn record_accepted(&mut self, payload: &MotorCommandPayload, now_ms: u32)
        ensures
            recorded(old(self)@, payload@, now_ms, final(self)@),
    {
        let entry = AcceptedMotorCommandEntry {
            command_id: payload.command_id,
            accepted_at_ms: now_ms,
        };
        self.pending_request = Some(
            PendingMotorCommandRequest { payload: *payload, accepted_at_ms: now_ms },
        );
        let ghost h = self@.history;
        assert(h =~= old(self)@.history);
        match self.first_free() {
            Some(slot) => {
                self.accepted_history.set(slot, Some(entry));
                assert(self@.history =~= h.update(slot as int, Some(entry@)));
                assert(is_first_free(h, slot as int));
            },
            None => {
                self.accepted_history.push(Some(entry));
                assert(self@.history =~= h.push(Some(entry@)));
            },
        }
    }

    /// The first free slot.
    fn first_free(&self) -> (r: Option<usize>)
        ensures
            match r {
                Some(slot) => is_first_free(self@.history, slot as int),
                None => is_full(self@.history),
            },
    {
        let ghost h = self@.history;
        for i in 0..self.accepted_history.len()
            invariant
                h == self@.history,
                forall|j: int| 0 <= j < i ==> #[trigger] h[j] is Some,
        {
            if self.accepted_history[i].is_none() {
                assert(h[i as int] is None);
                return Some(i);
            }
            assert(h[i as int] is Some);
        }
        None
    }
}

/// Forgetting old entries does not change which identifiers are known.
proof fn lemma_pruning_keeps_known(history: Seq<Option<Accepted>>, command_id: Seq<u8>, now: u32)
    ensures
        is_known(pruned(history, now), command_id, now) == is_known(history, command_id, now),
{
    let p = pruned(history, now);
    if is_known(history, command_id, now) {
        let i = choose|i: int|
            0 <= i < history.len() && slot_refuses(#[trigger] history[i], command_id, now);
        assert(slot_refuses(p[i], command_id, now));
    }
    if is_known(p, command_id, now) {
        let i = choose|i: int|
            0 <= i < p.len() && slot_refuses(#[trigger] p[i], command_id, now);
        assert(slot_refuses(history[i], command_id, now));
    }
}

/// The bytes of a command, as the hub writes them.
pub fn encode_motor_command_payload(payload: &MotorCommandPayload) -> (r: [u8; 30])
    ensures
        r@ == encoded_command(payload@),
{
    let magic = MOTOR_COMMAND_PAYLOAD_MAGIC;
    let action = match payload.action {
        MotorCommandAction::Stop => MOTOR_COMMAND_ACTION_STOP,
        MotorCommandAction::RunForDuration => MOTOR_COMMAND_ACTION_RUN_FOR_DURATION,
    };
    let id = payload.command_id;
    let duration = u32_to_le(payload.duration_ms);
    let expiry = u32_to_le(payload.expires_after_ms);
    let r = [
        magic[0],
        magic[1],
        magic[2],
        magic[3],
        MOTOR_COMMAND_PAYLOAD_VERSION,
        action,
        id[0],
        id[1],
        id[2],
        id[3],
        id[4],
        id[5],
        id[6],
        id[7],
        id[8],
        id[9],
        id[10],
        id[11],
        id[12],
        id[13],
        id[14],
        id[15],
        duration[0],
        duration[1],
        duration[2],
        duration[3],
        expiry[0],
        expiry[1],
        expiry[2],
        expiry[3],
    ];
    assert(r@ =~= encoded_command(payload@));
    r
}

/// Whether two commands are the same.
fn same_command(a: &MotorCommandPayload, b: &MotorCommandPayload) -> (r: bool)
    ensures
        r == (a@ == b@),
{
    a.action == b.action && same_bytes(a.command_id.as_slice(), b.command_id.as_slice())
        && a.duration_ms == b.duration_ms && a.expires_after_ms == b.expires_after_ms
}

/// Runs a made-up command through acceptance, refusal as a duplicate, and expiry, and reports
/// whether each came out as it should.
pub fn simulate_motor_command_duplicate_and_expiry_rules() -> (r: bool)
    ensures
        r,
{
    let now_ms: u32 = 10_000;
    let expires_after_ms: u32 = 2_000;
    let duration_ms: u32 = 1_000;
    let command_id = [0xabu8; 16];
    let payload = MotorCommandPayload {
        action: MotorCommandAction::RunForDuration,
        command_id,
        duration_ms,
        expires_after_ms,
    };
    let encoded = encode_motor_command_payload(&payload);
    proof {
        law_written_command_is_read_back(payload@);
    }
    let mut state = MotorCommandState::new();
    let ghost empty = state@;
    let first = state.handle_write_payload(encoded.as_slice(), now_ms, None);
    proof {
        assert(pruned(empty.history, now_ms) =~= empty.history);
        assert forall|i: int| 0 <= i < empty.history.len() implies !slot_refuses(
            #[trigger] empty.history[i],
            payload@.command_id,
            now_ms,
        ) by {}
    }
    let duplicate_pending = state.handle_write_payload(encoded.as_slice(), now_ms + 1, None);
    let duplicate_active = state.handle_write_payload(
        encoded.as_slice(),
        now_ms + 2,
        Some(&command_id),
    );
    let age_ms = (now_ms + expires_after_ms + 1).wrapping_sub(now_ms);
    let expired_before_dispatch = age_ms >= payload.expires_after_ms;
    let first_accepted = match first {
        MotorCommandWriteOutcome::Accepted(accepted) => same_command(&accepted, &payload),
        _ => false,
    };
    let pending_refused = match duplicate_pending {
        MotorCommandWriteOutcome::DuplicateActive => true,
        _ => false,
    };
    let active_refused = match duplicate_active {
        MotorCommandWriteOutcome::DuplicateActive => true,
        _ => false,
    };
    first_accepted && pending_refused && active_refused && expired_before_dispatch
}

/// What the hub writes of a valid command, the probe reads back as the same command.
pub proof fn law_written_command_is_read_back(command: MotorCommand)
    requires
        command.command_id.len() == 16,
        command.duration_ms <= MOTOR_COMMAND_MAX_DURATION_MS,
        command.expires_after_ms > 0,
    ensures
        parsed_command(encoded_command(command)) == Ok::<MotorCommand, MotorCommandValidationError>(
            command,
        ),
{
    let payload = encoded_command(command);
    crate::bytes::lemma_le_bytes_four(command.duration_ms as int);
    crate::bytes::lemma_le_bytes_four(command.expires_after_ms as int);
    assert(payload.len() == 30);
    assert(payload.subrange(0, 4) =~= MOTOR_COMMAND_PAYLOAD_MAGIC@);
    assert(payload.subrange(6, 22) =~= command.command_id);
}

/// Only a valid command ever waits to be dispatched: its run time is within the limit and it has
/// some life left.
pub proof fn law_waiting_command_is_valid(
    before: CommandLog,
    payload: Seq<u8>,
    now: u32,
    active: Option<Seq<u8>>,
    after: CommandLog,
    outcome: WriteOutcome,
)
    requires
        write_leads_to(before, payload, now, active, after, outcome),
        before.pending is Some ==> before.pending.unwrap().command.is_valid(),
    ensures
        after.pending is Some ==> after.pending.unwrap().command.is_valid(),
{
}

/// A write that is refused leaves the waiting command as it was, and one that is accepted is the
/// command that waits.
pub proof fn law_only_an_accepted_write_replaces_the_waiting_command(
    before: CommandLog,
    payload: Seq<u8>,
    now: u32,
    active: Option<Seq<u8>>,
    after: CommandLog,
    outcome: WriteOutcome,
)
    requires
        write_leads_to(before, payload, now, active, after, outcome),
    ensures
        match outcome {
            WriteOutcome::Accepted(command) => after.pending == Some(
                Pending { command, at_ms: now },
            ),
            _ => after.pending == before.pending,
        },
{
}

/// One write, with the time that it came at.
pub struct WriteStep {
    pub before: CommandLog,
    pub payload: Seq<u8>,
    pub at_ms: nat,
    pub active: Option<Seq<u8>>,
    pub after: CommandLog,
    pub outcome: WriteOutcome,
}

impl WriteStep {
    /// The time of the write on the 32-bit counter.
    pub open spec fn now(self) -> u32 {
        (self.at_ms % 0x1_0000_0000) as u32
    }

    pub open spec fn happens(self) -> bool {
        write_leads_to(
            self.before,
            self.payload,
            self.now(),
            self.active,
            self.after,
            self.outcome,
        )
    }
}

/// The writes come one after the other. Between two of them the waiting command may be dispatched,
/// but nothing touches the history.
pub open spec fn is_trace(steps: Seq<WriteStep>) -> bool {
    &&& forall|i: int| 0 <= i < steps.len() ==> (#[trigger] steps[i]).happens()
    &&& forall|i: int, j: int|
        0 <= i <= j < steps.len() ==> (#[trigger] steps[i]).at_ms <= (#[trigger] steps[j]).at_ms
    &&& forall|i: int, j: int|
        0 <= i && j == i + 1 && j < steps.len() ==> (#[trigger] steps[j]).before.history == (
        #[trigger] steps[i]).after.history
}

/// A command identifier is ignored for the whole retention time: once it was accepted, and while
/// that was at most 80 s ago, a further write with the same identifier is refused and leaves the
/// waiting command as it was, whatever writes came in between.
pub proof fn law_accepted_command_is_refused_again(steps: Seq<WriteStep>, command: MotorCommand)
    requires
        is_trace(steps),
        steps.len() >= 2,
        steps[0].outcome == WriteOutcome::Accepted(command),
        steps.last().at_ms - steps[0].at_ms <= MOTOR_COMMAND_DUPLICATE_RETENTION_MS,
        parsed_command(steps.last().payload) matches Ok(again) && again.command_id
            == command.command_id,
    ensures
        steps.last().outcome is Duplicate || steps.last().outcome is DuplicateActive,
        steps.last().after.pending == steps.last().before.pending,
{
    let n = steps.len() - 1;
    let k = lemma_entry_survives(steps, command, n);
    let last = steps[n];
    assert(last.happens());
    assert(last.before.history == steps[n - 1].after.history);
    assert(steps[0].at_ms <= last.at_ms);
    lemma_elapsed(steps[0].at_ms, last.at_ms);
    assert(slot_refuses(last.before.history[k], command.command_id, last.now()));
}

proof fn lemma_elapsed(earlier: nat, later: nat)
    requires
        earlier <= later < earlier + 0x1_0000_0000,
    ensures
        age_ms((later % 0x1_0000_0000) as u32, (earlier % 0x1_0000_0000) as u32) == later - earlier,
{
}

/// The entry of the first write still stands in some slot after the writes `0..n`.
proof fn lemma_entry_survives(steps: Seq<WriteStep>, command: MotorCommand, n: int) -> (k: int)
    requires
        is_trace(steps),
        1 <= n < steps.len(),
        steps[0].outcome == WriteOutcome::Accepted(command),
        steps[n].at_ms - steps[0].at_ms <= MOTOR_COMMAND_DUPLICATE_RETENTION_MS,
    ensures
        0 <= k < steps[n - 1].after.history.len(),
        steps[n - 1].after.history[k] == Some(
            Accepted { command_id: command.command_id, at_ms: steps[0].now() },
        ),
    decreases n,
{
    let now = steps[0].now();
    let entry = Accepted { command_id: command.command_id, at_ms: now };
    let step = steps[n - 1];
    let p = pruned(step.before.history, step.now());
    assert(step.happens());
    if n == 1 {
        if is_full(p) && step.after.history == p.push(Some(entry)) {
            p.len() as int
        } else {
            choose|i: int| #[trigger]
                is_first_free(p, i) && step.after.history == p.update(i, Some(entry))
        }
    } else {
        assert(step.at_ms <= steps[n].at_ms);
        assert(steps[0].at_ms <= step.at_ms);
        let k = lemma_entry_survives(steps, command, n - 1);
        assert(step.before.history == steps[n - 2].after.history);
        lemma_elapsed(steps[0].at_ms, step.at_ms);
        assert(p[k] == kept(step.before.history[k], step.now()));
        k
    }
}

/// A command is 30 bytes: "HHMC", version 1, action 0 to stop or 1 to run, the identifier, the run
/// time and the remaining life, numbers with the least significant byte first. It is valid if its
/// run time is five seconds at most and it has some life left.
pub proof fn law_valid_command_is_read_field_by_field(payload: Seq<u8>, command: MotorCommand)
    requires
        payload.len() == 30,
        payload.subrange(0, 5) == seq![0x48u8, 0x48, 0x4d, 0x43, 1],
        payload[5] == match command.action {
            MotorCommandAction::Stop => 0u8,
            MotorCommandAction::RunForDuration => 1u8,
        },
        payload.subrange(6, 22) == command.command_id,
        payload[22] + 0x100 * payload[23] + 0x1_0000 * payload[24] + 0x100_0000 * payload[25]
            == command.duration_ms,
        payload[26] + 0x100 * payload[27] + 0x1_0000 * payload[28] + 0x100_0000 * payload[29]
            == command.expires_after_ms,
        command.duration_ms <= 5_000,
        command.expires_after_ms > 0,
    ensures
        parsed_command(payload) == Ok::<MotorCommand, MotorCommandValidationError>(command),
{
    assert forall|i: int| 0 <= i < 5 implies #[trigger] payload[i] == seq![
        0x48u8,
        0x48,
        0x4d,
        0x43,
        1,
    ][i] by {
        assert(payload.subrange(0, 5)[i] == payload[i]);
    }
    assert(payload.subrange(0, 4) =~= MOTOR_COMMAND_PAYLOAD_MAGIC@);
}

/// What is no valid command is refused for its first fault: length, magic, version, action, run time,
/// remaining life.
pub proof fn law_faulty_command_is_refused(payload: Seq<u8>)
    ensures
        ({
            let parsed = parsed_command(payload);
            let starts = payload.len() == 30 && payload.subrange(0, 4) == seq![
                0x48u8,
                0x48,
                0x4d,
                0x43,
            ];
            let known = starts && payload[4] == 1 && payload[5] <= 1;
            let short = known && payload[24] == 0 && payload[25] == 0 && payload[22] + 0x100
                * payload[23] <= 5_000;
            let alive = payload[26] != 0 || payload[27] != 0 || payload[28] != 0 || payload[29]
                != 0;
            &&& payload.len() != 30 <==> parsed == Err::<MotorCommand, _>(
                MotorCommandValidationError::InvalidLength,
            )
            &&& payload.len() == 30 && !starts <==> parsed == Err::<MotorCommand, _>(
                MotorCommandValidationError::InvalidMagic,
            )
            &&& starts && payload[4] != 1 <==> parsed == Err::<MotorCommand, _>(
                MotorCommandValidationError::UnsupportedVersion,
            )
            &&& starts && payload[4] == 1 && payload[5] > 1 <==> parsed == Err::<MotorCommand, _>(
                MotorCommandValidationError::UnknownAction,
            )
            &&& known && !short <==> parsed == Err::<MotorCommand, _>(
                MotorCommandValidationError::DurationTooLong,
            )
            &&& short && !alive <==> parsed == Err::<MotorCommand, _>(
                MotorCommandValidationError::Expired,
            )
        }),
{
    assert(MOTOR_COMMAND_PAYLOAD_MAGIC@ =~= seq![0x48u8, 0x48, 0x4d, 0x43]);
}

/// A command, valid or not, is written as 30 bytes in the same layout.
pub proof fn law_command_is_written_field_by_field(command: MotorCommand)
    requires
        command.command_id.len() == 16,
    ensures
        ({
            let payload = encoded_command(command);
            &&& payload.len() == 30
            &&& payload.subrange(0, 5) == seq![0x48u8, 0x48, 0x4d, 0x43, 1]
            &&& payload[5] == match command.action {
                MotorCommandAction::Stop => 0u8,
                MotorCommandAction::RunForDuration => 1u8,
            }
            &&& payload.subrange(6, 22) == command.command_id
            &&& payload[22] + 0x100 * payload[23] + 0x1_0000 * payload[24] + 0x100_0000
                * payload[25] == command.duration_ms
            &&& payload[26] + 0x100 * payload[27] + 0x1_0000 * payload[28] + 0x100_0000
                * payload[29] == command.expires_after_ms
        }),
{
    let payload = encoded_command(command);
    let duration = crate::bytes::le_bytes(command.duration_ms as int, 4);
    let life = crate::bytes::le_bytes(command.expires_after_ms as int, 4);
    crate::bytes::law_bytes_are_digits(command.duration_ms as int);
    crate::bytes::law_bytes_are_digits(command.expires_after_ms as int);
    assert(payload.subrange(0, 5) =~= seq![0x48u8, 0x48, 0x4d, 0x43, 1]);
    assert(payload.subrange(6, 22) =~= command.command_id);
    assert(payload[22] == duration[0] && payload[23] == duration[1] && payload[24] == duration[2]
        && payload[25] == duration[3]);
    assert(payload[26] == life[0] && payload[27] == life[1] && payload[28] == life[2]
        && payload[29] == life[3]);
}

/// An identifier is remembered for 80 seconds, and forgotten after that: `passed` milliseconds after
/// it was accepted, on a counter that may have started again at zero since. A slot whose identifier
/// is forgotten is free, and every other slot is left as it was.
pub proof fn law_identifier_is_remembered_for_its_time(
    history: Seq<Option<Accepted>>,
    at: int,
    now: u32,
    passed: int,
)
    requires
        0 <= at < history.len(),
        0 <= passed < 0x1_0000_0000,
        history[at] matches Some(entry) ==> now == (entry.at_ms + passed) % 0x1_0000_0000,
    ensures
        pruned(history, now).len() == history.len(),
        history[at] is None ==> pruned(history, now)[at] is None,
        history[at] is Some && passed <= 80_000 ==> pruned(history, now)[at] == history[at],
        history[at] is Some && passed > 80_000 ==> pruned(history, now)[at] is None,
        history[at] matches Some(entry) ==> (is_remembered(entry, now) <==> passed <= 80_000)
            && age_ms(now, entry.at_ms) == passed,
{
}

/// A valid command is refused as active if it runs or waits, otherwise as a duplicate if its
/// identifier is remembered, and otherwise accepted as it was written.
pub proof fn law_valid_command_is_accepted_unless_known(
    before: CommandLog,
    payload: Seq<u8>,
    command: MotorCommand,
    now: u32,
    active: Option<Seq<u8>>,
)
    requires
        parsed_command(payload) == Ok::<MotorCommand, MotorCommandValidationError>(command),
    ensures
        ({
            let outcome = write_outcome(before, payload, now, active);
            let runs = active == Some(command.command_id);
            let waits = match before.pending {
                Some(pending) => pending.command.command_id == command.command_id,
                None => false,
            };
            let remembered = exists|i: int|
                0 <= i < before.history.len() && match #[trigger] before.history[i] {
                    Some(entry) => entry.command_id == command.command_id && age_ms(
                        now,
                        entry.at_ms,
                    ) <= 80_000,
                    None => false,
                };
            &&& runs || waits <==> outcome == WriteOutcome::DuplicateActive
            &&& !runs && !waits && remembered <==> outcome == WriteOutcome::Duplicate
            &&& !runs && !waits && !remembered <==> outcome == WriteOutcome::Accepted(command)
        }),
{
    if is_known(before.history, command.command_id, now) {
        let i = choose|i: int|
            0 <= i < before.history.len() && slot_refuses(
                #[trigger] before.history[i],
                command.command_id,
                now,
            );
        assert(before.history[i] is Some);
    }
    assert forall|i: int|
        0 <= i < before.history.len() && (match #[trigger] before.history[i] {
            Some(entry) => entry.command_id == command.command_id && age_ms(now, entry.at_ms)
                <= 80_000,
            None => false,
        }) implies slot_refuses(before.history[i], command.command_id, now) by {}
}

/// What is no valid command is refused for its fault. A refused write changes nothing but that
/// identifiers whose time is over may be forgotten.
pub proof fn law_refused_write_changes_nothing(
    before: CommandLog,
    payload: Seq<u8>,
    now: u32,
    active: Option<Seq<u8>>,
    after: CommandLog,
    outcome: WriteOutcome,
    at: int,
)
    requires
        write_leads_to(before, payload, now, active, after, outcome),
        outcome !is Accepted,
        0 <= at < before.history.len(),
    ensures
        parsed_command(payload) matches Err(fault) ==> outcome == WriteOutcome::Invalid(fault),
        after.pending == before.pending,
        outcome !is Duplicate ==> after == before,
        outcome is Duplicate ==> (before.history[at] matches Some(entry) && age_ms(now, entry.at_ms)
            > 80_000 ==> after.history[at] is None),
        after.history.len() == before.history.len(),
        after.history[at] == before.history[at] || (after.history[at] is None && (
        before.history[at] matches Some(entry) && age_ms(now, entry.at_ms) > 80_000)),
{
}

/// An accepted command waits with the time of its acceptance, and its identifier is remembered from
/// then on, in the first slot that is free or, where none is, in a new one. Every identifier that was remembered still is, in its slot, and nothing else is.
pub proof fn law_accepted_command_is_remembered(
    before: CommandLog,
    payload: Seq<u8>,
    now: u32,
    active: Option<Seq<u8>>,
    after: CommandLog,
    command: MotorCommand,
) -> (slot: int)
    requires
        write_leads_to(before, payload, now, active, after, WriteOutcome::Accepted(command)),
    ensures
        parsed_command(payload) == Ok::<MotorCommand, MotorCommandValidationError>(command),
        after.pending == Some(Pending { command, at_ms: now }),
        0 <= slot < after.history.len(),
        after.history[slot] == Some(Accepted { command_id: command.command_id, at_ms: now }),
        before.history.len() <= after.history.len() <= before.history.len() + 1,
        slot < before.history.len() ==> (before.history[slot] matches Some(entry) ==> age_ms(
            now,
            entry.at_ms,
        ) > 80_000),
        forall|i: int|
            0 <= i < slot ==> (#[trigger] before.history[i] matches Some(entry) && age_ms(
                now,
                entry.at_ms,
            ) <= 80_000),
        slot < before.history.len() ==> after.history.len() == before.history.len(),
        forall|i: int|
            0 <= i < after.history.len() && i != slot ==> {
                &&& i < before.history.len()
                &&& match before.history[i] {
                    Some(entry) => #[trigger] after.history[i] == if age_ms(now, entry.at_ms)
                        <= 80_000 {
                        Some(entry)
                    } else {
                        None
                    },
                    None => after.history[i] is None,
                }
            },
{
    let p = pruned(before.history, now);
    let entry = Accepted { command_id: command.command_id, at_ms: now };
    assert(p.len() == before.history.len());
    assert forall|i: int| 0 <= i < p.len() implies p[i] == kept(
        #[trigger] before.history[i],
        now,
    ) by {}
    if is_full(p) && after.history == p.push(Some(entry)) {
        p.len() as int
    } else {
        choose|i: int| #[trigger]
            is_first_free(p, i) && after.history == p.update(i, Some(entry))
    }
}

/// At first nothing waits and nothing is remembered: every valid command that does not run is
/// accepted.
pub proof fn law_first_command_is_accepted(
    payload: Seq<u8>,
    command: MotorCommand,
    now: u32,
    active: Option<Seq<u8>>,
)
    requires
        parsed_command(payload) == Ok::<MotorCommand, MotorCommandValidationError>(command),
        active != Some(command.command_id),
    ensures
        CommandLog::empty().pending is None,
        is_full(CommandLog::empty().history) == false,
        write_outcome(CommandLog::empty(), payload, now, active) == WriteOutcome::Accepted(command),
{
    let log = CommandLog::empty();
    assert(log.history[0] is None);
    law_valid_command_is_accepted_unless_known(log, payload, command, now, active);
    assert forall|i: int| 0 <= i < log.history.len() implies #[trigger] log.history[i] is None by {}
}

} // verus!
