//! Persistence-job protocol v1 shared contract.
//!
//! Defines the fixed controller wire format, the compatibility mappings and the
//! deterministic policy decisions of the persistence-job protocol. Codecs read
//! borrowed input and write into caller-provided output buffers.

use vstd::prelude::*;
use vstd::bytes::{
    spec_u16_from_le_bytes, spec_u16_to_le_bytes, spec_u32_from_le_bytes, spec_u32_to_le_bytes,
    u16_from_le_bytes, u16_to_le_bytes, u32_from_le_bytes, u32_to_le_bytes,
};
use crate::wire::{bytes_equal, flatten, lemma_write_chunks, parts_view, read_slice, read_u8, splice, write_all, write_chunks};

verus! {

pub const FILESYSTEM_FEATURE_PERSISTENCE_JOBS: u32 = 16;
pub const REQUEST_MESSAGE_ID: u8 = 0xFC;
pub const RESPONSE_MESSAGE_ID: u8 = 0xFD;
pub const SCHEMA: u8 = 1;
/// "FsJobRequest" in ASCII.
pub const REQUEST_NAME: [u8; 12] = [0x46, 0x73, 0x4A, 0x6F, 0x62, 0x52, 0x65, 0x71, 0x75, 0x65, 0x73, 0x74];
/// "FsJobResponse" in ASCII.
pub const RESPONSE_NAME: [u8; 13] = [0x46, 0x73, 0x4A, 0x6F, 0x62, 0x52, 0x65, 0x73, 0x70, 0x6F, 0x6E, 0x73, 0x65];

pub const REQUEST_APPLICATION_HEADER_BYTES: usize = 16;
pub const RESPONSE_APPLICATION_HEADER_BYTES: usize = 20;
pub const CAPABILITIES_BODY_BYTES: usize = 24;
pub const MAX_INNER_REQUEST_BYTES: usize = 32_512;
pub const MAX_INNER_RESPONSE_BYTES: usize = 32_512;
pub const MAX_TOTAL_DEADLINE_MS: u32 = 10_000;
pub const TERMINAL_RETENTION_MS: u32 = 30_000;
pub const MAX_PROGRESS_PER_MILLE: u32 = 1_000;
pub const MAX_CONCURRENT_JOBS: u8 = 2;
pub const BRIDGE_JOB_PROTOCOL_VERSION: u8 = 1;

pub const FEATURE_START: u32 = 1;
pub const FEATURE_POLL: u32 = 2;
pub const FEATURE_CANCEL: u32 = 4;
pub const FEATURE_TERMINAL_RETENTION: u32 = 8;
pub const FEATURE_TYPED_ERRORS: u32 = 16;
pub const FEATURE_LEGACY_MAPPING: u32 = 32;
/// Union of every v1 feature bit.
pub const ALL_FEATURES: u32 = 0x3F;

pub const FLAG_DUPLICATE_START: u8 = 1;
pub const FLAG_LEGACY_MAPPED: u8 = 2;
pub const FLAG_TERMINAL_RETAINED: u8 = 4;
pub const FLAG_CANCEL_TOO_LATE: u8 = 8;
/// Union of every v1 response flag.
pub const ALL_RESPONSE_FLAGS: u8 = 0x0F;

// =============================================================================
// Wire enumerations
// =============================================================================

#[derive(Debug, Clone, Copy, PartialEq, Eq, Structural)]
pub enum Command {
    Capabilities,
    Start,
    Poll,
    Cancel,
}

impl Command {
    /// Wire value of the command.
    pub open spec fn wire(self) -> u8 {
        match self {
            Command::Capabilities => 0,
            Command::Start => 1,
            Command::Poll => 2,
            Command::Cancel => 3,
        }
    }

    pub open spec fn from_wire(value: u8) -> Option<Command> {
        if value == 0 {
            Some(Command::Capabilities)
        } else if value == 1 {
            Some(Command::Start)
        } else if value == 2 {
            Some(Command::Poll)
        } else if value == 3 {
            Some(Command::Cancel)
        } else {
            None
        }
    }

    pub fn wire_value(self) -> (v: u8)
        ensures
            v == self.wire(),
    {
        match self {
            Command::Capabilities => 0,
            Command::Start => 1,
            Command::Poll => 2,
            Command::Cancel => 3,
        }
    }

    pub fn decode(value: u8) -> (res: Result<Self, CodecError>)
        ensures
            res == (match Command::from_wire(value) {
                Some(c) => Ok(c),
                None => Err(CodecError::UnknownCommand),
            }),
    {
        match value {
            0 => Ok(Command::Capabilities),
            1 => Ok(Command::Start),
            2 => Ok(Command::Poll),
            3 => Ok(Command::Cancel),
            _ => Err(CodecError::UnknownCommand),
        }
    }
}

#[derive(Debug, Clone, Copy, PartialEq, Eq, Structural)]
pub enum JobState {
    NoState,
    Accepted,
    Pending,
    Completed,
    CancelPending,
    Cancelled,
    Failed,
    Rejected,
}

impl JobState {
    pub open spec fn wire(self) -> u8 {
        match self {
            JobState::NoState => 0,
            JobState::Accepted => 1,
            JobState::Pending => 2,
            JobState::Completed => 3,
            JobState::CancelPending => 4,
            JobState::Cancelled => 5,
            JobState::Failed => 6,
            JobState::Rejected => 7,
        }
    }

    pub open spec fn from_wire(value: u8) -> Option<JobState> {
        if value == 0 {
            Some(JobState::NoState)
        } else if value == 1 {
            Some(JobState::Accepted)
        } else if value == 2 {
            Some(JobState::Pending)
        } else if value == 3 {
            Some(JobState::Completed)
        } else if value == 4 {
            Some(JobState::CancelPending)
        } else if value == 5 {
            Some(JobState::Cancelled)
        } else if value == 6 {
            Some(JobState::Failed)
        } else if value == 7 {
            Some(JobState::Rejected)
        } else {
            None
        }
    }

    /// Terminal states: a job in one of them never changes again.
    pub open spec fn terminal(self) -> bool {
        self == JobState::Completed || self == JobState::Cancelled || self == JobState::Failed
            || self == JobState::Rejected
    }

    pub fn wire_value(self) -> (v: u8)
        ensures
            v == self.wire(),
    {
        match self {
            JobState::NoState => 0,
            JobState::Accepted => 1,
            JobState::Pending => 2,
            JobState::Completed => 3,
            JobState::CancelPending => 4,
            JobState::Cancelled => 5,
            JobState::Failed => 6,
            JobState::Rejected => 7,
        }
    }

    pub fn decode(value: u8) -> (res: Result<Self, CodecError>)
        ensures
            res == (match JobState::from_wire(value) {
                Some(s) => Ok(s),
                None => Err(CodecError::UnknownState),
            }),
    {
        match value {
            0 => Ok(JobState::NoState),
            1 => Ok(JobState::Accepted),
            2 => Ok(JobState::Pending),
            3 => Ok(JobState::Completed),
            4 => Ok(JobState::CancelPending),
            5 => Ok(JobState::Cancelled),
            6 => Ok(JobState::Failed),
            7 => Ok(JobState::Rejected),
            _ => Err(CodecError::UnknownState),
        }
    }

    pub fn is_terminal(self) -> (r: bool)
        ensures
            r == self.terminal(),
    {
        match self {
            JobState::Completed | JobState::Cancelled | JobState::Failed | JobState::Rejected => true,
            _ => false,
        }
    }
}

#[derive(Debug, Clone, Copy, PartialEq, Eq, Structural)]
pub enum JobError {
    NoError,
    InvalidMessage,
    InvalidArgument,
    Unsupported,
    NotFound,
    BusyPlaying,
    ResourceExhausted,
    Conflict,
    PreconditionFailed,
    DeadlineExceeded,
    MediaChanged,
    StorageUnavailable,
    StorageReadFailed,
    StorageWriteFailed,
    StorageCorrupt,
    Cancelled,
    Internal,
    LegacyBusy,
    LegacyStorageError,
}

impl JobError {
    pub open spec fn wire(self) -> u8 {
        match self {
            JobError::NoError => 0,
            JobError::InvalidMessage => 1,
            JobError::InvalidArgument => 2,
            JobError::Unsupported => 3,
            JobError::NotFound => 4,
            JobError::BusyPlaying => 5,
            JobError::ResourceExhausted => 6,
            JobError::Conflict => 7,
            JobError::PreconditionFailed => 8,
            JobError::DeadlineExceeded => 9,
            JobError::MediaChanged => 10,
            JobError::StorageUnavailable => 11,
            JobError::StorageReadFailed => 12,
            JobError::StorageWriteFailed => 13,
            JobError::StorageCorrupt => 14,
            JobError::Cancelled => 15,
            JobError::Internal => 16,
            JobError::LegacyBusy => 17,
            JobError::LegacyStorageError => 18,
        }
    }

    pub open spec fn from_wire(value: u8) -> Option<JobError> {
        if value == 0 {
            Some(JobError::NoError)
        } else if value == 1 {
            Some(JobError::InvalidMessage)
        } else if value == 2 {
            Some(JobError::InvalidArgument)
        } else if value == 3 {
            Some(JobError::Unsupported)
        } else if value == 4 {
            Some(JobError::NotFound)
        } else if value == 5 {
            Some(JobError::BusyPlaying)
        } else if value == 6 {
            Some(JobError::ResourceExhausted)
        } else if value == 7 {
            Some(JobError::Conflict)
        } else if value == 8 {
            Some(JobError::PreconditionFailed)
        } else if value == 9 {
            Some(JobError::DeadlineExceeded)
        } else if value == 10 {
            Some(JobError::MediaChanged)
        } else if value == 11 {
            Some(JobError::StorageUnavailable)
        } else if value == 12 {
            Some(JobError::StorageReadFailed)
        } else if value == 13 {
            Some(JobError::StorageWriteFailed)
        } else if value == 14 {
            Some(JobError::StorageCorrupt)
        } else if value == 15 {
            Some(JobError::Cancelled)
        } else if value == 16 {
            Some(JobError::Internal)
        } else if value == 17 {
            Some(JobError::LegacyBusy)
        } else if value == 18 {
            Some(JobError::LegacyStorageError)
        } else {
            None
        }
    }

    pub fn wire_value(self) -> (v: u8)
        ensures
            v == self.wire(),
    {
        match self {
            JobError::NoError => 0,
            JobError::InvalidMessage => 1,
            JobError::InvalidArgument => 2,
            JobError::Unsupported => 3,
            JobError::NotFound => 4,
            JobError::BusyPlaying => 5,
            JobError::ResourceExhausted => 6,
            JobError::Conflict => 7,
            JobError::PreconditionFailed => 8,
            JobError::DeadlineExceeded => 9,
            JobError::MediaChanged => 10,
            JobError::StorageUnavailable => 11,
            JobError::StorageReadFailed => 12,
            JobError::StorageWriteFailed => 13,
            JobError::StorageCorrupt => 14,
            JobError::Cancelled => 15,
            JobError::Internal => 16,
            JobError::LegacyBusy => 17,
            JobError::LegacyStorageError => 18,
        }
    }

    pub fn decode(value: u8) -> (res: Result<Self, CodecError>)
        ensures
            res == (match JobError::from_wire(value) {
                Some(e) => Ok(e),
                None => Err(CodecError::UnknownError),
            }),
    {
        match value {
            0 => Ok(JobError::NoError),
            1 => Ok(JobError::InvalidMessage),
            2 => Ok(JobError::InvalidArgument),
            3 => Ok(JobError::Unsupported),
            4 => Ok(JobError::NotFound),
            5 => Ok(JobError::BusyPlaying),
            6 => Ok(JobError::ResourceExhausted),
            7 => Ok(JobError::Conflict),
            8 => Ok(JobError::PreconditionFailed),
            9 => Ok(JobError::DeadlineExceeded),
            10 => Ok(JobError::MediaChanged),
            11 => Ok(JobError::StorageUnavailable),
            12 => Ok(JobError::StorageReadFailed),
            13 => Ok(JobError::StorageWriteFailed),
            14 => Ok(JobError::StorageCorrupt),
            15 => Ok(JobError::Cancelled),
            16 => Ok(JobError::Internal),
            17 => Ok(JobError::LegacyBusy),
            18 => Ok(JobError::LegacyStorageError),
            _ => Err(CodecError::UnknownError),
        }
    }
}

#[derive(Debug, Clone, Copy, PartialEq, Eq, Structural)]
pub enum LegacyStatus {
    Success,
    InvalidMessage,
    InvalidArgument,
    NotFound,
    Busy,
    TooLarge,
    StorageError,
    InvalidState,
    Unsupported,
    PreconditionFailed,
}

impl LegacyStatus {
    pub open spec fn wire(self) -> u8 {
        match self {
            LegacyStatus::Success => 0,
            LegacyStatus::InvalidMessage => 1,
            LegacyStatus::InvalidArgument => 2,
            LegacyStatus::NotFound => 3,
            LegacyStatus::Busy => 4,
            LegacyStatus::TooLarge => 5,
            LegacyStatus::StorageError => 6,
            LegacyStatus::InvalidState => 7,
            LegacyStatus::Unsupported => 8,
            LegacyStatus::PreconditionFailed => 9,
        }
    }

    pub open spec fn from_wire(value: u8) -> Option<LegacyStatus> {
        if value == 0 {
            Some(LegacyStatus::Success)
        } else if value == 1 {
            Some(LegacyStatus::InvalidMessage)
        } else if value == 2 {
            Some(LegacyStatus::InvalidArgument)
        } else if value == 3 {
            Some(LegacyStatus::NotFound)
        } else if value == 4 {
            Some(LegacyStatus::Busy)
        } else if value == 5 {
            Some(LegacyStatus::TooLarge)
        } else if value == 6 {
            Some(LegacyStatus::StorageError)
        } else if value == 7 {
            Some(LegacyStatus::InvalidState)
        } else if value == 8 {
            Some(LegacyStatus::Unsupported)
        } else if value == 9 {
            Some(LegacyStatus::PreconditionFailed)
        } else {
            None
        }
    }

    pub fn wire_value(self) -> (v: u8)
        ensures
            v == self.wire(),
    {
        match self {
            LegacyStatus::Success => 0,
            LegacyStatus::InvalidMessage => 1,
            LegacyStatus::InvalidArgument => 2,
            LegacyStatus::NotFound => 3,
            LegacyStatus::Busy => 4,
            LegacyStatus::TooLarge => 5,
            LegacyStatus::StorageError => 6,
            LegacyStatus::InvalidState => 7,
            LegacyStatus::Unsupported => 8,
            LegacyStatus::PreconditionFailed => 9,
        }
    }

    pub fn decode(value: u8) -> (res: Result<Self, CodecError>)
        ensures
            res == (match LegacyStatus::from_wire(value) {
                Some(s) => Ok(s),
                None => Err(CodecError::UnknownLegacyStatus),
            }),
    {
        match value {
            0 => Ok(LegacyStatus::Success),
            1 => Ok(LegacyStatus::InvalidMessage),
            2 => Ok(LegacyStatus::InvalidArgument),
            3 => Ok(LegacyStatus::NotFound),
            4 => Ok(LegacyStatus::Busy),
            5 => Ok(LegacyStatus::TooLarge),
            6 => Ok(LegacyStatus::StorageError),
            7 => Ok(LegacyStatus::InvalidState),
            8 => Ok(LegacyStatus::Unsupported),
            9 => Ok(LegacyStatus::PreconditionFailed),
            _ => Err(CodecError::UnknownLegacyStatus),
        }
    }
}

#[derive(Debug, Clone, Copy, PartialEq, Eq, Structural)]
pub enum CodecError {
    BufferTooSmall,
    Truncated,
    InvalidMessageId,
    InvalidMessageName,
    UnsupportedSchema,
    UnknownCommand,
    UnknownState,
    UnknownError,
    UnknownLegacyStatus,
    InvalidFlags,
    InvalidReserved,
    InvalidIdentity,
    InvalidDeadline,
    InvalidBody,
    InvalidProgress,
    LimitExceeded,
}


// =============================================================================
// Messages
// =============================================================================

#[derive(Debug, Clone, Copy, PartialEq, Eq)]
pub struct JobRequest<'a> {
    pub request_id: u16,
    pub command: Command,
    pub client_nonce: u32,
    pub job_id: u32,
    pub total_deadline_ms: u32,
    pub inner_request: &'a [u8],
}

/// Abstract request: (request_id, command, client_nonce, job_id, total_deadline_ms, inner_request).
pub type RequestView = (u16, Command, u32, u32, u32, Seq<u8>);

impl<'a> View for JobRequest<'a> {
    type V = RequestView;

    open spec fn view(&self) -> RequestView {
        (
            self.request_id,
            self.command,
            self.client_nonce,
            self.job_id,
            self.total_deadline_ms,
            self.inner_request@,
        )
    }
}

#[derive(Debug, Clone, Copy, PartialEq, Eq)]
pub struct JobResponse<'a> {
    pub request_id: u16,
    pub command: Command,
    pub state: JobState,
    pub error: JobError,
    pub flags: u8,
    pub client_nonce: u32,
    pub job_id: u32,
    pub retry_after_ms: u32,
    pub progress_per_mille: u32,
    pub body: &'a [u8],
}

/// Abstract response: (request_id, command, state, error, flags, client_nonce, job_id,
/// retry_after_ms, progress_per_mille, body).
pub type ResponseView = (u16, Command, JobState, JobError, u8, u32, u32, u32, u32, Seq<u8>);

impl<'a> View for JobResponse<'a> {
    type V = ResponseView;

    open spec fn view(&self) -> ResponseView {
        (
            self.request_id,
            self.command,
            self.state,
            self.error,
            self.flags,
            self.client_nonce,
            self.job_id,
            self.retry_after_ms,
            self.progress_per_mille,
            self.body@,
        )
    }
}

#[derive(Debug, Clone, Copy, PartialEq, Eq, Structural)]
pub struct Capabilities {
    pub protocol_version: u8,
    pub max_concurrent_jobs: u8,
    pub feature_flags: u32,
    pub max_inner_request_bytes: u32,
    pub max_inner_response_bytes: u32,
    pub max_total_deadline_ms: u32,
    pub terminal_retention_ms: u32,
}

pub open spec fn le16(v: u16) -> Seq<u8> {
    spec_u16_to_le_bytes(v)
}

pub open spec fn le32(v: u32) -> Seq<u8> {
    spec_u32_to_le_bytes(v)
}

/// How an encoder's outcome relates to its validation result and wire chunks:
/// invalid input fails with the validation error and leaves `out` untouched;
/// valid input is written chunk by chunk, failing with `BufferTooSmall` at the
/// first chunk that does not fit.
pub open spec fn encode_outcome(
    old_out: Seq<u8>,
    validation: Result<(), CodecError>,
    chunks: Seq<Seq<u8>>,
    new_out: Seq<u8>,
    res: Result<usize, CodecError>,
) -> bool {
    match validation {
        Err(e) => res == Err::<usize, CodecError>(e) && new_out == old_out,
        Ok(_) => {
            &&& write_chunks(old_out, 0, chunks) == (new_out, match res {
                Ok(n) => Some(n as int),
                Err(_) => None,
            })
            &&& (res is Err ==> res == Err::<usize, CodecError>(CodecError::BufferTooSmall))
            &&& (res is Ok <==> flatten(chunks).len() <= old_out.len())
            &&& (res matches Ok(n) ==> n == flatten(chunks).len() && new_out == splice(
                old_out,
                0,
                flatten(chunks),
            ))
        },
    }
}

pub open spec fn capabilities_v1() -> Capabilities {
    Capabilities {
        protocol_version: BRIDGE_JOB_PROTOCOL_VERSION,
        max_concurrent_jobs: MAX_CONCURRENT_JOBS,
        feature_flags: ALL_FEATURES,
        max_inner_request_bytes: 32_512,
        max_inner_response_bytes: 32_512,
        max_total_deadline_ms: MAX_TOTAL_DEADLINE_MS,
        terminal_retention_ms: TERMINAL_RETENTION_MS,
    }
}

pub open spec fn validate_capabilities_spec(c: Capabilities) -> Result<(), CodecError> {
    if c.protocol_version != BRIDGE_JOB_PROTOCOL_VERSION || c.max_concurrent_jobs
        != MAX_CONCURRENT_JOBS {
        Err(CodecError::UnsupportedSchema)
    } else if c.feature_flags != ALL_FEATURES {
        Err(CodecError::InvalidFlags)
    } else if c.max_inner_request_bytes != 32_512 || c.max_inner_response_bytes != 32_512
        || c.max_total_deadline_ms != MAX_TOTAL_DEADLINE_MS || c.terminal_retention_ms
        != TERMINAL_RETENTION_MS {
        Err(CodecError::InvalidBody)
    } else {
        Ok(())
    }
}

pub open spec fn capabilities_chunks(c: Capabilities) -> Seq<Seq<u8>> {
    seq![
        seq![c.protocol_version],
        seq![c.max_concurrent_jobs],
        le16(0),
        le32(c.feature_flags),
        le32(c.max_inner_request_bytes),
        le32(c.max_inner_response_bytes),
        le32(c.max_total_deadline_ms),
        le32(c.terminal_retention_ms),
    ]
}

pub open spec fn decode_capabilities_spec(d: Seq<u8>) -> Result<Capabilities, CodecError> {
    if d.len() != 24 {
        Err(CodecError::InvalidBody)
    } else if spec_u16_from_le_bytes(d.subrange(2, 4)) != 0 {
        Err(CodecError::InvalidReserved)
    } else {
        let c = Capabilities {
            protocol_version: d[0],
            max_concurrent_jobs: d[1],
            feature_flags: spec_u32_from_le_bytes(d.subrange(4, 8)),
            max_inner_request_bytes: spec_u32_from_le_bytes(d.subrange(8, 12)),
            max_inner_response_bytes: spec_u32_from_le_bytes(d.subrange(12, 16)),
            max_total_deadline_ms: spec_u32_from_le_bytes(d.subrange(16, 20)),
            terminal_retention_ms: spec_u32_from_le_bytes(d.subrange(20, 24)),
        };
        match validate_capabilities_spec(c) {
            Err(e) => Err(e),
            Ok(_) => Ok(c),
        }
    }
}

fn validate_capabilities(capabilities: Capabilities) -> (res: Result<(), CodecError>)
    ensures
        res == validate_capabilities_spec(capabilities),
{
    if capabilities.protocol_version != BRIDGE_JOB_PROTOCOL_VERSION
        || capabilities.max_concurrent_jobs != MAX_CONCURRENT_JOBS {
        return Err(CodecError::UnsupportedSchema);
    }
    if capabilities.feature_flags != ALL_FEATURES {
        return Err(CodecError::InvalidFlags);
    }
    if capabilities.max_inner_request_bytes != 32_512 || capabilities.max_inner_response_bytes
        != 32_512 || capabilities.max_total_deadline_ms != MAX_TOTAL_DEADLINE_MS
        || capabilities.terminal_retention_ms != TERMINAL_RETENTION_MS {
        return Err(CodecError::InvalidBody);
    }
    Ok(())
}

impl Capabilities {
    /// The only capability set of protocol v1.
    pub fn v1() -> (c: Capabilities)
        ensures
            c == capabilities_v1(),
    {
        Capabilities {
            protocol_version: BRIDGE_JOB_PROTOCOL_VERSION,
            max_concurrent_jobs: MAX_CONCURRENT_JOBS,
            feature_flags: ALL_FEATURES,
            max_inner_request_bytes: 32_512,
            max_inner_response_bytes: 32_512,
            max_total_deadline_ms: MAX_TOTAL_DEADLINE_MS,
            terminal_retention_ms: TERMINAL_RETENTION_MS,
        }
    }

    pub fn encode(self, out: &mut [u8]) -> (res: Result<usize, CodecError>)
        ensures
            final(out)@.len() == old(out)@.len(),
            encode_outcome(
                old(out)@,
                validate_capabilities_spec(self),
                capabilities_chunks(self),
                final(out)@,
                res,
            ),
    {
        validate_capabilities(self)?;
        let zero = u16_to_le_bytes(0);
        let ff = u32_to_le_bytes(self.feature_flags);
        let a = u32_to_le_bytes(self.max_inner_request_bytes);
        let b = u32_to_le_bytes(self.max_inner_response_bytes);
        let c = u32_to_le_bytes(self.max_total_deadline_ms);
        let d = u32_to_le_bytes(self.terminal_retention_ms);
        let pv = [self.protocol_version];
        let mcj = [self.max_concurrent_jobs];
        let parts: [&[u8]; 8] = [
            pv.as_slice(),
            mcj.as_slice(),
            zero.as_slice(),
            ff.as_slice(),
            a.as_slice(),
            b.as_slice(),
            c.as_slice(),
            d.as_slice(),
        ];
        assert(pv@ =~= seq![self.protocol_version]);
        assert(mcj@ =~= seq![self.max_concurrent_jobs]);
        assert(parts@.len() == 8);
        assert(parts@[0]@ == pv@);
        assert(parts@[1]@ == mcj@);
        assert(parts@[2]@ == zero@);
        assert(parts_view(parts@) =~= capabilities_chunks(self));
        proof {
            lemma_write_chunks(old(out)@, 0, capabilities_chunks(self));
        }
        match write_all(out, parts.as_slice()) {
            Some(n) => Ok(n),
            None => Err(CodecError::BufferTooSmall),
        }
    }

    pub fn decode(data: &[u8]) -> (res: Result<Self, CodecError>)
        ensures
            res == decode_capabilities_spec(data@),
    {
        if data.len() != CAPABILITIES_BODY_BYTES {
            return Err(CodecError::InvalidBody);
        }
        if u16_from_le_bytes(&data[2..4]) != 0 {
            return Err(CodecError::InvalidReserved);
        }
        let capabilities = Capabilities {
            protocol_version: data[0],
            max_concurrent_jobs: data[1],
            feature_flags: u32_from_le_bytes(&data[4..8]),
            max_inner_request_bytes: u32_from_le_bytes(&data[8..12]),
            max_inner_response_bytes: u32_from_le_bytes(&data[12..16]),
            max_total_deadline_ms: u32_from_le_bytes(&data[16..20]),
            terminal_retention_ms: u32_from_le_bytes(&data[20..24]),
        };
        validate_capabilities(capabilities)?;
        Ok(capabilities)
    }
}


// =============================================================================
// Legacy inner frames
// =============================================================================

pub open spec fn legacy_request_id(value: u8) -> bool {
    value == 0xE0 || value == 0xE2 || value == 0xE4 || value == 0xE6 || value == 0xE8 || value
        == 0xEA || value == 0xEC || value == 0xF0 || value == 0xF2 || value == 0xF4 || value == 0xF6
        || value == 0xF8 || value == 0xFA
}

pub open spec fn legacy_response_id(value: u8) -> bool {
    value == 0xE1 || value == 0xE3 || value == 0xE5 || value == 0xE7 || value == 0xE9 || value
        == 0xEB || value == 0xED || value == 0xEF || value == 0xF1 || value == 0xF3 || value == 0xF5
        || value == 0xF7 || value == 0xF9 || value == 0xFB
}

/// A legacy frame: a valid message id, a name length, the name, the schema byte
/// and room for the two request-id bytes.
pub open spec fn legacy_frame(data: Seq<u8>, response: bool) -> bool {
    &&& data.len() >= 5
    &&& (if response {
        legacy_response_id(data[0])
    } else {
        legacy_request_id(data[0])
    })
    &&& 2 + data[1] + 3 <= data.len()
    &&& data[2 + data[1]] == SCHEMA
}

fn is_legacy_request_id(value: u8) -> (r: bool)
    ensures
        r == legacy_request_id(value),
{
    match value {
        0xE0 | 0xE2 | 0xE4 | 0xE6 | 0xE8 | 0xEA | 0xEC | 0xF0 | 0xF2 | 0xF4 | 0xF6 | 0xF8
        | 0xFA => true,
        _ => false,
    }
}

fn is_legacy_response_id(value: u8) -> (r: bool)
    ensures
        r == legacy_response_id(value),
{
    match value {
        0xE1 | 0xE3 | 0xE5 | 0xE7 | 0xE9 | 0xEB | 0xED | 0xEF | 0xF1 | 0xF3 | 0xF5 | 0xF7 | 0xF9
        | 0xFB => true,
        _ => false,
    }
}

fn is_legacy_frame(data: &[u8], response: bool) -> (r: bool)
    ensures
        r == legacy_frame(data@, response),
{
    if data.len() < 5 {
        return false;
    }
    let valid_id = if response {
        is_legacy_response_id(data[0])
    } else {
        is_legacy_request_id(data[0])
    };
    if !valid_id {
        return false;
    }
    let name_length = data[1] as usize;
    let schema_offset = 2 + name_length;
    let header_bytes = schema_offset + 3;
    header_bytes <= data.len() && data[schema_offset] == SCHEMA
}

// =============================================================================
// Validation
// =============================================================================

pub open spec fn validate_request_spec(r: RequestView) -> Result<(), CodecError> {
    let (_, command, nonce, job_id, deadline, inner) = r;
    match command {
        Command::Capabilities => {
            if nonce != 0 || job_id != 0 || deadline != 0 || inner.len() != 0 {
                Err(CodecError::InvalidBody)
            } else {
                Ok(())
            }
        },
        Command::Start => {
            if nonce == 0 || job_id != 0 {
                Err(CodecError::InvalidIdentity)
            } else if deadline == 0 || deadline > MAX_TOTAL_DEADLINE_MS {
                Err(CodecError::InvalidDeadline)
            } else if inner.len() > MAX_INNER_REQUEST_BYTES {
                Err(CodecError::LimitExceeded)
            } else if !legacy_frame(inner, false) {
                Err(CodecError::InvalidBody)
            } else {
                Ok(())
            }
        },
        _ => {
            if nonce == 0 || job_id == 0 {
                Err(CodecError::InvalidIdentity)
            } else if deadline != 0 {
                Err(CodecError::InvalidDeadline)
            } else if inner.len() != 0 {
                Err(CodecError::InvalidBody)
            } else {
                Ok(())
            }
        },
    }
}

fn validate_request(request: JobRequest<'_>) -> (res: Result<(), CodecError>)
    ensures
        res == validate_request_spec(request@),
{
    match request.command {
        Command::Capabilities => {
            if request.client_nonce != 0 || request.job_id != 0 || request.total_deadline_ms != 0
                || !request.inner_request.is_empty() {
                return Err(CodecError::InvalidBody);
            }
        },
        Command::Start => {
            if request.client_nonce == 0 || request.job_id != 0 {
                return Err(CodecError::InvalidIdentity);
            }
            if request.total_deadline_ms == 0 || request.total_deadline_ms > MAX_TOTAL_DEADLINE_MS {
                return Err(CodecError::InvalidDeadline);
            }
            if request.inner_request.len() > MAX_INNER_REQUEST_BYTES {
                return Err(CodecError::LimitExceeded);
            }
            if !is_legacy_frame(request.inner_request, false) {
                return Err(CodecError::InvalidBody);
            }
        },
        Command::Poll | Command::Cancel => {
            if request.client_nonce == 0 || request.job_id == 0 {
                return Err(CodecError::InvalidIdentity);
            }
            if request.total_deadline_ms != 0 {
                return Err(CodecError::InvalidDeadline);
            }
            if !request.inner_request.is_empty() {
                return Err(CodecError::InvalidBody);
            }
        },
    }
    Ok(())
}

pub open spec fn active_state(s: JobState) -> bool {
    s == JobState::Accepted || s == JobState::Pending || s == JobState::CancelPending
}

/// The checks on a response's identity, state, error, timing, body and flags, in
/// the order in which they are made.
pub open spec fn validate_response_spec(r: ResponseView) -> Result<(), CodecError> {
    let (_, command, state, error, flags, nonce, job_id, retry, progress, body) = r;
    if flags & !ALL_RESPONSE_FLAGS != 0 {
        Err(CodecError::InvalidFlags)
    } else if progress > MAX_PROGRESS_PER_MILLE {
        Err(CodecError::InvalidProgress)
    } else if command == Command::Capabilities {
        if state != JobState::NoState || error != JobError::NoError || flags != 0 || nonce != 0
            || job_id != 0 || retry != 0 || progress != 0 {
            Err(CodecError::InvalidBody)
        } else {
            match decode_capabilities_spec(body) {
                Err(e) => Err(e),
                Ok(_) => Ok(()),
            }
        }
    } else if nonce == 0 {
        Err(CodecError::InvalidIdentity)
    } else if command != Command::Start && job_id == 0 {
        Err(CodecError::InvalidIdentity)
    } else if command == Command::Start && job_id == 0 && (state != JobState::Rejected || error
        == JobError::Conflict) {
        Err(CodecError::InvalidIdentity)
    } else if state == JobState::NoState {
        Err(CodecError::InvalidBody)
    } else if (active_state(state) || state == JobState::Completed) && error != JobError::NoError {
        Err(CodecError::InvalidBody)
    } else if state == JobState::Cancelled && error != JobError::Cancelled {
        Err(CodecError::InvalidBody)
    } else if (state == JobState::Failed || state == JobState::Rejected) && error
        == JobError::NoError {
        Err(CodecError::InvalidBody)
    } else if active_state(state) && retry > MAX_TOTAL_DEADLINE_MS {
        Err(CodecError::InvalidDeadline)
    } else if !active_state(state) && retry != 0 {
        Err(CodecError::InvalidDeadline)
    } else if state == JobState::Completed && body.len() > MAX_INNER_RESPONSE_BYTES {
        Err(CodecError::LimitExceeded)
    } else if state == JobState::Completed && !legacy_frame(body, true) {
        Err(CodecError::InvalidBody)
    } else if state != JobState::Completed && body.len() != 0 {
        Err(CodecError::InvalidBody)
    } else if flags & FLAG_DUPLICATE_START != 0 && (command != Command::Start || job_id == 0
        || state == JobState::Rejected) {
        Err(CodecError::InvalidFlags)
    } else if flags & FLAG_TERMINAL_RETAINED != 0 && (command != Command::Poll
        || !state.terminal()) {
        Err(CodecError::InvalidFlags)
    } else if flags & FLAG_CANCEL_TOO_LATE != 0 && (command != Command::Cancel || !(state
        == JobState::Pending || state == JobState::Completed || state == JobState::Failed)) {
        Err(CodecError::InvalidFlags)
    } else if (error == JobError::LegacyBusy || error == JobError::LegacyStorageError) && flags
        & FLAG_LEGACY_MAPPED == 0 {
        Err(CodecError::InvalidFlags)
    } else if (state == JobState::NoState || state == JobState::Rejected) && progress != 0 {
        Err(CodecError::InvalidProgress)
    } else {
        Ok(())
    }
}

fn validate_response(response: JobResponse<'_>) -> (res: Result<(), CodecError>)
    ensures
        res == validate_response_spec(response@),
{
    if response.flags & !ALL_RESPONSE_FLAGS != 0 {
        return Err(CodecError::InvalidFlags);
    }
    if response.progress_per_mille > MAX_PROGRESS_PER_MILLE {
        return Err(CodecError::InvalidProgress);
    }
    if response.command == Command::Capabilities {
        if response.state != JobState::NoState || response.error != JobError::NoError
            || response.flags != 0 || response.client_nonce != 0 || response.job_id != 0
            || response.retry_after_ms != 0 || response.progress_per_mille != 0 {
            return Err(CodecError::InvalidBody);
        }
        Capabilities::decode(response.body)?;
        return Ok(());
    }
    if response.client_nonce == 0 {
        return Err(CodecError::InvalidIdentity);
    }
    if response.command != Command::Start && response.job_id == 0 {
        return Err(CodecError::InvalidIdentity);
    }
    if response.command == Command::Start && response.job_id == 0 && (response.state
        != JobState::Rejected || response.error == JobError::Conflict) {
        return Err(CodecError::InvalidIdentity);
    }
    match response.state {
        JobState::NoState => {
            return Err(CodecError::InvalidBody);
        },
        JobState::Accepted | JobState::Pending | JobState::CancelPending | JobState::Completed => {
            if response.error != JobError::NoError {
                return Err(CodecError::InvalidBody);
            }
        },
        JobState::Cancelled => {
            if response.error != JobError::Cancelled {
                return Err(CodecError::InvalidBody);
            }
        },
        JobState::Failed | JobState::Rejected => {
            if response.error == JobError::NoError {
                return Err(CodecError::InvalidBody);
            }
        },
    }
    let active = match response.state {
        JobState::Accepted | JobState::Pending | JobState::CancelPending => true,
        _ => false,
    };
    if active {
        if response.retry_after_ms > MAX_TOTAL_DEADLINE_MS {
            return Err(CodecError::InvalidDeadline);
        }
    } else if response.retry_after_ms != 0 {
        return Err(CodecError::InvalidDeadline);
    }
    if response.state == JobState::Completed {
        if response.body.len() > MAX_INNER_RESPONSE_BYTES {
            return Err(CodecError::LimitExceeded);
        }
        if !is_legacy_frame(response.body, true) {
            return Err(CodecError::InvalidBody);
        }
    } else if !response.body.is_empty() {
        return Err(CodecError::InvalidBody);
    }
    if response.flags & FLAG_DUPLICATE_START != 0 && (response.command != Command::Start
        || response.job_id == 0 || response.state == JobState::Rejected) {
        return Err(CodecError::InvalidFlags);
    }
    if response.flags & FLAG_TERMINAL_RETAINED != 0 && (response.command != Command::Poll
        || !response.state.is_terminal()) {
        return Err(CodecError::InvalidFlags);
    }
    let too_late_state = match response.state {
        JobState::Pending | JobState::Completed | JobState::Failed => true,
        _ => false,
    };
    if response.flags & FLAG_CANCEL_TOO_LATE != 0 && (response.command != Command::Cancel
        || !too_late_state) {
        return Err(CodecError::InvalidFlags);
    }
    let legacy_error = match response.error {
        JobError::LegacyBusy | JobError::LegacyStorageError => true,
        _ => false,
    };
    if legacy_error && response.flags & FLAG_LEGACY_MAPPED == 0 {
        return Err(CodecError::InvalidFlags);
    }
    let no_progress_state = match response.state {
        JobState::NoState | JobState::Rejected => true,
        _ => false,
    };
    if no_progress_state && response.progress_per_mille != 0 {
        return Err(CodecError::InvalidProgress);
    }
    Ok(())
}


// =============================================================================
// Envelope, request and response codecs
// =============================================================================

pub open spec fn request_chunks(r: RequestView) -> Seq<Seq<u8>> {
    seq![
        seq![REQUEST_MESSAGE_ID],
        seq![12u8],
        REQUEST_NAME@,
        seq![SCHEMA],
        le16(r.0),
        seq![r.1.wire()],
        seq![0u8],
        le16(0),
        le32(r.2),
        le32(r.3),
        le32(r.4),
        r.5,
    ]
}

pub open spec fn response_chunks(r: ResponseView) -> Seq<Seq<u8>> {
    seq![
        seq![RESPONSE_MESSAGE_ID],
        seq![13u8],
        RESPONSE_NAME@,
        seq![SCHEMA],
        le16(r.0),
        seq![r.1.wire()],
        seq![r.2.wire()],
        seq![r.3.wire()],
        seq![r.4],
        le32(r.5),
        le32(r.6),
        le32(r.7),
        le32(r.8),
        r.9,
    ]
}

/// The wire bytes of a request.
pub open spec fn request_bytes(r: RequestView) -> Seq<u8> {
    flatten(request_chunks(r))
}

/// The wire bytes of a response.
pub open spec fn response_bytes(r: ResponseView) -> Seq<u8> {
    flatten(response_chunks(r))
}

/// Reads the envelope: returns the request id and the offset of the application header.
pub open spec fn read_envelope_spec(d: Seq<u8>, message_id: u8, name: Seq<u8>) -> Result<
    (u16, int),
    CodecError,
> {
    if d.len() < 1 {
        Err(CodecError::Truncated)
    } else if d[0] != message_id {
        Err(CodecError::InvalidMessageId)
    } else if d.len() < 2 {
        Err(CodecError::Truncated)
    } else if d.len() < 2 + d[1] {
        Err(CodecError::Truncated)
    } else if d.subrange(2, 2 + d[1]) != name {
        Err(CodecError::InvalidMessageName)
    } else if d.len() < 3 + d[1] {
        Err(CodecError::Truncated)
    } else if d[2 + d[1]] != SCHEMA {
        Err(CodecError::UnsupportedSchema)
    } else if d.len() < 5 + d[1] {
        Err(CodecError::Truncated)
    } else {
        Ok((spec_u16_from_le_bytes(d.subrange(3 + d[1], 5 + d[1])), 5 + d[1]))
    }
}

pub open spec fn decode_request_spec(d: Seq<u8>) -> Result<RequestView, CodecError> {
    match read_envelope_spec(d, REQUEST_MESSAGE_ID, REQUEST_NAME@) {
        Err(e) => Err(e),
        Ok((request_id, p)) => {
            if d.len() < p + 1 {
                Err(CodecError::Truncated)
            } else {
                match Command::from_wire(d[p]) {
                    None => Err(CodecError::UnknownCommand),
                    Some(command) => {
                        if d.len() < p + 2 {
                            Err(CodecError::Truncated)
                        } else if d[p + 1] != 0 {
                            Err(CodecError::InvalidFlags)
                        } else if d.len() < p + 4 {
                            Err(CodecError::Truncated)
                        } else if spec_u16_from_le_bytes(d.subrange(p + 2, p + 4)) != 0 {
                            Err(CodecError::InvalidReserved)
                        } else if d.len() < p + 16 {
                            Err(CodecError::Truncated)
                        } else {
                            let v = (
                                request_id,
                                command,
                                spec_u32_from_le_bytes(d.subrange(p + 4, p + 8)),
                                spec_u32_from_le_bytes(d.subrange(p + 8, p + 12)),
                                spec_u32_from_le_bytes(d.subrange(p + 12, p + 16)),
                                d.subrange(p + 16, d.len() as int),
                            );
                            match validate_request_spec(v) {
                                Err(e) => Err(e),
                                Ok(_) => Ok(v),
                            }
                        }
                    },
                }
            }
        },
    }
}

pub open spec fn decode_response_spec(d: Seq<u8>) -> Result<ResponseView, CodecError> {
    match read_envelope_spec(d, RESPONSE_MESSAGE_ID, RESPONSE_NAME@) {
        Err(e) => Err(e),
        Ok((request_id, p)) => {
            if d.len() < p + 1 {
                Err(CodecError::Truncated)
            } else {
                match Command::from_wire(d[p]) {
                    None => Err(CodecError::UnknownCommand),
                    Some(command) => {
                        if d.len() < p + 2 {
                            Err(CodecError::Truncated)
                        } else {
                            match JobState::from_wire(d[p + 1]) {
                                None => Err(CodecError::UnknownState),
                                Some(state) => {
                                    if d.len() < p + 3 {
                                        Err(CodecError::Truncated)
                                    } else {
                                        match JobError::from_wire(d[p + 2]) {
                                            None => Err(CodecError::UnknownError),
                                            Some(error) => {
                                                if d.len() < p + 20 {
                                                    Err(CodecError::Truncated)
                                                } else {
                                                    let v = (
                                                        request_id,
                                                        command,
                                                        state,
                                                        error,
                                                        d[p + 3],
                                                        spec_u32_from_le_bytes(d.subrange(p + 4, p + 8)),
                                                        spec_u32_from_le_bytes(d.subrange(p + 8, p + 12)),
                                                        spec_u32_from_le_bytes(d.subrange(p + 12, p + 16)),
                                                        spec_u32_from_le_bytes(d.subrange(p + 16, p + 20)),
                                                        d.subrange(p + 20, d.len() as int),
                                                    );
                                                    match validate_response_spec(v) {
                                                        Err(e) => Err(e),
                                                        Ok(_) => Ok(v),
                                                    }
                                                }
                                            },
                                        }
                                    }
                                },
                            }
                        }
                    },
                }
            }
        },
    }
}

fn read_envelope(data: &[u8], expected_message_id: u8, expected_name: &[u8]) -> (res: Result<
    (u16, usize),
    CodecError,
>)
    ensures
        match read_envelope_spec(data@, expected_message_id, expected_name@) {
            Err(e) => res == Err::<(u16, usize), CodecError>(e),
            Ok((id, p)) => res == Ok::<(u16, usize), CodecError>((id, p as usize)),
        },
{
    let message_id = match read_u8(data, 0) {
        Some(v) => v,
        None => return Err(CodecError::Truncated),
    };
    if message_id != expected_message_id {
        return Err(CodecError::InvalidMessageId);
    }
    let name_length = match read_u8(data, 1) {
        Some(v) => v as usize,
        None => return Err(CodecError::Truncated),
    };
    let name = match read_slice(data, 2, name_length) {
        Some(v) => v,
        None => return Err(CodecError::Truncated),
    };
    if !bytes_equal(name, expected_name) {
        return Err(CodecError::InvalidMessageName);
    }
    let schema = match read_u8(data, 2 + name_length) {
        Some(v) => v,
        None => return Err(CodecError::Truncated),
    };
    if schema != SCHEMA {
        return Err(CodecError::UnsupportedSchema);
    }
    let id_bytes = match read_slice(data, 3 + name_length, 2) {
        Some(v) => v,
        None => return Err(CodecError::Truncated),
    };
    Ok((u16_from_le_bytes(id_bytes), 5 + name_length))
}

pub fn encode_request(request: JobRequest<'_>, out: &mut [u8]) -> (res: Result<usize, CodecError>)
    ensures
        final(out)@.len() == old(out)@.len(),
        encode_outcome(
            old(out)@,
            validate_request_spec(request@),
            request_chunks(request@),
            final(out)@,
            res,
        ),
{
    validate_request(request)?;
    let id = [REQUEST_MESSAGE_ID];
    let name_len = [12u8];
    let schema = [SCHEMA];
    let request_id = u16_to_le_bytes(request.request_id);
    let command = [request.command.wire_value()];
    let flags = [0u8];
    let reserved = u16_to_le_bytes(0);
    let nonce = u32_to_le_bytes(request.client_nonce);
    let job_id = u32_to_le_bytes(request.job_id);
    let deadline = u32_to_le_bytes(request.total_deadline_ms);
    let parts: [&[u8]; 12] = [
        id.as_slice(),
        name_len.as_slice(),
        REQUEST_NAME.as_slice(),
        schema.as_slice(),
        request_id.as_slice(),
        command.as_slice(),
        flags.as_slice(),
        reserved.as_slice(),
        nonce.as_slice(),
        job_id.as_slice(),
        deadline.as_slice(),
        request.inner_request,
    ];
    assert(id@ =~= seq![REQUEST_MESSAGE_ID]);
    assert(name_len@ =~= seq![12u8]);
    assert(schema@ =~= seq![SCHEMA]);
    assert(command@ =~= seq![request.command.wire()]);
    assert(flags@ =~= seq![0u8]);
    assert(parts_view(parts@) =~= request_chunks(request@));
    proof {
        lemma_write_chunks(old(out)@, 0, request_chunks(request@));
    }
    match write_all(out, parts.as_slice()) {
        Some(n) => Ok(n),
        None => Err(CodecError::BufferTooSmall),
    }
}

pub fn decode_request<'a>(data: &'a [u8]) -> (res: Result<JobRequest<'a>, CodecError>)
    ensures
        match decode_request_spec(data@) {
            Err(e) => res == Err::<JobRequest<'a>, CodecError>(e),
            Ok(v) => res matches Ok(r) && r@ == v,
        },
{
    let (request_id, p) = read_envelope(data, REQUEST_MESSAGE_ID, REQUEST_NAME.as_slice())?;
    let command = match read_u8(data, p) {
        Some(v) => Command::decode(v)?,
        None => return Err(CodecError::Truncated),
    };
    match read_u8(data, p + 1) {
        Some(v) => {
            if v != 0 {
                return Err(CodecError::InvalidFlags);
            }
        },
        None => return Err(CodecError::Truncated),
    }
    match read_slice(data, p + 2, 2) {
        Some(v) => {
            if u16_from_le_bytes(v) != 0 {
                return Err(CodecError::InvalidReserved);
            }
        },
        None => return Err(CodecError::Truncated),
    }
    if data.len() < p + 16 {
        return Err(CodecError::Truncated);
    }
    let request = JobRequest {
        request_id,
        command,
        client_nonce: u32_from_le_bytes(&data[p + 4..p + 8]),
        job_id: u32_from_le_bytes(&data[p + 8..p + 12]),
        total_deadline_ms: u32_from_le_bytes(&data[p + 12..p + 16]),
        inner_request: &data[p + 16..data.len()],
    };
    validate_request(request)?;
    Ok(request)
}

pub fn encode_response(response: JobResponse<'_>, out: &mut [u8]) -> (res: Result<
    usize,
    CodecError,
>)
    ensures
        final(out)@.len() == old(out)@.len(),
        encode_outcome(
            old(out)@,
            validate_response_spec(response@),
            response_chunks(response@),
            final(out)@,
            res,
        ),
{
    validate_response(response)?;
    let id = [RESPONSE_MESSAGE_ID];
    let name_len = [13u8];
    let schema = [SCHEMA];
    let request_id = u16_to_le_bytes(response.request_id);
    let command = [response.command.wire_value()];
    let state = [response.state.wire_value()];
    let error = [response.error.wire_value()];
    let flags = [response.flags];
    let nonce = u32_to_le_bytes(response.client_nonce);
    let job_id = u32_to_le_bytes(response.job_id);
    let retry = u32_to_le_bytes(response.retry_after_ms);
    let progress = u32_to_le_bytes(response.progress_per_mille);
    let parts: [&[u8]; 14] = [
        id.as_slice(),
        name_len.as_slice(),
        RESPONSE_NAME.as_slice(),
        schema.as_slice(),
        request_id.as_slice(),
        command.as_slice(),
        state.as_slice(),
        error.as_slice(),
        flags.as_slice(),
        nonce.as_slice(),
        job_id.as_slice(),
        retry.as_slice(),
        progress.as_slice(),
        response.body,
    ];
    assert(id@ =~= seq![RESPONSE_MESSAGE_ID]);
    assert(name_len@ =~= seq![13u8]);
    assert(schema@ =~= seq![SCHEMA]);
    assert(command@ =~= seq![response.command.wire()]);
    assert(state@ =~= seq![response.state.wire()]);
    assert(error@ =~= seq![response.error.wire()]);
    assert(flags@ =~= seq![response.flags]);
    assert(parts_view(parts@) =~= response_chunks(response@));
    proof {
        lemma_write_chunks(old(out)@, 0, response_chunks(response@));
    }
    match write_all(out, parts.as_slice()) {
        Some(n) => Ok(n),
        None => Err(CodecError::BufferTooSmall),
    }
}

pub fn decode_response<'a>(data: &'a [u8]) -> (res: Result<JobResponse<'a>, CodecError>)
    ensures
        match decode_response_spec(data@) {
            Err(e) => res == Err::<JobResponse<'a>, CodecError>(e),
            Ok(v) => res matches Ok(r) && r@ == v,
        },
{
    let (request_id, p) = read_envelope(data, RESPONSE_MESSAGE_ID, RESPONSE_NAME.as_slice())?;
    let command = match read_u8(data, p) {
        Some(v) => Command::decode(v)?,
        None => return Err(CodecError::Truncated),
    };
    let state = match read_u8(data, p + 1) {
        Some(v) => JobState::decode(v)?,
        None => return Err(CodecError::Truncated),
    };
    let error = match read_u8(data, p + 2) {
        Some(v) => JobError::decode(v)?,
        None => return Err(CodecError::Truncated),
    };
    if data.len() < p + 20 {
        return Err(CodecError::Truncated);
    }
    let response = JobResponse {
        request_id,
        command,
        state,
        error,
        flags: data[p + 3],
        client_nonce: u32_from_le_bytes(&data[p + 4..p + 8]),
        job_id: u32_from_le_bytes(&data[p + 8..p + 12]),
        retry_after_ms: u32_from_le_bytes(&data[p + 12..p + 16]),
        progress_per_mille: u32_from_le_bytes(&data[p + 16..p + 20]),
        body: &data[p + 20..data.len()],
    };
    validate_response(response)?;
    Ok(response)
}


/// Returns true for the reserved job response id before any schema parsing.
///
/// The session uses this after pending-RPC matching so a valid waiter wins and
/// every unmatched or expired job response is quarantined.
pub fn is_reserved_job_response(data: &[u8]) -> (r: bool)
    ensures
        r == (data@.len() > 0 && data@[0] == RESPONSE_MESSAGE_ID),
{
    data.len() > 0 && data[0] == RESPONSE_MESSAGE_ID
}

// =============================================================================
// Policy decisions
// =============================================================================

#[derive(Debug, Clone, Copy, PartialEq, Eq, Structural)]
pub enum StartDisposition {
    NewNonce,
    Duplicate,
    Conflict,
}

/// Classifies nonce reuse without retaining or allocating any data.
pub fn classify_start(
    retained_nonce: u32,
    retained_inner_request: &[u8],
    requested_nonce: u32,
    requested_inner_request: &[u8],
) -> (d: StartDisposition)
    ensures
        d == (if retained_nonce != requested_nonce {
            StartDisposition::NewNonce
        } else if retained_inner_request@ == requested_inner_request@ {
            StartDisposition::Duplicate
        } else {
            StartDisposition::Conflict
        }),
{
    if retained_nonce != requested_nonce {
        StartDisposition::NewNonce
    } else if bytes_equal(retained_inner_request, requested_inner_request) {
        StartDisposition::Duplicate
    } else {
        StartDisposition::Conflict
    }
}

/// Milliseconds from `earlier` to `later` on a clock that wraps at 2^32.
pub open spec fn elapsed_ms(later: u32, earlier: u32) -> int {
    if later >= earlier {
        later - earlier
    } else {
        later + 0x1_0000_0000 - earlier
    }
}

/// Uses rollover-safe elapsed arithmetic. Retention values must stay below
/// half the `u32` clock range; the v1 value is 30 seconds.
pub fn terminal_is_retained(now_ms: u32, terminal_at_ms: u32, retention_ms: u32) -> (r: bool)
    ensures
        r == (retention_ms <= 0x7FFF_FFFF && elapsed_ms(now_ms, terminal_at_ms) <= retention_ms),
{
    let elapsed = now_ms.wrapping_sub(terminal_at_ms);
    retention_ms <= 0x7FFF_FFFF && elapsed <= retention_ms
}

#[derive(Debug, Clone, Copy, PartialEq, Eq, Structural)]
pub enum CancelBoundary {
    SafeCheckpoint,
    Irreversible,
}

#[derive(Debug, Clone, Copy, PartialEq, Eq, Structural)]
pub enum CancelDisposition {
    RequestCancellation,
    AlreadyRequested,
    AlreadyTerminal,
    TooLate,
}

pub fn classify_cancel(state: JobState, boundary: CancelBoundary) -> (d: CancelDisposition)
    ensures
        d == (if state.terminal() || state == JobState::NoState {
            CancelDisposition::AlreadyTerminal
        } else if state == JobState::CancelPending {
            CancelDisposition::AlreadyRequested
        } else if boundary == CancelBoundary::Irreversible {
            CancelDisposition::TooLate
        } else {
            CancelDisposition::RequestCancellation
        }),
{
    if state.is_terminal() || state == JobState::NoState {
        CancelDisposition::AlreadyTerminal
    } else if state == JobState::CancelPending {
        CancelDisposition::AlreadyRequested
    } else if boundary == CancelBoundary::Irreversible {
        CancelDisposition::TooLate
    } else {
        CancelDisposition::RequestCancellation
    }
}

#[derive(Debug, Clone, Copy, PartialEq, Eq, Structural)]
pub enum NegotiatedMode {
    LegacyStoppedOnly,
    PersistenceJobsV1,
}

/// Both the Core feature and the Bridge quarantine supplier are required.
pub fn negotiate_mode(core_filesystem_features: u32, bridge_protocol_version: u8) -> (m:
    NegotiatedMode)
    ensures
        m == (if core_filesystem_features & FILESYSTEM_FEATURE_PERSISTENCE_JOBS != 0
            && bridge_protocol_version >= BRIDGE_JOB_PROTOCOL_VERSION {
            NegotiatedMode::PersistenceJobsV1
        } else {
            NegotiatedMode::LegacyStoppedOnly
        }),
{
    if core_filesystem_features & FILESYSTEM_FEATURE_PERSISTENCE_JOBS != 0
        && bridge_protocol_version >= BRIDGE_JOB_PROTOCOL_VERSION {
        NegotiatedMode::PersistenceJobsV1
    } else {
        NegotiatedMode::LegacyStoppedOnly
    }
}

#[derive(Debug, Clone, Copy, PartialEq, Eq, Structural)]
pub struct LegacyProjection {
    pub status: LegacyStatus,
    pub lossy: bool,
}

#[derive(Debug, Clone, Copy, PartialEq, Eq, Structural)]
pub struct TypedProjection {
    pub error: JobError,
    pub lossy: bool,
}

pub open spec fn error_from_legacy_spec(status: LegacyStatus) -> TypedProjection {
    match status {
        LegacyStatus::Success => TypedProjection { error: JobError::NoError, lossy: false },
        LegacyStatus::InvalidMessage => TypedProjection {
            error: JobError::InvalidMessage,
            lossy: false,
        },
        LegacyStatus::InvalidArgument => TypedProjection {
            error: JobError::InvalidArgument,
            lossy: false,
        },
        LegacyStatus::NotFound => TypedProjection { error: JobError::NotFound, lossy: false },
        LegacyStatus::Busy => TypedProjection { error: JobError::LegacyBusy, lossy: true },
        LegacyStatus::TooLarge => TypedProjection {
            error: JobError::ResourceExhausted,
            lossy: true,
        },
        LegacyStatus::StorageError => TypedProjection {
            error: JobError::LegacyStorageError,
            lossy: true,
        },
        LegacyStatus::InvalidState => TypedProjection { error: JobError::Internal, lossy: true },
        LegacyStatus::Unsupported => TypedProjection { error: JobError::Unsupported, lossy: false },
        LegacyStatus::PreconditionFailed => TypedProjection {
            error: JobError::PreconditionFailed,
            lossy: false,
        },
    }
}

pub open spec fn error_to_legacy_spec(error: JobError) -> LegacyProjection {
    match error {
        JobError::NoError => LegacyProjection { status: LegacyStatus::Success, lossy: false },
        JobError::InvalidMessage => LegacyProjection {
            status: LegacyStatus::InvalidMessage,
            lossy: false,
        },
        JobError::InvalidArgument => LegacyProjection {
            status: LegacyStatus::InvalidArgument,
            lossy: false,
        },
        JobError::Unsupported => LegacyProjection {
            status: LegacyStatus::Unsupported,
            lossy: false,
        },
        JobError::NotFound => LegacyProjection { status: LegacyStatus::NotFound, lossy: false },
        JobError::PreconditionFailed => LegacyProjection {
            status: LegacyStatus::PreconditionFailed,
            lossy: false,
        },
        JobError::BusyPlaying | JobError::LegacyBusy => LegacyProjection {
            status: LegacyStatus::Busy,
            lossy: true,
        },
        JobError::ResourceExhausted => LegacyProjection {
            status: LegacyStatus::TooLarge,
            lossy: true,
        },
        JobError::MediaChanged | JobError::StorageUnavailable | JobError::StorageReadFailed
        | JobError::StorageWriteFailed | JobError::StorageCorrupt
        | JobError::LegacyStorageError => LegacyProjection {
            status: LegacyStatus::StorageError,
            lossy: true,
        },
        JobError::Conflict | JobError::DeadlineExceeded | JobError::Cancelled
        | JobError::Internal => LegacyProjection { status: LegacyStatus::InvalidState, lossy: true },
    }
}

pub fn error_from_legacy(status: LegacyStatus) -> (p: TypedProjection)
    ensures
        p == error_from_legacy_spec(status),
{
    match status {
        LegacyStatus::Success => TypedProjection { error: JobError::NoError, lossy: false },
        LegacyStatus::InvalidMessage => TypedProjection {
            error: JobError::InvalidMessage,
            lossy: false,
        },
        LegacyStatus::InvalidArgument => TypedProjection {
            error: JobError::InvalidArgument,
            lossy: false,
        },
        LegacyStatus::NotFound => TypedProjection { error: JobError::NotFound, lossy: false },
        LegacyStatus::Busy => TypedProjection { error: JobError::LegacyBusy, lossy: true },
        LegacyStatus::TooLarge => TypedProjection {
            error: JobError::ResourceExhausted,
            lossy: true,
        },
        LegacyStatus::StorageError => TypedProjection {
            error: JobError::LegacyStorageError,
            lossy: true,
        },
        LegacyStatus::InvalidState => TypedProjection { error: JobError::Internal, lossy: true },
        LegacyStatus::Unsupported => TypedProjection { error: JobError::Unsupported, lossy: false },
        LegacyStatus::PreconditionFailed => TypedProjection {
            error: JobError::PreconditionFailed,
            lossy: false,
        },
    }
}

pub fn error_to_legacy(error: JobError) -> (p: LegacyProjection)
    ensures
        p == error_to_legacy_spec(error),
{
    match error {
        JobError::NoError => LegacyProjection { status: LegacyStatus::Success, lossy: false },
        JobError::InvalidMessage => LegacyProjection {
            status: LegacyStatus::InvalidMessage,
            lossy: false,
        },
        JobError::InvalidArgument => LegacyProjection {
            status: LegacyStatus::InvalidArgument,
            lossy: false,
        },
        JobError::Unsupported => LegacyProjection {
            status: LegacyStatus::Unsupported,
            lossy: false,
        },
        JobError::NotFound => LegacyProjection { status: LegacyStatus::NotFound, lossy: false },
        JobError::PreconditionFailed => LegacyProjection {
            status: LegacyStatus::PreconditionFailed,
            lossy: false,
        },
        JobError::BusyPlaying | JobError::LegacyBusy => LegacyProjection {
            status: LegacyStatus::Busy,
            lossy: true,
        },
        JobError::ResourceExhausted => LegacyProjection {
            status: LegacyStatus::TooLarge,
            lossy: true,
        },
        JobError::MediaChanged | JobError::StorageUnavailable | JobError::StorageReadFailed
        | JobError::StorageWriteFailed | JobError::StorageCorrupt
        | JobError::LegacyStorageError => LegacyProjection {
            status: LegacyStatus::StorageError,
            lossy: true,
        },
        JobError::Conflict | JobError::DeadlineExceeded | JobError::Cancelled
        | JobError::Internal => LegacyProjection { status: LegacyStatus::InvalidState, lossy: true },
    }
}


// =============================================================================
// Laws
// =============================================================================

/// Every wire enumeration decodes its own wire value back to itself.
pub proof fn lemma_wire_values_roundtrip(c: Command, s: JobState, e: JobError, l: LegacyStatus)
    ensures
        Command::from_wire(c.wire()) == Some(c),
        JobState::from_wire(s.wire()) == Some(s),
        JobError::from_wire(e.wire()) == Some(e),
        LegacyStatus::from_wire(l.wire()) == Some(l),
{
}

/// Mapping a legacy status to a typed error and back gives the status again,
/// and both directions agree on whether the mapping loses information.
pub proof fn lemma_legacy_mapping_roundtrip(status: LegacyStatus)
    ensures
        error_to_legacy_spec(error_from_legacy_spec(status).error).status == status,
        error_to_legacy_spec(error_from_legacy_spec(status).error).lossy == error_from_legacy_spec(
            status,
        ).lossy,
{
}

/// Typed errors raised by the storage layer.
pub open spec fn is_storage_failure(e: JobError) -> bool {
    e == JobError::MediaChanged || e == JobError::StorageUnavailable || e == JobError::StorageReadFailed
        || e == JobError::StorageWriteFailed || e == JobError::StorageCorrupt || e
        == JobError::LegacyStorageError
}

/// Typed errors about the job's own course: a conflict, a missed deadline, a
/// cancellation or an internal fault.
pub open spec fn is_job_state_failure(e: JobError) -> bool {
    e == JobError::Conflict || e == JobError::DeadlineExceeded || e == JobError::Cancelled || e
        == JobError::Internal
}

/// Typed errors saying the device is busy.
pub open spec fn is_busy_failure(e: JobError) -> bool {
    e == JobError::BusyPlaying || e == JobError::LegacyBusy
}

/// Legacy projection by error class: every storage failure is a legacy
/// storage error, every job-state failure an invalid state, every busy error
/// busy, and running out of resources is "too large"; these classes, and only
/// they, lose information. Every other error has a legacy status of its own,
/// which maps straight back to it.
pub proof fn lemma_error_projection_by_class(e: JobError)
    ensures
        is_storage_failure(e) <==> error_to_legacy_spec(e).status == LegacyStatus::StorageError,
        is_job_state_failure(e) <==> error_to_legacy_spec(e).status == LegacyStatus::InvalidState,
        is_busy_failure(e) <==> error_to_legacy_spec(e).status == LegacyStatus::Busy,
        (e == JobError::ResourceExhausted) <==> error_to_legacy_spec(e).status
            == LegacyStatus::TooLarge,
        error_to_legacy_spec(e).lossy <==> (is_storage_failure(e) || is_job_state_failure(e)
            || is_busy_failure(e) || e == JobError::ResourceExhausted),
        !error_to_legacy_spec(e).lossy ==> error_from_legacy_spec(error_to_legacy_spec(e).status)
            == (TypedProjection { error: e, lossy: false }),
{
}

proof fn lemma_request_bytes_layout(v: RequestView)
    ensures
        request_bytes(v) =~= seq![REQUEST_MESSAGE_ID, 12u8] + REQUEST_NAME@ + seq![SCHEMA] + le16(
            v.0,
        ) + seq![v.1.wire(), 0u8] + le16(0) + le32(v.2) + le32(v.3) + le32(v.4) + v.5,
{
    vstd::bytes::lemma_auto_spec_u16_to_from_le_bytes();
    vstd::bytes::lemma_auto_spec_u32_to_from_le_bytes();
    let cs = request_chunks(v);
    assert(cs.take(12) =~= cs.take(11).push(cs[11]));
    crate::wire::lemma_flatten_push(cs.take(11), cs[11]);
    assert(cs.take(11) =~= cs.take(10).push(cs[10]));
    crate::wire::lemma_flatten_push(cs.take(10), cs[10]);
    assert(cs.take(10) =~= cs.take(9).push(cs[9]));
    crate::wire::lemma_flatten_push(cs.take(9), cs[9]);
    assert(cs.take(9) =~= cs.take(8).push(cs[8]));
    crate::wire::lemma_flatten_push(cs.take(8), cs[8]);
    assert(cs.take(8) =~= cs.take(7).push(cs[7]));
    crate::wire::lemma_flatten_push(cs.take(7), cs[7]);
    assert(cs.take(7) =~= cs.take(6).push(cs[6]));
    crate::wire::lemma_flatten_push(cs.take(6), cs[6]);
    assert(cs.take(6) =~= cs.take(5).push(cs[5]));
    crate::wire::lemma_flatten_push(cs.take(5), cs[5]);
    assert(cs.take(5) =~= cs.take(4).push(cs[4]));
    crate::wire::lemma_flatten_push(cs.take(4), cs[4]);
    assert(cs.take(4) =~= cs.take(3).push(cs[3]));
    crate::wire::lemma_flatten_push(cs.take(3), cs[3]);
    assert(cs.take(3) =~= cs.take(2).push(cs[2]));
    crate::wire::lemma_flatten_push(cs.take(2), cs[2]);
    assert(cs.take(2) =~= cs.take(1).push(cs[1]));
    crate::wire::lemma_flatten_push(cs.take(1), cs[1]);
    assert(cs.take(1) =~= cs.take(0).push(cs[0]));
    crate::wire::lemma_flatten_push(cs.take(0), cs[0]);
    assert(cs.take(12) =~= cs);
    assert(flatten(cs.take(0)) =~= Seq::<u8>::empty());
}

proof fn lemma_response_bytes_layout(v: ResponseView)
    ensures
        response_bytes(v) =~= seq![RESPONSE_MESSAGE_ID, 13u8] + RESPONSE_NAME@ + seq![SCHEMA]
            + le16(v.0) + seq![v.1.wire(), v.2.wire(), v.3.wire(), v.4] + le32(v.5) + le32(v.6)
            + le32(v.7) + le32(v.8) + v.9,
{
    vstd::bytes::lemma_auto_spec_u16_to_from_le_bytes();
    vstd::bytes::lemma_auto_spec_u32_to_from_le_bytes();
    let cs = response_chunks(v);
    assert(cs.take(14) =~= cs.take(13).push(cs[13]));
    crate::wire::lemma_flatten_push(cs.take(13), cs[13]);
    assert(cs.take(13) =~= cs.take(12).push(cs[12]));
    crate::wire::lemma_flatten_push(cs.take(12), cs[12]);
    assert(cs.take(12) =~= cs.take(11).push(cs[11]));
    crate::wire::lemma_flatten_push(cs.take(11), cs[11]);
    assert(cs.take(11) =~= cs.take(10).push(cs[10]));
    crate::wire::lemma_flatten_push(cs.take(10), cs[10]);
    assert(cs.take(10) =~= cs.take(9).push(cs[9]));
    crate::wire::lemma_flatten_push(cs.take(9), cs[9]);
    assert(cs.take(9) =~= cs.take(8).push(cs[8]));
    crate::wire::lemma_flatten_push(cs.take(8), cs[8]);
    assert(cs.take(8) =~= cs.take(7).push(cs[7]));
    crate::wire::lemma_flatten_push(cs.take(7), cs[7]);
    assert(cs.take(7) =~= cs.take(6).push(cs[6]));
    crate::wire::lemma_flatten_push(cs.take(6), cs[6]);
    assert(cs.take(6) =~= cs.take(5).push(cs[5]));
    crate::wire::lemma_flatten_push(cs.take(5), cs[5]);
    assert(cs.take(5) =~= cs.take(4).push(cs[4]));
    crate::wire::lemma_flatten_push(cs.take(4), cs[4]);
    assert(cs.take(4) =~= cs.take(3).push(cs[3]));
    crate::wire::lemma_flatten_push(cs.take(3), cs[3]);
    assert(cs.take(3) =~= cs.take(2).push(cs[2]));
    crate::wire::lemma_flatten_push(cs.take(2), cs[2]);
    assert(cs.take(2) =~= cs.take(1).push(cs[1]));
    crate::wire::lemma_flatten_push(cs.take(1), cs[1]);
    assert(cs.take(1) =~= cs.take(0).push(cs[0]));
    crate::wire::lemma_flatten_push(cs.take(0), cs[0]);
    assert(cs.take(14) =~= cs);
    assert(flatten(cs.take(0)) =~= Seq::<u8>::empty());
}

/// Decoding the encoding of a valid request gives the request back. The
/// encoding is a 33-byte header followed by the inner request, which decoding
/// takes from those trailing bytes.
pub proof fn lemma_request_roundtrip(v: RequestView)
    requires
        validate_request_spec(v) is Ok,
    ensures
        decode_request_spec(request_bytes(v)) == Ok::<RequestView, CodecError>(v),
        request_bytes(v).len() == 33 + v.5.len(),
        decode_request_spec(request_bytes(v))->Ok_0.5 == request_bytes(v).skip(33),
{
    lemma_request_bytes_layout(v);
    vstd::bytes::lemma_auto_spec_u16_to_from_le_bytes();
    vstd::bytes::lemma_auto_spec_u32_to_from_le_bytes();
    lemma_wire_values_roundtrip(v.1, JobState::NoState, JobError::NoError, LegacyStatus::Success);
    let d = request_bytes(v);
    assert(d[1] == 12u8);
    assert(d.subrange(2, 14) =~= REQUEST_NAME@);
    assert(d.subrange(15, 17) =~= le16(v.0));
    assert(d.subrange(19, 21) =~= le16(0));
    assert(d.subrange(21, 25) =~= le32(v.2));
    assert(d.subrange(25, 29) =~= le32(v.3));
    assert(d.subrange(29, 33) =~= le32(v.4));
    assert(d.subrange(33, d.len() as int) =~= v.5);
}

/// A request decodes only from its one canonical encoding.
pub proof fn lemma_request_canonical(d: Seq<u8>)
    requires
        decode_request_spec(d) is Ok,
    ensures
        d == request_bytes(decode_request_spec(d)->Ok_0),
{
    let v = decode_request_spec(d)->Ok_0;
    lemma_request_bytes_layout(v);
    vstd::bytes::lemma_auto_spec_u16_to_from_le_bytes();
    vstd::bytes::lemma_auto_spec_u32_to_from_le_bytes();
    lemma_wire_values_roundtrip(v.1, JobState::NoState, JobError::NoError, LegacyStatus::Success);
    assert(d[1] == 12u8);
    assert(d.subrange(2, 14) =~= REQUEST_NAME@);
    assert(d.subrange(15, 17).len() == 2);
    assert(d.subrange(19, 21).len() == 2);
    assert(d.subrange(21, 25).len() == 4);
    assert(d.subrange(25, 29).len() == 4);
    assert(d.subrange(29, 33).len() == 4);
    assert(d =~= request_bytes(v));
}

/// Decoding the encoding of a valid response gives the response back.
pub proof fn lemma_response_roundtrip(v: ResponseView)
    requires
        validate_response_spec(v) is Ok,
    ensures
        decode_response_spec(response_bytes(v)) == Ok::<ResponseView, CodecError>(v),
{
    lemma_response_bytes_layout(v);
    vstd::bytes::lemma_auto_spec_u16_to_from_le_bytes();
    vstd::bytes::lemma_auto_spec_u32_to_from_le_bytes();
    lemma_wire_values_roundtrip(v.1, v.2, v.3, LegacyStatus::Success);
    let d = response_bytes(v);
    assert(d[1] == 13u8);
    assert(d.subrange(2, 15) =~= RESPONSE_NAME@);
    assert(d.subrange(16, 18) =~= le16(v.0));
    assert(d.subrange(22, 26) =~= le32(v.5));
    assert(d.subrange(26, 30) =~= le32(v.6));
    assert(d.subrange(30, 34) =~= le32(v.7));
    assert(d.subrange(34, 38) =~= le32(v.8));
    assert(d.subrange(38, d.len() as int) =~= v.9);
}

/// A response decodes only from its one canonical encoding.
pub proof fn lemma_response_canonical(d: Seq<u8>)
    requires
        decode_response_spec(d) is Ok,
    ensures
        d == response_bytes(decode_response_spec(d)->Ok_0),
{
    let v = decode_response_spec(d)->Ok_0;
    lemma_response_bytes_layout(v);
    vstd::bytes::lemma_auto_spec_u16_to_from_le_bytes();
    vstd::bytes::lemma_auto_spec_u32_to_from_le_bytes();
    lemma_wire_values_roundtrip(v.1, v.2, v.3, LegacyStatus::Success);
    assert(d[1] == 13u8);
    assert(d.subrange(2, 15) =~= RESPONSE_NAME@);
    assert(d.subrange(16, 18).len() == 2);
    assert(d.subrange(22, 26).len() == 4);
    assert(d.subrange(26, 30).len() == 4);
    assert(d.subrange(30, 34).len() == 4);
    assert(d.subrange(34, 38).len() == 4);
    assert(d =~= response_bytes(v));
}

/// Decoding the encoding of a valid capability set gives it back.
pub proof fn lemma_capabilities_roundtrip(c: Capabilities)
    requires
        validate_capabilities_spec(c) is Ok,
    ensures
        decode_capabilities_spec(flatten(capabilities_chunks(c))) == Ok::<Capabilities, CodecError>(
            c,
        ),
{
    reveal_with_fuel(flatten, 9);
    vstd::bytes::lemma_auto_spec_u16_to_from_le_bytes();
    vstd::bytes::lemma_auto_spec_u32_to_from_le_bytes();
    let d = flatten(capabilities_chunks(c));
    assert(d =~= seq![c.protocol_version, c.max_concurrent_jobs] + le16(0) + le32(c.feature_flags)
        + le32(c.max_inner_request_bytes) + le32(c.max_inner_response_bytes) + le32(
        c.max_total_deadline_ms,
    ) + le32(c.terminal_retention_ms));
    assert(d.subrange(2, 4) =~= le16(0));
    assert(d.subrange(4, 8) =~= le32(c.feature_flags));
    assert(d.subrange(8, 12) =~= le32(c.max_inner_request_bytes));
    assert(d.subrange(12, 16) =~= le32(c.max_inner_response_bytes));
    assert(d.subrange(16, 20) =~= le32(c.max_total_deadline_ms));
    assert(d.subrange(20, 24) =~= le32(c.terminal_retention_ms));
}

/// The v1 capability set is the one set that validates.
pub proof fn lemma_capabilities_v1_unique(c: Capabilities)
    ensures
        validate_capabilities_spec(c) is Ok <==> c == capabilities_v1(),
{
}

} // verus!
