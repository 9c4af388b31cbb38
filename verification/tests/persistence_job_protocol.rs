use oc_bridge::bridge::persistence_job_protocol::{
    ALL_FEATURES,
    ALL_RESPONSE_FLAGS,
    BRIDGE_JOB_PROTOCOL_VERSION,
    CAPABILITIES_BODY_BYTES,
    CancelBoundary,
    CancelDisposition,
    Capabilities,
    CodecError,
    Command,
    FILESYSTEM_FEATURE_PERSISTENCE_JOBS,
    FLAG_DUPLICATE_START,
    FLAG_LEGACY_MAPPED,
    FLAG_TERMINAL_RETAINED,
    JobError,
    JobRequest,
    JobResponse,
    JobState,
    LegacyStatus,
    MAX_TOTAL_DEADLINE_MS,
    NegotiatedMode,
    REQUEST_APPLICATION_HEADER_BYTES,
    REQUEST_MESSAGE_ID,
    REQUEST_NAME,
    RESPONSE_APPLICATION_HEADER_BYTES,
    RESPONSE_MESSAGE_ID,
    RESPONSE_NAME,
    SCHEMA,
    StartDisposition,
    TERMINAL_RETENTION_MS,
    TypedProjection,
    classify_cancel,
    classify_start,
    decode_request,
    decode_response,
    encode_request,
    encode_response,
    error_from_legacy,
    error_to_legacy,
    is_reserved_job_response,
    negotiate_mode,
    terminal_is_retained,
};
fn legacy_request() -> Vec<u8> {
    vec![0xF2, 0, SCHEMA, 0x34, 0x12, 0]
}

fn legacy_response() -> Vec<u8> {
    vec![0xF3, 0, SCHEMA, 0x34, 0x12, LegacyStatus::Success.wire_value()]
}

fn encode_capabilities_body() -> [u8; CAPABILITIES_BODY_BYTES] {
    let mut body = [0u8; CAPABILITIES_BODY_BYTES];
    assert_eq!(Capabilities::v1().encode(&mut body).unwrap(), body.len());
    body
}

#[test]
fn wire_constants_are_exact() {
    assert_eq!(REQUEST_MESSAGE_ID, 0xFC);
    assert_eq!(RESPONSE_MESSAGE_ID, 0xFD);
    assert_eq!(REQUEST_APPLICATION_HEADER_BYTES, 16);
    assert_eq!(RESPONSE_APPLICATION_HEADER_BYTES, 20);
    assert_eq!(CAPABILITIES_BODY_BYTES, 24);
    assert_eq!(REQUEST_NAME.len(), 12);
    assert_eq!(RESPONSE_NAME.len(), 13);
    assert_eq!(ALL_FEATURES, 0x3F);
    assert_eq!(ALL_RESPONSE_FLAGS, 0x0F);
}

#[test]
fn capabilities_request_has_exact_golden_bytes() {
    let request = JobRequest {
        request_id: 0x1234,
        command: Command::Capabilities,
        client_nonce: 0,
        job_id: 0,
        total_deadline_ms: 0,
        inner_request: &[],
    };
    let mut encoded = [0xAA; 64];
    let length = encode_request(request, &mut encoded).unwrap();

    let mut expected = vec![REQUEST_MESSAGE_ID, REQUEST_NAME.len() as u8];
    expected.extend_from_slice(&REQUEST_NAME);
    expected.extend_from_slice(&[SCHEMA, 0x34, 0x12]);
    expected.extend_from_slice(&[0; REQUEST_APPLICATION_HEADER_BYTES]);
    assert_eq!(&encoded[..length], expected);
    assert_eq!(decode_request(&encoded[..length]).unwrap(), request);
}

#[test]
fn start_request_roundtrips_exact_identity_and_inner_frame() {
    let inner = legacy_request();
    let request = JobRequest {
        request_id: 7,
        command: Command::Start,
        client_nonce: 0x1020_3040,
        job_id: 0,
        total_deadline_ms: MAX_TOTAL_DEADLINE_MS,
        inner_request: &inner,
    };
    let mut encoded = [0u8; 128];
    let length = encode_request(request, &mut encoded).unwrap();
    let decoded = decode_request(&encoded[..length]).unwrap();
    assert_eq!(decoded, request);
    assert_eq!(
        decoded.inner_request.as_ptr(),
        encoded[length - inner.len()..].as_ptr()
    );
}

#[test]
fn request_validation_rejects_ambiguous_forms() {
    let inner = legacy_request();
    let start = JobRequest {
        request_id: 1,
        command: Command::Start,
        client_nonce: 1,
        job_id: 0,
        total_deadline_ms: 1,
        inner_request: &inner,
    };
    let mut out = [0u8; 128];
    assert_eq!(
        encode_request(
            JobRequest {
                client_nonce: 0,
                ..start
            },
            &mut out
        ),
        Err(CodecError::InvalidIdentity)
    );
    assert_eq!(
        encode_request(JobRequest { job_id: 1, ..start }, &mut out),
        Err(CodecError::InvalidIdentity)
    );
    assert_eq!(
        encode_request(
            JobRequest {
                total_deadline_ms: 0,
                ..start
            },
            &mut out
        ),
        Err(CodecError::InvalidDeadline)
    );
    assert_eq!(
        encode_request(
            JobRequest {
                inner_request: &[],
                ..start
            },
            &mut out
        ),
        Err(CodecError::InvalidBody)
    );

    let poll = JobRequest {
        request_id: 2,
        command: Command::Poll,
        client_nonce: 1,
        job_id: 2,
        total_deadline_ms: 0,
        inner_request: &[],
    };
    assert!(encode_request(poll, &mut out).is_ok());
    assert_eq!(
        encode_request(JobRequest { job_id: 0, ..poll }, &mut out),
        Err(CodecError::InvalidIdentity)
    );
    assert_eq!(
        encode_request(
            JobRequest {
                inner_request: &inner,
                ..poll
            },
            &mut out
        ),
        Err(CodecError::InvalidBody)
    );
}

#[test]
fn request_decoder_rejects_unknown_and_reserved_values() {
    let request = JobRequest {
        request_id: 3,
        command: Command::Poll,
        client_nonce: 1,
        job_id: 2,
        total_deadline_ms: 0,
        inner_request: &[],
    };
    let mut encoded = [0u8; 64];
    let length = encode_request(request, &mut encoded).unwrap();
    let application = 1 + 1 + REQUEST_NAME.len() + 1 + 2;

    let mut bad = encoded[..length].to_vec();
    bad[application] = 0xFF;
    assert_eq!(decode_request(&bad), Err(CodecError::UnknownCommand));

    let mut bad = encoded[..length].to_vec();
    bad[application + 1] = 1;
    assert_eq!(decode_request(&bad), Err(CodecError::InvalidFlags));

    let mut bad = encoded[..length].to_vec();
    bad[application + 2] = 1;
    assert_eq!(decode_request(&bad), Err(CodecError::InvalidReserved));

    let mut bad = encoded[..length].to_vec();
    bad[0] = RESPONSE_MESSAGE_ID;
    assert_eq!(decode_request(&bad), Err(CodecError::InvalidMessageId));

    for truncated in 0..length {
        assert!(decode_request(&encoded[..truncated]).is_err());
    }
}

#[test]
fn capabilities_response_has_exact_golden_body_and_roundtrips() {
    let body = encode_capabilities_body();
    assert_eq!(
        body,
        [
            1, 2, 0, 0, 0x3F, 0, 0, 0, 0, 0x7F, 0, 0, 0, 0x7F, 0, 0, 0x10, 0x27, 0, 0, 0x30,
            0x75, 0, 0,
        ]
    );

    let response = JobResponse {
        request_id: 9,
        command: Command::Capabilities,
        state: JobState::NoState,
        error: JobError::NoError,
        flags: 0,
        client_nonce: 0,
        job_id: 0,
        retry_after_ms: 0,
        progress_per_mille: 0,
        body: &body,
    };
    let mut encoded = [0u8; 96];
    let length = encode_response(response, &mut encoded).unwrap();
    assert_eq!(decode_response(&encoded[..length]).unwrap(), response);
    assert_eq!(Capabilities::decode(&body).unwrap(), Capabilities::v1());
}

#[test]
fn completed_response_roundtrips_terminal_payload() {
    let body = legacy_response();
    let response = JobResponse {
        request_id: 4,
        command: Command::Poll,
        state: JobState::Completed,
        error: JobError::NoError,
        flags: FLAG_TERMINAL_RETAINED,
        client_nonce: 0xABCD,
        job_id: 42,
        retry_after_ms: 0,
        progress_per_mille: 1_000,
        body: &body,
    };
    let mut encoded = [0u8; 96];
    let length = encode_response(response, &mut encoded).unwrap();
    assert_eq!(decode_response(&encoded[..length]).unwrap(), response);
}

#[test]
fn response_validation_rejects_inconsistent_state_and_flags() {
    let pending = JobResponse {
        request_id: 1,
        command: Command::Poll,
        state: JobState::Pending,
        error: JobError::NoError,
        flags: 0,
        client_nonce: 1,
        job_id: 2,
        retry_after_ms: 10,
        progress_per_mille: 500,
        body: &[],
    };
    let mut out = [0u8; 96];
    assert!(encode_response(pending, &mut out).is_ok());
    assert_eq!(
        encode_response(
            JobResponse {
                client_nonce: 0,
                ..pending
            },
            &mut out
        ),
        Err(CodecError::InvalidIdentity)
    );
    assert_eq!(
        encode_response(
            JobResponse {
                progress_per_mille: 1_001,
                ..pending
            },
            &mut out
        ),
        Err(CodecError::InvalidProgress)
    );
    assert_eq!(
        encode_response(
            JobResponse {
                flags: FLAG_DUPLICATE_START,
                ..pending
            },
            &mut out
        ),
        Err(CodecError::InvalidFlags)
    );
    assert_eq!(
        encode_response(
            JobResponse {
                state: JobState::Failed,
                ..pending
            },
            &mut out
        ),
        Err(CodecError::InvalidBody)
    );
    assert_eq!(
        encode_response(
            JobResponse {
                body: &[1],
                ..pending
            },
            &mut out
        ),
        Err(CodecError::InvalidBody)
    );
}

#[test]
fn response_decoder_rejects_unknown_wire_values() {
    let pending = JobResponse {
        request_id: 1,
        command: Command::Poll,
        state: JobState::Pending,
        error: JobError::NoError,
        flags: 0,
        client_nonce: 1,
        job_id: 2,
        retry_after_ms: 10,
        progress_per_mille: 500,
        body: &[],
    };
    let mut encoded = [0u8; 96];
    let length = encode_response(pending, &mut encoded).unwrap();
    let application = 1 + 1 + RESPONSE_NAME.len() + 1 + 2;

    let mut bad = encoded[..length].to_vec();
    bad[application + 1] = 0xFF;
    assert_eq!(decode_response(&bad), Err(CodecError::UnknownState));

    let mut bad = encoded[..length].to_vec();
    bad[application + 2] = 0xFF;
    assert_eq!(decode_response(&bad), Err(CodecError::UnknownError));

    let mut bad = encoded[..length].to_vec();
    bad[application + 3] = 0x80;
    assert_eq!(decode_response(&bad), Err(CodecError::InvalidFlags));

    let mut bad = encoded[..length].to_vec();
    bad[2] = b'X';
    assert_eq!(decode_response(&bad), Err(CodecError::InvalidMessageName));
}

#[test]
fn duplicate_and_legacy_flags_require_exact_context() {
    let duplicate = JobResponse {
        request_id: 1,
        command: Command::Start,
        state: JobState::Pending,
        error: JobError::NoError,
        flags: FLAG_DUPLICATE_START,
        client_nonce: 1,
        job_id: 2,
        retry_after_ms: 10,
        progress_per_mille: 100,
        body: &[],
    };
    let mut out = [0u8; 96];
    assert!(encode_response(duplicate, &mut out).is_ok());
    assert_eq!(
        encode_response(
            JobResponse {
                state: JobState::Rejected,
                error: JobError::ResourceExhausted,
                job_id: 0,
                retry_after_ms: 0,
                progress_per_mille: 0,
                ..duplicate
            },
            &mut out
        ),
        Err(CodecError::InvalidFlags)
    );

    let legacy = JobResponse {
        state: JobState::Failed,
        error: JobError::LegacyStorageError,
        flags: FLAG_LEGACY_MAPPED,
        retry_after_ms: 0,
        progress_per_mille: 100,
        ..duplicate
    };
    assert!(encode_response(legacy, &mut out).is_ok());
    assert_eq!(
        encode_response(JobResponse { flags: 0, ..legacy }, &mut out),
        Err(CodecError::InvalidFlags)
    );
}

#[test]
fn capabilities_reject_reserved_and_future_v1_bits() {
    let body = encode_capabilities_body();
    let mut reserved = body;
    reserved[2] = 1;
    assert_eq!(
        Capabilities::decode(&reserved),
        Err(CodecError::InvalidReserved)
    );

    let mut future = body;
    future[4] |= 0x40;
    assert_eq!(Capabilities::decode(&future), Err(CodecError::InvalidFlags));
}

#[test]
fn start_duplicate_and_conflict_are_deterministic() {
    let retained = legacy_request();
    assert_eq!(
        classify_start(7, &retained, 8, &retained),
        StartDisposition::NewNonce
    );
    assert_eq!(
        classify_start(7, &retained, 7, &retained),
        StartDisposition::Duplicate
    );
    let mut different = retained.clone();
    different.push(1);
    assert_eq!(
        classify_start(7, &retained, 7, &different),
        StartDisposition::Conflict
    );
}

#[test]
fn terminal_retention_is_inclusive_and_rollover_safe() {
    assert!(terminal_is_retained(40_000, 10_000, TERMINAL_RETENTION_MS));
    assert!(!terminal_is_retained(40_001, 10_000, TERMINAL_RETENTION_MS));
    assert!(terminal_is_retained(5, u32::MAX - 4, 10));
    assert!(!terminal_is_retained(6, u32::MAX - 4, 10));
    assert!(!terminal_is_retained(0, 0, i32::MAX as u32 + 1));
}

#[test]
fn cancellation_respects_safe_and_irreversible_boundaries() {
    assert_eq!(
        classify_cancel(JobState::Pending, CancelBoundary::SafeCheckpoint),
        CancelDisposition::RequestCancellation
    );
    assert_eq!(
        classify_cancel(JobState::Pending, CancelBoundary::Irreversible),
        CancelDisposition::TooLate
    );
    assert_eq!(
        classify_cancel(JobState::CancelPending, CancelBoundary::SafeCheckpoint),
        CancelDisposition::AlreadyRequested
    );
    assert_eq!(
        classify_cancel(JobState::Completed, CancelBoundary::SafeCheckpoint),
        CancelDisposition::AlreadyTerminal
    );
}

#[test]
fn legacy_to_typed_mapping_is_total_and_marks_loss() {
    let expected = [
        (LegacyStatus::Success, JobError::NoError, false),
        (
            LegacyStatus::InvalidMessage,
            JobError::InvalidMessage,
            false,
        ),
        (
            LegacyStatus::InvalidArgument,
            JobError::InvalidArgument,
            false,
        ),
        (LegacyStatus::NotFound, JobError::NotFound, false),
        (LegacyStatus::Busy, JobError::LegacyBusy, true),
        (LegacyStatus::TooLarge, JobError::ResourceExhausted, true),
        (
            LegacyStatus::StorageError,
            JobError::LegacyStorageError,
            true,
        ),
        (LegacyStatus::InvalidState, JobError::Internal, true),
        (LegacyStatus::Unsupported, JobError::Unsupported, false),
        (
            LegacyStatus::PreconditionFailed,
            JobError::PreconditionFailed,
            false,
        ),
    ];
    for (raw, (status, error, lossy)) in expected.into_iter().enumerate() {
        assert_eq!(LegacyStatus::decode(raw as u8).unwrap(), status);
        assert_eq!(error_from_legacy(status), TypedProjection { error, lossy });
    }
    assert_eq!(
        LegacyStatus::decode(10),
        Err(CodecError::UnknownLegacyStatus)
    );
}

#[test]
fn typed_to_legacy_mapping_covers_every_v1_error() {
    let errors = [
        JobError::NoError,
        JobError::InvalidMessage,
        JobError::InvalidArgument,
        JobError::Unsupported,
        JobError::NotFound,
        JobError::BusyPlaying,
        JobError::ResourceExhausted,
        JobError::Conflict,
        JobError::PreconditionFailed,
        JobError::DeadlineExceeded,
        JobError::MediaChanged,
        JobError::StorageUnavailable,
        JobError::StorageReadFailed,
        JobError::StorageWriteFailed,
        JobError::StorageCorrupt,
        JobError::Cancelled,
        JobError::Internal,
        JobError::LegacyBusy,
        JobError::LegacyStorageError,
    ];
    for error in errors {
        let projection = error_to_legacy(error);
        assert!(projection.status.wire_value() <= LegacyStatus::PreconditionFailed.wire_value());
        if matches!(
            error,
            JobError::NoError
                | JobError::InvalidMessage
                | JobError::InvalidArgument
                | JobError::Unsupported
                | JobError::NotFound
                | JobError::PreconditionFailed
        ) {
            assert!(!projection.lossy);
        } else {
            assert!(projection.lossy);
        }
    }
}

#[test]
fn mixed_version_negotiation_falls_back_unless_both_edges_exist() {
    assert_eq!(negotiate_mode(0, 0), NegotiatedMode::LegacyStoppedOnly);
    assert_eq!(
        negotiate_mode(FILESYSTEM_FEATURE_PERSISTENCE_JOBS, 0),
        NegotiatedMode::LegacyStoppedOnly
    );
    assert_eq!(
        negotiate_mode(0, BRIDGE_JOB_PROTOCOL_VERSION),
        NegotiatedMode::LegacyStoppedOnly
    );
    assert_eq!(
        negotiate_mode(
            FILESYSTEM_FEATURE_PERSISTENCE_JOBS,
            BRIDGE_JOB_PROTOCOL_VERSION
        ),
        NegotiatedMode::PersistenceJobsV1
    );
}

#[test]
fn caller_buffer_limits_are_explicit() {
    let request = JobRequest {
        request_id: 1,
        command: Command::Capabilities,
        client_nonce: 0,
        job_id: 0,
        total_deadline_ms: 0,
        inner_request: &[],
    };
    let mut short = [0u8; 8];
    assert_eq!(
        encode_request(request, &mut short),
        Err(CodecError::BufferTooSmall)
    );

    let mut short_capabilities = [0u8; CAPABILITIES_BODY_BYTES - 1];
    assert_eq!(
        Capabilities::v1().encode(&mut short_capabilities),
        Err(CodecError::BufferTooSmall)
    );
}

#[test]
fn reserved_response_detection_never_claims_other_messages() {
    assert!(is_reserved_job_response(&[RESPONSE_MESSAGE_ID]));
    assert!(is_reserved_job_response(&[RESPONSE_MESSAGE_ID, 0xFF]));
    assert!(!is_reserved_job_response(&[]));
    assert!(!is_reserved_job_response(&[0xFB]));
}

#[test]
fn encoded_request_is_a_header_then_the_inner_request() {
    let inner = legacy_request();
    let request = JobRequest {
        request_id: 9,
        command: Command::Start,
        client_nonce: 5,
        job_id: 0,
        total_deadline_ms: 1000,
        inner_request: &inner,
    };
    let mut encoded = [0u8; 128];
    let length = encode_request(request, &mut encoded).unwrap();
    assert_eq!(length, 33 + inner.len());
    assert_eq!(&encoded[33..length], inner.as_slice());
}
