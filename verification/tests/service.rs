use myquinn::bootstrap::{
    check_identity, finish_generation, generate_identity, plan_bootstrap, BootstrapPlan, Identity,
    StorageRead,
};
use myquinn::client::{build_request, handle_reply, parse_response, FLAGS_NONE, OPCODE_ECHO};
use myquinn::config::{Role, SecurityConfig, DEFAULT_PORT};
use myquinn::errors::ServiceError;
use myquinn::frame::Frame;
use myquinn::handler::{respond, seal_response, ReadOutcome, MAX_REQUEST_BYTES};
use myquinn::supervisor::{ConnEvent, Directive, Supervisor};
use myquinn::tls::{certificate_from_der, parse_identity};
use myquinn::trust::{load_trusted_peer, policy_for, TrustPolicy};

#[test]
fn frame_round_trip() {
    let f = Frame { opcode: 7, flags: 2, payload: vec![1u8, 2, 3] };
    let enc = f.encode();
    assert_eq!(enc, vec![7u8, 0, 2, 3, 0, 1, 2, 3]);
    let g = Frame::decode(&enc).expect("well-formed frame must decode");
    assert_eq!(g, f);
}

#[test]
fn frame_header_is_little_endian() {
    let f = Frame { opcode: 0x1234, flags: 0xAB, payload: Vec::new() };
    let enc = f.encode();
    assert_eq!(enc, vec![0x34u8, 0x12, 0xAB, 0, 0]);
}

#[test]
fn frame_round_trip_empty_payload() {
    let f = Frame { opcode: 0, flags: 0, payload: Vec::new() };
    let g = Frame::decode(&f.encode()).expect("empty payload must decode");
    assert_eq!(g, f);
}

#[test]
fn frame_round_trip_max_payload() {
    let f = Frame { opcode: 9, flags: 1, payload: vec![0x5Au8; 0xFFFF] };
    let enc = f.encode();
    assert_eq!(enc.len(), 5 + 0xFFFF);
    let g = Frame::decode(&enc).expect("max payload must decode");
    assert_eq!(g, f);
}

#[test]
fn decode_rejects_short_buffer() {
    assert_eq!(Frame::decode(&vec![1u8, 0, 0, 1]), Err(ServiceError::Framing));
    assert_eq!(Frame::decode(&Vec::new()), Err(ServiceError::Framing));
}

#[test]
fn decode_rejects_length_mismatch() {
    // Header declares one payload byte; two follow.
    assert_eq!(Frame::decode(&vec![1u8, 0, 0, 1, 0, 0x61, 0x62]), Err(ServiceError::Framing));
    // Header declares two payload bytes; one follows.
    assert_eq!(Frame::decode(&vec![1u8, 0, 0, 2, 0, 0x61]), Err(ServiceError::Framing));
}

#[test]
fn ping_is_echoed() {
    let line = b"ping\n".to_vec();
    let req = build_request(&line).expect("a short line must frame");
    let resp = respond(&ReadOutcome::Complete(req)).expect("ping must be answered");
    let echoed = parse_response(&resp).expect("the response must be one frame");
    assert_eq!(echoed, b"ping\n".to_vec());
    let frame = Frame::decode(&resp).unwrap();
    assert_eq!(frame.opcode, OPCODE_ECHO);
    assert_eq!(frame.flags, FLAGS_NONE);
}

#[test]
fn oversize_request_is_rejected() {
    assert_eq!(respond(&ReadOutcome::TooLong), Err(ServiceError::RequestTooLarge));
    let big = vec![0u8; MAX_REQUEST_BYTES + 1];
    assert_eq!(respond(&ReadOutcome::Complete(big)), Err(ServiceError::RequestTooLarge));
}

#[test]
fn largest_request_within_cap_is_answered() {
    // A frame whose total size is exactly the cap: payload of cap - 5 bytes.
    let line = vec![0x2Eu8; MAX_REQUEST_BYTES - 5];
    let req = build_request(&line).expect("the largest line must frame");
    assert_eq!(req.len(), MAX_REQUEST_BYTES);
    let resp = respond(&ReadOutcome::Complete(req)).expect("a request at the cap is answered");
    assert_eq!(parse_response(&resp).unwrap(), line);
}

#[test]
fn failed_read_gets_no_response() {
    assert_eq!(respond(&ReadOutcome::Failed), Err(ServiceError::Read));
}

#[test]
fn garbage_request_is_a_framing_error() {
    assert_eq!(
        respond(&ReadOutcome::Complete(b"not a frame".to_vec())),
        Err(ServiceError::Framing)
    );
}

#[test]
fn line_too_long_for_one_frame_is_rejected() {
    let line = vec![0u8; MAX_REQUEST_BYTES - 4];
    assert_eq!(build_request(&line), Err(ServiceError::RequestTooLarge));
}

#[test]
fn clean_close_exits_with_success() {
    let mut s = Supervisor::new();
    assert_eq!(s.on_event(ConnEvent::AppClosed), Directive::Finish(Ok(())));
}

#[test]
fn transport_failure_exits_with_error() {
    let mut s = Supervisor::new();
    assert_eq!(
        s.on_event(ConnEvent::TransportFailed),
        Directive::Finish(Err(ServiceError::Transport))
    );
}

#[test]
fn thousands_of_streams_each_get_a_handler() {
    let mut s = Supervisor::new();
    for _ in 0..5000 {
        assert_eq!(s.on_event(ConnEvent::StreamOffered), Directive::SpawnHandler);
    }
    assert_eq!(s.streams_accepted, 5000);
    // The connection is still accepting and still closes cleanly.
    assert_eq!(s.on_event(ConnEvent::AppClosed), Directive::Finish(Ok(())));
}

#[test]
fn stored_identity_is_reused_unchanged() {
    let cert = vec![0x30u8, 1, 2];
    let key = vec![9u8, 8];
    let plan = plan_bootstrap(StorageRead::Found(cert.clone()), StorageRead::Found(key.clone()));
    assert_eq!(plan, BootstrapPlan::UseStored(Identity { cert_der: cert, key_der: key }));
}

#[test]
fn missing_identity_file_means_generate() {
    let plan = plan_bootstrap(StorageRead::Missing, StorageRead::Missing);
    assert_eq!(plan, BootstrapPlan::Generate);
    let plan = plan_bootstrap(StorageRead::Found(vec![0x30u8]), StorageRead::Missing);
    assert_eq!(plan, BootstrapPlan::Generate);
}

#[test]
fn unreadable_identity_file_is_a_storage_error() {
    assert_eq!(
        plan_bootstrap(StorageRead::Failed, StorageRead::Missing),
        BootstrapPlan::Fail(ServiceError::Storage)
    );
    assert_eq!(
        plan_bootstrap(StorageRead::Found(vec![0x30u8]), StorageRead::Failed),
        BootstrapPlan::Fail(ServiceError::Storage)
    );
}

#[test]
fn generated_identity_is_a_parseable_certificate() {
    let id = generate_identity("localhost").expect("generation must succeed here");
    // The generated certificate is real DER: the shallow check and the
    // transport lift both accept it.
    check_identity(&id).expect("generated identity must be plausible");
    parse_identity(&id).expect("generated identity must lift into credentials");
    certificate_from_der(&id.cert_der);
}

#[test]
fn generation_persists_before_returning() {
    let id = Identity { cert_der: vec![0x30u8, 5], key_der: vec![7u8] };
    let kept = finish_generation(id.clone(), true).expect("persisted identity is returned");
    assert_eq!(kept, id);
    assert_eq!(finish_generation(id, false), Err(ServiceError::Storage));
}

#[test]
fn implausible_identity_is_a_certificate_error() {
    let no_cert = Identity { cert_der: Vec::new(), key_der: vec![1u8] };
    assert_eq!(check_identity(&no_cert), Err(ServiceError::Certificate));
    let bad_tag = Identity { cert_der: vec![0x31u8, 1], key_der: vec![1u8] };
    assert_eq!(check_identity(&bad_tag), Err(ServiceError::Certificate));
    assert!(parse_identity(&bad_tag).is_err());
    let no_key = Identity { cert_der: vec![0x30u8, 1], key_der: Vec::new() };
    assert_eq!(check_identity(&no_key), Err(ServiceError::Certificate));
}

#[test]
fn trusted_peer_absence_is_not_an_error() {
    assert_eq!(load_trusted_peer(StorageRead::Missing), Ok(None));
    assert_eq!(
        load_trusted_peer(StorageRead::Found(vec![0x30u8, 4])),
        Ok(Some(vec![0x30u8, 4]))
    );
    assert_eq!(load_trusted_peer(StorageRead::Failed), Err(ServiceError::Storage));
}

#[test]
fn trust_policy_pins_when_a_peer_is_stored() {
    assert_eq!(policy_for(Some(vec![1u8, 2])), TrustPolicy::TrustPinned(vec![1u8, 2]));
    assert_eq!(policy_for(None), TrustPolicy::SystemCa);
}

#[test]
fn server_config_requires_an_identity() {
    let without = SecurityConfig {
        role: Role::Server,
        identity: None,
        trust: TrustPolicy::SystemCa,
        idle_timeout_ms: 10_000,
        keep_alive_ms: 5_000,
    };
    assert_eq!(without.validate(), Err(ServiceError::Connect));
    let with = SecurityConfig {
        identity: Some(Identity { cert_der: vec![0x30u8], key_der: vec![1u8] }),
        ..without.clone()
    };
    assert_eq!(with.validate(), Ok(()));
    let client = SecurityConfig { role: Role::Client, ..without };
    assert_eq!(client.validate(), Ok(()));
    assert_eq!(DEFAULT_PORT, 4332);
}

#[test]
fn client_rejects_oversize_reply() {
    assert_eq!(handle_reply(&ReadOutcome::TooLong), Err(ServiceError::RequestTooLarge));
    assert_eq!(handle_reply(&ReadOutcome::Failed), Err(ServiceError::Read));
    let resp = Frame { opcode: 1, flags: 0, payload: b"ok\n".to_vec() }.encode();
    assert_eq!(handle_reply(&ReadOutcome::Complete(resp)), Ok(b"ok\n".to_vec()));
    assert_eq!(
        handle_reply(&ReadOutcome::Complete(b"junk".to_vec())),
        Err(ServiceError::Framing)
    );
}

#[test]
fn response_write_failure_is_a_write_error() {
    assert_eq!(seal_response(true), Ok(()));
    assert_eq!(seal_response(false), Err(ServiceError::Write));
}

#[test]
fn non_ascii_host_is_rejected_before_generation() {
    assert_eq!(generate_identity("h\u{e9}llo"), Err(ServiceError::Certificate));
}
