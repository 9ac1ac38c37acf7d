use airshare::batch::{AppSettings, BatchDecision, Coordinator, ResolveStep, RespondTransferArgs, TrustSet};
use airshare::engine::{
    ack_for_stored_decision, build_transfer_record, conclude_first_resolve, oversized_header_nack,
    receiver_check_header, sender_check_ack, AckVerdict, FirstResolution, HeaderVerdict,
};
use airshare::eta::calculate_eta;
use airshare::framing::{LineAccumulator, LineStep, ACK_LINE_CAP, HEADER_LINE_CAP};
use airshare::history::{TransferStatus, TransferType};
use airshare::transfer::{
    make_offer, status_for_send_outcome, AckMessage, FileOffer, SendOutcome, StreamProgress,
    CHUNK_SIZE,
};
use airshare::wire;

fn sample_offer() -> FileOffer {
    FileOffer {
        transfer_id: "11111111-2222-3333-4444-555555555555".to_string(),
        file_name: "report.pdf".to_string(),
        file_size: 10_485_760,
        mime: "application/pdf".to_string(),
        sha256: None,
        batch_id: Some("b1".to_string()),
    }
}

#[test]
fn offer_encodes_canonically() {
    let line = wire::encode_offer(&sample_offer());
    assert_eq!(
        line,
        "{\"transfer_id\":\"11111111-2222-3333-4444-555555555555\",\
         \"file_name\":\"report.pdf\",\"file_size\":10485760,\
         \"mime\":\"application/pdf\",\"sha256\":null,\"batch_id\":\"b1\"}"
    );
}

#[test]
fn offer_round_trips() {
    let line = wire::encode_offer(&sample_offer());
    let parsed = wire::parse_offer(&line).unwrap();
    assert_eq!(parsed.transfer_id, "11111111-2222-3333-4444-555555555555");
    assert_eq!(parsed.file_name, "report.pdf");
    assert_eq!(parsed.file_size, 10_485_760);
    assert_eq!(parsed.mime, "application/pdf");
    assert_eq!(parsed.sha256, None::<String>.as_deref().map(|s| s.to_string()));
    assert_eq!(parsed.batch_id.as_deref(), Some("b1"));
}

#[test]
fn offer_parse_accepts_reordered_keys_and_whitespace() {
    let line = " { \"file_size\" : 42 , \"mime\" : \"text/plain\" ,\n\
                 \"file_name\" : \"a b.txt\" , \"transfer_id\" : \"t1\" } ";
    let parsed = wire::parse_offer(line).unwrap();
    assert_eq!(parsed.file_size, 42);
    assert_eq!(parsed.file_name, "a b.txt");
    assert_eq!(parsed.batch_id, None);
    assert_eq!(parsed.sha256, None);
}

#[test]
fn offer_parse_handles_escapes() {
    let line = "{\"transfer_id\":\"t\",\"file_name\":\"a\\\"b\\\\c\\n\",\
                \"file_size\":1,\"mime\":\"x\\/y\"}";
    let parsed = wire::parse_offer(line).unwrap();
    assert_eq!(parsed.file_name, "a\"b\\c\n");
    assert_eq!(parsed.mime, "x/y");
}

#[test]
fn offer_escaped_names_round_trip() {
    let offer = FileOffer {
        transfer_id: "t".to_string(),
        file_name: "we\"ird\\na\tme.bin".to_string(),
        file_size: 7,
        mime: "application/octet-stream".to_string(),
        sha256: Some("abc".to_string()),
        batch_id: None,
    };
    let line = wire::encode_offer(&offer);
    let parsed = wire::parse_offer(&line).unwrap();
    assert_eq!(parsed.file_name, "we\"ird\\na\tme.bin");
    assert_eq!(parsed.sha256.as_deref(), Some("abc"));
    assert_eq!(parsed.batch_id, None);
}

#[test]
fn offer_parse_rejects_malformed() {
    assert!(wire::parse_offer("not json").is_none());
    assert!(wire::parse_offer("{\"transfer_id\":\"t\"}").is_none());
    assert!(wire::parse_offer("{\"transfer_id\":\"t\",\"file_name\":\"f\",\"file_size\":-1,\"mime\":\"m\"}").is_none());
    assert!(wire::parse_offer("{\"transfer_id\":\"t\",\"file_name\":\"f\",\"file_size\":01,\"mime\":\"m\"}").is_none());
    assert!(wire::parse_offer("{\"transfer_id\":\"t\",\"file_name\":\"\\u0041\",\"file_size\":1,\"mime\":\"m\"}").is_none());
    assert!(wire::parse_offer("{\"transfer_id\":\"t\",\"file_name\":\"f\",\"file_size\":1,\"mime\":\"m\"} x").is_none());
}

#[test]
fn ack_lines_encode_and_parse() {
    let yes = AckMessage { accept: true, error: None };
    assert_eq!(wire::encode_ack(&yes), "{\"accept\":true}");

    let no = AckMessage { accept: false, error: Some("user_rejected".to_string()) };
    assert_eq!(wire::encode_ack(&no), "{\"accept\":false,\"error\":\"user_rejected\"}");

    let parsed = wire::parse_ack("{\"accept\":false,\"error\":\"user_rejected\"}").unwrap();
    assert!(!parsed.accept);
    assert_eq!(parsed.error.as_deref(), Some("user_rejected"));

    let bare = wire::parse_ack("{\"accept\":true}").unwrap();
    assert!(bare.accept);
    assert_eq!(bare.error, None);

    assert!(wire::parse_ack("{\"error\":\"x\"}").is_none());
}

#[test]
fn settings_and_trust_list_round_trip() {
    let s = AppSettings { auto_accept_trusted: true };
    let text = wire::encode_settings(&s);
    assert_eq!(text, "{\"auto_accept_trusted\":true}");
    assert!(wire::parse_settings(&text).unwrap().auto_accept_trusted);

    // A missing field counts as disabled; junk is refused.
    assert!(!wire::parse_settings("{}").unwrap().auto_accept_trusted);
    assert!(wire::parse_settings("nope").is_none());

    let ips = vec!["192.168.1.7".to_string(), "10.0.0.3".to_string()];
    let text = wire::encode_str_list(&ips);
    assert_eq!(text, "[\"192.168.1.7\",\"10.0.0.3\"]");
    let back = wire::parse_str_list(&text).unwrap();
    assert_eq!(back, ips);

    assert_eq!(wire::encode_str_list(&vec![]), "[]");
    assert_eq!(wire::parse_str_list(" [ ] ").unwrap(), Vec::<String>::new());
}

#[test]
fn oversized_header_is_refused() {
    // A 17 KiB header line with no newline: the accumulator reports
    // overflow at the first byte past the cap, and the engine answers
    // with a refusing ack; no offer is ever produced and no file created.
    let mut acc = LineAccumulator::new(HEADER_LINE_CAP);
    let mut overflowed = false;
    for i in 0..(17 * 1024) {
        match acc.push_byte(b'a') {
            LineStep::Complete => panic!("no newline was sent"),
            LineStep::More => assert!(i < HEADER_LINE_CAP),
            LineStep::Overflow => {
                overflowed = true;
                break;
            }
        }
    }
    assert!(overflowed);
    assert_eq!(
        oversized_header_nack(),
        "{\"accept\":false,\"error\":\"header too large or missing newline\"}"
    );
}

#[test]
fn header_line_completes_on_newline() {
    let mut acc = LineAccumulator::new(HEADER_LINE_CAP);
    let payload = b"{\"x\":1}";
    for &b in payload.iter() {
        assert!(matches!(acc.push_byte(b), LineStep::More));
    }
    assert!(matches!(acc.push_byte(b'\n'), LineStep::Complete));
    assert_eq!(acc.into_line(), payload.to_vec());
    assert!(ACK_LINE_CAP < HEADER_LINE_CAP);
}

#[test]
fn receiver_checks_header_bytes() {
    let good = wire::encode_offer(&sample_offer()).into_bytes();
    match receiver_check_header(&good) {
        HeaderVerdict::Offer(o) => assert_eq!(o.file_name, "report.pdf"),
        HeaderVerdict::Refuse(_) => panic!("valid offer refused"),
    }

    match receiver_check_header(&[0xff, 0xfe]) {
        HeaderVerdict::Refuse(ack) => {
            assert_eq!(ack, "{\"accept\":false,\"error\":\"invalid utf8 in header\"}")
        }
        HeaderVerdict::Offer(_) => panic!("invalid bytes accepted"),
    }

    match receiver_check_header(b"hello there") {
        HeaderVerdict::Refuse(ack) => {
            assert_eq!(ack, "{\"accept\":false,\"error\":\"invalid json\"}")
        }
        HeaderVerdict::Offer(_) => panic!("junk accepted"),
    }
}

#[test]
fn sender_checks_ack_bytes() {
    assert!(matches!(sender_check_ack(b"{\"accept\":true}"), AckVerdict::Proceed));
    match sender_check_ack(b"{\"accept\":false,\"error\":\"user_rejected\"}") {
        AckVerdict::RejectedByPeer(reason) => assert_eq!(reason, "user_rejected"),
        _ => panic!("rejection not recognised"),
    }
    match sender_check_ack(b"{\"accept\":false}") {
        AckVerdict::RejectedByPeer(reason) => assert_eq!(reason, "rejected"),
        _ => panic!("bare rejection not recognised"),
    }
    assert!(matches!(sender_check_ack(b"garbage"), AckVerdict::Malformed));
    assert!(matches!(sender_check_ack(&[0x80]), AckVerdict::Malformed));
}

#[test]
fn ten_mib_body_takes_exactly_160_chunk_reads() {
    // A 10 MiB body in 64 KiB chunks: exactly 160 reads, summing to
    // exactly the advertised size, and only then is the body complete.
    let mut s = StreamProgress::new(10_485_760);
    let mut reads = 0u32;
    loop {
        let n = s.next_chunk_len();
        if n == 0 {
            break;
        }
        assert!(n <= CHUNK_SIZE);
        s.advance(n);
        reads += 1;
    }
    assert_eq!(reads, 160);
    assert_eq!(s.done, 10_485_760);
    assert!(s.is_complete());
    assert_eq!(s.percent(), 100);
}

#[test]
fn empty_body_is_complete_at_once() {
    let s = StreamProgress::new(0);
    assert!(s.is_complete());
    assert_eq!(s.next_chunk_len(), 0);
    assert_eq!(s.percent(), 100);
}

#[test]
fn duplicate_keys_use_the_first_occurrence() {
    let line = "{\"transfer_id\":\"first\",\"transfer_id\":\"second\",\
                \"file_name\":\"f\",\"file_size\":1,\"mime\":\"m\"}";
    let parsed = wire::parse_offer(line).unwrap();
    assert_eq!(parsed.transfer_id, "first");
}

#[test]
fn short_read_never_overshoots() {
    let mut s = StreamProgress::new(100_000);
    let n = s.next_chunk_len();
    assert_eq!(n, 65_536);
    s.advance(40_000);
    assert_eq!(s.next_chunk_len(), 60_000);
    s.advance(60_000);
    assert!(s.is_complete());
    assert_eq!(s.done, 100_000);
}

#[test]
fn batch_decision_is_reused_without_prompt() {
    // Several offers sharing one batch id: the first resolution stores
    // the decision, every later offer observes exactly it.
    let trust = TrustSet::new();
    let settings = AppSettings { auto_accept_trusted: false };
    let mut c = Coordinator::new(trust, settings);

    assert!(matches!(c.begin_resolve("b7", "10.0.0.9"), ResolveStep::NeedPrompt));
    let ack = conclude_first_resolve(
        &mut c,
        "b7",
        FirstResolution::Granted { save_dir: "/downloads".to_string() },
    );
    assert_eq!(ack, "{\"accept\":true}");

    for sender in ["10.0.0.9", "10.0.0.10"] {
        match c.begin_resolve("b7", sender) {
            ResolveStep::Decided { accepted, save_dir } => {
                assert!(accepted);
                assert_eq!(save_dir.as_deref(), Some("/downloads"));
            }
            _ => panic!("stored decision not reused"),
        }
    }
}

#[test]
fn rejected_batch_stays_rejected() {
    // Two offers with one batch id: the user rejects the first, and the
    // second is answered `user_rejected` with no further prompt.
    let trust = TrustSet::new();
    let settings = AppSettings { auto_accept_trusted: false };
    let mut c = Coordinator::new(trust, settings);

    assert!(matches!(c.begin_resolve("b1", "10.0.0.9"), ResolveStep::NeedPrompt));
    let ack = conclude_first_resolve(&mut c, "b1", FirstResolution::Denied);
    assert_eq!(ack, "{\"accept\":false,\"error\":\"user_rejected\"}");

    match c.begin_resolve("b1", "10.0.0.9") {
        ResolveStep::Decided { accepted, save_dir } => {
            assert!(!accepted);
            assert_eq!(save_dir, None);
            assert_eq!(
                ack_for_stored_decision(accepted),
                "{\"accept\":false,\"error\":\"user_rejected\"}"
            );
        }
        _ => panic!("a rejected batch must not prompt again"),
    }
}

#[test]
fn trusted_sender_skips_accept_prompt() {
    // Auto-acceptance on and the sender trusted: no accept/reject prompt
    // fires, but the folder choice is still required.
    let mut trust = TrustSet::new();
    trust.add_trusted_device_ip("10.0.0.7");
    let settings = AppSettings { auto_accept_trusted: true };
    let c = Coordinator::new(trust, settings);

    assert!(matches!(c.begin_resolve("b2", "10.0.0.7"), ResolveStep::NeedFolder));
    // An untrusted sender still gets the full prompt.
    assert!(matches!(c.begin_resolve("b2", "10.0.0.8"), ResolveStep::NeedPrompt));
}

#[test]
fn folder_timeout_resolves_to_rejection() {
    let trust = TrustSet::new();
    let settings = AppSettings { auto_accept_trusted: false };
    let mut c = Coordinator::new(trust, settings);

    let ack = conclude_first_resolve(&mut c, "b3", FirstResolution::FolderTimeout);
    assert_eq!(ack, "{\"accept\":false,\"error\":\"timeout_folder_selection\"}");

    let mut c2 = Coordinator::new(TrustSet::new(), AppSettings { auto_accept_trusted: false });
    let ack2 = conclude_first_resolve(&mut c2, "b3", FirstResolution::FolderCancelled);
    assert_eq!(ack2, "{\"accept\":false,\"error\":\"user_cancelled_folder\"}");
}

#[test]
fn closed_batch_is_forgotten() {
    let mut c = Coordinator::new(TrustSet::new(), AppSettings { auto_accept_trusted: false });
    let _ = conclude_first_resolve(
        &mut c,
        "b9",
        FirstResolution::Granted { save_dir: "/d".to_string() },
    );
    assert!(matches!(c.begin_resolve("b9", "10.0.0.9"), ResolveStep::Decided { .. }));

    c.close_batch("b9");
    // The next offer of a fresh batch under the same id starts over.
    assert!(matches!(c.begin_resolve("b9", "10.0.0.9"), ResolveStep::NeedPrompt));
}

#[test]
fn trust_set_add_is_idempotent() {
    let mut t = TrustSet::new();
    t.add_trusted_device_ip("192.168.0.2");
    t.add_trusted_device_ip("192.168.0.2");
    t.add_trusted_device_ip("192.168.0.3");
    assert_eq!(t.list_trusted_devices(), vec!["192.168.0.2", "192.168.0.3"]);
    assert!(t.contains_ip("192.168.0.2"));

    t.remove_trusted_device_ip("192.168.0.2");
    assert!(!t.contains_ip("192.168.0.2"));
    assert!(t.contains_ip("192.168.0.3"));

    let deduped = TrustSet::from_list(vec!["a".to_string(), "a".to_string(), "b".to_string()]);
    assert_eq!(deduped.list_trusted_devices().len(), 2);
}

#[test]
fn user_response_reaches_exactly_one_waiter() {
    let mut c = Coordinator::new(TrustSet::new(), AppSettings { auto_accept_trusted: false });
    c.note_transfer_ip("t1", "10.0.0.4");

    assert_eq!(c.take_response("t1"), None);
    c.respond_transfer(RespondTransferArgs {
        transfer_id: "t1".to_string(),
        accept: true,
        trust: None,
    });
    assert_eq!(c.take_response("t1"), Some(true));
    // Consumed: a second waiter sees nothing.
    assert_eq!(c.take_response("t1"), None);
    // No trust checkbox: the sender was not trusted.
    assert!(!c.trust.contains_ip("10.0.0.4"));
}

#[test]
fn always_trust_answer_adds_the_sender() {
    let mut c = Coordinator::new(TrustSet::new(), AppSettings { auto_accept_trusted: true });
    c.note_transfer_ip("t9", "10.0.0.4");
    c.respond_transfer(RespondTransferArgs {
        transfer_id: "t9".to_string(),
        accept: true,
        trust: Some(true),
    });
    assert!(c.trust.contains_ip("10.0.0.4"));
    // With auto-acceptance on, the next batch from that sender skips the
    // accept prompt.
    assert!(matches!(c.begin_resolve("later-batch", "10.0.0.4"), ResolveStep::NeedFolder));

    // A rejection never trusts, even with the checkbox ticked.
    let mut c2 = Coordinator::new(TrustSet::new(), AppSettings { auto_accept_trusted: true });
    c2.note_transfer_ip("t2", "10.0.0.5");
    c2.respond_transfer(RespondTransferArgs {
        transfer_id: "t2".to_string(),
        accept: false,
        trust: Some(true),
    });
    assert!(!c2.trust.contains_ip("10.0.0.5"));
}

#[test]
fn batch_key_falls_back_to_transfer_id() {
    let mut o = sample_offer();
    assert_eq!(o.batch_key(), "b1");
    o.batch_id = None;
    assert_eq!(o.batch_key(), "11111111-2222-3333-4444-555555555555");
}

#[test]
fn made_offer_carries_guessed_mime_and_fresh_id() {
    let o = make_offer("photo.png".to_string(), "/tmp/photo.png", 123, None);
    assert_eq!(o.transfer_id.len(), 36);
    assert_eq!(o.mime, "image/png");
    assert_eq!(o.file_size, 123);
    assert!(o.sha256.is_none());

    let o2 = make_offer("x".to_string(), "/tmp/x", 1, None);
    assert_eq!(o2.mime, "application/octet-stream");
    assert_ne!(o.transfer_id, o2.transfer_id);
}

#[test]
fn send_outcomes_map_to_history_statuses() {
    assert!(matches!(
        status_for_send_outcome(&SendOutcome::Completed),
        TransferStatus::Completed
    ));
    assert!(matches!(
        status_for_send_outcome(&SendOutcome::RejectedByPeer),
        TransferStatus::Cancelled
    ));
    assert!(matches!(
        status_for_send_outcome(&SendOutcome::TransportOrProtocolError),
        TransferStatus::Failed
    ));
}

#[test]
fn transfer_record_is_built_by_direction() {
    let r = build_transfer_record(
        "id1".to_string(),
        "f.bin".to_string(),
        2_000_000,
        TransferType::Sent,
        TransferStatus::Completed,
        "here".to_string(),
        "there".to_string(),
        "2024-05-01T10:00:00+00:00".to_string(),
        2_000,
    );
    assert_eq!(r.from_device, "here");
    assert_eq!(r.to_device, "there");
    assert_eq!(r.duration, 2);
    assert_eq!(r.speed, 1_000_000);

    let r2 = build_transfer_record(
        "id2".to_string(),
        "f.bin".to_string(),
        100,
        TransferType::Received,
        TransferStatus::Failed,
        "here".to_string(),
        "there".to_string(),
        "2024-05-01T10:00:00+00:00".to_string(),
        0,
    );
    assert_eq!(r2.from_device, "there");
    assert_eq!(r2.to_device, "here");
    assert_eq!(r2.speed, 0);
}

#[test]
fn eta_buckets_match_magnitudes() {
    let (ms, text) = calculate_eta(0, 1_000_000, 5_000);
    assert_eq!(ms, 0);
    assert_eq!(text, "Calcolo ETA...");

    // 500 bytes left at one byte per millisecond.
    let (ms, text) = calculate_eta(1_000, 1_500, 1_000);
    assert_eq!(ms, 500);
    assert_eq!(text, "500ms rimanenti");

    // 90 seconds left.
    let (ms, text) = calculate_eta(1_000, 2_000, 90_000);
    assert_eq!(ms, 90_000);
    assert_eq!(text, "1m 30s rimanenti");

    // Rounded seconds under a minute.
    let (ms, text) = calculate_eta(1_000, 2_000, 1_500);
    assert_eq!(ms, 1_500);
    assert_eq!(text, "2s rimanenti");

    // Hours and minutes above an hour.
    let (ms, text) = calculate_eta(1_000, 2_000, 3_660_000);
    assert_eq!(ms, 3_660_000);
    assert_eq!(text, "1h 1m rimanenti");
}
