//! End-to-end exercises of the upload pipeline: identifier generation,
//! part buffering, and the multipart-upload coordinator.

use filedrop::partbuf::PartBuffer;
use filedrop::session::{validate_completion, CompletedPart};
use filedrop::upload::{Upload, UploadPhase, PART_SIZE_THRESHOLD};
use filedrop::idgen::generate_id;

#[test]
fn identifier_has_requested_length_and_alphabet() {
    for &len in &[0u8, 1, 8, 42, 255] {
        let id = generate_id(len);
        assert_eq!(id.chars().count(), len as usize);
        assert!(id.chars().all(|c| c.is_ascii_alphanumeric()));
    }
}

#[test]
fn identifiers_differ_overwhelmingly_often() {
    let a = generate_id(16);
    let b = generate_id(16);
    assert_ne!(a, b);
}

#[test]
fn parts_concatenate_back_to_the_stream() {
    let mut buf = PartBuffer::new(4);
    let chunks: Vec<Vec<u8>> = vec![
        vec![1, 2],
        vec![3],
        vec![4, 5, 6],
        vec![],
        vec![7, 8, 9, 10, 11, 12, 13],
        vec![14],
    ];
    let mut parts: Vec<Vec<u8>> = Vec::new();
    for c in chunks.iter() {
        if let Some(p) = buf.push(c.clone()) {
            assert!(p.len() > 4, "early part must exceed the threshold");
            parts.push(p);
        }
    }
    if let Some(p) = buf.finish() {
        assert!(!p.is_empty());
        parts.push(p);
    }
    let rebuilt: Vec<u8> = parts.concat();
    let fed: Vec<u8> = chunks.concat();
    assert_eq!(rebuilt, fed);
}

#[test]
fn empty_stream_yields_zero_parts() {
    let mut buf = PartBuffer::new(8);
    assert!(buf.push(Vec::new()).is_none());
    assert!(buf.finish().is_none());
}

#[test]
fn oversized_chunk_becomes_one_oversized_part() {
    let mut buf = PartBuffer::new(3);
    let part = buf.push(vec![9; 100]).expect("exceeds threshold at once");
    assert_eq!(part, vec![9; 100]);
    assert!(buf.finish().is_none());
}

#[test]
fn upload_round_trip_reproduces_bytes_and_metadata() {
    let payload: Vec<u8> = (0u16..9000).map(|i| (i % 251) as u8).collect();
    let mut up = Upload::begin_at(
        8,
        1800,
        1_700_000_000,
        Some(String::from("report.bin")),
        Some(String::from("application/x-thing")),
    );
    assert_eq!(up.phase, UploadPhase::Opening);
    up.opened(Ok(Some(String::from("session-1")))).unwrap();
    assert_eq!(up.phase, UploadPhase::Streaming);

    let mut sent_parts: Vec<Vec<u8>> = Vec::new();
    for chunk in payload.chunks(1000) {
        if let Some(pn) = up.push_chunk(chunk.to_vec()) {
            let body = up.outbox.clone().expect("a part was handed out");
            sent_parts.push(body);
            up.part_uploaded(Ok(Some(format!("etag-{pn}")))).unwrap();
        }
    }
    if let Some(pn) = up.end_of_stream() {
        let body = up.outbox.clone().expect("the final part was handed out");
        sent_parts.push(body);
        up.part_uploaded(Ok(Some(format!("etag-{pn}")))).unwrap();
    }
    assert_eq!(up.phase, UploadPhase::Closing);

    let parts = up.completion_parts();
    let numbers: Vec<u32> = parts.iter().map(|p| p.part_number).collect();
    let expected: Vec<u32> = (1..=sent_parts.len() as u32).collect();
    assert_eq!(numbers, expected);
    assert!(validate_completion(parts).is_ok());

    let result = up.completed(Ok(())).unwrap();
    assert_eq!(up.phase, UploadPhase::Done);
    assert_eq!(result.length, payload.len() as u64);
    assert_eq!(result.file_name, "report.bin");
    assert_eq!(result.content_type, "application/x-thing");

    let rebuilt: Vec<u8> = sent_parts.concat();
    assert_eq!(rebuilt, payload, "completion stitches the stream back together");
}

#[test]
fn upload_defaults_name_and_type() {
    let up = Upload::begin_at(8, 60, 1_700_000_000, None, None);
    assert_eq!(up.file_name, "unnamed");
    assert_eq!(up.content_type, "application/octet-stream");
}

#[test]
fn small_upload_sends_a_single_short_part() {
    let mut up = Upload::begin_at(4, 60, 1_700_000_000, None, None);
    up.opened(Ok(Some(String::from("sid")))).unwrap();
    assert!(up.push_chunk(vec![1, 2, 3]).is_none());
    let pn = up.end_of_stream().expect("pending bytes become the final part");
    assert_eq!(pn, 1);
    assert_eq!(up.outbox.as_deref(), Some(&[1u8, 2, 3][..]));
    up.part_uploaded(Ok(Some(String::from("e")))).unwrap();
    let result = up.completed(Ok(())).unwrap();
    assert_eq!(result.length, 3);
}

#[test]
fn missing_upload_id_is_a_protocol_error() {
    let mut up = Upload::begin_at(8, 60, 1_700_000_000, None, None);
    let err = up.opened(Ok(None)).unwrap_err();
    assert!(err.is_protocol());
    assert_eq!(up.phase, UploadPhase::Failed);
}

#[test]
fn failed_open_call_is_a_backend_error() {
    let mut up = Upload::begin_at(8, 60, 1_700_000_000, None, None);
    let err = up.opened(Err(String::from("connection refused"))).unwrap_err();
    assert!(err.is_backend());
    assert_eq!(err.message(), "connection refused");
}

#[test]
fn missing_integrity_token_is_a_protocol_error() {
    let mut up = Upload::begin_at(8, 60, 1_700_000_000, None, None);
    up.opened(Ok(Some(String::from("sid")))).unwrap();
    up.push_chunk(vec![0; PART_SIZE_THRESHOLD + 1])
        .expect("exceeds the threshold");
    let err = up.part_uploaded(Ok(None)).unwrap_err();
    assert!(err.is_protocol());
    assert_eq!(up.phase, UploadPhase::Failed);
}

#[test]
fn failed_completion_is_a_backend_error() {
    let mut up = Upload::begin_at(8, 60, 1_700_000_000, None, None);
    up.opened(Ok(Some(String::from("sid")))).unwrap();
    up.end_of_stream();
    let err = up.completed(Err(String::from("no such upload"))).unwrap_err();
    assert!(err.is_backend());
    assert_eq!(up.phase, UploadPhase::Failed);
}

#[test]
fn out_of_order_completion_is_rejected() {
    let parts = vec![
        CompletedPart { part_number: 2, e_tag: String::from("b") },
        CompletedPart { part_number: 1, e_tag: String::from("a") },
        CompletedPart { part_number: 3, e_tag: String::from("c") },
    ];
    let err = validate_completion(&parts).unwrap_err();
    assert!(err.is_protocol());
}

#[test]
fn ordered_completion_is_accepted() {
    let parts = vec![
        CompletedPart { part_number: 1, e_tag: String::from("a") },
        CompletedPart { part_number: 2, e_tag: String::from("b") },
        CompletedPart { part_number: 3, e_tag: String::from("c") },
    ];
    assert!(validate_completion(&parts).is_ok());
}
