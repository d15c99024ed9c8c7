use nits_client_core::delivery::{
    ViewBatchBytes, ViewBatchKind, ViewDelivery, ViewDeliveryError, ViewEncoder,
    ViewFragmentIndex, ViewFragmentPosition, ViewFrameBody, ViewRevision, FRAME_LIMIT,
    VIEW_MESSAGE_LIMIT,
};
use nits_client_core::patch::ViewPatch;
use nits_client_core::protocol::RpcError;
use nits_client_core::view::{ConnectionView, ViewModel};

fn batch(text: &str) -> Vec<ViewPatch> {
    vec![ViewPatch::Connection {
        connection: ConnectionView::Subscribed,
        last_error: Some(RpcError::Internal { message: text.to_string() }),
        uncertain_mutations: Vec::new(),
        daemon_management: ViewModel::default().daemon_management,
    }]
}

fn encoded(text: &str) -> String {
    let message = serde_json::to_string(text).unwrap();
    format!("[{{\"type\":\"Connection\",\"last_error\":{{\"message\":{message}}}}}]")
}

fn reconstruct(delivery: &ViewDelivery, revision: ViewRevision, whole: &str) -> String {
    let mut joined = String::new();
    let mut expected_bytes = 0;
    for (offset, frame) in delivery.frames().iter().enumerate() {
        let bytes = frame.json(whole).unwrap();
        assert!(bytes.len() < VIEW_MESSAGE_LIMIT, "{} bytes", bytes.len());
        assert!(bytes.len() < FRAME_LIMIT);
        let read: serde_json::Value = serde_json::from_str(&bytes).unwrap();
        assert_eq!(read["revision"].as_u64(), Some(revision.0 as u64));
        assert_eq!(frame.revision, revision);
        match &frame.body {
            ViewFrameBody::Complete { patches: _ } => {
                assert_eq!(delivery.frames().len(), 1);
                assert_eq!(read["body"]["type"].as_str(), Some("Complete"));
                let text = serde_json::from_str::<serde_json::Value>(whole).unwrap();
                assert_eq!(read["body"]["patches"], text);
                return whole.to_string();
            }
            ViewFrameBody::Fragment { position, json } => {
                assert!(!json.is_empty());
                assert_eq!(read["body"]["json"].as_str(), Some(json.as_str()));
                match position {
                    ViewFragmentPosition::Start { bytes } => {
                        assert_eq!(offset, 0);
                        expected_bytes = bytes.get() as usize;
                    }
                    ViewFragmentPosition::More { index } => {
                        assert_eq!(index.get() as usize, offset);
                        assert!(offset + 1 < delivery.frames().len());
                    }
                    ViewFragmentPosition::End { index } => {
                        assert_eq!(index.get() as usize, offset);
                        assert_eq!(offset + 1, delivery.frames().len());
                    }
                }
                joined.push_str(json);
            }
        }
    }
    assert_eq!(joined.len(), expected_bytes);
    joined
}

#[test]
fn complete_and_fragmented_batches_preserve_identity_and_exact_json() {
    let mut encoder = ViewEncoder::default();
    for (offset, size) in [0, 1, 63_000, 63_500, 64_000, 200_000].into_iter().enumerate() {
        let text = "\"\\λ😀\0\r\n".repeat(size);
        let json = encoded(&text);
        let delivery = encoder
            .encode(ViewBatchKind::Snapshot, batch(&text), json.as_str())
            .unwrap();
        let revision = ViewRevision(u32::try_from(offset + 1).unwrap());
        assert!(delivery.frames().iter().all(|frame| frame.kind == ViewBatchKind::Snapshot));
        assert_eq!(reconstruct(&delivery, revision, &json), json);
        if let ViewFrameBody::Complete { patches } = &delivery.frames()[0].body {
            assert_eq!(patches, &batch(&text));
        }
    }
}

#[test]
fn a_single_group_can_exceed_the_native_queue_fragment_capacity() {
    let text = "a".repeat(64 * 1024 * 260);
    let json = encoded(&text);
    let delivery = ViewEncoder::default()
        .encode(ViewBatchKind::Delta, batch(&text), json.as_str())
        .unwrap();
    assert!(delivery.frames().len() > 256);
    assert_eq!(reconstruct(&delivery, ViewRevision(1), &json), json);
}

#[test]
fn revisions_never_wrap_or_advance_after_failure() {
    let mut encoder = ViewEncoder { revision: ViewRevision(u32::MAX) };
    assert!(matches!(
        encoder.encode(ViewBatchKind::Delta, Vec::new(), "[]"),
        Err(ViewDeliveryError::RevisionExhausted)
    ));
    assert_eq!(encoder.revision, ViewRevision(u32::MAX));
    assert!(ViewFragmentIndex::new(0).is_none());
    assert!(ViewBatchBytes::new(0).is_none());
    assert_eq!(ViewFragmentIndex::new(3).map(|index| index.get()), Some(3));
    assert_eq!(ViewBatchBytes::new(7).map(|bytes| bytes.get()), Some(7));
}

#[test]
fn a_small_batch_is_one_frame_with_its_exact_text() {
    let mut encoder = ViewEncoder { revision: ViewRevision(41) };
    let delivery = encoder.encode(ViewBatchKind::Delta, Vec::new(), "[]").unwrap();
    assert_eq!(encoder.revision, ViewRevision(42));
    assert_eq!(delivery.frames().len(), 1);
    assert_eq!(
        delivery.frames()[0].json("[]").unwrap(),
        "{\"revision\":42,\"kind\":\"Delta\",\"body\":{\"type\":\"Complete\",\"patches\":[]}}"
    );
}

#[test]
fn fragments_escape_their_text() {
    let text = "\u{8}\u{c}\t\u{1f}\"\\é".repeat(10_000);
    let delivery = ViewEncoder::default().encode(ViewBatchKind::Delta, Vec::new(), &text).unwrap();
    assert!(delivery.frames().len() > 1);
    assert_eq!(reconstruct(&delivery, ViewRevision(1), &text), text);
    assert!(delivery.frames()[1].json("").unwrap().contains("\\b\\f\\t\\u001f\\\"\\\\é"));
}

#[test]
fn each_failure_has_its_words() {
    assert_eq!(
        ViewDeliveryError::RevisionExhausted.message(),
        "view delivery revision exhausted; reconnect the UI"
    );
    assert_eq!(
        ViewDeliveryError::BatchTooLarge.message(),
        "view batch exceeds the supported UTF-8 byte count"
    );
    assert_eq!(
        ViewDeliveryError::FrameTooLarge.message(),
        "serialized view frame exceeded its byte budget"
    );
    let fault = serde_json::from_str::<u32>("x").unwrap_err();
    let words = format!("view serialization failed: {}", fault);
    assert_eq!(ViewDeliveryError::Json(fault).message(), words);
}
