use mailcrater::message::{NewAttachment, NewMessage};
use mailcrater::storage::{
    attachment_download, deleted_any, message_detail, message_summaries, plan_insert,
    search_pattern, AttachmentDownloadRow, AttachmentRow, InsertPlan, MessageRow,
    MessageSummaryRow, StorageError,
};

fn sample_message(subject: &str, from_addr: &str) -> NewMessage {
    NewMessage {
        from_addr: from_addr.to_string(),
        to_addrs: vec!["bob@example.com".to_string()],
        cc_addrs: vec![],
        subject: Some(subject.to_string()),
        body_text: Some("plain body".to_string()),
        body_html: None,
        raw_size: 5,
        raw_source: b"hello".to_vec(),
        attachments: vec![NewAttachment {
            filename: Some("receipt.txt".to_string()),
            content_type: Some("text/plain".to_string()),
            size: 5,
            data: b"hello".to_vec(),
        }],
    }
}

/// The rows a database gives back for what the plan stored.
fn stored_rows(plan: &InsertPlan) -> (MessageRow, Vec<AttachmentRow>) {
    let m = &plan.message;
    let row = MessageRow {
        id: m.id.clone(),
        received_at: m.received_at.clone(),
        from_addr: m.from_addr.clone(),
        to_addrs: m.to_addrs.clone(),
        cc_addrs: m.cc_addrs.clone(),
        subject: m.subject.clone(),
        body_text: m.body_text.clone(),
        body_html: m.body_html.clone(),
    };
    let attachments = plan
        .attachments
        .iter()
        .map(|a| AttachmentRow {
            id: a.id.clone(),
            filename: a.filename.clone(),
            content_type: a.content_type.clone(),
            size: a.size,
        })
        .collect();
    (row, attachments)
}

fn is_uuid_v4(id: &str) -> bool {
    let b = id.as_bytes();
    b.len() == 36
        && b.iter().enumerate().all(|(i, c)| match i {
            8 | 13 | 18 | 23 => *c == b'-',
            _ => c.is_ascii_digit() || (b'a'..=b'f').contains(c),
        })
        && b[14] == b'4'
        && matches!(b[19], b'8' | b'9' | b'a' | b'b')
}

fn is_utc_rfc3339(t: &str) -> bool {
    let b = t.as_bytes();
    b.len() >= 25
        && t.ends_with("+00:00")
        && b[4] == b'-'
        && b[7] == b'-'
        && b[10] == b'T'
        && b[13] == b':'
        && b[16] == b':'
        && (b.len() == 25 || b[19] == b'.')
}

#[test]
fn plan_stores_every_field_of_the_message() {
    let msg = sample_message("Password reset", "alice@example.com");
    let plan = plan_insert(&msg);
    let m = &plan.message;
    assert!(is_uuid_v4(&m.id));
    assert!(is_utc_rfc3339(&m.received_at));
    assert_eq!(m.from_addr, "alice@example.com");
    assert_eq!(m.to_addrs, "[\"bob@example.com\"]");
    assert_eq!(m.cc_addrs, None);
    assert_eq!(m.subject.as_deref(), Some("Password reset"));
    assert_eq!(m.body_text.as_deref(), Some("plain body"));
    assert_eq!(m.body_html, None);
    assert_eq!(m.raw_size, 5);
    assert_eq!(m.raw_source, b"hello".to_vec());
    assert_eq!(plan.attachments.len(), 1);
    let a = &plan.attachments[0];
    assert!(is_uuid_v4(&a.id));
    assert_ne!(a.id, m.id);
    assert_eq!(a.message_id, m.id);
    assert_eq!(a.filename.as_deref(), Some("receipt.txt"));
    assert_eq!(a.content_type.as_deref(), Some("text/plain"));
    assert_eq!(a.size, 5);
    assert_eq!(a.data, b"hello".to_vec());
}

#[test]
fn every_insert_gets_a_new_id() {
    let msg = sample_message("First", "a@example.com");
    let first = plan_insert(&msg);
    let second = plan_insert(&msg);
    assert_ne!(first.message.id, second.message.id);
}

#[test]
fn cc_addresses_are_stored_as_json_when_present() {
    let mut msg = sample_message("Hi", "a@example.com");
    msg.cc_addrs = vec!["admin@example.com".to_string(), "x\"y@example.com".to_string()];
    let plan = plan_insert(&msg);
    assert_eq!(
        plan.message.cc_addrs.as_deref(),
        Some("[\"admin@example.com\",\"x\\\"y@example.com\"]")
    );
}

#[test]
fn stored_message_reads_back_as_written() {
    let mut msg = sample_message("Password reset", "alice@example.com");
    msg.cc_addrs = vec!["admin@example.com".to_string()];
    msg.to_addrs.push("carol@example.com".to_string());
    let plan = plan_insert(&msg);
    let (row, attachment_rows) = stored_rows(&plan);
    let detail = message_detail(&row, &attachment_rows).expect("readable row");
    assert_eq!(detail.id, plan.message.id);
    assert_eq!(detail.received_at, plan.message.received_at);
    assert_eq!(detail.from_addr, msg.from_addr);
    assert_eq!(detail.to_addrs, msg.to_addrs);
    assert_eq!(detail.cc_addrs, msg.cc_addrs);
    assert_eq!(detail.subject, msg.subject);
    assert_eq!(detail.body_text, msg.body_text);
    assert_eq!(detail.body_html, msg.body_html);
    assert_eq!(detail.attachments.len(), 1);
    assert_eq!(detail.attachments[0].id, plan.attachments[0].id);
    assert_eq!(detail.attachments[0].filename.as_deref(), Some("receipt.txt"));
    assert_eq!(detail.attachments[0].size, 5);
}

#[test]
fn missing_cc_column_reads_as_no_cc() {
    let plan = plan_insert(&sample_message("x", "a@example.com"));
    let (row, attachment_rows) = stored_rows(&plan);
    assert_eq!(row.cc_addrs, None);
    let detail = message_detail(&row, &attachment_rows).unwrap();
    assert!(detail.cc_addrs.is_empty());
}

#[test]
fn malformed_address_column_is_an_error() {
    let row = MessageRow {
        id: "m1".to_string(),
        received_at: "2024-01-01T00:00:00+00:00".to_string(),
        from_addr: "a@example.com".to_string(),
        to_addrs: "not json".to_string(),
        cc_addrs: None,
        subject: None,
        body_text: None,
        body_html: None,
    };
    assert_eq!(message_detail(&row, &vec![]).err(), Some(StorageError::MalformedAddressList));
    let row = MessageRow { to_addrs: "[]".to_string(), cc_addrs: Some("[1]".to_string()), ..row };
    assert_eq!(message_detail(&row, &vec![]).err(), Some(StorageError::MalformedAddressList));
}

fn summary_row(id: &str, to_addrs: &str) -> MessageSummaryRow {
    MessageSummaryRow {
        id: id.to_string(),
        received_at: "2024-01-01T00:00:00+00:00".to_string(),
        from_addr: "a@example.com".to_string(),
        to_addrs: to_addrs.to_string(),
        subject: Some("s".to_string()),
    }
}

#[test]
fn listing_keeps_row_order_and_decodes_recipients() {
    let rows = vec![
        summary_row("2", "[\"b@example.com\",\"c@example.com\"]"),
        summary_row("1", "[]"),
    ];
    let summaries = message_summaries(&rows).unwrap();
    assert_eq!(summaries.len(), 2);
    assert_eq!(summaries[0].id, "2");
    assert_eq!(
        summaries[0].to_addrs,
        vec!["b@example.com".to_string(), "c@example.com".to_string()]
    );
    assert_eq!(summaries[1].id, "1");
    assert!(summaries[1].to_addrs.is_empty());
    assert!(message_summaries(&vec![]).unwrap().is_empty());
}

#[test]
fn listing_fails_on_a_malformed_row() {
    let rows = vec![summary_row("1", "[]"), summary_row("2", "{")];
    assert_eq!(message_summaries(&rows).err(), Some(StorageError::MalformedAddressList));
}

#[test]
fn search_matches_anywhere() {
    assert_eq!(search_pattern("reset"), "%reset%");
    assert_eq!(search_pattern(""), "%%");
}

#[test]
fn delete_reports_whether_a_row_went() {
    assert!(deleted_any(1));
    assert!(deleted_any(3));
    assert!(!deleted_any(0));
}

#[test]
fn download_keeps_the_stored_attachment() {
    let d = attachment_download(AttachmentDownloadRow {
        filename: Some("a.txt".to_string()),
        content_type: None,
        data: b"hello".to_vec(),
    });
    assert_eq!(d.filename.as_deref(), Some("a.txt"));
    assert_eq!(d.content_type, None);
    assert_eq!(d.data, b"hello".to_vec());
}

#[test]
fn every_attachment_gets_its_own_random_id() {
    let mut msg = sample_message("Several files", "alice@example.com");
    for n in 0..4 {
        msg.attachments.push(NewAttachment {
            filename: Some(format!("file{n}.txt")),
            content_type: None,
            size: 1,
            data: vec![b'x'],
        });
    }
    let plan = plan_insert(&msg);
    assert_eq!(plan.attachments.len(), 5);
    for (i, a) in plan.attachments.iter().enumerate() {
        assert!(is_uuid_v4(&a.id));
        assert_ne!(a.id, plan.message.id);
        for b in &plan.attachments[i + 1..] {
            assert_ne!(a.id, b.id);
        }
    }
}
