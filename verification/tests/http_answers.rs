use mailcrater::api::{
    attachment_response, delete_response, list_params, message_response, raw_message_response,
    ApiError,
};
use mailcrater::config::Config;
use mailcrater::storage::{AttachmentDownload, MessageDetail};

#[test]
fn listing_defaults_to_fifty_from_the_start() {
    let p = list_params(None, None).ok().unwrap();
    assert_eq!((p.limit, p.offset), (50, 0));
    let p = list_params(Some(0), Some(7)).ok().unwrap();
    assert_eq!((p.limit, p.offset), (0, 7));
}

#[test]
fn negative_limit_is_a_bad_request() {
    let e = list_params(Some(-1), None).err().unwrap();
    assert_eq!(e.status(), 400);
    assert_eq!(e.body(), "limit must not be negative");
    // the limit is checked first
    let e = list_params(Some(-1), Some(-1)).err().unwrap();
    assert_eq!(e.body(), "limit must not be negative");
}

#[test]
fn negative_offset_is_a_bad_request() {
    let e = list_params(Some(10), Some(-5)).err().unwrap();
    assert_eq!(e.status(), 400);
    assert_eq!(e.body(), "offset must not be negative");
}

#[test]
fn unknown_message_is_not_found() {
    let e = message_response(None).err().unwrap();
    assert_eq!(e.status(), 404);
    assert_eq!(e.body(), "");
    let detail = MessageDetail {
        id: "m1".to_string(),
        received_at: "t".to_string(),
        from_addr: "a@example.com".to_string(),
        to_addrs: vec![],
        cc_addrs: vec![],
        subject: None,
        body_text: None,
        body_html: None,
        attachments: vec![],
    };
    assert_eq!(message_response(Some(detail)).ok().unwrap().id, "m1");
}

#[test]
fn raw_message_is_an_eml_download() {
    let r = raw_message_response("abc", Some(b"hello".to_vec())).ok().unwrap();
    assert_eq!(r.content_type, "message/rfc822");
    assert_eq!(r.content_disposition, "attachment; filename=\"abc.eml\"");
    assert_eq!(r.body, b"hello".to_vec());
    let e = raw_message_response("abc", None).err().unwrap();
    assert_eq!(e.status(), 404);
}

#[test]
fn attachment_download_uses_its_type_and_name() {
    let r = attachment_response(Some(AttachmentDownload {
        filename: Some("receipt.txt".to_string()),
        content_type: Some("text/plain".to_string()),
        data: b"hello".to_vec(),
    }))
    .ok()
    .unwrap();
    assert_eq!(r.content_type, "text/plain");
    assert_eq!(r.content_disposition, "attachment; filename=\"receipt.txt\"");
    assert_eq!(r.body, b"hello".to_vec());
}

#[test]
fn attachment_download_defaults() {
    let r = attachment_response(Some(AttachmentDownload {
        filename: None,
        content_type: None,
        data: vec![],
    }))
    .ok()
    .unwrap();
    assert_eq!(r.content_type, "application/octet-stream");
    assert_eq!(r.content_disposition, "attachment; filename=\"attachment\"");
}

#[test]
fn attachment_of_another_message_is_not_found() {
    let e = attachment_response(None).err().unwrap();
    assert_eq!(e.status(), 404);
    assert_eq!(e.body(), "");
}

#[test]
fn delete_answers_no_content_or_not_found() {
    assert_eq!(delete_response(true).ok(), Some(204));
    let e = delete_response(false).err().unwrap();
    assert_eq!(e.status(), 404);
    assert_eq!(e.body(), "");
}

#[test]
fn internal_error_is_500() {
    assert_eq!(ApiError::Internal.status(), 500);
    assert_eq!(ApiError::Internal.body(), "");
    assert_eq!(ApiError::NotFound.status(), 404);
    assert_eq!(ApiError::NotFound.body(), "");
}

#[test]
fn default_settings() {
    let c = Config::from_env();
    assert_eq!(c.smtp_port, 1025);
    assert_eq!(c.http_port, 1080);
    assert_eq!(c.data_dir, "./data");
    assert_eq!(c.max_message_size, 26_214_400);
    assert_eq!(c.channel_capacity, 1024);
}
