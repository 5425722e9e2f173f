use mailcrater::connection::{keep_reading, reply_step};
use mailcrater::handler::{Delivery, MailHandler, ReplyAction};

const PLAIN_TEXT: &str = "From: no-reply@myapp.local\r\n\
To: bob@example.com\r\n\
Subject: Reset your password\r\n\
Content-Type: text/plain\r\n\
\r\n\
Click here to reset: https://myapp.local/reset\r\n";

const HTML_WITH_ATTACHMENT: &str = "From: no-reply@myapp.local\r\n\
To: bob@example.com\r\n\
Subject: Your receipt\r\n\
MIME-Version: 1.0\r\n\
Content-Type: multipart/mixed; boundary=\"XYZ\"\r\n\
\r\n\
--XYZ\r\n\
Content-Type: text/html\r\n\
\r\n\
<p>Thanks for testing!</p>\r\n\
--XYZ\r\n\
Content-Type: text/plain\r\n\
Content-Disposition: attachment; filename=\"receipt.txt\"\r\n\
\r\n\
thanks for testing\r\n\
--XYZ--\r\n";

const MULTIPLE_RECIPIENTS: &str = "From: no-reply@myapp.local\r\n\
To: bob@example.com\r\n\
Cc: admin@example.com\r\n\
Subject: Reset your password\r\n\
Content-Type: text/plain\r\n\
\r\n\
Click here to reset: https://myapp.local/reset\r\n";

fn send(handler: &mut MailHandler, raw: &[u8]) -> Delivery {
    handler.data(raw);
    handler.data_end()
}

#[test]
fn plain_text_message_is_accepted_with_its_fields() {
    let mut handler = MailHandler::new(25 * 1024 * 1024);
    let delivery = send(&mut handler, PLAIN_TEXT.as_bytes());
    assert_eq!(delivery.reply.code, 250);
    assert_eq!(delivery.reply.text, "2.0.0 Ok: message accepted");
    assert_eq!(delivery.reply.action, ReplyAction::Reply);
    let message = delivery.message.expect("message accepted");
    assert_eq!(message.from_addr, "no-reply@myapp.local");
    assert_eq!(message.to_addrs, vec!["bob@example.com".to_string()]);
    assert!(message.cc_addrs.is_empty());
    assert_eq!(message.subject.as_deref(), Some("Reset your password"));
    assert!(message
        .body_text
        .as_deref()
        .unwrap()
        .starts_with("Click here to reset: https://myapp.local/reset"));
    assert_eq!(message.raw_source, PLAIN_TEXT.as_bytes().to_vec());
    assert_eq!(message.raw_size, PLAIN_TEXT.len());
    assert!(message.attachments.is_empty());
}

#[test]
fn html_message_with_attachment_is_accepted() {
    let mut handler = MailHandler::new(25 * 1024 * 1024);
    let delivery = send(&mut handler, HTML_WITH_ATTACHMENT.as_bytes());
    assert_eq!(delivery.reply.code, 250);
    let message = delivery.message.expect("message accepted");
    assert_eq!(message.subject.as_deref(), Some("Your receipt"));
    assert!(message.body_html.as_deref().unwrap().contains("<p>Thanks for testing!</p>"));
    assert_eq!(message.attachments.len(), 1);
    let attachment = &message.attachments[0];
    assert_eq!(attachment.filename.as_deref(), Some("receipt.txt"));
    assert_eq!(attachment.content_type.as_deref(), Some("text/plain"));
    assert!(attachment.data.starts_with(b"thanks for testing"));
    assert_eq!(attachment.size, attachment.data.len());
}

#[test]
fn cc_recipients_are_kept() {
    let mut handler = MailHandler::new(25 * 1024 * 1024);
    let delivery = send(&mut handler, MULTIPLE_RECIPIENTS.as_bytes());
    let message = delivery.message.expect("message accepted");
    assert_eq!(message.to_addrs, vec!["bob@example.com".to_string()]);
    assert_eq!(message.cc_addrs, vec!["admin@example.com".to_string()]);
}

#[test]
fn several_recipients_and_a_mailbox_without_address() {
    let raw = "From: Sender <sender@example.com>, other@example.com\r\n\
To: a@example.com, Undisclosed:;, b@example.com\r\n\
Subject: hi\r\n\
\r\n\
body\r\n";
    let mut handler = MailHandler::new(1024 * 1024);
    let message = send(&mut handler, raw.as_bytes()).message.expect("message accepted");
    assert_eq!(message.from_addr, "sender@example.com");
    assert_eq!(message.to_addrs, vec!["a@example.com".to_string(), "b@example.com".to_string()]);
}

#[test]
fn message_without_from_header_has_empty_sender() {
    let raw = "To: bob@example.com\r\nSubject: no sender\r\n\r\nbody\r\n";
    let mut handler = MailHandler::new(1024);
    let message = send(&mut handler, raw.as_bytes()).message.expect("message accepted");
    assert_eq!(message.from_addr, "");
    assert_eq!(message.to_addrs, vec!["bob@example.com".to_string()]);
}

#[test]
fn data_arriving_in_chunks_is_joined_in_order() {
    let mut handler = MailHandler::new(1024);
    let bytes = PLAIN_TEXT.as_bytes();
    handler.data(&bytes[..10]);
    handler.data(&bytes[10..50]);
    handler.data(&bytes[50..]);
    let message = handler.data_end().message.expect("message accepted");
    assert_eq!(message.raw_source, bytes.to_vec());
    assert_eq!(message.raw_size, bytes.len());
    assert_eq!(message.subject.as_deref(), Some("Reset your password"));
}

#[test]
fn oversized_message_is_refused_and_handler_resets() {
    let limit = PLAIN_TEXT.len() - 1;
    let mut handler = MailHandler::new(limit);
    let delivery = send(&mut handler, PLAIN_TEXT.as_bytes());
    assert_eq!(delivery.reply.code, 552);
    assert_eq!(delivery.reply.text, "5.3.4 Message too large");
    assert_eq!(delivery.reply.action, ReplyAction::Close);
    assert!(delivery.message.is_none());

    // the next message on the same handler starts from an empty buffer
    let small = "Subject: ok\r\n\r\nhi\r\n";
    let delivery = send(&mut handler, small.as_bytes());
    assert_eq!(delivery.reply.code, 250);
    assert_eq!(delivery.message.unwrap().raw_source, small.as_bytes().to_vec());
}

#[test]
fn oversized_stays_oversized_after_a_later_small_chunk() {
    let mut handler = MailHandler::new(8);
    handler.data(b"12345");
    handler.data(b"6789");
    handler.data(b"0");
    let delivery = handler.data_end();
    assert_eq!(delivery.reply.code, 552);
    assert!(delivery.message.is_none());
}

#[test]
fn message_exactly_at_the_limit_is_accepted() {
    let raw = "Subject: edge\r\n\r\nbody\r\n";
    let mut handler = MailHandler::new(raw.len());
    handler.data(&raw.as_bytes()[..5]);
    handler.data(&raw.as_bytes()[5..]);
    let delivery = handler.data_end();
    assert_eq!(delivery.reply.code, 250);
    assert_eq!(delivery.message.unwrap().raw_size, raw.len());
}

#[test]
fn data_that_is_not_a_message_is_refused() {
    let mut handler = MailHandler::new(1024);
    let delivery = handler.data_end();
    assert_eq!(delivery.reply.code, 500);
    assert_eq!(delivery.reply.text, "Error parsing message");
    assert_eq!(delivery.reply.action, ReplyAction::Close);
    assert!(delivery.message.is_none());
}

#[test]
fn reply_steps_follow_the_action() {
    let step = reply_step(ReplyAction::Reply);
    assert!(step.send && !step.close);
    let step = reply_step(ReplyAction::Close);
    assert!(step.send && step.close);
    let step = reply_step(ReplyAction::NoReply);
    assert!(!step.send && !step.close);
    let step = reply_step(ReplyAction::UpgradeTls);
    assert!(!step.send && !step.close);
}

#[test]
fn reading_stops_at_end_of_stream_or_error() {
    assert!(keep_reading(Some(12)));
    assert!(!keep_reading(Some(0)));
    assert!(!keep_reading(None));
}
