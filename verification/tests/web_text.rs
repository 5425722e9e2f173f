use mailcrater::text::{decimal_text, encode_uri_component, join};
use mailcrater::storage::{AttachmentMeta, MessageSummary};
use mailcrater::ui::{
    address_line, attachment_label, attachment_section, attachment_url, body_content, cc_row,
    default_tab, delete_all_button_label, delete_all_label, error_text, fetch_outcome,
    is_selected, listing_body, message_url, messages_url, raw_url, recipients_line,
    request_failure, row_class, subject_text, tab_class, total_text, version_status, BodyContent,
    BodyTab, ListStatus, ListingBody, Reply, VersionState,
};
use mailcrater::ui::{
    detail_notice, detail_step, list_step, DetailAction, DetailEvent, DetailState, DetailStatus,
    ListAction, ListEvent, ListState,
};

#[test]
fn numbers_are_written_in_decimal() {
    assert_eq!(decimal_text(0), "0");
    assert_eq!(decimal_text(7), "7");
    assert_eq!(decimal_text(1234), "1234");
    assert_eq!(decimal_text(-42), "-42");
    assert_eq!(decimal_text(i64::MAX), i64::MAX.to_string());
    assert_eq!(decimal_text(i64::MIN), i64::MIN.to_string());
}

#[test]
fn lists_are_joined_with_separators() {
    assert_eq!(join(&vec![], ", "), "");
    assert_eq!(join(&vec!["a".to_string()], ", "), "a");
    assert_eq!(join(&vec!["a".to_string(), "b".to_string(), "c".to_string()], ", "), "a, b, c");
}

#[test]
fn version_line() {
    assert_eq!(version_status(&VersionState::Loading), "loading backend version...");
    assert_eq!(version_status(&VersionState::Loaded("0.1.0".to_string())), "backend version: 0.1.0");
    assert_eq!(
        version_status(&VersionState::Failed("timeout".to_string())),
        "failed to reach backend: timeout"
    );
}

#[test]
fn urls_of_the_api() {
    assert_eq!(messages_url(""), "/api/messages");
    assert_eq!(messages_url("a b"), "/api/messages?search=a%20b");
    assert_eq!(messages_url("reset"), "/api/messages?search=reset");
    assert_eq!(message_url("m1"), "/api/messages/m1");
    assert_eq!(raw_url("m1"), "/api/messages/m1/raw");
    assert_eq!(attachment_url("m1", "a1"), "/api/messages/m1/attachments/a1");
}

#[test]
fn failures_and_errors() {
    assert_eq!(request_failure(Some("message not found".to_string()), 404), "message not found");
    assert_eq!(request_failure(None, 500), "request failed: 500");
    assert_eq!(error_text("boom"), "Error: boom");
}

#[test]
fn listing_labels() {
    assert_eq!(delete_all_label(None), "Delete all");
    assert_eq!(delete_all_label(Some(3)), "Delete all (3)");
    assert_eq!(total_text(12), "12 total");
    assert_eq!(
        recipients_line(&vec!["a@example.com".to_string(), "b@example.com".to_string()]),
        "To: a@example.com, b@example.com"
    );
    assert_eq!(address_line(&vec!["a@example.com".to_string()]), "a@example.com");
    assert_eq!(subject_text(&None), "");
    assert_eq!(subject_text(&Some("Hi".to_string())), "Hi");
}

#[test]
fn selection() {
    assert!(is_selected(&Some("m1".to_string()), &"m1".to_string()));
    assert!(!is_selected(&Some("m2".to_string()), &"m1".to_string()));
    assert!(!is_selected(&None, &"m1".to_string()));
}

#[test]
fn html_tab_first_when_there_is_html() {
    assert_eq!(default_tab(true), BodyTab::Html);
    assert_eq!(default_tab(false), BodyTab::Plain);
}

#[test]
fn body_area_shows_the_chosen_body_or_a_note() {
    let html = Some("<p>x</p>".to_string());
    let text = Some("x".to_string());
    assert!(matches!(body_content(BodyTab::Html, &html, &text), BodyContent::Html(h) if h == "<p>x</p>"));
    assert!(matches!(body_content(BodyTab::Plain, &html, &text), BodyContent::Plain(t) if t == "x"));
    assert!(matches!(body_content(BodyTab::Html, &None, &text), BodyContent::Missing(m) if m == "No HTML body."));
    assert!(matches!(body_content(BodyTab::Plain, &html, &None), BodyContent::Missing(m) if m == "No plain text body."));
}

#[test]
fn attachment_labels() {
    assert_eq!(
        attachment_label(&Some("receipt.txt".to_string()), &Some("text/plain".to_string()), 18),
        "receipt.txt (text/plain, 18 bytes)"
    );
    assert_eq!(attachment_label(&None, &None, 0), "attachment (unknown type, 0 bytes)");
}

#[test]
fn search_text_is_uri_encoded() {
    assert_eq!(encode_uri_component(""), "");
    assert_eq!(encode_uri_component("AZaz09-_.!~*'()"), "AZaz09-_.!~*'()");
    assert_eq!(encode_uri_component("a&b=c/d?e"), "a%26b%3Dc%2Fd%3Fe");
    assert_eq!(encode_uri_component("bob@example.com"), "bob%40example.com");
    assert_eq!(encode_uri_component("é"), "%C3%A9");
    assert_eq!(encode_uri_component("€"), "%E2%82%AC");
    assert_eq!(encode_uri_component("😀"), "%F0%9F%98%80");
    assert_eq!(encode_uri_component("\n%"), "%0A%25");
}

#[test]
fn sidebar_body() {
    assert!(matches!(listing_body(&ListStatus::Loading, &None), ListingBody::Notice(t) if t == "Loading..."));
    assert!(matches!(listing_body(&ListStatus::Failed("down".to_string()), &None), ListingBody::Notice(t) if t == "Error: down"));
    assert!(matches!(
        listing_body(&ListStatus::Loaded { messages: vec![], total: 0 }, &None),
        ListingBody::Notice(t) if t == "The inbox is empty."
    ));
    assert_eq!(
        delete_all_button_label(&ListStatus::Loaded { messages: vec![summary("m1", None)], total: 9 }),
        "Delete all (9)"
    );
    assert_eq!(delete_all_button_label(&ListStatus::Loading), "Delete all");
}

#[test]
fn replies_become_the_body_or_why_the_request_failed() {
    assert_eq!(fetch_outcome(Reply::Success(Ok(7))), Ok(7));
    assert_eq!(
        fetch_outcome::<i32>(Reply::SendFailed("network down".to_string())),
        Err("network down".to_string())
    );
    assert_eq!(
        fetch_outcome::<i32>(Reply::Success(Err("expected value".to_string()))),
        Err("expected value".to_string())
    );
    assert_eq!(
        fetch_outcome::<()>(Reply::Failure { status: 404, error: Some("message not found".to_string()) }),
        Err("message not found".to_string())
    );
    assert_eq!(
        fetch_outcome::<()>(Reply::Failure { status: 500, error: None }),
        Err("request failed: 500".to_string())
    );
    assert_eq!(fetch_outcome(Reply::Success(Ok(()))), Ok(()));
}

#[test]
fn cc_row_only_where_there_are_cc_addresses() {
    assert_eq!(cc_row(&vec![]), None);
    assert_eq!(
        cc_row(&vec!["carol@example.com".to_string(), "dan@example.com".to_string()]),
        Some("carol@example.com, dan@example.com".to_string())
    );
}

#[test]
fn attachment_section_only_where_there_are_attachments() {
    assert!(attachment_section("m1", &vec![]).is_none());
    let links = attachment_section(
        "m1",
        &vec![
            AttachmentMeta {
                id: "a1".to_string(),
                filename: Some("receipt.txt".to_string()),
                content_type: Some("text/plain".to_string()),
                size: 5,
            },
            AttachmentMeta { id: "a2".to_string(), filename: None, content_type: None, size: 0 },
        ],
    )
    .unwrap();
    assert_eq!(links.len(), 2);
    assert_eq!(links[0].href, "/api/messages/m1/attachments/a1");
    assert_eq!(links[0].label, "receipt.txt (text/plain, 5 bytes)");
    assert_eq!(links[1].href, "/api/messages/m1/attachments/a2");
    assert_eq!(links[1].label, "attachment (unknown type, 0 bytes)");
}

#[test]
fn only_the_chosen_tab_is_active() {
    assert_eq!(tab_class(BodyTab::Html, BodyTab::Html), "tab active");
    assert_eq!(tab_class(BodyTab::Plain, BodyTab::Html), "tab");
    assert_eq!(tab_class(BodyTab::Plain, BodyTab::Plain), "tab active");
    assert_eq!(tab_class(BodyTab::Html, BodyTab::Plain), "tab");
}

#[test]
fn only_the_selected_row_is_marked() {
    let id = "m1".to_string();
    assert_eq!(row_class(&Some("m1".to_string()), &id), "message-row selected");
    assert_eq!(row_class(&Some("m2".to_string()), &id), "message-row");
    assert_eq!(row_class(&None, &id), "message-row");
}

fn list_state(search: &str, status: ListStatus) -> ListState {
    ListState { search: search.to_string(), status }
}

#[test]
fn the_list_loads_for_its_search() {
    let (next, action) = list_step(list_state("", ListStatus::Loading), ListEvent::Refresh);
    assert!(matches!(next.status, ListStatus::Loading));
    assert!(matches!(action, ListAction::Fetch(ref u) if u == "/api/messages"));

    let (next, action) =
        list_step(list_state("", ListStatus::Loading), ListEvent::SearchTyped("a b".to_string()));
    assert_eq!(next.search, "a b");
    assert!(matches!(next.status, ListStatus::Loading));
    assert!(matches!(action, ListAction::Fetch(ref u) if u == "/api/messages?search=a%20b"));

    let (next, action) = list_step(
        list_state("x", ListStatus::Loading),
        ListEvent::Listed(Ok((vec![summary("m1", None), summary("m2", None)], 7))),
    );
    assert_eq!(next.search, "x");
    assert!(matches!(next.status, ListStatus::Loaded { ref messages, total: 7 }
        if messages.len() == 2 && messages[0].id == "m1" && messages[1].id == "m2"));
    assert!(matches!(action, ListAction::Nothing));

    let (next, action) =
        list_step(list_state("x", ListStatus::Loading), ListEvent::Listed(Err("boom".to_string())));
    assert!(matches!(next.status, ListStatus::Failed(ref e) if e == "boom"));
    assert!(matches!(action, ListAction::Nothing));
}

#[test]
fn delete_all_reloads_or_shows_the_failure() {
    let (next, action) = list_step(
        list_state("reset", ListStatus::Loaded { messages: vec![summary("m1", None)], total: 1 }),
        ListEvent::DeleteAllPressed,
    );
    assert!(matches!(next.status, ListStatus::Loaded { ref messages, total: 1 } if messages.len() == 1));
    assert!(matches!(action, ListAction::DeleteAll));

    let (next, action) = list_step(list_state("reset", ListStatus::Loading), ListEvent::DeletedAll(Ok(())));
    assert!(matches!(next.status, ListStatus::Loading));
    assert!(matches!(action, ListAction::Fetch(ref u) if u == "/api/messages?search=reset"));

    let (next, action) = list_step(
        list_state("reset", ListStatus::Loading),
        ListEvent::DeletedAll(Err("request failed: 500".to_string())),
    );
    assert!(matches!(next.status, ListStatus::Failed(ref e) if e == "request failed: 500"));
    assert!(matches!(action, ListAction::Nothing));
}

fn detail_state(id: &str, status: DetailStatus, tab: BodyTab) -> DetailState {
    DetailState { id: id.to_string(), status, tab }
}

#[test]
fn the_detail_loads_and_picks_its_tab() {
    let (next, action) = detail_step(
        detail_state("", DetailStatus::Loading, BodyTab::Html),
        DetailEvent::Opened("m1".to_string()),
    );
    assert_eq!(next.id, "m1");
    assert!(matches!(next.status, DetailStatus::Loading));
    assert!(matches!(action, DetailAction::Fetch(ref u) if u == "/api/messages/m1"));

    let (next, _) = detail_step(detail_state("m1", DetailStatus::Loading, BodyTab::Html), DetailEvent::Fetched(Ok(false)));
    assert!(matches!(next.status, DetailStatus::Loaded));
    assert_eq!(next.tab, BodyTab::Plain);
    let (next, _) = detail_step(detail_state("m1", DetailStatus::Loading, BodyTab::Plain), DetailEvent::Fetched(Ok(true)));
    assert_eq!(next.tab, BodyTab::Html);

    let (next, action) =
        detail_step(detail_state("m1", DetailStatus::Loaded, BodyTab::Html), DetailEvent::TabPressed(BodyTab::Plain));
    assert_eq!(next.tab, BodyTab::Plain);
    assert!(matches!(action, DetailAction::Nothing));

    let (next, _) = detail_step(
        detail_state("m1", DetailStatus::Loading, BodyTab::Html),
        DetailEvent::Fetched(Err("request failed: 404".to_string())),
    );
    assert!(matches!(next.status, DetailStatus::Failed(ref e) if e == "request failed: 404"));
}

#[test]
fn deleting_a_message_closes_the_detail_or_shows_the_failure() {
    let (_, action) = detail_step(detail_state("m1", DetailStatus::Loaded, BodyTab::Html), DetailEvent::DeletePressed);
    assert!(matches!(action, DetailAction::Delete(ref u) if u == "/api/messages/m1"));
    let (_, action) = detail_step(detail_state("m1", DetailStatus::Loaded, BodyTab::Html), DetailEvent::Deleted(Ok(())));
    assert!(matches!(action, DetailAction::Close));
    let (next, action) = detail_step(
        detail_state("m1", DetailStatus::Loaded, BodyTab::Html),
        DetailEvent::Deleted(Err("gone".to_string())),
    );
    assert!(matches!(next.status, DetailStatus::Failed(ref e) if e == "gone"));
    assert!(matches!(action, DetailAction::Nothing));
}

#[test]
fn detail_notes() {
    assert_eq!(detail_notice(&DetailStatus::Loading), Some("Loading message...".to_string()));
    assert_eq!(detail_notice(&DetailStatus::Failed("boom".to_string())), Some("Error: boom".to_string()));
    assert_eq!(detail_notice(&DetailStatus::Loaded), None);
}

fn summary(id: &str, subject: Option<&str>) -> MessageSummary {
    MessageSummary {
        id: id.to_string(),
        received_at: "2024-01-01T00:00:00+00:00".to_string(),
        from_addr: "alice@example.com".to_string(),
        to_addrs: vec!["bob@example.com".to_string(), "carol@example.com".to_string()],
        subject: subject.map(|s| s.to_string()),
    }
}

#[test]
fn every_listed_message_gets_one_row_in_order() {
    let status = ListStatus::Loaded {
        messages: vec![summary("m1", Some("Hello")), summary("m2", None), summary("m3", Some("Bye"))],
        total: 12,
    };
    let body = listing_body(&status, &Some("m2".to_string()));
    let ListingBody::Messages { total_line, rows } = body else {
        panic!("expected the list of messages");
    };
    assert_eq!(total_line, "12 total");
    let ids: Vec<&str> = rows.iter().map(|r| r.id.as_str()).collect();
    assert_eq!(ids, vec!["m1", "m2", "m3"]);
    assert_eq!(rows[0].class, "message-row");
    assert_eq!(rows[1].class, "message-row selected");
    assert_eq!(rows[0].subject, "Hello");
    assert_eq!(rows[1].subject, "");
    assert_eq!(rows[2].from, "alice@example.com");
    assert_eq!(rows[2].received, "2024-01-01T00:00:00+00:00");
    assert_eq!(rows[2].recipients, "To: bob@example.com, carol@example.com");
}
