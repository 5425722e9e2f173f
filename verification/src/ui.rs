use vstd::prelude::*;
use crate::storage::{AttachmentMeta, AttachmentMetaView, MessageSummary, MessageSummaryView};
use crate::text::{decimal, decimal_text, encode_uri_component, join, joined_with, uri_encoded};

verus! {

/// What the web client knows of the backend's version.
pub enum VersionState {
    Loading,
    Loaded(String),
    Failed(String),
}

/// Which body of a message the web client shows.
#[derive(Clone, Copy, PartialEq, Eq, Debug)]
pub enum BodyTab {
    Html,
    Plain,
}

/// The version line of the web client.
pub open spec fn version_status_text(state: VersionState) -> Seq<char> {
    match state {
        VersionState::Loading => "loading backend version..."@,
        VersionState::Loaded(v) => "backend version: "@ + v@,
        VersionState::Failed(e) => "failed to reach backend: "@ + e@,
    }
}

/// The version line of the web client.
pub fn version_status(state: &VersionState) -> (text: String)
    ensures
        text@ == version_status_text(*state),
{
    match state {
        VersionState::Loading => String::from_str("loading backend version..."),
        VersionState::Loaded(v) => {
            let mut text = String::from_str("backend version: ");
            text.append(v.as_str());
            text
        },
        VersionState::Failed(e) => {
            let mut text = String::from_str("failed to reach backend: ");
            text.append(e.as_str());
            text
        },
    }
}

/// The listing URL: the plain listing for an empty search, otherwise the
/// listing filtered by the search text, encoded as `encodeURIComponent` does.
pub open spec fn messages_url_text(search: Seq<char>) -> Seq<char> {
    if search.len() == 0 {
        "/api/messages"@
    } else {
        "/api/messages?search="@ + uri_encoded(search)
    }
}

/// The listing URL.
pub fn messages_url(search: &str) -> (url: String)
    ensures
        url@ == messages_url_text(search@),
{
    if search.is_empty() {
        String::from_str("/api/messages")
    } else {
        let mut url = String::from_str("/api/messages?search=");
        let encoded = encode_uri_component(search);
        url.append(encoded.as_str());
        url
    }
}

/// The URL of a message.
pub open spec fn message_url_text(id: Seq<char>) -> Seq<char> {
    "/api/messages/"@ + id
}

/// The URL of a message.
pub fn message_url(id: &str) -> (url: String)
    ensures
        url@ == message_url_text(id@),
{
    let mut url = String::from_str("/api/messages/");
    url.append(id);
    url
}

/// The URL of a message's raw source.
pub fn raw_url(id: &str) -> (url: String)
    ensures
        url@ == "/api/messages/"@ + id@ + "/raw"@,
{
    let mut url = message_url(id);
    url.append("/raw");
    url
}

/// The URL of an attachment of a message.
pub fn attachment_url(message_id: &str, attachment_id: &str) -> (url: String)
    ensures
        url@ == "/api/messages/"@ + message_id@ + "/attachments/"@ + attachment_id@,
{
    let mut url = message_url(message_id);
    url.append("/attachments/");
    url.append(attachment_id);
    url
}

/// Why a request failed: the error of the server's JSON error body, or the
/// HTTP status where the body has none.
pub fn request_failure(error_body: Option<String>, status: u16) -> (text: String)
    ensures
        error_body matches Some(e) ==> text@ == e@,
        error_body is None ==> text@ == "request failed: "@ + decimal(status as int),
{
    match error_body {
        Some(e) => e,
        None => {
            let mut text = String::from_str("request failed: ");
            let code = decimal_text(status as i64);
            text.append(code.as_str());
            text
        },
    }
}

/// An error as the web client shows it.
pub fn error_text(error: &str) -> (text: String)
    ensures
        text@ == "Error: "@ + error@,
{
    let mut text = String::from_str("Error: ");
    text.append(error);
    text
}

/// The label of the delete-all button: with the number of messages once the
/// listing is loaded.
pub fn delete_all_label(total: Option<i64>) -> (label: String)
    ensures
        total matches Some(t) ==> label@ == "Delete all ("@ + decimal(t as int) + ")"@,
        total is None ==> label@ == "Delete all"@,
{
    match total {
        Some(t) => {
            let mut label = String::from_str("Delete all (");
            let count = decimal_text(t);
            label.append(count.as_str());
            label.append(")");
            label
        },
        None => String::from_str("Delete all"),
    }
}

/// The line with the number of listed messages.
pub fn total_text(total: i64) -> (text: String)
    ensures
        text@ == decimal(total as int) + " total"@,
{
    let mut text = decimal_text(total);
    text.append(" total");
    text
}

/// The body shown first: the HTML body where there is one.
pub fn default_tab(has_html_body: bool) -> (tab: BodyTab)
    ensures
        tab == (if has_html_body { BodyTab::Html } else { BodyTab::Plain }),
{
    if has_html_body {
        BodyTab::Html
    } else {
        BodyTab::Plain
    }
}

/// What the body area of a message shows.
pub enum BodyContent {
    /// An HTML body, shown in a sandboxed frame.
    Html(String),
    /// A plain-text body.
    Plain(String),
    /// A note that the chosen body is missing.
    Missing(String),
}

pub ghost enum BodyContentView {
    Html(Seq<char>),
    Plain(Seq<char>),
    Missing(Seq<char>),
}

impl View for BodyContent {
    type V = BodyContentView;

    open spec fn view(&self) -> BodyContentView {
        match self {
            BodyContent::Html(t) => BodyContentView::Html(t@),
            BodyContent::Plain(t) => BodyContentView::Plain(t@),
            BodyContent::Missing(t) => BodyContentView::Missing(t@),
        }
    }
}

/// What the body area shows for the chosen tab.
pub open spec fn body_content_of(tab: BodyTab, html: Option<Seq<char>>, plain: Option<Seq<char>>) -> BodyContentView {
    match tab {
        BodyTab::Html => match html {
            Some(h) => BodyContentView::Html(h),
            None => BodyContentView::Missing("No HTML body."@),
        },
        BodyTab::Plain => match plain {
            Some(p) => BodyContentView::Plain(p),
            None => BodyContentView::Missing("No plain text body."@),
        },
    }
}

/// What the body area shows for the chosen tab.
pub fn body_content(tab: BodyTab, body_html: &Option<String>, body_text: &Option<String>) -> (content: BodyContent)
    ensures
        content@ == body_content_of(tab, body_html.deep_view(), body_text.deep_view()),
{
    match tab {
        BodyTab::Html => match body_html {
            Some(h) => BodyContent::Html(h.clone()),
            None => BodyContent::Missing(String::from_str("No HTML body.")),
        },
        BodyTab::Plain => match body_text {
            Some(p) => BodyContent::Plain(p.clone()),
            None => BodyContent::Missing(String::from_str("No plain text body.")),
        },
    }
}

/// The label of an attachment link: `name (type, size bytes)`, with
/// `attachment` and `unknown type` where the name or the type is missing.
pub open spec fn attachment_label_text(filename: Option<Seq<char>>, content_type: Option<Seq<char>>, size: int) -> Seq<char> {
    (match filename {
        Some(f) => f,
        None => "attachment"@,
    }) + " ("@ + (match content_type {
        Some(t) => t,
        None => "unknown type"@,
    }) + ", "@ + decimal(size) + " bytes)"@
}

/// The label of an attachment link.
pub fn attachment_label(filename: &Option<String>, content_type: &Option<String>, size: i64) -> (label: String)
    ensures
        label@ == attachment_label_text(filename.deep_view(), content_type.deep_view(), size as int),
{
    let mut label = match filename {
        Some(f) => f.clone(),
        None => String::from_str("attachment"),
    };
    label.append(" (");
    match content_type {
        Some(t) => label.append(t.as_str()),
        None => label.append("unknown type"),
    }
    label.append(", ");
    let count = decimal_text(size);
    label.append(count.as_str());
    label.append(" bytes)");
    label
}

/// A list of addresses as one line.
pub fn address_line(addresses: &Vec<String>) -> (line: String)
    ensures
        line@ == joined_with(addresses.deep_view(), ", "@),
{
    join(addresses, ", ")
}

/// The recipients line of a listing row.
pub fn recipients_line(to_addrs: &Vec<String>) -> (line: String)
    ensures
        line@ == "To: "@ + joined_with(to_addrs.deep_view(), ", "@),
{
    let mut line = String::from_str("To: ");
    let addresses = join(to_addrs, ", ");
    line.append(addresses.as_str());
    line
}

/// The subject as shown: empty where the message has none.
pub fn subject_text(subject: &Option<String>) -> (text: String)
    ensures
        subject.deep_view() matches Some(s) ==> text@ == s,
        subject is None ==> text@ == Seq::<char>::empty(),
{
    match subject {
        Some(s) => s.clone(),
        None => String::new(),
    }
}

/// Whether a listing row is the selected message.
pub fn is_selected(selected_id: &Option<String>, id: &String) -> (selected: bool)
    ensures
        selected == (selected_id.deep_view() == Some(id@)),
{
    match selected_id {
        Some(s) => *s == *id,
        None => false,
    }
}

/// What the web client knows of the message listing.
pub enum ListStatus {
    Loading,
    /// The listing arrived: the messages of the page, in order, and the
    /// number of all matching messages.
    Loaded { messages: Vec<MessageSummary>, total: i64 },
    Failed(String),
}

pub ghost enum ListStatusView {
    Loading,
    Loaded { messages: Seq<MessageSummaryView>, total: i64 },
    Failed(Seq<char>),
}

impl View for ListStatus {
    type V = ListStatusView;

    open spec fn view(&self) -> ListStatusView {
        match self {
            ListStatus::Loading => ListStatusView::Loading,
            ListStatus::Loaded { messages, total } => ListStatusView::Loaded {
                messages: messages@.map_values(|m: MessageSummary| m@),
                total: *total,
            },
            ListStatus::Failed(e) => ListStatusView::Failed(e@),
        }
    }
}

/// One row of the message list: the message it opens, its class, and its
/// sender, time, subject and recipients lines.
pub struct ListingRow {
    pub id: String,
    pub class: String,
    pub from: String,
    pub received: String,
    pub subject: String,
    pub recipients: String,
}

pub ghost struct ListingRowView {
    pub id: Seq<char>,
    pub class: Seq<char>,
    pub from: Seq<char>,
    pub received: Seq<char>,
    pub subject: Seq<char>,
    pub recipients: Seq<char>,
}

impl View for ListingRow {
    type V = ListingRowView;

    open spec fn view(&self) -> ListingRowView {
        ListingRowView {
            id: self.id@,
            class: self.class@,
            from: self.from@,
            received: self.received@,
            subject: self.subject@,
            recipients: self.recipients@,
        }
    }
}

/// The row of a listed message: marked where it is the selected message,
/// with an empty subject where it has none.
pub open spec fn listing_row_of(m: MessageSummaryView, selected_id: Option<Seq<char>>) -> ListingRowView {
    ListingRowView {
        id: m.id,
        class: if selected_id == Some(m.id) { "message-row selected"@ } else { "message-row"@ },
        from: m.from_addr,
        received: m.received_at,
        subject: match m.subject {
            Some(s) => s,
            None => Seq::<char>::empty(),
        },
        recipients: "To: "@ + joined_with(m.to_addrs, ", "@),
    }
}

/// The row of a listed message.
pub fn listing_row(m: &MessageSummary, selected_id: &Option<String>) -> (row: ListingRow)
    ensures
        row@ == listing_row_of(m@, selected_id.deep_view()),
{
    ListingRow {
        id: m.id.clone(),
        class: row_class(selected_id, &m.id),
        from: m.from_addr.clone(),
        received: m.received_at.clone(),
        subject: subject_text(&m.subject),
        recipients: recipients_line(&m.to_addrs),
    }
}

/// What the sidebar shows below its controls.
pub enum ListingBody {
    /// A note in place of the list.
    Notice(String),
    /// The number of all matching messages, then one row per listed message.
    Messages { total_line: String, rows: Vec<ListingRow> },
}

pub ghost enum ListingBodyView {
    Notice(Seq<char>),
    Messages { total_line: Seq<char>, rows: Seq<ListingRowView> },
}

impl View for ListingBody {
    type V = ListingBodyView;

    open spec fn view(&self) -> ListingBodyView {
        match self {
            ListingBody::Notice(t) => ListingBodyView::Notice(t@),
            ListingBody::Messages { total_line, rows } => ListingBodyView::Messages {
                total_line: total_line@,
                rows: rows@.map_values(|r: ListingRow| r@),
            },
        }
    }
}

/// What the sidebar shows: a note while loading, on failure and for an empty
/// inbox, otherwise the number of all matching messages and one row for each
/// listed message, in the listing's order.
pub open spec fn listing_body_of(status: ListStatusView, selected_id: Option<Seq<char>>) -> ListingBodyView {
    match status {
        ListStatusView::Loading => ListingBodyView::Notice("Loading..."@),
        ListStatusView::Failed(e) => ListingBodyView::Notice("Error: "@ + e),
        ListStatusView::Loaded { messages, total } => if messages.len() == 0 {
            ListingBodyView::Notice("The inbox is empty."@)
        } else {
            ListingBodyView::Messages {
                total_line: decimal(total as int) + " total"@,
                rows: messages.map_values(|m: MessageSummaryView| listing_row_of(m, selected_id)),
            }
        },
    }
}

/// The sidebar lists every message of a loaded, non-empty listing once, in
/// the listing's order: row `i` opens message `i` and shows its sender, time
/// and subject (empty where it has none), and only the selected message's
/// row is marked selected.
pub proof fn lemma_listing_shows_each_message_once(status: ListStatusView, selected_id: Option<Seq<char>>)
    ensures
        status matches ListStatusView::Loaded { messages, .. } ==> messages.len() > 0 ==> {
            &&& listing_body_of(status, selected_id) matches ListingBodyView::Messages { rows, .. }
            &&& rows.len() == messages.len()
            &&& forall|i: int| 0 <= i < messages.len() ==> {
                let row = #[trigger] rows[i];
                &&& row.id == messages[i].id
                &&& row.from == messages[i].from_addr
                &&& row.received == messages[i].received_at
                &&& (messages[i].subject matches Some(t) ==> row.subject == t)
                &&& (messages[i].subject is None ==> row.subject.len() == 0)
                &&& (row.class == "message-row selected"@ <==> selected_id == Some(messages[i].id))
            }
        },
{
    reveal_strlit("message-row selected");
    reveal_strlit("message-row");
    if let ListStatusView::Loaded { messages, total } = status {
        if messages.len() > 0 {
            let rows = messages.map_values(|m: MessageSummaryView| listing_row_of(m, selected_id));
            assert(listing_body_of(status, selected_id) == (ListingBodyView::Messages {
                total_line: decimal(total as int) + " total"@,
                rows,
            }));
            assert forall|i: int| 0 <= i < messages.len() implies {
                let row = #[trigger] rows[i];
                &&& row.id == messages[i].id
                &&& row.from == messages[i].from_addr
                &&& row.received == messages[i].received_at
                &&& (messages[i].subject matches Some(t) ==> row.subject == t)
                &&& (messages[i].subject is None ==> row.subject.len() == 0)
                &&& (row.class == "message-row selected"@ <==> selected_id == Some(messages[i].id))
            } by {
                assert(rows[i] == listing_row_of(messages[i], selected_id));
                assert("message-row"@.len() != "message-row selected"@.len());
            }
        }
    }
}

/// What the sidebar shows.
pub fn listing_body(status: &ListStatus, selected_id: &Option<String>) -> (body: ListingBody)
    ensures
        body@ == listing_body_of(status@, selected_id.deep_view()),
{
    match status {
        ListStatus::Loading => ListingBody::Notice(String::from_str("Loading...")),
        ListStatus::Failed(e) => ListingBody::Notice(error_text(e.as_str())),
        ListStatus::Loaded { messages, total } => {
            if messages.len() == 0 {
                ListingBody::Notice(String::from_str("The inbox is empty."))
            } else {
                let mut rows: Vec<ListingRow> = Vec::new();
                let mut i: usize = 0;
                while i < messages.len()
                    invariant
                        i <= messages@.len(),
                        rows@.len() == i,
                        forall|j: int| 0 <= j < i ==> (#[trigger] rows@[j])@
                            == listing_row_of(messages@[j]@, selected_id.deep_view()),
                    decreases messages@.len() - i,
                {
                    rows.push(listing_row(&messages[i], selected_id));
                    i = i + 1;
                }
                assert(rows@.map_values(|r: ListingRow| r@) =~= messages@.map_values(|m: MessageSummary| m@).map_values(
                    |m: MessageSummaryView| listing_row_of(m, selected_id.deep_view()),
                ));
                ListingBody::Messages { total_line: total_text(*total), rows }
            }
        },
    }
}

/// The label of the delete-all button: with the number of messages once the
/// listing has arrived.
pub fn delete_all_button_label(status: &ListStatus) -> (label: String)
    ensures
        status matches ListStatus::Loaded { total, .. } ==> label@ == "Delete all ("@ + decimal(total as int) + ")"@,
        !(status matches ListStatus::Loaded { .. }) ==> label@ == "Delete all"@,
{
    match status {
        ListStatus::Loaded { total, .. } => delete_all_label(Some(*total)),
        _ => delete_all_label(None),
    }
}

/// What came back of a request that the web client made.
pub enum Reply<T> {
    /// The request could not be sent; why.
    SendFailed(String),
    /// A success status, with its body as read: the parsed body, or why it
    /// could not be read.
    Success(Result<T, String>),
    /// A failure status, with the `error` of its JSON error body where the
    /// body is one.
    Failure { status: u16, error: Option<String> },
}

/// What the web client makes of a reply: the body where a success status
/// brought one that could be read, otherwise why the request failed.
pub fn fetch_outcome<T>(reply: Reply<T>) -> (outcome: Result<T, String>)
    ensures
        reply matches Reply::SendFailed(e) ==> (outcome matches Err(m) && m@ == e@),
        reply matches Reply::Success(Ok(body)) ==> outcome == Ok::<T, String>(body),
        reply matches Reply::Success(Err(e)) ==> (outcome matches Err(m) && m@ == e@),
        reply matches Reply::Failure { error: Some(e), .. } ==> (outcome matches Err(m) && m@ == e@),
        reply matches Reply::Failure { status, error: None } ==> (outcome matches Err(m)
            && m@ == "request failed: "@ + decimal(status as int)),
{
    match reply {
        Reply::SendFailed(e) => Err(e),
        Reply::Success(body) => body,
        Reply::Failure { status, error } => Err(request_failure(error, status)),
    }
}

/// The Cc row of a message's detail: there only where the message has Cc
/// addresses, which it shows on one line.
pub fn cc_row(cc_addrs: &Vec<String>) -> (row: Option<String>)
    ensures
        cc_addrs@.len() == 0 ==> row is None,
        cc_addrs@.len() != 0 ==> (row matches Some(line) && line@ == joined_with(cc_addrs.deep_view(), ", "@)),
{
    if cc_addrs.len() == 0 {
        None
    } else {
        Some(address_line(cc_addrs))
    }
}

/// A link to an attachment: where it points and what it says.
pub struct AttachmentLink {
    pub href: String,
    pub label: String,
}

pub ghost struct AttachmentLinkView {
    pub href: Seq<char>,
    pub label: Seq<char>,
}

impl View for AttachmentLink {
    type V = AttachmentLinkView;

    open spec fn view(&self) -> AttachmentLinkView {
        AttachmentLinkView { href: self.href@, label: self.label@ }
    }
}

/// The link to an attachment of a message.
pub open spec fn attachment_link_of(message_id: Seq<char>, a: AttachmentMetaView) -> AttachmentLinkView {
    AttachmentLinkView {
        href: "/api/messages/"@ + message_id + "/attachments/"@ + a.id,
        label: attachment_label_text(a.filename, a.content_type, a.size as int),
    }
}

/// The attachments section of a message's detail: there only where the
/// message has attachments, with a link to each, in their order.
pub fn attachment_section(message_id: &str, attachments: &Vec<AttachmentMeta>) -> (section: Option<Vec<AttachmentLink>>)
    ensures
        attachments@.len() == 0 ==> section is None,
        attachments@.len() != 0 ==> (section matches Some(links)
            && links@.len() == attachments@.len()
            && forall|i: int| 0 <= i < links@.len()
                ==> (#[trigger] links@[i])@ == attachment_link_of(message_id@, attachments@[i]@)),
{
    if attachments.len() == 0 {
        return None;
    }
    let mut links: Vec<AttachmentLink> = Vec::new();
    let mut i: usize = 0;
    while i < attachments.len()
        invariant
            i <= attachments@.len(),
            links@.len() == i,
            forall|j: int| 0 <= j < i ==> (#[trigger] links@[j])@ == attachment_link_of(message_id@, attachments@[j]@),
        decreases attachments@.len() - i,
    {
        let a = &attachments[i];
        let link = AttachmentLink {
            href: attachment_url(message_id, a.id.as_str()),
            label: attachment_label(&a.filename, &a.content_type, a.size),
        };
        links.push(link);
        i = i + 1;
    }
    Some(links)
}

/// The class of a body tab's button: `tab active` for the chosen tab, `tab`
/// for the other.
pub fn tab_class(tab: BodyTab, chosen: BodyTab) -> (class: String)
    ensures
        tab == chosen ==> class@ == "tab active"@,
        tab != chosen ==> class@ == "tab"@,
{
    let active = match (tab, chosen) {
        (BodyTab::Html, BodyTab::Html) => true,
        (BodyTab::Plain, BodyTab::Plain) => true,
        _ => false,
    };
    if active {
        String::from_str("tab active")
    } else {
        String::from_str("tab")
    }
}

/// The class of a listing row: `message-row selected` for the selected
/// message, `message-row` for the others.
pub fn row_class(selected_id: &Option<String>, id: &String) -> (class: String)
    ensures
        selected_id.deep_view() == Some(id@) ==> class@ == "message-row selected"@,
        selected_id.deep_view() != Some(id@) ==> class@ == "message-row"@,
{
    if is_selected(selected_id, id) {
        String::from_str("message-row selected")
    } else {
        String::from_str("message-row")
    }
}

/// The state of the message list: the search text and what is known of the
/// listing.
pub struct ListState {
    pub search: String,
    pub status: ListStatus,
}

/// What happens to the message list.
pub enum ListEvent {
    /// The list appeared, or it is asked to load again (the refresh button
    /// or a refresh signal of the page).
    Refresh,
    /// The search box now holds this text.
    SearchTyped(String),
    /// A listing arrived: the messages of the page and the number of all
    /// matching messages, or why it failed.
    Listed(Result<(Vec<MessageSummary>, i64), String>),
    /// The delete-all button was pressed.
    DeleteAllPressed,
    /// The delete-all request ended.
    DeletedAll(Result<(), String>),
}

/// What the message list asks to be done.
pub enum ListAction {
    Nothing,
    /// Fetch the listing at this URL.
    Fetch(String),
    /// Delete every message.
    DeleteAll,
}

/// The message list's next state and action after an event: every (re)load
/// shows `Loading...` and fetches the listing for the current search; typing
/// changes the search and fetches its listing; a listing that arrives is
/// shown; a finished delete-all loads the listing again, or shows why it
/// failed.
pub fn list_step(state: ListState, event: ListEvent) -> (next: (ListState, ListAction))
    ensures
        event matches ListEvent::Refresh ==> {
            &&& next.0.search@ == state.search@
            &&& next.0.status is Loading
            &&& next.1 matches ListAction::Fetch(url) && url@ == messages_url_text(state.search@)
        },
        event matches ListEvent::SearchTyped(text) ==> {
            &&& next.0.search@ == text@
            &&& next.0.status is Loading
            &&& next.1 matches ListAction::Fetch(url) && url@ == messages_url_text(text@)
        },
        event matches ListEvent::Listed(Ok((messages, total))) ==> {
            &&& next.0.search@ == state.search@
            &&& next.0.status@ == (ListStatusView::Loaded {
                messages: messages@.map_values(|m: MessageSummary| m@),
                total,
            })
            &&& next.1 is Nothing
        },
        event matches ListEvent::Listed(Err(e)) ==> {
            &&& next.0.search@ == state.search@
            &&& next.0.status matches ListStatus::Failed(m) && m@ == e@
            &&& next.1 is Nothing
        },
        event matches ListEvent::DeleteAllPressed ==> {
            &&& next.0.search@ == state.search@
            &&& next.0.status == state.status
            &&& next.1 is DeleteAll
        },
        event matches ListEvent::DeletedAll(Ok(_)) ==> {
            &&& next.0.search@ == state.search@
            &&& next.0.status is Loading
            &&& next.1 matches ListAction::Fetch(url) && url@ == messages_url_text(state.search@)
        },
        event matches ListEvent::DeletedAll(Err(e)) ==> {
            &&& next.0.search@ == state.search@
            &&& next.0.status matches ListStatus::Failed(m) && m@ == e@
            &&& next.1 is Nothing
        },
{
    let ListState { search, status } = state;
    match event {
        ListEvent::Refresh => {
            let url = messages_url(search.as_str());
            (ListState { search, status: ListStatus::Loading }, ListAction::Fetch(url))
        },
        ListEvent::SearchTyped(text) => {
            let url = messages_url(text.as_str());
            (ListState { search: text, status: ListStatus::Loading }, ListAction::Fetch(url))
        },
        ListEvent::Listed(Ok((messages, total))) => {
            (ListState { search, status: ListStatus::Loaded { messages, total } }, ListAction::Nothing)
        },
        ListEvent::Listed(Err(e)) => (ListState { search, status: ListStatus::Failed(e) }, ListAction::Nothing),
        ListEvent::DeleteAllPressed => (ListState { search, status }, ListAction::DeleteAll),
        ListEvent::DeletedAll(Ok(_)) => {
            let url = messages_url(search.as_str());
            (ListState { search, status: ListStatus::Loading }, ListAction::Fetch(url))
        },
        ListEvent::DeletedAll(Err(e)) => {
            (ListState { search, status: ListStatus::Failed(e) }, ListAction::Nothing)
        },
    }
}

/// What the detail view knows of its message.
pub enum DetailStatus {
    Loading,
    Loaded,
    Failed(String),
}

/// The state of the detail view: the message it shows, what is known of it
/// and the chosen body tab.
pub struct DetailState {
    pub id: String,
    pub status: DetailStatus,
    pub tab: BodyTab,
}

/// What happens to the detail view.
pub enum DetailEvent {
    /// The view is asked to show the message with this id.
    Opened(String),
    /// The message arrived, telling whether it has an HTML body, or the
    /// request failed.
    Fetched(Result<bool, String>),
    /// A body tab was pressed.
    TabPressed(BodyTab),
    /// The delete button was pressed.
    DeletePressed,
    /// The delete request ended.
    Deleted(Result<(), String>),
}

/// What the detail view asks to be done.
pub enum DetailAction {
    Nothing,
    /// Fetch the message at this URL.
    Fetch(String),
    /// Delete the message at this URL.
    Delete(String),
    /// Tell the page that the message is gone.
    Close,
}

/// The detail view's next state and action after an event: opening a
/// message loads it; an arrived message is shown on its HTML tab where it
/// has an HTML body, else on its plain tab; a pressed tab is chosen; delete
/// sends the request, and its end closes the view or shows why it failed.
pub fn detail_step(state: DetailState, event: DetailEvent) -> (next: (DetailState, DetailAction))
    ensures
        event matches DetailEvent::Opened(id) ==> {
            &&& next.0.id@ == id@
            &&& next.0.status is Loading
            &&& next.0.tab == state.tab
            &&& next.1 matches DetailAction::Fetch(url) && url@ == message_url_text(id@)
        },
        event matches DetailEvent::Fetched(Ok(has_html)) ==> {
            &&& next.0.id@ == state.id@
            &&& next.0.status is Loaded
            &&& next.0.tab == (if has_html { BodyTab::Html } else { BodyTab::Plain })
            &&& next.1 is Nothing
        },
        event matches DetailEvent::Fetched(Err(e)) ==> {
            &&& next.0.id@ == state.id@
            &&& next.0.status matches DetailStatus::Failed(m) && m@ == e@
            &&& next.0.tab == state.tab
            &&& next.1 is Nothing
        },
        event matches DetailEvent::TabPressed(tab) ==> {
            &&& next.0.id@ == state.id@
            &&& next.0.status == state.status
            &&& next.0.tab == tab
            &&& next.1 is Nothing
        },
        event matches DetailEvent::DeletePressed ==> {
            &&& next.0.id@ == state.id@
            &&& next.0.status == state.status
            &&& next.0.tab == state.tab
            &&& next.1 matches DetailAction::Delete(url) && url@ == message_url_text(state.id@)
        },
        event matches DetailEvent::Deleted(Ok(_)) ==> {
            &&& next.0.id@ == state.id@
            &&& next.0.status == state.status
            &&& next.0.tab == state.tab
            &&& next.1 is Close
        },
        event matches DetailEvent::Deleted(Err(e)) ==> {
            &&& next.0.id@ == state.id@
            &&& next.0.status matches DetailStatus::Failed(m) && m@ == e@
            &&& next.0.tab == state.tab
            &&& next.1 is Nothing
        },
{
    let DetailState { id, status, tab } = state;
    match event {
        DetailEvent::Opened(new_id) => {
            let url = message_url(new_id.as_str());
            (DetailState { id: new_id, status: DetailStatus::Loading, tab }, DetailAction::Fetch(url))
        },
        DetailEvent::Fetched(Ok(has_html)) => {
            (DetailState { id, status: DetailStatus::Loaded, tab: default_tab(has_html) }, DetailAction::Nothing)
        },
        DetailEvent::Fetched(Err(e)) => (DetailState { id, status: DetailStatus::Failed(e), tab }, DetailAction::Nothing),
        DetailEvent::TabPressed(chosen) => (DetailState { id, status, tab: chosen }, DetailAction::Nothing),
        DetailEvent::DeletePressed => {
            let url = message_url(id.as_str());
            (DetailState { id, status, tab }, DetailAction::Delete(url))
        },
        DetailEvent::Deleted(Ok(_)) => (DetailState { id, status, tab }, DetailAction::Close),
        DetailEvent::Deleted(Err(e)) => (DetailState { id, status: DetailStatus::Failed(e), tab }, DetailAction::Nothing),
    }
}

/// The note that the detail view shows in place of a message: while it
/// loads and where it failed; none once it is there.
pub fn detail_notice(status: &DetailStatus) -> (note: Option<String>)
    ensures
        status is Loading ==> (note matches Some(t) && t@ == "Loading message..."@),
        status matches DetailStatus::Failed(e) ==> (note matches Some(t) && t@ == "Error: "@ + e@),
        status is Loaded ==> note is None,
{
    match status {
        DetailStatus::Loading => Some(String::from_str("Loading message...")),
        DetailStatus::Failed(e) => Some(error_text(e.as_str())),
        DetailStatus::Loaded => None,
    }
}

} // verus!
