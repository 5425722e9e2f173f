use vstd::prelude::*;
use crate::ids::{ids_distinct, is_utc_timestamp, is_uuid_v4_text, new_id, now_rfc3339};
use crate::json::{decode_addresses, encode_addresses, json_string_list, json_string_list_parse};
use crate::message::{NewAttachmentView, NewMessage, NewMessageView};

verus! {

/// Why stored data could not be read.
#[derive(Debug, PartialEq, Eq)]
pub enum StorageError {
    /// A stored address list is not a JSON array of strings.
    MalformedAddressList,
}

// ---------------------------------------------------------------------------
// Writing a message
// ---------------------------------------------------------------------------

/// The row written to the `messages` table.
pub struct MessageRecord {
    pub id: String,
    pub received_at: String,
    pub from_addr: String,
    /// The `To` addresses as a JSON array.
    pub to_addrs: String,
    /// The `Cc` addresses as a JSON array, or NULL where there are none.
    pub cc_addrs: Option<String>,
    pub subject: Option<String>,
    pub body_text: Option<String>,
    pub body_html: Option<String>,
    pub raw_size: i64,
    pub raw_source: Vec<u8>,
}

/// A row written to the `attachments` table.
pub struct AttachmentRecord {
    pub id: String,
    pub message_id: String,
    pub filename: Option<String>,
    pub content_type: Option<String>,
    pub size: i64,
    pub data: Vec<u8>,
}

/// The rows that storing one message writes, in one transaction.
pub struct InsertPlan {
    pub message: MessageRecord,
    pub attachments: Vec<AttachmentRecord>,
}

pub ghost struct MessageRecordView {
    pub id: Seq<char>,
    pub received_at: Seq<char>,
    pub from_addr: Seq<char>,
    pub to_addrs: Seq<char>,
    pub cc_addrs: Option<Seq<char>>,
    pub subject: Option<Seq<char>>,
    pub body_text: Option<Seq<char>>,
    pub body_html: Option<Seq<char>>,
    pub raw_size: i64,
    pub raw_source: Seq<u8>,
}

pub ghost struct AttachmentRecordView {
    pub id: Seq<char>,
    pub message_id: Seq<char>,
    pub filename: Option<Seq<char>>,
    pub content_type: Option<Seq<char>>,
    pub size: i64,
    pub data: Seq<u8>,
}

pub ghost struct InsertPlanView {
    pub message: MessageRecordView,
    pub attachments: Seq<AttachmentRecordView>,
}

impl View for MessageRecord {
    type V = MessageRecordView;

    open spec fn view(&self) -> MessageRecordView {
        MessageRecordView {
            id: self.id@,
            received_at: self.received_at@,
            from_addr: self.from_addr@,
            to_addrs: self.to_addrs@,
            cc_addrs: self.cc_addrs.deep_view(),
            subject: self.subject.deep_view(),
            body_text: self.body_text.deep_view(),
            body_html: self.body_html.deep_view(),
            raw_size: self.raw_size,
            raw_source: self.raw_source@,
        }
    }
}

impl View for AttachmentRecord {
    type V = AttachmentRecordView;

    open spec fn view(&self) -> AttachmentRecordView {
        AttachmentRecordView {
            id: self.id@,
            message_id: self.message_id@,
            filename: self.filename.deep_view(),
            content_type: self.content_type.deep_view(),
            size: self.size,
            data: self.data@,
        }
    }
}

impl View for InsertPlan {
    type V = InsertPlanView;

    open spec fn view(&self) -> InsertPlanView {
        InsertPlanView {
            message: self.message@,
            attachments: self.attachments@.map_values(|a: AttachmentRecord| a@),
        }
    }
}

/// The stored `Cc` column: NULL where there are no `Cc` addresses, their JSON
/// array otherwise.
pub open spec fn cc_column(cc_addrs: Seq<Seq<char>>) -> Option<Seq<char>> {
    if cc_addrs.len() == 0 {
        None
    } else {
        Some(json_string_list(cc_addrs))
    }
}

/// The `messages` row of a message.
pub open spec fn message_record_of(msg: NewMessageView, id: Seq<char>, received_at: Seq<char>) -> MessageRecordView {
    MessageRecordView {
        id,
        received_at,
        from_addr: msg.from_addr,
        to_addrs: json_string_list(msg.to_addrs),
        cc_addrs: cc_column(msg.cc_addrs),
        subject: msg.subject,
        body_text: msg.body_text,
        body_html: msg.body_html,
        raw_size: msg.raw_size as i64,
        raw_source: msg.raw_source,
    }
}

/// The `attachments` row of an attachment of the message `message_id`.
pub open spec fn attachment_record_of(a: NewAttachmentView, id: Seq<char>, message_id: Seq<char>) -> AttachmentRecordView {
    AttachmentRecordView {
        id,
        message_id,
        filename: a.filename,
        content_type: a.content_type,
        size: a.size as i64,
        data: a.data,
    }
}

/// The rows that store a message under the given ids and time.
pub open spec fn insert_plan_of(
    msg: NewMessageView,
    id: Seq<char>,
    received_at: Seq<char>,
    attachment_ids: Seq<Seq<char>>,
) -> InsertPlanView {
    InsertPlanView {
        message: message_record_of(msg, id, received_at),
        attachments: Seq::new(
            msg.attachments.len(),
            |i: int| attachment_record_of(msg.attachments[i], attachment_ids[i], id),
        ),
    }
}

fn clone_opt(s: &Option<String>) -> (c: Option<String>)
    ensures
        c.deep_view() == s.deep_view(),
{
    match s {
        Some(t) => Some(t.clone()),
        None => None,
    }
}

/// The rows that store a message under the given ids and time (ids and time
/// are the caller's; each attachment gets the id at its position).
pub fn insert_records(
    msg: &NewMessage,
    id: &String,
    received_at: &String,
    attachment_ids: &Vec<String>,
) -> (plan: InsertPlan)
    requires
        attachment_ids@.len() == msg.attachments@.len(),
    ensures
        plan@ == insert_plan_of(msg@, id@, received_at@, attachment_ids.deep_view()),
        read_back(plan@) == Some(detail_of_message(msg@, id@, received_at@, attachment_ids.deep_view())),
{
    let cc_addrs = if msg.cc_addrs.len() == 0 {
        None
    } else {
        Some(encode_addresses(&msg.cc_addrs))
    };
    let message = MessageRecord {
        id: id.clone(),
        received_at: received_at.clone(),
        from_addr: msg.from_addr.clone(),
        to_addrs: encode_addresses(&msg.to_addrs),
        cc_addrs,
        subject: clone_opt(&msg.subject),
        body_text: clone_opt(&msg.body_text),
        body_html: clone_opt(&msg.body_html),
        raw_size: msg.raw_size as i64,
        raw_source: msg.raw_source.clone(),
    };
    let mut attachments: Vec<AttachmentRecord> = Vec::new();
    let mut i: usize = 0;
    while i < msg.attachments.len()
        invariant
            i <= msg.attachments@.len(),
            attachment_ids@.len() == msg.attachments@.len(),
            attachments@.len() == i,
            forall|j: int| 0 <= j < i ==> (#[trigger] attachments@[j])@
                == attachment_record_of(msg.attachments@[j]@, attachment_ids@[j]@, id@),
        decreases msg.attachments@.len() - i,
    {
        let a = &msg.attachments[i];
        attachments.push(AttachmentRecord {
            id: attachment_ids[i].clone(),
            message_id: id.clone(),
            filename: clone_opt(&a.filename),
            content_type: clone_opt(&a.content_type),
            size: a.size as i64,
            data: a.data.clone(),
        });
        i = i + 1;
    }
    let plan = InsertPlan { message, attachments };
    let ghost expected = detail_of_message(msg@, id@, received_at@, attachment_ids.deep_view());
    assert(plan@.attachments =~= insert_plan_of(msg@, id@, received_at@, attachment_ids.deep_view()).attachments);
    assert(plan@.attachments.map_values(|a: AttachmentRecordView| meta_of_record(a)) =~= expected.attachments);
    assert(cc_of_column(plan@.message.cc_addrs) == Some(msg@.cc_addrs)) by {
        if msg@.cc_addrs.len() == 0 {
            assert(msg@.cc_addrs =~= Seq::<Seq<char>>::empty());
        }
    }
    plan
}

/// The rows that store a message: the message and each attachment get a new
/// random UUID as id (one draw each), and the message is stamped with the
/// current time as an RFC 3339 UTC timestamp.
pub fn plan_insert(msg: &NewMessage) -> (plan: InsertPlan)
    ensures
        plan.attachments@.len() == msg.attachments@.len(),
        plan@ == insert_plan_of(
            msg@,
            plan.message.id@,
            plan.message.received_at@,
            plan.attachments@.map_values(|a: AttachmentRecord| a.id@),
        ),
        is_uuid_v4_text(plan.message.id@),
        is_utc_timestamp(plan.message.received_at@),
        forall|i: int| 0 <= i < plan.attachments@.len() ==> is_uuid_v4_text((#[trigger] plan.attachments@[i]).id@),
        read_back(plan@) == Some(detail_of_message(
            msg@,
            plan.message.id@,
            plan.message.received_at@,
            plan.attachments@.map_values(|a: AttachmentRecord| a.id@),
        )),
{
    let id = new_id();
    let received_at = now_rfc3339();
    let mut attachment_ids: Vec<String> = Vec::new();
    let mut i: usize = 0;
    while i < msg.attachments.len()
        invariant
            i <= msg.attachments@.len(),
            attachment_ids@.len() == i,
            forall|j: int| 0 <= j < i ==> is_uuid_v4_text((#[trigger] attachment_ids@[j])@),
        decreases msg.attachments@.len() - i,
    {
        attachment_ids.push(new_id());
        i = i + 1;
    }
    let plan = insert_records(msg, &id, &received_at, &attachment_ids);
    assert forall|i: int| 0 <= i < plan.attachments@.len() implies
        (#[trigger] plan.attachments@[i]).id@ == attachment_ids@[i]@ by {
        assert(plan@.attachments.len() == plan.attachments@.len());
        assert(plan@.attachments[i] == plan.attachments@[i]@);
        assert(attachment_ids.deep_view()[i] == attachment_ids@[i]@);
        assert(plan@.attachments[i] == insert_plan_of(msg@, id@, received_at@, attachment_ids.deep_view()).attachments[i]);
    }
    assert(plan.attachments@.len() == attachment_ids@.len()) by {
        assert(plan@.attachments.len() == plan.attachments@.len());
    }
    assert(plan.attachments@.map_values(|a: AttachmentRecord| a.id@) =~= attachment_ids.deep_view());
    plan
}

/// The rows written for a message: the message row under the given id and
/// time holds the message's sender, subject, bodies, raw size and raw bytes
/// unchanged, its recipients as JSON, and its Cc addresses as JSON or no Cc
/// column where it has none; there is one attachment row per attachment, in
/// order, under the id drawn for it, tied to the message's id, with the
/// attachment's name, type, size and bytes.
pub proof fn lemma_rows_hold_the_message(
    msg: NewMessageView,
    id: Seq<char>,
    received_at: Seq<char>,
    attachment_ids: Seq<Seq<char>>,
)
    ensures
        ({
            let plan = insert_plan_of(msg, id, received_at, attachment_ids);
            let m = plan.message;
            &&& m.id == id
            &&& m.received_at == received_at
            &&& m.from_addr == msg.from_addr
            &&& m.to_addrs == json_string_list(msg.to_addrs)
            &&& (msg.cc_addrs.len() == 0 <==> m.cc_addrs is None)
            &&& (msg.cc_addrs.len() > 0 ==> m.cc_addrs == Some(json_string_list(msg.cc_addrs)))
            &&& m.subject == msg.subject
            &&& m.body_text == msg.body_text
            &&& m.body_html == msg.body_html
            &&& m.raw_size == msg.raw_size as i64
            &&& m.raw_source == msg.raw_source
            &&& plan.attachments.len() == msg.attachments.len()
            &&& forall|i: int| 0 <= i < msg.attachments.len() ==> {
                let a = #[trigger] plan.attachments[i];
                &&& a.id == attachment_ids[i]
                &&& a.message_id == id
                &&& a.filename == msg.attachments[i].filename
                &&& a.content_type == msg.attachments[i].content_type
                &&& a.size == msg.attachments[i].size as i64
                &&& a.data == msg.attachments[i].data
            }
        }),
{
}

/// What is written for a message reads back as that message: given that its
/// address lists read back from their JSON text (as `encode_addresses`
/// ensures), the detail read from its rows has the id and time it was stored
/// under, its sender, recipients, Cc addresses, subject and bodies unchanged,
/// and one attachment per attachment of the message, in order, with the id
/// drawn for it and the attachment's name, type and size.
pub proof fn lemma_stored_message_reads_back(
    msg: NewMessageView,
    id: Seq<char>,
    received_at: Seq<char>,
    attachment_ids: Seq<Seq<char>>,
)
    requires
        attachment_ids.len() == msg.attachments.len(),
        json_string_list_parse(json_string_list(msg.to_addrs)) == Some(msg.to_addrs),
        msg.cc_addrs.len() > 0 ==> json_string_list_parse(json_string_list(msg.cc_addrs)) == Some(msg.cc_addrs),
    ensures
        read_back(insert_plan_of(msg, id, received_at, attachment_ids)) is Some,
        read_back(insert_plan_of(msg, id, received_at, attachment_ids)) matches Some(d) ==> {
            &&& d.id == id
            &&& d.received_at == received_at
            &&& d.from_addr == msg.from_addr
            &&& d.to_addrs == msg.to_addrs
            &&& d.cc_addrs == msg.cc_addrs
            &&& d.subject == msg.subject
            &&& d.body_text == msg.body_text
            &&& d.body_html == msg.body_html
            &&& d.attachments.len() == msg.attachments.len()
            &&& forall|i: int| 0 <= i < msg.attachments.len() ==> {
                let a = #[trigger] d.attachments[i];
                &&& a.id == attachment_ids[i]
                &&& a.filename == msg.attachments[i].filename
                &&& a.content_type == msg.attachments[i].content_type
                &&& a.size == msg.attachments[i].size as i64
            }
        },
{
    if msg.cc_addrs.len() == 0 {
        assert(msg.cc_addrs =~= Seq::<Seq<char>>::empty());
    }
}

/// Whether the `k`-th attachment row of a plan is the one that a lookup of
/// `attachment_id` under `message_id` finds.
pub open spec fn is_attachment_row(plan: InsertPlanView, message_id: Seq<char>, attachment_id: Seq<char>, k: int) -> bool {
    &&& 0 <= k < plan.attachments.len()
    &&& plan.attachments[k].id == attachment_id
    &&& plan.attachments[k].message_id == message_id
}

/// What an attachment row gives when it is downloaded.
pub open spec fn download_of_record(a: AttachmentRecordView) -> AttachmentDownloadView {
    AttachmentDownloadView { filename: a.filename, content_type: a.content_type, data: a.data }
}

/// Each attachment of a message, stored under distinct ids, is found by its
/// id under the message's id in exactly one of the planned rows, is found
/// under no other message id, and downloads with the name, type and bytes it
/// was given.
pub proof fn lemma_stored_attachment_found_by_id(
    msg: NewMessageView,
    id: Seq<char>,
    received_at: Seq<char>,
    attachment_ids: Seq<Seq<char>>,
    i: int,
)
    requires
        attachment_ids.len() == msg.attachments.len(),
        ids_distinct(id, attachment_ids),
        0 <= i < msg.attachments.len(),
    ensures
        forall|k: int| #[trigger] is_attachment_row(insert_plan_of(msg, id, received_at, attachment_ids), id, attachment_ids[i], k) <==> k == i,
        forall|other: Seq<char>, k: int| other != id ==> !#[trigger] is_attachment_row(insert_plan_of(msg, id, received_at, attachment_ids), other, attachment_ids[i], k),
        download_of_record(insert_plan_of(msg, id, received_at, attachment_ids).attachments[i]) == (AttachmentDownloadView {
            filename: msg.attachments[i].filename,
            content_type: msg.attachments[i].content_type,
            data: msg.attachments[i].data,
        }),
{
    let plan = insert_plan_of(msg, id, received_at, attachment_ids);
    assert forall|k: int| #[trigger] is_attachment_row(plan, id, attachment_ids[i], k) implies k == i by {
        if k != i {
            if k < i {
                assert(attachment_ids[k] != attachment_ids[i]);
            } else {
                assert(attachment_ids[i] != attachment_ids[k]);
            }
        }
    }
}

// ---------------------------------------------------------------------------
// Reading messages back
// ---------------------------------------------------------------------------

/// The columns of a `messages` row that a message's detail reads.
pub struct MessageRow {
    pub id: String,
    pub received_at: String,
    pub from_addr: String,
    pub to_addrs: String,
    pub cc_addrs: Option<String>,
    pub subject: Option<String>,
    pub body_text: Option<String>,
    pub body_html: Option<String>,
}

/// The columns of an `attachments` row that a message's detail reads.
pub struct AttachmentRow {
    pub id: String,
    pub filename: Option<String>,
    pub content_type: Option<String>,
    pub size: i64,
}

/// The columns of a `messages` row that a listing reads.
pub struct MessageSummaryRow {
    pub id: String,
    pub received_at: String,
    pub from_addr: String,
    pub to_addrs: String,
    pub subject: Option<String>,
}

/// The columns of an `attachments` row that a download reads.
pub struct AttachmentDownloadRow {
    pub filename: Option<String>,
    pub content_type: Option<String>,
    pub data: Vec<u8>,
}

/// A stored message with the metadata of its attachments.
pub struct MessageDetail {
    pub id: String,
    pub received_at: String,
    pub from_addr: String,
    pub to_addrs: Vec<String>,
    pub cc_addrs: Vec<String>,
    pub subject: Option<String>,
    pub body_text: Option<String>,
    pub body_html: Option<String>,
    pub attachments: Vec<AttachmentMeta>,
}

/// What a message's detail tells of one of its attachments.
pub struct AttachmentMeta {
    pub id: String,
    pub filename: Option<String>,
    pub content_type: Option<String>,
    pub size: i64,
}

/// One line of a message listing.
pub struct MessageSummary {
    pub id: String,
    pub received_at: String,
    pub from_addr: String,
    pub to_addrs: Vec<String>,
    pub subject: Option<String>,
}

/// An attachment as it is downloaded.
pub struct AttachmentDownload {
    pub filename: Option<String>,
    pub content_type: Option<String>,
    pub data: Vec<u8>,
}

pub ghost struct MessageRowView {
    pub id: Seq<char>,
    pub received_at: Seq<char>,
    pub from_addr: Seq<char>,
    pub to_addrs: Seq<char>,
    pub cc_addrs: Option<Seq<char>>,
    pub subject: Option<Seq<char>>,
    pub body_text: Option<Seq<char>>,
    pub body_html: Option<Seq<char>>,
}

pub ghost struct AttachmentMetaView {
    pub id: Seq<char>,
    pub filename: Option<Seq<char>>,
    pub content_type: Option<Seq<char>>,
    pub size: i64,
}

pub ghost struct MessageSummaryRowView {
    pub id: Seq<char>,
    pub received_at: Seq<char>,
    pub from_addr: Seq<char>,
    pub to_addrs: Seq<char>,
    pub subject: Option<Seq<char>>,
}

pub ghost struct MessageDetailView {
    pub id: Seq<char>,
    pub received_at: Seq<char>,
    pub from_addr: Seq<char>,
    pub to_addrs: Seq<Seq<char>>,
    pub cc_addrs: Seq<Seq<char>>,
    pub subject: Option<Seq<char>>,
    pub body_text: Option<Seq<char>>,
    pub body_html: Option<Seq<char>>,
    pub attachments: Seq<AttachmentMetaView>,
}

pub ghost struct MessageSummaryView {
    pub id: Seq<char>,
    pub received_at: Seq<char>,
    pub from_addr: Seq<char>,
    pub to_addrs: Seq<Seq<char>>,
    pub subject: Option<Seq<char>>,
}

pub ghost struct AttachmentDownloadView {
    pub filename: Option<Seq<char>>,
    pub content_type: Option<Seq<char>>,
    pub data: Seq<u8>,
}

impl View for MessageRow {
    type V = MessageRowView;

    open spec fn view(&self) -> MessageRowView {
        MessageRowView {
            id: self.id@,
            received_at: self.received_at@,
            from_addr: self.from_addr@,
            to_addrs: self.to_addrs@,
            cc_addrs: self.cc_addrs.deep_view(),
            subject: self.subject.deep_view(),
            body_text: self.body_text.deep_view(),
            body_html: self.body_html.deep_view(),
        }
    }
}

impl View for AttachmentRow {
    type V = AttachmentMetaView;

    open spec fn view(&self) -> AttachmentMetaView {
        AttachmentMetaView {
            id: self.id@,
            filename: self.filename.deep_view(),
            content_type: self.content_type.deep_view(),
            size: self.size,
        }
    }
}

impl View for AttachmentMeta {
    type V = AttachmentMetaView;

    open spec fn view(&self) -> AttachmentMetaView {
        AttachmentMetaView {
            id: self.id@,
            filename: self.filename.deep_view(),
            content_type: self.content_type.deep_view(),
            size: self.size,
        }
    }
}

impl View for MessageSummaryRow {
    type V = MessageSummaryRowView;

    open spec fn view(&self) -> MessageSummaryRowView {
        MessageSummaryRowView {
            id: self.id@,
            received_at: self.received_at@,
            from_addr: self.from_addr@,
            to_addrs: self.to_addrs@,
            subject: self.subject.deep_view(),
        }
    }
}

impl View for MessageDetail {
    type V = MessageDetailView;

    open spec fn view(&self) -> MessageDetailView {
        MessageDetailView {
            id: self.id@,
            received_at: self.received_at@,
            from_addr: self.from_addr@,
            to_addrs: self.to_addrs.deep_view(),
            cc_addrs: self.cc_addrs.deep_view(),
            subject: self.subject.deep_view(),
            body_text: self.body_text.deep_view(),
            body_html: self.body_html.deep_view(),
            attachments: self.attachments@.map_values(|a: AttachmentMeta| a@),
        }
    }
}

impl View for MessageSummary {
    type V = MessageSummaryView;

    open spec fn view(&self) -> MessageSummaryView {
        MessageSummaryView {
            id: self.id@,
            received_at: self.received_at@,
            from_addr: self.from_addr@,
            to_addrs: self.to_addrs.deep_view(),
            subject: self.subject.deep_view(),
        }
    }
}

impl View for AttachmentDownloadRow {
    type V = AttachmentDownloadView;

    open spec fn view(&self) -> AttachmentDownloadView {
        AttachmentDownloadView {
            filename: self.filename.deep_view(),
            content_type: self.content_type.deep_view(),
            data: self.data@,
        }
    }
}

impl View for AttachmentDownload {
    type V = AttachmentDownloadView;

    open spec fn view(&self) -> AttachmentDownloadView {
        AttachmentDownloadView {
            filename: self.filename.deep_view(),
            content_type: self.content_type.deep_view(),
            data: self.data@,
        }
    }
}

/// The `Cc` addresses of a stored `Cc` column: none where it is NULL.
pub open spec fn cc_of_column(column: Option<Seq<char>>) -> Option<Seq<Seq<char>>> {
    match column {
        None => Some(Seq::empty()),
        Some(text) => json_string_list_parse(text),
    }
}

/// The detail of a stored message; `None` where a stored address list is not
/// a JSON array of strings.
pub open spec fn detail_of(row: MessageRowView, attachments: Seq<AttachmentMetaView>) -> Option<MessageDetailView> {
    match (json_string_list_parse(row.to_addrs), cc_of_column(row.cc_addrs)) {
        (Some(to_addrs), Some(cc_addrs)) => Some(MessageDetailView {
            id: row.id,
            received_at: row.received_at,
            from_addr: row.from_addr,
            to_addrs,
            cc_addrs,
            subject: row.subject,
            body_text: row.body_text,
            body_html: row.body_html,
            attachments,
        }),
        _ => None,
    }
}

/// A listing line of a stored message; `None` where its `To` column is not a
/// JSON array of strings.
pub open spec fn summary_of(row: MessageSummaryRowView) -> Option<MessageSummaryView> {
    match json_string_list_parse(row.to_addrs) {
        Some(to_addrs) => Some(MessageSummaryView {
            id: row.id,
            received_at: row.received_at,
            from_addr: row.from_addr,
            to_addrs,
            subject: row.subject,
        }),
        None => None,
    }
}

/// The listing of stored messages, in the order of the rows; `None` where a
/// row's `To` column is not a JSON array of strings.
pub open spec fn summaries_of(rows: Seq<MessageSummaryRowView>) -> Option<Seq<MessageSummaryView>>
    decreases rows.len(),
{
    if rows.len() == 0 {
        Some(Seq::empty())
    } else {
        match (summaries_of(rows.drop_last()), summary_of(rows.last())) {
            (Some(earlier), Some(last)) => Some(earlier.push(last)),
            _ => None,
        }
    }
}

/// A message's detail is read from its row exactly when its `To` column, and
/// its `Cc` column where there is one, read as lists of addresses; it carries
/// the row's id, time, sender, subject and bodies unchanged, the addresses
/// read from `To`, those read from `Cc` (none where the column is empty), and
/// the attachment rows as they are.
pub proof fn lemma_detail_keeps_the_row(row: MessageRowView, attachments: Seq<AttachmentMetaView>)
    ensures
        detail_of(row, attachments) is Some <==> json_string_list_parse(row.to_addrs) is Some
            && (row.cc_addrs matches Some(c) ==> json_string_list_parse(c) is Some),
        detail_of(row, attachments) matches Some(d) ==> {
            &&& d.id == row.id
            &&& d.received_at == row.received_at
            &&& d.from_addr == row.from_addr
            &&& d.subject == row.subject
            &&& d.body_text == row.body_text
            &&& d.body_html == row.body_html
            &&& json_string_list_parse(row.to_addrs) == Some(d.to_addrs)
            &&& (row.cc_addrs matches Some(c) ==> json_string_list_parse(c) == Some(d.cc_addrs))
            &&& (row.cc_addrs is None ==> d.cc_addrs.len() == 0)
            &&& d.attachments == attachments
        },
{
}

/// A listing has one line per stored row, in the rows' order, exactly when
/// every row's `To` column reads as a list of addresses; each line carries
/// its row's id, time, sender and subject unchanged and the addresses read
/// from its `To` column.
pub proof fn lemma_listing_keeps_every_row(rows: Seq<MessageSummaryRowView>)
    ensures
        summaries_of(rows) is Some <==> forall|i: int| 0 <= i < rows.len()
            ==> #[trigger] json_string_list_parse(rows[i].to_addrs) is Some,
        summaries_of(rows) matches Some(lines) ==> {
            &&& lines.len() == rows.len()
            &&& forall|i: int| 0 <= i < rows.len() ==> {
                let line = #[trigger] lines[i];
                &&& line.id == rows[i].id
                &&& line.received_at == rows[i].received_at
                &&& line.from_addr == rows[i].from_addr
                &&& line.subject == rows[i].subject
                &&& json_string_list_parse(rows[i].to_addrs) == Some(line.to_addrs)
            }
        },
    decreases rows.len(),
{
    if rows.len() > 0 {
        let earlier = rows.drop_last();
        lemma_listing_keeps_every_row(earlier);
        assert forall|i: int| 0 <= i < earlier.len() implies #[trigger] earlier[i] == rows[i] by {}
        if summaries_of(rows) is None {
            if summaries_of(earlier) is None {
                let k = choose|k: int| 0 <= k < earlier.len() && !(json_string_list_parse(earlier[k].to_addrs) is Some);
                assert(!(json_string_list_parse(rows[k].to_addrs) is Some));
            } else {
                assert(!(json_string_list_parse(rows[rows.len() - 1].to_addrs) is Some));
            }
        } else {
            assert forall|i: int| 0 <= i < rows.len() implies #[trigger] json_string_list_parse(rows[i].to_addrs) is Some by {
                if i < rows.len() - 1 {
                    assert(earlier[i] == rows[i]);
                    assert(json_string_list_parse(earlier[i].to_addrs) is Some);
                }
            }
        }
        if summaries_of(rows) is Some {
            let lines = summaries_of(rows)->0;
            assert forall|i: int| 0 <= i < rows.len() implies {
                let line = #[trigger] lines[i];
                &&& line.id == rows[i].id
                &&& line.received_at == rows[i].received_at
                &&& line.from_addr == rows[i].from_addr
                &&& line.subject == rows[i].subject
                &&& json_string_list_parse(rows[i].to_addrs) == Some(line.to_addrs)
            } by {
                let e = summaries_of(earlier)->0;
                if i < rows.len() - 1 {
                    assert(lines[i] == e[i]);
                    assert(earlier[i] == rows[i]);
                }
            }
        }
    }
}

/// The columns that reading a message's detail gets back from its stored row.
pub open spec fn row_of_record(r: MessageRecordView) -> MessageRowView {
    MessageRowView {
        id: r.id,
        received_at: r.received_at,
        from_addr: r.from_addr,
        to_addrs: r.to_addrs,
        cc_addrs: r.cc_addrs,
        subject: r.subject,
        body_text: r.body_text,
        body_html: r.body_html,
    }
}

/// The columns that reading a message's detail gets back from a stored
/// attachment row.
pub open spec fn meta_of_record(a: AttachmentRecordView) -> AttachmentMetaView {
    AttachmentMetaView { id: a.id, filename: a.filename, content_type: a.content_type, size: a.size }
}

/// What reading back the rows of a plan yields, the attachment rows read in
/// the order they were written (the read orders them by row id).
pub open spec fn read_back(plan: InsertPlanView) -> Option<MessageDetailView> {
    detail_of(row_of_record(plan.message), plan.attachments.map_values(|a: AttachmentRecordView| meta_of_record(a)))
}

/// The detail of a message stored under the given ids and time.
pub open spec fn detail_of_message(
    msg: NewMessageView,
    id: Seq<char>,
    received_at: Seq<char>,
    attachment_ids: Seq<Seq<char>>,
) -> MessageDetailView {
    MessageDetailView {
        id,
        received_at,
        from_addr: msg.from_addr,
        to_addrs: msg.to_addrs,
        cc_addrs: msg.cc_addrs,
        subject: msg.subject,
        body_text: msg.body_text,
        body_html: msg.body_html,
        attachments: Seq::new(
            msg.attachments.len(),
            |i: int| AttachmentMetaView {
                id: attachment_ids[i],
                filename: msg.attachments[i].filename,
                content_type: msg.attachments[i].content_type,
                size: msg.attachments[i].size as i64,
            },
        ),
    }
}

/// The detail of a stored message from its row and its attachment rows;
/// fails where a stored address list is not a JSON array of strings.
pub fn message_detail(row: &MessageRow, attachment_rows: &Vec<AttachmentRow>) -> (detail: Result<MessageDetail, StorageError>)
    ensures
        detail matches Ok(d) ==> detail_of(row@, attachment_rows@.map_values(|a: AttachmentRow| a@)) == Some(d@),
        detail is Err ==> detail_of(row@, attachment_rows@.map_values(|a: AttachmentRow| a@)) is None,
{
    let to_addrs = match decode_addresses(row.to_addrs.as_str()) {
        Some(v) => v,
        None => return Err(StorageError::MalformedAddressList),
    };
    let cc_addrs = match &row.cc_addrs {
        Some(json) => match decode_addresses(json.as_str()) {
            Some(v) => v,
            None => return Err(StorageError::MalformedAddressList),
        },
        None => Vec::new(),
    };
    let mut attachments: Vec<AttachmentMeta> = Vec::new();
    let mut i: usize = 0;
    while i < attachment_rows.len()
        invariant
            i <= attachment_rows@.len(),
            attachments@.len() == i,
            forall|j: int| 0 <= j < i ==> (#[trigger] attachments@[j])@ == attachment_rows@[j]@,
        decreases attachment_rows@.len() - i,
    {
        let a = &attachment_rows[i];
        attachments.push(AttachmentMeta {
            id: a.id.clone(),
            filename: clone_opt(&a.filename),
            content_type: clone_opt(&a.content_type),
            size: a.size,
        });
        i = i + 1;
    }
    let detail = MessageDetail {
        id: row.id.clone(),
        received_at: row.received_at.clone(),
        from_addr: row.from_addr.clone(),
        to_addrs,
        cc_addrs,
        subject: clone_opt(&row.subject),
        body_text: clone_opt(&row.body_text),
        body_html: clone_opt(&row.body_html),
        attachments,
    };
    assert(detail@.attachments =~= attachment_rows@.map_values(|a: AttachmentRow| a@));
    assert(json_string_list_parse(row@.to_addrs) == Some(detail@.to_addrs));
    assert(cc_of_column(row@.cc_addrs) == Some(detail@.cc_addrs));
    assert(detail_of(row@, attachment_rows@.map_values(|a: AttachmentRow| a@)) == Some(detail@));
    Ok(detail)
}

/// The listing line of a stored message; fails where its `To` column is not
/// a JSON array of strings.
pub fn message_summary(row: &MessageSummaryRow) -> (summary: Result<MessageSummary, StorageError>)
    ensures
        summary matches Ok(s) ==> summary_of(row@) == Some(s@),
        summary is Err ==> summary_of(row@) is None,
        summary is Ok <==> json_string_list_parse(row.to_addrs@) is Some,
        summary matches Ok(s) ==> {
            &&& s.id@ == row.id@
            &&& s.received_at@ == row.received_at@
            &&& s.from_addr@ == row.from_addr@
            &&& s.subject.deep_view() == row.subject.deep_view()
            &&& json_string_list_parse(row.to_addrs@) == Some(s.to_addrs.deep_view())
        },
{
    match decode_addresses(row.to_addrs.as_str()) {
        Some(to_addrs) => Ok(MessageSummary {
            id: row.id.clone(),
            received_at: row.received_at.clone(),
            from_addr: row.from_addr.clone(),
            to_addrs,
            subject: clone_opt(&row.subject),
        }),
        None => Err(StorageError::MalformedAddressList),
    }
}

/// The listing of stored messages, in the order of the rows; fails where a
/// row's `To` column is not a JSON array of strings.
pub fn message_summaries(rows: &Vec<MessageSummaryRow>) -> (summaries: Result<Vec<MessageSummary>, StorageError>)
    ensures
        summaries matches Ok(v) ==> summaries_of(rows@.map_values(|r: MessageSummaryRow| r@))
            == Some(v@.map_values(|s: MessageSummary| s@)),
        summaries is Err ==> summaries_of(rows@.map_values(|r: MessageSummaryRow| r@)) is None,
{
    let ghost row_views = rows@.map_values(|r: MessageSummaryRow| r@);
    let mut out: Vec<MessageSummary> = Vec::new();
    let mut i: usize = 0;
    while i < rows.len()
        invariant
            i <= rows@.len(),
            row_views == rows@.map_values(|r: MessageSummaryRow| r@),
            summaries_of(row_views.take(i as int)) == Some(out@.map_values(|s: MessageSummary| s@)),
        decreases rows@.len() - i,
    {
        assert(row_views.take(i + 1).drop_last() =~= row_views.take(i as int));
        assert(row_views.take(i + 1).last() == rows@[i as int]@);
        match message_summary(&rows[i]) {
            Ok(s) => {
                let ghost before = out@;
                out.push(s);
                assert(out@.map_values(|s: MessageSummary| s@) =~= before.map_values(|s: MessageSummary| s@).push(s@));
            },
            Err(e) => {
                proof {
                    lemma_summaries_fail_on_prefix(row_views, i as int + 1);
                }
                return Err(e);
            },
        }
        i = i + 1;
    }
    assert(row_views.take(rows@.len() as int) =~= row_views);
    Ok(out)
}

/// Once a prefix of the rows fails to read, the whole listing fails.
proof fn lemma_summaries_fail_on_prefix(rows: Seq<MessageSummaryRowView>, n: int)
    requires
        0 <= n <= rows.len(),
        summaries_of(rows.take(n)) is None,
    ensures
        summaries_of(rows) is None,
    decreases rows.len() - n,
{
    if n < rows.len() {
        assert(rows.take(n + 1).drop_last() =~= rows.take(n));
        lemma_summaries_fail_on_prefix(rows, n + 1);
    } else {
        assert(rows.take(n) =~= rows);
    }
}

/// An attachment download from its stored row.
pub fn attachment_download(row: AttachmentDownloadRow) -> (download: AttachmentDownload)
    ensures
        download@ == row@,
{
    AttachmentDownload { filename: row.filename, content_type: row.content_type, data: row.data }
}

/// The `LIKE` pattern that finds a search text anywhere in a column.
pub fn search_pattern(search: &str) -> (pattern: String)
    ensures
        pattern@ == seq!['%'] + search@ + seq!['%'],
{
    proof {
        reveal_strlit("%");
    }
    let mut pattern = String::from_str("%");
    pattern.append(search);
    pattern.append("%");
    pattern
}

/// Whether a delete removed anything.
pub fn deleted_any(rows_affected: u64) -> (deleted: bool)
    ensures
        deleted == (rows_affected > 0),
{
    rows_affected > 0
}

} // verus!
