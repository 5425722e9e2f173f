use vstd::prelude::*;
use crate::message::NewMessageView;
use crate::storage::{insert_plan_of, AttachmentDownload, AttachmentDownloadView, MessageDetail};

verus! {

/// An HTTP API error: its status and the text of its body.
pub enum ApiError {
    /// 404, with an empty body.
    NotFound,
    /// 400, with a plain-text body that says why.
    BadRequest(String),
    /// 500, with an empty body; storage failed.
    Internal,
}

pub ghost enum ApiErrorView {
    NotFound,
    BadRequest(Seq<char>),
    Internal,
}

impl View for ApiError {
    type V = ApiErrorView;

    open spec fn view(&self) -> ApiErrorView {
        match self {
            ApiError::NotFound => ApiErrorView::NotFound,
            ApiError::BadRequest(m) => ApiErrorView::BadRequest(m@),
            ApiError::Internal => ApiErrorView::Internal,
        }
    }
}

pub open spec fn status_of(e: ApiErrorView) -> u16 {
    match e {
        ApiErrorView::NotFound => 404,
        ApiErrorView::BadRequest(_) => 400,
        ApiErrorView::Internal => 500,
    }
}

pub open spec fn error_body_of(e: ApiErrorView) -> Seq<char> {
    match e {
        ApiErrorView::BadRequest(m) => m,
        _ => Seq::<char>::empty(),
    }
}

impl ApiError {
    /// The HTTP status of the error.
    pub fn status(&self) -> (code: u16)
        ensures
            code == status_of(self@),
    {
        match self {
            ApiError::NotFound => 404,
            ApiError::BadRequest(_) => 400,
            ApiError::Internal => 500,
        }
    }

    /// The text of the error's body: empty but for a bad request.
    pub fn body(&self) -> (text: String)
        ensures
            text@ == error_body_of(self@),
    {
        match self {
            ApiError::BadRequest(m) => m.clone(),
            _ => String::new(),
        }
    }
}

/// HTTP 204, the answer to a successful delete.
pub open spec fn no_content() -> u16 {
    204
}

/// The page of a message listing.
pub struct ListParams {
    pub limit: i64,
    pub offset: i64,
}

/// The page that a listing query asks for: at most 50 messages from the
/// first where it does not say; a negative limit or offset is refused, the
/// limit first.
pub open spec fn list_params_of(limit: Option<i64>, offset: Option<i64>) -> Result<(i64, i64), ApiErrorView> {
    match limit {
        Some(l) if l < 0 => Err(ApiErrorView::BadRequest("limit must not be negative"@)),
        _ => match offset {
            Some(o) if o < 0 => Err(ApiErrorView::BadRequest("offset must not be negative"@)),
            _ => Ok((
                match limit {
                    Some(l) => l,
                    None => 50,
                },
                match offset {
                    Some(o) => o,
                    None => 0,
                },
            )),
        },
    }
}

/// The page that a listing query asks for.
pub fn list_params(limit: Option<i64>, offset: Option<i64>) -> (params: Result<ListParams, ApiError>)
    ensures
        params matches Ok(p) ==> list_params_of(limit, offset) == Ok::<(i64, i64), ApiErrorView>((p.limit, p.offset)),
        params matches Err(e) ==> list_params_of(limit, offset) == Err::<(i64, i64), ApiErrorView>(e@),
        params is Ok <==> !(limit matches Some(l) && l < 0) && !(offset matches Some(o) && o < 0),
        params matches Ok(p) ==> p.limit == (match limit {
            Some(l) => l,
            None => 50,
        }),
        params matches Ok(p) ==> p.offset == (match offset {
            Some(o) => o,
            None => 0,
        }),
{
    let limit: i64 = match limit {
        Some(l) => {
            if l < 0 {
                return Err(ApiError::BadRequest(String::from_str("limit must not be negative")));
            }
            l
        },
        None => 50,
    };
    let offset: i64 = match offset {
        Some(o) => {
            if o < 0 {
                return Err(ApiError::BadRequest(String::from_str("offset must not be negative")));
            }
            o
        },
        None => 0,
    };
    Ok(ListParams { limit, offset })
}

/// The page of a listing query: a given non-negative offset is the page's
/// offset whatever the limit, and a given non-negative limit is the page's
/// limit whatever the offset; an absent limit is 50 and an absent offset 0.
/// A negative limit is refused as such whatever the offset, and a negative
/// offset is refused as such where the limit is fine.
pub proof fn lemma_page_parameters_are_independent(limit: Option<i64>, offset: Option<i64>)
    ensures
        !(limit matches Some(l) && l < 0) && !(offset matches Some(o) && o < 0) ==> {
            &&& list_params_of(limit, offset) matches Ok((page_limit, page_offset))
            &&& page_limit == (if limit is Some { limit->0 } else { 50 })
            &&& page_offset == (if offset is Some { offset->0 } else { 0 })
        },
        limit matches Some(l) && l < 0 ==> list_params_of(limit, offset)
            == Err::<(i64, i64), ApiErrorView>(ApiErrorView::BadRequest("limit must not be negative"@)),
        !(limit matches Some(l) && l < 0) && (offset matches Some(o) && o < 0) ==> list_params_of(limit, offset)
            == Err::<(i64, i64), ApiErrorView>(ApiErrorView::BadRequest("offset must not be negative"@)),
{
}

/// The answer to a request for one message: 404 where there is none.
pub fn message_response(message: Option<MessageDetail>) -> (response: Result<MessageDetail, ApiError>)
    ensures
        message matches Some(m) ==> (response matches Ok(r) && r@ == m@),
        message is None ==> (response matches Err(e) && e@ == ApiErrorView::NotFound),
{
    match message {
        Some(m) => Ok(m),
        None => Err(ApiError::NotFound),
    }
}

/// A file that the API sends: its content type, its `Content-Disposition`
/// and its bytes.
pub struct FileResponse {
    pub content_type: String,
    pub content_disposition: String,
    pub body: Vec<u8>,
}

pub ghost struct FileResponseView {
    pub content_type: Seq<char>,
    pub content_disposition: Seq<char>,
    pub body: Seq<u8>,
}

impl View for FileResponse {
    type V = FileResponseView;

    open spec fn view(&self) -> FileResponseView {
        FileResponseView {
            content_type: self.content_type@,
            content_disposition: self.content_disposition@,
            body: self.body@,
        }
    }
}

/// `attachment; filename="<name>"`.
pub open spec fn attachment_disposition(name: Seq<char>) -> Seq<char> {
    "attachment; filename=\""@ + name + "\""@
}

/// The `Content-Disposition` of a download holds its file name whole, for
/// names of any length: 22 characters of `attachment; filename="`, then
/// every character of the name in order, then a closing `"`.
pub proof fn lemma_disposition_holds_the_whole_name(name: Seq<char>)
    ensures
        attachment_disposition(name).len() == name.len() + 23,
        attachment_disposition(name).subrange(0, 22) == seq!['a', 't', 't', 'a', 'c', 'h', 'm', 'e', 'n', 't', ';', ' ', 'f', 'i', 'l', 'e', 'n', 'a', 'm', 'e', '=', '"'],
        attachment_disposition(name).subrange(22, 22 + name.len() as int) == name,
        attachment_disposition(name)[22 + name.len() as int] == '"',
{
    reveal_strlit("attachment; filename=\"");
    reveal_strlit("\"");
    let d = attachment_disposition(name);
    assert(d.subrange(0, 22) =~= seq!['a', 't', 't', 'a', 'c', 'h', 'm', 'e', 'n', 't', ';', ' ', 'f', 'i', 'l', 'e', 'n', 'a', 'm', 'e', '=', '"']);
    assert(d.subrange(22, 22 + name.len() as int) =~= name);
}

/// The raw download of a message is named after the whole message id
/// followed by `.eml`, whatever the id's length, and its bytes are the raw
/// source unchanged.
pub proof fn lemma_raw_download_is_named_after_the_id(id: Seq<char>, raw_source: Seq<u8>)
    ensures
        raw_message_file(id, raw_source).content_disposition.subrange(22, 22 + id.len() as int) == id,
        raw_message_file(id, raw_source).content_disposition.subrange(22 + id.len() as int, 26 + id.len() as int)
            == seq!['.', 'e', 'm', 'l'],
        raw_message_file(id, raw_source).content_disposition.len() == id.len() + 27,
        raw_message_file(id, raw_source).body == raw_source,
{
    reveal_strlit(".eml");
    let name = id + ".eml"@;
    lemma_disposition_holds_the_whole_name(name);
    let d = attachment_disposition(name);
    assert(d.subrange(22, 22 + id.len() as int) =~= name.subrange(0, id.len() as int));
    assert(name.subrange(0, id.len() as int) =~= id);
    assert(d.subrange(22 + id.len() as int, 26 + id.len() as int) =~= name.subrange(id.len() as int, name.len() as int));
    assert(name.subrange(id.len() as int, name.len() as int) =~= seq!['.', 'e', 'm', 'l']);
}

fn disposition(name: &str) -> (text: String)
    ensures
        text@ == attachment_disposition(name@),
{
    let mut text = String::from_str("attachment; filename=\"");
    text.append(name);
    text.append("\"");
    text
}

/// The raw message as a download named `<id>.eml`.
pub open spec fn raw_message_file(id: Seq<char>, raw_source: Seq<u8>) -> FileResponseView {
    FileResponseView {
        content_type: "message/rfc822"@,
        content_disposition: attachment_disposition(id + ".eml"@),
        body: raw_source,
    }
}

/// The answer to a request for a raw message: 404 where there is none.
pub fn raw_message_response(id: &str, raw_source: Option<Vec<u8>>) -> (response: Result<FileResponse, ApiError>)
    ensures
        raw_source matches Some(raw) ==> (response matches Ok(r) && r@ == raw_message_file(id@, raw@)),
        raw_source is None ==> (response matches Err(e) && e@ == ApiErrorView::NotFound),
{
    match raw_source {
        Some(raw) => {
            let mut name = String::from_str(id);
            name.append(".eml");
            Ok(FileResponse {
                content_type: String::from_str("message/rfc822"),
                content_disposition: disposition(name.as_str()),
                body: raw,
            })
        },
        None => Err(ApiError::NotFound),
    }
}

/// The raw source stored for a message downloads byte for byte as the raw
/// source it was stored with, as `message/rfc822` named `<id>.eml`.
pub proof fn lemma_raw_source_round_trip(
    msg: NewMessageView,
    id: Seq<char>,
    received_at: Seq<char>,
    attachment_ids: Seq<Seq<char>>,
)
    ensures
        raw_message_file(id, insert_plan_of(msg, id, received_at, attachment_ids).message.raw_source) == (FileResponseView {
            content_type: "message/rfc822"@,
            content_disposition: attachment_disposition(id + ".eml"@),
            body: msg.raw_source,
        }),
{
}

/// An attachment as a download: `application/octet-stream` where it has no
/// content type, named `attachment` where it has no file name.
pub open spec fn attachment_file(a: AttachmentDownloadView) -> FileResponseView {
    FileResponseView {
        content_type: match a.content_type {
            Some(t) => t,
            None => "application/octet-stream"@,
        },
        content_disposition: attachment_disposition(match a.filename {
            Some(f) => f,
            None => "attachment"@,
        }),
        body: a.data,
    }
}

/// An attachment downloads with its bytes unchanged, with its own content
/// type where it has one (`application/octet-stream` where not), and named
/// by its whole file name where it has one (`attachment` where not).
pub proof fn lemma_attachment_download_keeps_the_attachment(a: AttachmentDownloadView)
    ensures
        attachment_file(a).body == a.data,
        a.content_type matches Some(t) ==> attachment_file(a).content_type == t,
        a.content_type is None ==> attachment_file(a).content_type == "application/octet-stream"@,
        a.filename matches Some(f) ==> attachment_file(a).content_disposition.subrange(22, 22 + f.len() as int) == f
            && attachment_file(a).content_disposition.len() == f.len() + 23,
{
    if let Some(f) = a.filename {
        lemma_disposition_holds_the_whole_name(f);
    }
}

/// The answer to a request for an attachment: 404 where there is none (of
/// that id under that message).
pub fn attachment_response(attachment: Option<AttachmentDownload>) -> (response: Result<FileResponse, ApiError>)
    ensures
        attachment matches Some(a) ==> (response matches Ok(r) && r@ == attachment_file(a@)),
        attachment is None ==> (response matches Err(e) && e@ == ApiErrorView::NotFound),
{
    match attachment {
        Some(a) => {
            let content_type = match a.content_type {
                Some(t) => t,
                None => String::from_str("application/octet-stream"),
            };
            let filename = match a.filename {
                Some(f) => f,
                None => String::from_str("attachment"),
            };
            Ok(FileResponse {
                content_type,
                content_disposition: disposition(filename.as_str()),
                body: a.data,
            })
        },
        None => Err(ApiError::NotFound),
    }
}

/// The answer to deleting a message: 204 where it was deleted, 404 where
/// there was none.
pub fn delete_response(deleted: bool) -> (response: Result<u16, ApiError>)
    ensures
        deleted ==> response == Ok::<u16, ApiError>(no_content()),
        !deleted ==> (response matches Err(e) && e@ == ApiErrorView::NotFound),
{
    if deleted {
        Ok(204)
    } else {
        Err(ApiError::NotFound)
    }
}

} // verus!
