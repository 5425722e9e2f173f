use vstd::prelude::*;
use std::borrow::Cow;
use mail_parser::{Address, MessageParser, MimeHeaders};

verus! {

/// One MIME part that the parser reports as an attachment, in plain values.
pub struct MailPart {
    /// The part's attachment file name, where it has one.
    pub attachment_name: Option<String>,
    /// The part's content type: its type and, where given, its subtype.
    pub content_type: Option<(String, Option<String>)>,
    /// The length of the part's body, in bytes.
    pub len: usize,
    /// The part's decoded body.
    pub contents: Vec<u8>,
}

/// The header fields and bodies of a parsed mail that the server keeps, in
/// plain values.
pub struct MailHead {
    /// `From`: absent header, or the header's first mailbox (absent when the
    /// header lists none), whose address may be missing.
    pub from_first: Option<Option<Option<String>>>,
    /// `To`: the address of every listed mailbox, in order.
    pub to: Option<Vec<Option<String>>>,
    /// `Cc`: the address of every listed mailbox, in order.
    pub cc: Option<Vec<Option<String>>>,
    pub subject: Option<String>,
    /// The first plain-text body.
    pub body_text: Option<String>,
    /// The first HTML body.
    pub body_html: Option<String>,
}

/// A parsed mail: its header fields and its attachments, in the order the
/// parser gives them.
pub struct ParsedMail {
    pub head: MailHead,
    pub attachments: Vec<MailPart>,
}

pub ghost struct MailPartView {
    pub attachment_name: Option<Seq<char>>,
    pub content_type: Option<(Seq<char>, Option<Seq<char>>)>,
    pub len: nat,
    pub contents: Seq<u8>,
}

pub ghost struct MailHeadView {
    pub from_first: Option<Option<Option<Seq<char>>>>,
    pub to: Option<Seq<Option<Seq<char>>>>,
    pub cc: Option<Seq<Option<Seq<char>>>>,
    pub subject: Option<Seq<char>>,
    pub body_text: Option<Seq<char>>,
    pub body_html: Option<Seq<char>>,
}

pub ghost struct ParsedMailView {
    pub head: MailHeadView,
    pub attachments: Seq<MailPartView>,
}

impl View for MailPart {
    type V = MailPartView;

    open spec fn view(&self) -> MailPartView {
        MailPartView {
            attachment_name: self.attachment_name.deep_view(),
            content_type: self.content_type.deep_view(),
            len: self.len as nat,
            contents: self.contents@,
        }
    }
}

impl View for MailHead {
    type V = MailHeadView;

    open spec fn view(&self) -> MailHeadView {
        MailHeadView {
            from_first: self.from_first.deep_view(),
            to: self.to.deep_view(),
            cc: self.cc.deep_view(),
            subject: self.subject.deep_view(),
            body_text: self.body_text.deep_view(),
            body_html: self.body_html.deep_view(),
        }
    }
}

/// The views of a list of parts.
pub open spec fn parts_view(parts: Seq<MailPart>) -> Seq<MailPartView> {
    parts.map_values(|p: MailPart| p@)
}

impl View for ParsedMail {
    type V = ParsedMailView;

    open spec fn view(&self) -> ParsedMailView {
        ParsedMailView { head: self.head@, attachments: parts_view(self.attachments@) }
    }
}

/// The view of an optional parsed mail.
pub open spec fn parsed_view(p: Option<ParsedMail>) -> Option<ParsedMailView> {
    match p {
        Some(m) => Some(m@),
        None => None,
    }
}

/// What `mail_parser`, with its default settings, reads from the raw bytes of
/// a message as its header fields and bodies; `None` where it finds no
/// message.
pub uninterp spec fn mail_head(raw: Seq<u8>) -> Option<MailHeadView>;

/// What `mail_parser`, with its default settings, reads from the raw bytes of
/// a message as its attachments; `None` where it finds no message.
pub uninterp spec fn mail_attachments(raw: Seq<u8>) -> Option<Seq<MailPartView>>;

/// The parsed mail of raw message bytes: present exactly when the parser
/// finds a message.
pub open spec fn parsed_mail(raw: Seq<u8>) -> Option<ParsedMailView> {
    match (mail_head(raw), mail_attachments(raw)) {
        (Some(head), Some(attachments)) => Some(ParsedMailView { head, attachments }),
        _ => None,
    }
}

/// Calls `mail_parser::MessageParser::new().parse` and reads the message
/// through `Message::from`, `Address::first`, `Message::to`, `Message::cc`,
/// `Address::iter`, `Addr::address`, `Message::subject`,
/// `Message::body_text(0)` and `Message::body_html(0)`. Claimed: the result
/// is the named `mail_head` of the bytes.
#[verifier::external_body]
fn read_mail_head(raw: &[u8]) -> (head: Option<MailHead>)
    ensures
        head matches Some(h) ==> mail_head(raw@) == Some(h@),
        head is None ==> mail_head(raw@) is None,
{
    let m = MessageParser::new().parse(raw)?;
    let list = |a: &Address| a.iter().map(|x| x.address().map(String::from)).collect();
    Some(MailHead {
        from_first: m.from().map(|a| a.first().map(|x| x.address().map(String::from))),
        to: m.to().map(list), cc: m.cc().map(list), subject: m.subject().map(String::from),
        body_text: m.body_text(0).map(Cow::into_owned), body_html: m.body_html(0).map(Cow::into_owned),
    })
}

/// Calls `mail_parser::MessageParser::new().parse` and reads each part of
/// `Message::attachments` through `MimeHeaders::attachment_name`,
/// `MimeHeaders::content_type` (`ContentType::ctype`, `ContentType::subtype`),
/// `MessagePart::len` and `MessagePart::contents`. Claimed: the result is the
/// named `mail_attachments` of the bytes; it is present exactly when
/// `mail_head` is (both come from the same deterministic parse of the same
/// bytes); and each part's length is the length of its contents
/// (`MessagePart::len` and `MessagePart::contents` read the same body in
/// every variant of a part).
#[verifier::external_body]
fn read_mail_attachments(raw: &[u8]) -> (parts: Option<Vec<MailPart>>)
    ensures
        parts matches Some(p) ==> mail_attachments(raw@) == Some(parts_view(p@)),
        parts is None ==> mail_attachments(raw@) is None,
        parts is Some <==> mail_head(raw@) is Some,
        parts matches Some(p) ==> forall|i: int|
            0 <= i < p@.len() ==> (#[trigger] p@[i]).len == p@[i].contents@.len(),
{
    let m = MessageParser::new().parse(raw)?;
    Some(m.attachments().map(|p| MailPart { attachment_name: p.attachment_name().map(String::from),
        content_type: p.content_type().map(|t| (t.ctype().to_string(), t.subtype().map(String::from))),
        len: p.len(), contents: p.contents().to_vec() }).collect())
}

/// Parses the raw bytes of a message into the fields the server keeps.
pub fn parse_mail(raw: &[u8]) -> (parsed: Option<ParsedMail>)
    ensures
        parsed_view(parsed) == parsed_mail(raw@),
        parsed matches Some(m) ==> forall|i: int|
            0 <= i < m.attachments@.len() ==> (#[trigger] m.attachments@[i]).len == m.attachments@[i].contents@.len(),
{
    match read_mail_head(raw) {
        None => None,
        Some(head) => match read_mail_attachments(raw) {
            Some(attachments) => {
                let parsed = ParsedMail { head, attachments };
                proof {
                    assert(parsed_view(Some(parsed)) == parsed_mail(raw@));
                }
                Some(parsed)
            },
            None => None,
        },
    }
}

} // verus!
