use vstd::prelude::*;
use crate::mail::{MailPart, MailPartView, ParsedMail, ParsedMailView};

verus! {

/// A received message, ready to be stored.
pub struct NewMessage {
    pub from_addr: String,
    pub to_addrs: Vec<String>,
    pub cc_addrs: Vec<String>,
    pub subject: Option<String>,
    pub body_text: Option<String>,
    pub body_html: Option<String>,
    /// Size of the raw message, in bytes.
    pub raw_size: usize,
    /// The raw message as it was received.
    pub raw_source: Vec<u8>,
    pub attachments: Vec<NewAttachment>,
}

/// An attachment of a received message.
pub struct NewAttachment {
    pub filename: Option<String>,
    /// `type/subtype`.
    pub content_type: Option<String>,
    /// Size of the attachment, in bytes.
    pub size: usize,
    pub data: Vec<u8>,
}

pub ghost struct NewAttachmentView {
    pub filename: Option<Seq<char>>,
    pub content_type: Option<Seq<char>>,
    pub size: nat,
    pub data: Seq<u8>,
}

pub ghost struct NewMessageView {
    pub from_addr: Seq<char>,
    pub to_addrs: Seq<Seq<char>>,
    pub cc_addrs: Seq<Seq<char>>,
    pub subject: Option<Seq<char>>,
    pub body_text: Option<Seq<char>>,
    pub body_html: Option<Seq<char>>,
    pub raw_size: nat,
    pub raw_source: Seq<u8>,
    pub attachments: Seq<NewAttachmentView>,
}

impl View for NewAttachment {
    type V = NewAttachmentView;

    open spec fn view(&self) -> NewAttachmentView {
        NewAttachmentView {
            filename: self.filename.deep_view(),
            content_type: self.content_type.deep_view(),
            size: self.size as nat,
            data: self.data@,
        }
    }
}

/// The views of a list of attachments.
pub open spec fn attachments_view(a: Seq<NewAttachment>) -> Seq<NewAttachmentView> {
    a.map_values(|x: NewAttachment| x@)
}

impl View for NewMessage {
    type V = NewMessageView;

    open spec fn view(&self) -> NewMessageView {
        NewMessageView {
            from_addr: self.from_addr@,
            to_addrs: self.to_addrs.deep_view(),
            cc_addrs: self.cc_addrs.deep_view(),
            subject: self.subject.deep_view(),
            body_text: self.body_text.deep_view(),
            body_html: self.body_html.deep_view(),
            raw_size: self.raw_size as nat,
            raw_source: self.raw_source@,
            attachments: attachments_view(self.attachments@),
        }
    }
}

/// The sender: the address of the first mailbox of the `From` header, or the
/// empty string where there is no such header, no mailbox or no address.
pub open spec fn sender_address(from_first: Option<Option<Option<Seq<char>>>>) -> Seq<char> {
    match from_first {
        Some(Some(Some(address))) => address,
        _ => Seq::empty(),
    }
}

/// The addresses that are present in a list of mailboxes, in order.
pub open spec fn present_addresses(list: Seq<Option<Seq<char>>>) -> Seq<Seq<char>>
    decreases list.len(),
{
    if list.len() == 0 {
        Seq::empty()
    } else {
        let earlier = present_addresses(list.drop_last());
        match list.last() {
            Some(address) => earlier.push(address),
            None => earlier,
        }
    }
}

/// The recipients of an address header: none where the header is absent.
pub open spec fn recipient_addresses(header: Option<Seq<Option<Seq<char>>>>) -> Seq<Seq<char>> {
    match header {
        Some(list) => present_addresses(list),
        None => Seq::empty(),
    }
}

/// `type/subtype`, with an empty subtype where none is given.
pub open spec fn content_type_text(content_type: Option<(Seq<char>, Option<Seq<char>>)>) -> Option<Seq<char>> {
    match content_type {
        Some((main, sub)) => Some(main + seq!['/'] + match sub {
            Some(s) => s,
            None => Seq::empty(),
        }),
        None => None,
    }
}

/// The attachment made from a parsed part.
pub open spec fn attachment_of(part: MailPartView) -> NewAttachmentView {
    NewAttachmentView {
        filename: part.attachment_name,
        content_type: content_type_text(part.content_type),
        size: part.len,
        data: part.contents,
    }
}

/// The message made from a parsed mail, before its raw bytes are attached.
pub open spec fn message_of(mail: ParsedMailView) -> NewMessageView {
    NewMessageView {
        from_addr: sender_address(mail.head.from_first),
        to_addrs: recipient_addresses(mail.head.to),
        cc_addrs: recipient_addresses(mail.head.cc),
        subject: mail.head.subject,
        body_text: mail.head.body_text,
        body_html: mail.head.body_html,
        raw_size: 0,
        raw_source: Seq::empty(),
        attachments: mail.attachments.map_values(|p: MailPartView| attachment_of(p)),
    }
}

/// The addresses kept from a list of mailboxes are exactly the present ones,
/// in their order: the list with the absent addresses filtered out.
pub proof fn lemma_present_addresses_are_the_present_ones(list: Seq<Option<Seq<char>>>)
    ensures
        present_addresses(list) == list.filter(|o: Option<Seq<char>>| o is Some).map_values(
            |o: Option<Seq<char>>| o->0,
        ),
    decreases list.len(),
{
    reveal(Seq::filter);
    if list.len() > 0 {
        lemma_present_addresses_are_the_present_ones(list.drop_last());
        let kept = list.drop_last().filter(|o: Option<Seq<char>>| o is Some);
        if list.last() is Some {
            assert(kept.push(list.last()).map_values(|o: Option<Seq<char>>| o->0)
                =~= kept.map_values(|o: Option<Seq<char>>| o->0).push(list.last()->0));
        }
    } else {
        assert(list.filter(|o: Option<Seq<char>>| o is Some).map_values(|o: Option<Seq<char>>| o->0)
            =~= Seq::<Seq<char>>::empty());
    }
}

/// A message made from a parsed mail keeps every attachment part that the
/// parser reports, in their order: one attachment per part, with the part's
/// file name, size and bytes, and its type written `type/subtype`.
pub proof fn lemma_message_keeps_every_attachment(mail: ParsedMailView)
    ensures
        message_of(mail).attachments.len() == mail.attachments.len(),
        forall|i: int| 0 <= i < mail.attachments.len() ==> {
            let a = #[trigger] message_of(mail).attachments[i];
            let part = mail.attachments[i];
            &&& a.filename == part.attachment_name
            &&& a.size == part.len
            &&& a.data == part.contents
            &&& a.content_type == match part.content_type {
                Some((main, sub)) => Some(main + seq!['/'] + match sub {
                    Some(t) => t,
                    None => Seq::<char>::empty(),
                }),
                None => None,
            }
        },
{
}

/// A message made from a parsed mail takes its sender from the first mailbox
/// of `From` (empty where there is none), its recipients from the present
/// addresses of `To` and `Cc` in their order (none where a header is
/// absent), and its subject and bodies unchanged; its raw fields start empty.
pub proof fn lemma_message_keeps_the_headers(mail: ParsedMailView)
    ensures
        mail.head.from_first matches Some(Some(Some(a))) ==> message_of(mail).from_addr == a,
        !(mail.head.from_first matches Some(Some(Some(_)))) ==> message_of(mail).from_addr.len() == 0,
        mail.head.to matches Some(list) ==> message_of(mail).to_addrs
            == list.filter(|o: Option<Seq<char>>| o is Some).map_values(|o: Option<Seq<char>>| o->0),
        mail.head.to is None ==> message_of(mail).to_addrs.len() == 0,
        mail.head.cc matches Some(list) ==> message_of(mail).cc_addrs
            == list.filter(|o: Option<Seq<char>>| o is Some).map_values(|o: Option<Seq<char>>| o->0),
        mail.head.cc is None ==> message_of(mail).cc_addrs.len() == 0,
        message_of(mail).subject == mail.head.subject,
        message_of(mail).body_text == mail.head.body_text,
        message_of(mail).body_html == mail.head.body_html,
        message_of(mail).raw_size == 0,
        message_of(mail).raw_source.len() == 0,
{
    if let Some(list) = mail.head.to {
        lemma_present_addresses_are_the_present_ones(list);
    }
    if let Some(list) = mail.head.cc {
        lemma_present_addresses_are_the_present_ones(list);
    }
}

fn clone_text(s: &Option<String>) -> (c: Option<String>)
    ensures
        c.deep_view() == s.deep_view(),
{
    match s {
        Some(t) => Some(t.clone()),
        None => None,
    }
}

/// The addresses that are present in a list of mailboxes, in order.
fn collect_present(list: &Vec<Option<String>>) -> (out: Vec<String>)
    ensures
        out.deep_view() == present_addresses(list.deep_view()),
{
    let mut out: Vec<String> = Vec::new();
    let mut i: usize = 0;
    while i < list.len()
        invariant
            i <= list.len(),
            out.deep_view() == present_addresses(list.deep_view().take(i as int)),
        decreases list.len() - i,
    {
        assert(list.deep_view().take(i + 1).drop_last() =~= list.deep_view().take(i as int));
        match &list[i] {
            Some(address) => {
                out.push(address.clone());
                assert(out.deep_view() =~= present_addresses(list.deep_view().take(i as int)).push(address@));
            },
            None => {},
        }
        i = i + 1;
    }
    assert(list.deep_view().take(list.len() as int) =~= list.deep_view());
    out
}

fn collect_recipients(header: &Option<Vec<Option<String>>>) -> (out: Vec<String>)
    ensures
        out.deep_view() == recipient_addresses(header.deep_view()),
{
    match header {
        Some(list) => collect_present(list),
        None => Vec::new(),
    }
}

/// `type/subtype`, with an empty subtype where none is given.
fn format_content_type(content_type: &Option<(String, Option<String>)>) -> (text: Option<String>)
    ensures
        text.deep_view() == content_type_text(content_type.deep_view()),
{
    match content_type {
        Some((main, sub)) => {
            let mut text = main.clone();
            proof {
                reveal_strlit("/");
            }
            text.append("/");
            match sub {
                Some(s) => text.append(s.as_str()),
                None => {},
            }
            Some(text)
        },
        None => None,
    }
}

impl NewAttachment {
    /// The attachment made from a parsed part.
    pub fn from_part(part: &MailPart) -> (attachment: NewAttachment)
        ensures
            attachment@ == attachment_of(part@),
    {
        NewAttachment {
            filename: clone_text(&part.attachment_name),
            content_type: format_content_type(&part.content_type),
            size: part.len,
            data: part.contents.clone(),
        }
    }
}

impl NewMessage {
    /// The message made from a parsed mail; its raw size and raw bytes are
    /// left empty for the caller to fill in.
    pub fn from_parsed(mail: &ParsedMail) -> (message: NewMessage)
        ensures
            message@ == message_of(mail@),
            message.attachments@.len() == mail.attachments@.len(),
            forall|i: int| 0 <= i < mail.attachments@.len() ==> {
                let a = (#[trigger] message.attachments@[i])@;
                &&& a.filename == mail.attachments@[i]@.attachment_name
                &&& a.size == mail.attachments@[i]@.len
                &&& a.data == mail.attachments@[i]@.contents
            },
            message.subject.deep_view() == mail.head.subject.deep_view(),
            message.body_text.deep_view() == mail.head.body_text.deep_view(),
            message.body_html.deep_view() == mail.head.body_html.deep_view(),
    {
        let from_addr = match &mail.head.from_first {
            Some(Some(Some(address))) => address.clone(),
            _ => String::new(),
        };
        let mut attachments: Vec<NewAttachment> = Vec::new();
        let mut i: usize = 0;
        while i < mail.attachments.len()
            invariant
                i <= mail.attachments.len(),
                attachments@.len() == i,
                forall|j: int| 0 <= j < i ==> (#[trigger] attachments@[j])@ == attachment_of(mail.attachments@[j]@),
            decreases mail.attachments.len() - i,
        {
            attachments.push(NewAttachment::from_part(&mail.attachments[i]));
            i = i + 1;
        }
        let message = NewMessage {
            from_addr,
            to_addrs: collect_recipients(&mail.head.to),
            cc_addrs: collect_recipients(&mail.head.cc),
            subject: clone_text(&mail.head.subject),
            body_text: clone_text(&mail.head.body_text),
            body_html: clone_text(&mail.head.body_html),
            raw_size: 0,
            raw_source: Vec::new(),
            attachments,
        };
        assert(message@.attachments =~= message_of(mail@).attachments);
        message
    }
}

} // verus!
