use vstd::prelude::*;
use crate::mail::{parse_mail, parsed_mail, parsed_view, ParsedMail, ParsedMailView};
use crate::message::{attachment_of, message_of, NewMessage, NewMessageView};

verus! {

/// What the SMTP session does after sending a reply (the actions of
/// `mailin::Action`).
#[derive(Clone, Copy, PartialEq, Eq, Debug)]
pub enum ReplyAction {
    /// Send the reply and close the connection.
    Close,
    /// Upgrade the connection to TLS.
    UpgradeTls,
    /// Send nothing and wait for more data.
    NoReply,
    /// Send the reply and keep the connection open.
    Reply,
}

/// An SMTP reply: a three digit code, a text and what to do after sending it.
pub struct SmtpReply {
    pub code: u16,
    pub text: String,
    pub action: ReplyAction,
}

pub ghost struct ReplyView {
    pub code: u16,
    pub text: Seq<char>,
    pub action: ReplyAction,
}

impl View for SmtpReply {
    type V = ReplyView;

    open spec fn view(&self) -> ReplyView {
        ReplyView { code: self.code, text: self.text@, action: self.action }
    }
}

/// The reply to a message that went over the size limit.
pub open spec fn too_large_reply() -> ReplyView {
    ReplyView { code: 552, text: "5.3.4 Message too large"@, action: ReplyAction::Close }
}

/// The reply to a message that was accepted.
pub open spec fn accepted_reply() -> ReplyView {
    ReplyView { code: 250, text: "2.0.0 Ok: message accepted"@, action: ReplyAction::Reply }
}

/// The reply to data that could not be parsed as a message.
pub open spec fn unparsable_reply() -> ReplyView {
    ReplyView { code: 500, text: "Error parsing message"@, action: ReplyAction::Close }
}

/// What the end of a message's data yields: the reply for the client and,
/// where the message was accepted, the message to store.
pub struct Delivery {
    pub reply: SmtpReply,
    pub message: Option<NewMessage>,
}

pub ghost struct DeliveryView {
    pub reply: ReplyView,
    pub message: Option<NewMessageView>,
}

impl View for Delivery {
    type V = DeliveryView;

    open spec fn view(&self) -> DeliveryView {
        DeliveryView {
            reply: self.reply@,
            message: match self.message {
                Some(m) => Some(m@),
                None => None,
            },
        }
    }
}

/// Collects the data of the message that an SMTP session is receiving.
pub struct MailHandler {
    buffer: Vec<u8>,
    max_message_size: usize,
    oversized: bool,
}

pub ghost struct MailHandlerView {
    /// The bytes received so far.
    pub buffer: Seq<u8>,
    pub max_message_size: nat,
    /// Whether the message went over the size limit.
    pub oversized: bool,
}

impl View for MailHandler {
    type V = MailHandlerView;

    closed spec fn view(&self) -> MailHandlerView {
        MailHandlerView {
            buffer: self.buffer@,
            max_message_size: self.max_message_size as nat,
            oversized: self.oversized,
        }
    }
}

/// A handler that has received nothing yet.
pub open spec fn fresh_handler(max_message_size: nat) -> MailHandlerView {
    MailHandlerView { buffer: Seq::empty(), max_message_size, oversized: false }
}

/// The buffer never holds more than the size limit.
pub open spec fn handler_wf(h: MailHandlerView) -> bool {
    h.buffer.len() <= h.max_message_size
}

/// Receiving a chunk of message data: once the message would exceed the size
/// limit it is marked as oversized and the buffer stops growing.
pub open spec fn handler_after_chunk(h: MailHandlerView, chunk: Seq<u8>) -> MailHandlerView {
    if h.oversized || h.buffer.len() + chunk.len() > h.max_message_size {
        MailHandlerView { oversized: true, ..h }
    } else {
        MailHandlerView { buffer: h.buffer + chunk, ..h }
    }
}

/// What the end of the data yields, given what the parser made of the
/// received bytes.
pub open spec fn delivery_of(h: MailHandlerView, parsed: Option<ParsedMailView>) -> DeliveryView {
    if h.oversized {
        DeliveryView { reply: too_large_reply(), message: None }
    } else {
        match parsed {
            Some(mail) => DeliveryView {
                reply: accepted_reply(),
                message: Some(NewMessageView {
                    raw_size: h.buffer.len(),
                    raw_source: h.buffer,
                    ..message_of(mail)
                }),
            },
            None => DeliveryView { reply: unparsable_reply(), message: None },
        }
    }
}

/// What the end of the data yields.
pub open spec fn delivery_at_end(h: MailHandlerView) -> DeliveryView {
    delivery_of(h, parsed_mail(h.buffer))
}

fn reply(code: u16, text: &str, action: ReplyAction) -> (r: SmtpReply)
    ensures
        r@ == (ReplyView { code, text: text@, action }),
{
    SmtpReply { code, text: String::from_str(text), action }
}

impl MailHandler {
    pub open spec fn wf(&self) -> bool {
        handler_wf(self@)
    }

    /// A handler for messages of at most `max_message_size` bytes.
    pub fn new(max_message_size: usize) -> (handler: MailHandler)
        ensures
            handler@ == fresh_handler(max_message_size as nat),
            handler.wf(),
    {
        MailHandler { buffer: Vec::new(), max_message_size, oversized: false }
    }

    /// Receives a chunk of the message's data.
    pub fn data(&mut self, chunk: &[u8])
        requires
            old(self).wf(),
        ensures
            final(self).wf(),
            final(self)@ == handler_after_chunk(old(self)@, chunk@),
    {
        if self.oversized || chunk.len() > self.max_message_size - self.buffer.len() {
            self.oversized = true;
        } else {
            self.buffer.extend_from_slice(chunk);
            assert(self.buffer@ =~= old(self).buffer@ + chunk@);
        }
    }

    /// Ends the message, given what the parser made of the received bytes:
    /// yields the reply and the message to store, and makes the handler ready
    /// for the next message.
    pub fn finish(&mut self, parsed: Option<ParsedMail>) -> (delivery: Delivery)
        requires
            old(self).wf(),
        ensures
            final(self)@ == fresh_handler(old(self)@.max_message_size),
            final(self).wf(),
            delivery@ == delivery_of(old(self)@, parsed_view(parsed)),
    {
        if self.oversized {
            self.buffer.clear();
            self.oversized = false;
            return Delivery {
                reply: reply(552, "5.3.4 Message too large", ReplyAction::Close),
                message: None,
            };
        }
        match parsed {
            Some(mail) => {
                let raw_size: usize = self.buffer.len();
                let mut message = NewMessage::from_parsed(&mail);
                let mut raw_source: Vec<u8> = Vec::new();
                std::mem::swap(&mut raw_source, &mut self.buffer);
                message.raw_size = raw_size;
                message.raw_source = raw_source;
                Delivery {
                    reply: reply(250, "2.0.0 Ok: message accepted", ReplyAction::Reply),
                    message: Some(message),
                }
            },
            None => {
                self.buffer.clear();
                Delivery {
                    reply: reply(500, "Error parsing message", ReplyAction::Close),
                    message: None,
                }
            },
        }
    }

    /// Ends the message: parses the received bytes, yields the reply and the
    /// message to store, and makes the handler ready for the next message.
    pub fn data_end(&mut self) -> (delivery: Delivery)
        requires
            old(self).wf(),
        ensures
            final(self)@ == fresh_handler(old(self)@.max_message_size),
            final(self).wf(),
            delivery@ == delivery_at_end(old(self)@),
            delivery.message matches Some(m) ==> forall|i: int| 0 <= i < m.attachments@.len()
                ==> (#[trigger] m.attachments@[i]).size == m.attachments@[i].data@.len(),
            old(self)@.oversized ==> delivery.reply.code == 552 && delivery.reply.action == ReplyAction::Close
                && delivery.message is None,
            !old(self)@.oversized && parsed_mail(old(self)@.buffer) is None ==> delivery.reply.code == 500
                && delivery.reply.action == ReplyAction::Close && delivery.message is None,
            !old(self)@.oversized && parsed_mail(old(self)@.buffer) is Some ==> {
                &&& delivery.reply.code == 250
                &&& delivery.reply.action == ReplyAction::Reply
                &&& delivery.message matches Some(m) && m.raw_source@ == old(self)@.buffer
                    && m.raw_size == old(self)@.buffer.len()
                    && m.attachments@.len() == parsed_mail(old(self)@.buffer)->0.attachments.len()
            },
    {
        if self.oversized {
            self.finish(None)
        } else {
            let parsed = parse_mail(self.buffer.as_slice());
            let ghost mail = parsed_view(parsed);
            proof {
                if let Some(m) = &parsed {
                    assert forall|i: int| 0 <= i < mail->0.attachments.len() implies
                        (#[trigger] mail->0.attachments[i]).len == mail->0.attachments[i].contents.len() by {
                        assert(mail->0.attachments[i] == m.attachments@[i]@);
                    }
                }
            }
            let delivery = self.finish(parsed);
            proof {
                if let Some(m) = &delivery.message {
                    assert(m@.attachments.len() == m.attachments@.len());
                    assert forall|i: int| 0 <= i < m.attachments@.len() implies
                        (#[trigger] m.attachments@[i]).size == m.attachments@[i].data@.len() by {
                        assert(m@.attachments == message_of(mail->0).attachments);
                        assert(m@.attachments[i] == attachment_of(mail->0.attachments[i]));
                    }
                }
            }
            delivery
        }
    }
}

/// The state after receiving a sequence of chunks, one after another.
pub open spec fn handler_after_chunks(h: MailHandlerView, chunks: Seq<Seq<u8>>) -> MailHandlerView
    decreases chunks.len(),
{
    if chunks.len() == 0 {
        h
    } else {
        handler_after_chunk(handler_after_chunks(h, chunks.drop_last()), chunks.last())
    }
}

/// The chunks joined into one sequence of bytes.
pub open spec fn joined(chunks: Seq<Seq<u8>>) -> Seq<u8>
    decreases chunks.len(),
{
    if chunks.len() == 0 {
        Seq::empty()
    } else {
        joined(chunks.drop_last()) + chunks.last()
    }
}

/// A message is marked oversized exactly when all the data received for it
/// adds up to more than the size limit; until then the buffer holds exactly
/// that data, in the order received, and never more than the limit.
pub proof fn lemma_chunks_accumulate(max_message_size: nat, chunks: Seq<Seq<u8>>)
    ensures
        handler_after_chunks(fresh_handler(max_message_size), chunks).oversized
            <==> joined(chunks).len() > max_message_size,
        !handler_after_chunks(fresh_handler(max_message_size), chunks).oversized
            ==> handler_after_chunks(fresh_handler(max_message_size), chunks).buffer == joined(chunks),
        handler_wf(handler_after_chunks(fresh_handler(max_message_size), chunks)),
        handler_after_chunks(fresh_handler(max_message_size), chunks).max_message_size == max_message_size,
    decreases chunks.len(),
{
    if chunks.len() > 0 {
        lemma_chunks_accumulate(max_message_size, chunks.drop_last());
    }
}

/// The end of a message: data over the size limit is refused with 552 and
/// nothing is stored; data that does not parse is refused with 500 and
/// nothing is stored; otherwise the message is accepted with 250 and stored
/// with the fields the parser read, exactly the bytes received as its raw
/// source and their count as its raw size.
pub proof fn lemma_message_outcome(max_message_size: nat, chunks: Seq<Seq<u8>>)
    ensures
        ({
            let outcome = delivery_at_end(handler_after_chunks(fresh_handler(max_message_size), chunks));
            let data = joined(chunks);
            &&& data.len() > max_message_size
                ==> outcome == (DeliveryView { reply: too_large_reply(), message: None })
            &&& data.len() <= max_message_size && parsed_mail(data) is None
                ==> outcome == (DeliveryView { reply: unparsable_reply(), message: None })
            &&& data.len() <= max_message_size && parsed_mail(data) is Some
                ==> outcome == (DeliveryView {
                    reply: accepted_reply(),
                    message: Some(NewMessageView {
                        raw_size: data.len(),
                        raw_source: data,
                        ..message_of(parsed_mail(data)->0)
                    }),
                })
        }),
{
    lemma_chunks_accumulate(max_message_size, chunks);
}

} // verus!
