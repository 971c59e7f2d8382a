//! Messages exchanged with the transport, and who is responsible for
//! releasing the native buffer behind each of them.

use vstd::prelude::*;
use vstd::utf8::{decode_utf8, encode_utf8, encode_utf8_decode_utf8, encode_utf8_valid_utf8, valid_utf8};

verus! {

/// Who releases the native buffer behind a message.
#[derive(PartialEq, Eq, Structural, Clone, Copy, Debug)]
pub enum Ownership {
    /// The holder releases the buffer, exactly once, at the end of its life.
    Owned,
    /// The transport owns the buffer; it lives only for the current callback.
    Borrowed,
}

/// How the transport classifies a message's payload.
#[derive(PartialEq, Eq, Structural, Clone, Copy, Debug)]
pub enum ContentType {
    Text,
    Binary,
    Unknown,
}

/// The payload of a message as this layer hands it out.
#[derive(Debug)]
pub enum MessageBody {
    /// The payload carries nothing this layer can read.
    Unknown,
    Text(String),
    Binary(Vec<u8>),
}

/// Mathematical model of a [`MessageBody`].
pub enum BodyModel {
    Unknown,
    Text(Seq<char>),
    Binary(Seq<u8>),
}

impl View for MessageBody {
    type V = BodyModel;

    open spec fn view(&self) -> BodyModel {
        match self {
            MessageBody::Unknown => BodyModel::Unknown,
            MessageBody::Text(s) => BodyModel::Text(s@),
            MessageBody::Binary(b) => BodyModel::Binary(b@),
        }
    }
}

impl MessageBody {
    /// The content type that this body is classified under.
    pub fn content_type(&self) -> (r: ContentType)
        ensures
            r == content_type_of(self@),
    {
        match self {
            MessageBody::Unknown => ContentType::Unknown,
            MessageBody::Text(_) => ContentType::Text,
            MessageBody::Binary(_) => ContentType::Binary,
        }
    }

    /// A copy of this body with the same content.
    pub fn duplicate(&self) -> (r: MessageBody)
        ensures
            r@ == self@,
    {
        match self {
            MessageBody::Unknown => MessageBody::Unknown,
            MessageBody::Text(s) => MessageBody::Text(s.clone()),
            MessageBody::Binary(b) => {
                let mut out: Vec<u8> = Vec::new();
                let mut i: usize = 0;
                while i < b.len()
                    invariant
                        i <= b@.len(),
                        out@ == b@.subrange(0, i as int),
                    decreases b@.len() - i,
                {
                    out.push(b[i]);
                    i = i + 1;
                }
                assert(out@ =~= b@);
                MessageBody::Binary(out)
            },
        }
    }
}

/// The content type of a body model.
pub open spec fn content_type_of(b: BodyModel) -> ContentType {
    match b {
        BodyModel::Unknown => ContentType::Unknown,
        BodyModel::Text(_) => ContentType::Text,
        BodyModel::Binary(_) => ContentType::Binary,
    }
}

/// The text that a native text payload yields: its decoding where it is valid
/// UTF-8, the empty string where it is not.
pub open spec fn text_of_payload(raw: Seq<u8>) -> Seq<char> {
    if valid_utf8(raw) {
        decode_utf8(raw)
    } else {
        Seq::empty()
    }
}

/// The body that a native payload of the given content type yields.
pub open spec fn body_of_payload(content: ContentType, raw: Seq<u8>) -> BodyModel {
    match content {
        ContentType::Text => BodyModel::Text(text_of_payload(raw)),
        ContentType::Binary => BodyModel::Binary(raw),
        ContentType::Unknown => BodyModel::Unknown,
    }
}

/// Relies on `String::from_utf8`: it succeeds exactly on valid UTF-8, and the
/// text it then gives is the decoding of the bytes.
#[verifier::external_body]
pub(crate) fn utf8_to_string(raw: &[u8]) -> (r: Option<String>)
    ensures
        r is Some <==> valid_utf8(raw@),
        r is Some ==> r->0@ == decode_utf8(raw@),
{
    String::from_utf8(raw.to_vec()).ok()
}

/// Decodes a native text payload; invalid UTF-8 degrades to the empty string.
pub fn decode_text(raw: &[u8]) -> (r: String)
    ensures
        r@ == text_of_payload(raw@),
{
    match utf8_to_string(raw) {
        Some(s) => s,
        None => String::new(),
    }
}

/// Mathematical model of an [`IotHubMessage`].
pub struct MessageModel {
    pub handle: u64,
    pub own: Ownership,
    pub body: BodyModel,
}

/// A message of the transport: the native handle that identifies its buffer,
/// who releases that buffer, and the payload read from it.
#[derive(Debug)]
pub struct IotHubMessage {
    handle: u64,
    own: Ownership,
    body: MessageBody,
}

impl View for IotHubMessage {
    type V = MessageModel;

    closed spec fn view(&self) -> MessageModel {
        MessageModel { handle: self.handle, own: self.own, body: self.body@ }
    }
}

/// The handle whose release a message's end of life calls for: its own for an
/// owned message, none for a borrowed one.
pub open spec fn release_of(m: MessageModel) -> Option<u64> {
    match m.own {
        Ownership::Owned => Some(m.handle),
        Ownership::Borrowed => None,
    }
}

impl IotHubMessage {
    /// An owned text message on the native buffer `handle`.
    pub fn from_text(handle: u64, text: String) -> (r: IotHubMessage)
        ensures
            r@ == (MessageModel { handle, own: Ownership::Owned, body: BodyModel::Text(text@) }),
    {
        IotHubMessage { handle, own: Ownership::Owned, body: MessageBody::Text(text) }
    }

    /// An owned binary message on the native buffer `handle`.
    pub fn from_bytes(handle: u64, bytes: Vec<u8>) -> (r: IotHubMessage)
        ensures
            r@ == (MessageModel { handle, own: Ownership::Owned, body: BodyModel::Binary(bytes@) }),
    {
        IotHubMessage { handle, own: Ownership::Owned, body: MessageBody::Binary(bytes) }
    }

    /// Wraps an inbound native message that the transport lends for the
    /// duration of a callback. `raw` is the payload read from the buffer.
    pub fn from_handle(handle: u64, content: ContentType, raw: Vec<u8>) -> (r: IotHubMessage)
        ensures
            r@ == (MessageModel {
                handle,
                own: Ownership::Borrowed,
                body: body_of_payload(content, raw@),
            }),
    {
        let body = match content {
            ContentType::Text => MessageBody::Text(decode_text(raw.as_slice())),
            ContentType::Binary => MessageBody::Binary(raw),
            ContentType::Unknown => MessageBody::Unknown,
        };
        IotHubMessage { handle, own: Ownership::Borrowed, body }
    }

    /// An owned copy of `message` on the native buffer `handle`, which the
    /// transport's duplication of the source buffer returned.
    pub fn clone(message: &IotHubMessage, handle: u64) -> (r: IotHubMessage)
        ensures
            r@ == (MessageModel { handle, own: Ownership::Owned, body: message@.body }),
    {
        IotHubMessage { handle, own: Ownership::Owned, body: message.body.duplicate() }
    }

    /// The native handle of the message.
    pub fn handle(&self) -> (r: u64)
        ensures
            r == self@.handle,
    {
        self.handle
    }

    /// Who releases the native buffer.
    pub fn ownership(&self) -> (r: Ownership)
        ensures
            r == self@.own,
    {
        self.own
    }

    /// The classification of the payload.
    pub fn content_type(&self) -> (r: ContentType)
        ensures
            r == content_type_of(self@.body),
    {
        self.body.content_type()
    }

    /// The payload.
    pub fn body(&self) -> (r: MessageBody)
        ensures
            r@ == self@.body,
    {
        self.body.duplicate()
    }

    /// What ending this message's life calls for: the handle to release for
    /// an owned message, nothing for a borrowed one.
    pub fn release(&self) -> (r: Option<u64>)
        ensures
            r == release_of(self@),
    {
        match self.own {
            Ownership::Owned => Some(self.handle),
            Ownership::Borrowed => None,
        }
    }
}

/// How many release calls the end of a message's life makes.
pub open spec fn release_count(m: MessageModel) -> nat {
    match release_of(m) {
        Some(_) => 1,
        None => 0,
    }
}

/// Ending an owned message's life releases its own buffer exactly once;
/// ending a borrowed message's life releases nothing.
pub proof fn lemma_release_by_ownership(m: MessageModel)
    ensures
        m.own == Ownership::Owned ==> release_count(m) == 1 && release_of(m) == Some(m.handle),
        m.own == Ownership::Borrowed ==> release_count(m) == 0,
{
}

/// A message yields the body it was built with: a native text payload that
/// encodes `s` yields the text `s`, and a binary payload yields the same bytes,
/// and each is classified under its own content type.
pub proof fn lemma_body_round_trip(s: Seq<char>, bytes: Seq<u8>)
    ensures
        body_of_payload(ContentType::Text, encode_utf8(s)) == BodyModel::Text(s),
        body_of_payload(ContentType::Binary, bytes) == BodyModel::Binary(bytes),
        content_type_of(BodyModel::Text(s)) == ContentType::Text,
        content_type_of(BodyModel::Binary(bytes)) == ContentType::Binary,
{
    encode_utf8_valid_utf8(s);
    encode_utf8_decode_utf8(s);
}

} // verus!
