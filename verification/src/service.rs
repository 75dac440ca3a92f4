//! The steps agent and proxy share around a message stream: which messages a
//! write sends, what a read gives back, and how payloads are encrypted.
use vstd::prelude::*;

use crate::error::PpaassError;
use crate::message::{opt_bytes_view, Message};
use crate::payload::{
    spec_decode_message_payload, spec_encode_message_payload, MessagePayload, PayloadEncryptionType, SpecEncryptionType,
};
use crate::text::{generate_uuid, is_generated_id};

verus! {

/// Builds the messages a write sends.
pub struct MessageFramedWriter;

/// `m` carries the given reference id, connection id, user token and
/// encryption type, and a freshly generated id.
pub open spec fn spec_message_header(
    m: Message,
    ref_id: Option<String>,
    connection_id: Option<String>,
    user_token: String,
    payload_encryption_type: SpecEncryptionType,
) -> bool {
    &&& is_generated_id(m.id@)
    &&& m.ref_id == ref_id
    &&& m.connection_id == connection_id
    &&& m.user_token == user_token
    &&& m.payload_encryption_type@ == payload_encryption_type
}

/// A message header as [`spec_message_header`] describes it carries exactly
/// the given reference id, connection id, user token and encryption type.
pub proof fn lemma_message_header_fields(
    m: Message,
    ref_id: Option<String>,
    connection_id: Option<String>,
    user_token: String,
    payload_encryption_type: SpecEncryptionType,
)
    requires
        spec_message_header(m, ref_id, connection_id, user_token, payload_encryption_type),
    ensures
        m.ref_id == ref_id,
        m.connection_id == connection_id,
        m.user_token == user_token,
        m.payload_encryption_type@ == payload_encryption_type,
        is_generated_id(m.id@),
{
}

impl MessageFramedWriter {
    /// The messages a write sends: one without payload when there are no
    /// payloads, else one per payload, in order, carrying the payload's wire
    /// form. Each gets a fresh id and the given reference id, connection id,
    /// user token and encryption type.
    pub fn build_messages(
        message_payloads: Option<Vec<MessagePayload>>,
        ref_id: Option<String>,
        connection_id: Option<String>,
        user_token: String,
        payload_encryption_type: PayloadEncryptionType,
    ) -> (res: Vec<Message>)
        ensures
            forall|i: int|
                0 <= i < res@.len() ==> {
                    &&& is_generated_id((#[trigger] res@[i]).id@)
                    &&& res@[i].ref_id == ref_id
                    &&& res@[i].connection_id == connection_id
                    &&& res@[i].user_token == user_token
                    &&& res@[i].payload_encryption_type@ == payload_encryption_type@
                },
            match message_payloads {
                None => res@.len() == 1 && spec_message_header(
                    res@[0],
                    ref_id,
                    connection_id,
                    user_token,
                    payload_encryption_type@,
                ) && res@[0].payload is None,
                Some(ps) => res@.len() == ps@.len() && forall|i: int|
                    0 <= i < ps@.len() ==> spec_message_header(
                        #[trigger] res@[i],
                        ref_id,
                        connection_id,
                        user_token,
                        payload_encryption_type@,
                    ) && opt_bytes_view(res@[i].payload) == Some(spec_encode_message_payload(ps@[i]@)),
            },
    {
        let mut messages: Vec<Message> = Vec::new();
        match message_payloads {
            None => {
                messages.push(
                    Message::new(generate_uuid(), ref_id, connection_id, user_token, payload_encryption_type, None),
                );
            },
            Some(payloads) => {
                let n = payloads.len();
                let mut i: usize = 0;
                while i < n
                    invariant
                        n == payloads@.len(),
                        i <= n,
                        messages@.len() == i,
                        forall|k: int|
                            0 <= k < i ==> spec_message_header(
                                #[trigger] messages@[k],
                                ref_id,
                                connection_id,
                                user_token,
                                payload_encryption_type@,
                            ) && opt_bytes_view(messages@[k].payload) == Some(spec_encode_message_payload(payloads@[k]@)),
                    decreases n - i,
                {
                    let data = payloads[i].encode();
                    let m = Message::new(
                        generate_uuid(),
                        ref_id.clone(),
                        connection_id.clone(),
                        user_token.clone(),
                        payload_encryption_type.duplicate(),
                        Some(data),
                    );
                    messages.push(m);
                    i = i + 1;
                }
            },
        }
        messages
    }
}

/// The content of a message read off a stream: its id, its payload read from
/// the payload bytes, and its user token.
#[derive(Debug)]
pub struct ReadMessageFramedResultContent {
    pub message_id: String,
    pub message_payload: Option<MessagePayload>,
    pub user_token: String,
}

/// What waiting for the next message on a stream gave.
#[derive(Debug)]
pub enum ReadEvent {
    /// The wait took longer than the timeout.
    TimedOut,
    /// The stream ended.
    Ended,
    /// A message arrived.
    Received(Message),
    /// The stream failed.
    Failed(PpaassError),
}

/// Turns what a read of the message stream gave into its result.
pub struct MessageFramedReader;

impl MessageFramedReader {
    /// How long a read waits, in seconds: the given timeout, else without end.
    pub fn timeout_seconds(timeout: Option<u64>) -> (res: u64)
        ensures
            res == match timeout {
                Some(t) => t,
                None => u64::MAX,
            },
    {
        match timeout {
            Some(t) => t,
            None => u64::MAX,
        }
    }

    /// The content of a received message: its id and user token, and its
    /// payload bytes read as a payload; `CodecError` when they are not one.
    pub fn read_content(message: Message) -> (res: Result<ReadMessageFramedResultContent, PpaassError>)
        ensures
            match message.payload {
                None => res matches Ok(c) && c.message_id == message.id && c.user_token == message.user_token
                    && c.message_payload is None,
                Some(bytes) => match spec_decode_message_payload(bytes@) {
                    None => res matches Err(e) && e is CodecError,
                    Some(p) => res matches Ok(c) && c.message_id == message.id && c.user_token == message.user_token
                        && (c.message_payload matches Some(q) && q@ == p),
                },
            },
    {
        let Message { id, user_token, payload, .. } = message;
        let message_payload = match payload {
            None => None,
            Some(bytes) => match MessagePayload::decode(bytes.as_slice()) {
                Ok(p) => Some(p),
                Err(e) => return Err(e),
            },
        };
        Ok(ReadMessageFramedResultContent { message_id: id, message_payload, user_token })
    }

    /// The result of a read that waited at most `timeout` seconds (without
    /// end when none is given): a `TimeoutError` that carries the seconds
    /// waited, `Ok(None)` at the end of the stream, the content of a received
    /// message, or the stream's error.
    pub fn decide(timeout: Option<u64>, event: ReadEvent) -> (res: Result<Option<ReadMessageFramedResultContent>, PpaassError>)
        ensures
            match event {
                ReadEvent::TimedOut => res matches Err(e) && (e matches PpaassError::TimeoutError { elapsed }
                    && elapsed == match timeout {
                    Some(t) => t,
                    None => u64::MAX,
                }),
                ReadEvent::Ended => res matches Ok(None),
                ReadEvent::Received(m) => match m.payload {
                    None => res matches Ok(Some(c)) && c.message_id == m.id && c.user_token == m.user_token
                        && c.message_payload is None,
                    Some(bytes) => match spec_decode_message_payload(bytes@) {
                        None => res matches Err(e) && e is CodecError,
                        Some(p) => res matches Ok(Some(c)) && c.message_id == m.id && c.user_token == m.user_token
                            && (c.message_payload matches Some(q) && q@ == p),
                    },
                },
                ReadEvent::Failed(e) => res matches Err(e2) && e2 == e,
            },
    {
        match event {
            ReadEvent::TimedOut => Err(PpaassError::TimeoutError { elapsed: Self::timeout_seconds(timeout) }),
            ReadEvent::Ended => Ok(None),
            ReadEvent::Received(m) => match Self::read_content(m) {
                Ok(c) => Ok(Some(c)),
                Err(e) => Err(e),
            },
            ReadEvent::Failed(e) => Err(e),
        }
    }
}

/// The user and the token an encryption type is to be chosen for.
#[derive(Debug)]
pub struct PayloadEncryptionTypeSelectRequest {
    pub user_token: String,
    pub encryption_token: Vec<u8>,
}

/// The encryption type chosen for a user and a token.
#[derive(Debug)]
pub struct PayloadEncryptionTypeSelectResult {
    pub user_token: String,
    pub encryption_token: Vec<u8>,
    pub payload_encryption_type: PayloadEncryptionType,
}

/// Chooses how payloads are encrypted.
pub struct PayloadEncryptionTypeSelector;

impl PayloadEncryptionTypeSelector {
    /// Blowfish under the request's token, for every user.
    pub fn select(request: PayloadEncryptionTypeSelectRequest) -> (res: Result<PayloadEncryptionTypeSelectResult, PpaassError>)
        ensures
            res matches Ok(r) && r.user_token == request.user_token && r.encryption_token@ == request.encryption_token@
                && r.payload_encryption_type@ == SpecEncryptionType::Blowfish(request.encryption_token@),
    {
        let PayloadEncryptionTypeSelectRequest { user_token, encryption_token } = request;
        Ok(PayloadEncryptionTypeSelectResult {
            payload_encryption_type: PayloadEncryptionType::Blowfish(encryption_token.clone()),
            user_token,
            encryption_token,
        })
    }
}

} // verus!
