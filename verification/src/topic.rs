use vstd::prelude::*;
use vstd::string::StringSliceAdditionalSpecFns;
use vstd::utf8::{decode_utf8, decode_utf8_encode_utf8, encode_utf8, valid_utf8};

verus! {

/// The topic that asks a server for its status as JSON.
pub const STATUS_QUERY: &'static str = "?status&format=json";

/// Bytes of a topic packet besides the query: the two magic bytes, the
/// 16-bit length, five bytes of padding and the closing NUL.
pub const BASE_LENGTH: usize = 10;

/// The longest query (in bytes) whose packet length still fits the 16-bit
/// length field.
pub const MAX_LENGTH: usize = 65529;

/// The shortest response that carries a string: a 5-byte header and a
/// closing NUL around at least one byte.
pub const MIN_RESPONSE_LENGTH: usize = 7;

/// The BYOND topic packet for a query of bytes `q`: `00 83`, the big-endian
/// length of what follows the first four bytes (`q.len() + 6`), five zero
/// bytes, the query, and a NUL.
pub open spec fn topic_packet(q: Seq<u8>) -> Seq<u8> {
    let n = q.len() + 6;
    seq![0x00u8, 0x83u8, (n / 256) as u8, (n % 256) as u8, 0x00u8, 0x00u8, 0x00u8, 0x00u8, 0x00u8]
        + q + seq![0x00u8]
}

/// Frames `query` as a topic request packet.
pub fn craft_topic(query: &str) -> (bytes: Vec<u8>)
    requires
        query.spec_bytes().len() <= MAX_LENGTH,
    ensures
        bytes@ == topic_packet(query.spec_bytes()),
        bytes@.len() == BASE_LENGTH + query.spec_bytes().len(),
        bytes@[2] * 256 + bytes@[3] == bytes@.len() - 4,
{
    let query_len = query.len();
    let mut bytes: Vec<u8> = Vec::with_capacity(BASE_LENGTH + query_len);
    bytes.push(0x00);
    bytes.push(0x83);
    let total: u16 = query_len as u16 + 6;
    bytes.push((total / 256) as u8);
    bytes.push((total % 256) as u8);
    let mut k: usize = 0;
    while k < 5
        invariant
            0 <= k <= 5,
            bytes@.len() == 4 + k,
            bytes@.subrange(0, 4) == seq![0x00u8, 0x83u8, (total / 256) as u8, (total % 256) as u8],
            forall|j: int| 4 <= j < 4 + k ==> bytes@[j] == 0u8,
        decreases 5 - k,
    {
        let ghost before = bytes@;
        bytes.push(0x00);
        assert(bytes@.subrange(0, 4) =~= before.subrange(0, 4));
        k = k + 1;
    }
    let qb = query.as_bytes();
    bytes.extend_from_slice(qb);
    bytes.push(0x00);
    assert(bytes@ =~= topic_packet(query.spec_bytes()));
    bytes
}

/// A topic packet carries its query unchanged between the nine header bytes
/// and the closing NUL, and its length field counts every byte after the
/// first four.
pub proof fn lemma_packet_carries_query(q: Seq<u8>)
    requires
        q.len() <= MAX_LENGTH,
    ensures
        topic_packet(q).len() == q.len() + BASE_LENGTH,
        topic_packet(q).subrange(9, topic_packet(q).len() - 1) == q,
        topic_packet(q).last() == 0u8,
        topic_packet(q)[2] * 256 + topic_packet(q)[3] == topic_packet(q).len() - 4,
{
    assert(topic_packet(q).subrange(9, topic_packet(q).len() - 1) =~= q);
}

/// Why a topic response could not be read as text.
#[derive(Clone, Copy, Debug, PartialEq, Eq, Structural)]
pub enum TopicError {
    /// The response held fewer than `MIN_RESPONSE_LENGTH` bytes; the field is
    /// the number of bytes read.
    TooFewBytes(usize),
    /// The payload of the response is not valid UTF-8.
    InvalidUtf8,
}

/// The payload of a topic response: what follows the 5-byte header, without
/// the closing NUL.
pub open spec fn response_payload(response: Seq<u8>) -> Seq<u8> {
    response.subrange(5, response.len() - 1)
}

/// Reads the text carried by a topic response (the bytes that were read).
pub fn parse_topic_response(response: &[u8]) -> (r: Result<String, TopicError>)
    ensures
        response@.len() < MIN_RESPONSE_LENGTH ==> r == Err::<String, TopicError>(
            TopicError::TooFewBytes(response@.len() as usize),
        ),
        response@.len() >= MIN_RESPONSE_LENGTH && !valid_utf8(response_payload(response@)) ==> r
            == Err::<String, TopicError>(TopicError::InvalidUtf8),
        response@.len() >= MIN_RESPONSE_LENGTH && valid_utf8(response_payload(response@)) ==> (
        r matches Ok(text) && text@ == decode_utf8(response_payload(response@))),
        r matches Ok(text) ==> response@.len() >= MIN_RESPONSE_LENGTH && encode_utf8(text@)
            == response@.subrange(5, response@.len() - 1),
{
    let n = response.len();
    if n < MIN_RESPONSE_LENGTH {
        return Err(TopicError::TooFewBytes(n));
    }
    let payload = vstd::slice::slice_to_vec(&response[5..n - 1]);
    match utf8_to_string(payload) {
        Some(text) => {
            proof { lemma_payload_is_whole_body(response@); }
            Ok(text)
        },
        None => Err(TopicError::InvalidUtf8),
    }
}

/// The text read from a response is the whole of its body: when the bytes
/// between the 5-byte header and the closing NUL are valid UTF-8, the text
/// encodes back to exactly those bytes, `response.len() - 6` of them.
pub proof fn lemma_payload_is_whole_body(response: Seq<u8>)
    requires
        response.len() >= MIN_RESPONSE_LENGTH,
    ensures
        response_payload(response).len() == response.len() - 6,
        valid_utf8(response_payload(response)) ==> encode_utf8(
            decode_utf8(response_payload(response)),
        ) == response.subrange(5, response.len() - 1),
        valid_utf8(response_payload(response)) ==> encode_utf8(
            decode_utf8(response_payload(response)),
        ).len() == response.len() - 6,
{
    if valid_utf8(response_payload(response)) {
        decode_utf8_encode_utf8(response_payload(response));
    }
}

/// `String::from_utf8`: the bytes decoded as UTF-8 when they are valid UTF-8,
/// `None` (in place of the error) when they are not.
#[verifier::external_body]
fn utf8_to_string(bytes: Vec<u8>) -> (r: Option<String>)
    ensures
        r is Some <==> valid_utf8(bytes@),
        r matches Some(s) ==> s@ == decode_utf8(bytes@),
{
    String::from_utf8(bytes).ok()
}

} // verus!
