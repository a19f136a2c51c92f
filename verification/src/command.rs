//! Command bridge: validates and encodes the start/stop session commands.
//!
//! `start` turns a non-empty list of expected utterances into the
//! null-terminated buffer that the application layer hands to the native
//! start entry point; every failure is reported as a [`BridgeError`] that the
//! caller republishes as a tagged error event on the speech channel. The stop
//! command takes no input, is never validated and carries no data, so it has
//! no encoding step here: the application layer invokes the native stop entry
//! point directly.
//!
//! `on_start_signal` is the decision behind the inbound bus signal
//! `phonics://speech:start`: it decodes the signal payload, runs `start`, and
//! says whether to invoke the native engine or to publish an error message.

use vstd::prelude::*;

use crate::json::{
    json_of_text, json_from_text, utterance_views, utterances_json, utterances_to_json,
    value_array, value_at_pointer, value_string,
};
use vstd::string::StrSliceExecFns;
use vstd::utf8::{
    char_is_scalar, char_u32_cast, encode_scalar, encode_utf8, has_width_1_encoding,
    has_width_2_encoding, has_width_3_encoding, is_scalar,
};

verus! {

/// Why a start command was refused.
#[derive(Clone, Copy, Debug, PartialEq, Eq, Structural)]
pub enum BridgeError {
    /// The start command got an empty utterance list.
    InvalidArgument,
    /// The utterances could not be serialized and framed for the native call.
    EncodingError,
}

impl BridgeError {
    /// The user-visible message that the application layer publishes in a
    /// tagged error event on the speech channel.
    pub fn message(&self) -> (r: String)
        ensures
            *self == BridgeError::InvalidArgument ==> r@ == "No utterances provided for recognizer."@,
            *self == BridgeError::EncodingError ==> r@
                == "Failed to encode utterances for the recognizer."@,
    {
        match self {
            BridgeError::InvalidArgument => "No utterances provided for recognizer.".to_owned(),
            BridgeError::EncodingError => "Failed to encode utterances for the recognizer.".to_owned(),
        }
    }
}

/// True when some utterance contains the terminator character, which cannot
/// travel inside a null-terminated native buffer.
pub open spec fn has_forbidden_terminator(items: Seq<Seq<char>>) -> bool {
    exists|i: int| 0 <= i < items.len() && items[i].contains('\0')
}

/// Whether some utterance contains the forbidden terminator character.
fn contains_terminator(items: &Vec<String>) -> (r: bool)
    ensures
        r == has_forbidden_terminator(utterance_views(items@)),
{
    let mut i: usize = 0;
    while i < items.len()
        invariant
            i <= items@.len(),
            forall|k: int| 0 <= k < i ==> !utterance_views(items@)[k].contains('\0'),
        decreases items@.len() - i,
    {
        let s: &String = &items[i];
        let n = s.as_str().unicode_len();
        let mut j: usize = 0;
        while j < n
            invariant
                n == s@.len(),
                j <= n,
                *s == items@[i as int],
                i < items@.len(),
                forall|k: int| 0 <= k < j ==> s@[k] != '\0',
            decreases n - j,
        {
            if s.as_str().get_char(j) == '\0' {
                proof {
                    assert(utterance_views(items@)[i as int][j as int] == '\0');
                    assert(utterance_views(items@)[i as int].contains('\0'));
                }
                return true;
            }
            j += 1;
        }
        proof {
            assert(forall|k: int|
                0 <= k < s@.len() ==> utterance_views(items@)[i as int][k] != '\0');
            assert(!utterance_views(items@)[i as int].contains('\0'));
        }
        i += 1;
    }
    false
}

/// Every byte of the UTF-8 encoding of a nonzero scalar is nonzero: a 1-byte
/// encoding is the scalar itself, and every byte of a wider encoding carries
/// a set marker bit.
proof fn lemma_encode_scalar_no_zero_byte(v: u32)
    requires
        is_scalar(v),
        v != 0,
    ensures
        forall|i: int| 0 <= i < encode_scalar(v).len() ==> encode_scalar(v)[i] != 0,
{
    if has_width_1_encoding(v) {
        assert((v & 0x7F) as u8 != 0) by (bit_vector)
            requires
                0 < v <= 0x7F,
        ;
    } else if has_width_2_encoding(v) {
        assert(0xC0 | ((v >> 6) & 0x1F) as u8 != 0) by (bit_vector);
        assert(0x80 | (v & 0x3F) as u8 != 0) by (bit_vector);
    } else if has_width_3_encoding(v) {
        assert(0xE0 | ((v >> 12) & 0x0F) as u8 != 0) by (bit_vector);
        assert(0x80 | ((v >> 6) & 0x3F) as u8 != 0) by (bit_vector);
        assert(0x80 | (v & 0x3F) as u8 != 0) by (bit_vector);
    } else {
        assert(0xF0 | ((v >> 18) & 0x7) as u8 != 0) by (bit_vector);
        assert(0x80 | ((v >> 12) & 0x3F) as u8 != 0) by (bit_vector);
        assert(0x80 | ((v >> 6) & 0x3F) as u8 != 0) by (bit_vector);
        assert(0x80 | (v & 0x3F) as u8 != 0) by (bit_vector);
    }
}

/// Law behind the framing step: text that holds no NUL character encodes to
/// UTF-8 bytes that hold no zero byte, so a serialized command free of the
/// terminator character frames cleanly.
pub proof fn lemma_encode_utf8_no_zero_byte(chars: Seq<char>)
    requires
        !chars.contains('\0'),
    ensures
        forall|i: int| 0 <= i < encode_utf8(chars).len() ==> encode_utf8(chars)[i] != 0,
    decreases chars.len(),
{
    if chars.len() > 0 {
        let c = chars[0];
        char_is_scalar(c);
        if c as u32 == 0 {
            char_u32_cast(c, c as u32);
            char_u32_cast('\0', '\0' as u32);
            assert('\0' as u32 == 0);
            assert(c == '\0');
            assert(chars.contains('\0'));
        }
        lemma_encode_scalar_no_zero_byte(c as u32);
        assert forall|j: int| 0 <= j < chars.drop_first().len() implies chars.drop_first()[j]
            != '\0' by {
            assert(chars.drop_first()[j] == chars[j + 1]);
        }
        lemma_encode_utf8_no_zero_byte(chars.drop_first());
        let first = encode_scalar(c as u32);
        let rest = encode_utf8(chars.drop_first());
        assert forall|i: int| 0 <= i < encode_utf8(chars).len() implies encode_utf8(chars)[i]
            != 0 by {
            if i < first.len() {
                assert(encode_utf8(chars)[i] == first[i]);
            } else {
                assert(encode_utf8(chars)[i] == rest[i - first.len()]);
            }
        }
    }
}

/// Appends the terminator byte that the native text ABI expects, refusing a
/// byte sequence that already contains one: a terminator in the middle would
/// silently truncate the command at the boundary.
pub fn nul_terminate(bytes: Vec<u8>) -> (r: Result<Vec<u8>, BridgeError>)
    ensures
        r is Ok <==> (forall|i: int| 0 <= i < bytes@.len() ==> bytes@[i] != 0),
        r is Ok ==> r.unwrap()@ == bytes@.push(0u8),
        r is Err ==> r.unwrap_err() == BridgeError::EncodingError,
{
    let mut i: usize = 0;
    while i < bytes.len()
        invariant
            i <= bytes@.len(),
            forall|k: int| 0 <= k < i ==> bytes@[k] != 0,
        decreases bytes@.len() - i,
    {
        if bytes[i] == 0 {
            return Err(BridgeError::EncodingError);
        }
        i += 1;
    }
    let mut out = bytes;
    out.push(0);
    Ok(out)
}

/// Encodes the start command: serializes the expected utterances to JSON text
/// and frames it as a null-terminated byte buffer for the native start entry
/// point. The buffer is owned by the caller, handed to the engine only for
/// the duration of the native call, and released right after it returns.
///
/// An empty list is refused with `InvalidArgument` and an utterance holding
/// the forbidden terminator character with `EncodingError`, both before the
/// serializer runs; on every other input the command succeeds. The
/// serializer's failure path is still mapped to `EncodingError` defensively,
/// though its contract rules it out for a vector of strings.
pub fn start(expected_utterances: Vec<String>) -> (r: Result<Vec<u8>, BridgeError>)
    ensures
        r is Ok <==> expected_utterances@.len() > 0 && !has_forbidden_terminator(
            utterance_views(expected_utterances@),
        ),
        r == Err::<Vec<u8>, BridgeError>(BridgeError::InvalidArgument) <==> expected_utterances@.len() == 0,
        expected_utterances@.len() > 0 && has_forbidden_terminator(
            utterance_views(expected_utterances@),
        ) ==> r == Err::<Vec<u8>, BridgeError>(BridgeError::EncodingError),
        r is Ok ==> {
            &&& expected_utterances@.len() > 0
            &&& !has_forbidden_terminator(utterance_views(expected_utterances@))
            &&& r.unwrap()@ == encode_utf8(
                utterances_json(utterance_views(expected_utterances@)),
            ).push(0u8)
            &&& r.unwrap()@.len() > 0
            &&& r.unwrap()@[r.unwrap()@.len() - 1] == 0
            &&& forall|i: int| 0 <= i < r.unwrap()@.len() - 1 ==> r.unwrap()@[i] != 0
        },
{
    if expected_utterances.len() == 0 {
        return Err(BridgeError::InvalidArgument);
    }
    if contains_terminator(&expected_utterances) {
        return Err(BridgeError::EncodingError);
    }
    let json = match utterances_to_json(&expected_utterances) {
        Ok(text) => text,
        Err(_) => {
            return Err(BridgeError::EncodingError);
        },
    };
    let bytes = json.as_str().as_bytes_vec();
    proof {
        lemma_encode_utf8_no_zero_byte(json@);
    }
    nul_terminate(bytes)
}

/// The utterance list carried by a start signal: the payload text decoded as
/// JSON, its `expectedUtterances` field read as an array of strings. `None`
/// where the payload misses any of that shape.
pub open spec fn start_payload_of(text: Seq<char>) -> Option<Seq<Seq<char>>> {
    match json_of_text(text) {
        None => None,
        Some(root) => match value_at_pointer(root, "/expectedUtterances"@) {
            None => None,
            Some(field) => match value_array(field) {
                None => None,
                Some(elems) => {
                    if forall|i: int|
                        0 <= i < elems.len() ==> value_string(#[trigger] elems[i]) is Some {
                        Some(Seq::new(elems.len(), |i: int| value_string(elems[i]).unwrap()))
                    } else {
                        None
                    }
                },
            },
        },
    }
}

/// Decodes the payload of a `phonics://speech:start` bus signal into the
/// expected utterances: a JSON object whose `expectedUtterances` field is an
/// array of strings. Any other shape gives `None`.
#[verifier::loop_isolation(false)]
pub fn parse_start_payload(payload: &str) -> (r: Option<Vec<String>>)
    ensures
        r is Some <==> start_payload_of(payload@) is Some,
        r is Some ==> utterance_views(r.unwrap()@) == start_payload_of(payload@).unwrap(),
{
    let root = match json_from_text(payload) {
        Ok(value) => value,
        Err(_) => {
            return None;
        },
    };
    let field = match root.pointer("/expectedUtterances") {
        Some(value) => value,
        None => {
            return None;
        },
    };
    let elems = match field.as_array() {
        Some(list) => list,
        None => {
            return None;
        },
    };
    let mut out: Vec<String> = Vec::new();
    let mut i: usize = 0;
    while i < elems.len()
        invariant
            i <= elems@.len(),
            out@.len() == i,
            forall|k: int| 0 <= k < i ==> value_string(#[trigger] elems@[k]) is Some,
            forall|k: int| 0 <= k < i ==> out@[k]@ == value_string(elems@[k]).unwrap(),
        decreases elems@.len() - i,
    {
        let item: &serde_json::Value = &elems[i];
        match item.as_str() {
            Some(text) => {
                out.push(text.to_owned());
            },
            None => {
                proof {
                    assert(value_string(elems@[i as int]) is None);
                }
                return None;
            },
        }
        i += 1;
    }
    proof {
        let spec_items = start_payload_of(payload@).unwrap();
        assert(utterance_views(out@) =~= spec_items);
    }
    Some(out)
}

/// What the application layer is to do in answer to a start signal.
pub enum StartDecision {
    /// Invoke the native start entry point with this null-terminated buffer.
    StartListening(Vec<u8>),
    /// Publish a tagged error event with this message on the speech channel.
    PublishError(String),
}

/// The decision behind the inbound `phonics://speech:start` bus signal:
/// decode the payload, encode the start command, and either hand the caller
/// the buffer for the native call or the error message to publish.
pub fn on_start_signal(payload: &str) -> (r: StartDecision)
    ensures
        start_payload_of(payload@) is None ==> (r matches StartDecision::PublishError(m)
            && m@ == "Invalid speech payload"@),
        start_payload_of(payload@) matches Some(items) ==> {
            &&& items.len() == 0 ==> (r matches StartDecision::PublishError(m) && m@
                == "No utterances provided for recognizer."@)
            &&& items.len() > 0 && has_forbidden_terminator(items) ==> (r
                matches StartDecision::PublishError(m) && m@
                == "Failed to encode utterances for the recognizer."@)
            &&& items.len() > 0 && !has_forbidden_terminator(items)
                ==> r is StartListening
            &&& r matches StartDecision::StartListening(buffer) ==> {
                &&& items.len() > 0
                &&& !has_forbidden_terminator(items)
                &&& buffer@ == encode_utf8(utterances_json(items)).push(0u8)
            }
        },
{
    let items = match parse_start_payload(payload) {
        Some(list) => list,
        None => {
            return StartDecision::PublishError("Invalid speech payload".to_owned());
        },
    };
    match start(items) {
        Ok(buffer) => StartDecision::StartListening(buffer),
        Err(error) => StartDecision::PublishError(error.message()),
    }
}

} // verus!
