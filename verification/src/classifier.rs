//! The message classifier: every text the trigger channel delivers becomes
//! exactly one of four things. Blank input is `Empty`; text that is not JSON
//! at all is `Text` (control words such as "kill" travel as bare text); a
//! JSON document that matches the trigger schema - an object whose known
//! fields, all optional, carry the right kinds of numbers - is `JsonData`;
//! a JSON document of any other shape is `InvalidJson` with the reason.
//!
//! Only the JSON probes themselves are trusted (see `json`), and each
//! probe's verdict is named as a function of the raw text, so the whole
//! classification is a fixed function of the message: [`parse_message`]'s
//! contract determines the verdict, with the schema decision spelled out by
//! the verified [`decode_trigger_fields`].

use vstd::prelude::*;
use vstd::string::*;

use crate::frame::KalmanEstimateRow;
use crate::json::{
    estimate_probe_of, is_object_doc, is_valid_json, json_syntax_ok, probe_estimate,
    probe_is_object, probe_uint, uint_probe_of,
};

verus! {

/// Why a syntactically valid document failed the trigger schema.
#[derive(Clone, Copy, Debug, PartialEq, Eq, Structural)]
pub enum DecodeError {
    /// The document is not a JSON object.
    NotObject,
    /// `obj_id` is present but not an unsigned integer that fits in u32.
    BadObjId,
    /// `frame` is present but not an unsigned integer that fits in u64.
    BadFrame,
    /// The estimate field with this index (in schema order) is present but
    /// not a number.
    BadEstimateField(usize),
}

/// The classifier's verdict on one raw message.
#[derive(Debug)]
pub enum MessageType {
    /// Blank input: nothing arrived this cycle.
    Empty,
    /// A well-formed trigger event.
    JsonData(KalmanEstimateRow),
    /// Not JSON: plain text, such as a control word.
    Text(String),
    /// JSON, but not shaped like a trigger event: the raw text and the reason.
    InvalidJson(String, DecodeError),
}

/// What probing an object for an integer field can find.
#[derive(Clone, Copy, Debug, PartialEq, Eq, Structural)]
pub enum FieldProbe {
    /// The key is absent (the schema then supplies zero).
    Missing,
    /// The key holds this unsigned integer.
    Uint(u64),
    /// The key holds something that is not an unsigned integer.
    WrongType,
}

/// What probing an object for a numeric estimate field can find.
#[derive(Clone, Copy, Debug, PartialEq, Eq, Structural)]
pub enum EstimateProbe {
    /// The key is absent (the schema then supplies zero).
    Absent,
    /// The key holds a number.
    Numeric,
    /// The key holds something that is not a number.
    NotNumeric,
}

/// Index of the first estimate field that is present but not a number.
pub open spec fn first_not_numeric(ps: Seq<EstimateProbe>, i: int) -> Option<int>
    decreases ps.len() - i when 0 <= i <= ps.len()
{
    if i >= ps.len() {
        None
    } else if ps[i] is NotNumeric {
        Some(i)
    } else {
        first_not_numeric(ps, i + 1)
    }
}

/// The trigger schema's verdict, as a function of what was found in the
/// document: everything is optional and defaults to zero, but a present
/// field of the wrong kind rejects the document, the first such field (in
/// schema order) giving the reason.
pub open spec fn decode_of_probes(
    is_object: bool,
    obj_id: FieldProbe,
    frame: FieldProbe,
    estimates: Seq<EstimateProbe>,
) -> Result<KalmanEstimateRow, DecodeError> {
    if !is_object {
        Err(DecodeError::NotObject)
    } else if obj_id is WrongType || (obj_id matches FieldProbe::Uint(n) && n > u32::MAX) {
        Err(DecodeError::BadObjId)
    } else if frame is WrongType {
        Err(DecodeError::BadFrame)
    } else if first_not_numeric(estimates, 0) is Some {
        Err(DecodeError::BadEstimateField(first_not_numeric(estimates, 0)->Some_0 as usize))
    } else {
        Ok(
            KalmanEstimateRow {
                obj_id: match obj_id {
                    FieldProbe::Uint(n) => n as u32,
                    _ => 0,
                },
                frame: match frame {
                    FieldProbe::Uint(n) => n,
                    _ => 0,
                },
            },
        )
    }
}

/// The verified schema decision: exactly [`decode_of_probes`] of what the
/// probes found.
pub fn decode_trigger_fields(
    is_object: bool,
    obj_id: FieldProbe,
    frame: FieldProbe,
    estimates: &Vec<EstimateProbe>,
) -> (r: Result<KalmanEstimateRow, DecodeError>)
    ensures
        r == decode_of_probes(is_object, obj_id, frame, estimates@),
{
    if !is_object {
        return Err(DecodeError::NotObject);
    }
    let obj_id_val: u32 = match obj_id {
        FieldProbe::Missing => 0,
        FieldProbe::Uint(n) => {
            if n > u32::MAX as u64 {
                return Err(DecodeError::BadObjId);
            }
            n as u32
        },
        FieldProbe::WrongType => {
            return Err(DecodeError::BadObjId);
        },
    };
    let frame_val: u64 = match frame {
        FieldProbe::Missing => 0,
        FieldProbe::Uint(n) => n,
        FieldProbe::WrongType => {
            return Err(DecodeError::BadFrame);
        },
    };
    let mut i: usize = 0;
    while i < estimates.len()
        invariant
            0 <= i <= estimates@.len(),
            first_not_numeric(estimates@, 0) == first_not_numeric(estimates@, i as int),
            is_object,
            !(obj_id is WrongType),
            !(obj_id matches FieldProbe::Uint(n) && n > u32::MAX),
            !(frame is WrongType),
            obj_id_val == (match obj_id {
                FieldProbe::Uint(n) => n as u32,
                _ => 0u32,
            }),
            frame_val == (match frame {
                FieldProbe::Uint(n) => n,
                _ => 0u64,
            }),
        decreases estimates@.len() - i,
    {
        match estimates[i] {
            EstimateProbe::NotNumeric => {
                proof {
                    assert(first_not_numeric(estimates@, i as int) == Some(i as int));
                }
                return Err(DecodeError::BadEstimateField(i));
            },
            _ => {},
        }
        proof {
            assert(first_not_numeric(estimates@, i as int) == first_not_numeric(
                estimates@,
                i + 1 as int,
            ));
        }
        i = i + 1;
    }
    proof {
        assert(first_not_numeric(estimates@, estimates@.len() as int) is None);
    }
    Ok(KalmanEstimateRow { obj_id: obj_id_val, frame: frame_val })
}

/// The estimate fields' probes, in schema order: timestamp, position,
/// velocity and covariance entries.
pub open spec fn estimate_probes_of(doc: Seq<char>) -> Seq<EstimateProbe> {
    seq![
        estimate_probe_of(doc, "timestamp"@),
        estimate_probe_of(doc, "x"@),
        estimate_probe_of(doc, "y"@),
        estimate_probe_of(doc, "z"@),
        estimate_probe_of(doc, "xvel"@),
        estimate_probe_of(doc, "yvel"@),
        estimate_probe_of(doc, "zvel"@),
        estimate_probe_of(doc, "P00"@),
        estimate_probe_of(doc, "P01"@),
        estimate_probe_of(doc, "P02"@),
        estimate_probe_of(doc, "P11"@),
        estimate_probe_of(doc, "P12"@),
        estimate_probe_of(doc, "P22"@),
        estimate_probe_of(doc, "P33"@),
        estimate_probe_of(doc, "P44"@),
        estimate_probe_of(doc, "P55"@),
    ]
}

/// The trigger schema's verdict on a raw document: the schema decision
/// applied to the document's named probes.
pub open spec fn trigger_decode_of(doc: Seq<char>) -> Result<KalmanEstimateRow, DecodeError> {
    decode_of_probes(
        is_object_doc(doc),
        uint_probe_of(doc, "obj_id"@),
        uint_probe_of(doc, "frame"@),
        estimate_probes_of(doc),
    )
}

/// Decode a document against the trigger schema: probe the two identifier
/// fields and the estimate fields, in schema order, then decide. Exactly
/// [`trigger_decode_of`] of the text.
#[verifier::rlimit(60)]
fn decode_trigger_text(doc: &str) -> (r: Result<KalmanEstimateRow, DecodeError>)
    ensures
        r == trigger_decode_of(doc@),
{
    let is_object = probe_is_object(doc);
    let obj_id = probe_uint(doc, "obj_id");
    let frame = probe_uint(doc, "frame");
    let mut estimates: Vec<EstimateProbe> = Vec::new();
    estimates.push(probe_estimate(doc, "timestamp"));
    estimates.push(probe_estimate(doc, "x"));
    estimates.push(probe_estimate(doc, "y"));
    estimates.push(probe_estimate(doc, "z"));
    estimates.push(probe_estimate(doc, "xvel"));
    estimates.push(probe_estimate(doc, "yvel"));
    estimates.push(probe_estimate(doc, "zvel"));
    estimates.push(probe_estimate(doc, "P00"));
    estimates.push(probe_estimate(doc, "P01"));
    estimates.push(probe_estimate(doc, "P02"));
    estimates.push(probe_estimate(doc, "P11"));
    estimates.push(probe_estimate(doc, "P12"));
    estimates.push(probe_estimate(doc, "P22"));
    estimates.push(probe_estimate(doc, "P33"));
    estimates.push(probe_estimate(doc, "P44"));
    estimates.push(probe_estimate(doc, "P55"));
    proof {
        assert(estimates@ =~= estimate_probes_of(doc@));
    }
    decode_trigger_fields(is_object, obj_id, frame, &estimates)
}

/// The characters `str::trim` removes: the Unicode White_Space code points.
pub open spec fn is_space_char(c: char) -> bool {
    let n = c as u32;
    ||| n == 0x20
    ||| (0x09 <= n && n <= 0x0D)
    ||| n == 0x85
    ||| n == 0xA0
    ||| n == 0x1680
    ||| (0x2000 <= n && n <= 0x200A)
    ||| n == 0x2028
    ||| n == 0x2029
    ||| n == 0x202F
    ||| n == 0x205F
    ||| n == 0x3000
}

/// Nothing but whitespace (in particular, nothing at all).
pub open spec fn all_blank(s: Seq<char>) -> bool {
    forall|i: int| 0 <= i < s.len() ==> is_space_char(#[trigger] s[i])
}

/// Whether the message is blank.
fn is_blank(message: &str) -> (r: bool)
    ensures
        r == all_blank(message@),
{
    let n = message.unicode_len();
    let mut i: usize = 0;
    while i < n
        invariant
            0 <= i <= n,
            n == message@.len(),
            forall|j: int| 0 <= j < i ==> is_space_char(#[trigger] message@[j]),
        decreases n - i,
    {
        let c = message.get_char(i);
        let code = c as u32;
        let space = code == 0x20 || (0x09 <= code && code <= 0x0D) || code == 0x85 || code == 0xA0
            || code == 0x1680 || (0x2000 <= code && code <= 0x200A) || code == 0x2028
            || code == 0x2029 || code == 0x202F || code == 0x205F || code == 0x3000;
        if !space {
            return false;
        }
        i = i + 1;
    }
    true
}

/// Classify one raw message from the trigger channel. Blank text is
/// `Empty`; text that does not parse as JSON is `Text` (carrying the raw
/// message); JSON that decodes against the trigger schema is `JsonData` of
/// the decoded row; JSON of any other shape is `InvalidJson` with the raw
/// message and the reason. The verdict is a fixed function of the message:
/// the last clause determines, through [`trigger_decode_of`], both which of
/// `JsonData`/`InvalidJson` a valid document yields and the row or reason it
/// carries.
pub fn parse_message(message: &str) -> (m: MessageType)
    ensures
        (m is Empty) <==> all_blank(message@),
        (m is Text) <==> (!all_blank(message@) && !json_syntax_ok(message@)),
        m matches MessageType::Text(t) ==> t@ == message@,
        (!all_blank(message@) && json_syntax_ok(message@)) ==> (match trigger_decode_of(
            message@,
        ) {
            Ok(row) => m == MessageType::JsonData(row),
            Err(e) => m matches MessageType::InvalidJson(raw, err) && raw@ == message@ && err == e,
        }),
{
    if is_blank(message) {
        return MessageType::Empty;
    }
    if !is_valid_json(message) {
        return MessageType::Text(message.to_owned());
    }
    match decode_trigger_text(message) {
        Ok(row) => MessageType::JsonData(row),
        Err(e) => MessageType::InvalidJson(message.to_owned(), e),
    }
}

/// Where the first space splits a topic-prefixed payload.
pub open spec fn find_space(s: Seq<char>, i: int) -> Option<int>
    decreases s.len() - i when 0 <= i <= s.len()
{
    if i >= s.len() {
        None
    } else if s[i] == ' ' {
        Some(i)
    } else {
        find_space(s, i + 1)
    }
}

/// Strip the topic prefix from a published message: everything after the
/// first space. A message with no space has no topic and is returned whole.
pub fn strip_topic(full: &str) -> (payload: &str)
    ensures
        match find_space(full@, 0) {
            Some(k) => payload@ == full@.subrange(k + 1, full@.len() as int),
            None => payload@ == full@,
        },
{
    let n = full.unicode_len();
    let mut i: usize = 0;
    while i < n
        invariant
            0 <= i <= n,
            n == full@.len(),
            find_space(full@, 0) == find_space(full@, i as int),
        decreases n - i,
    {
        let c = full.get_char(i);
        if c == ' ' {
            return full.substring_char(i + 1, n);
        }
        i = i + 1;
    }
    full
}

} // verus!
