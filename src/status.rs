//! Wire payloads of the assistant and their normalised form.
use vstd::prelude::*;

verus! {

/// A status payload as the assistant sends it: every field may be absent.
pub struct AssistantStatus {
    pub status: Option<String>,
    pub text: Option<String>,
    pub is_listening: Option<bool>,
    pub is_speaking: Option<bool>,
    pub wake_word_detected: Option<bool>,
}

/// A payload with every absent field replaced by its default.
pub struct NormalizedStatus {
    pub status: String,
    pub text: String,
    pub is_listening: bool,
    pub is_speaking: bool,
    pub wake_word_detected: bool,
}

/// The status reported when a payload carries none.
pub open spec fn default_status() -> Seq<char> {
    "Unknown"@
}

pub open spec fn text_or_default(o: Option<String>, d: Seq<char>) -> Seq<char> {
    match o {
        Some(s) => s@,
        None => d,
    }
}

pub open spec fn flag_or_default(o: Option<bool>) -> bool {
    match o {
        Some(b) => b,
        None => false,
    }
}

/// `n` is what `a` normalises to.
pub open spec fn normalizes_to(a: AssistantStatus, n: NormalizedStatus) -> bool {
    &&& n.status@ == text_or_default(a.status, default_status())
    &&& n.text@ == text_or_default(a.text, Seq::empty())
    &&& n.is_listening == flag_or_default(a.is_listening)
    &&& n.is_speaking == flag_or_default(a.is_speaking)
    &&& n.wake_word_detected == flag_or_default(a.wake_word_detected)
}

impl AssistantStatus {
    /// A payload that carries no field at all.
    pub fn empty() -> (r: AssistantStatus)
        ensures
            r.status is None,
            r.text is None,
            r.is_listening is None,
            r.is_speaking is None,
            r.wake_word_detected is None,
    {
        AssistantStatus {
            status: None,
            text: None,
            is_listening: None,
            is_speaking: None,
            wake_word_detected: None,
        }
    }
}

fn string_or(o: &Option<String>, d: &str) -> (r: String)
    ensures
        r@ == match o {
            Some(s) => s@,
            None => d@,
        },
{
    match o {
        Some(s) => s.clone(),
        None => d.to_string(),
    }
}

fn flag_or_false(o: Option<bool>) -> (r: bool)
    ensures
        r == flag_or_default(o),
{
    match o {
        Some(b) => b,
        None => false,
    }
}

/// Fills every absent field with its default: status "Unknown", empty text,
/// and false for each flag.
pub fn normalize(a: &AssistantStatus) -> (r: NormalizedStatus)
    ensures
        normalizes_to(*a, r),
{
    proof {
        reveal_strlit("");
        assert(""@ =~= Seq::<char>::empty());
    }
    NormalizedStatus {
        status: string_or(&a.status, "Unknown"),
        text: string_or(&a.text, ""),
        is_listening: flag_or_false(a.is_listening),
        is_speaking: flag_or_false(a.is_speaking),
        wake_word_detected: flag_or_false(a.wake_word_detected),
    }
}

#[verifier::external_type_specification]
#[verifier::external_body]
pub struct ExJsonValue(serde_json::Value);

#[verifier::external_type_specification]
#[verifier::external_body]
pub struct ExJsonError(serde_json::Error);

/// Whether serde_json accepts the bytes as one JSON document.
pub uninterp spec fn json_accepts(b: Seq<u8>) -> bool;

/// Relies on serde_json::from_slice into a `Value`: it succeeds exactly when
/// the bytes hold one well-formed JSON document, a property of the bytes alone.
#[verifier::external_body]
fn parse_json(b: &[u8]) -> (r: Result<serde_json::Value, serde_json::Error>)
    ensures
        r is Ok <==> json_accepts(b@),
{
    serde_json::from_slice::<serde_json::Value>(b)
}

/// The text of the string member `key` of the JSON document in `b`, if the
/// bytes hold a JSON object with such a member.
pub uninterp spec fn json_text_member(b: Seq<u8>, key: Seq<char>) -> Option<Seq<char>>;

/// The value of the boolean member `key` of the JSON document in `b`, if the
/// bytes hold a JSON object with such a member.
pub uninterp spec fn json_flag_member(b: Seq<u8>, key: Seq<char>) -> Option<bool>;

/// Relies on serde_json::from_slice, Value::get and Value::as_str: the
/// member's text depends on the bytes and the key alone.
#[verifier::external_body]
fn text_member(b: &[u8], key: &str) -> (r: Option<String>)
    ensures
        opt_view(r) == json_text_member(b@, key@),
{
    match serde_json::from_slice::<serde_json::Value>(b) {
        Ok(v) => v.get(key).and_then(serde_json::Value::as_str).map(String::from),
        Err(_) => None,
    }
}

/// Relies on serde_json::from_slice, Value::get and Value::as_bool: the
/// member's value depends on the bytes and the key alone.
#[verifier::external_body]
fn flag_member(b: &[u8], key: &str) -> (r: Option<bool>)
    ensures
        r == json_flag_member(b@, key@),
{
    match serde_json::from_slice::<serde_json::Value>(b) {
        Ok(v) => v.get(key).and_then(serde_json::Value::as_bool),
        Err(_) => None,
    }
}

pub open spec fn opt_view(o: Option<String>) -> Option<Seq<char>> {
    match o {
        Some(s) => Some(s@),
        None => None,
    }
}

pub open spec fn seq_or(o: Option<Seq<char>>, d: Seq<char>) -> Seq<char> {
    match o {
        Some(s) => s,
        None => d,
    }
}

/// `a` holds the known members of the JSON document in `b`; a member that
/// is missing or of another JSON type is absent.
pub open spec fn read_from(b: Seq<u8>, a: AssistantStatus) -> bool {
    &&& opt_view(a.status) == json_text_member(b, "status"@)
    &&& opt_view(a.text) == json_text_member(b, "text"@)
    &&& a.is_listening == json_flag_member(b, "is_listening"@)
    &&& a.is_speaking == json_flag_member(b, "is_speaking"@)
    &&& a.wake_word_detected == json_flag_member(b, "wake_word_detected"@)
}

/// `n` is the normalised form of the payload in `b`.
pub open spec fn decodes_to(b: Seq<u8>, n: NormalizedStatus) -> bool {
    &&& n.status@ == seq_or(json_text_member(b, "status"@), default_status())
    &&& n.text@ == seq_or(json_text_member(b, "text"@), Seq::empty())
    &&& n.is_listening == flag_or_default(json_flag_member(b, "is_listening"@))
    &&& n.is_speaking == flag_or_default(json_flag_member(b, "is_speaking"@))
    &&& n.wake_word_detected == flag_or_default(json_flag_member(b, "wake_word_detected"@))
}

/// Whether the bytes hold one JSON document.
pub fn accepts_json(b: &[u8]) -> (r: bool)
    ensures
        r == json_accepts(b@),
{
    parse_json(b).is_ok()
}

/// Decodes a payload; `None` when the bytes are not a JSON document.
pub fn decode_status(b: &[u8]) -> (r: Option<AssistantStatus>)
    ensures
        r is Some <==> json_accepts(b@),
        r matches Some(a) ==> read_from(b@, a),
{
    match parse_json(b) {
        Ok(_) => Some(
            AssistantStatus {
                status: text_member(b, "status"),
                text: text_member(b, "text"),
                is_listening: flag_member(b, "is_listening"),
                is_speaking: flag_member(b, "is_speaking"),
                wake_word_detected: flag_member(b, "wake_word_detected"),
            },
        ),
        Err(_) => None,
    }
}

/// Normalising what was read from `b` gives the normalised form of `b`.
pub proof fn lemma_read_then_normalize(b: Seq<u8>, a: AssistantStatus, n: NormalizedStatus)
    requires
        read_from(b, a),
        normalizes_to(a, n),
    ensures
        decodes_to(b, n),
{
}

/// A payload without any field normalises to status "Unknown", empty text
/// and every flag false.
pub proof fn lemma_absent_fields_take_defaults(a: AssistantStatus, n: NormalizedStatus)
    requires
        a.status is None,
        a.text is None,
        a.is_listening is None,
        a.is_speaking is None,
        a.wake_word_detected is None,
        normalizes_to(a, n),
    ensures
        n.status@ == "Unknown"@,
        n.text@.len() == 0,
        !n.is_listening,
        !n.is_speaking,
        !n.wake_word_detected,
{
}

} // verus!
