use vstd::prelude::*;

use vstd::string::StrSliceExecFns;
use vstd::utf8::encode_utf8;

verus! {

/// How the payload of a routed message is rewritten before it is republished.
/// The rule set is closed: exactly these five behaviours exist.
pub enum TransformRule {
    /// Forward the payload unchanged.
    CopyAsIs,
    /// Replace the payload with the empty payload.
    Omit,
    /// Decode the payload as text, lower-case it, and invert a boolean-like
    /// token; anything unrecognized degrades to the empty payload.
    InvertBoolean,
    /// Replace the payload with the bytes of a configured literal string.
    LiteralText(String),
    /// Replace the payload with a configured literal byte sequence.
    LiteralBytes(Vec<u8>),
}

/// What `String::from_utf8_lossy` decodes a byte sequence to. The decoding is
/// a function of the bytes alone.
pub uninterp spec fn lossy_decoded(bytes: Seq<u8>) -> Seq<char>;

/// What `str::to_lowercase` maps a character sequence to. The case folding is
/// a function of the characters alone.
pub uninterp spec fn lowercased(text: Seq<char>) -> Seq<char>;

/// Relies on `String::from_utf8_lossy`: the decoding depends on the bytes
/// alone; invalid sequences are replaced, never rejected.
#[verifier::external_body]
fn lossy_decode(bytes: &Vec<u8>) -> (r: String)
    ensures
        r@ == lossy_decoded(bytes@),
{
    String::from_utf8_lossy(bytes).into_owned()
}

/// Relies on `str::to_lowercase`: the case folding depends on the characters
/// alone.
#[verifier::external_body]
fn lowercase(text: &String) -> (r: String)
    ensures
        r@ == lowercased(text@),
{
    text.to_lowercase()
}

/// The inversion applied to an already decoded and lower-cased boolean-like
/// token: the two false-like tokens invert to `true`, the two true-like
/// tokens to `false`, and everything else to the empty payload.
pub open spec fn inverted_token(token: Seq<char>) -> Seq<u8> {
    if token == "false"@ || token == "0"@ {
        encode_utf8("true"@)
    } else if token == "true"@ || token == "1"@ {
        encode_utf8("false"@)
    } else {
        Seq::<u8>::empty()
    }
}

/// What `transform` returns for a given raw payload and rule.
pub open spec fn transform_spec(raw: Seq<u8>, rule: TransformRule) -> Seq<u8> {
    match rule {
        TransformRule::CopyAsIs => raw,
        TransformRule::Omit => Seq::<u8>::empty(),
        TransformRule::InvertBoolean => inverted_token(lowercased(lossy_decoded(raw))),
        TransformRule::LiteralText(text) => encode_utf8(text@),
        TransformRule::LiteralBytes(bytes) => bytes@,
    }
}

/// Inverts a decoded, lower-cased boolean-like token, exactly as
/// `inverted_token` states.
pub fn invert_boolean_token(token: &String) -> (out: Vec<u8>)
    ensures
        out@ == inverted_token(token@),
{
    let false_token: String = "false".to_owned();
    let zero_token: String = "0".to_owned();
    let true_token: String = "true".to_owned();
    let one_token: String = "1".to_owned();
    if token.eq(&false_token) || token.eq(&zero_token) {
        "true".as_bytes_vec()
    } else if token.eq(&true_token) || token.eq(&one_token) {
        "false".as_bytes_vec()
    } else {
        Vec::new()
    }
}

/// Rewrites a raw payload according to a transform rule. Total over all byte
/// inputs: no rule ever fails, and unrecognized boolean-like tokens degrade
/// to the empty payload.
pub fn transform(raw: Vec<u8>, rule: &TransformRule) -> (out: Vec<u8>)
    ensures
        out@ == transform_spec(raw@, *rule),
{
    match rule {
        TransformRule::CopyAsIs => raw,
        TransformRule::Omit => Vec::new(),
        TransformRule::InvertBoolean => {
            let decoded = lossy_decode(&raw);
            let lowered = lowercase(&decoded);
            invert_boolean_token(&lowered)
        },
        TransformRule::LiteralText(text) => text.as_str().as_bytes_vec(),
        TransformRule::LiteralBytes(bytes) => vstd::slice::slice_to_vec(bytes.as_slice()),
    }
}

/// The omit rule yields the empty payload, whatever the input.
pub proof fn lemma_transform_omit(raw: Seq<u8>)
    ensures
        transform_spec(raw, TransformRule::Omit) == Seq::<u8>::empty(),
{
}

/// The copy rule returns every input unchanged.
pub proof fn lemma_transform_copy(raw: Seq<u8>)
    ensures
        transform_spec(raw, TransformRule::CopyAsIs) == raw,
{
}

} // verus!
