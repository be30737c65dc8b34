//! Matching rules on output scripts: the payload of an OP_RETURN output, the
//! encoding of a pattern, and the comparison of a script with a known one.

use crate::hex_text::{
    ascii_lowercase, hex_decode, hex_decoding, hex_encode, hex_encoding, is_hex_text,
    lemma_decode_of_encode, lemma_encoding_is_lowercase, to_ascii_lowercase,
};
use crate::types::{bytes_of, bytes_view, text_bytes, MatchingRule, TxOut};
use vstd::prelude::*;
use vstd::slice::slice_subrange;

verus! {

/// The opcode that opens a data-carrying output.
pub const OP_RETURN: u8 = 0x6a;

/// Whether `text` begins with the two characters `0x`.
pub open spec fn has_0x_prefix(text: Seq<u8>) -> bool {
    text.len() >= 2 && text[0] == 48 && text[1] == 120
}

/// `text` without a leading `0x`, if it has one.
pub open spec fn strip_0x(text: Seq<u8>) -> Seq<u8> {
    if has_0x_prefix(text) {
        text.skip(2)
    } else {
        text
    }
}

/// The data of an OP_RETURN output in lowercase hexadecimal: the script
/// without the opcode and the length byte that follows it. `None` where the
/// script is no hexadecimal text, is shorter than these two bytes, or opens
/// with another opcode.
pub open spec fn op_return_payload(script_pubkey: Seq<u8>) -> Option<Seq<u8>> {
    let body = strip_0x(script_pubkey);
    let raw = hex_decoding(body);
    if is_hex_text(body) && raw.len() >= 2 && raw[0] == OP_RETURN {
        Some(hex_encoding(raw.skip(2)))
    } else {
        None
    }
}

/// A pattern in lowercase hexadecimal: behind `0x` it is hexadecimal already
/// and is lowercased; any other pattern is spelled out byte by byte.
pub open spec fn encoded_pattern(pattern: Seq<u8>) -> Seq<u8> {
    if has_0x_prefix(pattern) {
        ascii_lowercase(pattern.skip(2))
    } else {
        hex_encoding(pattern)
    }
}

/// Whether `text` begins with `prefix`.
pub open spec fn starts_with(text: Seq<u8>, prefix: Seq<u8>) -> bool {
    prefix.len() <= text.len() && text.take(prefix.len() as int) == prefix
}

/// Whether `text` ends with `suffix`.
pub open spec fn ends_with(text: Seq<u8>, suffix: Seq<u8>) -> bool {
    suffix.len() <= text.len() && text.skip(text.len() - suffix.len()) == suffix
}

/// Whether a rule accepts a payload given in lowercase hexadecimal.
pub open spec fn rule_accepts(rule: MatchingRule, payload: Seq<u8>) -> bool {
    match rule {
        MatchingRule::Equals(pattern) => payload == encoded_pattern(text_bytes(pattern@)),
        MatchingRule::StartsWith(pattern) => starts_with(
            payload,
            encoded_pattern(text_bytes(pattern@)),
        ),
        MatchingRule::EndsWith(pattern) => ends_with(
            payload,
            encoded_pattern(text_bytes(pattern@)),
        ),
    }
}

/// Whether an output's `script_pubkey`, behind its two-character prefix, is
/// the given script in hexadecimal.
pub open spec fn script_is(script_pubkey: Seq<u8>, script_hex: Seq<u8>) -> bool {
    script_pubkey.len() >= 2 && script_pubkey.skip(2) == script_hex
}

/// Whether some output carries an OP_RETURN payload that the rule accepts.
pub open spec fn outputs_carry(outputs: Seq<TxOut>, rule: MatchingRule) -> bool {
    exists|i: int|
        0 <= i < outputs.len() && output_carries(#[trigger] outputs[i], rule)
}

/// Whether one output carries an OP_RETURN payload that the rule accepts.
pub open spec fn output_carries(output: TxOut, rule: MatchingRule) -> bool {
    let payload = op_return_payload(text_bytes(output.script_pubkey@));
    payload is Some && rule_accepts(rule, payload->0)
}

/// Whether some output pays to the given script.
pub open spec fn outputs_pay_to(outputs: Seq<TxOut>, script_hex: Seq<u8>) -> bool {
    exists|i: int|
        0 <= i < outputs.len() && output_pays_to(#[trigger] outputs[i], script_hex)
}

/// Whether one output pays to the given script.
pub open spec fn output_pays_to(output: TxOut, script_hex: Seq<u8>) -> bool {
    script_is(text_bytes(output.script_pubkey@), script_hex)
}

/// Compares two byte strings.
pub fn bytes_equal(a: &[u8], b: &[u8]) -> (same: bool)
    ensures
        same == (a@ == b@),
{
    if a.len() != b.len() {
        return false;
    }
    let mut i: usize = 0;
    while i < a.len()
        invariant
            i <= a.len(),
            a.len() == b.len(),
            forall|j: int| 0 <= j < i ==> a@[j] == b@[j],
        decreases a.len() - i,
    {
        if a[i] != b[i] {
            return false;
        }
        i += 1;
    }
    assert(a@ =~= b@);
    true
}

/// Tells whether `text` begins with `prefix`.
pub fn bytes_start_with(text: &[u8], prefix: &[u8]) -> (found: bool)
    ensures
        found == starts_with(text@, prefix@),
{
    if prefix.len() > text.len() {
        return false;
    }
    let head = slice_subrange(text, 0, prefix.len());
    assert(head@ =~= text@.take(prefix@.len() as int));
    bytes_equal(head, prefix)
}

/// Tells whether `text` ends with `suffix`.
pub fn bytes_end_with(text: &[u8], suffix: &[u8]) -> (found: bool)
    ensures
        found == ends_with(text@, suffix@),
{
    if suffix.len() > text.len() {
        return false;
    }
    let tail = slice_subrange(text, text.len() - suffix.len(), text.len());
    assert(tail@ =~= text@.skip(text@.len() - suffix@.len()));
    bytes_equal(tail, suffix)
}

/// Removes a leading `0x`.
pub fn without_0x(text: &[u8]) -> (rest: &[u8])
    ensures
        rest@ == strip_0x(text@),
{
    if text.len() >= 2 && text[0] == 48 && text[1] == 120 {
        let rest = slice_subrange(text, 2, text.len());
        assert(rest@ =~= text@.skip(2));
        rest
    } else {
        text
    }
}

/// Extracts the data of an OP_RETURN output in lowercase hexadecimal.
pub fn op_return_data(script_pubkey: &[u8]) -> (payload: Option<Vec<u8>>)
    ensures
        bytes_view(payload) == op_return_payload(script_pubkey@),
{
    let body = without_0x(script_pubkey);
    match hex_decode(body) {
        Some(raw) => {
            if raw.len() >= 2 && raw[0] == OP_RETURN {
                let data = slice_subrange(raw.as_slice(), 2, raw.len());
                assert(data@ =~= raw@.skip(2));
                Some(hex_encode(data))
            } else {
                None
            }
        },
        None => None,
    }
}

/// Brings a pattern into lowercase hexadecimal.
pub fn encode_pattern(pattern: &[u8]) -> (encoded: Vec<u8>)
    ensures
        encoded@ == encoded_pattern(pattern@),
{
    if pattern.len() >= 2 && pattern[0] == 48 && pattern[1] == 120 {
        let rest = slice_subrange(pattern, 2, pattern.len());
        assert(rest@ =~= pattern@.skip(2));
        to_ascii_lowercase(rest)
    } else {
        hex_encode(pattern)
    }
}

/// Applies a rule to a payload given in lowercase hexadecimal.
pub fn matching_rule_accepts(rule: &MatchingRule, payload: &[u8]) -> (accepted: bool)
    ensures
        accepted == rule_accepts(*rule, payload@),
{
    match rule {
        MatchingRule::Equals(pattern) => {
            let encoded = encode_pattern(bytes_of(pattern));
            bytes_equal(payload, encoded.as_slice())
        },
        MatchingRule::StartsWith(pattern) => {
            let encoded = encode_pattern(bytes_of(pattern));
            bytes_start_with(payload, encoded.as_slice())
        },
        MatchingRule::EndsWith(pattern) => {
            let encoded = encode_pattern(bytes_of(pattern));
            bytes_end_with(payload, encoded.as_slice())
        },
    }
}

/// Looks for an output whose OP_RETURN payload the rule accepts.
pub fn any_output_carries(outputs: &Vec<TxOut>, rule: &MatchingRule) -> (found: bool)
    ensures
        found == outputs_carry(outputs@, *rule),
{
    let mut i: usize = 0;
    while i < outputs.len()
        invariant
            i <= outputs.len(),
            forall|j: int| 0 <= j < i ==> !output_carries(#[trigger] outputs@[j], *rule),
        decreases outputs.len() - i,
    {
        match op_return_data(bytes_of(&outputs[i].script_pubkey)) {
            Some(payload) => {
                if matching_rule_accepts(rule, payload.as_slice()) {
                    assert(output_carries(outputs@[i as int], *rule));
                    return true;
                }
            },
            None => {},
        }
        i += 1;
    }
    false
}

/// Looks for an output that pays to the given script.
pub fn any_output_pays_to(outputs: &Vec<TxOut>, script_hex: &[u8]) -> (found: bool)
    ensures
        found == outputs_pay_to(outputs@, script_hex@),
{
    let mut i: usize = 0;
    while i < outputs.len()
        invariant
            i <= outputs.len(),
            forall|j: int| 0 <= j < i ==> !output_pays_to(#[trigger] outputs@[j], script_hex@),
        decreases outputs.len() - i,
    {
        let script = bytes_of(&outputs[i].script_pubkey);
        if script.len() >= 2 {
            let rest = slice_subrange(script, 2, script.len());
            assert(rest@ =~= script@.skip(2));
            if bytes_equal(rest, script_hex) {
                assert(output_pays_to(outputs@[i as int], script_hex@));
                return true;
            }
        }
        i += 1;
    }
    false
}


/// Whether a pattern spells the given data: as the data itself, where
/// that does not begin with `0x`, or as `0x` and the data in hexadecimal, in
/// any letter case.
pub open spec fn pattern_spells(pattern: Seq<u8>, data: Seq<u8>) -> bool {
    ||| pattern == data && !has_0x_prefix(pattern)
    ||| has_0x_prefix(pattern) && ascii_lowercase(pattern.skip(2)) == hex_encoding(data)
}

/// An output that carries exactly the data that a pattern spells is accepted
/// by the rule that asks for that pattern, whether the pattern is written
/// behind `0x` or not and in whatever letter case.
pub proof fn lemma_op_return_round_trip(output: TxOut, length: u8, data: Seq<u8>, pattern: String)
    requires
        is_hex_text(strip_0x(text_bytes(output.script_pubkey@))),
        hex_decoding(strip_0x(text_bytes(output.script_pubkey@))) == seq![OP_RETURN, length] + data,
        pattern_spells(text_bytes(pattern@), data),
    ensures
        op_return_payload(text_bytes(output.script_pubkey@)) == Some(hex_encoding(data)),
        encoded_pattern(text_bytes(pattern@)) == hex_encoding(data),
        output_carries(output, MatchingRule::Equals(pattern)),
{
    let raw = seq![OP_RETURN, length] + data;
    assert(raw.skip(2) =~= data);
    assert(raw[0] == OP_RETURN);
}

/// Every byte string has an output script that carries it, and a pattern
/// behind `0x` that spells it: the script is the opcode, a length byte and
/// the data, in hexadecimal behind `0x`; the pattern is the data in
/// hexadecimal behind `0x`.
pub proof fn lemma_op_return_script(length: u8, data: Seq<u8>)
    ensures
        ({
            let script = seq![48u8, 120u8] + hex_encoding(seq![OP_RETURN, length] + data);
            &&& is_hex_text(strip_0x(script))
            &&& hex_decoding(strip_0x(script)) == seq![OP_RETURN, length] + data
            &&& op_return_payload(script) == Some(hex_encoding(data))
        }),
        pattern_spells(seq![48u8, 120u8] + hex_encoding(data), data),
{
    let raw = seq![OP_RETURN, length] + data;
    let script = seq![48u8, 120u8] + hex_encoding(raw);
    assert(script.skip(2) =~= hex_encoding(raw));
    lemma_decode_of_encode(raw);
    assert(raw.skip(2) =~= data);
    let pattern = seq![48u8, 120u8] + hex_encoding(data);
    assert(pattern.skip(2) =~= hex_encoding(data));
    lemma_encoding_is_lowercase(data);
}

} // verus!
