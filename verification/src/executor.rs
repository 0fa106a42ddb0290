use vstd::prelude::*;

use vstd::string::StringExecFns;
use vstd::utf8::{decode_utf8, encode_utf8, valid_utf8};

use crate::errors::{BridgeError, ErrorModel};

verus! {

/// What one engine operation call yielded: the engine rejected the call with
/// a diagnostic, or it ran and left these bytes in the output sink.
pub enum CallOutcome {
    Rejected(String),
    Produced(Vec<u8>),
}

/// Relies on `String::from_utf8`: it returns the text decoded from the given
/// bytes exactly when they are valid UTF-8, and an error otherwise.
#[verifier::external_body]
fn decode_text(bytes: Vec<u8>) -> (r: Result<String, String>)
    ensures
        r matches Ok(s) ==> valid_utf8(bytes@) && s@ == decode_utf8(bytes@),
        r is Err ==> !valid_utf8(bytes@),
{
    match String::from_utf8(bytes) {
        Ok(s) => Ok(s),
        Err(e) => Err(e.to_string()),
    }
}

/// Encryption, raw form: the engine's armored output is handed through as
/// bytes unchanged; a rejected call carries the engine's diagnostic.
pub fn encrypt(call: CallOutcome) -> (r: Result<Vec<u8>, BridgeError>)
    ensures
        call matches CallOutcome::Produced(b) ==> r matches Ok(out) && out@ == b@,
        call matches CallOutcome::Rejected(d) ==> r matches Err(e) && e@
            == ErrorModel::OperationFailed(d@),
{
    match call {
        CallOutcome::Produced(b) => Ok(b),
        CallOutcome::Rejected(d) => Err(BridgeError::OperationFailed(d)),
    }
}

/// Drain an operation's output into text: the fully drained buffer decoded
/// where it is valid text, the decode failure where it is not — never a
/// partial or silently truncated result — and the engine's diagnostic where
/// the call itself was rejected.
fn collect_text(call: CallOutcome) -> (r: Result<String, BridgeError>)
    ensures
        call matches CallOutcome::Rejected(d) ==> r matches Err(e) && e@
            == ErrorModel::OperationFailed(d@),
        call matches CallOutcome::Produced(b) ==> (valid_utf8(b@) ==> (r matches Ok(s) && s@
            == decode_utf8(b@))),
        call matches CallOutcome::Produced(b) ==> (!valid_utf8(b@) ==> (r matches Err(e) && e@
            matches ErrorModel::DecodeFailed(_))),
{
    match call {
        CallOutcome::Rejected(d) => Err(BridgeError::OperationFailed(d)),
        CallOutcome::Produced(b) => match decode_text(b) {
            Ok(s) => Ok(s),
            Err(d) => Err(BridgeError::DecodeFailed(d)),
        },
    }
}

/// Encryption, text form: the engine's armored output decoded as text, with
/// the same translation of failures as decryption.
pub fn encrypt_text(call: CallOutcome) -> (r: Result<String, BridgeError>)
    ensures
        call matches CallOutcome::Rejected(d) ==> r matches Err(e) && e@
            == ErrorModel::OperationFailed(d@),
        call matches CallOutcome::Produced(b) ==> (valid_utf8(b@) ==> (r matches Ok(s) && s@
            == decode_utf8(b@))),
        call matches CallOutcome::Produced(b) ==> (!valid_utf8(b@) ==> (r matches Err(e) && e@
            matches ErrorModel::DecodeFailed(_))),
{
    collect_text(call)
}

/// Decryption: the engine locates the private key itself; the decrypted
/// output must validate as text, a non-text result being an error rather
/// than raw bytes.
pub fn decrypt(call: CallOutcome) -> (r: Result<String, BridgeError>)
    ensures
        call matches CallOutcome::Rejected(d) ==> r matches Err(e) && e@
            == ErrorModel::OperationFailed(d@),
        call matches CallOutcome::Produced(b) ==> (valid_utf8(b@) ==> (r matches Ok(s) && s@
            == decode_utf8(b@))),
        call matches CallOutcome::Produced(b) ==> (!valid_utf8(b@) ==> (r matches Err(e) && e@
            matches ErrorModel::DecodeFailed(_))),
{
    collect_text(call)
}

/// The decrypt side of the encrypt–decrypt round trip that this library
/// answers for: an output buffer holding exactly the UTF-8 encoding of a
/// text plaintext drains back to that plaintext unchanged.
pub proof fn lemma_text_round_trip(p: Seq<char>)
    ensures
        valid_utf8(encode_utf8(p)),
        decode_utf8(encode_utf8(p)) == p,
{
    broadcast use vstd::utf8::encode_utf8_valid_utf8;
    broadcast use vstd::utf8::encode_utf8_decode_utf8;

    assert(decode_utf8(encode_utf8(p)) =~= p);
}

/// What a key-import call yielded: the key material could not be loaded into
/// the engine's data buffer, the import call was rejected, or the engine
/// reports this many keys imported.
pub enum ImportOutcome {
    NotLoaded(String),
    Rejected(String),
    Imported(u64),
}

/// Key import: the engine-reported count of imported keys, rendered as
/// decimal text; either failure carries the engine's diagnostic.
pub fn import_key(outcome: ImportOutcome) -> (r: Result<String, BridgeError>)
    ensures
        outcome matches ImportOutcome::NotLoaded(d) ==> r matches Err(e) && e@
            == ErrorModel::OperationFailed(d@),
        outcome matches ImportOutcome::Rejected(d) ==> r matches Err(e) && e@
            == ErrorModel::OperationFailed(d@),
        outcome matches ImportOutcome::Imported(n) ==> r matches Ok(s) && s@ == dec_of(n as nat),
{
    match outcome {
        ImportOutcome::NotLoaded(d) => Err(BridgeError::OperationFailed(d)),
        ImportOutcome::Rejected(d) => Err(BridgeError::OperationFailed(d)),
        ImportOutcome::Imported(n) => Ok(decimal_string(n)),
    }
}

/// The character of one decimal digit.
pub open spec fn digit_char(d: nat) -> char {
    if d == 0 {
        '0'
    } else if d == 1 {
        '1'
    } else if d == 2 {
        '2'
    } else if d == 3 {
        '3'
    } else if d == 4 {
        '4'
    } else if d == 5 {
        '5'
    } else if d == 6 {
        '6'
    } else if d == 7 {
        '7'
    } else if d == 8 {
        '8'
    } else {
        '9'
    }
}

/// The decimal rendering of a number: its digits in order, without a sign
/// and without leading zeros (a single zero for the number zero).
pub open spec fn dec_of(n: nat) -> Seq<char>
    decreases n,
{
    if n < 10 {
        seq![digit_char(n)]
    } else {
        dec_of(n / 10).push(digit_char(n % 10))
    }
}

/// One decimal digit as text.
fn digit_str(d: u64) -> (r: &'static str)
    requires
        d < 10,
    ensures
        r@ == seq![digit_char(d as nat)],
{
    proof {
        reveal_strlit("0");
        reveal_strlit("1");
        reveal_strlit("2");
        reveal_strlit("3");
        reveal_strlit("4");
        reveal_strlit("5");
        reveal_strlit("6");
        reveal_strlit("7");
        reveal_strlit("8");
        reveal_strlit("9");
    }
    match d {
        0 => "0",
        1 => "1",
        2 => "2",
        3 => "3",
        4 => "4",
        5 => "5",
        6 => "6",
        7 => "7",
        8 => "8",
        _ => "9",
    }
}

/// Render a count as decimal text.
pub fn decimal_string(n: u64) -> (s: String)
    ensures
        s@ == dec_of(n as nat),
    decreases n,
{
    if n < 10 {
        String::from_str(digit_str(n))
    } else {
        let mut s = decimal_string(n / 10);
        s.append(digit_str(n % 10));
        proof {
            assert(s@ =~= dec_of((n / 10) as nat).push(digit_char((n % 10) as nat)));
        }
        s
    }
}

} // verus!
