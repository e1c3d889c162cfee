//! CBOR payloads that the binding hands back to its callers.

use vstd::prelude::*;
use vstd::utf8::*;
use vstd::string::*;
use crate::text::opt_bytes;

verus! {

/// A CBOR encoding error, as serde_cbor reports it.
#[verifier::external_type_specification]
#[verifier::external_body]
pub struct ExCborError(serde_cbor::Error);

/// `n` written as `width` big-endian bytes (the low `width` bytes of `n`).
pub open spec fn be_bytes(n: nat, width: nat) -> Seq<u8>
    decreases width,
{
    if width == 0 {
        seq![]
    } else {
        be_bytes(n / 256, (width - 1) as nat).push((n % 256) as u8)
    }
}

/// The shortest CBOR head (RFC 8949, section 3) of major type `major` with argument `n`.
pub open spec fn cbor_head(major: u8, n: nat) -> Seq<u8> {
    let m: int = major * 32;
    if n <= 23 {
        seq![(m + n) as u8]
    } else if n <= 0xff {
        seq![(m + 24) as u8] + be_bytes(n, 1)
    } else if n <= 0xffff {
        seq![(m + 25) as u8] + be_bytes(n, 2)
    } else if n <= 0xffff_ffff {
        seq![(m + 26) as u8] + be_bytes(n, 4)
    } else {
        seq![(m + 27) as u8] + be_bytes(n, 8)
    }
}

/// A CBOR text string: its head, then its UTF-8 bytes.
pub open spec fn cbor_text(s: Seq<char>) -> Seq<u8> {
    cbor_head(3, encode_utf8(s).len()) + encode_utf8(s)
}

/// A CBOR map with the single entry `key => value`, both text strings.
pub open spec fn cbor_text_entry_map(key: Seq<char>, value: Seq<char>) -> Seq<u8> {
    cbor_head(5, 1) + cbor_text(key) + cbor_text(value)
}

/// The error envelope `{ "error": msg }` in CBOR.
pub open spec fn error_payload(msg: Seq<char>) -> Seq<u8> {
    cbor_text_entry_map("error"@, msg)
}

proof fn lemma_be_bytes_len(n: nat, width: nat)
    ensures
        be_bytes(n, width).len() == width,
    decreases width,
{
    if width > 0 {
        lemma_be_bytes_len(n / 256, (width - 1) as nat);
    }
}

/// The additional information (low five bits of the first byte) of the shortest head for `n`.
spec fn head_info(n: nat) -> int {
    if n <= 23 {
        n as int
    } else if n <= 0xff {
        24
    } else if n <= 0xffff {
        25
    } else if n <= 0xffff_ffff {
        26
    } else {
        27
    }
}

/// The length of a head whose additional information is `info`.
spec fn head_len_of_info(info: int) -> int {
    if info <= 23 {
        1
    } else if info == 24 {
        2
    } else if info == 25 {
        3
    } else if info == 26 {
        5
    } else {
        9
    }
}

proof fn lemma_text_head_shape(n: nat)
    ensures
        cbor_head(3, n).len() == head_len_of_info(head_info(n)),
        cbor_head(3, n)[0] == 96 + head_info(n),
{
    lemma_be_bytes_len(n, 1);
    lemma_be_bytes_len(n, 2);
    lemma_be_bytes_len(n, 4);
    lemma_be_bytes_len(n, 8);
}

/// A CBOR text string gives back the characters it was made from.
pub proof fn lemma_cbor_text_injective(s1: Seq<char>, s2: Seq<char>)
    requires
        cbor_text(s1) == cbor_text(s2),
    ensures
        s1 == s2,
{
    let e1 = encode_utf8(s1);
    let e2 = encode_utf8(s2);
    let h1 = cbor_head(3, e1.len());
    let h2 = cbor_head(3, e2.len());
    lemma_text_head_shape(e1.len());
    lemma_text_head_shape(e2.len());
    assert(cbor_text(s1)[0] == h1[0]);
    assert(cbor_text(s2)[0] == h2[0]);
    assert(head_info(e1.len()) == head_info(e2.len()));
    assert(h1.len() == h2.len());
    assert(e1.len() == e2.len());
    assert(e1 =~= cbor_text(s1).skip(h1.len() as int));
    assert(e2 =~= cbor_text(s2).skip(h2.len() as int));
    encode_utf8_decode_utf8(s1);
    encode_utf8_decode_utf8(s2);
}

/// Distinct messages give distinct error replies: the message can always be
/// read back from the reply.
pub proof fn lemma_error_payload_injective(m1: Seq<char>, m2: Seq<char>)
    requires
        error_payload(m1) == error_payload(m2),
    ensures
        m1 == m2,
{
    let prefix = cbor_head(5, 1) + cbor_text("error"@);
    assert(error_payload(m1) =~= prefix + cbor_text(m1));
    assert(error_payload(m2) =~= prefix + cbor_text(m2));
    assert(cbor_text(m1) =~= error_payload(m1).skip(prefix.len() as int));
    assert(cbor_text(m2) =~= error_payload(m2).skip(prefix.len() as int));
    lemma_cbor_text_injective(m1, m2);
}

/// The first bytes of every error envelope: a map of one entry (`0xa1`) whose
/// key is the five-letter text `"error"`.
pub open spec fn error_envelope_prefix() -> Seq<u8> {
    seq![0xa1u8, 0x65u8, 0x65u8, 0x72u8, 0x72u8, 0x6fu8, 0x72u8]
}

/// An error envelope is the map header and the key `"error"`, then the length
/// of the message's UTF-8 bytes in the shortest head, then exactly those bytes.
pub proof fn law_error_payload_layout(msg: Seq<char>)
    ensures
        ({
            let m = encode_utf8(msg);
            let n = m.len();
            &&& n <= 23 ==> error_payload(msg) == error_envelope_prefix() + seq![(0x60 + n) as u8]
                + m
            &&& 24 <= n <= 0xff ==> error_payload(msg) == error_envelope_prefix() + seq![
                0x78u8,
                n as u8,
            ] + m
            &&& 0x100 <= n <= 0xffff ==> error_payload(msg) == error_envelope_prefix() + seq![
                0x79u8,
                (n / 256) as u8,
                (n % 256) as u8,
            ] + m
            &&& error_payload(msg).take(7) == error_envelope_prefix()
            &&& error_payload(msg).skip(error_payload(msg).len() - n) == m
        }),
{
    reveal_strlit("error");
    is_ascii_chars_encode_utf8("error"@);
    reveal_with_fuel(be_bytes, 3);
    let m = encode_utf8(msg);
    let n = m.len();
    let key = cbor_text("error"@);
    assert(encode_utf8("error"@) =~= seq![0x65u8, 0x72u8, 0x72u8, 0x6fu8, 0x72u8]);
    assert(cbor_head(5, 1) + key =~= error_envelope_prefix());
    let h = cbor_head(3, n);
    assert(error_payload(msg) =~= error_envelope_prefix() + h + m);
    if 24 <= n <= 0xff {
        assert(be_bytes(n, 1) =~= seq![n as u8]);
    }
    if 0x100 <= n <= 0xffff {
        assert(be_bytes(n, 2) =~= seq![(n / 256) as u8, (n % 256) as u8]);
    }
    assert(error_payload(msg).take(7) =~= error_envelope_prefix());
    assert(error_payload(msg).skip(error_payload(msg).len() - n) =~= m);
}

/// Calls `serde_cbor::to_vec` on the JSON object `{ key: value }`.
///
/// Claimed of the outside code: serde_json serialises an object as a map of
/// known length (`serialize_map(Some(len))`) followed by its entries;
/// serde_cbor writes each length in its shortest head and each string as its
/// UTF-8 bytes, and writing into a `Vec` never fails.
#[verifier::external_body]
fn cbor_encode_text_entry(key: &str, value: &str) -> (res: Result<Vec<u8>, serde_cbor::Error>)
    ensures
        res is Ok,
        res matches Ok(bytes) ==> bytes@ == cbor_text_entry_map(key@, value@),
{
    let mut object = serde_json::Map::new();
    object.insert(key.to_string(), serde_json::Value::String(value.to_string()));
    serde_cbor::to_vec(&serde_json::Value::Object(object))
}

/// The error reply: `msg` wrapped as the CBOR map `{ "error": msg }`.
pub fn err_bytes(msg: &str) -> (bytes: Vec<u8>)
    ensures
        bytes@ == error_payload(msg@),
        bytes@.take(7) == error_envelope_prefix(),
        bytes@.skip(bytes@.len() - encode_utf8(msg@).len()) == encode_utf8(msg@),
        encode_utf8(msg@).len() <= 23 ==> bytes@ == error_envelope_prefix() + seq![
            (0x60 + encode_utf8(msg@).len()) as u8,
        ] + encode_utf8(msg@),
{
    proof {
        law_error_payload_layout(msg@);
    }
    match cbor_encode_text_entry("error", msg) {
        Ok(bytes) => bytes,
        Err(_) => Vec::new(),
    }
}

/// The reply for a value that was serialised to CBOR: the bytes themselves,
/// or, where serialisation failed with message `m`, the error envelope of
/// `"CBOR encode error: " + m`.
pub fn ok_cbor(encoded: Result<Vec<u8>, String>) -> (bytes: Vec<u8>)
    ensures
        bytes@ == match encoded {
            Ok(b) => b@,
            Err(m) => error_payload("CBOR encode error: "@ + m@),
        },
{
    match encoded {
        Ok(b) => b,
        Err(m) => {
            let mut msg = String::from_str("CBOR encode error: ");
            msg.append(m.as_str());
            err_bytes(msg.as_str())
        },
    }
}

/// A JSON value, as serde_json represents it.
#[verifier::external_type_specification]
#[verifier::external_body]
pub struct ExJsonValue(serde_json::Value);

/// What `serde_cbor::from_slice::<serde_json::Value>` returns for `bytes`:
/// the decoded value, or the `Display` text of its error.
pub uninterp spec fn cbor_json_decode(bytes: Seq<u8>) -> Result<serde_json::Value, Seq<char>>;

/// Calls `serde_cbor::from_slice::<serde_json::Value>`, turning the error into
/// its `Display` text.
///
/// Claimed of the outside code: the call is a function of the bytes alone,
/// both the value it decodes and the error text where it fails.
#[verifier::external_body]
fn cbor_to_json_value(bytes: &[u8]) -> (res: Result<serde_json::Value, String>)
    ensures
        res is Ok <==> cbor_json_decode(bytes@) is Ok,
        res matches Ok(v) ==> cbor_json_decode(bytes@)->Ok_0 == v,
        res matches Err(t) ==> cbor_json_decode(bytes@)->Err_0 == t@,
{
    match serde_cbor::from_slice::<serde_json::Value>(bytes) {
        Ok(v) => Ok(v),
        Err(e) => Err(e.to_string()),
    }
}

/// What decoding the query variables yields: `Ok(None)` where there are none
/// (a null pointer or an empty buffer), `Ok(Some(v))` with the value decoded
/// from the bytes, and the error message otherwise.
pub open spec fn vars_outcome(vars: Option<Seq<u8>>) -> Result<
    Option<serde_json::Value>,
    Seq<char>,
> {
    match vars {
        None => Ok(None),
        Some(bytes) => if bytes.len() == 0 {
            Ok(None)
        } else {
            match cbor_json_decode(bytes) {
                Ok(v) => Ok(Some(v)),
                Err(t) => Err("vars CBOR decode error: "@ + t),
            }
        },
    }
}

/// Decoding the variables gives no value only for a null pointer or an empty
/// buffer, whatever the buffer's length; for a non-empty buffer it gives
/// exactly the value serde_cbor decodes from those bytes, or an error where
/// serde_cbor fails.
pub proof fn law_vars_are_the_decoded_value(vars: Option<Seq<u8>>)
    ensures
        vars_outcome(vars) == Ok::<Option<serde_json::Value>, Seq<char>>(None) <==> (vars is None
            || vars->Some_0.len() == 0),
        vars matches Some(b) ==> (b.len() > 0 ==> (vars_outcome(vars) is Ok <==> cbor_json_decode(
            b,
        ) is Ok)),
        vars matches Some(b) ==> (b.len() > 0 && cbor_json_decode(b) is Ok ==> vars_outcome(vars)
            == Ok::<Option<serde_json::Value>, Seq<char>>(Some(cbor_json_decode(b)->Ok_0))),
{
}

/// Turns the outcome of decoding the query variables into the value to bind,
/// or the message `"vars CBOR decode error: "` followed by the decoder's text.
pub fn vars_from_decoded(decoded: Result<serde_json::Value, String>) -> (res: Result<
    Option<serde_json::Value>,
    String,
>)
    ensures
        match decoded {
            Ok(v) => res == Ok::<Option<serde_json::Value>, String>(Some(v)),
            Err(t) => res matches Err(m) && m@ == "vars CBOR decode error: "@ + t@,
        },
{
    match decoded {
        Ok(v) => Ok(Some(v)),
        Err(t) => {
            let mut msg = String::from_str("vars CBOR decode error: ");
            msg.append(t.as_str());
            Err(msg)
        },
    }
}

/// Decodes the CBOR query variables. `None` stands for a null pointer; a null
/// pointer or an empty buffer means that there are no variables.
pub fn decode_vars(vars: Option<&[u8]>) -> (res: Result<Option<serde_json::Value>, String>)
    ensures
        match res {
            Ok(v) => vars_outcome(opt_bytes(vars)) == Ok::<Option<serde_json::Value>, Seq<char>>(v),
            Err(m) => vars_outcome(opt_bytes(vars)) == Err::<Option<serde_json::Value>, Seq<char>>(
                m@,
            ),
        },
        res matches Ok(None) ==> (vars is None || vars->Some_0@.len() == 0),
        vars matches Some(b) ==> (b@.len() > 0 ==> (res is Ok <==> cbor_json_decode(b@) is Ok)),
        vars matches Some(b) ==> (b@.len() > 0 && cbor_json_decode(b@) is Ok ==> res == Ok::<
            Option<serde_json::Value>,
            String,
        >(Some(cbor_json_decode(b@)->Ok_0))),
{
    match vars {
        None => Ok(None),
        Some(bytes) => {
            if bytes.len() == 0 {
                Ok(None)
            } else {
                vars_from_decoded(cbor_to_json_value(bytes))
            }
        },
    }
}

} // verus!
