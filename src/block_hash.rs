use vstd::prelude::*;
use bitcoincore_rpc::bitcoin::BlockHash;
use vstd::string::*;
use crate::response::GatewayError;

verus! {

/// The sixteen lower-case hexadecimal digits, by value.
pub open spec fn hex_digits() -> Seq<char> {
    seq!['0', '1', '2', '3', '4', '5', '6', '7', '8', '9', 'a', 'b', 'c', 'd', 'e', 'f']
}

pub open spec fn is_hex_char(c: char) -> bool {
    ('0' <= c && c <= '9') || ('a' <= c && c <= 'f') || ('A' <= c && c <= 'F')
}

/// The value of a hexadecimal digit of either case.
pub open spec fn hex_value(c: char) -> nat {
    if '0' <= c && c <= '9' {
        (c as u32 - '0' as u32) as nat
    } else if 'a' <= c && c <= 'f' {
        (c as u32 - 'a' as u32 + 10) as nat
    } else if 'A' <= c && c <= 'F' {
        (c as u32 - 'A' as u32 + 10) as nat
    } else {
        0
    }
}

/// A block hash as text: exactly 64 hexadecimal digits.
pub open spec fn is_hash_hex(s: Seq<char>) -> bool {
    s.len() == 64 && forall|i: int| 0 <= i < 64 ==> is_hex_char(#[trigger] s[i])
}

/// The canonical (internal) byte form of a block hash written in hex.
/// Block hashes are displayed with their bytes in reverse order, so the
/// last two digits give the first byte.
pub open spec fn hash_bytes_of_hex(s: Seq<char>) -> Seq<u8> {
    Seq::new(32, |i: int| (16 * hex_value(s[62 - 2 * i]) + hex_value(s[63 - 2 * i])) as u8)
}

/// The lower-case hex text of a block hash given by its 32 canonical bytes.
pub open spec fn hash_hex_of_bytes(b: Seq<u8>) -> Seq<char> {
    Seq::new(
        64,
        |j: int|
            if j % 2 == 0 {
                hex_digits()[(b[31 - j / 2] / 16) as int]
            } else {
                hex_digits()[(b[31 - j / 2] % 16) as int]
            },
    )
}

/// The same hex text with every letter digit in lower case.
pub open spec fn canonical_hex(s: Seq<char>) -> Seq<char> {
    Seq::new(s.len(), |j: int| hex_digits()[hex_value(s[j]) as int])
}

proof fn lemma_digit_of_value(d: nat)
    requires
        d < 16,
    ensures
        is_hex_char(hex_digits()[d as int]),
        hex_value(hex_digits()[d as int]) == d,
{
    assert(hex_digits().len() == 16);
    if d == 0 {} else if d == 1 {} else if d == 2 {} else if d == 3 {}
    else if d == 4 {} else if d == 5 {} else if d == 6 {} else if d == 7 {}
    else if d == 8 {} else if d == 9 {} else if d == 10 {} else if d == 11 {}
    else if d == 12 {} else if d == 13 {} else if d == 14 {} else {}
}

proof fn lemma_byte_halves(hi: nat, lo: nat)
    requires
        hi < 16,
        lo < 16,
    ensures
        16 * hi + lo < 256,
        (16 * hi + lo) / 16 == hi,
        (16 * hi + lo) % 16 == lo,
{
    assert((16 * hi + lo) / 16 == hi && (16 * hi + lo) % 16 == lo) by (nonlinear_arith)
        requires
            hi < 16,
            lo < 16,
    ;
}

/// Decoding a block hash and writing it back as text gives the text it came
/// from, with its letter digits in lower case; text already in lower case
/// comes back unchanged.
pub proof fn lemma_hash_text_round_trip(s: Seq<char>)
    requires
        is_hash_hex(s),
    ensures
        hash_hex_of_bytes(hash_bytes_of_hex(s)) == canonical_hex(s),
        (forall|i: int| 0 <= i < 64 ==> !('A' <= #[trigger] s[i] && s[i] <= 'F'))
            ==> hash_hex_of_bytes(hash_bytes_of_hex(s)) == s,
{
    let b = hash_bytes_of_hex(s);
    let t = hash_hex_of_bytes(b);
    assert forall|j: int| 0 <= j < 64 implies #[trigger] t[j] == canonical_hex(s)[j] by {
        let i = 31 - j / 2;
        let hi = s[62 - 2 * i];
        let lo = s[63 - 2 * i];
        lemma_hex_digit_round_trip(hi);
        lemma_hex_digit_round_trip(lo);
        lemma_byte_halves(hex_value(hi), hex_value(lo));
        assert(b[i] as nat == 16 * hex_value(hi) + hex_value(lo));
        if j % 2 == 0 {
            assert(62 - 2 * i == j);
        } else {
            assert(63 - 2 * i == j);
        }
    }
    assert(t =~= canonical_hex(s));
    if forall|i: int| 0 <= i < 64 ==> !('A' <= #[trigger] s[i] && s[i] <= 'F') {
        assert forall|j: int| 0 <= j < 64 implies #[trigger] canonical_hex(s)[j] == s[j] by {
            lemma_hex_digit_round_trip(s[j]);
        }
        assert(canonical_hex(s) =~= s);
    }
}

/// Writing 32 canonical bytes as text gives a valid block-hash text, and
/// decoding that text gives the same bytes.
pub proof fn lemma_hash_bytes_round_trip(b: Seq<u8>)
    requires
        b.len() == 32,
    ensures
        is_hash_hex(hash_hex_of_bytes(b)),
        hash_bytes_of_hex(hash_hex_of_bytes(b)) == b,
{
    let t = hash_hex_of_bytes(b);
    assert forall|j: int| 0 <= j < 64 implies is_hex_char(#[trigger] t[j]) by {
        lemma_digit_of_value((b[31 - j / 2] / 16) as nat);
        lemma_digit_of_value((b[31 - j / 2] % 16) as nat);
    }
    let c = hash_bytes_of_hex(t);
    assert forall|i: int| 0 <= i < 32 implies #[trigger] c[i] == b[i] by {
        let hi = (b[i] / 16) as nat;
        let lo = (b[i] % 16) as nat;
        assert(31 - (62 - 2 * i) / 2 == i);
        assert(31 - (63 - 2 * i) / 2 == i);
        lemma_digit_of_value(hi);
        lemma_digit_of_value(lo);
        assert(16 * hi + lo == b[i]);
    }
    assert(c =~= b);
}

proof fn lemma_hex_digit_round_trip(c: char)
    requires
        is_hex_char(c),
    ensures
        hex_value(c) < 16,
        ('0' <= c <= '9' || 'a' <= c <= 'f') ==> hex_digits()[hex_value(c) as int] == c,
{
}


#[verifier::external_type_specification]
#[verifier::external_body]
pub struct ExHexToArrayError(bitcoincore_rpc::bitcoin::hashes::hex::HexToArrayError);

/// Relies on `BlockHash::from_str` (bitcoin_hashes' `hash_newtype`): it accepts
/// exactly 64 hex digits of either case and keeps the bytes in reverse order
/// of the text.
#[verifier::external_body]
fn decode_block_hash(s: &str) -> (r: Result<[u8; 32], bitcoincore_rpc::bitcoin::hashes::hex::HexToArrayError>)
    ensures
        r.is_ok() <==> is_hash_hex(s@),
        r matches Ok(b) ==> b@ == hash_bytes_of_hex(s@),
{
    match <BlockHash as std::str::FromStr>::from_str(s) {
        Ok(h) => Ok(<BlockHash as bitcoincore_rpc::bitcoin::hashes::Hash>::to_byte_array(h)),
        Err(e) => Err(e),
    }
}

/// Relies on the `Display` of `BlockHash`: lower-case hex of the bytes in
/// reverse order.
#[verifier::external_body]
fn encode_block_hash(b: &[u8; 32]) -> (r: String)
    ensures
        r@ == hash_hex_of_bytes(b@),
{
    <BlockHash as bitcoincore_rpc::bitcoin::hashes::Hash>::from_byte_array(*b).to_string()
}

/// Relies on the `Display` of `HexToArrayError` for the message of a bad hash.
#[verifier::external_body]
fn hex_error_text(e: &bitcoincore_rpc::bitcoin::hashes::hex::HexToArrayError) -> (r: String) {
    e.to_string()
}

/// Message for a block lookup without its `blockhash` parameter.
pub open spec fn missing_hash_message() -> Seq<char> {
    "missing query parameter: blockhash"@
}

/// Reads the `blockhash` query parameter of a block lookup: its canonical
/// bytes, or a client error when it is absent or not 64 hex digits.
pub fn block_hash_from_query(param: Option<&str>) -> (r: Result<[u8; 32], GatewayError>)
    ensures
        match param {
            None => r matches Err(GatewayError::BadRequest(m)) && m@ == missing_hash_message(),
            Some(s) => {
                &&& r.is_ok() <==> is_hash_hex(s@)
                &&& r matches Ok(b) ==> b@ == hash_bytes_of_hex(s@)
                &&& r matches Err(e) ==> e is BadRequest
            },
        },
{
    match param {
        None => Err(GatewayError::BadRequest(String::from_str("missing query parameter: blockhash"))),
        Some(s) => match decode_block_hash(s) {
            Ok(b) => Ok(b),
            Err(e) => Err(GatewayError::BadRequest(hex_error_text(&e))),
        },
    }
}

/// A hex string as a JSON string literal (hex digits need no escaping).
pub open spec fn json_quoted(s: Seq<char>) -> Seq<char> {
    seq!['"'] + s + seq!['"']
}

/// The JSON body that reports a block hash: its hex text as a JSON string.
pub fn block_hash_json(b: &[u8; 32]) -> (r: String)
    ensures
        r@ == json_quoted(hash_hex_of_bytes(b@)),
{
    let hex = encode_block_hash(b);
    let mut out = String::from_str("\"");
    out.append(hex.as_str());
    out.append("\"");
    proof {
        reveal_strlit("\"");
    }
    out
}

} // verus!
