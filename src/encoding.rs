use vstd::prelude::*;

verus! {

/// The error type of base64 decoding.
#[verifier::external_type_specification]
#[verifier::external_body]
pub struct ExBase64DecodeError(base64::DecodeError);

/// The error type of hex decoding.
#[verifier::external_type_specification]
#[verifier::external_body]
pub struct ExFromHexError(hex::FromHexError);

/// The error type of bech32 encoding.
#[verifier::external_type_specification]
#[verifier::external_body]
pub struct ExBech32Error(bech32::Error);

/// The bytes that standard (padded) base64 text `s` decodes to, or `None` where
/// `s` is not valid base64.
pub uninterp spec fn base64_decoding_of(s: Seq<char>) -> Option<Seq<u8>>;

/// The bech32 string (checksum variant `Bech32`) with human-readable part `hrp`
/// and payload `data`.
pub uninterp spec fn bech32_encoding_of(hrp: Seq<char>, data: Seq<u8>) -> Seq<char>;

/// An ASCII hex digit, lower or upper case.
pub open spec fn is_hex_digit(c: u8) -> bool {
    (48 <= c <= 57) || (65 <= c <= 70) || (97 <= c <= 102)
}

/// The value of the hex digit `c`.
pub open spec fn hex_digit_value(c: u8) -> int {
    if c <= 57 {
        c - 48
    } else if c <= 70 {
        c - 55
    } else {
        c - 87
    }
}

/// The bytes that hex text `s` stands for: two digits per byte, high nibble first.
pub open spec fn hex_decoding(s: Seq<u8>) -> Option<Seq<u8>> {
    if s.len() % 2 == 0 && forall|i: int| 0 <= i < s.len() ==> is_hex_digit(#[trigger] s[i]) {
        Some(
            Seq::new(
                (s.len() / 2) as nat,
                |i: int| (16 * hex_digit_value(s[2 * i]) + hex_digit_value(s[2 * i + 1])) as u8,
            ),
        )
    } else {
        None
    }
}

/// The lower-case hex digit for a nibble `n < 16`.
pub open spec fn hex_char(n: int) -> u8 {
    if n < 10 {
        (48 + n) as u8
    } else {
        (87 + n) as u8
    }
}

/// Lower-case hex text of `b`: two digits per byte, high nibble first.
pub open spec fn hex_encoding(b: Seq<u8>) -> Seq<u8> {
    Seq::new(
        2 * b.len(),
        |i: int|
            if i % 2 == 0 {
                hex_char(b[i / 2] as int / 16)
            } else {
                hex_char(b[i / 2] as int % 16)
            },
    )
}

/// Whether bech32 accepts `hrp` as a human-readable part: 1 to 83 characters,
/// each in the printable ASCII range 33..=126, not mixing lower and upper case.
pub open spec fn bech32_hrp_valid(hrp: Seq<char>) -> bool {
    &&& 1 <= hrp.len() <= 83
    &&& forall|i: int| 0 <= i < hrp.len() ==> 33 <= #[trigger] (hrp[i] as u32) <= 126
    &&& !((exists|i: int| 0 <= i < hrp.len() && 'a' <= #[trigger] hrp[i] <= 'z') && (exists|
        j: int,
    |
        0 <= j < hrp.len() && 'A' <= #[trigger] hrp[j] <= 'Z'))
}

/// Relies on hex::decode: it accepts upper and lower case digits, fails on an
/// odd length or a non-digit, and otherwise yields one byte per digit pair.
#[verifier::external_body]
pub(crate) fn hex_decode(s: &[u8]) -> (r: Result<Vec<u8>, hex::FromHexError>)
    ensures
        r is Ok <==> hex_decoding(s@) is Some,
        r matches Ok(v) ==> Some(v@) == hex_decoding(s@),
{
    hex::decode(s)
}

/// Relies on base64::decode (standard alphabet, padded).
#[verifier::external_body]
pub(crate) fn base64_decode(s: &str) -> (r: Result<Vec<u8>, base64::DecodeError>)
    ensures
        r is Ok <==> base64_decoding_of(s@) is Some,
        r matches Ok(v) ==> Some(v@) == base64_decoding_of(s@),
{
    base64::decode(s)
}

/// Relies on bech32::encode with `Variant::Bech32`, after regrouping `data`
/// into 5-bit groups (`ToBase32`). It fails only where `check_hrp` rejects `hrp`.
#[verifier::external_body]
pub(crate) fn bech32_encode(hrp: &str, data: &[u8]) -> (r: Result<String, bech32::Error>)
    ensures
        r is Ok <==> bech32_hrp_valid(hrp@),
        r matches Ok(s) ==> s@ == bech32_encoding_of(hrp@, data@),
{
    bech32::encode(hrp, bech32::ToBase32::to_base32(&data), bech32::Variant::Bech32)
}

/// Hex decoding undoes lower-case hex encoding.
pub proof fn lemma_hex_round_trip(b: Seq<u8>)
    ensures
        hex_decoding(hex_encoding(b)) == Some(b),
{
    let e = hex_encoding(b);
    assert forall|i: int| 0 <= i < e.len() implies is_hex_digit(#[trigger] e[i]) by {
        let x = b[i / 2] as int;
        assert(0 <= x / 16 < 16 && 0 <= x % 16 < 16);
    }
    assert(e.len() % 2 == 0);
    let d = hex_decoding(e)->0;
    assert forall|i: int| 0 <= i < b.len() implies #[trigger] d[i] == b[i] by {
        assert((2 * i) / 2 == i && (2 * i) % 2 == 0);
        assert((2 * i + 1) / 2 == i && (2 * i + 1) % 2 == 1);
        let x = b[i] as int;
        assert(hex_digit_value(hex_char(x / 16)) == x / 16);
        assert(hex_digit_value(hex_char(x % 16)) == x % 16);
        assert(16 * (x / 16) + x % 16 == x);
    }
    assert(d =~= b);
}

} // verus!
