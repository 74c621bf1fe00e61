//! Verification of an Ed25519 signature against the key that an address encodes.

use vstd::prelude::*;
use vstd::array::array_as_slice;
use vstd::slice::slice_to_vec;
use vstd::string::StrSliceExecFns;
use vstd::utf8::{encode_utf8, is_ascii_chars};
use crate::api_error::{result_view, ApiError, ApiErrorView};

verus! {

/// The length of an Ed25519 public key, in bytes.
pub const PUBLIC_KEY_LEN: usize = 32;

/// The length of an Ed25519 signature, in bytes.
pub const SIGNATURE_LEN: usize = 64;

/// The length of a Stellar account address, in bytes.
pub const STELLAR_ADDRESS_LEN: usize = 56;

/// The value of one hexadecimal digit, in either case.
pub open spec fn hex_value(c: char) -> Option<u8> {
    let n = c as u32;
    if 48 <= n <= 57 {
        Some((n - 48) as u8)
    } else if 97 <= n <= 102 {
        Some((n - 87) as u8)
    } else if 65 <= n <= 70 {
        Some((n - 55) as u8)
    } else {
        None
    }
}

/// Whether `s` is an even number of hexadecimal digits.
pub open spec fn is_hex(s: Seq<char>) -> bool {
    s.len() % 2 == 0 && forall|i: int| 0 <= i < s.len() ==> (#[trigger] hex_value(s[i])) is Some
}

/// The bytes that a hexadecimal string stands for, two digits to a byte, the
/// high digit first; `None` where it is not such a string.
pub open spec fn hex_decoded(s: Seq<char>) -> Option<Seq<u8>> {
    if is_hex(s) {
        Some(
            Seq::new(
                s.len() / 2,
                |i: int| (16 * hex_value(s[2 * i])->0 + hex_value(s[2 * i + 1])->0) as u8,
            ),
        )
    } else {
        None
    }
}

/// The value of the hexadecimal digit that a byte of text is, if it is one.
fn hex_digit(byte: u8) -> (value: Option<u8>)
    ensures
        value == hex_value(byte as char),
        value matches Some(v) ==> v < 16,
{
    if byte >= 48 && byte <= 57 {
        Some(byte - 48)
    } else if byte >= 97 && byte <= 102 {
        Some(byte - 87)
    } else if byte >= 65 && byte <= 70 {
        Some(byte - 55)
    } else {
        None
    }
}

/// A hexadecimal digit is an ASCII character.
proof fn lemma_hex_digit_is_ascii(c: char)
    requires
        hex_value(c) is Some,
    ensures
        '\0' <= c <= '\u{7f}',
{
}

/// Hexadecimal digits are ASCII, so a text with any other character in it
/// is no hexadecimal.
proof fn lemma_hex_is_ascii(s: Seq<char>)
    requires
        is_hex(s),
    ensures
        is_ascii_chars(s),
{
    assert forall|i: int| 0 <= i < s.len() implies '\0' <= #[trigger] s[i] <= '\u{7f}' by {
        assert(hex_value(s[i]) is Some);
        lemma_hex_digit_is_ascii(s[i]);
    }
}

/// Decodes hexadecimal text into bytes: digits of either case, two to a
/// byte, the high digit first. A text of odd length, or with anything but
/// digits in it, is none.
pub fn hex_decode(s: &str) -> (bytes: Option<Vec<u8>>)
    ensures
        match bytes {
            Some(b) => hex_decoded(s@) == Some(b@),
            None => hex_decoded(s@) is None,
        },
{
    if !s.is_ascii() {
        proof {
            if is_hex(s@) {
                lemma_hex_is_ascii(s@);
            }
        }
        return None;
    }
    let n = s.unicode_len();
    if n % 2 != 0 {
        return None;
    }
    let mut out: Vec<u8> = Vec::new();
    let mut i: usize = 0;
    while i < n
        invariant
            s.is_ascii(),
            n == s@.len(),
            n % 2 == 0,
            i % 2 == 0,
            i <= n,
            out@.len() == i / 2,
            forall|j: int| 0 <= j < i ==> (#[trigger] hex_value(s@[j])) is Some,
            forall|j: int|
                0 <= j < out@.len() ==> #[trigger] out@[j] == (16 * hex_value(s@[2 * j])->0
                    + hex_value(s@[2 * j + 1])->0) as u8,
        decreases n - i,
    {
        let high = s.get_ascii(i);
        let low = s.get_ascii(i + 1);
        proof {
            assert('\0' <= s@[i as int] <= '\u{7f}');
            assert('\0' <= s@[i + 1] <= '\u{7f}');
            assert(high as char == s@[i as int]);
            assert(low as char == s@[i + 1]);
        }
        match (hex_digit(high), hex_digit(low)) {
            (Some(h), Some(l)) => {
                out.push(h * 16 + l);
            },
            _ => {
                assert(!is_hex(s@)) by {
                    if hex_value(s@[i as int]) is None {
                    } else {
                        assert(hex_value(s@[i + 1]) is None);
                    }
                }
                return None;
            },
        }
        i += 2;
    }
    proof {
        assert(is_hex(s@));
        assert(out@ =~= hex_decoded(s@)->0);
    }
    Some(out)
}

/// What a strkey decodes to: the kind of key, and for an Ed25519 public key
/// its bytes. `Invalid` stands for a string that is no strkey at all.
#[derive(Debug, Clone, Copy, PartialEq, Eq)]
pub enum StrkeyKind {
    PublicKeyEd25519([u8; 32]),
    PrivateKeyEd25519,
    PreAuthTx,
    HashX,
    MuxedAccountEd25519,
    SignedPayloadEd25519,
    Contract,
    Invalid,
}

/// What `stellar_strkey::Strkey::from_string` makes of a string: base32
/// decoding, a checksum and a version byte decide it.
pub uninterp spec fn strkey_decoded(s: Seq<char>) -> StrkeyKind;

/// Calls `stellar_strkey::Strkey::from_string`, which depends on the string
/// alone, and keeps the variant and the bytes of a public key.
#[verifier::external_body]
fn strkey_decode(s: &str) -> (kind: StrkeyKind)
    ensures
        kind == strkey_decoded(s@),
{
    match stellar_strkey::Strkey::from_string(s) {
        Ok(stellar_strkey::Strkey::PublicKeyEd25519(key)) => StrkeyKind::PublicKeyEd25519(key.0),
        Ok(stellar_strkey::Strkey::PrivateKeyEd25519(_)) => StrkeyKind::PrivateKeyEd25519,
        Ok(stellar_strkey::Strkey::PreAuthTx(_)) => StrkeyKind::PreAuthTx,
        Ok(stellar_strkey::Strkey::HashX(_)) => StrkeyKind::HashX,
        Ok(stellar_strkey::Strkey::MuxedAccountEd25519(_)) => StrkeyKind::MuxedAccountEd25519,
        Ok(stellar_strkey::Strkey::SignedPayloadEd25519(_)) => StrkeyKind::SignedPayloadEd25519,
        Ok(stellar_strkey::Strkey::Contract(_)) => StrkeyKind::Contract,
        Err(_) => StrkeyKind::Invalid,
    }
}

/// Whether `signature` is a valid Ed25519 signature of `message` under
/// `public_key`, as `ring` judges it. A key or a signature of the wrong
/// length is not valid.
pub uninterp spec fn ed25519_valid(public_key: Seq<u8>, message: Seq<u8>, signature: Seq<u8>) -> bool;

/// Calls `ring::signature::UnparsedPublicKey::verify` with the `ED25519`
/// parameters, which depends on the three byte strings alone.
#[verifier::external_body]
fn ed25519_verify(public_key: &[u8], message: &[u8], signature: &[u8]) -> (valid: bool)
    ensures
        valid == ed25519_valid(public_key@, message@, signature@),
{
    ring::signature::UnparsedPublicKey::new(&ring::signature::ED25519, public_key)
        .verify(message, signature)
        .is_ok()
}

/// Whether an address has the shape of a Stellar account: 56 bytes, the
/// first of them `G`.
pub open spec fn is_stellar_shaped(address: Seq<char>) -> bool {
    address.len() > 0 && address[0] == 'G' && encode_utf8(address).len() == STELLAR_ADDRESS_LEN
}

/// The key that a decoded strkey holds: it must be an Ed25519 public key.
pub open spec fn key_of_strkey(kind: StrkeyKind) -> Result<Seq<u8>, ApiErrorView> {
    match kind {
        StrkeyKind::PublicKeyEd25519(key) => Ok(key@),
        StrkeyKind::Invalid => Err(ApiErrorView::BadRequest("Invalid Stellar address"@)),
        _ => Err(ApiErrorView::BadRequest("Only Ed25519 public keys are supported"@)),
    }
}

/// The key that decoded hexadecimal holds: it must be 32 bytes.
pub open spec fn key_of_hex(decoded: Option<Seq<u8>>) -> Result<Seq<u8>, ApiErrorView> {
    match decoded {
        None => Err(ApiErrorView::BadRequest("Invalid wallet address format"@)),
        Some(bytes) => if bytes.len() == PUBLIC_KEY_LEN {
            Ok(bytes)
        } else {
            Err(ApiErrorView::BadRequest("Invalid public key length"@))
        },
    }
}

/// The signature that decoded hexadecimal holds: it must be 64 bytes.
pub open spec fn signature_of_hex(decoded: Option<Seq<u8>>) -> Result<Seq<u8>, ApiErrorView> {
    match decoded {
        None => Err(ApiErrorView::BadRequest("Invalid signature format"@)),
        Some(bytes) => if bytes.len() == SIGNATURE_LEN {
            Ok(bytes)
        } else {
            Err(ApiErrorView::BadRequest("Invalid signature length"@))
        },
    }
}

/// The public key that an address encodes. An address of Stellar shape is a
/// strkey and must hold an Ed25519 public key; any other address is the key
/// itself in hexadecimal.
pub open spec fn public_key_of(address: Seq<char>) -> Result<Seq<u8>, ApiErrorView> {
    if is_stellar_shaped(address) {
        key_of_strkey(strkey_decoded(address))
    } else {
        key_of_hex(hex_decoded(address))
    }
}

/// The verdict on a signature given in hexadecimal: a malformed address is
/// a `BadRequest`, and so, after it, is a malformed signature; otherwise
/// whether the signature is valid.
pub open spec fn signature_verdict(
    address: Seq<char>,
    message: Seq<u8>,
    signature: Seq<char>,
) -> Result<bool, ApiErrorView> {
    match public_key_of(address) {
        Err(e) => Err(e),
        Ok(key) => verdict_under_key(key, message, signature),
    }
}

/// The verdict once the key is known: a signature that is no hexadecimal,
/// or not 64 bytes of it, is malformed; a well-formed one is valid or not.
pub open spec fn verdict_under_key(
    key: Seq<u8>,
    message: Seq<u8>,
    signature: Seq<char>,
) -> Result<bool, ApiErrorView> {
    match signature_of_hex(hex_decoded(signature)) {
        Err(e) => Err(e),
        Ok(bytes) => Ok(ed25519_valid(key, message, bytes)),
    }
}

/// A byte string that may be absent, as plain values.
pub open spec fn bytes_view(bytes: Option<Vec<u8>>) -> Option<Seq<u8>> {
    match bytes {
        Some(b) => Some(b@),
        None => None,
    }
}

/// A result of bytes, as plain values.
pub open spec fn key_view(r: Result<Vec<u8>, ApiError>) -> Result<Seq<u8>, ApiErrorView> {
    match r {
        Ok(b) => Ok(b@),
        Err(e) => Err(e@),
    }
}

/// Checks signatures. It holds no state and has no side effect.
pub struct SignatureVerifier;

impl SignatureVerifier {
    /// Takes the key out of a decoded strkey.
    pub fn key_from_strkey(kind: StrkeyKind) -> (r: Result<Vec<u8>, ApiError>)
        ensures
            key_view(r) == key_of_strkey(kind),
    {
        match kind {
            StrkeyKind::PublicKeyEd25519(key) => Ok(slice_to_vec(array_as_slice(&key))),
            StrkeyKind::Invalid => Err(ApiError::bad_request("Invalid Stellar address")),
            _ => Err(ApiError::bad_request("Only Ed25519 public keys are supported")),
        }
    }

    /// Takes the key out of decoded hexadecimal.
    pub fn key_from_hex(decoded: Option<Vec<u8>>) -> (r: Result<Vec<u8>, ApiError>)
        ensures
            key_view(r) == key_of_hex(bytes_view(decoded)),
    {
        match decoded {
            None => Err(ApiError::bad_request("Invalid wallet address format")),
            Some(bytes) => if bytes.len() == PUBLIC_KEY_LEN {
                Ok(bytes)
            } else {
                Err(ApiError::bad_request("Invalid public key length"))
            },
        }
    }

    /// Takes the signature out of decoded hexadecimal.
    pub fn signature_from_hex(decoded: Option<Vec<u8>>) -> (r: Result<Vec<u8>, ApiError>)
        ensures
            key_view(r) == signature_of_hex(bytes_view(decoded)),
    {
        match decoded {
            None => Err(ApiError::bad_request("Invalid signature format")),
            Some(bytes) => if bytes.len() == SIGNATURE_LEN {
                Ok(bytes)
            } else {
                Err(ApiError::bad_request("Invalid signature length"))
            },
        }
    }

    /// Decodes an address into the raw public key.
    pub fn decode_public_key(address: &str) -> (r: Result<Vec<u8>, ApiError>)
        ensures
            key_view(r) == public_key_of(address@),
    {
        let stellar_shaped = address.unicode_len() > 0 && address.get_char(0) == 'G'
            && address.as_bytes().len() == STELLAR_ADDRESS_LEN;
        if stellar_shaped {
            Self::key_from_strkey(strkey_decode(address))
        } else {
            Self::key_from_hex(hex_decode(address))
        }
    }

    /// Checks a hexadecimal signature of `message` under an already decoded key.
    pub fn verify_with_key(key: &[u8], message: &[u8], signature: &str) -> (r: Result<
        bool,
        ApiError,
    >)
        ensures
            result_view(r) == verdict_under_key(key@, message@, signature@),
    {
        match Self::signature_from_hex(hex_decode(signature)) {
            Err(e) => Err(e),
            Ok(bytes) => Ok(ed25519_verify(key, message, bytes.as_slice())),
        }
    }

    /// Checks that `signature`, in hexadecimal, signs `message` under the key
    /// that `address` encodes. A malformed address or signature is a
    /// `BadRequest`; a well-formed but wrong signature is `Ok(false)`.
    pub fn verify(address: &str, message: &[u8], signature: &str) -> (r: Result<bool, ApiError>)
        ensures
            result_view(r) == signature_verdict(address@, message@, signature@),
    {
        match Self::decode_public_key(address) {
            Err(e) => Err(e),
            Ok(key) => Self::verify_with_key(key.as_slice(), message, signature),
        }
    }
}

} // verus!
