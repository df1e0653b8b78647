//! A network location together with the public key that its counterpart
//! must prove: the description of a trusted upstream endpoint.
//!
//! Both parts are held as the text they were configured with. Whether a
//! text is a URI is decided by the `http` crate, whether it is a public key
//! by the `helium-crypto` crate, and so is equality of either. Where
//! `helium-crypto` would not return on a malformed key, the key is turned
//! down before it is asked.

use vstd::prelude::*;
use std::sync::Arc;
use vstd::slice::slice_subrange;
use vstd::std_specs::cmp::PartialEqSpecImpl;

verus! {

/// The binary form that `helium-crypto` decodes a base58 address to, or
/// `None` where the text is no checked base58 of version 0.
pub uninterp spec fn address_binary(text: Seq<char>) -> Option<Seq<u8>>;

/// What `k256` makes of bytes as the SEC1 encoding of a secp256k1 public
/// key: `None` where they are no such encoding, else whether the point they
/// encode is on the curve and not the identity.
pub uninterp spec fn curve_point(encoded: Seq<u8>) -> Option<bool>;

/// Whether `helium-crypto` accepts a binary form as a public key.
pub uninterp spec fn binary_accepted(binary: Seq<u8>) -> bool;

/// Whether `helium-crypto` holds the public keys of two binary forms to be
/// equal. It is `false` where either is no public key.
pub uninterp spec fn same_key(a: Seq<u8>, b: Seq<u8>) -> bool;

/// Whether `http` accepts a text as a URI.
pub uninterp spec fn uri_accepted(text: Seq<char>) -> bool;

/// Whether `http` holds the URIs of two texts to be equal. It is `false`
/// where either is no URI.
pub uninterp spec fn same_uri(a: Seq<char>, b: Seq<char>) -> bool;

/// Network tag, in the high four bits of the first byte of a binary form,
/// of a key of the main network.
pub const NETTYPE_MAIN: u8 = 0x00;

/// Network tag of a key of the test network.
pub const NETTYPE_TEST: u8 = 0x10;

/// Type tag, in the low four bits of the first byte of a binary form, of a
/// secp256k1 key.
pub const KEYTYPE_SECP256K1: u8 = 0x03;

/// Type tag of an RSA key.
pub const KEYTYPE_RSA: u8 = 0x04;

/// What has to be known of a binary form before `helium-crypto` is asked
/// about it.
#[derive(Clone, Copy, Debug, PartialEq, Eq, Structural)]
pub enum Guard {
    /// Nothing: the question is answered for every such binary form.
    Free,
    /// That the bytes behind the tag, where they are a well-formed
    /// encoding, are a point of the curve. On a well-formed encoding that is
    /// no such point the question is not answered.
    CurvePoint,
    /// The binary form is malformed in a way on which the question is not
    /// answered. It is not asked.
    Refused,
}

/// Whether the first byte of a binary form names a network. A binary form
/// that names none is turned down by `helium-crypto` before its key is
/// looked at.
pub open spec fn on_network(binary: Seq<u8>) -> bool {
    binary.len() > 0 && ((binary[0] & 0xF0) == NETTYPE_MAIN || (binary[0] & 0xF0) == NETTYPE_TEST)
}

/// Whether the two lengths at the head of an RSA key contradict each other
/// although the bytes that follow suffice: the key is announced as `total`
/// bytes, present in full, of which more than `total` are to be the
/// modulus.
pub open spec fn rsa_lengths_clash(binary: Seq<u8>) -> bool {
    binary.len() >= 5 && {
        let total = binary[1] * 256 + binary[2];
        let modulus = binary[3] * 256 + binary[4];
        binary.len() - 5 >= total && modulus > total
    }
}

/// The guard that a binary form is under.
pub open spec fn guard(binary: Seq<u8>) -> Guard {
    if !on_network(binary) {
        Guard::Free
    } else if (binary[0] & 0x0F) == KEYTYPE_SECP256K1 {
        Guard::CurvePoint
    } else if (binary[0] & 0x0F) == KEYTYPE_RSA && rsa_lengths_clash(binary) {
        Guard::Refused
    } else {
        Guard::Free
    }
}

/// Whether `helium-crypto` may be asked about a binary form.
pub open spec fn askable(binary: Seq<u8>) -> bool {
    match guard(binary) {
        Guard::Free => true,
        Guard::CurvePoint => curve_point(binary.subrange(1, binary.len() as int)) != Some(false),
        Guard::Refused => false,
    }
}

/// Whether a text is the address of a public key: it decodes, and
/// `helium-crypto` accepts what it decodes to.
pub open spec fn is_public_key(text: Seq<char>) -> bool {
    address_binary(text) matches Some(binary) && askable(binary) && binary_accepted(binary)
}

/// Calls `helium_crypto::PublicKeyBinary::from_str` and hands out the bytes
/// it decoded. The contract names the result: the bytes behind the version
/// byte where the text is base58 with a valid checksum and version 0,
/// nothing otherwise.
#[verifier::external_body]
fn decode_address(text: &str) -> (binary: Option<Vec<u8>>)
    ensures
        binary matches Some(bytes) ==> address_binary(text@) == Some(bytes@),
        binary is None ==> address_binary(text@) is None,
{
    match <helium_crypto::PublicKeyBinary as std::str::FromStr>::from_str(text) {
        Ok(binary) => Some(binary.into()),
        Err(_) => None,
    }
}

/// Calls `k256::EncodedPoint::from_bytes` and, on what it gives,
/// `k256::PublicKey::from_encoded_point`. The contract names the result:
/// nothing where the first call fails, else whether the second gave a key.
#[verifier::external_body]
fn is_curve_point(encoded: &[u8]) -> (valid: Option<bool>)
    ensures
        valid == curve_point(encoded@),
{
    match k256::EncodedPoint::from_bytes(encoded) {
        Ok(point) => Some(
            bool::from(
                <k256::PublicKey as k256::elliptic_curve::sec1::FromEncodedPoint<
                    k256::Secp256k1,
                >>::from_encoded_point(&point).is_some(),
            ),
        ),
        Err(_) => None,
    }
}

/// Calls `helium_crypto::PublicKey::try_from` on a binary form and says
/// whether it gave a key. The contract names the result. Left out are the
/// binary forms on which the call does not return: a secp256k1 key whose
/// well-formed encoding is no point of the curve, which it unwraps, and an
/// RSA key whose lengths clash, which it splits out of bounds.
#[verifier::external_body]
fn accepts_binary(binary: &Vec<u8>) -> (accepted: bool)
    requires
        askable(binary@),
    ensures
        accepted == binary_accepted(binary@),
{
    helium_crypto::PublicKey::try_from(binary.as_slice()).is_ok()
}

/// Calls `helium_crypto::PublicKey::eq` on the keys of two binary forms.
/// The contract names the result. Left out are the binary forms on which
/// `helium_crypto::PublicKey::try_from` does not return.
#[verifier::external_body]
fn keys_equal(a: &Vec<u8>, b: &Vec<u8>) -> (same: bool)
    requires
        askable(a@),
        askable(b@),
    ensures
        same == same_key(a@, b@),
{
    match (
        helium_crypto::PublicKey::try_from(a.as_slice()),
        helium_crypto::PublicKey::try_from(b.as_slice()),
    ) {
        (Ok(a), Ok(b)) => a == b,
        _ => false,
    }
}

/// Calls `http::Uri::from_str` and says whether it gave a URI. The contract
/// names the result.
#[verifier::external_body]
fn accepts_uri(text: &str) -> (accepted: bool)
    ensures
        accepted == uri_accepted(text@),
{
    <http::Uri as std::str::FromStr>::from_str(text).is_ok()
}

/// Calls `http::Uri::eq` on the URIs of two texts. The contract names the
/// result.
#[verifier::external_body]
fn uris_equal(a: &str, b: &str) -> (same: bool)
    ensures
        same == same_uri(a@, b@),
{
    match (
        <http::Uri as std::str::FromStr>::from_str(a),
        <http::Uri as std::str::FromStr>::from_str(b),
    ) {
        (Ok(a), Ok(b)) => a == b,
        _ => false,
    }
}

/// The guard that a binary form is under.
pub fn guard_of(binary: &Vec<u8>) -> (found: Guard)
    ensures
        found == guard(binary@),
{
    if binary.len() == 0 {
        return Guard::Free;
    }
    let network: u8 = binary[0] & 0xF0;
    let key_type: u8 = binary[0] & 0x0F;
    if network != NETTYPE_MAIN && network != NETTYPE_TEST {
        Guard::Free
    } else if key_type == KEYTYPE_SECP256K1 {
        Guard::CurvePoint
    } else if key_type == KEYTYPE_RSA && binary.len() >= 5 {
        let total: usize = (binary[1] as usize) * 256 + (binary[2] as usize);
        let modulus: usize = (binary[3] as usize) * 256 + (binary[4] as usize);
        if binary.len() - 5 >= total && modulus > total {
            Guard::Refused
        } else {
            Guard::Free
        }
    } else {
        Guard::Free
    }
}

/// Asks about a binary form what its guard allows to ask: `None` where
/// `helium-crypto` is not asked, else its answer.
pub fn ask(binary: &Vec<u8>) -> (answer: Option<bool>)
    ensures
        answer == if askable(binary@) {
            Some(binary_accepted(binary@))
        } else {
            None
        },
{
    let may_ask = match guard_of(binary) {
        Guard::Free => true,
        Guard::CurvePoint => match is_curve_point(
            slice_subrange(binary.as_slice(), 1, binary.len()),
        ) {
            Some(false) => false,
            _ => true,
        },
        Guard::Refused => false,
    };
    if may_ask {
        Some(accepts_binary(binary))
    } else {
        None
    }
}

/// The message of the error for a text that is no public key. It holds the
/// offending text.
pub open spec fn invalid_key_message(text: Seq<char>) -> Seq<char> {
    "invalid public key: \""@ + text + "\""@
}

/// Why a text was not taken as a public key.
#[derive(Debug, PartialEq, Eq)]
pub enum KeyError {
    /// The text is not the address of a public key. The message names it.
    Invalid(String),
}

/// A public key, held as the address it was configured with and the
/// binary form behind it.
#[derive(Debug)]
pub struct PublicKey {
    address: String,
    binary: Vec<u8>,
}

impl View for PublicKey {
    type V = Seq<char>;

    /// The address of the key.
    closed spec fn view(&self) -> Seq<char> {
        self.address@
    }
}

/// The error message for a text that is no public key.
fn invalid_key_text(text: &str) -> (message: String)
    ensures
        message@ == invalid_key_message(text@),
{
    let mut message = String::from_str("invalid public key: \"");
    message.append(text);
    message.append("\"");
    message
}

/// Decides on a key text from what was found out about it: the binary form
/// it decoded to, if any, and what `helium-crypto` answered about that, if
/// it was asked. The text is taken, and its binary form handed on, exactly
/// where it decoded and was accepted; in every other case it is turned down
/// with the message that names it.
pub fn key_verdict(text: &str, decoded: Option<Vec<u8>>, answer: Option<bool>) -> (verdict: Result<
    Vec<u8>,
    KeyError,
>)
    ensures
        verdict is Ok <==> decoded is Some && answer == Some(true),
        verdict matches Ok(binary) ==> decoded == Some(binary),
        verdict matches Err(KeyError::Invalid(message)) ==> message@ == invalid_key_message(text@),
{
    match (decoded, answer) {
        (Some(binary), Some(true)) => Ok(binary),
        _ => Err(KeyError::Invalid(invalid_key_text(text))),
    }
}

impl PublicKey {
    #[verifier::type_invariant]
    spec fn well_formed(&self) -> bool {
        &&& address_binary(self.address@) == Some(self.binary@)
        &&& askable(self.binary@)
        &&& binary_accepted(self.binary@)
    }

    /// The binary form of the key.
    pub closed spec fn binary(&self) -> Seq<u8> {
        self.binary@
    }

    /// The address of the key.
    pub fn address(&self) -> (address: &str)
        ensures
            address@ == self@,
            is_public_key(self@),
            address_binary(self@) == Some(self.binary()),
    {
        proof {
            use_type_invariant(self);
        }
        self.address.as_str()
    }

    /// Takes a text as a public key, exactly where it is the address of
    /// one; otherwise the error names the text.
    pub fn parse(text: &str) -> (parsed: Result<PublicKey, KeyError>)
        ensures
            match parsed {
                Ok(key) => is_public_key(text@) && key@ == text@ && address_binary(text@) == Some(
                    key.binary(),
                ),
                Err(KeyError::Invalid(message)) => !is_public_key(text@) && message@
                    == invalid_key_message(text@),
            },
    {
        let decoded = decode_address(text);
        let answer = match &decoded {
            Some(binary) => ask(binary),
            None => None,
        };
        match key_verdict(text, decoded, answer) {
            Ok(binary) => Ok(PublicKey { address: String::from_str(text), binary }),
            Err(error) => Err(error),
        }
    }
}

impl PartialEq for PublicKey {
    fn eq(&self, other: &PublicKey) -> (same: bool) {
        proof {
            use_type_invariant(self);
            use_type_invariant(other);
        }
        keys_equal(&self.binary, &other.binary)
    }
}

impl PartialEqSpecImpl for PublicKey {
    open spec fn obeys_eq_spec() -> bool {
        true
    }

    open spec fn eq_spec(&self, other: &PublicKey) -> bool {
        same_key(self.binary(), other.binary())
    }
}

/// Reads the public key of an endpoint from its configured text and makes
/// it ready to be shared. It succeeds exactly where the text is the address
/// of a public key; otherwise the error names the text.
pub fn deserialize_pubkey(key_string: &str) -> (parsed: Result<Arc<PublicKey>, KeyError>)
    ensures
        match parsed {
            Ok(key) => is_public_key(key_string@) && key@ == key_string@ && address_binary(
                key_string@,
            ) == Some(key.binary()),
            Err(KeyError::Invalid(message)) => !is_public_key(key_string@) && message@
                == invalid_key_message(key_string@),
        },
{
    match PublicKey::parse(key_string) {
        Ok(key) => Ok(Arc::new(key)),
        Err(error) => Err(error),
    }
}

/// Why two texts were not taken as an endpoint.
#[derive(Debug, PartialEq, Eq)]
pub enum KeyedUriError {
    /// The first text is no URI.
    InvalidUri,
    /// The second text was not taken as a public key.
    PublicKey(KeyError),
}

/// What an endpoint is: the text of its URI and the address of its key.
pub struct KeyedUriView {
    pub uri: Seq<char>,
    pub public_key: Seq<char>,
}

/// A URI that has an associated public key. The key is shared: many
/// holders may describe the same endpoint.
#[derive(Debug)]
pub struct KeyedUri {
    uri: String,
    public_key: Arc<PublicKey>,
}

impl View for KeyedUri {
    type V = KeyedUriView;

    closed spec fn view(&self) -> KeyedUriView {
        KeyedUriView { uri: self.uri@, public_key: self.public_key@ }
    }
}

impl KeyedUri {
    #[verifier::type_invariant]
    spec fn well_formed(&self) -> bool {
        uri_accepted(self.uri@)
    }

    /// The binary form of the endpoint's key.
    pub closed spec fn key_binary(&self) -> Seq<u8> {
        self.public_key.binary()
    }

    /// An endpoint at `uri` with a key that is already at hand, if `uri` is
    /// a URI.
    pub fn new(uri: &str, public_key: Arc<PublicKey>) -> (endpoint: Option<KeyedUri>)
        ensures
            endpoint is Some <==> uri_accepted(uri@),
            endpoint matches Some(e) ==> e@ == (KeyedUriView {
                uri: uri@,
                public_key: public_key@,
            }) && e.key_binary() == public_key.binary(),
    {
        if accepts_uri(uri) {
            Some(KeyedUri { uri: String::from_str(uri), public_key })
        } else {
            None
        }
    }

    /// Reads an endpoint from the two texts it is configured with. The URI
    /// is looked at first.
    pub fn parse(uri: &str, public_key: &str) -> (parsed: Result<KeyedUri, KeyedUriError>)
        ensures
            match parsed {
                Ok(endpoint) => {
                    &&& uri_accepted(uri@)
                    &&& is_public_key(public_key@)
                    &&& endpoint@ == (KeyedUriView { uri: uri@, public_key: public_key@ })
                    &&& address_binary(public_key@) == Some(endpoint.key_binary())
                },
                Err(KeyedUriError::InvalidUri) => !uri_accepted(uri@),
                Err(KeyedUriError::PublicKey(KeyError::Invalid(message))) => {
                    &&& uri_accepted(uri@)
                    &&& !is_public_key(public_key@)
                    &&& message@ == invalid_key_message(public_key@)
                },
            },
    {
        if !accepts_uri(uri) {
            return Err(KeyedUriError::InvalidUri);
        }
        match deserialize_pubkey(public_key) {
            Ok(key) => Ok(KeyedUri { uri: String::from_str(uri), public_key: key }),
            Err(error) => Err(KeyedUriError::PublicKey(error)),
        }
    }

    /// The text of the URI.
    pub fn uri(&self) -> (uri: &str)
        ensures
            uri@ == self@.uri,
            uri_accepted(uri@),
    {
        proof {
            use_type_invariant(self);
        }
        self.uri.as_str()
    }

    /// The shared public key.
    pub fn public_key(&self) -> (key: &Arc<PublicKey>)
        ensures
            key@ == self@.public_key,
            key.binary() == self.key_binary(),
    {
        &self.public_key
    }
}

impl PartialEq for KeyedUri {
    /// Two endpoints are equal where both their URIs and their keys are.
    fn eq(&self, other: &KeyedUri) -> (same: bool) {
        let mine: &PublicKey = &self.public_key;
        let theirs: &PublicKey = &other.public_key;
        uris_equal(self.uri.as_str(), other.uri.as_str()) && mine.eq(theirs)
    }
}

impl PartialEqSpecImpl for KeyedUri {
    open spec fn obeys_eq_spec() -> bool {
        true
    }

    open spec fn eq_spec(&self, other: &KeyedUri) -> bool {
        same_uri(self@.uri, other@.uri) && same_key(self.key_binary(), other.key_binary())
    }
}

} // verus!
