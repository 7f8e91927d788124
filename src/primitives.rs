//! The cryptographic primitives the handshake is built from, as provided by
//! `ssb_crypto` (and, for point validation, `curve25519_dalek`).
//!
//! Each primitive is a function of its arguments alone, so its result is given
//! a name here and the protocol is stated over those names.
use vstd::prelude::*;

verus! {

/// SHA-256 digest of a byte string.
pub uninterp spec fn sha256_of(m: Seq<u8>) -> Seq<u8>;

/// HMAC-SHA-512-256 tag of a byte string under a network key.
pub uninterp spec fn network_auth_of(key: Seq<u8>, m: Seq<u8>) -> Seq<u8>;

/// X25519 shared secret of a Curve25519 secret and a Curve25519 public key.
pub uninterp spec fn x25519_of(sk: Seq<u8>, pk: Seq<u8>) -> Seq<u8>;

/// Shared secret of a Curve25519 secret and an Ed25519 public key, or `None`
/// where the public key is not a point or is of small order.
pub uninterp spec fn eph_ed_dh_of(sk: Seq<u8>, pk: Seq<u8>) -> Option<Seq<u8>>;

/// Shared secret of an Ed25519 secret key and a Curve25519 public key.
pub uninterp spec fn ed_eph_dh_of(sk: Seq<u8>, pk: Seq<u8>) -> Seq<u8>;

/// Whether 32 bytes are the compressed form of a point on the Edwards curve.
pub uninterp spec fn ed_point_valid(pk: Seq<u8>) -> bool;

/// Ed25519 signature of a message under a key pair.
pub uninterp spec fn ed25519_sig_of(sk: Seq<u8>, pk: Seq<u8>, m: Seq<u8>) -> Seq<u8>;

/// Whether an Ed25519 signature is valid for a message under a public key.
pub uninterp spec fn ed25519_verifies(pk: Seq<u8>, sig: Seq<u8>, m: Seq<u8>) -> bool;

/// XSalsa20-Poly1305 box of a message: the 16-byte tag, then the ciphertext.
pub uninterp spec fn secretbox_of(key: Seq<u8>, nonce: Seq<u8>, m: Seq<u8>) -> Seq<u8>;

/// The message that an XSalsa20-Poly1305 box (tag, then ciphertext) holds, or
/// `None` where the tag does not authenticate it.
pub uninterp spec fn secretbox_open_of(key: Seq<u8>, nonce: Seq<u8>, boxed: Seq<u8>) -> Option<
    Seq<u8>,
>;

pub open spec fn opt_view(o: Option<[u8; 32]>) -> Option<Seq<u8>> {
    match o {
        Some(a) => Some(a@),
        None => None,
    }
}

/// Relies on `ssb_crypto::hash`: the SHA-256 digest of the bytes.
#[verifier::external_body]
pub(crate) fn sha256(m: &[u8]) -> (r: [u8; 32])
    ensures
        r@ == sha256_of(m@),
{
    ssb_crypto::hash(m).0
}

/// Relies on `ssb_crypto::NetworkKey::authenticate`: the HMAC tag of the bytes.
#[verifier::external_body]
pub(crate) fn network_auth(key: &[u8; 32], m: &[u8]) -> (r: [u8; 32])
    ensures
        r@ == network_auth_of(key@, m@),
{
    ssb_crypto::NetworkKey(*key).authenticate(m).0
}

/// Relies on `ssb_crypto::NetworkKey::verify`: it recomputes the tag of the
/// bytes and compares it with the given one in constant time.
#[verifier::external_body]
pub(crate) fn network_verify(key: &[u8; 32], tag: &[u8; 32], m: &[u8]) -> (r: bool)
    ensures
        r == (tag@ == network_auth_of(key@, m@)),
{
    ssb_crypto::NetworkKey(*key).verify(&ssb_crypto::NetworkAuth(*tag), m)
}

/// Relies on `ssb_crypto::ephemeral::derive_shared_secret`, which always
/// returns a secret.
#[verifier::external_body]
pub(crate) fn x25519(sk: &[u8; 32], pk: &[u8; 32]) -> (r: Option<[u8; 32]>)
    ensures
        opt_view(r) == Some(x25519_of(sk@, pk@)),
{
    let sk = ssb_crypto::ephemeral::EphSecretKey(*sk);
    let pk = ssb_crypto::ephemeral::EphPublicKey(*pk);
    ssb_crypto::ephemeral::derive_shared_secret(&sk, &pk).map(|s| s.0.clone())
}

/// Relies on `ssb_crypto::ephemeral::derive_shared_secret_pk`, which returns
/// `None` unless the Ed25519 public key decompresses to a point.
#[verifier::external_body]
pub(crate) fn eph_ed_dh(sk: &[u8; 32], pk: &[u8; 32]) -> (r: Option<[u8; 32]>)
    ensures
        opt_view(r) == eph_ed_dh_of(sk@, pk@),
        r is Some ==> ed_point_valid(pk@),
{
    let sk = ssb_crypto::ephemeral::EphSecretKey(*sk);
    let pk = ssb_crypto::PublicKey(*pk);
    ssb_crypto::ephemeral::derive_shared_secret_pk(&sk, &pk).map(|s| s.0.clone())
}

/// Relies on `ssb_crypto::ephemeral::derive_shared_secret_sk`, which always
/// returns a secret.
#[verifier::external_body]
pub(crate) fn ed_eph_dh(sk: &[u8; 32], pk: &[u8; 32]) -> (r: Option<[u8; 32]>)
    ensures
        opt_view(r) == Some(ed_eph_dh_of(sk@, pk@)),
{
    let sk = ssb_crypto::SecretKey(*sk);
    let pk = ssb_crypto::ephemeral::EphPublicKey(*pk);
    ssb_crypto::ephemeral::derive_shared_secret_sk(&sk, &pk).map(|s| s.0.clone())
}

/// Relies on `curve25519_dalek::edwards::CompressedEdwardsY::decompress`:
/// whether the bytes are a compressed Edwards point.
#[verifier::external_body]
pub(crate) fn point_valid(pk: &[u8; 32]) -> (r: bool)
    ensures
        r == ed_point_valid(pk@),
{
    curve25519_dalek::edwards::CompressedEdwardsY(*pk).decompress().is_some()
}

/// Relies on `ssb_crypto::Keypair::sign`, which panics unless the public key
/// decompresses to a point.
#[verifier::external_body]
pub(crate) fn sign(sk: &[u8; 32], pk: &[u8; 32], m: &[u8]) -> (r: [u8; 64])
    requires
        ed_point_valid(pk@),
    ensures
        r@ == ed25519_sig_of(sk@, pk@, m@),
{
    let kp = ssb_crypto::Keypair {
        secret: ssb_crypto::SecretKey(*sk),
        public: ssb_crypto::PublicKey(*pk),
    };
    kp.sign(m).0
}

/// Relies on `ssb_crypto::PublicKey::verify`, which panics unless the public
/// key decompresses to a point and the top three bits of the signature's last
/// byte are clear.
#[verifier::external_body]
pub(crate) fn verify(pk: &[u8; 32], sig: &[u8; 64], m: &[u8]) -> (r: bool)
    requires
        ed_point_valid(pk@),
        sig@[63] & 0xe0u8 == 0,
    ensures
        r == ed25519_verifies(pk@, sig@, m@),
{
    ssb_crypto::PublicKey(*pk).verify(&ssb_crypto::Signature(*sig), m)
}

/// Relies on `ssb_crypto::secretbox::Key::seal`: it encrypts the buffer in
/// place and returns the tag.
#[verifier::external_body]
pub(crate) fn seal(key: &[u8; 32], nonce: &[u8; 24], m: &mut Vec<u8>) -> (r: [u8; 16])
    ensures
        final(m)@.len() == old(m)@.len(),
        r@ + final(m)@ == secretbox_of(key@, nonce@, old(m)@),
{
    let key = ssb_crypto::secretbox::Key(*key);
    key.seal(m.as_mut_slice(), &ssb_crypto::secretbox::Nonce(*nonce)).0
}

/// Relies on `ssb_crypto::secretbox::Key::open`: it checks the tag and, where
/// it authenticates the ciphertext, decrypts the buffer in place.
#[verifier::external_body]
pub(crate) fn open(key: &[u8; 32], nonce: &[u8; 24], tag: &[u8; 16], c: &mut Vec<u8>) -> (r:
    bool)
    ensures
        final(c)@.len() == old(c)@.len(),
        r == (secretbox_open_of(key@, nonce@, tag@ + old(c)@) is Some),
        r ==> final(c)@ == secretbox_open_of(key@, nonce@, tag@ + old(c)@)->Some_0,
{
    let key = ssb_crypto::secretbox::Key(*key);
    let n = ssb_crypto::secretbox::Nonce(*nonce);
    key.open(c.as_mut_slice(), &ssb_crypto::secretbox::Hmac(*tag), &n)
}

} // verus!
