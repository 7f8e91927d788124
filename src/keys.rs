//! Long-term identities, the three Diffie-Hellman shared secrets and the
//! derivation of the session keys and starting nonces.
use vstd::prelude::*;

use crate::bytes::{append, is_zero32, take, zeros};
use crate::primitives::{
    ed_eph_dh, ed_eph_dh_of, ed_point_valid, eph_ed_dh, eph_ed_dh_of, network_auth,
    network_auth_of, opt_view, point_valid, sha256, sha256_of, x25519, x25519_of,
};

verus! {

/// A long-term Ed25519 key pair whose public half is a valid curve point, so
/// that it can sign.
pub struct Identity {
    secret: [u8; 32],
    public: [u8; 32],
}

impl Identity {
    #[verifier::type_invariant]
    spec fn inv(self) -> bool {
        ed_point_valid(self.public@)
    }

    /// The secret half.
    pub closed spec fn secret_key(self) -> Seq<u8> {
        self.secret@
    }

    /// The public half.
    pub closed spec fn public_key(self) -> Seq<u8> {
        self.public@
    }

    /// A key pair from its secret and public halves; `None` where the public
    /// half is not a compressed Edwards point.
    pub fn from_parts(secret: [u8; 32], public: [u8; 32]) -> (r: Option<Identity>)
        ensures
            r is Some == ed_point_valid(public@),
            r matches Some(id) ==> id.secret_key() == secret@ && id.public_key() == public@,
    {
        if point_valid(&public) {
            Some(Identity { secret, public })
        } else {
            None
        }
    }

    pub fn secret(&self) -> (r: [u8; 32])
        ensures
            r@ == self.secret_key(),
    {
        self.secret
    }

    pub fn public(&self) -> (r: [u8; 32])
        ensures
            r@ == self.public_key(),
            ed_point_valid(r@),
    {
        proof {
            use_type_invariant(self);
        }
        self.public
    }
}

/// A shared secret, or `None` where it is all zero (a degenerate point).
pub open spec fn non_degenerate(s: Seq<u8>) -> Option<Seq<u8>> {
    if s == zeros(32) {
        None
    } else {
        Some(s)
    }
}

/// Secret from two ephemeral keys: this side's secret, the peer's public key.
pub open spec fn shared_eph_eph_spec(my_sk: Seq<u8>, their_pk: Seq<u8>) -> Option<Seq<u8>> {
    non_degenerate(x25519_of(my_sk, their_pk))
}

/// Secret from this side's ephemeral secret and the peer's long-term key.
pub open spec fn shared_eph_longterm_spec(my_sk: Seq<u8>, their_pk: Seq<u8>) -> Option<Seq<u8>> {
    match eph_ed_dh_of(my_sk, their_pk) {
        Some(s) => non_degenerate(s),
        None => None,
    }
}

/// Secret from this side's long-term secret and the peer's ephemeral key.
pub open spec fn shared_longterm_eph_spec(my_sk: Seq<u8>, their_pk: Seq<u8>) -> Option<Seq<u8>> {
    non_degenerate(ed_eph_dh_of(my_sk, their_pk))
}

fn non_degenerate_exec(s: Option<[u8; 32]>) -> (r: Option<[u8; 32]>)
    ensures
        opt_view(r) == match opt_view(s) {
            Some(v) => non_degenerate(v),
            None => None,
        },
{
    match s {
        Some(v) => {
            if is_zero32(&v) {
                None
            } else {
                Some(v)
            }
        },
        None => None,
    }
}

/// No derivation of a shared secret hands out the all-zero value: a
/// degenerate result is refused.
pub proof fn lemma_no_degenerate_secret(my_sk: Seq<u8>, their_pk: Seq<u8>)
    ensures
        shared_eph_eph_spec(my_sk, their_pk) != Some(zeros(32)),
        shared_eph_longterm_spec(my_sk, their_pk) != Some(zeros(32)),
        shared_longterm_eph_spec(my_sk, their_pk) != Some(zeros(32)),
{
}

/// Diffie-Hellman of two ephemeral keys (shared secret A, on either side).
pub fn shared_eph_eph(my_sk: &[u8; 32], their_pk: &[u8; 32]) -> (r: Option<[u8; 32]>)
    ensures
        opt_view(r) == shared_eph_eph_spec(my_sk@, their_pk@),
{
    non_degenerate_exec(x25519(my_sk, their_pk))
}

/// Diffie-Hellman of this side's ephemeral secret and the peer's long-term
/// public key, converted to Curve25519 (the client's B, the server's C).
pub fn shared_eph_longterm(my_sk: &[u8; 32], their_pk: &[u8; 32]) -> (r: Option<[u8; 32]>)
    ensures
        opt_view(r) == shared_eph_longterm_spec(my_sk@, their_pk@),
        r is Some ==> ed_point_valid(their_pk@),
{
    non_degenerate_exec(eph_ed_dh(my_sk, their_pk))
}

/// Diffie-Hellman of this side's long-term secret, converted to Curve25519,
/// and the peer's ephemeral public key (the client's C, the server's B).
pub fn shared_longterm_eph(my_sk: &[u8; 32], their_pk: &[u8; 32]) -> (r: Option<[u8; 32]>)
    ensures
        opt_view(r) == shared_longterm_eph_spec(my_sk@, their_pk@),
{
    non_degenerate_exec(ed_eph_dh(my_sk, their_pk))
}

/// `H(netkey ∥ A ∥ B ∥ C)`: the key of the server's accept message, and the
/// root of both session keys.
pub open spec fn box_secret(net: Seq<u8>, a: Seq<u8>, b: Seq<u8>, c: Seq<u8>) -> Seq<u8> {
    sha256_of(net + a + b + c)
}

/// The key of the client-to-server direction.
pub open spec fn client_to_server_key_spec(
    net: Seq<u8>,
    a: Seq<u8>,
    b: Seq<u8>,
    c: Seq<u8>,
    server_pk: Seq<u8>,
) -> Seq<u8> {
    sha256_of(box_secret(net, a, b, c) + server_pk)
}

/// The key of the server-to-client direction.
pub open spec fn server_to_client_key_spec(
    net: Seq<u8>,
    a: Seq<u8>,
    b: Seq<u8>,
    c: Seq<u8>,
    client_pk: Seq<u8>,
) -> Seq<u8> {
    sha256_of(box_secret(net, a, b, c) + client_pk)
}

/// The first 24 bytes of the network-key tag of an ephemeral public key.
pub open spec fn starting_nonce_spec(net: Seq<u8>, eph_pk: Seq<u8>) -> Seq<u8> {
    network_auth_of(net, eph_pk).subrange(0, 24)
}

/// `H(netkey ∥ A ∥ B ∥ C)`.
pub fn derive_box_secret(net: &[u8; 32], a: &[u8; 32], b: &[u8; 32], c: &[u8; 32]) -> (r: [u8; 32])
    ensures
        r@ == box_secret(net@, a@, b@, c@),
{
    let mut buf: Vec<u8> = Vec::new();
    append(&mut buf, net.as_slice());
    append(&mut buf, a.as_slice());
    append(&mut buf, b.as_slice());
    append(&mut buf, c.as_slice());
    sha256(buf.as_slice())
}

fn hash_with_key(secret: &[u8; 32], pk: &[u8; 32]) -> (r: [u8; 32])
    ensures
        r@ == sha256_of(secret@ + pk@),
{
    let mut buf: Vec<u8> = Vec::new();
    append(&mut buf, secret.as_slice());
    append(&mut buf, pk.as_slice());
    sha256(buf.as_slice())
}

pub fn client_to_server_key(
    net: &[u8; 32],
    a: &[u8; 32],
    b: &[u8; 32],
    c: &[u8; 32],
    server_pk: &[u8; 32],
) -> (r: [u8; 32])
    ensures
        r@ == client_to_server_key_spec(net@, a@, b@, c@, server_pk@),
{
    hash_with_key(&derive_box_secret(net, a, b, c), server_pk)
}

pub fn server_to_client_key(
    net: &[u8; 32],
    a: &[u8; 32],
    b: &[u8; 32],
    c: &[u8; 32],
    client_pk: &[u8; 32],
) -> (r: [u8; 32])
    ensures
        r@ == server_to_client_key_spec(net@, a@, b@, c@, client_pk@),
{
    hash_with_key(&derive_box_secret(net, a, b, c), client_pk)
}

pub fn starting_nonce(net: &[u8; 32], eph_pk: &[u8; 32]) -> (r: [u8; 24])
    ensures
        r@ == starting_nonce_spec(net@, eph_pk@),
{
    let tag = network_auth(net, eph_pk.as_slice());
    take::<24>(tag.as_slice(), 0)
}

/// The outcome of a successful handshake: a key and a starting nonce for
/// each direction, and the peer's verified long-term public key.
pub struct HandshakeKeys {
    pub read_key: [u8; 32],
    pub read_starting_nonce: [u8; 24],
    pub write_key: [u8; 32],
    pub write_starting_nonce: [u8; 24],
    pub peer_key: [u8; 32],
}

/// What a side of the handshake ends up with, as byte strings.
pub struct SessionView {
    pub read_key: Seq<u8>,
    pub read_nonce: Seq<u8>,
    pub write_key: Seq<u8>,
    pub write_nonce: Seq<u8>,
    pub peer_key: Seq<u8>,
}

impl View for HandshakeKeys {
    type V = SessionView;

    open spec fn view(&self) -> SessionView {
        SessionView {
            read_key: self.read_key@,
            read_nonce: self.read_starting_nonce@,
            write_key: self.write_key@,
            write_nonce: self.write_starting_nonce@,
            peer_key: self.peer_key@,
        }
    }
}

/// What the client (initiator) ends up with.
pub open spec fn client_session(
    net: Seq<u8>,
    a: Seq<u8>,
    b: Seq<u8>,
    c: Seq<u8>,
    client_pk: Seq<u8>,
    server_pk: Seq<u8>,
    client_eph_pk: Seq<u8>,
    server_eph_pk: Seq<u8>,
) -> SessionView {
    SessionView {
        read_key: server_to_client_key_spec(net, a, b, c, client_pk),
        read_nonce: starting_nonce_spec(net, server_eph_pk),
        write_key: client_to_server_key_spec(net, a, b, c, server_pk),
        write_nonce: starting_nonce_spec(net, client_eph_pk),
        peer_key: server_pk,
    }
}

/// What the server (responder) ends up with.
pub open spec fn server_session(
    net: Seq<u8>,
    a: Seq<u8>,
    b: Seq<u8>,
    c: Seq<u8>,
    client_pk: Seq<u8>,
    server_pk: Seq<u8>,
    client_eph_pk: Seq<u8>,
    server_eph_pk: Seq<u8>,
) -> SessionView {
    SessionView {
        read_key: client_to_server_key_spec(net, a, b, c, server_pk),
        read_nonce: starting_nonce_spec(net, client_eph_pk),
        write_key: server_to_client_key_spec(net, a, b, c, client_pk),
        write_nonce: starting_nonce_spec(net, server_eph_pk),
        peer_key: client_pk,
    }
}

/// Both sides derive their session from the same network key, shared
/// secrets, long-term keys and ephemeral keys: the client's write key and
/// nonce are the server's read key and nonce, and the client's read key and
/// nonce are the server's write key and nonce; each side's peer key is the
/// other's long-term public key.
pub proof fn lemma_sessions_mirror(
    net: Seq<u8>,
    a: Seq<u8>,
    b: Seq<u8>,
    c: Seq<u8>,
    client_pk: Seq<u8>,
    server_pk: Seq<u8>,
    client_eph_pk: Seq<u8>,
    server_eph_pk: Seq<u8>,
)
    ensures
        ({
            let cs = client_session(net, a, b, c, client_pk, server_pk, client_eph_pk, server_eph_pk);
            let ss = server_session(net, a, b, c, client_pk, server_pk, client_eph_pk, server_eph_pk);
            &&& cs.write_key == ss.read_key
            &&& cs.read_key == ss.write_key
            &&& cs.write_nonce == ss.read_nonce
            &&& cs.read_nonce == ss.write_nonce
            &&& cs.peer_key == server_pk
            &&& ss.peer_key == client_pk
        }),
{
}

/// The session keys are a function of the key material alone: two results
/// that meet the client's (or the server's) contract for the same network key,
/// shared secrets, long-term keys and ephemeral keys are equal byte for byte.
pub proof fn lemma_session_reproducible(
    k1: HandshakeKeys,
    k2: HandshakeKeys,
    client_side: bool,
    net: Seq<u8>,
    a: Seq<u8>,
    b: Seq<u8>,
    c: Seq<u8>,
    client_pk: Seq<u8>,
    server_pk: Seq<u8>,
    client_eph_pk: Seq<u8>,
    server_eph_pk: Seq<u8>,
)
    requires
        client_side ==> k1@ == client_session(net, a, b, c, client_pk, server_pk, client_eph_pk, server_eph_pk),
        client_side ==> k2@ == client_session(net, a, b, c, client_pk, server_pk, client_eph_pk, server_eph_pk),
        !client_side ==> k1@ == server_session(net, a, b, c, client_pk, server_pk, client_eph_pk, server_eph_pk),
        !client_side ==> k2@ == server_session(net, a, b, c, client_pk, server_pk, client_eph_pk, server_eph_pk),
    ensures
        k1.read_key@ == k2.read_key@,
        k1.write_key@ == k2.write_key@,
        k1.read_starting_nonce@ == k2.read_starting_nonce@,
        k1.write_starting_nonce@ == k2.write_starting_nonce@,
        k1.peer_key@ == k2.peer_key@,
{
}

} // verus!
