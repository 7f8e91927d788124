//! The four handshake messages: fixed-width layouts, and the functions that
//! build them and check what a peer sent.
use vstd::prelude::*;

use crate::bytes::{append, take, zeros};
use crate::keys::Identity;
use crate::primitives::{
    ed25519_sig_of, ed25519_verifies, ed_point_valid, network_auth, network_auth_of,
    network_verify, open, point_valid, seal, secretbox_of, secretbox_open_of, sha256,
    sha256_of, sign, verify,
};

verus! {

/// Width of a ClientHello or a ServerHello: tag, then ephemeral public key.
pub const HELLO_LEN: usize = 64;

/// Width of a ClientAuth: box tag, then the boxed signature and public key.
pub const CLIENT_AUTH_LEN: usize = 112;

/// Width of a ServerAccept: box tag, then the boxed signature.
pub const SERVER_ACCEPT_LEN: usize = 80;

/// The boxes of the handshake are sealed under the all-zero nonce.
pub open spec fn box_nonce() -> Seq<u8> {
    zeros(24)
}

/// A hello: the network-key tag of the ephemeral public key, then the key.
pub open spec fn hello_spec(net: Seq<u8>, eph_pk: Seq<u8>) -> Seq<u8> {
    network_auth_of(net, eph_pk) + eph_pk
}

/// The ephemeral public key that a hello carries, where its width is right
/// and its tag is that of the key under the network key.
pub open spec fn hello_open_spec(net: Seq<u8>, msg: Seq<u8>) -> Option<Seq<u8>> {
    if msg.len() == HELLO_LEN && msg.subrange(0, 32) == network_auth_of(net, msg.subrange(32, 64)) {
        Some(msg.subrange(32, 64))
    } else {
        None
    }
}

/// Builds a ClientHello or a ServerHello.
pub fn build_hello(net: &[u8; 32], eph_pk: &[u8; 32]) -> (r: Vec<u8>)
    ensures
        r@ == hello_spec(net@, eph_pk@),
        r@.len() == HELLO_LEN,
{
    let tag = network_auth(net, eph_pk.as_slice());
    let mut out: Vec<u8> = Vec::new();
    append(&mut out, tag.as_slice());
    append(&mut out, eph_pk.as_slice());
    out
}

/// Checks a ClientHello or a ServerHello and returns the ephemeral public key
/// it carries.
pub fn open_hello(net: &[u8; 32], msg: &[u8]) -> (r: Option<[u8; 32]>)
    ensures
        crate::primitives::opt_view(r) == hello_open_spec(net@, msg@),
{
    if msg.len() != HELLO_LEN {
        return None;
    }
    let tag = take::<32>(msg, 0);
    let eph_pk = take::<32>(msg, 32);
    if network_verify(net, &tag, eph_pk.as_slice()) {
        Some(eph_pk)
    } else {
        None
    }
}

/// `H(netkey ∥ A ∥ B)`: the key of the ClientAuth box.
pub open spec fn client_auth_key(net: Seq<u8>, a: Seq<u8>, b: Seq<u8>) -> Seq<u8> {
    sha256_of(net + a + b)
}

/// What the client signs: `netkey ∥ server_pk ∥ A`.
pub open spec fn client_sig_payload(net: Seq<u8>, server_pk: Seq<u8>, a: Seq<u8>) -> Seq<u8> {
    net + server_pk + a
}

/// The client's signature over its payload.
pub open spec fn client_sig_spec(
    net: Seq<u8>,
    client_sk: Seq<u8>,
    client_pk: Seq<u8>,
    server_pk: Seq<u8>,
    a: Seq<u8>,
) -> Seq<u8> {
    ed25519_sig_of(client_sk, client_pk, client_sig_payload(net, server_pk, a))
}

/// A ClientAuth: the client's signature and long-term public key, boxed.
pub open spec fn client_auth_spec(
    net: Seq<u8>,
    client_sk: Seq<u8>,
    client_pk: Seq<u8>,
    server_pk: Seq<u8>,
    a: Seq<u8>,
    b: Seq<u8>,
) -> Seq<u8> {
    secretbox_of(
        client_auth_key(net, a, b),
        box_nonce(),
        client_sig_spec(net, client_sk, client_pk, server_pk, a) + client_pk,
    )
}

/// Whether a signature is well formed and valid under a public key that is a
/// curve point (anything else is no valid signature).
pub open spec fn signature_ok(pk: Seq<u8>, sig: Seq<u8>, m: Seq<u8>) -> bool {
    ed_point_valid(pk) && sig[63] & 0xe0u8 == 0 && ed25519_verifies(pk, sig, m)
}

/// The client's signature and long-term public key that a ClientAuth holds,
/// where its width is right, its box opens and the signature is valid.
pub open spec fn client_auth_open_spec(
    net: Seq<u8>,
    server_pk: Seq<u8>,
    a: Seq<u8>,
    b: Seq<u8>,
    msg: Seq<u8>,
) -> Option<(Seq<u8>, Seq<u8>)> {
    if msg.len() != CLIENT_AUTH_LEN {
        None
    } else {
        match secretbox_open_of(client_auth_key(net, a, b), box_nonce(), msg) {
            None => None,
            Some(p) => {
                let sig = p.subrange(0, 64);
                let client_pk = p.subrange(64, 96);
                if signature_ok(client_pk, sig, client_sig_payload(net, server_pk, a)) {
                    Some((sig, client_pk))
                } else {
                    None
                }
            },
        }
    }
}

fn hash3(x: &[u8; 32], y: &[u8; 32], z: &[u8; 32]) -> (r: [u8; 32])
    ensures
        r@ == sha256_of(x@ + y@ + z@),
{
    let mut buf: Vec<u8> = Vec::new();
    append(&mut buf, x.as_slice());
    append(&mut buf, y.as_slice());
    append(&mut buf, z.as_slice());
    sha256(buf.as_slice())
}

/// Seals a message under a key and the zero nonce: tag, then ciphertext.
fn seal_attached(key: &[u8; 32], m: Vec<u8>) -> (r: Vec<u8>)
    requires
        m@.len() + 16 <= usize::MAX,
    ensures
        r@ == secretbox_of(key@, box_nonce(), m@),
        r@.len() == m@.len() + 16,
{
    let nonce = [0u8; 24];
    assert(nonce@ =~= box_nonce());
    let mut body = m;
    let tag = seal(key, &nonce, &mut body);
    let mut out: Vec<u8> = Vec::new();
    append(&mut out, tag.as_slice());
    append(&mut out, body.as_slice());
    out
}

/// Opens a message sealed under a key and the zero nonce.
fn open_attached(key: &[u8; 32], msg: &[u8]) -> (r: Option<Vec<u8>>)
    requires
        msg@.len() >= 16,
    ensures
        match r {
            Some(p) => secretbox_open_of(key@, box_nonce(), msg@) == Some(p@) && p@.len() == msg@.len()
                - 16,
            None => secretbox_open_of(key@, box_nonce(), msg@) is None,
        },
{
    let nonce = [0u8; 24];
    assert(nonce@ =~= box_nonce());
    let tag = take::<16>(msg, 0);
    let len: usize = msg.len();
    assert(len == msg@.len());
    let mut body: Vec<u8> = Vec::new();
    append(&mut body, slice_from(msg, 16));
    assert(tag@ + body@ =~= msg@);
    if open(key, &nonce, &tag, &mut body) {
        Some(body)
    } else {
        None
    }
}

fn slice_from(b: &[u8], start: usize) -> (r: &[u8])
    requires
        start <= b@.len(),
    ensures
        r@ == b@.subrange(start as int, b@.len() as int),
{
    vstd::slice::slice_subrange(b, start, b.len())
}

/// Checks a signature, refusing a malformed one or a public key that is not a
/// curve point.
fn signature_valid(pk: &[u8; 32], sig: &[u8; 64], m: &[u8]) -> (r: bool)
    ensures
        r == signature_ok(pk@, sig@, m@),
{
    if !point_valid(pk) {
        return false;
    }
    if sig[63] & 0xe0u8 != 0 {
        return false;
    }
    verify(pk, sig, m)
}

/// Builds the ClientAuth; returns it with the client's signature, which the
/// ServerAccept is checked against.
pub fn build_client_auth(
    net: &[u8; 32],
    client: &Identity,
    server_pk: &[u8; 32],
    a: &[u8; 32],
    b: &[u8; 32],
) -> (r: (Vec<u8>, [u8; 64]))
    ensures
        r.0@ == client_auth_spec(net@, client.secret_key(), client.public_key(), server_pk@, a@, b@),
        r.0@.len() == CLIENT_AUTH_LEN,
        r.1@ == client_sig_spec(net@, client.secret_key(), client.public_key(), server_pk@, a@),
{
    let sk = client.secret();
    let pk = client.public();
    let mut payload: Vec<u8> = Vec::new();
    append(&mut payload, net.as_slice());
    append(&mut payload, server_pk.as_slice());
    append(&mut payload, a.as_slice());
    let sig = sign(&sk, &pk, payload.as_slice());
    let mut plain: Vec<u8> = Vec::new();
    append(&mut plain, sig.as_slice());
    append(&mut plain, pk.as_slice());
    let key = hash3(net, a, b);
    (seal_attached(&key, plain), sig)
}

/// The ephemeral public key that a well-formed hello carries is found again
/// by checking it under the same network key.
pub proof fn lemma_hello_round_trip(net: Seq<u8>, eph_pk: Seq<u8>)
    requires
        eph_pk.len() == 32,
        network_auth_of(net, eph_pk).len() == 32,
    ensures
        hello_open_spec(net, hello_spec(net, eph_pk)) == Some(eph_pk),
{
    let msg = hello_spec(net, eph_pk);
    assert(msg.subrange(0, 32) =~= network_auth_of(net, eph_pk));
    assert(msg.subrange(32, 64) =~= eph_pk);
}

/// A hello built under one network key is refused under another exactly
/// when the two keys give the ephemeral key different tags.
pub proof fn lemma_hello_network_isolation(built: Seq<u8>, checked: Seq<u8>, eph_pk: Seq<u8>)
    requires
        eph_pk.len() == 32,
        network_auth_of(built, eph_pk).len() == 32,
    ensures
        hello_open_spec(checked, hello_spec(built, eph_pk)) is None <==> network_auth_of(built, eph_pk)
            != network_auth_of(checked, eph_pk),
{
    let msg = hello_spec(built, eph_pk);
    assert(msg.subrange(0, 32) =~= network_auth_of(built, eph_pk));
    assert(msg.subrange(32, 64) =~= eph_pk);
}

/// Checks a ClientAuth and returns the client's signature and long-term
/// public key.
pub fn open_client_auth(
    net: &[u8; 32],
    server_pk: &[u8; 32],
    a: &[u8; 32],
    b: &[u8; 32],
    msg: &[u8],
) -> (r: Option<([u8; 64], [u8; 32])>)
    ensures
        match r {
            Some((sig, pk)) => client_auth_open_spec(net@, server_pk@, a@, b@, msg@) == Some(
                (sig@, pk@),
            ),
            None => client_auth_open_spec(net@, server_pk@, a@, b@, msg@) is None,
        },
{
    if msg.len() != CLIENT_AUTH_LEN {
        return None;
    }
    let key = hash3(net, a, b);
    match open_attached(&key, msg) {
        None => None,
        Some(p) => {
            let sig = take::<64>(p.as_slice(), 0);
            let client_pk = take::<32>(p.as_slice(), 64);
            let mut payload: Vec<u8> = Vec::new();
            append(&mut payload, net.as_slice());
            append(&mut payload, server_pk.as_slice());
            append(&mut payload, a.as_slice());
            if signature_valid(&client_pk, &sig, payload.as_slice()) {
                Some((sig, client_pk))
            } else {
                None
            }
        },
    }
}

/// `H(netkey ∥ A ∥ B ∥ C)`: the key of the ServerAccept box.
pub open spec fn server_accept_key(net: Seq<u8>, a: Seq<u8>, b: Seq<u8>, c: Seq<u8>) -> Seq<u8> {
    sha256_of(net + a + b + c)
}

/// What the server signs: `netkey ∥ client_sig ∥ client_pk ∥ A`.
pub open spec fn server_sig_payload(
    net: Seq<u8>,
    client_sig: Seq<u8>,
    client_pk: Seq<u8>,
    a: Seq<u8>,
) -> Seq<u8> {
    net + client_sig + client_pk + a
}

/// A ServerAccept: the server's signature, boxed.
pub open spec fn server_accept_spec(
    net: Seq<u8>,
    server_sk: Seq<u8>,
    server_pk: Seq<u8>,
    client_sig: Seq<u8>,
    client_pk: Seq<u8>,
    a: Seq<u8>,
    b: Seq<u8>,
    c: Seq<u8>,
) -> Seq<u8> {
    secretbox_of(
        server_accept_key(net, a, b, c),
        box_nonce(),
        ed25519_sig_of(server_sk, server_pk, server_sig_payload(net, client_sig, client_pk, a)),
    )
}

/// Whether a ServerAccept has the right width, its box opens and it holds the
/// server's valid signature.
pub open spec fn server_accept_ok(
    net: Seq<u8>,
    server_pk: Seq<u8>,
    client_sig: Seq<u8>,
    client_pk: Seq<u8>,
    a: Seq<u8>,
    b: Seq<u8>,
    c: Seq<u8>,
    msg: Seq<u8>,
) -> bool {
    msg.len() == SERVER_ACCEPT_LEN && match secretbox_open_of(
        server_accept_key(net, a, b, c),
        box_nonce(),
        msg,
    ) {
        None => false,
        Some(sig) => signature_ok(server_pk, sig, server_sig_payload(net, client_sig, client_pk, a)),
    }
}

fn server_payload(net: &[u8; 32], client_sig: &[u8; 64], client_pk: &[u8; 32], a: &[u8; 32]) -> (r:
    Vec<u8>)
    ensures
        r@ == server_sig_payload(net@, client_sig@, client_pk@, a@),
{
    let mut payload: Vec<u8> = Vec::new();
    append(&mut payload, net.as_slice());
    append(&mut payload, client_sig.as_slice());
    append(&mut payload, client_pk.as_slice());
    append(&mut payload, a.as_slice());
    payload
}

/// Builds the ServerAccept.
pub fn build_server_accept(
    net: &[u8; 32],
    server: &Identity,
    client_sig: &[u8; 64],
    client_pk: &[u8; 32],
    a: &[u8; 32],
    b: &[u8; 32],
    c: &[u8; 32],
) -> (r: Vec<u8>)
    ensures
        r@ == server_accept_spec(
            net@,
            server.secret_key(),
            server.public_key(),
            client_sig@,
            client_pk@,
            a@,
            b@,
            c@,
        ),
        r@.len() == SERVER_ACCEPT_LEN,
{
    let sk = server.secret();
    let pk = server.public();
    let payload = server_payload(net, client_sig, client_pk, a);
    let sig = sign(&sk, &pk, payload.as_slice());
    let mut plain: Vec<u8> = Vec::new();
    append(&mut plain, sig.as_slice());
    let key = crate::keys::derive_box_secret(net, a, b, c);
    seal_attached(&key, plain)
}

/// Checks a ServerAccept against the signature the client sent.
pub fn verify_server_accept(
    net: &[u8; 32],
    server_pk: &[u8; 32],
    client_sig: &[u8; 64],
    client_pk: &[u8; 32],
    a: &[u8; 32],
    b: &[u8; 32],
    c: &[u8; 32],
    msg: &[u8],
) -> (r: bool)
    ensures
        r == server_accept_ok(net@, server_pk@, client_sig@, client_pk@, a@, b@, c@, msg@),
{
    if msg.len() != SERVER_ACCEPT_LEN {
        return false;
    }
    let key = crate::keys::derive_box_secret(net, a, b, c);
    match open_attached(&key, msg) {
        None => false,
        Some(p) => {
            let sig = take::<64>(p.as_slice(), 0);
            assert(sig@ =~= p@);
            let payload = server_payload(net, client_sig, client_pk, a);
            signature_valid(server_pk, &sig, payload.as_slice())
        },
    }
}

} // verus!
