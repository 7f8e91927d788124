use ssb_crypto::ephemeral::{derive_shared_secret, generate_ephemeral_keypair, EphPublicKey, EphSecretKey};
use ssb_crypto::{Keypair, NetworkKey};
use ssb_handshake::handshake::{
    ClientAwaitingAccept, ClientHandshake, HandshakeError, ServerAwaitingAuth, ServerHandshake,
};
use ssb_handshake::keys::{shared_eph_eph, starting_nonce, HandshakeKeys, Identity};
use ssb_handshake::message::{build_hello, open_hello, CLIENT_AUTH_LEN, HELLO_LEN, SERVER_ACCEPT_LEN};

struct Material {
    net: [u8; 32],
    client: Keypair,
    server: Keypair,
    client_eph: ([u8; 32], [u8; 32]),
    server_eph: ([u8; 32], [u8; 32]),
}

fn identity(kp: &Keypair) -> Identity {
    Identity::from_parts(kp.secret.0, kp.public.0).unwrap()
}

fn fresh_eph() -> ([u8; 32], [u8; 32]) {
    let (pk, sk) = generate_ephemeral_keypair();
    (pk.0, sk.0.clone())
}

/// An ephemeral key pair from fixed secret bytes, clamped as generated
/// Curve25519 secrets are.
fn eph_from_secret(mut sk: [u8; 32]) -> ([u8; 32], [u8; 32]) {
    sk[0] &= 248;
    sk[31] &= 127;
    sk[31] |= 64;
    let mut base = [0u8; 32];
    base[0] = 9;
    let pk = derive_shared_secret(&EphSecretKey(sk), &EphPublicKey(base)).unwrap();
    (pk.0.clone(), sk)
}

fn random_material(net: [u8; 32]) -> Material {
    Material {
        net,
        client: Keypair::generate(),
        server: Keypair::generate(),
        client_eph: fresh_eph(),
        server_eph: fresh_eph(),
    }
}

fn fixed_material() -> Material {
    Material {
        net: NetworkKey::SSB_MAIN_NET.0,
        client: Keypair::from_seed(&[1u8; 32]).unwrap(),
        server: Keypair::from_seed(&[2u8; 32]).unwrap(),
        client_eph: eph_from_secret([3u8; 32]),
        server_eph: eph_from_secret([4u8; 32]),
    }
}

fn client_of(m: &Material, net: [u8; 32], server_pk: [u8; 32]) -> ClientHandshake {
    ClientHandshake::new(net, identity(&m.client), server_pk, m.client_eph.0, m.client_eph.1)
}

fn server_of(m: &Material, net: [u8; 32]) -> ServerHandshake {
    ServerHandshake::new(net, identity(&m.server), m.server_eph.0, m.server_eph.1)
}

/// Runs both sides to the point where the server waits for the ClientAuth;
/// returns that state and the ClientAuth.
fn to_client_auth(m: &Material) -> (ClientAwaitingAccept, ServerAwaitingAuth, Vec<u8>) {
    let client = client_of(m, m.net, m.server.public.0);
    let server = server_of(m, m.net);
    let hello = client.hello();
    let (server, server_hello) = server.receive_client_hello(&hello).unwrap();
    let server = server.derive_shared_secrets().unwrap();
    let (client, auth) = client.receive_server_hello(&server_hello).unwrap();
    let client = client.derive_shared_c().unwrap();
    (client, server, auth)
}

fn run(m: &Material) -> (HandshakeKeys, HandshakeKeys, Vec<u8>, Vec<u8>) {
    let (client, server, auth) = to_client_auth(m);
    let (accept, s_keys) = server.receive_client_auth(&auth).unwrap();
    let c_keys = client.receive_server_accept(&accept).unwrap();
    (c_keys, s_keys, auth, accept)
}

#[test]
fn basic() {
    let m = random_material(NetworkKey::SSB_MAIN_NET.0);
    let (c_out, s_out, _, _) = run(&m);

    assert_eq!(c_out.write_key, s_out.read_key);
    assert_eq!(c_out.read_key, s_out.write_key);

    assert_eq!(c_out.write_starting_nonce, s_out.read_starting_nonce);
    assert_eq!(c_out.read_starting_nonce, s_out.write_starting_nonce);

    assert_eq!(c_out.peer_key, m.server.public.0);
    assert_eq!(s_out.peer_key, m.client.public.0);
    assert_ne!(c_out.write_key, c_out.read_key);
}

#[test]
fn server_rejects_wrong_netkey() {
    let cnet = NetworkKey::generate().0;
    let snet = NetworkKey::generate().0;
    let m = random_material(snet);
    let client = client_of(&m, cnet, m.server.public.0);
    let server = server_of(&m, snet);

    let hello = client.hello();
    match server.receive_client_hello(&hello) {
        Err(HandshakeError::ClientHelloVerifyFailed) => {}
        _ => panic!(),
    };
}

fn handshake_with_bad_server_pk(bad_pk: [u8; 32]) {
    let m = random_material(NetworkKey::SSB_MAIN_NET.0);
    let client = client_of(&m, m.net, bad_pk);
    let server = server_of(&m, m.net);

    let hello = client.hello();
    let (server, server_hello) = server.receive_client_hello(&hello).unwrap();
    let server = server.derive_shared_secrets().unwrap();
    match client.receive_server_hello(&server_hello) {
        // The client stops before sending its ClientAuth; the server's stream
        // then ends with nothing.
        Err(e) => {
            assert_eq!(e, HandshakeError::SharedBInvalid);
            assert!(server.receive_client_auth(&[]).is_err());
        }
        Ok((client, auth)) => {
            let c_out = match client.derive_shared_c() {
                Ok(client) => client.receive_server_accept(&[]),
                Err(e) => Err(e),
            };
            let s_out = server.receive_client_auth(&auth);
            assert!(c_out.is_err());
            assert!(s_out.is_err());
        }
    }
}

#[test]
fn server_rejects_wrong_pk() {
    handshake_with_bad_server_pk([0; 32]);

    let key = Keypair::generate();
    handshake_with_bad_server_pk(key.public.0);
}

#[test]
fn client_rejects_server_hello_of_other_network() {
    let m = random_material(NetworkKey::SSB_MAIN_NET.0);
    let client = client_of(&m, m.net, m.server.public.0);
    let other = NetworkKey::generate().0;
    let hello = build_hello(&other, &m.server_eph.0);
    match client.receive_server_hello(&hello) {
        Err(HandshakeError::ServerHelloVerifyFailed) => {}
        _ => panic!(),
    }
}

#[test]
fn hello_round_trip_and_widths() {
    let net = NetworkKey::SSB_MAIN_NET.0;
    let (pk, _) = fresh_eph();
    let hello = build_hello(&net, &pk);
    assert_eq!(hello.len(), HELLO_LEN);
    assert_ne!(&hello[0..32], &pk[..]);
    assert_eq!(&hello[32..64], &pk[..]);
    assert_eq!(open_hello(&net, &hello), Some(pk));
    assert_eq!(open_hello(&net, &hello[..63]), None);
    assert_eq!(open_hello(&NetworkKey::generate().0, &hello), None);
}

#[test]
fn message_widths() {
    let m = random_material(NetworkKey::SSB_MAIN_NET.0);
    let (_, _, auth, accept) = run(&m);
    assert_eq!(auth.len(), CLIENT_AUTH_LEN);
    assert_eq!(accept.len(), SERVER_ACCEPT_LEN);
}

#[test]
fn fixed_material_is_reproducible() {
    let m = fixed_material();
    let (c1, s1, auth1, accept1) = run(&m);
    let (c2, s2, auth2, accept2) = run(&m);
    assert_eq!(auth1, auth2);
    assert_eq!(accept1, accept2);
    assert_eq!(c1.read_key, c2.read_key);
    assert_eq!(c1.write_key, c2.write_key);
    assert_eq!(c1.read_starting_nonce, c2.read_starting_nonce);
    assert_eq!(c1.write_starting_nonce, c2.write_starting_nonce);
    assert_eq!(s1.read_key, s2.read_key);
    assert_eq!(s1.write_key, s2.write_key);
    assert_eq!(c1.write_key, s1.read_key);
    assert_eq!(c1.read_key, s1.write_key);
}

#[test]
fn starting_nonce_is_tag_prefix() {
    let net = NetworkKey::SSB_MAIN_NET.0;
    let (pk, _) = fresh_eph();
    let nonce = starting_nonce(&net, &pk);
    let tag = NetworkKey(net).authenticate(&pk).0;
    assert_eq!(&nonce[..], &tag[..24]);
    assert_ne!(&nonce[..], &pk[..24]);
}

#[test]
fn zero_ephemeral_key_is_rejected() {
    let (_, sk) = fresh_eph();
    assert_eq!(shared_eph_eph(&sk, &[0u8; 32]), None);

    let m = random_material(NetworkKey::SSB_MAIN_NET.0);
    let client = client_of(&m, m.net, m.server.public.0);
    let hello = build_hello(&m.net, &[0u8; 32]);
    match client.receive_server_hello(&hello) {
        Err(HandshakeError::SharedAInvalid) => {}
        _ => panic!(),
    }

    let server = server_of(&m, m.net);
    let (server, _) = server.receive_client_hello(&hello).unwrap();
    match server.derive_shared_secrets() {
        Err(HandshakeError::SharedAInvalid) => {}
        _ => panic!(),
    }
}

#[test]
fn tampered_client_auth_is_refused() {
    let m = fixed_material();
    let (_, _, auth) = to_client_auth(&m);
    for i in 0..auth.len() {
        for bit in 0..8 {
            let (_, server, _) = to_client_auth(&m);
            let mut bad = auth.clone();
            bad[i] ^= 1 << bit;
            match server.receive_client_auth(&bad) {
                Err(HandshakeError::ClientAuthVerifyFailed) => {}
                _ => panic!(),
            }
        }
    }
}

#[test]
fn tampered_server_accept_is_refused() {
    let m = fixed_material();
    let (_, _, _, accept) = run(&m);
    for i in 0..accept.len() {
        for bit in 0..8 {
            let (client, _, _) = to_client_auth(&m);
            let mut bad = accept.clone();
            bad[i] ^= 1 << bit;
            match client.receive_server_accept(&bad) {
                Err(HandshakeError::ServerAcceptVerifyFailed) => {}
                _ => panic!(),
            }
        }
    }
}

#[test]
fn server_accept_of_another_session_is_refused() {
    let m = fixed_material();
    let (_, _, _, accept) = run(&m);
    let other = random_material(m.net);
    let (client, _, _) = to_client_auth(&other);
    match client.receive_server_accept(&accept) {
        Err(HandshakeError::ServerAcceptVerifyFailed) => {}
        _ => panic!(),
    }
}

#[test]
fn identity_accepts_generated_keys() {
    let kp = Keypair::generate();
    let id = Identity::from_parts(kp.secret.0, kp.public.0).unwrap();
    assert_eq!(id.public(), kp.public.0);
    assert_eq!(id.secret(), kp.secret.0);
}

fn hex32(s: &str) -> [u8; 32] {
    let mut out = [0u8; 32];
    for i in 0..32 {
        out[i] = u8::from_str_radix(&s[2 * i..2 * i + 2], 16).unwrap();
    }
    out
}

#[test]
fn shared_secret_a_matches_known_vector() {
    let alice_sk = hex32("77076d0a7318a57d3c16c17251b26645df4c2f87ebc0992ab177fba51db92c2a");
    let alice_pk = hex32("8520f0098930a754748b7ddcb43ef75a0dbf3a0d26381af4eba4a98eaa9b4e6a");
    let bob_sk = hex32("5dab087e624a8a4b79e17f8b83800ee66f3bb1292618b6fd1c2f8b27ff88e0eb");
    let bob_pk = hex32("de9edb7d7b7dc1b4d35b61c2ece435373f8343c85b78674dadfc7e146f882b4f");
    let expected = hex32("4a5d9d5ba4ce2de1728e3bf480350f25e07e21c947d19e3376f09b3c1e161742");
    assert_eq!(shared_eph_eph(&alice_sk, &bob_pk), Some(expected));
    assert_eq!(shared_eph_eph(&bob_sk, &alice_pk), Some(expected));
}

#[test]
fn identity_refuses_keys_that_are_not_points() {
    let mut refused = 0;
    for b in 0..=255u8 {
        let mut pk = [0u8; 32];
        pk[0] = b;
        let is_point = curve25519_dalek::edwards::CompressedEdwardsY(pk).decompress().is_some();
        let id = Identity::from_parts([7u8; 32], pk);
        assert_eq!(id.is_some(), is_point);
        if id.is_none() {
            refused += 1;
        }
    }
    assert!(refused > 0);
}
