//! The two sides of the handshake as state machines. Each step consumes the
//! peer's next message (or nothing) and produces the next state together with
//! the message to send; the caller moves the bytes over its transport.
use vstd::prelude::*;

use crate::keys::{
    client_session, server_session, shared_eph_eph, shared_eph_eph_spec, shared_eph_longterm,
    shared_eph_longterm_spec, shared_longterm_eph, shared_longterm_eph_spec, client_to_server_key,
    server_to_client_key, starting_nonce, HandshakeKeys, Identity,
};
use crate::message::{
    build_client_auth, build_hello, build_server_accept, client_auth_open_spec, client_auth_spec,
    client_sig_spec, hello_open_spec, hello_spec, open_client_auth, open_hello,
    server_accept_ok, server_accept_spec, verify_server_accept,
};

verus! {

/// Why a handshake failed. Every failure ends the handshake.
#[derive(Debug, Clone, Copy, PartialEq, Eq, Structural)]
pub enum HandshakeError {
    /// The ClientHello's tag is not that of the network key.
    ClientHelloVerifyFailed,
    /// The ServerHello's tag is not that of the network key.
    ServerHelloVerifyFailed,
    /// The ClientAuth did not open, or its signature is not valid.
    ClientAuthVerifyFailed,
    /// The ServerAccept did not open, or its signature is not valid.
    ServerAcceptVerifyFailed,
    /// Shared secret A is degenerate.
    SharedAInvalid,
    /// Shared secret B is degenerate, or the server's key is no usable point.
    SharedBInvalid,
    /// Shared secret C is degenerate, or the client's key is no usable point.
    SharedCInvalid,
}

/// The client before anything is sent.
pub struct ClientHandshake {
    pub net_key: [u8; 32],
    pub identity: Identity,
    pub server_pk: [u8; 32],
    pub eph_pk: [u8; 32],
    pub eph_sk: [u8; 32],
}

/// The client after it has sent its ClientAuth.
pub struct ClientAuthSent {
    pub net_key: [u8; 32],
    pub identity: Identity,
    pub server_pk: [u8; 32],
    pub eph_pk: [u8; 32],
    pub eph_sk: [u8; 32],
    pub server_eph_pk: [u8; 32],
    pub shared_a: [u8; 32],
    pub shared_b: [u8; 32],
    pub client_sig: [u8; 64],
}

/// The client waiting for the ServerAccept.
pub struct ClientAwaitingAccept {
    pub net_key: [u8; 32],
    pub identity: Identity,
    pub server_pk: [u8; 32],
    pub eph_pk: [u8; 32],
    pub server_eph_pk: [u8; 32],
    pub shared_a: [u8; 32],
    pub shared_b: [u8; 32],
    pub shared_c: [u8; 32],
    pub client_sig: [u8; 64],
}

impl ClientHandshake {
    /// A client that will authenticate as `identity` to the server whose
    /// long-term public key is `server_pk`, with a fresh ephemeral key pair.
    pub fn new(
        net_key: [u8; 32],
        identity: Identity,
        server_pk: [u8; 32],
        eph_pk: [u8; 32],
        eph_sk: [u8; 32],
    ) -> (r: ClientHandshake)
        ensures
            r.net_key == net_key,
            r.identity == identity,
            r.server_pk == server_pk,
            r.eph_pk == eph_pk,
            r.eph_sk == eph_sk,
    {
        ClientHandshake { net_key, identity, server_pk, eph_pk, eph_sk }
    }

    /// The ClientHello to send first.
    pub fn hello(&self) -> (r: Vec<u8>)
        ensures
            r@ == hello_spec(self.net_key@, self.eph_pk@),
    {
        build_hello(&self.net_key, &self.eph_pk)
    }

    /// Takes the ServerHello; derives shared secrets A and B and returns the
    /// ClientAuth to send.
    pub fn receive_server_hello(self, msg: &[u8]) -> (r: Result<(ClientAuthSent, Vec<u8>), HandshakeError>)
        ensures
            match hello_open_spec(self.net_key@, msg@) {
                None => r == Err::<(ClientAuthSent, Vec<u8>), _>(HandshakeError::ServerHelloVerifyFailed),
                Some(server_eph) => match shared_eph_eph_spec(self.eph_sk@, server_eph) {
                    None => r == Err::<(ClientAuthSent, Vec<u8>), _>(HandshakeError::SharedAInvalid),
                    Some(a) => match shared_eph_longterm_spec(self.eph_sk@, self.server_pk@) {
                        None => r == Err::<(ClientAuthSent, Vec<u8>), _>(HandshakeError::SharedBInvalid),
                        Some(b) => r matches Ok((next, out)) && {
                            &&& next.net_key == self.net_key
                            &&& next.identity == self.identity
                            &&& next.server_pk == self.server_pk
                            &&& next.eph_pk == self.eph_pk
                            &&& next.eph_sk == self.eph_sk
                            &&& next.server_eph_pk@ == server_eph
                            &&& next.shared_a@ == a
                            &&& next.shared_b@ == b
                            &&& next.client_sig@ == client_sig_spec(
                                self.net_key@,
                                self.identity.secret_key(),
                                self.identity.public_key(),
                                self.server_pk@,
                                a,
                            )
                            &&& out@ == client_auth_spec(
                                self.net_key@,
                                self.identity.secret_key(),
                                self.identity.public_key(),
                                self.server_pk@,
                                a,
                                b,
                            )
                        },
                    },
                },
            },
    {
        let server_eph_pk = match open_hello(&self.net_key, msg) {
            Some(k) => k,
            None => return Err(HandshakeError::ServerHelloVerifyFailed),
        };
        let shared_a = match shared_eph_eph(&self.eph_sk, &server_eph_pk) {
            Some(s) => s,
            None => return Err(HandshakeError::SharedAInvalid),
        };
        let shared_b = match shared_eph_longterm(&self.eph_sk, &self.server_pk) {
            Some(s) => s,
            None => return Err(HandshakeError::SharedBInvalid),
        };
        let (auth, client_sig) = build_client_auth(
            &self.net_key,
            &self.identity,
            &self.server_pk,
            &shared_a,
            &shared_b,
        );
        let next = ClientAuthSent {
            net_key: self.net_key,
            identity: self.identity,
            server_pk: self.server_pk,
            eph_pk: self.eph_pk,
            eph_sk: self.eph_sk,
            server_eph_pk,
            shared_a,
            shared_b,
            client_sig,
        };
        Ok((next, auth))
    }
}

impl ClientAuthSent {
    /// Derives shared secret C from the client's long-term secret and the
    /// server's ephemeral key.
    pub fn derive_shared_c(self) -> (r: Result<ClientAwaitingAccept, HandshakeError>)
        ensures
            match shared_longterm_eph_spec(self.identity.secret_key(), self.server_eph_pk@) {
                None => r == Err::<ClientAwaitingAccept, _>(HandshakeError::SharedCInvalid),
                Some(c) => r matches Ok(next) && {
                    &&& next.net_key == self.net_key
                    &&& next.identity == self.identity
                    &&& next.server_pk == self.server_pk
                    &&& next.eph_pk == self.eph_pk
                    &&& next.server_eph_pk == self.server_eph_pk
                    &&& next.shared_a == self.shared_a
                    &&& next.shared_b == self.shared_b
                    &&& next.shared_c@ == c
                    &&& next.client_sig == self.client_sig
                },
            },
    {
        let sk = self.identity.secret();
        let shared_c = match shared_longterm_eph(&sk, &self.server_eph_pk) {
            Some(s) => s,
            None => return Err(HandshakeError::SharedCInvalid),
        };
        Ok(
            ClientAwaitingAccept {
                net_key: self.net_key,
                identity: self.identity,
                server_pk: self.server_pk,
                eph_pk: self.eph_pk,
                server_eph_pk: self.server_eph_pk,
                shared_a: self.shared_a,
                shared_b: self.shared_b,
                shared_c,
                client_sig: self.client_sig,
            },
        )
    }
}

impl ClientAwaitingAccept {
    /// Takes the ServerAccept; on success the client's session keys.
    pub fn receive_server_accept(self, msg: &[u8]) -> (r: Result<HandshakeKeys, HandshakeError>)
        ensures
            if server_accept_ok(
                self.net_key@,
                self.server_pk@,
                self.client_sig@,
                self.identity.public_key(),
                self.shared_a@,
                self.shared_b@,
                self.shared_c@,
                msg@,
            ) {
                r matches Ok(keys) && keys@ == client_session(
                    self.net_key@,
                    self.shared_a@,
                    self.shared_b@,
                    self.shared_c@,
                    self.identity.public_key(),
                    self.server_pk@,
                    self.eph_pk@,
                    self.server_eph_pk@,
                )
            } else {
                r == Err::<HandshakeKeys, _>(HandshakeError::ServerAcceptVerifyFailed)
            },
    {
        let client_pk = self.identity.public();
        if !verify_server_accept(
            &self.net_key,
            &self.server_pk,
            &self.client_sig,
            &client_pk,
            &self.shared_a,
            &self.shared_b,
            &self.shared_c,
            msg,
        ) {
            return Err(HandshakeError::ServerAcceptVerifyFailed);
        }
        let net = &self.net_key;
        Ok(
            HandshakeKeys {
                read_key: server_to_client_key(
                    net,
                    &self.shared_a,
                    &self.shared_b,
                    &self.shared_c,
                    &client_pk,
                ),
                read_starting_nonce: starting_nonce(net, &self.server_eph_pk),
                write_key: client_to_server_key(
                    net,
                    &self.shared_a,
                    &self.shared_b,
                    &self.shared_c,
                    &self.server_pk,
                ),
                write_starting_nonce: starting_nonce(net, &self.eph_pk),
                peer_key: self.server_pk,
            },
        )
    }
}

/// The server before the ClientHello has come.
pub struct ServerHandshake {
    pub net_key: [u8; 32],
    pub identity: Identity,
    pub eph_pk: [u8; 32],
    pub eph_sk: [u8; 32],
}

/// The server after it has sent its ServerHello.
pub struct ServerHelloSent {
    pub net_key: [u8; 32],
    pub identity: Identity,
    pub eph_pk: [u8; 32],
    pub eph_sk: [u8; 32],
    pub client_eph_pk: [u8; 32],
}

/// The server waiting for the ClientAuth.
pub struct ServerAwaitingAuth {
    pub net_key: [u8; 32],
    pub identity: Identity,
    pub eph_pk: [u8; 32],
    pub eph_sk: [u8; 32],
    pub client_eph_pk: [u8; 32],
    pub shared_a: [u8; 32],
    pub shared_b: [u8; 32],
}

impl ServerHandshake {
    /// A server that answers as `identity`, with a fresh ephemeral key pair.
    pub fn new(net_key: [u8; 32], identity: Identity, eph_pk: [u8; 32], eph_sk: [u8; 32]) -> (r:
        ServerHandshake)
        ensures
            r.net_key == net_key,
            r.identity == identity,
            r.eph_pk == eph_pk,
            r.eph_sk == eph_sk,
    {
        ServerHandshake { net_key, identity, eph_pk, eph_sk }
    }

    /// Takes the ClientHello; returns the ServerHello to send.
    pub fn receive_client_hello(self, msg: &[u8]) -> (r: Result<(ServerHelloSent, Vec<u8>), HandshakeError>)
        ensures
            match hello_open_spec(self.net_key@, msg@) {
                None => r == Err::<(ServerHelloSent, Vec<u8>), _>(HandshakeError::ClientHelloVerifyFailed),
                Some(client_eph) => r matches Ok((next, out)) && {
                    &&& next.net_key == self.net_key
                    &&& next.identity == self.identity
                    &&& next.eph_pk == self.eph_pk
                    &&& next.eph_sk == self.eph_sk
                    &&& next.client_eph_pk@ == client_eph
                    &&& out@ == hello_spec(self.net_key@, self.eph_pk@)
                },
            },
    {
        let client_eph_pk = match open_hello(&self.net_key, msg) {
            Some(k) => k,
            None => return Err(HandshakeError::ClientHelloVerifyFailed),
        };
        let out = build_hello(&self.net_key, &self.eph_pk);
        let next = ServerHelloSent {
            net_key: self.net_key,
            identity: self.identity,
            eph_pk: self.eph_pk,
            eph_sk: self.eph_sk,
            client_eph_pk,
        };
        Ok((next, out))
    }
}

impl ServerHelloSent {
    /// Derives shared secrets A and B from the client's ephemeral key.
    pub fn derive_shared_secrets(self) -> (r: Result<ServerAwaitingAuth, HandshakeError>)
        ensures
            match shared_eph_eph_spec(self.eph_sk@, self.client_eph_pk@) {
                None => r == Err::<ServerAwaitingAuth, _>(HandshakeError::SharedAInvalid),
                Some(a) => match shared_longterm_eph_spec(
                    self.identity.secret_key(),
                    self.client_eph_pk@,
                ) {
                    None => r == Err::<ServerAwaitingAuth, _>(HandshakeError::SharedBInvalid),
                    Some(b) => r matches Ok(next) && {
                        &&& next.net_key == self.net_key
                        &&& next.identity == self.identity
                        &&& next.eph_pk == self.eph_pk
                        &&& next.eph_sk == self.eph_sk
                        &&& next.client_eph_pk == self.client_eph_pk
                        &&& next.shared_a@ == a
                        &&& next.shared_b@ == b
                    },
                },
            },
    {
        let shared_a = match shared_eph_eph(&self.eph_sk, &self.client_eph_pk) {
            Some(s) => s,
            None => return Err(HandshakeError::SharedAInvalid),
        };
        let sk = self.identity.secret();
        let shared_b = match shared_longterm_eph(&sk, &self.client_eph_pk) {
            Some(s) => s,
            None => return Err(HandshakeError::SharedBInvalid),
        };
        Ok(
            ServerAwaitingAuth {
                net_key: self.net_key,
                identity: self.identity,
                eph_pk: self.eph_pk,
                eph_sk: self.eph_sk,
                client_eph_pk: self.client_eph_pk,
                shared_a,
                shared_b,
            },
        )
    }
}

impl ServerAwaitingAuth {
    /// Takes the ClientAuth, learning the client's long-term key; derives
    /// shared secret C and returns the ServerAccept to send and the server's
    /// session keys.
    pub fn receive_client_auth(self, msg: &[u8]) -> (r: Result<(Vec<u8>, HandshakeKeys), HandshakeError>)
        ensures
            match client_auth_open_spec(
                self.net_key@,
                self.identity.public_key(),
                self.shared_a@,
                self.shared_b@,
                msg@,
            ) {
                None => r == Err::<(Vec<u8>, HandshakeKeys), _>(HandshakeError::ClientAuthVerifyFailed),
                Some((client_sig, client_pk)) => match shared_eph_longterm_spec(self.eph_sk@, client_pk) {
                    None => r == Err::<(Vec<u8>, HandshakeKeys), _>(HandshakeError::SharedCInvalid),
                    Some(c) => r matches Ok((out, keys)) && {
                        &&& out@ == server_accept_spec(
                            self.net_key@,
                            self.identity.secret_key(),
                            self.identity.public_key(),
                            client_sig,
                            client_pk,
                            self.shared_a@,
                            self.shared_b@,
                            c,
                        )
                        &&& keys@ == server_session(
                            self.net_key@,
                            self.shared_a@,
                            self.shared_b@,
                            c,
                            client_pk,
                            self.identity.public_key(),
                            self.client_eph_pk@,
                            self.eph_pk@,
                        )
                    },
                },
            },
    {
        let server_pk = self.identity.public();
        let net = &self.net_key;
        let (client_sig, client_pk) = match open_client_auth(
            net,
            &server_pk,
            &self.shared_a,
            &self.shared_b,
            msg,
        ) {
            Some(p) => p,
            None => return Err(HandshakeError::ClientAuthVerifyFailed),
        };
        let shared_c = match shared_eph_longterm(&self.eph_sk, &client_pk) {
            Some(s) => s,
            None => return Err(HandshakeError::SharedCInvalid),
        };
        let accept = build_server_accept(
            net,
            &self.identity,
            &client_sig,
            &client_pk,
            &self.shared_a,
            &self.shared_b,
            &shared_c,
        );
        let keys = HandshakeKeys {
            read_key: client_to_server_key(net, &self.shared_a, &self.shared_b, &shared_c, &server_pk),
            read_starting_nonce: starting_nonce(net, &self.client_eph_pk),
            write_key: server_to_client_key(net, &self.shared_a, &self.shared_b, &shared_c, &client_pk),
            write_starting_nonce: starting_nonce(net, &self.eph_pk),
            peer_key: client_pk,
        };
        Ok((accept, keys))
    }
}

} // verus!
