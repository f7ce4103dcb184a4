//! The messages between client and server, and the keys that they carry.

use vstd::prelude::*;

use crate::outside;

verus! {

/// The width of a SHA-256 hash.
pub const HASH_WIDTH_IN_BYTES: usize = 32;

/// The version that the client speaks.
pub const CURRENT_PROTO_VERSION: u8 = 1;

/// A SHA-256 hash: what names a service, a nonce or a session key.
pub type Digest = [u8; HASH_WIDTH_IN_BYTES];

/// The first message on a channel.
#[derive(Clone, Copy, Debug)]
pub enum Hello {
    /// From the client: the version and the digest of the service's name. From
    /// the server: the version and a nonce.
    ControlChannelHello(u8, Digest),
    /// The version and the session key of the control channel.
    DataChannelHello(u8, Digest),
}

/// The client's proof that it knows the service's token.
#[derive(Clone, Copy, Debug)]
pub struct Auth(pub Digest);

/// The server's answer to [`Auth`].
#[derive(Debug)]
pub enum Ack {
    Accepted,
    /// Any other answer, in words.
    Refused(String),
}

/// What a server asks for on a control channel.
#[derive(Clone, Copy, Debug, PartialEq, Eq, Structural)]
pub enum ControlChannelCmd {
    CreateDataChannel,
    HeartBeat,
}

/// What a server asks for on a data channel.
#[derive(Clone, Copy, Debug, PartialEq, Eq, Structural)]
pub enum DataChannelCmd {
    StartForwardTcp,
    StartForwardUdp,
}

/// The bytes of a hello: its kind as a 32-bit little-endian number, the version,
/// the digest.
pub open spec fn hello_bytes(hello: Hello) -> Seq<u8> {
    match hello {
        Hello::ControlChannelHello(version, digest) => seq![0u8, 0, 0, 0, version] + digest@,
        Hello::DataChannelHello(version, digest) => seq![1u8, 0, 0, 0, version] + digest@,
    }
}

impl Hello {
    pub fn encode(&self) -> (r: Vec<u8>)
        ensures
            r@ == hello_bytes(*self),
    {
        match self {
            Hello::ControlChannelHello(version, digest) => {
                let r = outside::serialize_tagged(0, *version, *digest);
                assert(r@ =~= hello_bytes(*self));
                r
            },
            Hello::DataChannelHello(version, digest) => {
                let r = outside::serialize_tagged(1, *version, *digest);
                assert(r@ =~= hello_bytes(*self));
                r
            },
        }
    }
}

impl Auth {
    pub fn encode(&self) -> (r: Vec<u8>)
        ensures
            r@ == self.0@,
    {
        outside::serialize_digest(self.0)
    }
}

/// What names a service to the server: the hash of its name.
pub fn service_digest(name: &str) -> (r: Digest)
    ensures
        r@ == outside::sha256(vstd::utf8::encode_utf8(name@)),
{
    outside::digest(name.as_bytes())
}

/// The key of a session: the hash of the token followed by the server's nonce.
pub fn session_key(token: &str, nonce: &Digest) -> (r: Digest)
    ensures
        r@ == outside::sha256(vstd::utf8::encode_utf8(token@) + nonce@),
{
    let mut concat: Vec<u8> = Vec::new();
    concat.extend_from_slice(token.as_bytes());
    concat.extend_from_slice(nonce);
    assert(concat@ =~= vstd::utf8::encode_utf8(token@) + nonce@);
    outside::digest(concat.as_slice())
}

/// A hello can be read back: no two hellos have the same bytes, whatever their
/// kinds, and all have the same number of bytes.
pub proof fn hello_bytes_are_unique(a: Hello, b: Hello)
    ensures
        hello_bytes(a).len() == 5 + HASH_WIDTH_IN_BYTES,
        hello_bytes(a) == hello_bytes(b) ==> a == b,
{
    if hello_bytes(a) == hello_bytes(b) {
        let da = match a {
            Hello::ControlChannelHello(_, d) => d,
            Hello::DataChannelHello(_, d) => d,
        };
        let db = match b {
            Hello::ControlChannelHello(_, d) => d,
            Hello::DataChannelHello(_, d) => d,
        };
        assert(hello_bytes(a)[0] == hello_bytes(b)[0]);
        assert(hello_bytes(a)[4] == hello_bytes(b)[4]);
        assert forall|i: int| 0 <= i < 32 implies da@[i] == db@[i] by {
            assert(hello_bytes(a)[i + 5] == da@[i]);
            assert(hello_bytes(b)[i + 5] == db@[i]);
        }
        assert(da@ =~= db@);
        assert(da =~= db);
    }
}

} // verus!
