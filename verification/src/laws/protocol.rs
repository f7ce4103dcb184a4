//! Laws of the messages and of the keys that they carry.

use vstd::prelude::*;

use crate::outside;
use crate::protocol::{service_digest, session_key, Auth, Digest, Hello};

verus! {

/// A hello is its kind in four bytes, 0 for a control channel and 1 for a data
/// channel, then the version, then the whole digest.
pub proof fn hello_holds_kind_version_and_digest(hello: Hello, r: Vec<u8>)
    requires
        call_ensures(Hello::encode, (&hello,), r),
    ensures
        r@.len() == 37,
        r@[0] == (if hello is ControlChannelHello {
            0u8
        } else {
            1u8
        }),
        r@[1] == 0 && r@[2] == 0 && r@[3] == 0,
        match hello {
            Hello::ControlChannelHello(version, digest) => r@[4] == version && r@.skip(5)
                == digest@,
            Hello::DataChannelHello(version, digest) => r@[4] == version && r@.skip(5) == digest@,
        },
{
    match hello {
        Hello::ControlChannelHello(version, digest) => assert(r@.skip(5) =~= digest@),
        Hello::DataChannelHello(version, digest) => assert(r@.skip(5) =~= digest@),
    }
}

/// The proof of a token is the key itself, byte for byte.
pub proof fn auth_is_the_key(key: Digest, r: Vec<u8>)
    requires
        call_ensures(Auth::encode, (&Auth(key),), r),
    ensures
        r@ == key@,
{
}

/// A service is named to the server by the SHA-256 hash of its name in UTF-8.
pub proof fn service_is_named_by_its_hash(name: &str, r: Digest)
    requires
        call_ensures(service_digest, (name,), r),
    ensures
        r@ == outside::sha256(vstd::utf8::encode_utf8(name@)),
{
}

/// A session key is the SHA-256 hash of the token in UTF-8 with the nonce, as it
/// was sent, behind it.
pub proof fn session_key_hashes_token_and_nonce(token: &str, nonce: Digest, r: Digest)
    requires
        call_ensures(session_key, (token, &nonce), r),
    ensures
        r@ == outside::sha256(vstd::utf8::encode_utf8(token@) + nonce@),
{
}

} // verus!
