//! What the library has from other crates, and from the standard library where
//! that has no specification.
//!
//! Everything in this module is believed by the verifier, not proved: the
//! declarations of outside types, the names for what their values hold, and the
//! functions that make the outside calls. Each says what it claims.

use vstd::prelude::*;

verus! {

// ---- sha2 ----

/// The SHA-256 hash of a byte sequence.
pub uninterp spec fn sha256(data: Seq<u8>) -> Seq<u8>;

/// `sha2::Sha256::digest`. Claims that the result depends on the bytes alone and
/// is their SHA-256 hash.
#[verifier::external_body]
pub(crate) fn digest(data: &[u8]) -> (r: [u8; 32])
    ensures
        r@ == sha256(data@),
{
    <sha2::Sha256 as sha2::Digest>::digest(data).into()
}

// ---- bincode ----

/// The four bytes of `n`, lowest first.
pub open spec fn little_endian(n: u32) -> Seq<u8> {
    seq![
        (n % 0x100) as u8,
        (n / 0x100 % 0x100) as u8,
        (n / 0x1_0000 % 0x100) as u8,
        (n / 0x100_0000) as u8,
    ]
}

/// `bincode::serialize` on a tuple. Claims that the fields follow each other
/// without padding or lengths: the tag as four little-endian bytes, the version
/// as one byte, then the bytes of the digest. That is also the encoding of an
/// enum's variant with the index `tag` and these two fields.
#[verifier::external_body]
pub(crate) fn serialize_tagged(tag: u32, version: u8, digest: [u8; 32]) -> (r: Vec<u8>)
    ensures
        r@ == little_endian(tag) + seq![version] + digest@,
{
    bincode::serialize(&(tag, version, digest)).unwrap()
}

/// `bincode::serialize` on a byte array. Claims that the result is the bytes of
/// the array, with no length in front of them.
#[verifier::external_body]
pub(crate) fn serialize_digest(digest: [u8; 32]) -> (r: Vec<u8>)
    ensures
        r@ == digest@,
{
    bincode::serialize(&digest).unwrap()
}

// ---- bytes ----

#[verifier::external_type_specification]
#[verifier::external_body]
pub struct ExBytes(bytes::Bytes);

#[verifier::external_type_specification]
#[verifier::external_body]
pub struct ExBytesMut(bytes::BytesMut);

/// The bytes that a `Bytes` holds.
pub uninterp spec fn bytes_held(b: bytes::Bytes) -> Seq<u8>;

/// The bytes that a `BytesMut` holds.
pub uninterp spec fn buffer_held(b: bytes::BytesMut) -> Seq<u8>;

/// `Bytes::copy_from_slice`. Claims that the result holds the bytes of the slice.
#[verifier::external_body]
pub(crate) fn copy_from_slice(data: &[u8]) -> (r: bytes::Bytes)
    ensures
        bytes_held(r) == data@,
{
    bytes::Bytes::copy_from_slice(data)
}

/// `BytesMut::new`. Claims that the buffer is empty.
#[verifier::external_body]
pub(crate) fn empty_buffer() -> (r: bytes::BytesMut)
    ensures
        buffer_held(r) == Seq::<u8>::empty(),
{
    bytes::BytesMut::new()
}

/// `BytesMut::resize`. Claims that the buffer is cut to `new_len` bytes, or
/// filled up to them with copies of `value`. A length that no allocation can
/// have is left out, because the outside function panics on it.
#[verifier::external_body]
pub(crate) fn resize_buffer(buf: &mut bytes::BytesMut, new_len: usize, value: u8)
    requires
        new_len <= 0x7fff_ffff,
    ensures
        buffer_held(*final(buf)) == Seq::new(
            new_len as nat,
            |i: int|
                if i < buffer_held(*old(buf)).len() {
                    buffer_held(*old(buf))[i]
                } else {
                    value
                },
        ),
{
    buf.resize(new_len, value)
}

/// `<BytesMut as Deref>::deref`. Claims that the slice shows what the buffer holds.
#[verifier::external_body]
pub(crate) fn buffer_slice(buf: &bytes::BytesMut) -> (r: &[u8])
    ensures
        r@ == buffer_held(*buf),
{
    &buf[..]
}

// ---- backoff ----

#[verifier::external_type_specification]
#[verifier::external_body]
pub struct ExSystemClock(backoff::SystemClock);

#[verifier::external_type_specification]
#[verifier::external_body]
#[verifier::reject_recursive_types(C)]
pub struct ExExponentialBackoff<C>(backoff::exponential::ExponentialBackoff<C>);

/// The field `max_elapsed_time`, in nanoseconds: how long retries go on.
pub uninterp spec fn retry_limit(b: backoff::ExponentialBackoff) -> Option<nat>;

/// The field `max_interval`, in nanoseconds: where the interval stops growing.
pub uninterp spec fn interval_cap(b: backoff::ExponentialBackoff) -> nat;

/// The field `initial_interval`, in nanoseconds.
pub uninterp spec fn initial_interval(b: backoff::ExponentialBackoff) -> nat;

/// The field `current_interval`, in nanoseconds: what the next pause is drawn around.
pub uninterp spec fn current_interval(b: backoff::ExponentialBackoff) -> nat;

/// Whether the fields `randomization_factor` and `multiplier` have their defaults:
/// a half, and one and a half.
pub uninterp spec fn has_default_factors(b: backoff::ExponentialBackoff) -> bool;

/// A literal of the struct `ExponentialBackoff` with both intervals and both limits
/// given, and with the others from `Default::default`. Claims that these fields hold
/// what was given, and that the factors are the default ones.
#[verifier::external_body]
pub(crate) fn exponential_backoff(
    initial_interval_ms: u64,
    max_interval_ms: u64,
    max_elapsed_ms: Option<u64>,
) -> (r: backoff::ExponentialBackoff)
    ensures
        initial_interval(r) == initial_interval_ms * 1_000_000,
        current_interval(r) == initial_interval_ms * 1_000_000,
        interval_cap(r) == max_interval_ms * 1_000_000,
        retry_limit(r) == match max_elapsed_ms {
            Some(ms) => Some((ms * 1_000_000) as nat),
            None => None,
        },
        has_default_factors(r),
{
    backoff::ExponentialBackoff {
        initial_interval: std::time::Duration::from_millis(initial_interval_ms),
        current_interval: std::time::Duration::from_millis(initial_interval_ms),
        max_interval: std::time::Duration::from_millis(max_interval_ms),
        max_elapsed_time: max_elapsed_ms.map(std::time::Duration::from_millis),
        ..Default::default()
    }
}

/// Whether a pause, in nanoseconds, can be drawn around an interval: it is at most
/// half the interval shorter, or half the interval and a nanosecond longer.
pub open spec fn drawn_around(interval: nat, pause: int) -> bool {
    interval / 2 <= pause <= interval + interval / 2 + 1
}

/// The interval after `interval`: half as long again, but no longer than `cap`.
pub open spec fn grown_interval(interval: nat, cap: nat) -> nat {
    if 3 * interval >= 2 * cap {
        cap
    } else {
        interval + interval / 2
    }
}

/// Whether `next_backoff` may give a pause of so many nanoseconds: whether some draw
/// leads to it.
pub uninterp spec fn may_pause(b: backoff::ExponentialBackoff, pause: u128) -> bool;

/// `<ExponentialBackoff as Backoff>::next_backoff`, with the pause in nanoseconds.
/// Claims that without a limit on the elapsed time there is always a next pause,
/// which is one that may come and lies around the current interval, that the
/// interval then grows up to its cap, and that the settings stay. Which pause it
/// is, is drawn at random. The
/// outside function computes in floating point. Intervals of more than a thousand
/// seconds are left out, and so are factors other than the default ones, so that
/// its arithmetic is exact but for the draw.
#[verifier::external_body]
pub(crate) fn next_backoff(b: &mut backoff::ExponentialBackoff) -> (r: Option<u128>)
    requires
        retry_limit(*old(b)) is None,
        has_default_factors(*old(b)),
        current_interval(*old(b)) <= 1_000_000_000_000,
        interval_cap(*old(b)) <= 1_000_000_000_000,
    ensures
        r matches Some(pause) && may_pause(*old(b), pause) && drawn_around(
            current_interval(*old(b)),
            pause as int,
        ),
        current_interval(*final(b)) == grown_interval(
            current_interval(*old(b)),
            interval_cap(*old(b)),
        ),
        initial_interval(*final(b)) == initial_interval(*old(b)),
        interval_cap(*final(b)) == interval_cap(*old(b)),
        retry_limit(*final(b)) == retry_limit(*old(b)),
        has_default_factors(*final(b)),
{
    backoff::backoff::Backoff::next_backoff(b).map(|pause| pause.as_nanos())
}

/// `<ExponentialBackoff as Backoff>::reset`. Claims that the interval starts
/// over at the initial one, and that the settings stay.
#[verifier::external_body]
pub(crate) fn reset_backoff(b: &mut backoff::ExponentialBackoff)
    ensures
        current_interval(*final(b)) == initial_interval(*old(b)),
        initial_interval(*final(b)) == initial_interval(*old(b)),
        interval_cap(*final(b)) == interval_cap(*old(b)),
        retry_limit(*final(b)) == retry_limit(*old(b)),
        has_default_factors(*final(b)) == has_default_factors(*old(b)),
{
    backoff::backoff::Backoff::reset(b)
}

// ---- rcgen ----

#[verifier::external_type_specification]
#[verifier::external_body]
pub struct ExCertificate(rcgen::Certificate);

#[verifier::external_type_specification]
#[verifier::external_body]
pub struct ExRcgenError(rcgen::RcgenError);

/// The DNS names that a certificate is made for.
pub uninterp spec fn certificate_names(c: rcgen::Certificate) -> Seq<Seq<char>>;

/// The certificate's private key in DER, where the key is held in memory.
pub uninterp spec fn certificate_key(c: rcgen::Certificate) -> Option<Seq<u8>>;

/// Whether `der` is the certificate, with one of its possible signatures.
pub uninterp spec fn is_certificate_der(c: rcgen::Certificate, der: Seq<u8>) -> bool;

/// Whether everything but the names and the key of a certificate is as
/// `generate_simple_self_signed` makes it.
pub uninterp spec fn is_simple(c: rcgen::Certificate) -> bool;

/// `rcgen::generate_simple_self_signed`. Claims that the certificate is for the
/// given names, is simple otherwise, and holds its own key. The key is drawn at random, and the call
/// fails where the system has no randomness to give.
#[verifier::external_body]
pub(crate) fn generate_simple_self_signed(names: Vec<String>) -> (r: Result<
    rcgen::Certificate,
    rcgen::RcgenError,
>)
    ensures
        r matches Ok(c) ==> certificate_names(c) == names@.map_values(|n: String| n@)
            && is_simple(c) && certificate_key(c) is Some,
{
    rcgen::generate_simple_self_signed(names)
}

/// `Certificate::serialize_der`. Claims that the bytes are the certificate,
/// signed with its own key. Each signature is drawn at random, and signing can
/// fail. A name that is not ASCII is left out, and so is a certificate that is not
/// a simple one, because the outside function panics on the first and may panic on
/// the second.
#[verifier::external_body]
pub(crate) fn serialize_certificate(c: &rcgen::Certificate) -> (r: Result<
    Vec<u8>,
    rcgen::RcgenError,
>)
    requires
        is_simple(*c),
        forall|i: int|
            0 <= i < certificate_names(*c).len() ==> vstd::utf8::is_ascii_chars(
                #[trigger] certificate_names(*c)[i],
            ),
    ensures
        r matches Ok(der) ==> is_certificate_der(*c, der@),
{
    c.serialize_der()
}

/// `Certificate::serialize_private_key_der`. Claims that the bytes are the
/// certificate's private key. A key that is not in memory is left out, because
/// the outside function panics on it.
#[verifier::external_body]
pub(crate) fn serialize_private_key(c: &rcgen::Certificate) -> (r: Vec<u8>)
    requires
        certificate_key(*c) is Some,
    ensures
        Some(r@) == certificate_key(*c),
{
    c.serialize_private_key_der()
}

// ---- quinn ----

#[verifier::external_type_specification]
#[verifier::external_body]
pub struct ExServerConfig(quinn::ServerConfig);

#[verifier::external_type_specification]
#[verifier::external_body]
pub struct ExTransportConfig(quinn::TransportConfig);

#[verifier::external_type_specification]
#[verifier::external_body]
pub struct ExTlsError(rustls::Error);

/// Whether the bytes are a private key, in DER, of a kind that TLS can sign with.
pub uninterp spec fn is_signing_key(key: Seq<u8>) -> bool;

/// The certificates that a server presents, in DER.
pub uninterp spec fn server_chain(c: quinn::ServerConfig) -> Seq<Seq<u8>>;

/// The private key that a server signs with, in DER.
pub uninterp spec fn server_key(c: quinn::ServerConfig) -> Seq<u8>;

/// The transport settings of a server.
pub uninterp spec fn server_transport(c: quinn::ServerConfig) -> quinn::TransportConfig;

/// Whether a server's settings, but for its certificate and key, the key of its
/// tokens and its transport settings, are those of a new server.
pub uninterp spec fn is_plain_server(c: quinn::ServerConfig) -> bool;

/// How many unidirectional streams the settings let a peer have open at once.
pub uninterp spec fn uni_stream_limit(t: quinn::TransportConfig) -> nat;

/// Whether the settings, but for the limit on unidirectional streams, are the
/// default ones.
pub uninterp spec fn is_plain_transport(t: quinn::TransportConfig) -> bool;

/// `quinn::ServerConfig::with_single_cert` on a chain of one certificate. Claims
/// that where it succeeds the key is one to sign with, the server presents the
/// certificate and signs with the key, and its settings are those of a new server,
/// with the default transport settings. The certificate itself is not looked at.
/// The call can fail on a good key too, because loading the key takes randomness
/// from the system.
#[verifier::external_body]
pub(crate) fn with_single_cert(cert: Vec<u8>, key: Vec<u8>) -> (r: Result<
    quinn::ServerConfig,
    rustls::Error,
>)
    ensures
        r matches Ok(c) ==> {
            &&& is_signing_key(key@)
            &&& server_chain(c) == seq![cert@]
            &&& server_key(c) == key@
            &&& is_plain_server(c)
            &&& is_plain_transport(server_transport(c))
            &&& uni_stream_limit(server_transport(c)) == 100
        },
{
    let chain = vec![rustls::Certificate(cert)];
    quinn::ServerConfig::with_single_cert(chain, rustls::PrivateKey(key))
}

/// `<quinn::TransportConfig as Default>::default`. Claims that the settings are the
/// default ones, with which a peer may have a hundred unidirectional streams open.
#[verifier::external_body]
pub(crate) fn default_transport() -> (r: quinn::TransportConfig)
    ensures
        is_plain_transport(r),
        uni_stream_limit(r) == 100,
{
    quinn::TransportConfig::default()
}

/// `quinn::TransportConfig::max_concurrent_uni_streams`. Claims that the limit is
/// set, and that the other settings stay the default ones if they were.
#[verifier::external_body]
pub(crate) fn max_concurrent_uni_streams(t: &mut quinn::TransportConfig, limit: u8)
    ensures
        uni_stream_limit(*final(t)) == limit,
        is_plain_transport(*final(t)) == is_plain_transport(*old(t)),
{
    t.max_concurrent_uni_streams(limit.into());
}

/// The field `transport` of `quinn::ServerConfig`, set to settings of its own.
/// Claims that these are then the server's, and that everything else stays.
#[verifier::external_body]
pub(crate) fn with_transport(config: quinn::ServerConfig, transport: quinn::TransportConfig) -> (r:
    quinn::ServerConfig)
    ensures
        server_transport(r) == transport,
        server_chain(r) == server_chain(config),
        server_key(r) == server_key(config),
        is_plain_server(r) == is_plain_server(config),
{
    let mut config = config;
    config.transport = std::sync::Arc::new(transport);
    config
}

// ---- the standard library ----

/// `<Arc<T> as Clone>::clone`. Claims that the result points to the same value.
#[verifier::external_body]
pub(crate) fn share<T>(a: &std::sync::Arc<T>) -> (r: std::sync::Arc<T>)
    ensures
        r == *a,
{
    std::sync::Arc::clone(a)
}

} // verus!
