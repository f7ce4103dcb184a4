//! The server's side of the QUIC transport: its certificate and its settings.

use vstd::prelude::*;

use crate::outside;

verus! {

/// The name that the certificate is made for and that clients ask for.
pub const SERVER_NAME: &'static str = "localhost";

/// Why a server could not be set up.
pub enum SetupError {
    /// The certificate could not be made or signed.
    Certificate(rcgen::RcgenError),
    /// The private key cannot be used.
    Tls(rustls::Error),
}

/// The transport settings of a server are the default ones, but for one: no client
/// can open a unidirectional stream.
pub open spec fn takes_no_uni_streams(config: quinn::ServerConfig) -> bool {
    &&& outside::is_plain_transport(outside::server_transport(config))
    &&& outside::uni_stream_limit(outside::server_transport(config)) == 0
}

/// The server that was made, with the default transport settings but for the one
/// that lets no client open a unidirectional stream, and its certificate beside it;
/// or the reason why none was made.
pub fn served(made: Result<quinn::ServerConfig, rustls::Error>, cert_der: Vec<u8>) -> (r: Result<
    (quinn::ServerConfig, Vec<u8>),
    SetupError,
>)
    ensures
        match made {
            Ok(config) => r matches Ok((limited, cert)) && {
                &&& cert == cert_der
                &&& outside::server_chain(limited) == outside::server_chain(config)
                &&& outside::server_key(limited) == outside::server_key(config)
                &&& outside::is_plain_server(limited) == outside::is_plain_server(config)
                &&& takes_no_uni_streams(limited)
            },
            Err(e) => r == Err::<(quinn::ServerConfig, Vec<u8>), SetupError>(SetupError::Tls(e)),
        },
{
    match made {
        Ok(config) => {
            let mut transport = outside::default_transport();
            outside::max_concurrent_uni_streams(&mut transport, 0);
            Ok((outside::with_transport(config, transport), cert_der))
        },
        Err(e) => Err(SetupError::Tls(e)),
    }
}

/// A server that presents `cert_der` and signs with `key_der`, and that lets no
/// client open a unidirectional stream. The certificate is handed back beside it.
/// Whether a good key can be loaded is up to the system's randomness.
pub fn install_certificate(cert_der: Vec<u8>, key_der: Vec<u8>) -> (r: Result<
    (quinn::ServerConfig, Vec<u8>),
    SetupError,
>)
    ensures
        match r {
            Ok((config, cert)) => {
                &&& outside::is_signing_key(key_der@)
                &&& cert@ == cert_der@
                &&& outside::server_chain(config) == seq![cert_der@]
                &&& outside::server_key(config) == key_der@
                &&& outside::is_plain_server(config)
                &&& takes_no_uni_streams(config)
            },
            Err(e) => e is Tls,
        },
{
    let chain = copy_of(&cert_der);
    served(outside::with_single_cert(chain, key_der), cert_der)
}

fn copy_of(data: &Vec<u8>) -> (r: Vec<u8>)
    ensures
        r@ == data@,
{
    let r = data.clone();
    assert(r@ =~= data@);
    r
}

/// Makes a self-signed certificate for [`SERVER_NAME`] and a server that
/// presents it. The certificate is handed back in DER.
pub fn configure_server() -> (r: Result<(quinn::ServerConfig, Vec<u8>), SetupError>)
    ensures
        r matches Ok((config, cert)) ==> {
            &&& outside::server_chain(config) == seq![cert@]
            &&& outside::is_plain_server(config)
            &&& takes_no_uni_streams(config)
            &&& exists|c: rcgen::Certificate| #[trigger]
                outside::is_certificate_der(c, cert@) && outside::is_simple(c)
                    && outside::certificate_names(c) == seq![SERVER_NAME@]
                    && outside::certificate_key(c) == Some(outside::server_key(config))
        },
{
    let mut names: Vec<String> = Vec::new();
    names.push(SERVER_NAME.to_owned());
    assert(names@.map_values(|n: String| n@) =~= seq![SERVER_NAME@]);
    let cert = match outside::generate_simple_self_signed(names) {
        Ok(cert) => cert,
        Err(e) => return Err(SetupError::Certificate(e)),
    };
    proof {
        reveal_strlit("localhost");
    }
    let cert_der = match outside::serialize_certificate(&cert) {
        Ok(der) => der,
        Err(e) => return Err(SetupError::Certificate(e)),
    };
    let key_der = outside::serialize_private_key(&cert);
    install_certificate(cert_der, key_der)
}

} // verus!
