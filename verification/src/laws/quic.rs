//! Laws of the server's certificate and settings.

use vstd::prelude::*;

use crate::outside;
use crate::quic::{configure_server, install_certificate, served, SetupError};

verus! {

/// A server that was made is served with its own certificate and key, and with the
/// default settings but that no client opens a unidirectional stream; the
/// certificate comes back as it was given. Where none was made, that error is told.
pub proof fn made_server_is_served(
    made: Result<quinn::ServerConfig, rustls::Error>,
    cert_der: Vec<u8>,
    r: Result<(quinn::ServerConfig, Vec<u8>), SetupError>,
)
    requires
        call_ensures(served, (made, cert_der), r),
    ensures
        r is Ok <==> made is Ok,
        r matches Ok((config, cert)) ==> {
            &&& cert@ == cert_der@
            &&& outside::server_chain(config) == outside::server_chain(made->Ok_0)
            &&& outside::server_key(config) == outside::server_key(made->Ok_0)
            &&& outside::is_plain_server(config) == outside::is_plain_server(made->Ok_0)
            &&& outside::is_plain_transport(outside::server_transport(config))
            &&& outside::uni_stream_limit(outside::server_transport(config)) == 0
        },
        r matches Err(e) ==> e == SetupError::Tls(made->Err_0),
{
}

/// A server presents the one certificate that was installed, and signs with the key
/// that came with it.
pub proof fn installed_certificate_is_presented(
    cert_der: Vec<u8>,
    key_der: Vec<u8>,
    r: Result<(quinn::ServerConfig, Vec<u8>), SetupError>,
)
    requires
        call_ensures(install_certificate, (cert_der, key_der), r),
    ensures
        r matches Ok((config, cert)) ==> {
            &&& cert@ == cert_der@
            &&& outside::server_chain(config).len() == 1
            &&& outside::server_chain(config)[0] == cert_der@
            &&& outside::server_key(config) == key_der@
            &&& outside::is_signing_key(key_der@)
            &&& outside::is_plain_server(config)
            &&& outside::is_plain_transport(outside::server_transport(config))
            &&& outside::uni_stream_limit(outside::server_transport(config)) == 0
        },
        r matches Err(e) ==> e is Tls,
{
}

/// A configured server presents the certificate that is handed back. It is one for
/// `localhost` and nothing else, and the server signs with that certificate's key.
pub proof fn configured_server_is_localhost(
    r: Result<(quinn::ServerConfig, Vec<u8>), SetupError>,
)
    requires
        call_ensures(configure_server, (), r),
    ensures
        r matches Ok((config, cert)) ==> {
            &&& outside::server_chain(config).len() == 1
            &&& outside::server_chain(config)[0] == cert@
            &&& outside::is_plain_server(config)
            &&& outside::is_plain_transport(outside::server_transport(config))
            &&& outside::uni_stream_limit(outside::server_transport(config)) == 0
            &&& exists|c: rcgen::Certificate|
                {
                    &&& #[trigger] outside::is_certificate_der(c, cert@)
                    &&& outside::is_simple(c)
                    &&& outside::certificate_names(c).len() == 1
                    &&& outside::certificate_names(c)[0] == "localhost"@
                    &&& outside::certificate_key(c) == Some(outside::server_key(config))
                }
        },
{
}

} // verus!
