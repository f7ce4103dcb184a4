use tunnel_client::quic::{
    configure_server, install_certificate, served, SetupError, SERVER_NAME,
};

fn contains(haystack: &[u8], needle: &[u8]) -> bool {
    haystack.windows(needle.len()).any(|w| w == needle)
}

#[test]
fn server_with_a_fresh_certificate() {
    let (config, cert) = match configure_server() {
        Ok(made) => made,
        Err(_) => panic!("not configured"),
    };
    assert!(contains(&cert, SERVER_NAME.as_bytes()));
    assert!(format!("{:?}", config).contains("max_concurrent_uni_streams: 0"));
}

#[test]
fn certificates_are_made_anew() {
    match (configure_server(), configure_server()) {
        (Ok((_, a)), Ok((_, b))) => assert_ne!(a, b),
        _ => panic!("not configured"),
    }
}

#[test]
fn given_certificate_is_installed() {
    let made = rcgen::generate_simple_self_signed(vec!["example.org".to_string()]).unwrap();
    let cert = made.serialize_der().unwrap();
    match install_certificate(cert.clone(), made.serialize_private_key_der()) {
        Ok((config, der)) => {
            assert_eq!(der, cert);
            assert!(format!("{:?}", config).contains("max_concurrent_uni_streams: 0"));
        }
        Err(_) => panic!("not installed"),
    }
}

#[test]
fn unusable_key_is_refused() {
    assert!(matches!(install_certificate(vec![1], vec![2, 3]), Err(SetupError::Tls(_))));
}

#[test]
fn outcome_of_making_a_server() {
    let error = rustls::Error::General("no key".to_string());
    match served(Err(error), vec![1]) {
        Err(SetupError::Tls(e)) => assert_eq!(e, rustls::Error::General("no key".to_string())),
        _ => panic!("no error"),
    }
    let made = rcgen::generate_simple_self_signed(vec!["example.org".to_string()]).unwrap();
    let chain = vec![rustls::Certificate(made.serialize_der().unwrap())];
    let key = rustls::PrivateKey(made.serialize_private_key_der());
    let config = quinn::ServerConfig::with_single_cert(chain, key).unwrap();
    assert!(format!("{:?}", config).contains("max_concurrent_uni_streams: 100"));
    let unlimited = format!("{:?}", config);
    match served(Ok(config), vec![1, 2]) {
        Ok((config, cert)) => {
            assert_eq!(cert, vec![1, 2]);
            // Everything but the one limit stays as it was.
            assert_eq!(
                format!("{:?}", config),
                unlimited.replace("uni_streams: 100", "uni_streams: 0")
            );
        }
        Err(_) => panic!("not served"),
    }
}
